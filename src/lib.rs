//! Singly linked lists under two ownership disciplines: an exclusively owned
//! mutable stack and an immutable persistent list with shared suffixes.

pub mod first;
pub mod third;
