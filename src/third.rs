//! An immutable singly linked list whose lists share common suffixes.
use std::rc::Rc;
use vstd::prelude::*;

verus! {

struct Node<T> {
    elem: T,
    next: Link<T>,
}

type Link<T> = Option<Rc<Node<T>>>;

/// The elements of a shared chain, front first.
spec fn link_view<T>(link: Link<T>) -> Seq<T>
    decreases link,
{
    match link {
        None => Seq::empty(),
        Some(node) => seq![node.elem] + link_view(node.next),
    }
}

/// The model of the list with `x` in front of `s`.
pub open spec fn list_prepend<T>(s: Seq<T>, x: T) -> Seq<T> {
    seq![x] + s
}

/// The model of the list after the front of `s`; empty where `s` is.
pub open spec fn list_tail<T>(s: Seq<T>) -> Seq<T> {
    if s.len() == 0 {
        s
    } else {
        s.drop_first()
    }
}

/// A persistent list: its nodes never change, and lists share them.
pub struct List<T> {
    head: Link<T>,
}

impl<T> View for List<T> {
    type V = Seq<T>;

    closed spec fn view(&self) -> Seq<T> {
        link_view(self.head)
    }
}

impl<T> List<T> {
    /// An empty list.
    pub fn new() -> (r: Self)
        ensures
            r@ == Seq::<T>::empty(),
    {
        List { head: None }
    }

    /// The front element, or `None` on an empty list.
    pub fn head(&self) -> (r: Option<&T>)
        ensures
            self@.len() == 0 ==> r is None,
            self@.len() > 0 ==> r is Some && *r.unwrap() == self@[0],
    {
        match &self.head {
            None => None,
            Some(node) => Some(&node.elem),
        }
    }

    /// A new list with `elem` in front of all of this one, which it shares
    /// rather than copies; this list is left as it was.
    pub fn prepend(&self, elem: T) -> (r: List<T>)
        ensures
            r@ == list_prepend(self@, elem),
    {
        let next = match &self.head {
            None => None,
            Some(node) => Some(Rc::clone(node)),
        };
        List { head: Some(Rc::new(Node { elem, next })) }
    }

    /// A new list sharing everything after the front element; the tail of an
    /// empty list is another empty list.
    pub fn tail(&self) -> (r: List<T>)
        ensures
            r@ == list_tail(self@),
    {
        let head = match &self.head {
            None => None,
            Some(node) => match &node.next {
                None => None,
                Some(next) => Some(Rc::clone(next)),
            },
        };
        List { head }
    }
}

/// A read-only cursor over a persistent list, front first.
pub struct Iter<'a, T> {
    next: Option<&'a Node<T>>,
}

impl<'a, T> View for Iter<'a, T> {
    type V = Seq<T>;

    /// The elements still to come, in order.
    closed spec fn view(&self) -> Seq<T> {
        match self.next {
            None => Seq::empty(),
            Some(node) => seq![node.elem] + link_view(node.next),
        }
    }
}

impl<'a, T> Iter<'a, T> {
    /// The next element, or `None` once the chain is exhausted.
    pub fn next(&mut self) -> (r: Option<&'a T>)
        ensures
            old(self)@.len() == 0 ==> r is None && final(self)@ == old(self)@,
            old(self)@.len() > 0 ==> {
                &&& r is Some
                &&& *r.unwrap() == old(self)@[0]
                &&& final(self)@ == old(self)@.drop_first()
            },
    {
        match self.next {
            None => None,
            Some(node) => {
                self.next = match &node.next {
                    None => None,
                    Some(next) => Some(&**next),
                };
                proof {
                    assert(final(self)@ =~= old(self)@.drop_first());
                }
                Some(&node.elem)
            },
        }
    }
}

impl<T> List<T> {
    /// A read-only cursor from the front; each call gives a fresh one.
    pub fn iter(&self) -> (r: Iter<'_, T>)
        ensures
            r@ == self@,
    {
        Iter {
            next: match &self.head {
                None => None,
                Some(node) => Some(&**node),
            },
        }
    }
}

/// A list built by prepending `x` to `s` has `x` in front and `s` after it,
/// while `s` itself stays as it was; the tail of an empty list is empty.
pub proof fn lemma_prepend_then_tail<T>(s: Seq<T>, x: T)
    ensures
        list_prepend(s, x)[0] == x,
        list_tail(list_prepend(s, x)) == s,
        list_tail(Seq::<T>::empty()) == Seq::<T>::empty(),
{
    assert(list_prepend(s, x).drop_first() =~= s);
}

/// Two lists built by prepending different elements to the same list both
/// continue with all of that list.
pub proof fn lemma_prepends_share_suffix<T>(s: Seq<T>, x: T, y: T)
    ensures
        list_tail(list_prepend(s, x)) == list_tail(list_prepend(s, y)),
        list_prepend(s, x).subrange(1, s.len() + 1 as int) == s,
        list_prepend(s, y).subrange(1, s.len() + 1 as int) == s,
{
    lemma_prepend_then_tail(s, x);
    lemma_prepend_then_tail(s, y);
    assert(list_prepend(s, x).subrange(1, s.len() + 1 as int) =~= s);
    assert(list_prepend(s, y).subrange(1, s.len() + 1 as int) =~= s);
}

/// Gives up one share of each node from the front of `link`, reclaiming the
/// nodes that no other list holds, and stops at the first node still shared.
fn dismantle<T>(link: Link<T>) {
    let mut cur_link = link;
    loop
        decreases link_view(cur_link).len(),
    {
        match cur_link {
            None => break,
            Some(node) => match Rc::try_unwrap(node) {
                Ok(node) => {
                    cur_link = node.next;
                },
                Err(_) => break,
            },
        }
    }
}

// Verus cannot yet check a body of `drop` that makes a call, so this one is
// left unchecked; it claims nothing and only hands the chain to `dismantle`.
impl<T> Drop for List<T> {
    #[verifier::external_body]
    fn drop(&mut self)
        opens_invariants none
        no_unwind
    {
        dismantle(self.head.take());
    }
}

} // verus!
