//! An exclusively owned, mutable singly linked stack.
use vstd::prelude::*;

verus! {

/// One cell of a chain: an element and the rest of the chain.
pub struct Node<T> {
    elem: T,
    next: Link<T>,
}

type Link<T> = Option<Box<Node<T>>>;

/// The elements of a chain, front first.
spec fn link_view<T>(link: Link<T>) -> Seq<T>
    decreases link,
{
    match link {
        None => Seq::empty(),
        Some(node) => seq![node.elem] + link_view(node.next),
    }
}

/// The elements of the chain that starts at `node`, front first.
pub closed spec fn node_view<T>(node: Node<T>) -> Seq<T> {
    seq![node.elem] + link_view(node.next)
}

/// The model of a stack after pushing `x` on top of `s`.
pub open spec fn stack_push<T>(s: Seq<T>, x: T) -> Seq<T> {
    seq![x] + s
}

/// The model of popping `s`: its top element, if any, and what is left.
pub open spec fn stack_pop<T>(s: Seq<T>) -> (Option<T>, Seq<T>) {
    if s.len() == 0 {
        (None, s)
    } else {
        (Some(s[0]), s.drop_first())
    }
}

/// The element that an optional shared reference points at.
pub open spec fn value_of<T>(r: Option<&T>) -> Option<T> {
    match r {
        None => None,
        Some(x) => Some(*x),
    }
}

/// The current value that an optional mutable reference points at.
pub open spec fn current_of<T>(r: Option<&mut T>) -> Option<T> {
    match r {
        None => None,
        Some(x) => Some(*x),
    }
}

/// The model of pushing the elements of `xs` on top of `s`, first to last.
pub open spec fn stack_push_all<T>(s: Seq<T>, xs: Seq<T>) -> Seq<T>
    decreases xs.len(),
{
    if xs.len() == 0 {
        s
    } else {
        stack_push_all(stack_push(s, xs[0]), xs.drop_first())
    }
}

/// The model of popping `s` `n` times: the results in order, and what is left.
pub open spec fn stack_pop_n<T>(s: Seq<T>, n: nat) -> (Seq<Option<T>>, Seq<T>)
    decreases n,
{
    if n == 0 {
        (Seq::empty(), s)
    } else {
        let (r, rest) = stack_pop(s);
        let (rs, left) = stack_pop_n(rest, (n - 1) as nat);
        (seq![r] + rs, left)
    }
}

/// A stack that exclusively owns its chain of nodes.
pub struct List<T> {
    head: Link<T>,
}

impl<T> View for List<T> {
    type V = Seq<T>;

    closed spec fn view(&self) -> Seq<T> {
        link_view(self.head)
    }
}

impl<T> List<T> {
    /// An empty stack.
    pub fn new() -> (r: Self)
        ensures
            r@ == Seq::<T>::empty(),
    {
        List { head: None }
    }

    /// Puts `elem` on top, in a new node that takes the old chain as its rest.
    pub fn push(&mut self, elem: T)
        ensures
            final(self)@ == stack_push(old(self)@, elem),
    {
        let new_node = Box::new(Node { elem, next: self.head.take() });
        self.head = Some(new_node);
    }

    /// Takes the top element off, or returns `None` on an empty stack.
    pub fn pop(&mut self) -> (r: Option<T>)
        ensures
            (r, final(self)@) == stack_pop(old(self)@),
    {
        match self.head.take() {
            None => None,
            Some(node) => {
                let node = *node;
                self.head = node.next;
                proof {
                    assert(old(self)@.drop_first() =~= link_view(self.head));
                }
                Some(node.elem)
            }
        }
    }

    /// The top element, left in place, or `None` on an empty stack.
    pub fn peek(&self) -> (r: Option<&T>)
        ensures
            value_of(r) == stack_pop(self@).0,
    {
        match &self.head {
            None => None,
            Some(node) => Some(&node.elem),
        }
    }

    /// The top element for writing in place, or `None` on an empty stack;
    /// what is written through it becomes the top of the stack.
    pub fn peek_mut(&mut self) -> (r: Option<&mut T>)
        ensures
            old(self)@.len() == 0 ==> r is None && final(self)@ == old(self)@,
            old(self)@.len() > 0 ==> {
                &&& r is Some
                &&& *r.unwrap() == old(self)@[0]
                &&& final(self)@ == old(self)@.update(0, *final(r.unwrap()))
            },
    {
        match self.head.as_mut() {
            None => None,
            Some(node) => Some(&mut node.elem),
        }
    }
}

/// Consumes a list, handing out its elements front first.
pub struct IntoIter<T>(List<T>);

impl<T> View for IntoIter<T> {
    type V = Seq<T>;

    /// The elements still to come, in order.
    closed spec fn view(&self) -> Seq<T> {
        self.0@
    }
}

impl<T> IntoIter<T> {
    /// Takes the next element off the front, as `pop` does.
    pub fn next(&mut self) -> (r: Option<T>)
        ensures
            (r, final(self)@) == stack_pop(old(self)@),
    {
        self.0.pop()
    }
}

/// A read-only cursor over a list, front first.
pub struct Iter<'a, T> {
    next: Option<&'a Node<T>>,
}

impl<'a, T> View for Iter<'a, T> {
    type V = Seq<T>;

    /// The elements still to come, in order.
    closed spec fn view(&self) -> Seq<T> {
        match self.next {
            None => Seq::empty(),
            Some(node) => node_view(*node),
        }
    }
}

impl<'a, T> Iter<'a, T> {
    /// The next element, or `None` once the chain is exhausted.
    pub fn next(&mut self) -> (r: Option<&'a T>)
        ensures
            (value_of(r), final(self)@) == stack_pop(old(self)@),
    {
        match self.next {
            None => None,
            Some(node) => {
                self.next = match &node.next {
                    None => None,
                    Some(b) => Some(&**b),
                };
                proof {
                    assert(final(self)@ =~= old(self)@.drop_first());
                }
                Some(&node.elem)
            },
        }
    }
}

/// A cursor over a list that hands out each element for mutation, front first.
pub struct IterMut<'a, T> {
    next: Option<&'a mut Node<T>>,
}

impl<'a, T> View for IterMut<'a, T> {
    type V = Seq<T>;

    /// The current values of the elements still to come, in order.
    closed spec fn view(&self) -> Seq<T> {
        match self.next {
            None => Seq::empty(),
            Some(node) => node_view(*node),
        }
    }
}

impl<'a, T> IterMut<'a, T> {
    /// The node that the cursor stands on, if any.
    pub closed spec fn front(&self) -> Option<&'a mut Node<T>> {
        self.next
    }

    /// The next element for writing in place, or `None` once the chain is
    /// exhausted. The node the cursor stood on ends up holding whatever is
    /// written through the result, followed by what the rest of the cursor
    /// leaves behind.
    pub fn next(&mut self) -> (r: Option<&'a mut T>)
        ensures
            (current_of(r), final(self)@) == stack_pop(old(self)@),
            old(self)@.len() > 0 ==> {
                &&& r is Some
                &&& node_view(*final(old(self).front().unwrap())) == seq![*final(r.unwrap())]
                    + (match final(self).front() {
                        None => Seq::empty(),
                        Some(n) => node_view(*final(n)),
                    })
            },
            final(self).front() is None <==> final(self)@.len() == 0,
    {
        match self.next.take() {
            None => None,
            Some(node) => {
                self.next = match node.next.as_mut() {
                    None => None,
                    Some(b) => Some(&mut **b),
                };
                Some(&mut node.elem)
            },
        }
    }
}

impl<T> List<T> {
    /// A read-only cursor from the top down; each call gives a fresh one.
    pub fn iter(&self) -> (r: Iter<'_, T>)
        ensures
            r@ == self@,
    {
        Iter {
            next: match &self.head {
                None => None,
                Some(b) => Some(&**b),
            },
        }
    }

    /// A cursor from the top down that hands out each element for writing;
    /// the stack ends up holding what was written through it.
    pub fn iter_mut(&mut self) -> (r: IterMut<'_, T>)
        ensures
            r@ == old(self)@,
            r.front() is None <==> r@.len() == 0,
            final(self)@ == (match r.front() {
                None => Seq::empty(),
                Some(n) => node_view(*final(n)),
            }),
    {
        IterMut {
            next: match self.head.as_mut() {
                None => None,
                Some(b) => Some(&mut **b),
            },
        }
    }

    /// Consumes the stack into a cursor that pops it from the top down.
    pub fn into_iter(self) -> (r: IntoIter<T>)
        ensures
            r@ == self@,
    {
        IntoIter(self)
    }
}

/// Pushing `xs` on a stack puts them on top in reverse order, so that every
/// traversal from the front meets the last pushed element first.
pub proof fn lemma_push_all_reverses<T>(s: Seq<T>, xs: Seq<T>)
    ensures
        stack_push_all(s, xs) == xs.reverse() + s,
    decreases xs.len(),
{
    if xs.len() > 0 {
        lemma_push_all_reverses(stack_push(s, xs[0]), xs.drop_first());
        assert(xs.drop_first().reverse() + stack_push(s, xs[0]) =~= xs.reverse() + s);
    }
}

proof fn lemma_pop_n_prefix<T>(ys: Seq<T>, s: Seq<T>)
    ensures
        stack_pop_n(ys + s, ys.len()) == (ys.map_values(|y: T| Some(y)), s),
    decreases ys.len(),
{
    if ys.len() > 0 {
        assert((ys + s).drop_first() =~= ys.drop_first() + s);
        lemma_pop_n_prefix(ys.drop_first(), s);
        assert(seq![Some(ys[0])] + ys.drop_first().map_values(|y: T| Some(y))
            =~= ys.map_values(|y: T| Some(y)));
    } else {
        assert(ys.map_values(|y: T| Some(y)) =~= Seq::empty());
        assert(ys + s =~= s);
    }
}

/// Popping a stack after pushing `xs` on it returns the elements of `xs` in
/// the reverse of the order they were pushed in, then leaves the stack as it
/// was; popping an empty stack returns nothing.
pub proof fn lemma_pop_is_last_in_first_out<T>(s: Seq<T>, xs: Seq<T>)
    ensures
        stack_pop_n(stack_push_all(s, xs), xs.len())
            == (xs.reverse().map_values(|x: T| Some(x)), s),
        stack_pop(Seq::<T>::empty()).0 is None,
{
    lemma_push_all_reverses(s, xs);
    lemma_pop_n_prefix(xs.reverse(), s);
}

/// Draining a view `s` step by step yields the elements of `s` front first
/// and leaves nothing. `iter`, `iter_mut` and `into_iter` all start from the
/// list's view and each of their `next` steps as `stack_pop` does, so the
/// three visit the same elements in the same order.
pub proof fn lemma_traversal_order<T>(s: Seq<T>)
    ensures
        stack_pop_n(s, s.len()) == (s.map_values(|x: T| Some(x)), Seq::<T>::empty()),
{
    lemma_pop_n_prefix(s, Seq::empty());
    assert(s + Seq::<T>::empty() =~= s);
}

/// Writing `v` over the top of a non-empty stack keeps its length, and the
/// next pop returns `v`.
pub proof fn lemma_pop_sees_write_to_top<T>(s: Seq<T>, v: T)
    requires
        s.len() > 0,
    ensures
        s.update(0, v).len() == s.len(),
        stack_pop(s.update(0, v)) == (Some(v), s.drop_first()),
{
    assert(s.update(0, v).drop_first() =~= s.drop_first());
}

/// Frees a chain one node at a time, front first: each node's rest is moved
/// out before the node goes, so no node's release reaches into the next.
fn dismantle<T>(link: Link<T>)
    no_unwind
{
    let mut cur_link = link;
    loop
        decreases link_view(cur_link).len(),
    {
        match cur_link {
            None => break,
            Some(boxed_node) => {
                let node = *boxed_node;
                cur_link = node.next;
            },
        }
    }
}

// Verus cannot yet check a body of `drop` that makes a call, so this one is
// left unchecked; it claims nothing and only hands the chain to `dismantle`.
impl<T> Drop for List<T> {
    #[verifier::external_body]
    fn drop(&mut self)
        opens_invariants none
        no_unwind
    {
        dismantle(self.head.take());
    }
}

} // verus!
