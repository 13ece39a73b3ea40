//! A singly-linked last-in-first-out stack with verified push/pop/peek
//! operations and three traversal cursors: consuming, read-only, and mutable.

use vstd::prelude::*;

verus! {

/// A link is either the end of the chain or one exclusively owned node.
type Link<T> = Option<Box<Node<T>>>;

/// One chain element: a payload plus the stack of everything below it.
struct Node<T> {
    elem: T,
    below: List<T>,
}

/// A last-in-first-out stack of `T`, viewed as the sequence of its elements
/// from the top of the stack downward.
pub struct List<T> {
    head: Link<T>,
}

/// The sequence of elements reachable from a link, nearest first.
spec fn link_view<T>(link: Link<T>) -> Seq<T>
    decreases link,
{
    match link {
        None => Seq::empty(),
        Some(node) => seq![node.elem] + link_view(node.below.head),
    }
}

impl<T> View for List<T> {
    type V = Seq<T>;

    closed spec fn view(&self) -> Seq<T> {
        link_view(self.head)
    }
}

/// The element a non-empty stack view exposes at its top.
pub open spec fn top<T>(s: Seq<T>) -> Option<T> {
    if s.len() == 0 {
        None
    } else {
        Some(s[0])
    }
}

/// The stack view left behind once the top element is removed.
pub open spec fn rest<T>(s: Seq<T>) -> Seq<T> {
    if s.len() == 0 {
        s
    } else {
        s.drop_first()
    }
}

impl<T> List<T> {
    /// Creates an empty stack.
    pub fn new() -> (r: Self)
        ensures
            r@ == Seq::<T>::empty(),
    {
        List { head: None }
    }

    /// Pushes `elem` on top of the stack.
    pub fn push(&mut self, elem: T)
        ensures
            final(self)@ == seq![elem] + old(self)@,
    {
        let below = List { head: self.head.take() };
        self.head = Some(Box::new(Node { elem, below }));
    }

    /// Removes and returns the top element, or `None` if the stack is empty.
    pub fn pop(&mut self) -> (r: Option<T>)
        ensures
            r == top(old(self)@),
            final(self)@ == rest(old(self)@),
    {
        match self.head.take() {
            None => None,
            Some(node) => {
                let node = *node;
                let Node { elem, below } = node;
                let mut below = below;
                self.head = below.head.take();
                Some(elem)
            },
        }
    }

    /// Returns a shared reference to the top element without removing it,
    /// or `None` if the stack is empty.
    pub fn peek(&self) -> (r: Option<&T>)
        ensures
            match r {
                None => top(self@) is None,
                Some(x) => top(self@) == Some(*x),
            },
    {
        match &self.head {
            None => None,
            Some(node) => Some(&node.elem),
        }
    }

    /// Returns an exclusive reference to the top element without removing it,
    /// or `None` if the stack is empty. Writes through the reference become
    /// the new top element; the elements below the top are untouched.
    pub fn peek_mut(&mut self) -> (r: Option<&mut T>)
        ensures
            match r {
                None => top(old(self)@) is None && final(self)@ == old(self)@,
                Some(p) => top(old(self)@) == Some(*p)
                    && final(self)@ == seq![*final(p)] + rest(old(self)@),
            },
    {
        match &mut self.head {
            None => None,
            Some(node) => Some(&mut node.elem),
        }
    }
}

/// Releases every node reachable from `link`, one per loop step, keeping
/// the release depth constant however long the chain is.
fn drain<T>(link: &mut Link<T>)
    ensures
        *final(link) is None,
    opens_invariants none
    no_unwind
{
    let mut cur: Link<T> = None;
    core::mem::swap(&mut cur, link);
    loop
        decreases link_view(cur).len(),
    {
        match cur {
            None => {
                break ;
            },
            Some(node) => {
                let node = *node;
                let Node { elem: _, below } = node;
                let mut below = below;
                let mut succ: Link<T> = None;
                core::mem::swap(&mut succ, &mut below.head);
                cur = succ;
            },
        }
    }
}

impl<T> Drop for List<T> {
    /// Tears the chain down iteratively, detaching one node per step, so
    /// that dropping a long stack never recurses to the chain's depth.
    fn drop(&mut self)
        opens_invariants none
        no_unwind
    {
        drain(&mut self.head);
    }
}

/// A consuming cursor: owns the whole stack and yields its elements by
/// value in popping order.
pub struct IntoIter<T>(List<T>);

impl<T> View for IntoIter<T> {
    type V = Seq<T>;

    closed spec fn view(&self) -> Seq<T> {
        self.0@
    }
}

impl<T> List<T> {
    /// Consumes the stack, returning a cursor that yields its elements by
    /// value, top first.
    pub fn into_iter(self) -> (it: IntoIter<T>)
        ensures
            it@ == self@,
    {
        IntoIter(self)
    }
}

impl<T> IntoIter<T> {
    /// Yields the next element by value, or `None` once the cursor is
    /// exhausted; once exhausted it returns `None` forever.
    pub fn next(&mut self) -> (r: Option<T>)
        ensures
            r == top(old(self)@),
            final(self)@ == rest(old(self)@),
    {
        self.0.pop()
    }
}

/// A read-only cursor: borrows the stack shared and yields references to
/// its elements in popping order.
pub struct Iter<'a, T> {
    seg: Option<&'a List<T>>,
}

impl<'a, T> View for Iter<'a, T> {
    type V = Seq<T>;

    closed spec fn view(&self) -> Seq<T> {
        match self.seg {
            None => Seq::empty(),
            Some(list) => (*list)@,
        }
    }
}

impl<T> List<T> {
    /// Borrows the stack shared, returning a cursor that yields references
    /// to its elements, top first.
    pub fn iter(&self) -> (it: Iter<'_, T>)
        ensures
            it@ == self@,
    {
        Iter { seg: Some(self) }
    }
}

impl<'a, T> Iter<'a, T> {
    /// Yields a reference to the next element, or `None` once the cursor is
    /// exhausted; once exhausted it returns `None` forever.
    pub fn next(&mut self) -> (r: Option<&'a T>)
        ensures
            match r {
                None => top(old(self)@) is None,
                Some(x) => top(old(self)@) == Some(*x),
            },
            final(self)@ == rest(old(self)@),
    {
        match self.seg {
            None => None,
            Some(list) => match &list.head {
                None => {
                    self.seg = None;
                    None
                },
                Some(node) => {
                    self.seg = Some(&node.below);
                    Some(&node.elem)
                },
            },
        }
    }
}

/// A mutable cursor: borrows the stack exclusively and yields exclusive
/// references to its elements in popping order.
pub struct IterMut<'a, T> {
    seg: Option<&'a mut List<T>>,
}

impl<'a, T> View for IterMut<'a, T> {
    type V = Seq<T>;

    closed spec fn view(&self) -> Seq<T> {
        match self.seg {
            None => Seq::empty(),
            Some(list) => (*list)@,
        }
    }
}

impl<'a, T> IterMut<'a, T> {
    /// The exclusive borrow of the part of the stack this cursor has still
    /// to visit, or `None` once the cursor is exhausted.
    pub closed spec fn segment(&self) -> Option<&'a mut List<T>> {
        self.seg
    }
}

impl<T> List<T> {
    /// Borrows the stack exclusively, returning a cursor that yields
    /// exclusive references to its elements, top first. Once the cursor and
    /// every reference it yielded are released, the stack holds whatever was
    /// last written through each reference, each element at its position.
    pub fn iter_mut(&mut self) -> (it: IterMut<'_, T>)
        ensures
            it@ == old(self)@,
            it.segment() is Some,
            final(self)@ == final(it.segment().unwrap())@,
    {
        IterMut { seg: Some(self) }
    }
}

impl<'a, T> IterMut<'a, T> {
    /// Yields an exclusive reference to the next element, or `None` once the
    /// cursor is exhausted; once exhausted it returns `None` forever. The
    /// borrowed chain segment ends up holding whatever is last written
    /// through the yielded reference, followed by the elements the rest of
    /// the traversal leaves behind.
    pub fn next(&mut self) -> (r: Option<&'a mut T>)
        ensures
            match r {
                None => top(old(self)@) is None && final(self).segment() is None
                    && (old(self).segment() matches Some(l) ==> final(l)@ == Seq::<T>::empty()),
                Some(p) => top(old(self)@) == Some(*p)
                    && final(self)@ == rest(old(self)@)
                    && old(self).segment() is Some
                    && final(self).segment() is Some
                    && final(old(self).segment().unwrap())@ == seq![*final(p)] + final(
                    final(self).segment().unwrap())@,
            },
    {
        match self.seg.take() {
            None => None,
            Some(list) => match &mut list.head {
                None => None,
                Some(node) => {
                    let node: &mut Node<T> = &mut **node;
                    self.seg = Some(&mut node.below);
                    Some(&mut node.elem)
                },
            },
        }
    }
}

/// The stack view produced by pushing the elements of `vs`, first to last,
/// onto a stack whose view is `s`.
pub open spec fn after_pushes<T>(s: Seq<T>, vs: Seq<T>) -> Seq<T>
    decreases vs.len(),
{
    if vs.len() == 0 {
        s
    } else {
        after_pushes(seq![vs[0]] + s, vs.drop_first())
    }
}

/// Pushing a sequence of values stacks them in reverse: the value pushed
/// last lies on top, the one pushed first at the bottom. Since removal —
/// `pop` or any cursor — walks the view front to back, popping after the
/// pushes yields the values in reverse push order.
pub proof fn lemma_after_pushes_reverses<T>(s: Seq<T>, vs: Seq<T>)
    ensures
        after_pushes(s, vs) == vs.reverse() + s,
    decreases vs.len(),
{
    if vs.len() == 0 {
        assert(after_pushes(s, vs) =~= vs.reverse() + s);
    } else {
        lemma_after_pushes_reverses(seq![vs[0]] + s, vs.drop_first());
        assert(vs.drop_first().reverse() + (seq![vs[0]] + s) =~= vs.reverse() + s);
    }
}

/// Every removal — `pop`, or the advance of any of the three cursors —
/// walks the stack view front to back: after `i` removals the next result
/// is the element at index `i`, and once every element is gone each
/// further attempt signals absence and changes nothing.
pub proof fn lemma_traversal_order<T>(s: Seq<T>, i: int)
    requires
        0 <= i <= s.len(),
    ensures
        i < s.len() ==> top(s.skip(i)) == Some(s[i]) && rest(s.skip(i)) == s.skip(i + 1),
        i == s.len() ==> top(s.skip(i)) is None && rest(s.skip(i)) == s.skip(i),
{
    if i < s.len() {
        assert(rest(s.skip(i)) =~= s.skip(i + 1));
    }
}

/// Exhaustion is sticky: removing from an empty stack yields nothing and
/// leaves the stack empty, so every later attempt yields nothing too.
pub proof fn lemma_exhaustion_sticky<T>(s: Seq<T>)
    requires
        s.len() == 0,
    ensures
        top(s) is None,
        rest(s) == s,
{
}

/// Peeking agrees with popping: a top of `Some(x)` means the next `pop`
/// returns exactly `x` and removes only it — the popped element put back
/// on the remainder restores the original stack.
pub proof fn lemma_peek_agrees_with_pop<T>(s: Seq<T>, x: T)
    requires
        top(s) == Some(x),
    ensures
        s.len() > 0,
        x == s[0],
        seq![x] + rest(s) == s,
{
    assert(seq![x] + rest(s) =~= s);
}

} // verus!
