//! Sequential listener list: the guarded-registry variant of the listener
//! store, kept as a standalone container.
//!
//! The list is held as a vector of values addressed by position instead of a
//! chain of aliased nodes, so every operation is memory-safe and its effect on
//! the abstract sequence is stated exactly. `Node` remains the unit of
//! ownership transfer: values enter and leave the list boxed in a `Node`.

use vstd::prelude::*;

verus! {

/// A single list entry. Ownership of the value moves with the node: a node is
/// owned by the caller, or by the list after a push, never by both.
pub struct Node<T> {
    pub value: T,
}

impl<T> Node<T> {
    /// Boxes a value as a list node.
    pub fn new(value: T) -> (r: Box<Node<T>>)
        ensures
            r.value == value,
    {
        Box::new(Node { value })
    }
}

/// A first-in-first-out list of values with push and pop at both ends and an
/// O(1) detach-all. Its abstract value is the sequence of stored values,
/// front first.
pub struct LinkedList<T> {
    items: Vec<T>,
}

impl<T> View for LinkedList<T> {
    type V = Seq<T>;

    closed spec fn view(&self) -> Seq<T> {
        self.items@
    }
}

impl<T> Default for LinkedList<T> {
    /// An empty list.
    fn default() -> (r: Self)
        ensures
            r@ =~= Seq::<T>::empty(),
    {
        LinkedList { items: Vec::new() }
    }
}

impl<T> LinkedList<T> {
    /// Moves a node's value to the front of the list.
    pub fn push_node_front(&mut self, node: Box<Node<T>>)
        ensures
            final(self)@ =~= seq![node.value] + old(self)@,
    {
        self.items.insert(0, node.into_value());
    }

    /// Moves a node's value to the back of the list.
    pub fn push_node_back(&mut self, node: Box<Node<T>>)
        ensures
            final(self)@ =~= old(self)@.push(node.value),
    {
        self.items.push(node.into_value());
    }

    /// Appends a value at the back.
    pub fn push_back(&mut self, value: T)
        ensures
            final(self)@ =~= old(self)@.push(value),
    {
        let node = Node::new(value);
        self.push_node_back(node);
    }

    /// Prepends a value at the front.
    pub fn push_front(&mut self, value: T)
        ensures
            final(self)@ =~= seq![value] + old(self)@,
    {
        let node = Node::new(value);
        self.push_node_front(node);
    }

    /// Removes the front value, oldest first; `None` on an empty list.
    pub fn pop_front(&mut self) -> (r: Option<Box<Node<T>>>)
        ensures
            old(self)@.len() == 0 ==> r is None && final(self)@ =~= old(self)@,
            old(self)@.len() > 0 ==> {
                &&& r is Some
                &&& r->Some_0.value == old(self)@[0]
                &&& final(self)@ =~= old(self)@.drop_first()
            },
    {
        if self.items.len() == 0 {
            None
        } else {
            let value = self.items.remove(0);
            Some(Node::new(value))
        }
    }

    /// Removes the back value; `None` on an empty list.
    pub fn pop_back(&mut self) -> (r: Option<Box<Node<T>>>)
        ensures
            old(self)@.len() == 0 ==> r is None && final(self)@ =~= old(self)@,
            old(self)@.len() > 0 ==> {
                &&& r is Some
                &&& r->Some_0.value == old(self)@.last()
                &&& final(self)@ =~= old(self)@.drop_last()
            },
    {
        if self.items.len() == 0 {
            None
        } else {
            let value = self.items.remove(self.items.len() - 1);
            Some(Node::new(value))
        }
    }

    /// Detaches the whole chain in one step: the returned list holds every
    /// value, in order, and this list is left empty.
    pub fn take_list(&mut self) -> (r: Self)
        ensures
            r@ =~= old(self)@,
            final(self)@ =~= Seq::<T>::empty(),
    {
        let mut items: Vec<T> = Vec::new();
        core::mem::swap(&mut items, &mut self.items);
        LinkedList { items }
    }

    /// A cursor over the values, front to back.
    pub fn iter_mut(&mut self) -> (r: Cursor<'_, T>)
        ensures
            r.list@ =~= old(self)@,
            r.index == 0,
    {
        Cursor::new(self)
    }
}

impl<T> Node<T> {
    /// Unboxes the node, handing its value back.
    pub fn into_value(self: Box<Self>) -> (r: T)
        ensures
            r == self.value,
    {
        (*self).value
    }
}

/// A position in a list, advanced with `next`.
pub struct Cursor<'a, T> {
    pub list: &'a LinkedList<T>,
    pub index: usize,
}

impl<'a, T> Cursor<'a, T> {
    /// A cursor standing at the front of the list.
    pub fn new(list: &'a mut LinkedList<T>) -> (r: Self)
        ensures
            r.list@ =~= old(list)@,
            *final(list) == *old(list),
            r.index == 0,
    {
        Cursor { list: &*list, index: 0 }
    }

    /// The value under the cursor, stepping the cursor past it; `None` once
    /// every value has been visited.
    pub fn next(&mut self) -> (r: Option<&'a T>)
        ensures
            old(self).index < old(self).list@.len() ==> {
                &&& r is Some
                &&& *r->Some_0 == old(self).list@[old(self).index as int]
                &&& final(self).index == old(self).index + 1
                &&& final(self).list == old(self).list
            },
            old(self).index >= old(self).list@.len() ==> r is None && *final(self) == *old(self),
    {
        if self.index < self.list.items.len() {
            let r = &self.list.items[self.index];
            self.index = self.index + 1;
            Some(r)
        } else {
            None
        }
    }
}

} // verus!
