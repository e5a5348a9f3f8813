//! A singly-linked stack: elements are pushed and popped at the head.
//!
//! The list is modelled by the sequence of its elements from head to tail,
//! so the element pushed last stands first in the view.

use vstd::prelude::*;

verus! {

type Link<T> = Option<Box<Node<T>>>;

/// A singly-linked list of `T`, owning its nodes.
pub struct List<T> {
    head: Link<T>,
}

/// One node of a [`List`]: an element and the link to the rest.
pub struct Node<T> {
    elem: T,
    next: Link<T>,
}

/// The elements reachable from a link, head first.
spec fn link_view<T>(l: Link<T>) -> Seq<T>
    decreases l,
{
    match l {
        Option::None => Seq::empty(),
        Option::Some(node) => seq![node.elem] + link_view(node.next),
    }
}

/// The elements reachable from a node, the node's own element first.
pub closed spec fn node_view<T>(n: Node<T>) -> Seq<T> {
    seq![n.elem] + link_view(n.next)
}

/// The node a mutating walk still holds on to, if any.
pub closed spec fn walk_link<'a, T>(it: IterMut<'a, T>) -> Option<&'a mut Node<T>> {
    it.next
}

impl<T> View for List<T> {
    type V = Seq<T>;

    closed spec fn view(&self) -> Seq<T> {
        link_view(self.head)
    }
}

impl<T> List<T> {
    /// Builds an empty list.
    pub fn new() -> (l: Self)
        ensures
            l@ == Seq::<T>::empty(),
    {
        List { head: Link::None }
    }

    /// Pushes `elem` at the head of the list.
    pub fn push(&mut self, elem: T)
        ensures
            final(self)@ == seq![elem] + old(self)@,
    {
        let new_node = Box::new(Node { elem: elem, next: self.head.take() });
        self.head = Link::Some(new_node);
    }

    /// Pops the head element, if there is one.
    pub fn pop(&mut self) -> (r: Option<T>)
        ensures
            old(self)@.len() == 0 ==> r is None && final(self)@ == old(self)@,
            old(self)@.len() > 0 ==> r == Some(old(self)@[0]) && final(self)@ == old(
                self,
            )@.drop_first(),
    {
        match self.head.take() {
            None => None,
            Some(node) => {
                let n = *node;
                self.head = n.next;
                proof {
                    assert(final(self)@ =~= old(self)@.drop_first());
                }
                Some(n.elem)
            },
        }
    }

    /// Starts a borrowing walk over the list, head first.
    pub fn iter<'a>(&'a self) -> (it: Iter<'a, T>)
        ensures
            it@ == self@,
    {
        match &self.head {
            None => Iter { next: None },
            Some(node) => Iter { next: Some(&**node) },
        }
    }

    /// Turns the list into a consuming walk over its elements, head first.
    pub fn into_iter(self) -> (it: IntoIter<T>)
        ensures
            it@ == self@,
    {
        IntoIter(self)
    }

    /// Borrows the head element, if there is one.
    pub fn peek(&self) -> (r: Option<&T>)
        ensures
            match r {
                Some(e) => self@.len() > 0 && *e == self@[0],
                None => self@.len() == 0,
            },
    {
        match &self.head {
            None => None,
            Some(node) => Some(&node.elem),
        }
    }

    /// Starts a mutating walk over the list, head first. Once the walk and
    /// every borrow handed out through it are done, the list holds the
    /// written-back elements.
    #[allow(non_snake_case)]
    pub fn IterMut<'a>(&'a mut self) -> (it: IterMut<'a, T>)
        ensures
            it@ == old(self)@,
            walk_link(it) is Some <==> it@.len() > 0,
            final(self)@ == match walk_link(it) {
                Option::None => Seq::<T>::empty(),
                Option::Some(node) => node_view(*final(node)),
            },
    {
        match &mut self.head {
            None => IterMut { next: None },
            Some(node) => IterMut { next: Some(&mut **node) },
        }
    }

    /// Borrows the head element mutably, if there is one; what the caller
    /// writes through the borrow replaces the head element.
    pub fn peek_mut(&mut self) -> (r: Option<&mut T>)
        ensures
            old(self)@.len() == 0 ==> r is None && final(self)@ == old(self)@,
            old(self)@.len() > 0 ==> ({
                &&& r matches Some(p)
                &&& *p == old(self)@[0]
                &&& final(self)@ == old(self)@.update(0, *final(p))
            }),
    {
        match &mut self.head {
            None => None,
            Some(node) => Some(&mut node.elem),
        }
    }
}

impl<T> Drop for List<T> {
    /// Tears the list down link by link, so that dropping a long list does
    /// not recurse once per node.
    fn drop(&mut self)
        opens_invariants none
        no_unwind
    {
        let mut cur_link: Link<T> = None;
        core::mem::swap(&mut cur_link, &mut self.head);
        loop
            decreases cur_link,
        {
            match cur_link {
                None => {
                    break;
                },
                Some(mut boxed_node) => {
                    let mut rest: Link<T> = None;
                    core::mem::swap(&mut rest, &mut boxed_node.next);
                    cur_link = rest;
                },
            }
        }
    }
}

/// A borrowing walk over a [`List`]; its view is the sequence of elements
/// not yet handed out.
pub struct Iter<'a, T> {
    next: Option<&'a Node<T>>,
}

impl<'a, T> View for Iter<'a, T> {
    type V = Seq<T>;

    closed spec fn view(&self) -> Seq<T> {
        match self.next {
            Option::None => Seq::empty(),
            Option::Some(node) => node_view(*node),
        }
    }
}

impl<'a, T> Iter<'a, T> {
    /// Hands out the next element, or `None` once the walk is done.
    pub fn next(&mut self) -> (r: Option<&'a T>)
        ensures
            old(self)@.len() == 0 ==> r is None && final(self)@ == old(self)@,
            old(self)@.len() > 0 ==> ({
                &&& r matches Some(e)
                &&& *e == old(self)@[0]
                &&& final(self)@ == old(self)@.drop_first()
            }),
    {
        match self.next {
            None => None,
            Some(node) => {
                self.next = match &node.next {
                    None => None,
                    Some(n) => Some(&**n),
                };
                proof {
                    assert(final(self)@ =~= old(self)@.drop_first());
                }
                Some(&node.elem)
            },
        }
    }
}

/// A mutating walk over a [`List`]; its view is the sequence of elements
/// not yet handed out, as they stand now.
pub struct IterMut<'a, T> {
    next: Option<&'a mut Node<T>>,
}

impl<'a, T> View for IterMut<'a, T> {
    type V = Seq<T>;

    closed spec fn view(&self) -> Seq<T> {
        match self.next {
            Option::None => Seq::empty(),
            Option::Some(node) => node_view(*node),
        }
    }
}

impl<'a, T> IterMut<'a, T> {
    /// Hands out a mutable borrow of the next element, or `None` once the
    /// walk is done. What the caller writes through the borrow replaces
    /// that element.
    pub fn next(&mut self) -> (r: Option<&'a mut T>)
        ensures
            walk_link(*final(self)) is Some <==> final(self)@.len() > 0,
            old(self)@.len() == 0 ==> r is None && *final(self) == *old(self),
            old(self)@.len() > 0 ==> ({
                &&& r matches Some(p)
                &&& *p == old(self)@[0]
                &&& final(self)@ == old(self)@.drop_first()
                &&& walk_link(*old(self)) matches Some(node)
                &&& node_view(*final(node)) == seq![*final(p)] + match walk_link(*final(self)) {
                    Option::None => Seq::<T>::empty(),
                    Option::Some(m) => node_view(*final(m)),
                }
            }),
    {
        match self.next.take() {
            None => None,
            Some(node) => {
                self.next = match &mut node.next {
                    None => None,
                    Some(n) => Some(&mut **n),
                };
                Some(&mut node.elem)
            },
        }
    }
}

/// A consuming walk over a [`List`]; its view is the sequence of elements
/// not yet handed out.
pub struct IntoIter<T>(List<T>);

impl<T> View for IntoIter<T> {
    type V = Seq<T>;

    closed spec fn view(&self) -> Seq<T> {
        self.0@
    }
}

impl<T> IntoIter<T> {
    /// Hands out the next element, or `None` once the walk is done.
    pub fn next(&mut self) -> (r: Option<T>)
        ensures
            old(self)@.len() == 0 ==> r is None && final(self)@ == old(self)@,
            old(self)@.len() > 0 ==> r == Some(old(self)@[0]) && final(self)@ == old(
                self,
            )@.drop_first(),
    {
        self.0.pop()
    }
}

} // verus!
