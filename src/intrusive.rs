use vstd::prelude::*;

use crate::dynamic::Dynamic;
use crate::field::{wrap_sub, Field, Ptr};

verus! {

/// One outgoing edge of an intrusive list: the address of the neighbouring link,
/// if any.
pub struct Link {
    link: Option<Ptr<Link>>,
}

impl Link {
    /// The address held, if any.
    pub closed spec fn target(&self) -> Option<nat> {
        match self.link {
            Some(p) => Some(p.spec_addr()),
            None => None,
        }
    }

    /// A link to nothing.
    pub fn new() -> (r: Self)
        ensures
            r.target() is None,
    {
        Link { link: None }
    }

    /// Forgets the neighbour.
    pub fn unlink(&mut self)
        ensures
            final(self).target() is None,
    {
        self.link = None;
    }

    /// Points at `next`.
    pub fn link(&mut self, next: Ptr<Link>)
        ensures
            final(self).target() == Some(next.spec_addr()),
    {
        self.link = Some(next);
    }

    /// Points at `next`, or at nothing.
    pub fn set(&mut self, next: Option<Ptr<Link>>)
        ensures
            final(self).target() == (match next {
                Some(p) => Some(p.spec_addr()),
                None => None,
            }),
    {
        self.link = next;
    }

    /// The neighbour's address, if any.
    pub fn get(&self) -> (r: Option<Ptr<Link>>)
        ensures
            match r {
                Some(p) => self.target() == Some(p.spec_addr()),
                None => self.target() is None,
            },
    {
        match &self.link {
            Some(p) => Some(Ptr::from_addr(p.addr())),
            None => None,
        }
    }
}

/// The two links of a node of an intrusive doubly linked list. Each link holds
/// the address of the matching link inside the neighbouring node.
pub struct DoubleLink {
    next: Link,
    prev: Link,
}

/// The fields of a `DoubleLink`: `next` first, then `prev`.
pub struct DoubleLinkFields {
    pub next: Dynamic<DoubleLink, Link>,
    pub prev: Dynamic<DoubleLink, Link>,
}

/// The address of the node whose link, `offset` bytes into it, is at `link`,
/// by wrapping address arithmetic.
pub open spec fn node_of(link: Option<nat>, offset: nat) -> Option<int> {
    match link {
        Some(a) => Some(wrap_sub(a as int, offset as int)),
        None => None,
    }
}

impl DoubleLink {
    /// The link to the following node.
    pub closed spec fn spec_next(&self) -> Link {
        self.next
    }

    /// The link to the preceding node.
    pub closed spec fn spec_prev(&self) -> Link {
        self.prev
    }

    /// The offsets of the two links inside a node.
    pub fn fields() -> (r: DoubleLinkFields)
        ensures
            r.next.spec_offset() == 0,
            r.prev.spec_offset() == vstd::layout::size_of::<Link>(),
    {
        DoubleLinkFields {
            next: Dynamic::from_offset(0),
            prev: Dynamic::from_offset(core::mem::size_of::<Link>()),
        }
    }

    /// A node linked to nothing.
    pub fn new() -> (r: Self)
        ensures
            r.spec_next().target() is None,
            r.spec_prev().target() is None,
    {
        DoubleLink { next: Link::new(), prev: Link::new() }
    }

    /// The address of the following node, recovered from its `next` link.
    pub fn next(&self) -> (r: Option<Ptr<DoubleLink>>)
        ensures
            match r {
                Some(p) => node_of(self.spec_next().target(), 0) == Some(p.spec_addr() as int),
                None => self.spec_next().target() is None,
            },
    {
        match self.next.get() {
            Some(p) => Some(Self::fields().next.wrapping_inverse_project_raw(p)),
            None => None,
        }
    }

    /// The address of the preceding node, recovered from its `prev` link.
    pub fn prev(&self) -> (r: Option<Ptr<DoubleLink>>)
        ensures
            match r {
                Some(p) => node_of(self.spec_prev().target(), vstd::layout::size_of::<Link>())
                    == Some(p.spec_addr() as int),
                None => self.spec_prev().target() is None,
            },
    {
        match self.prev.get() {
            Some(p) => Some(Self::fields().prev.wrapping_inverse_project_raw(p)),
            None => None,
        }
    }
}

/// A value carried in an intrusive doubly linked list.
pub struct Foo {
    x: Box<i32>,
    y: Box<i32>,
    link: DoubleLink,
}

impl Foo {
    /// The carried pair.
    pub closed spec fn spec_get(&self) -> (i32, i32) {
        (*self.x, *self.y)
    }

    /// The node's links.
    pub closed spec fn spec_link(&self) -> DoubleLink {
        self.link
    }

    /// Zeros, linked to nothing.
    pub fn new() -> (r: Self)
        ensures
            r.spec_get() == (0i32, 0i32),
            r.spec_link().spec_next().target() is None,
            r.spec_link().spec_prev().target() is None,
    {
        Foo { x: Box::new(0), y: Box::new(0), link: DoubleLink::new() }
    }

    /// The carried pair.
    pub fn get(&self) -> (r: (i32, i32))
        ensures
            r == self.spec_get(),
    {
        (*self.x, *self.y)
    }
}

/// A node of an intrusive binary tree: the addresses of its two children.
pub struct TreeNode {
    left: Option<Ptr<TreeNode>>,
    right: Option<Ptr<TreeNode>>,
}

impl TreeNode {
    /// Neither child is present.
    pub closed spec fn is_leaf(&self) -> bool {
        self.left is None && self.right is None
    }

    /// A node without children.
    pub fn new() -> (r: Self)
        ensures
            r.is_leaf(),
    {
        TreeNode { left: None, right: None }
    }
}

/// A node of an intrusive singly linked list: the address of the next node.
pub struct SinglyLinkedListNode {
    next: Option<Ptr<SinglyLinkedListNode>>,
}

impl SinglyLinkedListNode {
    /// The next node's address, if any.
    pub closed spec fn spec_next(&self) -> Option<nat> {
        match self.next {
            Some(p) => Some(p.spec_addr()),
            None => None,
        }
    }

    /// A node that ends a list.
    pub fn new() -> (r: Self)
        ensures
            r.spec_next() is None,
    {
        SinglyLinkedListNode { next: None }
    }

    /// Makes this node end its list; the nodes that followed are no longer
    /// reachable through it.
    pub fn set_next_to_null(&mut self)
        ensures
            final(self).spec_next() is None,
    {
        self.next = None;
    }
}

/// The colour of a red-black tree node.
#[derive(Clone, Copy, PartialEq, Eq, Structural)]
pub enum RedBlackTreeNodeColor {
    Red,
    Black,
}

/// A node of an intrusive red-black tree: its key, its colour and the addresses
/// of its parent and children.
pub struct RedBlackTreeNode<T> {
    key: T,
    color: RedBlackTreeNodeColor,
    parent: Option<Ptr<RedBlackTreeNode<T>>>,
    left_child: Option<Ptr<RedBlackTreeNode<T>>>,
    right_child: Option<Ptr<RedBlackTreeNode<T>>>,
}

impl<T> RedBlackTreeNode<T> {
    pub closed spec fn spec_key(&self) -> T {
        self.key
    }

    pub closed spec fn spec_color(&self) -> RedBlackTreeNodeColor {
        self.color
    }

    /// The node is linked to no other node.
    pub closed spec fn is_detached(&self) -> bool {
        self.parent is None && self.left_child is None && self.right_child is None
    }

    /// A black node holding `key`, linked to nothing: a complete tree by itself.
    pub fn new(key: T) -> (r: Self)
        ensures
            r.spec_key() == key,
            r.spec_color() == RedBlackTreeNodeColor::Black,
            r.is_detached(),
    {
        RedBlackTreeNode {
            key,
            color: RedBlackTreeNodeColor::Black,
            parent: None,
            left_child: None,
            right_child: None,
        }
    }

    /// The key of this node.
    pub fn key(&self) -> (r: &T)
        ensures
            *r == self.spec_key(),
    {
        &self.key
    }

    /// The colour of this node.
    pub fn color(&self) -> (r: RedBlackTreeNodeColor)
        ensures
            r == self.spec_color(),
    {
        self.color
    }

    /// Recolours this node and returns the colour it had.
    pub fn set_color(&mut self, new_color: RedBlackTreeNodeColor) -> (r: RedBlackTreeNodeColor)
        ensures
            r == old(self).spec_color(),
            final(self).spec_color() == new_color,
            final(self).spec_key() == old(self).spec_key(),
    {
        let previous = self.color;
        self.color = new_color;
        previous
    }
}

} // verus!
