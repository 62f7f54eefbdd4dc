//! The children of a graph item.

use vstd::prelude::*;

verus! {

/// The children of a node or root, each named by its place in the graph.
pub enum Children {
    /// None, yet.
    Empty,
    /// A single child that acts like many.
    NChild { child: usize },
    /// Children by index.
    Indexed { children: Vec<usize> },
}

/// How many children a container reports.
#[derive(Clone, Copy, Debug, PartialEq, Eq, Structural)]
pub enum ChildCount {
    Empty,
    Inf,
    Finite(usize),
}

impl Children {
    pub open spec fn count_spec(&self) -> ChildCount {
        match self {
            Children::Empty => ChildCount::Empty,
            Children::NChild { .. } => ChildCount::Inf,
            Children::Indexed { children } => ChildCount::Finite(children@.len() as usize),
        }
    }

    /// The child that runs for index `i`, if one does.
    pub open spec fn child_at(&self, i: int) -> Option<usize> {
        match self {
            Children::Empty => None,
            Children::NChild { child } => Some(*child),
            Children::Indexed { children } => if 0 <= i < children@.len() {
                Some(children@[i])
            } else {
                None
            },
        }
    }

    /// The end of the part of `[lo, hi)` in which a child can run.
    pub open spec fn clip_spec(&self, lo: usize, hi: usize) -> usize {
        match self {
            Children::Empty => lo,
            Children::NChild { .. } => hi,
            Children::Indexed { children } => if hi as int > children@.len() {
                children@.len() as usize
            } else {
                hi
            },
        }
    }

    pub open spec fn label_spec(&self) -> Seq<char> {
        match self {
            Children::Empty => "None"@,
            Children::NChild { .. } => "NChild"@,
            Children::Indexed { .. } => "Indexed"@,
        }
    }

    pub fn child_count(&self) -> (c: ChildCount)
        ensures
            c == self.count_spec(),
    {
        match self {
            Children::Empty => ChildCount::Empty,
            Children::NChild { .. } => ChildCount::Inf,
            Children::Indexed { children } => ChildCount::Finite(children.len()),
        }
    }

    pub fn child(&self, i: usize) -> (c: Option<usize>)
        ensures
            c == self.child_at(i as int),
    {
        match self {
            Children::Empty => None,
            Children::NChild { child } => Some(*child),
            Children::Indexed { children } => if i < children.len() {
                Some(children[i])
            } else {
                None
            },
        }
    }

    pub fn clip(&self, lo: usize, hi: usize) -> (end: usize)
        ensures
            end == self.clip_spec(lo, hi),
    {
        match self {
            Children::Empty => lo,
            Children::NChild { .. } => hi,
            Children::Indexed { children } => if hi > children.len() {
                children.len()
            } else {
                hi
            },
        }
    }

    /// `"None"`, `"NChild"` or `"Indexed"`.
    pub fn type_label(&self) -> (s: &'static str)
        ensures
            s@ == self.label_spec(),
    {
        match self {
            Children::Empty => "None",
            Children::NChild { .. } => "NChild",
            Children::Indexed { .. } => "Indexed",
        }
    }
}

impl Default for Children {
    fn default() -> (c: Self)
        ensures
            c == Children::Empty,
    {
        Children::Empty
    }
}

/// A wrapper for children that has swappable members.
pub struct SwapChildren {
    pub children: Children,
}

impl SwapChildren {
    pub fn new() -> (s: Self)
        ensures
            s.children == Children::Empty,
    {
        SwapChildren { children: Children::Empty }
    }

    /// Puts `children` in place of the current ones, which are handed back.
    pub fn replace(&mut self, children: Children) -> (previous: Children)
        ensures
            previous == old(self).children,
            final(self).children == children,
    {
        let mut c = children;
        std::mem::swap(&mut self.children, &mut c);
        c
    }

    pub fn type_label(&self) -> (s: &'static str)
        ensures
            s@ == self.children.label_spec(),
    {
        self.children.type_label()
    }

    pub fn child_count(&self) -> (c: ChildCount)
        ensures
            c == self.children.count_spec(),
    {
        self.children.child_count()
    }
}

} // verus!
