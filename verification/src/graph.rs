//! Graph items: leaves, nodes and roots.

use crate::graph::children::{ChildCount, Children, SwapChildren};
use crate::ident::uuid_or_new;
use crate::param::{has_slot, ParamAccess, ParamHashMap, ParamSet, Slot};
use crate::store::ParamMapGet;
use crate::value::ValueTag;
use vstd::prelude::*;

pub mod arena;
pub mod children;
pub mod exec;
pub mod factory;

verus! {

/// The three kinds of graph item.
#[derive(Clone, Copy, Debug, PartialEq, Eq, Structural)]
pub enum ItemKind {
    /// The start of a graph; it cannot be added as a child.
    Root,
    /// An item that can have children.
    Node,
    /// A terminal item, without children.
    Leaf,
}

/// What an item does when it runs.
#[derive(Clone, Copy, Debug, PartialEq, Eq, Structural)]
pub enum GraphExec {
    RootClock,
    ClockRatio,
    Gate,
    OneHot,
    FanOut,
    StepSeq,
    MidiNote,
}

/// A recurring event in the scheduler's queue: the root at `root`, held
/// open by that root's gate number `gate`, about to make its `ticks`-th
/// step.
#[derive(Clone, Copy, Debug, PartialEq, Eq, Structural)]
pub struct EventContainer {
    pub root: usize,
    pub gate: usize,
    pub ticks: usize,
}

/// A set of children with the identifiers under which they are reported.
pub struct ChildrenUUIDs {
    pub children: Children,
    pub uuids: Vec<u128>,
}

/// The swappable children of an item, with the identifiers under which they are reported.
pub struct SwapChildrenWithUUIDs {
    pub children: SwapChildren,
    pub uuids: Vec<u128>,
}

impl SwapChildrenWithUUIDs {
    pub fn new() -> (s: Self)
        ensures
            s.children.children == Children::Empty,
            s.uuids@ == Seq::<u128>::empty(),
    {
        SwapChildrenWithUUIDs { children: SwapChildren::new(), uuids: Vec::new() }
    }

    /// Puts `children` in place of the current ones, which are handed back.
    pub fn replace(&mut self, children: ChildrenUUIDs) -> (previous: ChildrenUUIDs)
        ensures
            previous.children == old(self).children.children,
            previous.uuids == old(self).uuids,
            final(self).children.children == children.children,
            final(self).uuids == children.uuids,
    {
        let ChildrenUUIDs { children: c, uuids: u } = children;
        let pc = self.children.replace(c);
        let mut pu = u;
        std::mem::swap(&mut self.uuids, &mut pu);
        ChildrenUUIDs { children: pc, uuids: pu }
    }

    pub fn children(&self) -> (c: &SwapChildren)
        ensures
            *c == self.children,
    {
        &self.children
    }
}

/// The name of the slot through which a node or root reports which child it is on.
pub open spec fn index_slot_name() -> Seq<char> {
    "child_exec_index"@
}

/// A leaf, node or root of the graph.
pub struct GraphItem {
    pub kind: ItemKind,
    pub type_label: &'static str,
    pub uuid: u128,
    pub inner: GraphExec,
    pub params: ParamHashMap,
    pub children: SwapChildrenWithUUIDs,
    /// Every gate this root ever armed; at most the active one is open.
    pub gates: Vec<bool>,
    pub active_gate: Option<usize>,
}

impl GraphItem {
    /// The slots are well formed, a leaf has no children, only a root has
    /// gates, and of a root's gates at most the active one is open.
    pub open spec fn wf(&self) -> bool {
        &&& self.params.wf()
        &&& self.kind == ItemKind::Leaf ==> self.children.children.children == Children::Empty
            && self.children.uuids@.len() == 0
        &&& self.kind != ItemKind::Root ==> self.active_gate is None && self.gates@.len() == 0
        &&& self.active_gate matches Some(g) ==> g < self.gates@.len() && self.gates@[g as int]
        &&& forall|g: usize| #[trigger] self.gate_open(g) ==> self.active_gate == Some(g)
    }

    /// Whether gate `g` of this item is open.
    pub open spec fn gate_open(&self, g: usize) -> bool {
        g < self.gates@.len() && self.gates@[g as int]
    }

    /// Create a new leaf. A value is generated for `id` if it is `None`.
    pub fn new_leaf(
        type_label: &'static str,
        exec: GraphExec,
        params: ParamHashMap,
        id: Option<u128>,
    ) -> (item: Self)
        requires
            params.wf(),
        ensures
            item.wf(),
            item.kind == ItemKind::Leaf,
            item.type_label == type_label,
            item.inner == exec,
            item.params@ == params@,
            id matches Some(u) ==> item.uuid == u,
    {
        GraphItem {
            kind: ItemKind::Leaf,
            type_label,
            uuid: uuid_or_new(id),
            inner: exec,
            params,
            children: SwapChildrenWithUUIDs::new(),
            gates: Vec::new(),
            active_gate: None,
        }
    }

    /// The parameters of a node or root: `params` with the writing slot
    /// `child_exec_index` added.
    fn children_params(params: ParamHashMap) -> (r: (SwapChildrenWithUUIDs, ParamHashMap))
        requires
            params.wf(),
            !has_slot(params@, index_slot_name()),
        ensures
            r.0.children.children == Children::Empty,
            r.0.uuids@ == Seq::<u128>::empty(),
            r.1.wf(),
            r.1@ == params@.push(
                Slot {
                    name: index_slot_name(),
                    access: ParamAccess::new_set_spec(ValueTag::USize),
                },
            ),
    {
        let children = SwapChildrenWithUUIDs::new();
        let mut params = params;
        params.insert_unbound(
            "child_exec_index",
            ParamAccess::new_set(ParamSet::new(ValueTag::USize)),
        );
        (children, params)
    }

    /// Create a new node. A `child_exec_index` writing slot is added to
    /// `params`; it must not collide.
    pub fn new_node(
        type_label: &'static str,
        exec: GraphExec,
        params: ParamHashMap,
        id: Option<u128>,
    ) -> (item: Self)
        requires
            params.wf(),
            !has_slot(params@, index_slot_name()),
        ensures
            item.wf(),
            item.kind == ItemKind::Node,
            item.type_label == type_label,
            item.inner == exec,
            item.children.children.children == Children::Empty,
            item.children.uuids@ == Seq::<u128>::empty(),
            item.params@ == params@.push(
                Slot {
                    name: index_slot_name(),
                    access: ParamAccess::new_set_spec(ValueTag::USize),
                },
            ),
            id matches Some(u) ==> item.uuid == u,
    {
        let (children, params) = Self::children_params(params);
        GraphItem {
            kind: ItemKind::Node,
            type_label,
            uuid: uuid_or_new(id),
            inner: exec,
            params,
            children,
            gates: Vec::new(),
            active_gate: None,
        }
    }

    /// Create a new root, inactive. A `child_exec_index` writing slot is
    /// added to `params`; it must not collide.
    pub fn new_root(
        type_label: &'static str,
        exec: GraphExec,
        params: ParamHashMap,
        id: Option<u128>,
    ) -> (item: Self)
        requires
            params.wf(),
            !has_slot(params@, index_slot_name()),
        ensures
            item.wf(),
            item.kind == ItemKind::Root,
            item.type_label == type_label,
            item.inner == exec,
            item.children.children.children == Children::Empty,
            item.children.uuids@ == Seq::<u128>::empty(),
            item.active_gate is None,
            item.gates@ == Seq::<bool>::empty(),
            item.params@ == params@.push(
                Slot {
                    name: index_slot_name(),
                    access: ParamAccess::new_set_spec(ValueTag::USize),
                },
            ),
            id matches Some(u) ==> item.uuid == u,
    {
        let (children, params) = Self::children_params(params);
        GraphItem {
            kind: ItemKind::Root,
            type_label,
            uuid: uuid_or_new(id),
            inner: exec,
            params,
            children,
            gates: Vec::new(),
            active_gate: None,
        }
    }

    /// Arms a fresh gate and hands out the event that runs this root, which
    /// stands at `at`, for as long as that gate is open. A gate armed
    /// earlier is closed. `None` for an item that is no root.
    pub fn root_event(&mut self, at: usize) -> (e: Option<EventContainer>)
        requires
            old(self).wf(),
        ensures
            final(self).wf(),
            final(self).kind == old(self).kind,
            final(self).type_label == old(self).type_label,
            final(self).uuid == old(self).uuid,
            final(self).inner == old(self).inner,
            final(self).params == old(self).params,
            final(self).children == old(self).children,
            old(self).kind != ItemKind::Root ==> e.is_none() && *final(self) == *old(self),
            old(self).kind == ItemKind::Root ==> {
                let g = old(self).gates@.len();
                &&& e == Some(EventContainer { root: at, gate: g as usize, ticks: 0 })
                &&& final(self).active_gate == Some(g as usize)
                &&& final(self).gates@.len() == g + 1
                &&& forall|k: usize| final(self).gate_open(k) <==> k == g
            },
    {
        match self.kind {
            ItemKind::Root => {
                match self.active_gate {
                    Some(g) => {
                        self.gates.set(g, false);
                    },
                    None => {},
                }
                let g = self.gates.len();
                self.gates.push(true);
                self.active_gate = Some(g);
                assert forall|k: usize| #[trigger] self.gate_open(k) <==> k == g by {
                    if k < g && old(self).gate_open(k) {
                    }
                }
                Some(EventContainer { root: at, gate: g, ticks: 0 })
            },
            _ => None,
        }
    }

    /// Is this a root, and is it active?
    pub fn root_active(&self) -> (a: Option<bool>)
        ensures
            a == (if self.kind == ItemKind::Root {
                Some(self.active_gate is Some)
            } else {
                None
            }),
    {
        match self.kind {
            ItemKind::Root => Some(self.active_gate.is_some()),
            _ => None,
        }
    }

    /// Deactivate this item, if it is a root: closes its gate and forgets it.
    pub fn root_deactivate(&mut self)
        requires
            old(self).wf(),
        ensures
            final(self).wf(),
            final(self).kind == old(self).kind,
            final(self).type_label == old(self).type_label,
            final(self).uuid == old(self).uuid,
            final(self).inner == old(self).inner,
            final(self).params == old(self).params,
            final(self).children == old(self).children,
            final(self).active_gate is None,
            final(self).gates@.len() == old(self).gates@.len(),
            forall|k: usize| !final(self).gate_open(k),
    {
        match self.active_gate {
            Some(g) => {
                self.gates.set(g, false);
                self.active_gate = None;
                assert forall|k: usize| !#[trigger] self.gate_open(k) by {
                    if k != g && old(self).gate_open(k) {
                    }
                }
            },
            None => {
                assert forall|k: usize| !#[trigger] self.gate_open(k) by {
                    if old(self).gate_open(k) {
                    }
                }
            },
        }
    }

    /// The place of this item, which stands at `at`, as a child: roots cannot be children.
    pub fn get_node(&self, at: usize) -> (n: Option<usize>)
        ensures
            n == (if self.kind == ItemKind::Root {
                None
            } else {
                Some(at)
            }),
    {
        match self.kind {
            ItemKind::Root => None,
            _ => Some(at),
        }
    }

    /// Get the uuids of the children.
    pub fn children_uuids(&self) -> (u: Option<Vec<u128>>)
        ensures
            self.kind == ItemKind::Leaf ==> u.is_none(),
            self.kind != ItemKind::Leaf ==> u.is_some() && u.unwrap()@ == self.children.uuids@,
    {
        match self.kind {
            ItemKind::Leaf => None,
            _ => Some(self.children.uuids.clone()),
        }
    }

    /// `"None"`, `"NChild"` or `"Indexed"` for a node or root.
    pub fn children_type_label(&self) -> (s: Option<&'static str>)
        ensures
            self.kind == ItemKind::Leaf ==> s.is_none(),
            self.kind != ItemKind::Leaf ==> s.is_some() && s.unwrap()@
                == self.children.children.children.label_spec(),
    {
        match self.kind {
            ItemKind::Leaf => None,
            _ => Some(self.children.children.type_label()),
        }
    }

    /// The slot through which the item reports the child it is on, if it has one.
    pub fn index_binding(&self) -> (a: Option<ParamAccess>)
        ensures
            a == (if has_slot(self.params@, index_slot_name()) {
                Some(crate::param::slot_of(self.params@, index_slot_name()))
            } else {
                None
            }),
    {
        self.params.get("child_exec_index")
    }

    /// How many children the item reports.
    pub fn child_count(&self) -> (c: ChildCount)
        ensures
            c == self.children.children.children.count_spec(),
    {
        self.children.children.child_count()
    }

    /// Swap the children. A leaf refuses and hands the new ones back.
    pub fn children_swap(&mut self, new_children: ChildrenUUIDs) -> (r: Result<
        ChildrenUUIDs,
        ChildrenUUIDs,
    >)
        requires
            old(self).wf(),
        ensures
            final(self).wf(),
            final(self).kind == old(self).kind,
            final(self).type_label == old(self).type_label,
            final(self).uuid == old(self).uuid,
            final(self).inner == old(self).inner,
            final(self).params == old(self).params,
            final(self).gates == old(self).gates,
            final(self).active_gate == old(self).active_gate,
            old(self).kind == ItemKind::Leaf ==> r == Err::<ChildrenUUIDs, ChildrenUUIDs>(
                new_children,
            ) && *final(self) == *old(self),
            old(self).kind != ItemKind::Leaf ==> {
                &&& r matches Ok(previous)
                &&& previous.children == old(self).children.children.children
                &&& previous.uuids == old(self).children.uuids
                &&& final(self).children.children.children == new_children.children
                &&& final(self).children.uuids == new_children.uuids
            },
    {
        let r = match self.kind {
            ItemKind::Leaf => Err(new_children),
            _ => Ok(self.children.replace(new_children)),
        };
        assert forall|k: usize| #[trigger] self.gate_open(k) implies self.active_gate == Some(k) by {
            assert(old(self).gate_open(k));
        }
        r
    }

    /// Get the type name for this item.
    pub fn type_label(&self) -> (s: &'static str)
        ensures
            s == self.type_label,
    {
        self.type_label
    }

    /// Get the uuid for this item.
    pub fn uuid(&self) -> (u: u128)
        ensures
            u == self.uuid,
    {
        self.uuid
    }
}

impl ParamMapGet for GraphItem {
    open spec fn params_spec(&self) -> Seq<Slot> {
        self.params@
    }

    fn params(&self) -> (m: &ParamHashMap) {
        &self.params
    }
}

} // verus!
