//! The graph: every item the control plane has made, each kept in its place
//! for as long as the graph lives, so that children and events can refer to it.

use crate::graph::children::ChildCount;
use crate::graph::{ChildrenUUIDs, EventContainer, GraphItem, ItemKind};
use crate::param::{
    bind_refusal, has_slot, slot_of, slots_bound, slots_unbound, BindingError, ParamRef, Slot,
};
use vstd::prelude::*;

verus! {

/// The place of the item last added under `uuid`.
pub open spec fn latest_item(items: Seq<GraphItem>, uuid: u128) -> Option<int>
    decreases items.len(),
{
    if items.len() == 0 {
        None
    } else if items.last().uuid == uuid {
        Some(items.len() - 1)
    } else {
        latest_item(items.drop_last(), uuid)
    }
}

/// The item found under an identifier is in the graph and carries the identifier.
pub proof fn lemma_latest_item(items: Seq<GraphItem>, uuid: u128)
    ensures
        latest_item(items, uuid) matches Some(r) ==> 0 <= r < items.len() && items[r].uuid == uuid,
    decreases items.len(),
{
    if items.len() > 0 && items.last().uuid != uuid {
        lemma_latest_item(items.drop_last(), uuid);
    }
}

/// `q` is `p` but for its slots, which are `slots`.
pub open spec fn item_rewired(p: GraphItem, q: GraphItem, slots: Seq<Slot>) -> bool {
    &&& q.kind == p.kind
    &&& q.type_label == p.type_label
    &&& q.uuid == p.uuid
    &&& q.inner == p.inner
    &&& q.children == p.children
    &&& q.gates == p.gates
    &&& q.active_gate == p.active_gate
    &&& q.params@ == slots
}

/// `q` is `p` but for its gates.
pub open spec fn item_regated(p: GraphItem, q: GraphItem) -> bool {
    &&& q.kind == p.kind
    &&& q.type_label == p.type_label
    &&& q.uuid == p.uuid
    &&& q.inner == p.inner
    &&& q.children == p.children
    &&& q.params == p.params
}

/// `q` is `p` but for its children.
pub open spec fn item_rechilded(p: GraphItem, q: GraphItem) -> bool {
    &&& q.kind == p.kind
    &&& q.type_label == p.type_label
    &&& q.uuid == p.uuid
    &&& q.inner == p.inner
    &&& q.params == p.params
    &&& q.gates == p.gates
    &&& q.active_gate == p.active_gate
}

/// Both graphs hold the same items but possibly at place `h`.
pub open spec fn same_but(a: Seq<GraphItem>, b: Seq<GraphItem>, h: int) -> bool {
    &&& a.len() == b.len()
    &&& forall|k: int| 0 <= k < a.len() && k != h ==> a[k] == b[k]
}

/// Every graph item, each at the place it was given when it came.
pub struct Graph {
    items: Vec<GraphItem>,
}

impl Graph {
    /// The items, by place.
    pub closed spec fn view(&self) -> Seq<GraphItem> {
        self.items@
    }

    /// Every item is well formed.
    pub open spec fn wf(&self) -> bool {
        forall|h: int| 0 <= h < self@.len() ==> (#[trigger] self@[h]).wf()
    }

    pub fn new() -> (g: Self)
        ensures
            g.wf(),
            g@.len() == 0,
    {
        Graph { items: Vec::new() }
    }

    pub fn len(&self) -> (n: usize)
        ensures
            n == self@.len(),
    {
        self.items.len()
    }

    /// The item last added under `uuid`.
    pub fn find(&self, uuid: u128) -> (r: Option<usize>)
        ensures
            match r {
                Some(h) => latest_item(self@, uuid) == Some(h as int) && h < self@.len(),
                None => latest_item(self@, uuid) is None,
            },
    {
        let mut i: usize = self.items.len();
        assert(self.items@.take(i as int) == self.items@);
        while i > 0
            invariant
                i <= self.items.len(),
                latest_item(self.items@, uuid) == latest_item(self.items@.take(i as int), uuid),
            decreases i,
        {
            proof {
                let s = self.items@.take(i as int);
                assert(s.last() == self.items@[i - 1]);
                assert(s.drop_last() == self.items@.take(i - 1));
            }
            if self.items[i - 1].uuid == uuid {
                return Some(i - 1);
            }
            i -= 1;
        }
        None
    }

    /// The item at `handle`.
    pub fn item(&self, handle: usize) -> (p: Option<&GraphItem>)
        ensures
            handle < self@.len() ==> p == Some(&self@[handle as int]),
            handle >= self@.len() ==> p.is_none(),
    {
        if handle < self.items.len() {
            Some(&self.items[handle])
        } else {
            None
        }
    }

    /// Takes an item in and says where it stands. An item that was known
    /// under the same identifier leaves the reach of the control plane: if
    /// it is a root, it is deactivated.
    pub fn insert(&mut self, item: GraphItem) -> (h: usize)
        requires
            old(self).wf(),
            item.wf(),
        ensures
            final(self).wf(),
            h == old(self)@.len(),
            final(self)@.len() == old(self)@.len() + 1,
            final(self)@[h as int] == item,
            match latest_item(old(self)@, item.uuid) {
                Some(r) => {
                    &&& same_but(old(self)@, final(self)@.take(h as int), r)
                    &&& item_regated(old(self)@[r], final(self)@[r])
                    &&& final(self)@[r].active_gate is None
                    &&& forall|k: usize| !final(self)@[r].gate_open(k)
                },
                None => final(self)@.take(h as int) == old(self)@,
            },
    {
        match self.find(item.uuid) {
            Some(r) => {
                assert(self@[r as int].wf());
                self.items[r].root_deactivate();
            },
            None => {},
        }
        let h = self.items.len();
        self.items.push(item);
        proof {
            match latest_item(old(self)@, item.uuid) {
                Some(r) => {
                    assert(same_but(old(self)@, final(self)@.take(h as int), r));
                },
                None => {
                    assert(final(self)@.take(h as int) =~= old(self)@);
                },
            }
        }
        h
    }

    /// Binds `source` into the slot `name` of the item at `owner`.
    pub fn try_bind(&mut self, owner: usize, name: &str, source: ParamRef) -> (r: Result<
        (),
        BindingError,
    >)
        requires
            old(self).wf(),
        ensures
            final(self).wf(),
            same_but(old(self)@, final(self)@, owner as int),
            owner >= old(self)@.len() ==> r == Err::<(), BindingError>(BindingError::NotFound),
            owner < old(self)@.len() ==> match bind_refusal(
                old(self)@[owner as int].params@,
                name@,
                source,
            ) {
                Some(e) => r == Err::<(), BindingError>(e) && final(self)@ == old(self)@,
                None => r.is_ok() && item_rewired(
                    old(self)@[owner as int],
                    final(self)@[owner as int],
                    slots_bound(old(self)@[owner as int].params@, name@, source),
                ),
            },
    {
        if owner >= self.items.len() {
            return Err(BindingError::NotFound);
        }
        assert(self@[owner as int].wf());
        let r = self.items[owner].params.try_bind(name, source);
        proof {
            if r.is_err() {
                assert(final(self)@ =~= old(self)@);
            }
            assert forall|k: usize| #[trigger]
                final(self)@[owner as int].gate_open(k) implies final(self)@[owner as int].active_gate
                == Some(k) by {
                assert(old(self)@[owner as int].gate_open(k));
            }
        }
        r
    }

    /// Unbinds the slot `name` of the item at `owner`, and hands back what was bound.
    pub fn unbind(&mut self, owner: usize, name: &str) -> (r: Option<ParamRef>)
        requires
            old(self).wf(),
        ensures
            final(self).wf(),
            same_but(old(self)@, final(self)@, owner as int),
            owner >= old(self)@.len() ==> r.is_none(),
            owner < old(self)@.len() ==> {
                let slots = old(self)@[owner as int].params@;
                &&& r == (if has_slot(slots, name@) {
                    slot_of(slots, name@).binding
                } else {
                    None
                })
                &&& item_rewired(
                    old(self)@[owner as int],
                    final(self)@[owner as int],
                    slots_unbound(slots, name@),
                )
            },
    {
        if owner >= self.items.len() {
            return None;
        }
        assert(self@[owner as int].wf());
        let r = self.items[owner].params.unbind(name);
        proof {
            assert forall|k: usize| #[trigger]
                final(self)@[owner as int].gate_open(k) implies final(self)@[owner as int].active_gate
                == Some(k) by {
                assert(old(self)@[owner as int].gate_open(k));
            }
        }
        r
    }

    /// Swaps the children of the item at `parent`. Where there is no such
    /// item, or it is a leaf, the new children are handed back.
    pub fn children_swap(&mut self, parent: usize, new_children: ChildrenUUIDs) -> (r: Result<
        ChildrenUUIDs,
        ChildrenUUIDs,
    >)
        requires
            old(self).wf(),
        ensures
            final(self).wf(),
            same_but(old(self)@, final(self)@, parent as int),
            parent >= old(self)@.len() || old(self)@[parent as int].kind == ItemKind::Leaf ==> r
                == Err::<ChildrenUUIDs, ChildrenUUIDs>(new_children) && final(self)@ == old(self)@,
            parent < old(self)@.len() && old(self)@[parent as int].kind != ItemKind::Leaf ==> {
                &&& r matches Ok(previous)
                &&& previous.children == old(self)@[parent as int].children.children.children
                &&& previous.uuids == old(self)@[parent as int].children.uuids
                &&& item_rechilded(old(self)@[parent as int], final(self)@[parent as int])
                &&& final(self)@[parent as int].children.children.children == new_children.children
                &&& final(self)@[parent as int].children.uuids == new_children.uuids
            },
    {
        if parent >= self.items.len() {
            return Err(new_children);
        }
        assert(self@[parent as int].wf());
        let r = self.items[parent].children_swap(new_children);
        proof {
            if r.is_err() {
                assert(final(self)@ =~= old(self)@);
            }
        }
        r
    }

    /// Arms the root at `handle` and hands out its event; see `GraphItem::root_event`.
    pub fn root_event(&mut self, handle: usize) -> (e: Option<EventContainer>)
        requires
            old(self).wf(),
        ensures
            final(self).wf(),
            same_but(old(self)@, final(self)@, handle as int),
            handle >= old(self)@.len() || old(self)@[handle as int].kind != ItemKind::Root
                ==> e.is_none() && final(self)@ == old(self)@,
            handle < old(self)@.len() && old(self)@[handle as int].kind == ItemKind::Root ==> {
                let g = old(self)@[handle as int].gates@.len();
                &&& e == Some(EventContainer { root: handle, gate: g as usize, ticks: 0 })
                &&& item_regated(old(self)@[handle as int], final(self)@[handle as int])
                &&& final(self)@[handle as int].active_gate == Some(g as usize)
                &&& forall|k: usize| final(self)@[handle as int].gate_open(k) <==> k == g
            },
    {
        if handle >= self.items.len() {
            return None;
        }
        assert(self@[handle as int].wf());
        let e = self.items[handle].root_event(handle);
        proof {
            if e.is_none() {
                assert(final(self)@ =~= old(self)@);
            }
        }
        e
    }

    /// Is the item at `handle` a root, and is it active?
    pub fn root_active(&self, handle: usize) -> (a: Option<bool>)
        ensures
            a == (if handle < self@.len() && self@[handle as int].kind == ItemKind::Root {
                Some(self@[handle as int].active_gate is Some)
            } else {
                None
            }),
    {
        if handle >= self.items.len() {
            return None;
        }
        self.items[handle].root_active()
    }

    /// Deactivates the item at `handle`, if it is a root.
    pub fn root_deactivate(&mut self, handle: usize)
        requires
            old(self).wf(),
        ensures
            final(self).wf(),
            same_but(old(self)@, final(self)@, handle as int),
            handle < old(self)@.len() ==> {
                &&& item_regated(old(self)@[handle as int], final(self)@[handle as int])
                &&& final(self)@[handle as int].active_gate is None
                &&& forall|k: usize| !final(self)@[handle as int].gate_open(k)
            },
    {
        if handle >= self.items.len() {
            return ;
        }
        assert(self@[handle as int].wf());
        self.items[handle].root_deactivate();
    }

    /// How many children the item at `handle` reports.
    pub fn child_count(&self, handle: usize) -> (c: ChildCount)
        ensures
            c == (if handle < self@.len() {
                self@[handle as int].children.children.children.count_spec()
            } else {
                ChildCount::Empty
            }),
    {
        if handle >= self.items.len() {
            return ChildCount::Empty;
        }
        self.items[handle].child_count()
    }
}

} // verus!
