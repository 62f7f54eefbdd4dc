//! The control plane: commands that create parameters and graph items and
//! wire them together, and the handler that carries them out.

use crate::error::CreateError;
use crate::graph::arena::{item_rechilded, item_regated, item_rewired, latest_item, same_but, Graph};
use crate::graph::children::Children;
use crate::graph::factory::{create_instance, graph_entry, item_slots, kind_of};
use crate::graph::{ChildrenUUIDs, EventContainer, GraphItem, ItemKind};
use crate::ident::uuid_or_new;
use crate::midi::MidiValue;
use crate::json::decode_spec;
use crate::param::factory::{create_param, made_from, param_entry};
use crate::param::{bind_refusal, slots_bound, slots_unbound, BindingError, ParamRef};
use crate::pqueue::enqueued;
use crate::sched::{QueueSource, Sched, SchedView};
use crate::store::{
    bind_outcome, latest, ref_of, store_bound, store_unbound, Param, ParamStore,
};
use crate::value::TypedValue;
use vstd::prelude::*;

verus! {

/// Why a command was not carried out.
#[derive(Clone, Copy, Debug, PartialEq, Eq, Structural)]
pub enum CommandError {
    /// No parameter with the given name on this item.
    KeyMissing,
    /// The source cannot be read, and the slot reads.
    NoGet,
    /// The source cannot be written, and the slot writes.
    NoSet,
    /// The source holds another type of value than the slot.
    TagMismatch,
    /// No factory is known under the given name.
    TypeNotFound,
    /// The arguments do not describe a value of the type asked for.
    InvalidArgs,
    /// The binding would make a parameter depend on itself.
    CycleDetected,
    /// A referenced identifier is not known, or names what cannot be a child.
    NotFound,
    /// The target cannot take what was asked: a leaf has no children, and a
    /// full event queue takes no root.
    Refused,
}

impl CommandError {
    pub open spec fn from_binding(e: BindingError) -> CommandError {
        match e {
            BindingError::KeyMissing => CommandError::KeyMissing,
            BindingError::NoGet => CommandError::NoGet,
            BindingError::NoSet => CommandError::NoSet,
            BindingError::TagMismatch => CommandError::TagMismatch,
            BindingError::CycleDetected => CommandError::CycleDetected,
            BindingError::NotFound => CommandError::NotFound,
        }
    }

    pub open spec fn from_create(e: CreateError) -> CommandError {
        match e {
            CreateError::TypeNotFound => CommandError::TypeNotFound,
            CreateError::InvalidArgs => CommandError::InvalidArgs,
        }
    }

    pub fn binding(e: BindingError) -> (c: CommandError)
        ensures
            c == Self::from_binding(e),
    {
        match e {
            BindingError::KeyMissing => CommandError::KeyMissing,
            BindingError::NoGet => CommandError::NoGet,
            BindingError::NoSet => CommandError::NoSet,
            BindingError::TagMismatch => CommandError::TagMismatch,
            BindingError::CycleDetected => CommandError::CycleDetected,
            BindingError::NotFound => CommandError::NotFound,
        }
    }

    pub fn create(e: CreateError) -> (c: CommandError)
        ensures
            c == Self::from_create(e),
    {
        match e {
            CreateError::TypeNotFound => CommandError::TypeNotFound,
            CreateError::InvalidArgs => CommandError::InvalidArgs,
        }
    }
}

/// The owner of a slot: a parameter or a graph item.
#[derive(Clone, Copy, Debug, PartialEq, Eq, Structural)]
pub enum ParamOwner {
    Param(u128),
    GraphItem(u128),
}

/// The children to give to a node or root, by identifier.
pub enum GraphNodeChildren {
    Empty,
    NChild(u128),
    Indexed(Vec<u128>),
}

/// A binding to make: the slot's name and the source's identifier.
pub struct Wire {
    pub name: String,
    pub id: u128,
}

/// What the control plane can be asked to do.
#[allow(inconsistent_fields)]
pub enum Command {
    /// Several commands, carried out one after the other.
    Batch(Vec<Command>),
    ParamBind { owner: ParamOwner, param_name: String, param_id: u128 },
    ParamUnbind { owner: ParamOwner, param_name: String },
    ParamCreate { id: Option<u128>, type_label: String, args: String, params: Option<Vec<Wire>> },
    GraphItemCreate {
        id: Option<u128>,
        type_label: String,
        args: Option<String>,
        children: Option<GraphNodeChildren>,
        params: Option<Vec<Wire>>,
    },
    GraphNodeSetChildren { parent_id: u128, children: GraphNodeChildren },
}

/// What the handler holds.
pub struct HandlerView {
    pub params: Seq<Param>,
    pub values: Seq<TypedValue>,
    pub items: Seq<GraphItem>,
    pub sched: SchedView,
}

/// What binding the parameter known as `id` into the slot `name` of
/// `owner` does, and what it answers.
pub open spec fn bind_effect(
    owner: ParamOwner,
    name: Seq<char>,
    id: u128,
    pre: HandlerView,
    post: HandlerView,
    r: Result<(), CommandError>,
) -> bool {
    &&& post.values == pre.values
    &&& post.sched == pre.sched
    &&& match latest(pre.params, id) {
        None => r == Err::<(), CommandError>(CommandError::NotFound) && post == pre,
        Some(s) => match owner {
            ParamOwner::Param(o) => match latest(pre.params, o) {
                None => r == Err::<(), CommandError>(CommandError::NotFound) && post == pre,
                Some(o) => match bind_outcome(pre.params, o, name, s) {
                    Some(e) => r == Err::<(), CommandError>(CommandError::from_binding(e)) && post
                        == pre,
                    None => r.is_ok() && post.items == pre.items && store_bound(
                        pre.params,
                        post.params,
                        o,
                        name,
                        s,
                    ),
                },
            },
            ParamOwner::GraphItem(g) => match latest_item(pre.items, g) {
                None => r == Err::<(), CommandError>(CommandError::NotFound) && post == pre,
                Some(g) => match bind_refusal(pre.items[g].params@, name, ref_of(pre.params, s)) {
                    Some(e) => r == Err::<(), CommandError>(CommandError::from_binding(e)) && post
                        == pre,
                    None => {
                        &&& r.is_ok()
                        &&& post.params == pre.params
                        &&& same_but(pre.items, post.items, g)
                        &&& item_rewired(
                            pre.items[g],
                            post.items[g],
                            slots_bound(pre.items[g].params@, name, ref_of(pre.params, s)),
                        )
                    },
                },
            },
        },
    }
}

/// What unbinding the slot `name` of `owner` does, and what it answers:
/// an unknown owner is reported, everything else succeeds.
pub open spec fn unbind_effect(
    owner: ParamOwner,
    name: Seq<char>,
    pre: HandlerView,
    post: HandlerView,
    r: Result<(), CommandError>,
) -> bool {
    &&& post.values == pre.values
    &&& post.sched == pre.sched
    &&& match owner {
        ParamOwner::Param(o) => match latest(pre.params, o) {
            None => r == Err::<(), CommandError>(CommandError::NotFound) && post == pre,
            Some(o) => r.is_ok() && post.items == pre.items && store_unbound(
                pre.params,
                post.params,
                o,
                name,
            ),
        },
        ParamOwner::GraphItem(g) => match latest_item(pre.items, g) {
            None => r == Err::<(), CommandError>(CommandError::NotFound) && post == pre,
            Some(g) => {
                &&& r.is_ok()
                &&& post.params == pre.params
                &&& same_but(pre.items, post.items, g)
                &&& item_rewired(
                    pre.items[g],
                    post.items[g],
                    slots_unbound(pre.items[g].params@, name),
                )
            },
        },
    }
}

/// The places of the items known as `ids`, if each is known and can be a child.
pub open spec fn resolved(items: Seq<GraphItem>, ids: Seq<u128>) -> Option<Seq<usize>>
    decreases ids.len(),
{
    if ids.len() == 0 {
        Some(Seq::<usize>::empty())
    } else {
        match (resolved(items, ids.drop_last()), child_place(items, ids.last())) {
            (Some(front), Some(h)) => Some(front.push(h)),
            _ => None,
        }
    }
}

/// The place of the item known as `id`, if it is known and can be a child.
pub open spec fn child_place(items: Seq<GraphItem>, id: u128) -> Option<usize> {
    match latest_item(items, id) {
        Some(h) => if items[h].kind != ItemKind::Root {
            Some(h as usize)
        } else {
            None
        },
        None => None,
    }
}

/// Whether `c` is what `wanted` stands for among `items`.
pub open spec fn children_match(items: Seq<GraphItem>, wanted: GraphNodeChildren, c: Children) -> bool {
    match wanted {
        GraphNodeChildren::Empty => c == Children::Empty,
        GraphNodeChildren::NChild(id) => child_place(items, id) matches Some(h) && c == (Children::NChild {
            child: h,
        }),
        GraphNodeChildren::Indexed(ids) => c matches Children::Indexed { children } && Some(children@)
            == resolved(items, ids@),
    }
}

/// The identifiers under which the children `wanted` are reported.
pub open spec fn wanted_uuids(wanted: GraphNodeChildren) -> Seq<u128> {
    match wanted {
        GraphNodeChildren::Empty => Seq::<u128>::empty(),
        GraphNodeChildren::NChild(id) => seq![id],
        GraphNodeChildren::Indexed(ids) => ids@,
    }
}

/// Whether every identifier in `wanted` names an item that can be a child.
pub open spec fn children_known(items: Seq<GraphItem>, wanted: GraphNodeChildren) -> bool {
    match wanted {
        GraphNodeChildren::Empty => true,
        GraphNodeChildren::NChild(id) => child_place(items, id) is Some,
        GraphNodeChildren::Indexed(ids) => resolved(items, ids@) is Some,
    }
}

/// What giving the item known as `parent_id` the children `wanted` does,
/// and what it answers. Either all of it happens or nothing.
pub open spec fn set_children_effect(
    parent_id: u128,
    wanted: GraphNodeChildren,
    pre: HandlerView,
    post: HandlerView,
    r: Result<(), CommandError>,
) -> bool {
    &&& post.values == pre.values
    &&& post.sched == pre.sched
    &&& post.params == pre.params
    &&& match latest_item(pre.items, parent_id) {
        None => r == Err::<(), CommandError>(CommandError::NotFound) && post == pre,
        Some(p) => if !children_known(pre.items, wanted) {
            r == Err::<(), CommandError>(CommandError::NotFound) && post == pre
        } else if pre.items[p].kind == ItemKind::Leaf {
            r == Err::<(), CommandError>(CommandError::Refused) && post == pre
        } else {
            &&& r.is_ok()
            &&& same_but(pre.items, post.items, p)
            &&& item_rechilded(pre.items[p], post.items[p])
            &&& children_match(pre.items, wanted, post.items[p].children.children.children)
            &&& post.items[p].children.uuids@ == wanted_uuids(wanted)
        },
    }
}

/// The bindings an optional list asks for.
pub open spec fn wires_of(wires: Option<Vec<Wire>>) -> Seq<Wire> {
    match wires {
        Some(w) => w@,
        None => Seq::<Wire>::empty(),
    }
}

/// What making the first `n` of the bindings `wires` into slots of
/// `owner` does, one after the other, whatever each of them answers.
pub open spec fn wired(owner: ParamOwner, wires: Seq<Wire>, n: int, pre: HandlerView, post: HandlerView) -> bool
    decreases n,
{
    if n <= 0 {
        post == pre
    } else {
        exists|mid: HandlerView, r: Result<(), CommandError>|
            wired(owner, wires, n - 1, pre, mid) && #[trigger] bind_effect(
                owner,
                wires[n - 1].name@,
                wires[n - 1].id,
                mid,
                post,
                r,
            )
    }
}

/// The state after the parameter `p` was taken in.
pub open spec fn with_param(pre: HandlerView, p: Param) -> HandlerView {
    HandlerView {
        params: pre.params.push(p),
        values: pre.values.push(p.data.binding_spec().initial_spec()),
        ..pre
    }
}

/// What creating a parameter does, and what it answers: the identifier of
/// the parameter that was made. An unknown factory name is refused, and so
/// are arguments that do not stand for a value of the type; nothing changes
/// then. Else the parameter is the one the factory makes from that value
/// under the given identifier, or under a fresh one, and the bindings are
/// then made into its slots.
pub open spec fn param_create_effect(
    id: Option<u128>,
    label: Seq<char>,
    args: Seq<char>,
    wires: Seq<Wire>,
    pre: HandlerView,
    post: HandlerView,
    r: Result<u128, CommandError>,
) -> bool {
    match param_entry(label) {
        None => r == Err::<u128, CommandError>(CommandError::TypeNotFound) && post == pre,
        Some((kind, tag)) => match decode_spec(tag, args) {
            None => r == Err::<u128, CommandError>(CommandError::InvalidArgs) && post == pre,
            Some(v) => {
                &&& r matches Ok(uuid)
                &&& id matches Some(u) ==> uuid == u
                &&& param_made(kind, tag, v, uuid, wires, pre, post)
            },
        },
    }
}

/// What making a parameter of the entry `(kind, tag)` from `v` under
/// `uuid` and wiring it does: the parameter that the entry makes is taken
/// in, and the bindings are made into its slots.
pub open spec fn param_made(
    kind: crate::param::factory::FactoryKind,
    tag: crate::value::ValueTag,
    v: TypedValue,
    uuid: u128,
    wires: Seq<Wire>,
    pre: HandlerView,
    post: HandlerView,
) -> bool {
    exists|p: Param|
        {
            &&& #[trigger] made_from(p, kind, tag, v, uuid)
            &&& wired(ParamOwner::Param(uuid), wires, wires.len() as int, with_param(pre, p), post)
        }
}

/// Whether `item` is what the graph factory makes for `exec` under `uuid`.
pub open spec fn made_item(item: GraphItem, exec: crate::graph::GraphExec, uuid: u128) -> bool {
    &&& item.wf()
    &&& item.uuid == uuid
    &&& item.inner == exec
    &&& item.kind == kind_of(exec)
    &&& item.type_label@ == crate::graph::factory::label_spec(exec)
    &&& item.params@ == item_slots(exec)
    &&& item.children.children.children == Children::Empty
    &&& item.children.uuids@.len() == 0
    &&& item.active_gate is None
    &&& item.gates@.len() == 0
}

/// The graph and the scheduler after `item` was taken in. An item that was
/// known under the same identifier is deactivated if it is a root. A root
/// is armed at once, and its event queued for tick zero.
pub open spec fn item_added(pre: HandlerView, post: HandlerView, item: GraphItem) -> bool {
    let h = pre.items.len() as int;
    &&& post.params == pre.params
    &&& post.values == pre.values
    &&& post.items.len() == h + 1
    &&& match latest_item(pre.items, item.uuid) {
        Some(r) => {
            &&& same_but(pre.items, post.items.take(h), r)
            &&& item_regated(pre.items[r], post.items[r])
            &&& post.items[r].active_gate is None
            &&& forall|k: usize| !post.items[r].gate_open(k)
        },
        None => post.items.take(h) == pre.items,
    }
    &&& if item.kind == ItemKind::Root {
        let g = item.gates@.len() as usize;
        &&& item_regated(item, post.items[h])
        &&& post.items[h].active_gate == Some(g)
        &&& forall|k: usize| post.items[h].gate_open(k) <==> k == g
        &&& post.sched == (SchedView {
            queue: enqueued(pre.sched.queue, 0, EventContainer { root: h as usize, gate: g, ticks: 0 }),
            ..pre.sched
        })
    } else {
        post.items[h] == item && post.sched == pre.sched
    }
}

/// Whether the event queue has no room for another root.
pub open spec fn queue_full(pre: HandlerView) -> bool {
    pre.sched.queue.len() >= pre.sched.queue_cap
}

/// What creating a graph item does, and what it answers: the identifier of
/// the item that was made. An unknown factory name is refused, and so is a
/// root while the event queue is full; nothing changes then. Else the item
/// is taken in, then given its children if any are asked for, then the
/// bindings are made into its slots, whatever each of these steps answers.
pub open spec fn graph_create_effect(
    id: Option<u128>,
    label: Seq<char>,
    children: Option<GraphNodeChildren>,
    wires: Seq<Wire>,
    pre: HandlerView,
    post: HandlerView,
    r: Result<u128, CommandError>,
) -> bool {
    match graph_entry(label) {
        None => r == Err::<u128, CommandError>(CommandError::TypeNotFound) && post == pre,
        Some(exec) => if kind_of(exec) == ItemKind::Root && queue_full(pre) {
            r == Err::<u128, CommandError>(CommandError::Refused) && post == pre
        } else {
            &&& r matches Ok(uuid)
            &&& id matches Some(u) ==> uuid == u
            &&& item_made(exec, uuid, children, wires, pre, post)
        },
    }
}

/// What giving a new item its children does, if any are asked for, whatever it answers.
pub open spec fn childed(uuid: u128, children: Option<GraphNodeChildren>, pre: HandlerView, post: HandlerView) -> bool {
    match children {
        Some(c) => exists|rc: Result<(), CommandError>| #[trigger]
            set_children_effect(uuid, c, pre, post, rc),
        None => post == pre,
    }
}

/// What making a graph item for `exec` under `uuid` does: some item that
/// the factory makes is taken in, then given its children, then wired.
pub open spec fn item_made(
    exec: crate::graph::GraphExec,
    uuid: u128,
    children: Option<GraphNodeChildren>,
    wires: Seq<Wire>,
    pre: HandlerView,
    post: HandlerView,
) -> bool {
    exists|item: GraphItem, added: HandlerView, with_children: HandlerView|
        {
            &&& made_item(item, exec, uuid)
            &&& #[trigger] item_added(pre, added, item)
            &&& #[trigger] childed(uuid, children, added, with_children)
            &&& wired(
                ParamOwner::GraphItem(uuid),
                wires,
                wires.len() as int,
                with_children,
                post,
            )
        }
}

/// What carrying out a command does, whatever it answers.
pub open spec fn command_effect(cmd: Command, pre: HandlerView, post: HandlerView) -> bool
    decreases cmd, 0nat,
{
    match cmd {
        Command::Batch(cs) => batch_effect(cs, cs@.len() as int, pre, post),
        Command::ParamBind { owner, param_name, param_id } => exists|r: Result<(), CommandError>| #[trigger]
            bind_effect(owner, param_name@, param_id, pre, post, r),
        Command::ParamUnbind { owner, param_name } => exists|r: Result<(), CommandError>| #[trigger]
            unbind_effect(owner, param_name@, pre, post, r),
        Command::ParamCreate { id, type_label, args, params } => exists|r: Result<u128, CommandError>| #[trigger]
            param_create_effect(id, type_label@, args@, wires_of(params), pre, post, r),
        Command::GraphItemCreate { id, type_label, args, children, params } => exists|
            r: Result<u128, CommandError>,
        | #[trigger] graph_create_effect(id, type_label@, children, wires_of(params), pre, post, r),
        Command::GraphNodeSetChildren { parent_id, children } => exists|r: Result<(), CommandError>| #[trigger]
            set_children_effect(parent_id, children, pre, post, r),
    }
}

/// What carrying out the first `n` of the commands `cs` does, one after the other.
pub open spec fn batch_effect(cs: Vec<Command>, n: int, pre: HandlerView, post: HandlerView) -> bool
    decreases cs, n,
{
    if n <= 0 || n > cs@.len() {
        post == pre
    } else {
        exists|mid: HandlerView| #[trigger]
            passed(mid) && batch_effect(cs, n - 1, pre, mid) && command_effect(cs[n - 1], mid, post)
    }
}

/// Marks a state that the handler passes through between two steps.
pub open spec fn passed(mid: HandlerView) -> bool {
    true
}

/// The handler of commands, with all that the commands work on.
pub struct OSCQueryHandler {
    pub params: ParamStore,
    pub graph: Graph,
    pub sched: Sched,
}

impl OSCQueryHandler {
    /// What the handler holds.
    pub open spec fn view(&self) -> HandlerView {
        HandlerView {
            params: self.params@.params,
            values: self.params@.values,
            items: self.graph@,
            sched: self.sched@,
        }
    }

    /// The store, the graph and the scheduler are well formed.
    pub open spec fn wf(&self) -> bool {
        self.params.wf() && self.graph.wf() && self.sched.wf()
    }

    /// A handler without parameters or graph items, around `sched`.
    pub fn new(sched: Sched) -> (h: Self)
        requires
            sched.wf(),
        ensures
            h.wf(),
            h@.params.len() == 0,
            h@.values.len() == 0,
            h@.items.len() == 0,
            h@.sched == sched@,
    {
        OSCQueryHandler { params: ParamStore::new(), graph: Graph::new(), sched }
    }

    /// Takes a parameter in and makes it known under its identifier.
    pub fn add_param(&mut self, param: Param) -> (r: ParamRef)
        requires
            old(self).wf(),
            param.wf(),
            param.unbound(),
        ensures
            final(self).wf(),
            final(self)@.params == old(self)@.params.push(param),
            final(self)@.values == old(self)@.values.push(param.data.binding_spec().initial_spec()),
            final(self)@.items == old(self)@.items,
            final(self)@.sched == old(self)@.sched,
            r == ref_of(final(self)@.params, old(self)@.params.len() as int),
    {
        self.params.insert(param)
    }

    /// Binds the parameter known as `param_id` into the slot `param_name` of `owner`.
    pub fn param_bind(&mut self, owner: &ParamOwner, param_name: &str, param_id: u128) -> (r: Result<
        (),
        CommandError,
    >)
        requires
            old(self).wf(),
        ensures
            final(self).wf(),
            bind_effect(*owner, param_name@, param_id, old(self)@, final(self)@, r),
    {
        let source = match self.params.find(param_id) {
            Some(s) => s,
            None => {
                return Err(CommandError::NotFound);
            },
        };
        match owner {
            ParamOwner::Param(o) => {
                match self.params.find(*o) {
                    None => Err(CommandError::NotFound),
                    Some(o) => match self.params.try_bind(o, param_name, source) {
                        Ok(()) => Ok(()),
                        Err(e) => Err(CommandError::binding(e)),
                    },
                }
            },
            ParamOwner::GraphItem(g) => {
                match self.graph.find(*g) {
                    None => Err(CommandError::NotFound),
                    Some(g) => {
                        let source_ref = self.params.param_ref(source).unwrap();
                        match self.graph.try_bind(g, param_name, source_ref) {
                            Ok(()) => Ok(()),
                            Err(e) => Err(CommandError::binding(e)),
                        }
                    },
                }
            },
        }
    }

    /// Unbinds the slot `param_name` of `owner`.
    pub fn param_unbind(&mut self, owner: &ParamOwner, param_name: &str) -> (r: Result<
        (),
        CommandError,
    >)
        requires
            old(self).wf(),
        ensures
            final(self).wf(),
            unbind_effect(*owner, param_name@, old(self)@, final(self)@, r),
    {
        match owner {
            ParamOwner::Param(o) => {
                match self.params.find(*o) {
                    None => Err(CommandError::NotFound),
                    Some(o) => {
                        let _ = self.params.unbind(o, param_name);
                        Ok(())
                    },
                }
            },
            ParamOwner::GraphItem(g) => {
                match self.graph.find(*g) {
                    None => Err(CommandError::NotFound),
                    Some(g) => {
                        let _ = self.graph.unbind(g, param_name);
                        Ok(())
                    },
                }
            },
        }
    }

    /// Takes a graph item in and makes it known under its identifier. A
    /// root is armed and its event queued for tick zero; while the event
    /// queue is full a root is handed back instead.
    pub fn add_graph_item(&mut self, item: GraphItem) -> (r: Result<usize, GraphItem>)
        requires
            old(self).wf(),
            item.wf(),
        ensures
            final(self).wf(),
            item.kind == ItemKind::Root && queue_full(old(self)@) ==> (r matches Err(back) && back
                == item && final(self)@ == old(self)@),
            !(item.kind == ItemKind::Root && queue_full(old(self)@)) ==> r == Ok::<usize, GraphItem>(
                old(self)@.items.len() as usize,
            ) && item_added(old(self)@, final(self)@, item),
    {
        let is_root = match item.kind {
            ItemKind::Root => true,
            _ => false,
        };
        if is_root && self.sched.queue_sources().sched_queue().len() >= self.sched.queue_capacity() {
            return Err(item);
        }
        let h = self.graph.insert(item);
        let ghost inserted = self.graph@;
        match self.graph.root_event(h) {
            Some(e) => {
                let r = self.sched.enqueue(0, e);
                assert(r.is_ok());
            },
            None => {},
        }
        proof {
            assert(self.graph@.take(h as int) =~= inserted.take(h as int));
            match latest_item(old(self)@.items, item.uuid) {
                Some(r) => {
                    crate::graph::arena::lemma_latest_item(old(self)@.items, item.uuid);
                    assert(self.graph@[r] == inserted[r]);
                    assert(self.graph@.take(h as int)[r] == inserted[r]);
                },
                None => {},
            }
            if item.kind != ItemKind::Root {
                assert(self.graph@ =~= inserted);
            }
        }
        Ok(h)
    }

    /// Makes the bindings `wires` into slots of `owner`, one after the other.
    fn wire(&mut self, owner: ParamOwner, wires: &Option<Vec<Wire>>)
        requires
            old(self).wf(),
        ensures
            final(self).wf(),
            wired(owner, wires_of(*wires), wires_of(*wires).len() as int, old(self)@, final(self)@),
    {
        match wires {
            None => {},
            Some(w) => {
                let mut i: usize = 0;
                while i < w.len()
                    invariant
                        i <= w.len(),
                        self.wf(),
                        wired(owner, w@, i as int, old(self)@, self@),
                    decreases w.len() - i,
                {
                    let ghost mid = self@;
                    let ghost n = i + 1;
                    let r = self.param_bind(&owner, w[i].name.as_str(), w[i].id);
                    assert(bind_effect(owner, w@[n - 1].name@, w@[n - 1].id, mid, self@, r));
                    assert(wired(owner, w@, n - 1, old(self)@, mid));
                    assert(wired(owner, w@, n, old(self)@, self@));
                    i += 1;
                }
            },
        }
    }

    /// Creates the parameter known under `type_label` to the factory, under
    /// the identifier `id` or a fresh one, and makes the bindings `params`
    /// into its slots. Answers the parameter's identifier.
    pub fn param_create(
        &mut self,
        id: &Option<u128>,
        type_label: &str,
        args: &str,
        params: &Option<Vec<Wire>>,
    ) -> (r: Result<u128, CommandError>)
        requires
            old(self).wf(),
        ensures
            final(self).wf(),
            param_create_effect(
                *id,
                type_label@,
                args@,
                wires_of(*params),
                old(self)@,
                final(self)@,
                r,
            ),
    {
        let uuid = uuid_or_new(*id);
        match create_param(uuid, type_label, args) {
            Ok(p) => {
                let ghost made = p;
                self.add_param(p);
                assert(self@ == with_param(old(self)@, made));
                self.wire(ParamOwner::Param(uuid), params);
                proof {
                    let (kind, tag) = param_entry(type_label@).unwrap();
                    let v = decode_spec(tag, args@).unwrap();
                    assert(made_from(made, kind, tag, v, uuid));
                    assert(wired(
                        ParamOwner::Param(uuid),
                        wires_of(*params),
                        wires_of(*params).len() as int,
                        with_param(old(self)@, made),
                        self@,
                    ));
                    let post = self@;
                    let pre = old(self)@;
                    let wires = wires_of(*params);
                    assert(param_made(kind, tag, v, uuid, wires, pre, post));
                    assert(param_create_effect(
                        *id,
                        type_label@,
                        args@,
                        wires,
                        pre,
                        post,
                        Ok::<u128, CommandError>(uuid),
                    ));
                }
                Ok(uuid)
            },
            Err(e) => Err(CommandError::create(e)),
        }
    }

    /// Creates the graph item known under `type_label` to the factory,
    /// under the identifier `id` or a fresh one, gives it the children
    /// `children` and makes the bindings `params` into its slots. Answers
    /// the item's identifier.
    pub fn graph_node_create(
        &mut self,
        id: &Option<u128>,
        type_label: &str,
        args: Option<&str>,
        children: &Option<GraphNodeChildren>,
        params: &Option<Vec<Wire>>,
    ) -> (r: Result<u128, CommandError>)
        requires
            old(self).wf(),
        ensures
            final(self).wf(),
            graph_create_effect(
                *id,
                type_label@,
                *children,
                wires_of(*params),
                old(self)@,
                final(self)@,
                r,
            ),
    {
        let uuid = uuid_or_new(*id);
        match create_instance(uuid, type_label, args) {
            Ok(item) => {
                let ghost made = item;
                match self.add_graph_item(item) {
                    Err(_) => Err(CommandError::Refused),
                    Ok(_) => {
                        let ghost added = self@;
                        match children {
                            Some(c) => {
                                let rc = self.graph_node_set_children(uuid, c);
                                assert(set_children_effect(uuid, *c, added, self@, rc));
                            },
                            None => {},
                        }
                        let ghost with_children = self@;
                        self.wire(ParamOwner::GraphItem(uuid), params);
                        assert(made_item(made, graph_entry(type_label@).unwrap(), uuid));
                        assert(item_added(old(self)@, added, made));
                        assert(wired(
                            ParamOwner::GraphItem(uuid),
                            wires_of(*params),
                            wires_of(*params).len() as int,
                            with_children,
                            self@,
                        ));
                        proof {
                            let post = self@;
                            let pre = old(self)@;
                            let wires = wires_of(*params);
                            let exec = graph_entry(type_label@).unwrap();
                            assert(childed(uuid, *children, added, with_children));
                            assert(item_made(exec, uuid, *children, wires, pre, post));
                            assert(graph_create_effect(
                                *id,
                                type_label@,
                                *children,
                                wires,
                                pre,
                                post,
                                Ok::<u128, CommandError>(uuid),
                            ));
                        }
                        Ok(uuid)
                    },
                }
            },
            Err(e) => Err(CommandError::create(e)),
        }
    }

    /// Carries out a command. What a step answers does not stop the steps
    /// that follow: a batch is a sequence, not a transaction.
    pub fn handle_command(&mut self, cmd: &Command)
        requires
            old(self).wf(),
        ensures
            final(self).wf(),
            command_effect(*cmd, old(self)@, final(self)@),
        decreases cmd,
    {
        match cmd {
            Command::Batch(cs) => {
                let mut i: usize = 0;
                assert(decreases_to!(*cmd => *cs));
                while i < cs.len()
                    invariant
                        i <= cs.len(),
                        self.wf(),
                        batch_effect(*cs, i as int, old(self)@, self@),
                        decreases_to!(*cmd => *cs),
                    decreases cs.len() - i,
                {
                    let ghost mid = self@;
                    let ghost n = i + 1;
                    proof {
                        vstd::std_specs::vec::axiom_vec_index_decreases(*cs, i as int);
                        assert(decreases_to!(*cs => cs[i as int]));
                    }
                    self.handle_command(&cs[i]);
                    proof {
                        assert(passed(mid));
                        assert(command_effect(cs[n - 1], mid, self@));
                        assert(batch_effect(*cs, n - 1, old(self)@, mid));
                        assert(batch_effect(*cs, n, old(self)@, self@));
                    }
                    i += 1;
                }
            },
            Command::ParamBind { owner, param_name, param_id } => {
                let r = self.param_bind(owner, param_name.as_str(), *param_id);
                assert(bind_effect(*owner, param_name@, *param_id, old(self)@, self@, r));
            },
            Command::ParamUnbind { owner, param_name } => {
                let r = self.param_unbind(owner, param_name.as_str());
                assert(unbind_effect(*owner, param_name@, old(self)@, self@, r));
            },
            Command::ParamCreate { id, type_label, args, params } => {
                let r = self.param_create(id, type_label.as_str(), args.as_str(), params);
                assert(param_create_effect(
                    *id,
                    type_label@,
                    args@,
                    wires_of(*params),
                    old(self)@,
                    self@,
                    r,
                ));
            },
            Command::GraphItemCreate { id, type_label, args, children, params } => {
                let text = match args {
                    Some(a) => Some(a.as_str()),
                    None => None,
                };
                let r = self.graph_node_create(id, type_label.as_str(), text, children, params);
                assert(graph_create_effect(
                    *id,
                    type_label@,
                    *children,
                    wires_of(*params),
                    old(self)@,
                    self@,
                    r,
                ));
            },
            Command::GraphNodeSetChildren { parent_id, children } => {
                let r = self.graph_node_set_children(*parent_id, children);
                assert(set_children_effect(*parent_id, *children, old(self)@, self@, r));
            },
        }
    }

    /// Carries out the commands `pending`, in order.
    pub fn process(&mut self, pending: &Vec<Command>)
        requires
            old(self).wf(),
        ensures
            final(self).wf(),
            batch_effect(*pending, pending@.len() as int, old(self)@, final(self)@),
    {
        let mut i: usize = 0;
        while i < pending.len()
            invariant
                i <= pending.len(),
                self.wf(),
                batch_effect(*pending, i as int, old(self)@, self@),
            decreases pending.len() - i,
        {
            let ghost mid = self@;
            let ghost n = i + 1;
            self.handle_command(&pending[i]);
            proof {
                assert(passed(mid));
                assert(command_effect(pending[n - 1], mid, self@));
                assert(batch_effect(*pending, n - 1, old(self)@, mid));
                assert(batch_effect(*pending, n, old(self)@, self@));
            }
            i += 1;
        }
    }

    /// Runs one frame of the scheduler on the handler's graph and parameters.
    pub fn run(&mut self, frames: usize, sample_rate: usize)
        requires
            old(self).wf(),
            old(self)@.sched.tick + frames <= usize::MAX,
        ensures
            final(self).wf(),
            final(self)@.params == old(self)@.params,
            final(self)@.items == old(self)@.items,
            final(self)@.sched.tick == old(self)@.sched.tick + frames,
            final(self)@.sched.state(final(self)@.values) == crate::sched::run_spec(
                old(self)@.sched.env(old(self)@.params, old(self)@.items, frames, sample_rate),
                old(self)@.sched.state(old(self)@.values),
            ),
    {
        self.sched.run(frames, sample_rate, &self.graph, &mut self.params);
    }

    /// What the host's callback does for one frame: runs the scheduler for
    /// `frames` ticks, then hands out the messages to play in the frame,
    /// each with its offset from the frame's start.
    pub fn process_frame(&mut self, frames: usize, sample_rate: usize) -> (out: Vec<
        (usize, MidiValue),
    >)
        requires
            old(self).wf(),
            old(self)@.sched.tick + frames <= usize::MAX,
        ensures
            final(self).wf(),
            final(self)@.params == old(self)@.params,
            final(self)@.items == old(self)@.items,
            final(self)@.sched.tick == old(self)@.sched.tick + frames,
            ({
                let env = old(self)@.sched.env(old(self)@.params, old(self)@.items, frames, sample_rate);
                let ran = crate::sched::run_spec(env, old(self)@.sched.state(old(self)@.values));
                &&& final(self)@.values == ran.values
                &&& final(self)@.sched.queue == ran.queue
                &&& final(self)@.sched.disposed == ran.disposed
                &&& final(self)@.sched.dropped == ran.dropped
                &&& out@ == crate::sched::drained(ran.midi, env.now, env.end)
                &&& final(self)@.sched.midi == crate::sched::undrained(ran.midi, env.end)
            }),
    {
        let now = self.sched.tick_next();
        self.sched.run(frames, sample_rate, &self.graph, &mut self.params);
        self.sched.midi_drain(now)
    }

    /// The place of the item known as `id`, if it is known and can be a child.
    fn child_handle(&self, id: u128) -> (r: Option<usize>)
        ensures
            r == child_place(self@.items, id),
    {
        match self.graph.find(id) {
            Some(h) => self.graph.item(h).unwrap().get_node(h),
            None => None,
        }
    }

    /// The places of the items known as `ids`.
    fn resolve(&self, ids: &Vec<u128>) -> (r: Option<Vec<usize>>)
        ensures
            match r {
                Some(v) => Some(v@) == resolved(self@.items, ids@),
                None => resolved(self@.items, ids@) is None,
            },
    {
        let mut out: Vec<usize> = Vec::new();
        let mut i: usize = 0;
        assert(ids@.take(0) =~= Seq::<u128>::empty());
        while i < ids.len()
            invariant
                i <= ids.len(),
                Some(out@) == resolved(self@.items, ids@.take(i as int)),
            decreases ids.len() - i,
        {
            proof {
                let s = ids@.take(i + 1);
                assert(s.drop_last() =~= ids@.take(i as int));
                assert(s.last() == ids@[i as int]);
            }
            match self.child_handle(ids[i]) {
                Some(h) => {
                    out.push(h);
                },
                None => {
                    proof {
                        lemma_resolved_prefix(self@.items, ids@, i + 1);
                    }
                    return None;
                },
            }
            i += 1;
        }
        assert(ids@.take(i as int) =~= ids@);
        Some(out)
    }

    /// Gives the item known as `parent_id` the children `children`.
    pub fn graph_node_set_children(&mut self, parent_id: u128, children: &GraphNodeChildren) -> (r:
        Result<(), CommandError>)
        requires
            old(self).wf(),
        ensures
            final(self).wf(),
            set_children_effect(parent_id, *children, old(self)@, final(self)@, r),
    {
        let parent = match self.graph.find(parent_id) {
            Some(p) => p,
            None => {
                return Err(CommandError::NotFound);
            },
        };
        let new_children = match children {
            GraphNodeChildren::Empty => ChildrenUUIDs { children: Children::Empty, uuids: Vec::new() },
            GraphNodeChildren::NChild(id) => {
                match self.child_handle(*id) {
                    Some(h) => {
                        let mut uuids: Vec<u128> = Vec::new();
                        uuids.push(*id);
                        ChildrenUUIDs { children: Children::NChild { child: h }, uuids }
                    },
                    None => {
                        return Err(CommandError::NotFound);
                    },
                }
            },
            GraphNodeChildren::Indexed(ids) => {
                match self.resolve(ids) {
                    Some(handles) => ChildrenUUIDs {
                        children: Children::Indexed { children: handles },
                        uuids: ids.clone(),
                    },
                    None => {
                        return Err(CommandError::NotFound);
                    },
                }
            },
        };
        assert(new_children.uuids@ =~= wanted_uuids(*children));
        match self.graph.children_swap(parent, new_children) {
            Ok(_) => Ok(()),
            Err(_) => Err(CommandError::Refused),
        }
    }
}

/// Where one of the first `n` identifiers is unknown, the whole list cannot be resolved.
pub proof fn lemma_resolved_prefix(items: Seq<GraphItem>, ids: Seq<u128>, n: int)
    requires
        0 <= n <= ids.len(),
        resolved(items, ids.take(n)) is None,
    ensures
        resolved(items, ids) is None,
    decreases ids.len() - n,
{
    if n < ids.len() {
        let s = ids.take(n + 1);
        assert(s.drop_last() =~= ids.take(n));
        lemma_resolved_prefix(items, ids, n + 1);
    } else {
        assert(ids.take(n) =~= ids);
    }
}

} // verus!
