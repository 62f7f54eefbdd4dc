//! The address tree under which the control protocol shows the parameters
//! and the graph items, and what a read of each address yields.

use crate::graph::{GraphItem, ItemKind};
use crate::ident::{hyphenated, map_uuid, map_uuid_or_empty};
use crate::osc::{from_wire, from_wire_spec, is_wire_of, to_wire, OscType};
use crate::oscquery::{HandlerView, OSCQueryHandler};
use crate::param::{slot_uuid, ParamHashMap, Slot};
use crate::store::{set_spec, Param, ParamDataAccess, StoreView};
use crate::value::TypedValue;
use crate::value::AccessKind;
use vstd::prelude::*;
use vstd::string::StringExecFns;

verus! {

/// What can be done at an address.
#[derive(Clone, Copy, Debug, PartialEq, Eq, Structural)]
pub enum NodeAccess {
    /// The address only holds others.
    Container,
    Get,
    SetOnly,
    GetSet,
}

/// What stands at an address.
#[derive(Clone, Copy, Debug, PartialEq, Eq, Structural)]
pub enum NodeContent {
    /// Nothing: the address only holds others.
    Branch,
    /// The input for commands, as JSON text.
    Command,
    /// The value of the parameter at this place, through its shadow.
    ParamValue(usize),
    /// The type name, access name and data type name of the parameter at this place.
    ParamType(usize),
    /// The identifier of what is bound into a slot of the parameter at
    /// this place: the slot at the second place.
    ParamSlot(usize, usize),
    /// The type name of the graph item at this place.
    ItemType(usize),
    /// The identifier of what is bound into a slot of the graph item at
    /// this place: the slot at the second place.
    ItemSlot(usize, usize),
    /// The identifiers of the children of the graph item at this place.
    ChildrenIds(usize),
    /// The kind of children that the graph item at this place has.
    ChildrenType(usize),
}

/// One address of the tree.
pub struct TreeNode {
    pub address: String,
    pub access: NodeAccess,
    pub content: NodeContent,
}

/// One address of the tree, as contracts see it.
pub struct NodeView {
    pub address: Seq<char>,
    pub access: NodeAccess,
    pub content: NodeContent,
}

impl TreeNode {
    pub open spec fn view(&self) -> NodeView {
        NodeView { address: self.address@, access: self.access, content: self.content }
    }
}

/// The nodes as contracts see them.
pub open spec fn views(nodes: Seq<TreeNode>) -> Seq<NodeView> {
    Seq::new(nodes.len(), |i: int| nodes[i]@)
}

/// A node that only holds others.
pub open spec fn branch(address: Seq<char>) -> NodeView {
    NodeView { address, access: NodeAccess::Container, content: NodeContent::Branch }
}

/// A node that can be read.
pub open spec fn leaf(address: Seq<char>, content: NodeContent) -> NodeView {
    NodeView { address, access: NodeAccess::Get, content }
}

/// What can be done at the address of a value with the given shadow.
pub open spec fn shadow_access(shadow: ParamDataAccess) -> NodeAccess {
    match shadow.kind_spec() {
        AccessKind::GetOnly => NodeAccess::Get,
        AccessKind::SetOnly => NodeAccess::SetOnly,
        AccessKind::GetSet => NodeAccess::GetSet,
    }
}

/// The addresses that are there before any parameter or graph item is.
pub open spec fn root_nodes_spec() -> Seq<NodeView> {
    seq![
        branch("/xsched"@),
        NodeView {
            address: "/xsched/command"@,
            access: NodeAccess::SetOnly,
            content: NodeContent::Command,
        },
        branch("/xsched/params"@),
        branch("/xsched/params/uuids"@),
        branch("/xsched/graph"@),
        branch("/xsched/graph/uuids"@),
    ]
}

/// The address of the parameter with the identifier `uuid`.
pub open spec fn param_base(uuid: u128) -> Seq<char> {
    "/xsched/params/uuids/"@ + hyphenated(uuid)
}

/// The address of the graph item with the identifier `uuid`.
pub open spec fn item_base(uuid: u128) -> Seq<char> {
    "/xsched/graph/uuids/"@ + hyphenated(uuid)
}

/// What stands at the address of slot `i` of the owner at `at`.
pub open spec fn slot_content(of_param: bool, at: usize, i: usize) -> NodeContent {
    if of_param {
        NodeContent::ParamSlot(at, i)
    } else {
        NodeContent::ItemSlot(at, i)
    }
}

/// The addresses of the first `n` slots of an owner, below `base`.
pub open spec fn slot_nodes(base: Seq<char>, slots: Seq<Slot>, of_param: bool, at: usize, n: int) -> Seq<
    NodeView,
> {
    Seq::new(
        n as nat,
        |i: int| leaf(base + "/params/"@ + slots[i].name, slot_content(of_param, at, i as usize)),
    )
}

/// The addresses of the parameter `p`, which stands at `at`: the
/// parameter itself, its value if it has a shadow, its type, and its slots
/// if it has any.
pub open spec fn param_nodes_spec(p: Param, at: usize) -> Seq<NodeView> {
    let base = param_base(p.uuid);
    seq![branch(base)] + (match p.shadow {
        Some(s) => seq![
            NodeView {
                address: base + "/value"@,
                access: shadow_access(s),
                content: NodeContent::ParamValue(at),
            },
        ],
        None => Seq::<NodeView>::empty(),
    }) + seq![leaf(base + "/type"@, NodeContent::ParamType(at))] + (if p.params@.len() > 0 {
        seq![branch(base + "/params"@)] + slot_nodes(
            base,
            p.params@,
            true,
            at,
            p.params@.len() as int,
        )
    } else {
        Seq::<NodeView>::empty()
    })
}

/// The addresses of the graph item `item`, which stands at `at`: the item
/// itself, its type, its slots, and its children unless it is a leaf.
pub open spec fn item_nodes_spec(item: GraphItem, at: usize) -> Seq<NodeView> {
    let base = item_base(item.uuid);
    seq![branch(base), leaf(base + "/type"@, NodeContent::ItemType(at)), branch(base + "/params"@)]
        + slot_nodes(base, item.params@, false, at, item.params@.len() as int) + (if item.kind
        != ItemKind::Leaf {
        seq![
            branch(base + "/children"@),
            leaf(base + "/children/ids"@, NodeContent::ChildrenIds(at)),
            leaf(base + "/children/type"@, NodeContent::ChildrenType(at)),
        ]
    } else {
        Seq::<NodeView>::empty()
    })
}

fn node(address: String, access: NodeAccess, content: NodeContent) -> (n: TreeNode)
    ensures
        n@ == (NodeView { address: address@, access, content }),
{
    TreeNode { address, access, content }
}

fn below(base: &String, tail: &str) -> (s: String)
    ensures
        s@ == base@ + tail@,
{
    base.clone().concat(tail)
}

/// The addresses that are there before any parameter or graph item is.
pub fn root_nodes() -> (nodes: Vec<TreeNode>)
    ensures
        views(nodes@) == root_nodes_spec(),
{
    let mut nodes: Vec<TreeNode> = Vec::new();
    nodes.push(node(String::from_str("/xsched"), NodeAccess::Container, NodeContent::Branch));
    nodes.push(node(String::from_str("/xsched/command"), NodeAccess::SetOnly, NodeContent::Command));
    nodes.push(node(String::from_str("/xsched/params"), NodeAccess::Container, NodeContent::Branch));
    nodes.push(
        node(String::from_str("/xsched/params/uuids"), NodeAccess::Container, NodeContent::Branch),
    );
    nodes.push(node(String::from_str("/xsched/graph"), NodeAccess::Container, NodeContent::Branch));
    nodes.push(
        node(String::from_str("/xsched/graph/uuids"), NodeAccess::Container, NodeContent::Branch),
    );
    assert(views(nodes@) =~= root_nodes_spec());
    nodes
}

/// Adds the addresses of the slots of `map` to `nodes`.
fn push_slots(nodes: &mut Vec<TreeNode>, base: &String, map: &ParamHashMap, of_param: bool, at: usize)
    ensures
        views(final(nodes)@) == views(old(nodes)@) + slot_nodes(
            base@,
            map@,
            of_param,
            at,
            map@.len() as int,
        ),
{
    let keys = map.keys();
    let ghost start = views(nodes@);
    let mut i: usize = 0;
    assert(views(nodes@) =~= start + slot_nodes(base@, map@, of_param, at, 0));
    while i < keys.len()
        invariant
            i <= keys.len(),
            keys@.len() == map@.len(),
            forall|k: int| 0 <= k < keys@.len() ==> (#[trigger] keys@[k])@ == map@[k].name,
            views(nodes@) == start + slot_nodes(base@, map@, of_param, at, i as int),
        decreases keys.len() - i,
    {
        let address = below(base, "/params/").concat(keys[i]);
        let content = if of_param {
            NodeContent::ParamSlot(at, i)
        } else {
            NodeContent::ItemSlot(at, i)
        };
        let ghost before = views(nodes@);
        let ghost added = leaf(base@ + "/params/"@ + map@[i as int].name, slot_content(of_param, at, i));
        assert(keys@[i as int]@ == map@[i as int].name);
        nodes.push(node(address, NodeAccess::Get, content));
        proof {
            assert(views(nodes@) =~= before.push(added));
            assert(slot_nodes(base@, map@, of_param, at, i + 1) =~= slot_nodes(
                base@,
                map@,
                of_param,
                at,
                i as int,
            ).push(added));
            assert(before.push(added) =~= start + slot_nodes(base@, map@, of_param, at, i + 1));
        }
        i += 1;
    }
}

/// The addresses of the parameter `p`, which stands at `at`.
pub fn param_nodes(p: &Param, at: usize) -> (nodes: Vec<TreeNode>)
    ensures
        views(nodes@) == param_nodes_spec(*p, at),
{
    let base = String::from_str("/xsched/params/uuids/").concat(map_uuid(p.uuid).as_str());
    let mut nodes: Vec<TreeNode> = Vec::new();
    nodes.push(node(base.clone(), NodeAccess::Container, NodeContent::Branch));
    match p.shadow {
        Some(s) => {
            let access = match s.kind() {
                AccessKind::GetOnly => NodeAccess::Get,
                AccessKind::SetOnly => NodeAccess::SetOnly,
                AccessKind::GetSet => NodeAccess::GetSet,
            };
            nodes.push(node(below(&base, "/value"), access, NodeContent::ParamValue(at)));
        },
        None => {},
    }
    nodes.push(node(below(&base, "/type"), NodeAccess::Get, NodeContent::ParamType(at)));
    if !p.params.is_empty() {
        nodes.push(node(below(&base, "/params"), NodeAccess::Container, NodeContent::Branch));
        let ghost before = views(nodes@);
        push_slots(&mut nodes, &base, &p.params, true, at);
        assert(views(nodes@) =~= param_nodes_spec(*p, at));
    } else {
        assert(views(nodes@) =~= param_nodes_spec(*p, at));
    }
    nodes
}

/// The addresses of the graph item `item`, which stands at `at`.
pub fn item_nodes(item: &GraphItem, at: usize) -> (nodes: Vec<TreeNode>)
    ensures
        views(nodes@) == item_nodes_spec(*item, at),
{
    let base = String::from_str("/xsched/graph/uuids/").concat(map_uuid(item.uuid).as_str());
    let mut nodes: Vec<TreeNode> = Vec::new();
    nodes.push(node(base.clone(), NodeAccess::Container, NodeContent::Branch));
    nodes.push(node(below(&base, "/type"), NodeAccess::Get, NodeContent::ItemType(at)));
    nodes.push(node(below(&base, "/params"), NodeAccess::Container, NodeContent::Branch));
    let ghost head = views(nodes@);
    assert(head =~= seq![
        branch(base@),
        leaf(base@ + "/type"@, NodeContent::ItemType(at)),
        branch(base@ + "/params"@),
    ]);
    push_slots(&mut nodes, &base, &item.params, false, at);
    let ghost with_slots = views(nodes@);
    match item.kind {
        ItemKind::Leaf => {
            assert(with_slots + Seq::<NodeView>::empty() =~= with_slots);
        },
        _ => {
            nodes.push(node(below(&base, "/children"), NodeAccess::Container, NodeContent::Branch));
            let ghost one = views(nodes@);
            assert(one =~= with_slots.push(branch(base@ + "/children"@)));
            nodes.push(
                node(below(&base, "/children/ids"), NodeAccess::Get, NodeContent::ChildrenIds(at)),
            );
            let ghost two = views(nodes@);
            assert(two =~= one.push(leaf(base@ + "/children/ids"@, NodeContent::ChildrenIds(at))));
            nodes.push(
                node(below(&base, "/children/type"), NodeAccess::Get, NodeContent::ChildrenType(at)),
            );
            assert(views(nodes@) =~= two.push(
                leaf(base@ + "/children/type"@, NodeContent::ChildrenType(at)),
            ));
            assert(views(nodes@) =~= with_slots + seq![
                branch(base@ + "/children"@),
                leaf(base@ + "/children/ids"@, NodeContent::ChildrenIds(at)),
                leaf(base@ + "/children/type"@, NodeContent::ChildrenType(at)),
            ]);
        },
    }
    assert(views(nodes@) =~= item_nodes_spec(*item, at));
    nodes
}

/// The identifiers `ids` as texts.
pub open spec fn uuid_texts(ids: Seq<u128>) -> Seq<Seq<char>> {
    Seq::new(ids.len(), |i: int| hyphenated(ids[i]))
}

/// The text of what is bound into slot `i` of `slots`: empty if nothing is.
pub open spec fn slot_text(slots: Seq<Slot>, i: int) -> Seq<Seq<char>> {
    if 0 <= i < slots.len() {
        seq![match slot_uuid(slots[i].access) {
            Some(u) => hyphenated(u),
            None => Seq::<char>::empty(),
        }]
    } else {
        Seq::<Seq<char>>::empty()
    }
}

/// The texts that a read of what stands at an address yields. A value is
/// no text: it is read with `shadow_get`. What refers to a parameter or a
/// graph item that is not there yields nothing.
pub open spec fn node_texts_spec(h: HandlerView, content: NodeContent) -> Seq<Seq<char>> {
    match content {
        NodeContent::ParamType(at) => if at < h.params.len() {
            seq![
                h.params[at as int].type_label@,
                h.params[at as int].data.kind_spec().name_spec(),
                h.params[at as int].data.tag_spec().name_spec(),
            ]
        } else {
            Seq::<Seq<char>>::empty()
        },
        NodeContent::ParamSlot(at, i) => if at < h.params.len() {
            slot_text(h.params[at as int].params@, i as int)
        } else {
            Seq::<Seq<char>>::empty()
        },
        NodeContent::ItemType(at) => if at < h.items.len() {
            seq![h.items[at as int].type_label@]
        } else {
            Seq::<Seq<char>>::empty()
        },
        NodeContent::ItemSlot(at, i) => if at < h.items.len() {
            slot_text(h.items[at as int].params@, i as int)
        } else {
            Seq::<Seq<char>>::empty()
        },
        NodeContent::ChildrenIds(at) => if at < h.items.len() && h.items[at as int].kind
            != ItemKind::Leaf {
            uuid_texts(h.items[at as int].children.uuids@)
        } else {
            Seq::<Seq<char>>::empty()
        },
        NodeContent::ChildrenType(at) => if at < h.items.len() {
            seq![if h.items[at as int].kind != ItemKind::Leaf {
                h.items[at as int].children.children.children.label_spec()
            } else {
                Seq::<char>::empty()
            }]
        } else {
            Seq::<Seq<char>>::empty()
        },
        _ => Seq::<Seq<char>>::empty(),
    }
}

/// The nodes' texts as contracts see them.
pub open spec fn texts(v: Seq<String>) -> Seq<Seq<char>> {
    Seq::new(v.len(), |i: int| v[i]@)
}

fn slot_texts(map: &ParamHashMap, i: usize) -> (out: Vec<String>)
    ensures
        texts(out@) == slot_text(map@, i as int),
{
    let mut out: Vec<String> = Vec::new();
    if i < map.len() {
        out.push(map_uuid_or_empty(map.access_at(i).uuid()));
    }
    assert(texts(out@) =~= slot_text(map@, i as int));
    out
}

/// The value that a write to the value of the parameter at `at` starts
/// from: what a read through the shadow yields, or the default of the
/// parameter's type where nothing can be read.
pub open spec fn last_value(store: StoreView, at: int) -> TypedValue {
    match store.shadow_get_spec(at) {
        Some(v) => v,
        None => store.params[at].data.tag_spec().default_spec(),
    }
}

/// The values after `args` arrived for the value of the parameter at `at`:
/// what the arguments stand for is stored if the parameter is there, its
/// shadow can be written and the arguments stand for a value.
pub open spec fn value_set_spec(store: StoreView, at: int, args: Seq<OscType>) -> Seq<TypedValue> {
    if store.shadow_writable(at) {
        match from_wire_spec(args, last_value(store, at)) {
            Some(v) => set_spec(store.params, store.values, at, v),
            None => store.values,
        }
    } else {
        store.values
    }
}

impl OSCQueryHandler {
    /// What a read of the value of the parameter at `at` sends: the value
    /// that its shadow yields, and nothing where there is none to read.
    pub fn value_get(&self, at: usize) -> (args: Vec<OscType>)
        requires
            self.wf(),
        ensures
            match self.params@.shadow_get_spec(at as int) {
                Some(v) => is_wire_of(args@, v),
                None => args@.len() == 0,
            },
    {
        match self.params.shadow_get(at) {
            Some(v) => to_wire(v),
            None => Vec::new(),
        }
    }

    /// Takes what arrived for the value of the parameter at `at`.
    pub fn value_set(&mut self, at: usize, args: &Vec<OscType>)
        requires
            old(self).wf(),
        ensures
            final(self).wf(),
            final(self)@.params == old(self)@.params,
            final(self)@.items == old(self)@.items,
            final(self)@.sched == old(self)@.sched,
            final(self)@.values == value_set_spec(old(self).params@, at as int, args@),
    {
        let tag = match self.params.param(at) {
            Some(p) => p.data.tag(),
            None => {
                return ;
            },
        };
        let last = match self.params.shadow_get(at) {
            Some(v) => v,
            None => tag.default_value(),
        };
        match from_wire(args, last) {
            Some(v) => {
                self.params.shadow_set(at, v);
            },
            None => {},
        }
    }

    /// The texts that a read of what stands at an address yields.
    pub fn node_texts(&self, content: NodeContent) -> (out: Vec<String>)
        ensures
            texts(out@) == node_texts_spec(self@, content),
    {
        let mut out: Vec<String> = Vec::new();
        match content {
            NodeContent::ParamType(at) => {
                match self.params.param(at) {
                    Some(p) => {
                        out.push(String::from_str(p.type_label()));
                        out.push(String::from_str(p.access_name()));
                        out.push(String::from_str(p.data_type_name()));
                    },
                    None => {},
                }
            },
            NodeContent::ParamSlot(at, i) => {
                match self.params.param(at) {
                    Some(p) => {
                        return slot_texts(&p.params, i);
                    },
                    None => {},
                }
            },
            NodeContent::ItemType(at) => {
                match self.graph.item(at) {
                    Some(item) => {
                        out.push(String::from_str(item.type_label()));
                    },
                    None => {},
                }
            },
            NodeContent::ItemSlot(at, i) => {
                match self.graph.item(at) {
                    Some(item) => {
                        return slot_texts(&item.params, i);
                    },
                    None => {},
                }
            },
            NodeContent::ChildrenIds(at) => {
                match self.graph.item(at) {
                    Some(item) => {
                        match item.children_uuids() {
                            Some(ids) => {
                                let mut k: usize = 0;
                                while k < ids.len()
                                    invariant
                                        k <= ids.len(),
                                        texts(out@) == uuid_texts(ids@.take(k as int)),
                                    decreases ids.len() - k,
                                {
                                    let ghost before = texts(out@);
                                    out.push(map_uuid(ids[k]));
                                    proof {
                                        assert(texts(out@) =~= before.push(hyphenated(ids@[k as int])));
                                        assert(uuid_texts(ids@.take(k + 1)) =~= uuid_texts(
                                            ids@.take(k as int),
                                        ).push(hyphenated(ids@[k as int])));
                                    }
                                    k += 1;
                                }
                                assert(ids@.take(k as int) =~= ids@);
                            },
                            None => {},
                        }
                    },
                    None => {},
                }
            },
            NodeContent::ChildrenType(at) => {
                match self.graph.item(at) {
                    Some(item) => {
                        match item.children_type_label() {
                            Some(label) => {
                                out.push(String::from_str(label));
                            },
                            None => {
                                out.push(String::new());
                            },
                        }
                    },
                    None => {},
                }
            },
            _ => {},
        }
        assert(texts(out@) =~= node_texts_spec(self@, content));
        out
    }
}

} // verus!
