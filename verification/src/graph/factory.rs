//! The factory of graph items.

use crate::error::CreateError;
use crate::graph::children::Children;
use crate::graph::{index_slot_name, GraphExec, GraphItem, ItemKind};
use crate::param::{has_slot, lemma_no_slot, str_eq, ParamAccess, ParamGet, ParamHashMap, Slot};
use crate::value::{
    Float, TickResched, TypedValue, ValueTag, DEFAULT_PERIOD_MICROS_BITS,
};
use vstd::prelude::*;

verus! {

/// The name under which the factory makes an item that runs `exec`.
pub open spec fn label_spec(exec: GraphExec) -> Seq<char> {
    match exec {
        GraphExec::RootClock => "root::clock"@,
        GraphExec::ClockRatio => "node::clock_ratio"@,
        GraphExec::Gate => "node::gate"@,
        GraphExec::OneHot => "node::one_hot"@,
        GraphExec::FanOut => "node::fanout"@,
        GraphExec::StepSeq => "node::step_seq"@,
        GraphExec::MidiNote => "leaf::midi::note"@,
    }
}

/// What the factory makes under `name`, if anything.
pub open spec fn graph_entry(name: Seq<char>) -> Option<GraphExec> {
    if name == label_spec(GraphExec::RootClock) {
        Some(GraphExec::RootClock)
    } else if name == label_spec(GraphExec::ClockRatio) {
        Some(GraphExec::ClockRatio)
    } else if name == label_spec(GraphExec::Gate) {
        Some(GraphExec::Gate)
    } else if name == label_spec(GraphExec::OneHot) {
        Some(GraphExec::OneHot)
    } else if name == label_spec(GraphExec::FanOut) {
        Some(GraphExec::FanOut)
    } else if name == label_spec(GraphExec::StepSeq) {
        Some(GraphExec::StepSeq)
    } else if name == label_spec(GraphExec::MidiNote) {
        Some(GraphExec::MidiNote)
    } else {
        None
    }
}

/// Whether an item that runs `exec` is a root, a node or a leaf.
pub open spec fn kind_of(exec: GraphExec) -> ItemKind {
    match exec {
        GraphExec::RootClock => ItemKind::Root,
        GraphExec::MidiNote => ItemKind::Leaf,
        _ => ItemKind::Node,
    }
}

/// A reading slot called `name` that reads `zero` while unbound.
pub open spec fn get_slot(name: Seq<char>, zero: TypedValue) -> Slot {
    Slot { name, access: ParamAccess::new_get_spec(zero) }
}

/// The slot through which a node or root reports the child it is on.
pub open spec fn index_slot() -> Slot {
    Slot { name: index_slot_name(), access: ParamAccess::new_set_spec(ValueTag::USize) }
}

/// The slots with which the factory makes an item that runs `exec`, each
/// with the value it reads while unbound.
pub open spec fn item_slots(exec: GraphExec) -> Seq<Slot> {
    match exec {
        GraphExec::RootClock => seq![
            get_slot(
                "period_micros"@,
                TypedValue::Float(Float { bits: DEFAULT_PERIOD_MICROS_BITS }),
            ),
            index_slot(),
        ],
        GraphExec::ClockRatio => seq![
            get_slot("mul"@, TypedValue::USize(1)),
            get_slot("div"@, TypedValue::USize(1)),
            index_slot(),
        ],
        GraphExec::Gate => seq![get_slot("gate"@, TypedValue::Bool(false)), index_slot()],
        GraphExec::OneHot => seq![get_slot("sel"@, TypedValue::USize(0)), index_slot()],
        GraphExec::FanOut => seq![index_slot()],
        GraphExec::StepSeq => seq![
            get_slot("step_ticks"@, TypedValue::USize(16)),
            get_slot("steps"@, TypedValue::USize(16)),
            index_slot(),
        ],
        GraphExec::MidiNote => seq![
            get_slot("chan"@, TypedValue::U8(0)),
            get_slot("num"@, TypedValue::U8(64)),
            get_slot("on_vel"@, TypedValue::U8(127)),
            get_slot("off_vel"@, TypedValue::U8(127)),
            get_slot("dur"@, TypedValue::TickResched(TickResched::ContextRelative(1))),
        ],
    }
}

fn add_get(map: &mut ParamHashMap, name: &'static str, zero: TypedValue)
    requires
        old(map).wf(),
        !has_slot(old(map)@, name@),
    ensures
        final(map).wf(),
        final(map)@ == old(map)@.push(get_slot(name@, zero)),
{
    map.insert_unbound(name, ParamAccess::new_get(ParamGet::new(zero)));
}

/// Which item the factory makes under `name`.
fn lookup(name: &str) -> (r: Option<GraphExec>)
    ensures
        r == graph_entry(name@),
{
    if str_eq(name, "root::clock") {
        Some(GraphExec::RootClock)
    } else if str_eq(name, "node::clock_ratio") {
        Some(GraphExec::ClockRatio)
    } else if str_eq(name, "node::gate") {
        Some(GraphExec::Gate)
    } else if str_eq(name, "node::one_hot") {
        Some(GraphExec::OneHot)
    } else if str_eq(name, "node::fanout") {
        Some(GraphExec::FanOut)
    } else if str_eq(name, "node::step_seq") {
        Some(GraphExec::StepSeq)
    } else if str_eq(name, "leaf::midi::note") {
        Some(GraphExec::MidiNote)
    } else {
        None
    }
}

/// The slots of an item that runs `exec`, but for `child_exec_index`.
fn own_slots(exec: GraphExec) -> (map: ParamHashMap)
    ensures
        map.wf(),
        !has_slot(map@, index_slot_name()),
        kind_of(exec) == ItemKind::Leaf ==> map@ == item_slots(exec),
        kind_of(exec) != ItemKind::Leaf ==> map@.push(index_slot()) == item_slots(exec),
{
    let mut map = ParamHashMap::new();
    proof {
        reveal_strlit("child_exec_index");
        reveal_strlit("period_micros");
        reveal_strlit("mul");
        reveal_strlit("div");
        reveal_strlit("gate");
        reveal_strlit("sel");
        reveal_strlit("step_ticks");
        reveal_strlit("steps");
        reveal_strlit("chan");
        reveal_strlit("num");
        reveal_strlit("on_vel");
        reveal_strlit("off_vel");
        reveal_strlit("dur");
        assert("child_exec_index"@[0] == 'c' && "child_exec_index"@.len() == 16);
        assert("period_micros"@[0] == 'p');
        assert("mul"@[0] == 'm');
        assert("div"@[0] == 'd');
        assert("gate"@[0] == 'g');
        assert("sel"@[0] == 's');
        assert("step_ticks"@[0] == 's' && "step_ticks"@.len() == 10);
        assert("steps"@[0] == 's' && "steps"@.len() == 5);
        assert("chan"@[0] == 'c' && "chan"@.len() == 4);
        assert("num"@[0] == 'n');
        assert("on_vel"@[0] == 'o' && "on_vel"@.len() == 6);
        assert("off_vel"@[0] == 'o' && "off_vel"@.len() == 7);
        assert("dur"@[0] == 'd');
    }
    match exec {
        GraphExec::RootClock => {
            add_get(
                &mut map,
                "period_micros",
                TypedValue::Float(Float { bits: DEFAULT_PERIOD_MICROS_BITS }),
            );
        },
        GraphExec::ClockRatio => {
            add_get(&mut map, "mul", TypedValue::USize(1));
            proof {
                lemma_no_slot(map@, "div"@);
            }
            add_get(&mut map, "div", TypedValue::USize(1));
        },
        GraphExec::Gate => {
            add_get(&mut map, "gate", TypedValue::Bool(false));
        },
        GraphExec::OneHot => {
            add_get(&mut map, "sel", TypedValue::USize(0));
        },
        GraphExec::FanOut => {},
        GraphExec::StepSeq => {
            add_get(&mut map, "step_ticks", TypedValue::USize(16));
            proof {
                lemma_no_slot(map@, "steps"@);
            }
            add_get(&mut map, "steps", TypedValue::USize(16));
        },
        GraphExec::MidiNote => {
            add_get(&mut map, "chan", TypedValue::U8(0));
            proof {
                lemma_no_slot(map@, "num"@);
            }
            add_get(&mut map, "num", TypedValue::U8(64));
            proof {
                lemma_no_slot(map@, "on_vel"@);
            }
            add_get(&mut map, "on_vel", TypedValue::U8(127));
            proof {
                lemma_no_slot(map@, "off_vel"@);
            }
            add_get(&mut map, "off_vel", TypedValue::U8(127));
            proof {
                lemma_no_slot(map@, "dur"@);
            }
            add_get(&mut map, "dur", TypedValue::TickResched(TickResched::ContextRelative(1)));
        },
    }
    proof {
        lemma_no_slot(map@, index_slot_name());
        if kind_of(exec) == ItemKind::Leaf {
            assert(map@ =~= item_slots(exec));
        } else {
            assert(map@.push(index_slot()) =~= item_slots(exec));
        }
    }
    map
}

/// The name under which the factory makes an item that runs `exec`.
pub fn label(exec: GraphExec) -> (s: &'static str)
    ensures
        s@ == label_spec(exec),
{
    match exec {
        GraphExec::RootClock => "root::clock",
        GraphExec::ClockRatio => "node::clock_ratio",
        GraphExec::Gate => "node::gate",
        GraphExec::OneHot => "node::one_hot",
        GraphExec::FanOut => "node::fanout",
        GraphExec::StepSeq => "node::step_seq",
        GraphExec::MidiNote => "leaf::midi::note",
    }
}

/// Makes the graph item known under `type_label`, with the identifier
/// `uuid`, without children, inactive, every slot unbound. The arguments
/// are not looked at: no item of the catalogue takes any.
pub fn create_instance(
    uuid: u128,
    type_label: &str,
    _args: Option<&str>,
) -> (r: Result<GraphItem, CreateError>)
    ensures
        match graph_entry(type_label@) {
            None => r matches Err(e) && e == CreateError::TypeNotFound,
            Some(exec) => {
                &&& r matches Ok(item)
                &&& item.wf()
                &&& item.uuid == uuid
                &&& item.inner == exec
                &&& item.kind == kind_of(exec)
                &&& item.type_label@ == type_label@
                &&& item.params@ == item_slots(exec)
                &&& item.children.children.children == Children::Empty
                &&& item.children.uuids@.len() == 0
                &&& item.active_gate is None
                &&& item.gates@.len() == 0
            },
        },
{
    match lookup(type_label) {
        None => Err(CreateError::TypeNotFound),
        Some(exec) => {
            let map = own_slots(exec);
            let name = label(exec);
            Ok(
                match exec {
                    GraphExec::RootClock => GraphItem::new_root(name, exec, map, Some(uuid)),
                    GraphExec::MidiNote => GraphItem::new_leaf(name, exec, map, Some(uuid)),
                    _ => GraphItem::new_node(name, exec, map, Some(uuid)),
                },
            )
        },
    }
}

} // verus!
