use xsched::graph::children::{ChildCount, Children};
use xsched::graph::exec::{child_exec_range, EventEvalContext};
use xsched::graph::{ChildrenUUIDs, GraphExec, GraphItem};
use xsched::midi::MidiValueQueue;
use xsched::oscquery::{CommandError, GraphNodeChildren, OSCQueryHandler, ParamOwner};
use xsched::param::{ParamAccess, ParamGet, ParamHashMap};
use xsched::pqueue::TickQueue;
use xsched::sched::{QueueSource, Sched};
use xsched::store::{BinaryFn, Binding, Param, ParamDataAccess, ParamMapGet};
use xsched::value::{TypedValue, ValueTag};

fn json_u(n: u64) -> String {
    n.to_string()
}

fn read_slot(h: &OSCQueryHandler, item: u128, name: &str) -> TypedValue {
    let at = h.graph.find(item).unwrap();
    let slot = h.graph.item(at).unwrap().params().get(name).unwrap();
    h.params.read(slot)
}

fn note_ons(out: &[(usize, xsched::midi::MidiValue)]) -> Vec<(usize, u8)> {
    out.iter()
        .filter(|(_, m)| m.status & 0xf0 == 0x90)
        .map(|(t, m)| (*t, m.data1))
        .collect()
}

#[test]
fn const_and_rebind() {
    let mut h = OSCQueryHandler::new(Sched::new());
    let seven = h
        .param_create(&Some(1), "const::<usize>", &json_u(7), &None)
        .unwrap();
    let cell = h
        .param_create(&Some(2), "val::<usize>", &json_u(0), &None)
        .unwrap();
    let mut map = ParamHashMap::new();
    map.insert_unbound("x", ParamAccess::new_get(ParamGet::with_tag(ValueTag::USize)));
    let n = 3u128;
    let item = GraphItem::new_node("node::fanout", GraphExec::FanOut, map, Some(n));
    assert!(h.add_graph_item(item).is_ok());
    let owner = ParamOwner::GraphItem(n);

    assert_eq!(Ok(()), h.param_bind(&owner, "x", seven));
    assert_eq!(TypedValue::USize(7), read_slot(&h, n, "x"));

    assert_eq!(Ok(()), h.param_bind(&owner, "x", cell));
    assert_eq!(TypedValue::USize(0), read_slot(&h, n, "x"));

    let at = h.params.find(cell).unwrap();
    assert!(h.params.set(at, TypedValue::USize(9)));
    assert_eq!(TypedValue::USize(9), read_slot(&h, n, "x"));

    assert_eq!(Ok(()), h.param_unbind(&owner, "x"));
    assert_eq!(TypedValue::USize(0), read_slot(&h, n, "x"));
}

#[test]
fn max_composer() {
    let mut h = OSCQueryHandler::new(Sched::new());
    let mut map = ParamHashMap::new();
    map.insert_unbound("left", ParamAccess::new_get(ParamGet::with_tag(ValueTag::USize)));
    map.insert_unbound("right", ParamAccess::new_get(ParamGet::with_tag(ValueTag::USize)));
    let m = h.add_param(Param::new_with_id(
        "max",
        ParamDataAccess::Get(Binding::BinaryOp(BinaryFn::Max, ValueTag::USize)),
        map,
        None,
        10,
    ));
    let one = h
        .param_create(&Some(11), "const::<usize>", &json_u(1), &None)
        .unwrap();
    let two = h
        .param_create(&Some(12), "const::<usize>", &json_u(2), &None)
        .unwrap();
    let owner = ParamOwner::Param(10);

    assert_eq!(Ok(()), h.param_bind(&owner, "left", one));
    assert_eq!(Ok(()), h.param_bind(&owner, "right", two));
    assert_eq!(Some(TypedValue::USize(2)), h.params.get(m.handle));

    assert_eq!(Ok(()), h.param_bind(&owner, "left", two));
    assert_eq!(Ok(()), h.param_bind(&owner, "right", one));
    assert_eq!(Some(TypedValue::USize(2)), h.params.get(m.handle));

    assert_eq!(Ok(()), h.param_bind(&owner, "left", one));
    assert_eq!(Ok(()), h.param_bind(&owner, "right", two));
    assert_eq!(Ok(()), h.param_unbind(&owner, "right"));
    assert_eq!(Some(TypedValue::USize(1)), h.params.get(m.handle));

    assert_eq!(Ok(()), h.param_unbind(&owner, "left"));
    assert_eq!(Some(TypedValue::USize(0)), h.params.get(m.handle));
}

fn clock_with_note(h: &mut OSCQueryHandler, period_micros: f64) -> u128 {
    let leaf = h
        .graph_node_create(&Some(20), "leaf::midi::note", None, &None, &None)
        .unwrap();
    let period = h
        .param_create(
            &Some(21),
            "const::<Float>",
            &period_micros.to_string(),
            &None,
        )
        .unwrap();
    let wires = vec![xsched::oscquery::Wire {
        name: "period_micros".to_string(),
        id: period,
    }];
    h.graph_node_create(
        &Some(22),
        "root::clock",
        None,
        &Some(GraphNodeChildren::Indexed(vec![leaf])),
        &Some(wires),
    )
    .unwrap()
}

#[test]
fn root_clock_dispatch() {
    let mut h = OSCQueryHandler::new(Sched::new());
    let sample_rate = 48_000usize;
    let period = 10.0 * 1_000_000.0 / 48_000.0;
    clock_with_note(&mut h, period);

    let out = h.process_frame(25, sample_rate);
    assert_eq!(vec![(0usize, 64u8), (10, 64), (20, 64)], note_ons(&out));
    assert_eq!(25, h.sched.tick_next());
    assert_eq!(
        Some(30),
        h.sched.queue_sources().sched_queue().peek_tick()
    );
    assert_eq!(1, h.sched.queue_sources().sched_queue().len());
}

#[test]
fn gate_deactivation() {
    let mut h = OSCQueryHandler::new(Sched::new());
    let root = clock_with_note(&mut h, 5208.333333333333);
    let at = h.graph.find(root).unwrap();
    assert_eq!(Some(true), h.graph.root_active(at));

    let mut seen = note_ons(&h.process_frame(100, 48_000)).len();
    seen += note_ons(&h.process_frame(100, 48_000)).len();
    assert!(seen >= 1);

    h.graph.root_deactivate(at);
    assert_eq!(Some(false), h.graph.root_active(at));
    let out = h.process_frame(1_000_000, 48_000);
    assert_eq!(0, note_ons(&out).len());
    assert!(h.sched.queue_sources().sched_queue().is_empty());
}

#[test]
fn children_swap_is_whole() {
    let mut h = OSCQueryHandler::new(Sched::new());
    let mut leaves = Vec::new();
    for i in 0..6u64 {
        let num = h
            .param_create(&Some(100 + i as u128), "const::<u8>", &json_u(60 + i), &None)
            .unwrap();
        let wires = vec![xsched::oscquery::Wire {
            name: "num".to_string(),
            id: num,
        }];
        let leaf = h
            .graph_node_create(
                &Some(200 + i as u128),
                "leaf::midi::note",
                None,
                &None,
                &Some(wires),
            )
            .unwrap();
        leaves.push(leaf);
    }
    let parent = h
        .graph_node_create(&Some(300), "node::fanout", None, &None, &None)
        .unwrap();
    let at = h.graph.find(parent).unwrap();
    let first = vec![leaves[0], leaves[1], leaves[2]];
    let second = vec![leaves[3], leaves[4], leaves[5]];
    let ctx = EventEvalContext {
        now: 0,
        end: 1,
        sample_rate: 48_000,
        context_tick: 0,
        period_ticks: 1,
    };
    for round in 0..10 {
        let wanted = if round % 2 == 0 { &first } else { &second };
        assert_eq!(
            Ok(()),
            h.graph_node_set_children(parent, &GraphNodeChildren::Indexed(wanted.clone()))
        );
        assert_eq!(Some(wanted.clone()), h.graph.item(at).unwrap().children_uuids());
        let mut midi: MidiValueQueue = TickQueue::with_capacity(64);
        child_exec_range(&h.graph, &mut h.params, &mut midi, at, ctx, 0, 3);
        let mut nums = Vec::new();
        while let Some((_, m)) = midi.dequeue_lt(usize::MAX) {
            if m.status & 0xf0 == 0x90 {
                nums.push(m.data1);
            }
        }
        let base = if round % 2 == 0 { 60 } else { 63 };
        assert_eq!(vec![base, base + 1, base + 2], nums);
    }
}

#[test]
fn tag_mismatch() {
    let mut h = OSCQueryHandler::new(Sched::new());
    let p = h
        .param_create(
            &Some(1),
            "const::<bool>",
            "true",
            &None,
        )
        .unwrap();
    let node = h
        .graph_node_create(&Some(2), "node::one_hot", None, &None, &None)
        .unwrap();
    assert_eq!(
        Err(CommandError::TagMismatch),
        h.param_bind(&ParamOwner::GraphItem(node), "sel", p)
    );
    let at = h.graph.find(node).unwrap();
    assert_eq!(None, h.graph.item(at).unwrap().params().uuid("sel"));
    assert_eq!(TypedValue::USize(0), read_slot(&h, node, "sel"));
}

#[test]
fn children_counts_and_labels() {
    let mut h = OSCQueryHandler::new(Sched::new());
    let leaf = h
        .graph_node_create(&Some(1), "leaf::midi::note", None, &None, &None)
        .unwrap();
    let node = h
        .graph_node_create(&Some(2), "node::fanout", None, &None, &None)
        .unwrap();
    let at = h.graph.find(node).unwrap();
    assert_eq!(ChildCount::Empty, h.graph.child_count(at));
    assert_eq!(Some("None"), h.graph.item(at).unwrap().children_type_label());

    assert_eq!(
        Ok(()),
        h.graph_node_set_children(node, &GraphNodeChildren::NChild(leaf))
    );
    assert_eq!(ChildCount::Inf, h.graph.child_count(at));
    assert_eq!(Some("NChild"), h.graph.item(at).unwrap().children_type_label());
    assert_eq!(Some(vec![leaf]), h.graph.item(at).unwrap().children_uuids());

    assert_eq!(
        Ok(()),
        h.graph_node_set_children(node, &GraphNodeChildren::Indexed(vec![leaf, leaf]))
    );
    assert_eq!(ChildCount::Finite(2), h.graph.child_count(at));
    assert_eq!(Some("Indexed"), h.graph.item(at).unwrap().children_type_label());

    let leaf_at = h.graph.find(leaf).unwrap();
    assert_eq!(None, h.graph.item(leaf_at).unwrap().children_uuids());
    assert_eq!(None, h.graph.item(leaf_at).unwrap().children_type_label());
    let refused = h.graph.children_swap(
        leaf_at,
        ChildrenUUIDs {
            children: Children::Empty,
            uuids: Vec::new(),
        },
    );
    assert!(refused.is_err());
}
