use xsched::graph::exec::{child_exec_range, exec_item, plan, EventEvalContext, Plan};
use xsched::midi::{MidiValue, MidiValueQueue};
use xsched::oscquery::{Command, GraphNodeChildren, OSCQueryHandler, ParamOwner, Wire};
use xsched::pqueue::TickQueue;
use xsched::sched::{QueueSource, Sched};
use xsched::store::ParamMapGet;
use xsched::value::TypedValue;

fn value(h: &mut OSCQueryHandler, id: u128, label: &str, args: &str) -> u128 {
    h.param_create(&Some(id), label, args, &None).unwrap()
}

fn wires(pairs: &[(&str, u128)]) -> Option<Vec<Wire>> {
    Some(
        pairs
            .iter()
            .map(|(name, id)| Wire {
                name: name.to_string(),
                id: *id,
            })
            .collect(),
    )
}

fn note(h: &mut OSCQueryHandler, id: u128, num: u64) -> u128 {
    let p = value(h, id + 1000, "const::<u8>", &num.to_string());
    h.graph_node_create(&Some(id), "leaf::midi::note", None, &None, &wires(&[("num", p)]))
        .unwrap()
}

fn clock(h: &mut OSCQueryHandler, id: u128, ticks: u64, children: Vec<u128>) -> u128 {
    let period = ticks as f64 * 1_000_000.0 / 48_000.0;
    let p = h
        .param_create(
            &Some(id + 1000),
            "const::<Float>",
            &period.to_string(),
            &None,
        )
        .unwrap();
    h.graph_node_create(
        &Some(id),
        "root::clock",
        None,
        &Some(GraphNodeChildren::Indexed(children)),
        &wires(&[("period_micros", p)]),
    )
    .unwrap()
}

fn ons(out: &[(usize, MidiValue)]) -> Vec<(usize, u8)> {
    out.iter()
        .filter(|(_, m)| m.status & 0xf0 == 0x90)
        .map(|(t, m)| (*t, m.data1))
        .collect()
}

fn offs(out: &[(usize, MidiValue)]) -> Vec<(usize, u8)> {
    out.iter()
        .filter(|(_, m)| m.status & 0xf0 == 0x80)
        .map(|(t, m)| (*t, m.data1))
        .collect()
}

fn context(now: usize) -> EventEvalContext {
    EventEvalContext {
        now,
        end: now + 1,
        sample_rate: 48_000,
        context_tick: 0,
        period_ticks: 10,
    }
}

#[test]
fn note_leaf_sends_on_and_off() {
    let mut h = OSCQueryHandler::new(Sched::new());
    let chan = value(&mut h, 1, "const::<u8>", "3");
    let num = value(&mut h, 2, "const::<u8>", "60");
    let on_vel = value(&mut h, 3, "const::<u8>", "100");
    let off_vel = value(&mut h, 4, "const::<u8>", "0");
    let dur = value(&mut h, 5, "val::<TickResched>", "{\"Relative\":5}");
    let leaf = h
        .graph_node_create(
            &Some(6),
            "leaf::midi::note",
            None,
            &None,
            &wires(&[
                ("chan", chan),
                ("num", num),
                ("on_vel", on_vel),
                ("off_vel", off_vel),
                ("dur", dur),
            ]),
        )
        .unwrap();
    let at = h.graph.find(leaf).unwrap();
    let mut midi: MidiValueQueue = TickQueue::with_capacity(8);
    exec_item(&h.graph, &mut h.params, &mut midi, at, context(7), 1);
    assert_eq!(
        Some((7, MidiValue { len: 3, status: 0x93, data1: 60, data2: 100 })),
        midi.dequeue_lt(usize::MAX)
    );
    assert_eq!(
        Some((12, MidiValue { len: 3, status: 0x83, data1: 60, data2: 0 })),
        midi.dequeue_lt(usize::MAX)
    );
    assert_eq!(None, midi.dequeue_lt(usize::MAX));

    let d = h.params.find(dur).unwrap();
    assert!(h.params.set(d, TypedValue::TickResched(xsched::value::TickResched::ContextRelative(3))));
    exec_item(&h.graph, &mut h.params, &mut midi, at, context(7), 1);
    assert_eq!(Some(7), midi.peek_tick());
    midi.dequeue_lt(usize::MAX);
    assert_eq!(Some(37), midi.peek_tick());
    midi.dequeue_lt(usize::MAX);

    assert!(h.params.set(d, TypedValue::TickResched(xsched::value::TickResched::Never)));
    exec_item(&h.graph, &mut h.params, &mut midi, at, context(7), 1);
    assert_eq!(1, midi.len());
    midi.dequeue_lt(usize::MAX);

    exec_item(&h.graph, &mut h.params, &mut midi, at, context(7), 0);
    assert!(midi.is_empty());
    exec_item(&h.graph, &mut h.params, &mut midi, 99, context(7), 5);
    assert!(midi.is_empty());
}

#[test]
fn note_values_are_reduced_to_their_range() {
    assert_eq!(
        MidiValue { len: 3, status: 0x9f, data1: 127, data2: 0 },
        MidiValue::note_on(31, 255, 128)
    );
    assert_eq!(
        MidiValue { len: 3, status: 0x80, data1: 1, data2: 127 },
        MidiValue::note_off(16, 129, 255)
    );
    assert_eq!(vec![0x90u8, 60, 100], MidiValue::note_on(0, 60, 100).wire());
    assert_eq!(vec![0xf8u8], MidiValue { len: 1, status: 0xf8, data1: 1, data2: 2 }.wire());
    assert_eq!(vec![0xc0u8, 1], MidiValue { len: 2, status: 0xc0, data1: 1, data2: 2 }.wire());
    assert!(MidiValue { len: 0, status: 0xf8, data1: 1, data2: 2 }.wire().is_empty());
    assert!(MidiValue { len: 4, status: 0xf8, data1: 1, data2: 2 }.wire().is_empty());
}

#[test]
fn a_full_midi_queue_drops_messages() {
    let mut h = OSCQueryHandler::new(Sched::new());
    let leaf = note(&mut h, 1, 60);
    let at = h.graph.find(leaf).unwrap();
    let mut midi: MidiValueQueue = TickQueue::with_capacity(1);
    exec_item(&h.graph, &mut h.params, &mut midi, at, context(0), 1);
    assert_eq!(1, midi.len());
    assert_eq!(Some(0), midi.peek_tick());
}

#[test]
fn indices_beyond_the_last_child_are_skipped() {
    let mut h = OSCQueryHandler::new(Sched::new());
    let a = note(&mut h, 1, 60);
    let b = note(&mut h, 2, 61);
    let index = value(&mut h, 3, "val::<usize>", "0");
    let fan = h
        .graph_node_create(
            &Some(4),
            "node::fanout",
            None,
            &Some(GraphNodeChildren::Indexed(vec![a, b])),
            &wires(&[("child_exec_index", index)]),
        )
        .unwrap();
    let at = h.graph.find(fan).unwrap();
    let mut midi: MidiValueQueue = TickQueue::with_capacity(64);
    child_exec_range(&h.graph, &mut h.params, &mut midi, at, context(0), 1, 10);
    let mut nums = Vec::new();
    while let Some((_, m)) = midi.dequeue_lt(usize::MAX) {
        if m.status == 0x90 {
            nums.push(m.data1);
        }
    }
    assert_eq!(vec![61u8], nums);
    assert_eq!(
        Some(TypedValue::USize(1)),
        h.params.get(h.params.find(index).unwrap())
    );

    child_exec_range(&h.graph, &mut h.params, &mut midi, at, context(0), 5, 2);
    assert!(midi.is_empty());
    child_exec_range(&h.graph, &mut h.params, &mut midi, 77, context(0), 0, 2);
    assert!(midi.is_empty());
}

#[test]
fn a_single_child_is_replayed_for_every_index() {
    let mut h = OSCQueryHandler::new(Sched::new());
    let a = note(&mut h, 1, 60);
    let index = value(&mut h, 3, "val::<usize>", "0");
    let fan = h
        .graph_node_create(
            &Some(4),
            "node::fanout",
            None,
            &Some(GraphNodeChildren::NChild(a)),
            &wires(&[("child_exec_index", index)]),
        )
        .unwrap();
    let at = h.graph.find(fan).unwrap();
    let mut midi: MidiValueQueue = TickQueue::with_capacity(64);
    child_exec_range(&h.graph, &mut h.params, &mut midi, at, context(0), 2, 5);
    assert_eq!(6, midi.len());
    assert_eq!(
        Some(TypedValue::USize(4)),
        h.params.get(h.params.find(index).unwrap())
    );
    let p = plan(h.graph.item(at).unwrap(), &h.params, context(0));
    assert_eq!(Plan { lo: 0, hi: 1, passes: 1, tick: 0, period: 10 }, p);
}

#[test]
fn gate_node_runs_its_children_while_open() {
    let mut h = OSCQueryHandler::new(Sched::new());
    let a = note(&mut h, 1, 60);
    let open = value(&mut h, 2, "val::<bool>", "false");
    let gate = h
        .graph_node_create(
            &Some(3),
            "node::gate",
            None,
            &Some(GraphNodeChildren::Indexed(vec![a])),
            &wires(&[("gate", open)]),
        )
        .unwrap();
    clock(&mut h, 4, 10, vec![gate]);
    assert!(ons(&h.process_frame(10, 48_000)).is_empty());
    let at = h.params.find(open).unwrap();
    assert!(h.params.set(at, TypedValue::Bool(true)));
    assert_eq!(vec![(0usize, 60u8)], ons(&h.process_frame(10, 48_000)));
}

#[test]
fn one_hot_runs_the_selected_child() {
    let mut h = OSCQueryHandler::new(Sched::new());
    let a = note(&mut h, 1, 60);
    let b = note(&mut h, 2, 61);
    let sel = value(&mut h, 3, "val::<usize>", "1");
    let hot = h
        .graph_node_create(
            &Some(4),
            "node::one_hot",
            None,
            &Some(GraphNodeChildren::Indexed(vec![a, b])),
            &wires(&[("sel", sel)]),
        )
        .unwrap();
    clock(&mut h, 5, 10, vec![hot]);
    assert_eq!(vec![(0usize, 61u8)], ons(&h.process_frame(10, 48_000)));
    let at = h.params.find(sel).unwrap();
    assert!(h.params.set(at, TypedValue::USize(0)));
    assert_eq!(vec![(0usize, 60u8)], ons(&h.process_frame(10, 48_000)));
    assert!(h.params.set(at, TypedValue::USize(5)));
    assert!(ons(&h.process_frame(10, 48_000)).is_empty());
    assert!(h.params.set(at, TypedValue::USize(usize::MAX)));
    assert!(ons(&h.process_frame(10, 48_000)).is_empty());
}

#[test]
fn clock_ratio_multiplies_and_divides() {
    let mut h = OSCQueryHandler::new(Sched::new());
    let a = note(&mut h, 1, 60);
    let mul = value(&mut h, 2, "val::<usize>", "2");
    let div = value(&mut h, 3, "val::<usize>", "1");
    let ratio = h
        .graph_node_create(
            &Some(4),
            "node::clock_ratio",
            None,
            &Some(GraphNodeChildren::Indexed(vec![a])),
            &wires(&[("mul", mul), ("div", div)]),
        )
        .unwrap();
    clock(&mut h, 5, 10, vec![ratio]);
    let out = h.process_frame(25, 48_000);
    assert_eq!(
        vec![(0usize, 60u8), (0, 60), (10, 60), (10, 60), (20, 60), (20, 60)],
        ons(&out)
    );
    assert_eq!(
        vec![(5usize, 60u8), (5, 60), (15, 60), (15, 60)],
        offs(&out)
    );

    let m = h.params.find(mul).unwrap();
    let d = h.params.find(div).unwrap();
    assert!(h.params.set(m, TypedValue::USize(1)));
    assert!(h.params.set(d, TypedValue::USize(2)));
    let out = h.process_frame(40, 48_000);
    assert_eq!(vec![(15usize, 60u8), (35, 60)], ons(&out));

    assert!(h.params.set(d, TypedValue::USize(0)));
    let before = h.sched.tick_next();
    let out = h.process_frame(40, 48_000);
    assert!(ons(&out).is_empty());
    assert_eq!(before + 40, h.sched.tick_next());

    let at = h.graph.find(ratio).unwrap();
    let ctx = EventEvalContext {
        now: 0,
        end: 1,
        sample_rate: 48_000,
        context_tick: 7,
        period_ticks: 12,
    };
    assert!(h.params.set(m, TypedValue::USize(3)));
    assert!(h.params.set(d, TypedValue::USize(2)));
    assert_eq!(
        Plan { lo: 0, hi: 1, passes: 1, tick: 11, period: 8 },
        plan(h.graph.item(at).unwrap(), &h.params, ctx)
    );
    let ctx = EventEvalContext { context_tick: 8, ..ctx };
    assert_eq!(
        Plan { lo: 0, hi: 1, passes: 2, tick: 12, period: 8 },
        plan(h.graph.item(at).unwrap(), &h.params, ctx)
    );
}

#[test]
fn step_sequencer_walks_its_children() {
    let mut h = OSCQueryHandler::new(Sched::new());
    let a = note(&mut h, 1, 60);
    let b = note(&mut h, 2, 61);
    let c = note(&mut h, 3, 62);
    let step_ticks = value(&mut h, 4, "val::<usize>", "2");
    let steps = value(&mut h, 5, "val::<usize>", "3");
    let seq = h
        .graph_node_create(
            &Some(6),
            "node::step_seq",
            None,
            &Some(GraphNodeChildren::Indexed(vec![a, b, c])),
            &wires(&[("step_ticks", step_ticks), ("steps", steps)]),
        )
        .unwrap();
    clock(&mut h, 7, 1, vec![seq]);
    let out = h.process_frame(8, 48_000);
    assert_eq!(
        vec![(0usize, 60u8), (2, 61), (4, 62), (6, 60)],
        ons(&out)
    );
    let at = h.graph.find(seq).unwrap();
    assert_eq!(Some(None), Some(h.graph.item(at).unwrap().params().uuid("nothing")));
    let s = h.params.find(steps).unwrap();
    assert!(h.params.set(s, TypedValue::USize(0)));
    assert!(ons(&h.process_frame(8, 48_000)).is_empty());
}

#[test]
fn a_graph_that_loops_is_cut_off() {
    let mut h = OSCQueryHandler::new(Sched::new());
    let a = note(&mut h, 1, 60);
    let fan = h
        .graph_node_create(&Some(2), "node::fanout", None, &None, &None)
        .unwrap();
    assert_eq!(
        Ok(()),
        h.graph_node_set_children(fan, &GraphNodeChildren::Indexed(vec![a, fan]))
    );
    clock(&mut h, 3, 10, vec![fan]);
    let out = h.process_frame(1, 48_000);
    let n = ons(&out).len();
    assert!(n >= 1);
    assert!(n <= h.graph.len());
}

#[test]
fn roots_cannot_be_children() {
    let mut h = OSCQueryHandler::new(Sched::new());
    let root = clock(&mut h, 1, 10, vec![]);
    let fan = h
        .graph_node_create(&Some(2), "node::fanout", None, &None, &None)
        .unwrap();
    assert!(h
        .graph_node_set_children(fan, &GraphNodeChildren::NChild(root))
        .is_err());
    assert!(h
        .graph_node_set_children(fan, &GraphNodeChildren::Indexed(vec![root]))
        .is_err());
    let at = h.graph.find(fan).unwrap();
    assert_eq!(Some(vec![]), h.graph.item(at).unwrap().children_uuids());
    assert_eq!(None, h.graph.item(h.graph.find(root).unwrap()).unwrap().get_node(0));
    assert_eq!(Some(at), h.graph.item(at).unwrap().get_node(at));
}

#[test]
fn commands_are_carried_out_in_order() {
    let mut h = OSCQueryHandler::new(Sched::new());
    let batch = Command::Batch(vec![
        Command::ParamCreate {
            id: Some(1),
            type_label: "val::<usize>".to_string(),
            args: "3".to_string(),
            params: None,
        },
        Command::GraphItemCreate {
            id: Some(2),
            type_label: "leaf::midi::note".to_string(),
            args: None,
            children: None,
            params: None,
        },
        Command::ParamBind {
            owner: ParamOwner::GraphItem(3),
            param_name: "sel".to_string(),
            param_id: 1,
        },
        Command::Batch(vec![
            Command::GraphItemCreate {
                id: Some(3),
                type_label: "node::one_hot".to_string(),
                args: None,
                children: Some(GraphNodeChildren::Indexed(vec![2])),
                params: wires(&[("sel", 1)]),
            },
            Command::GraphNodeSetChildren {
                parent_id: 3,
                children: GraphNodeChildren::NChild(2),
            },
            Command::ParamUnbind {
                owner: ParamOwner::GraphItem(3),
                param_name: "child_exec_index".to_string(),
            },
        ]),
        Command::GraphItemCreate {
            id: Some(4),
            type_label: "root::clock".to_string(),
            args: None,
            children: Some(GraphNodeChildren::Indexed(vec![3])),
            params: None,
        },
    ]);
    h.handle_command(&batch);
    assert_eq!(1, h.params.len());
    assert_eq!(3, h.graph.len());
    let node = h.graph.find(3).unwrap();
    assert_eq!(Some(1), h.graph.item(node).unwrap().params().uuid("sel"));
    assert_eq!(Some(vec![2]), h.graph.item(node).unwrap().children_uuids());
    assert_eq!(Some("NChild"), h.graph.item(node).unwrap().children_type_label());
    let root = h.graph.find(4).unwrap();
    assert_eq!(Some(true), h.graph.root_active(root));
    assert_eq!(Some(0), h.sched.queue_sources().sched_queue().peek_tick());

    h.process(&vec![
        Command::ParamUnbind {
            owner: ParamOwner::GraphItem(3),
            param_name: "sel".to_string(),
        },
        Command::ParamCreate {
            id: None,
            type_label: "const::<bool>".to_string(),
            args: "true".to_string(),
            params: None,
        },
    ]);
    assert_eq!(None, h.graph.item(node).unwrap().params().uuid("sel"));
    assert_eq!(2, h.params.len());
}

#[test]
fn a_replaced_root_is_deactivated() {
    let mut h = OSCQueryHandler::new(Sched::new());
    let a = note(&mut h, 1, 60);
    let first = clock(&mut h, 2, 10, vec![a]);
    let old_place = h.graph.find(first).unwrap();
    let second = h
        .graph_node_create(
            &Some(2),
            "root::clock",
            None,
            &Some(GraphNodeChildren::Indexed(vec![a])),
            &None,
        )
        .unwrap();
    assert_eq!(first, second);
    let new_place = h.graph.find(second).unwrap();
    assert!(new_place != old_place);
    assert_eq!(Some(false), h.graph.root_active(old_place));
    assert_eq!(Some(true), h.graph.root_active(new_place));
    let out = h.process_frame(1, 48_000);
    assert_eq!(vec![(0usize, 60u8)], ons(&out));
    assert_eq!(1, h.sched.dispose_all().len());
}

#[test]
fn disposal_overflow_is_counted() {
    let mut h = OSCQueryHandler::new(Sched::new());
    let root = clock(&mut h, 1, 1_000_000, vec![]);
    let at = h.graph.find(root).unwrap();
    for _ in 0..2 {
        for _ in 0..700 {
            let e = h.graph.root_event(at).unwrap();
            assert!(h.sched.enqueue(0, e).is_ok());
        }
        h.process_frame(1, 48_000);
    }
    // 700 stale events in the first frame, 699 in the second: the event
    // that was live after the first frame waits for its far-off tick.
    assert_eq!(1399 - 1024, h.sched.dropped());
    assert_eq!(1024, h.sched.dispose_all().len());
    assert_eq!(0, h.sched.dispose_all().len());
    assert_eq!(1399 - 1024, h.sched.dropped());
}

#[test]
fn a_full_event_queue_refuses_roots() {
    let mut h = OSCQueryHandler::new(Sched::new());
    let root = clock(&mut h, 1, 10, vec![]);
    let at = h.graph.find(root).unwrap();
    while h.sched.queue_sources().sched_queue().len() < h.sched.queue_capacity() {
        let e = h.graph.root_event(at).unwrap();
        assert!(h.sched.enqueue(0, e).is_ok());
    }
    let e = h.graph.root_event(at).unwrap();
    assert_eq!(Err(e), h.sched.enqueue(0, e));
    let items = h.graph.len();
    assert_eq!(
        Err(xsched::oscquery::CommandError::Refused),
        h.graph_node_create(&Some(9), "root::clock", None, &None, &None)
    );
    assert_eq!(items, h.graph.len());
    assert!(h
        .graph_node_create(&Some(9), "node::fanout", None, &None, &None)
        .is_ok());
}
