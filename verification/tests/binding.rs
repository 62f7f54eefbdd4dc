use xsched::binding::{AsParamGet, AsParamSet, BindingLastGet, ParamValue};
use xsched::oscquery::{CommandError, OSCQueryHandler, ParamOwner};
use xsched::param::{BindingError, ParamAccess, ParamGet, ParamHashMap, ParamRef, ParamSet};
use xsched::sched::Sched;
use xsched::store::{BinaryFn, Binding, Param, ParamDataAccess, ParamMapGet, ParamStore};
use xsched::value::{AccessKind, ClockData, Float, TickResched, TickSched, TypedValue, ValueTag};

fn composer(op: BinaryFn, tag: ValueTag, id: u128) -> Param {
    let mut map = ParamHashMap::new();
    map.insert_unbound("left", ParamAccess::new_get(ParamGet::with_tag(tag)));
    map.insert_unbound("right", ParamAccess::new_get(ParamGet::with_tag(tag)));
    Param::new_with_id("op", ParamDataAccess::Get(Binding::BinaryOp(op, tag)), map, None, id)
}

fn cell(v: TypedValue, id: u128) -> Param {
    Param::new_with_id(
        "value",
        ParamDataAccess::GetSet(Binding::Cell(v)),
        ParamHashMap::new(),
        None,
        id,
    )
}

#[test]
fn cycles_are_refused() {
    let mut store = ParamStore::new();
    let a = store.insert(composer(BinaryFn::Max, ValueTag::USize, 1));
    let b = store.insert(composer(BinaryFn::Max, ValueTag::USize, 2));
    let c = store.insert(composer(BinaryFn::Max, ValueTag::USize, 3));
    assert_eq!(
        Err(BindingError::CycleDetected),
        store.try_bind(a.handle, "left", a.handle)
    );
    assert_eq!(Ok(()), store.try_bind(a.handle, "left", b.handle));
    assert_eq!(
        Err(BindingError::CycleDetected),
        store.try_bind(b.handle, "right", a.handle)
    );
    assert_eq!(Ok(()), store.try_bind(b.handle, "right", c.handle));
    assert_eq!(
        Err(BindingError::CycleDetected),
        store.try_bind(c.handle, "left", a.handle)
    );
    assert_eq!(None, store.param(c.handle).unwrap().params().uuid("left"));
    assert_eq!(Ok(()), store.try_bind(a.handle, "right", c.handle));
    assert_eq!(Ok(()), store.try_bind(a.handle, "left", b.handle));
    assert_eq!(Some(TypedValue::USize(0)), store.get(a.handle));

    let mut h = OSCQueryHandler::new(Sched::new());
    h.add_param(composer(BinaryFn::Add, ValueTag::U8, 9));
    assert_eq!(
        Err(CommandError::CycleDetected),
        h.param_bind(&ParamOwner::Param(9), "left", 9)
    );
}

#[test]
fn directions_and_types_must_fit() {
    let mut store = ParamStore::new();
    let sink = store.insert(Param::new_with_id(
        "sink",
        ParamDataAccess::SetOnly(Binding::Cell(TypedValue::USize(0))),
        ParamHashMap::new(),
        None,
        1,
    ));
    let source = store.insert(Param::new_with_id(
        "source",
        ParamDataAccess::Get(Binding::Constant(TypedValue::USize(4))),
        ParamHashMap::new(),
        None,
        2,
    ));
    let flag = store.insert(cell(TypedValue::Bool(true), 3));
    let mut map = ParamHashMap::new();
    map.insert_unbound("in", ParamAccess::new_get(ParamGet::new(TypedValue::USize(5))));
    map.insert_unbound("out", ParamAccess::new_set(ParamSet::new(ValueTag::USize)));
    let owner = store.insert(Param::new_with_id(
        "owner",
        ParamDataAccess::Get(Binding::Constant(TypedValue::USize(0))),
        map,
        None,
        4,
    ));
    assert_eq!(Err(BindingError::NoGet), store.try_bind(owner.handle, "in", sink.handle));
    assert_eq!(Err(BindingError::NoSet), store.try_bind(owner.handle, "out", source.handle));
    assert_eq!(
        Err(BindingError::TagMismatch),
        store.try_bind(owner.handle, "in", flag.handle)
    );
    assert_eq!(
        Err(BindingError::TagMismatch),
        store.try_bind(owner.handle, "out", flag.handle)
    );
    assert_eq!(Err(BindingError::KeyMissing), store.try_bind(owner.handle, "x", flag.handle));
    assert_eq!(Err(BindingError::NotFound), store.try_bind(owner.handle, "in", 50));
    assert_eq!(Err(BindingError::NotFound), store.try_bind(50, "in", source.handle));
    assert_eq!(Ok(()), store.try_bind(owner.handle, "in", source.handle));
    assert_eq!(Ok(()), store.try_bind(owner.handle, "out", sink.handle));

    let slots = store.param(owner.handle).unwrap().params();
    assert_eq!(TypedValue::USize(4), store.read(slots.get("in").unwrap()));
    let out = slots.get("out").unwrap();
    store.write(out, TypedValue::USize(11));
    assert_eq!(None, store.get(sink.handle));
    assert!(store.set(sink.handle, TypedValue::USize(12)));
    assert!(!store.set(sink.handle, TypedValue::Bool(true)));
    assert!(!store.set(source.handle, TypedValue::USize(12)));
    assert!(!store.set(50, TypedValue::USize(12)));
    assert_eq!(None, store.get(50));
    assert_eq!(None, store.param_ref(50));
    assert_eq!(Some(source), store.unbind(owner.handle, "in"));
    assert_eq!(None, store.unbind(owner.handle, "in"));
    assert_eq!(None, store.unbind(owner.handle, "x"));
    assert_eq!(None, store.unbind(50, "in"));
    let slots = store.param(owner.handle).unwrap().params();
    assert_eq!(TypedValue::USize(0), store.read(slots.get("in").unwrap()));

    let mut slot = ParamAccess::new_get(ParamGet::new(TypedValue::U8(3)));
    let bogus = ParamRef { handle: 0, uuid: 1, tag: ValueTag::U8, kind: AccessKind::SetOnly };
    assert_eq!(Err(BindingError::NoGet), slot.try_bind(bogus));
    assert_eq!(None, slot.uuid());
    assert_eq!("get", slot.access_name());
    assert_eq!("u8", slot.data_type_name());
}

#[test]
fn composers_combine_what_their_slots_read() {
    let mut store = ParamStore::new();
    let cases = [
        (BinaryFn::Max, TypedValue::USize(3), TypedValue::USize(9), TypedValue::USize(9)),
        (BinaryFn::Min, TypedValue::USize(3), TypedValue::USize(9), TypedValue::USize(3)),
        (BinaryFn::Add, TypedValue::USize(3), TypedValue::USize(9), TypedValue::USize(12)),
        (
            BinaryFn::Add,
            TypedValue::USize(usize::MAX),
            TypedValue::USize(2),
            TypedValue::USize(1),
        ),
        (BinaryFn::Add, TypedValue::U8(250), TypedValue::U8(10), TypedValue::U8(4)),
        (BinaryFn::Max, TypedValue::ISize(-3), TypedValue::ISize(-9), TypedValue::ISize(-3)),
        (BinaryFn::Min, TypedValue::ISize(-3), TypedValue::ISize(-9), TypedValue::ISize(-9)),
        (BinaryFn::Max, TypedValue::Bool(false), TypedValue::Bool(true), TypedValue::Bool(true)),
        (BinaryFn::Min, TypedValue::Bool(false), TypedValue::Bool(true), TypedValue::Bool(false)),
        (BinaryFn::Add, TypedValue::Bool(true), TypedValue::Bool(true), TypedValue::Bool(false)),
    ];
    for (i, (op, l, r, want)) in cases.into_iter().enumerate() {
        let tag = l.tag();
        assert_eq!(want, op.apply(tag, l, r));
        let id = 10 * i as u128;
        let m = store.insert(composer(op, tag, id));
        let a = store.insert(cell(l, id + 1));
        let b = store.insert(cell(r, id + 2));
        assert_eq!(Ok(()), store.try_bind(m.handle, "left", a.handle));
        assert_eq!(Ok(()), store.try_bind(m.handle, "right", b.handle));
        assert_eq!(Some(want), store.get(m.handle));
        assert_eq!(Some(m.handle), store.find(id));
    }
    assert_eq!(
        TypedValue::USize(0),
        BinaryFn::Max.apply(ValueTag::USize, TypedValue::U8(1), TypedValue::USize(2))
    );
    assert_eq!(None, store.find(7777));
}

#[test]
fn the_latest_parameter_under_an_identifier_is_found() {
    let mut store = ParamStore::new();
    let first = store.insert(cell(TypedValue::U8(1), 5));
    let second = store.insert(cell(TypedValue::U8(2), 5));
    assert_eq!(0, first.handle);
    assert_eq!(1, second.handle);
    assert_eq!(Some(1), store.find(5));
    assert_eq!(2, store.len());
    assert_eq!(Some(TypedValue::U8(1)), store.get(first.handle));
}

#[test]
fn typed_access_follows_tag_and_direction() {
    let mut store = ParamStore::new();
    let flag = store.insert(cell(TypedValue::Bool(false), 1));
    let fixed = store.insert(Param::new_with_id(
        "const",
        ParamDataAccess::Get(Binding::Constant(TypedValue::ISize(-4))),
        ParamHashMap::new(),
        None,
        2,
    ));
    assert!(AsParamGet::<bool>::as_get(&flag).is_some());
    assert!(AsParamSet::<bool>::as_set(&flag).is_some());
    assert!(AsParamGet::<u8>::as_get(&flag).is_none());
    assert!(AsParamSet::<usize>::as_set(&flag).is_none());
    assert!(AsParamGet::<isize>::as_get(&fixed).is_some());
    assert!(AsParamSet::<isize>::as_set(&fixed).is_none());

    let set = AsParamSet::<bool>::as_set(&flag).unwrap();
    let get = AsParamGet::<bool>::as_get(&flag).unwrap();
    assert!(set.set::<bool>(&mut store, true));
    assert_eq!(Some(true), get.get::<bool>(&store));
    assert_eq!(None, get.get::<u8>(&store));
    assert_eq!(
        Some(-4),
        AsParamGet::<isize>::as_get(&fixed).unwrap().get::<isize>(&store)
    );

    assert_eq!(ValueTag::Bool, <bool as ParamValue>::tag());
    assert_eq!(ValueTag::U8, <u8 as ParamValue>::tag());
    assert_eq!(ValueTag::USize, <usize as ParamValue>::tag());
    assert_eq!(ValueTag::ISize, <isize as ParamValue>::tag());
    assert_eq!(ValueTag::Float, <Float as ParamValue>::tag());
    assert_eq!(ValueTag::ClockData, <ClockData as ParamValue>::tag());
    assert_eq!(ValueTag::TickResched, <TickResched as ParamValue>::tag());
    assert_eq!(ValueTag::TickSched, <TickSched as ParamValue>::tag());
    assert_eq!(TypedValue::U8(3), 3u8.into_value());
    assert_eq!(Some(3u8), <u8 as ParamValue>::from_value(TypedValue::U8(3)));
    assert_eq!(None, <u8 as ParamValue>::from_value(TypedValue::USize(3)));
    assert_eq!(
        Some(TickSched::Absolute(2)),
        <TickSched as ParamValue>::from_value(TickSched::Absolute(2).into_value())
    );
}

#[test]
fn last_value_reader_remembers_what_it_read() {
    let mut store = ParamStore::new();
    let v = store.insert(cell(TypedValue::USize(5), 1));
    let get = AsParamGet::<usize>::as_get(&v).unwrap();
    let mut last = BindingLastGet::new(get);
    assert_eq!(None, last.last());
    assert_eq!(Some(TypedValue::USize(5)), last.get(&store));
    assert!(store.set(v.handle, TypedValue::USize(6)));
    assert_eq!(Some(TypedValue::USize(5)), last.last());
    assert_eq!(Some(TypedValue::USize(6)), last.get(&store));
    assert_eq!(Some(TypedValue::USize(6)), last.last());
    let started = BindingLastGet::new_init(get, &store);
    assert_eq!(Some(TypedValue::USize(6)), started.last());
}

#[test]
fn names_of_tags_and_directions() {
    let tags = [
        (ValueTag::Bool, "bool"),
        (ValueTag::U8, "u8"),
        (ValueTag::USize, "usize"),
        (ValueTag::ISize, "isize"),
        (ValueTag::Float, "Float"),
        (ValueTag::ClockData, "ClockData"),
        (ValueTag::TickResched, "TickResched"),
        (ValueTag::TickSched, "TickSched"),
    ];
    for (tag, name) in tags {
        assert_eq!(name, tag.name());
        assert_eq!(tag, tag.default_value().tag());
    }
    assert_eq!("get", AccessKind::GetOnly.name());
    assert_eq!("set", AccessKind::SetOnly.name());
    assert_eq!("getset", AccessKind::GetSet.name());
    assert_eq!(7, TypedValue::USize(7).to_usize());
    assert_eq!(0, TypedValue::U8(7).to_usize());
    assert_eq!(7, TypedValue::U8(7).to_u8());
    assert!(TypedValue::Bool(true).to_bool());
    assert!(!TypedValue::USize(1).to_bool());
    assert_eq!(TickResched::Never, TypedValue::Bool(true).to_resched());
    assert_eq!(Float::from_bits(0), TypedValue::Bool(true).to_float());
}

#[test]
fn tempo_fields_are_set_one_at_a_time() {
    let f = |x: f64| Float::from_bits(x.to_bits());
    let mut c = ClockData::new(f(120.0), 0, f(5208.0));
    assert_eq!(1, c.ppq());
    c.set_ppq(96, f(5208.333333333333));
    assert_eq!(96, c.ppq());
    assert_eq!(f(120.0), c.bpm());
    assert_eq!(f(5208.333333333333), c.period_micros());
    c.set_bpm(f(60.0), f(10416.666666666666));
    assert_eq!(f(60.0), c.bpm());
    assert_eq!(96, c.ppq());
    c.set_period_micros(f(5000.0), f(125.0));
    assert_eq!(f(125.0), c.bpm());
    assert_eq!(f(5000.0), c.period_micros());
    c.set_ppq(0, f(1.0));
    assert_eq!(1, c.ppq());
    assert_eq!(1.5f64.to_bits(), f(1.5).to_bits());
}
