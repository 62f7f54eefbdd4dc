use xsched::error::CreateError;
use xsched::graph::factory::create_instance;
use xsched::graph::{GraphExec, ItemKind};
use xsched::json::decode_value;
use xsched::param::factory::{create_param, help, lookup, param_from_value, FactoryKind};
use xsched::param::ParamAccess;
use xsched::param::ParamGet;
use xsched::param::ParamSet;
use xsched::store::{Binding, ParamDataAccess, ParamMapGet};
use xsched::value::{
    ClockData, Float, TickResched, TickSched, TypedValue, ValueTag, DEFAULT_BPM_BITS,
    DEFAULT_PERIOD_MICROS_BITS,
};

fn json(text: &str) -> &str {
    text
}

#[test]
fn json_is_read_by_type() {
    assert_eq!(Some(TypedValue::Bool(true)), decode_value(ValueTag::Bool, json("true")));
    assert_eq!(None, decode_value(ValueTag::Bool, json("1")));
    assert_eq!(Some(TypedValue::U8(255)), decode_value(ValueTag::U8, json("255")));
    assert_eq!(None, decode_value(ValueTag::U8, json("256")));
    assert_eq!(None, decode_value(ValueTag::U8, json("-1")));
    assert_eq!(None, decode_value(ValueTag::U8, json("1.0")));
    assert_eq!(Some(TypedValue::USize(7)), decode_value(ValueTag::USize, json("7")));
    assert_eq!(None, decode_value(ValueTag::USize, json("\"7\"")));
    assert_eq!(Some(TypedValue::ISize(-7)), decode_value(ValueTag::ISize, json("-7")));
    assert_eq!(
        Some(TypedValue::Float(Float::from_bits(2.5f64.to_bits()))),
        decode_value(ValueTag::Float, json("2.5"))
    );
    assert_eq!(
        Some(TypedValue::Float(Float::from_bits(3.0f64.to_bits()))),
        decode_value(ValueTag::Float, json("3"))
    );
    assert_eq!(None, decode_value(ValueTag::Float, json("null")));
    assert_eq!(
        Some(TypedValue::ClockData(ClockData {
            bpm: Float::from_bits(60.0f64.to_bits()),
            ppq: 24,
            period_micros: Float::from_bits(41666.0f64.to_bits()),
        })),
        decode_value(
            ValueTag::ClockData,
            json("{\"bpm\":60.0,\"ppq\":24,\"period_micros\":41666.0}")
        )
    );
    assert_eq!(
        None,
        decode_value(
            ValueTag::ClockData,
            json("{\"bpm\":60.0,\"ppq\":0,\"period_micros\":41666.0}")
        )
    );
    assert_eq!(None, decode_value(ValueTag::ClockData, json("{\"bpm\":60.0}")));
    assert_eq!(
        Some(TypedValue::TickResched(TickResched::Never)),
        decode_value(ValueTag::TickResched, json("\"None\""))
    );
    assert_eq!(
        Some(TypedValue::TickResched(TickResched::Relative(20))),
        decode_value(ValueTag::TickResched, json("{\"Relative\":20}"))
    );
    assert_eq!(
        Some(TypedValue::TickResched(TickResched::ContextRelative(2))),
        decode_value(ValueTag::TickResched, json("{\"ContextRelative\":2}"))
    );
    assert_eq!(None, decode_value(ValueTag::TickResched, json("{\"Absolute\":2}")));
    assert_eq!(
        Some(TypedValue::TickSched(TickSched::Unset)),
        decode_value(ValueTag::TickSched, json("\"None\""))
    );
    assert_eq!(
        Some(TypedValue::TickSched(TickSched::Absolute(9))),
        decode_value(ValueTag::TickSched, json("{\"Absolute\":9}"))
    );
    assert_eq!(None, decode_value(ValueTag::TickSched, json("\"Later\"")));
}

#[test]
fn every_type_has_a_constant_and_a_mutable_factory() {
    let entries = help();
    assert_eq!(16, entries.len());
    for e in entries.iter() {
        let found = lookup(e.key()).unwrap();
        assert_eq!(*e, found);
        assert!(e.example_args().is_some());
        assert!(e.description().ends_with(" value"));
        let example = json(e.example_args().unwrap());
        let p = create_param(5, e.key(), example).unwrap();
        assert_eq!(e.key(), p.type_label());
        assert_eq!(e.tag.name(), p.data_type_name());
        assert_eq!(5, p.uuid());
        assert!(p.params().is_empty());
        assert!(p.shadow().is_some());
        match e.kind {
            FactoryKind::Constant => assert_eq!("get", p.access_name()),
            FactoryKind::Mutable => assert_eq!("getset", p.access_name()),
        }
        assert_eq!(
            e.tag.default_value(),
            match p.data() {
                ParamDataAccess::Get(Binding::Constant(v)) => *v,
                ParamDataAccess::GetSet(Binding::Cell(v)) => *v,
                _ => panic!("unexpected data"),
            }
        );
    }
    assert!(lookup("const::<bool>").is_some());
    assert!(lookup("val::<TickSched>").is_some());
    assert!(lookup("var::<bool>").is_none());
}

#[test]
fn default_values() {
    assert_eq!(TypedValue::Bool(false), ValueTag::Bool.default_value());
    assert_eq!(TypedValue::U8(0), ValueTag::U8.default_value());
    assert_eq!(TypedValue::USize(0), ValueTag::USize.default_value());
    assert_eq!(TypedValue::ISize(0), ValueTag::ISize.default_value());
    assert_eq!(
        TypedValue::Float(Float::from_bits(0.0f64.to_bits())),
        ValueTag::Float.default_value()
    );
    assert_eq!(120.0f64.to_bits(), DEFAULT_BPM_BITS);
    assert_eq!((60_000_000.0f64 / (120.0 * 96.0)).to_bits(), DEFAULT_PERIOD_MICROS_BITS);
    assert_eq!(
        TypedValue::ClockData(ClockData::new(
            Float::from_bits(DEFAULT_BPM_BITS),
            96,
            Float::from_bits(DEFAULT_PERIOD_MICROS_BITS)
        )),
        ValueTag::ClockData.default_value()
    );
    assert_eq!(
        TypedValue::TickResched(TickResched::Never),
        ValueTag::TickResched.default_value()
    );
    assert_eq!(
        TypedValue::TickSched(TickSched::Unset),
        ValueTag::TickSched.default_value()
    );
}

#[test]
fn create_errors() {
    assert_eq!(
        Some(CreateError::TypeNotFound),
        create_param(1, "const::<u16>", json("1")).err()
    );
    assert_eq!(
        Some(CreateError::InvalidArgs),
        create_param(1, "const::<usize>", json("\"one\"")).err()
    );
    assert_eq!(
        Some(CreateError::InvalidArgs),
        param_from_value(1, "val::<usize>", None).err()
    );
    assert_eq!(
        Some(CreateError::InvalidArgs),
        param_from_value(1, "val::<usize>", Some(TypedValue::Bool(true))).err()
    );
    assert_eq!(
        Some(CreateError::TypeNotFound),
        create_instance(1, "root::nothing", None).err()
    );
    assert_eq!("TypeNotFound", CreateError::TypeNotFound.name());
    assert_eq!("InvalidArgs", CreateError::InvalidArgs.name());
}

#[test]
fn graph_catalogue() {
    let cases: Vec<(&str, GraphExec, ItemKind, Vec<(&str, TypedValue)>)> = vec![
        (
            "root::clock",
            GraphExec::RootClock,
            ItemKind::Root,
            vec![(
                "period_micros",
                TypedValue::Float(Float::from_bits(DEFAULT_PERIOD_MICROS_BITS)),
            )],
        ),
        (
            "node::clock_ratio",
            GraphExec::ClockRatio,
            ItemKind::Node,
            vec![("mul", TypedValue::USize(1)), ("div", TypedValue::USize(1))],
        ),
        (
            "node::gate",
            GraphExec::Gate,
            ItemKind::Node,
            vec![("gate", TypedValue::Bool(false))],
        ),
        (
            "node::one_hot",
            GraphExec::OneHot,
            ItemKind::Node,
            vec![("sel", TypedValue::USize(0))],
        ),
        ("node::fanout", GraphExec::FanOut, ItemKind::Node, vec![]),
        (
            "node::step_seq",
            GraphExec::StepSeq,
            ItemKind::Node,
            vec![
                ("step_ticks", TypedValue::USize(16)),
                ("steps", TypedValue::USize(16)),
            ],
        ),
        (
            "leaf::midi::note",
            GraphExec::MidiNote,
            ItemKind::Leaf,
            vec![
                ("chan", TypedValue::U8(0)),
                ("num", TypedValue::U8(64)),
                ("on_vel", TypedValue::U8(127)),
                ("off_vel", TypedValue::U8(127)),
                (
                    "dur",
                    TypedValue::TickResched(TickResched::ContextRelative(1)),
                ),
            ],
        ),
    ];
    for (label, exec, kind, slots) in cases {
        let item = create_instance(9, label, None).unwrap();
        assert_eq!(label, item.type_label());
        assert_eq!(9, item.uuid());
        assert_eq!(exec, item.inner);
        assert_eq!(kind, item.kind);
        assert_eq!(None, item.active_gate);
        let mut names: Vec<&str> = slots.iter().map(|s| s.0).collect();
        for (name, zero) in slots {
            assert_eq!(
                Some(ParamAccess::new_get(ParamGet::new(zero))),
                item.params().get(name)
            );
            assert_eq!(Some("get"), item.params().access_name(name));
            assert_eq!(None, item.params().uuid(name));
        }
        if kind != ItemKind::Leaf {
            names.push("child_exec_index");
            assert_eq!(
                Some(ParamAccess::new_set(ParamSet::new(ValueTag::USize))),
                item.params().get("child_exec_index")
            );
            assert_eq!(Some("set"), item.params().access_name("child_exec_index"));
            assert_eq!(Some("usize"), item.params().data_type_name("child_exec_index"));
        } else {
            assert!(!item.params().contains_key("child_exec_index"));
        }
        assert_eq!(names, item.params().keys());
        assert_eq!(kind == ItemKind::Root, item.root_active().is_some());
    }
}
