use xsched::ident::{map_uuid, map_uuid_or_empty, new_uuid, uuid_or_new};
use xsched::osc::{
    isize_from_wire, ppq_from_wire, resched_from_wire, resched_to_wire, sched_from_wire,
    sched_to_wire, u8_from_wire, u8_to_wire, usize_from_wire, usize_to_wire, ClipMode, OscWire,
};
use xsched::value::{TickResched, TickSched, ValueTag};

#[test]
fn u8_is_clipped_at_both_ends() {
    assert_eq!(0, u8_from_wire(-5));
    assert_eq!(0, u8_from_wire(0));
    assert_eq!(17, u8_from_wire(17));
    assert_eq!(255, u8_from_wire(255));
    assert_eq!(255, u8_from_wire(300));
    assert_eq!(255, u8_from_wire(i32::MAX));
    assert_eq!(0, u8_from_wire(i32::MIN));
    assert_eq!(200, u8_to_wire(200));
}

#[test]
fn usize_is_clipped_low() {
    assert_eq!(0, usize_from_wire(-1));
    assert_eq!(0, usize_from_wire(i64::MIN));
    assert_eq!(2084, usize_from_wire(2084));
    assert_eq!(2084, usize_to_wire(2084));
    assert_eq!(i64::MAX, usize_to_wire(usize::MAX));
    assert_eq!(-7, isize_from_wire(-7));
    assert_eq!(1, ppq_from_wire(0));
    assert_eq!(1, ppq_from_wire(-3));
    assert_eq!(96, ppq_from_wire(96));
}

#[test]
fn tick_types_travel_as_name_and_count() {
    let last = TickResched::Relative(3);
    assert_eq!(TickResched::Relative(20), resched_from_wire("Relative", 20, last));
    assert_eq!(
        TickResched::ContextRelative(0),
        resched_from_wire("ContextRelative", -4, last)
    );
    assert_eq!(TickResched::Never, resched_from_wire("None", 9, last));
    assert_eq!(last, resched_from_wire("Sometimes", 9, last));
    assert_eq!(("Relative", 20), resched_to_wire(TickResched::Relative(20)));
    assert_eq!(("None", 0), resched_to_wire(TickResched::Never));
    assert_eq!(
        ("ContextRelative", 2),
        resched_to_wire(TickResched::ContextRelative(2))
    );

    let at = TickSched::Absolute(1);
    assert_eq!(TickSched::Absolute(5), sched_from_wire("Absolute", 5, at));
    assert_eq!(
        TickSched::ContextRelative(5),
        sched_from_wire("ContextRelative", 5, at)
    );
    assert_eq!(TickSched::Unset, sched_from_wire("None", 5, at));
    assert_eq!(at, sched_from_wire("Relative", 5, at));
    assert_eq!(("Absolute", 5), sched_to_wire(TickSched::Absolute(5)));
    assert_eq!(("None", 0), sched_to_wire(TickSched::Unset));
}

#[test]
fn wire_types_and_clipping_by_tag() {
    assert_eq!(OscWire::Bool, ValueTag::Bool.wire());
    assert_eq!(OscWire::Int, ValueTag::U8.wire());
    assert_eq!(OscWire::Long, ValueTag::USize.wire());
    assert_eq!(OscWire::Long, ValueTag::ISize.wire());
    assert_eq!(OscWire::Double, ValueTag::Float.wire());
    assert_eq!(OscWire::Triple, ValueTag::ClockData.wire());
    assert_eq!(OscWire::NameAndLong, ValueTag::TickResched.wire());
    assert_eq!(OscWire::NameAndLong, ValueTag::TickSched.wire());
    assert_eq!(ClipMode::Both, ValueTag::U8.clip());
    assert_eq!(ClipMode::Low, ValueTag::USize.clip());
    assert_eq!(ClipMode::Low, ValueTag::ClockData.clip());
    assert_eq!(ClipMode::Neither, ValueTag::Bool.clip());
    assert_eq!(ClipMode::Neither, ValueTag::ISize.clip());
}

#[test]
fn uuid_text_is_hyphenated_lower_case() {
    assert_eq!(
        "936da01f-9abd-4d9d-80c7-02af85c822a8",
        map_uuid(0x936DA01F9ABD4D9D80C702AF85C822A8)
    );
    assert_eq!("00000000-0000-0000-0000-000000000000", map_uuid(0));
    assert_eq!("", map_uuid_or_empty(None));
    assert_eq!(
        "00000000-0000-0000-0000-000000000001",
        map_uuid_or_empty(Some(1))
    );
}

#[test]
fn fresh_uuids_are_random_version_four() {
    let a = new_uuid();
    let b = new_uuid();
    assert_ne!(a, b);
    let mask = 0x0000_0000_0000_F000_C000_0000_0000_0000u128;
    let bits = 0x0000_0000_0000_4000_8000_0000_0000_0000u128;
    assert_eq!(bits, a & mask);
    assert_eq!(bits, b & mask);
    assert_eq!(42, uuid_or_new(Some(42)));
    assert_eq!(bits, uuid_or_new(None) & mask);
}
