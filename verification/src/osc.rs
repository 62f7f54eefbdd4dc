//! How values travel over the control protocol: the wire type of every
//! value type, and how what arrives is brought into the type's range.

use crate::param::str_eq;
use crate::value::{Float, TickResched, TickSched, TypedValue, ValueTag};
use vstd::prelude::*;

verus! {

/// The wire types of the control protocol.
#[derive(Clone, Copy, Debug, PartialEq, Eq, Structural)]
pub enum OscWire {
    Bool,
    /// A 32-bit integer.
    Int,
    /// A 64-bit integer.
    Long,
    /// A double.
    Double,
    /// A double, a 64-bit integer and a double.
    Triple,
    /// A variant's name and a 64-bit integer.
    NameAndLong,
}

/// At which end of its range a value is clipped.
#[derive(Clone, Copy, Debug, PartialEq, Eq, Structural)]
pub enum ClipMode {
    Neither,
    Low,
    Both,
}

impl ValueTag {
    /// The wire type of the value type.
    pub open spec fn wire_spec(self) -> OscWire {
        match self {
            ValueTag::Bool => OscWire::Bool,
            ValueTag::U8 => OscWire::Int,
            ValueTag::USize => OscWire::Long,
            ValueTag::ISize => OscWire::Long,
            ValueTag::Float => OscWire::Double,
            ValueTag::ClockData => OscWire::Triple,
            ValueTag::TickResched => OscWire::NameAndLong,
            ValueTag::TickSched => OscWire::NameAndLong,
        }
    }

    /// How values of the type are clipped.
    pub open spec fn clip_spec(self) -> ClipMode {
        match self {
            ValueTag::U8 => ClipMode::Both,
            ValueTag::USize => ClipMode::Low,
            ValueTag::ClockData => ClipMode::Low,
            _ => ClipMode::Neither,
        }
    }

    pub fn wire(self) -> (w: OscWire)
        ensures
            w == self.wire_spec(),
    {
        match self {
            ValueTag::Bool => OscWire::Bool,
            ValueTag::U8 => OscWire::Int,
            ValueTag::USize => OscWire::Long,
            ValueTag::ISize => OscWire::Long,
            ValueTag::Float => OscWire::Double,
            ValueTag::ClockData => OscWire::Triple,
            ValueTag::TickResched => OscWire::NameAndLong,
            ValueTag::TickSched => OscWire::NameAndLong,
        }
    }

    pub fn clip(self) -> (c: ClipMode)
        ensures
            c == self.clip_spec(),
    {
        match self {
            ValueTag::U8 => ClipMode::Both,
            ValueTag::USize => ClipMode::Low,
            ValueTag::ClockData => ClipMode::Low,
            _ => ClipMode::Neither,
        }
    }
}

/// `v` brought into the range from `lo` to `hi`.
pub open spec fn clamped(v: int, lo: int, hi: int) -> int {
    if v < lo {
        lo
    } else if v > hi {
        hi
    } else {
        v
    }
}

/// Calls `num::clamp` on 32-bit integers. Trusted: the result is the lower
/// bound for an input below it, the upper bound for one above it, and the
/// input otherwise. The crate checks in debug builds that the bounds are
/// in order, so they are asked to be.
#[verifier::external_body]
fn clamp_i32(v: i32, lo: i32, hi: i32) -> (r: i32)
    requires
        lo <= hi,
    ensures
        r == clamped(v as int, lo as int, hi as int),
{
    num::clamp(v, lo, hi)
}

/// The `U8` value for what arrived: clipped at both ends.
pub fn u8_from_wire(v: i32) -> (r: u8)
    ensures
        r == clamped(v as int, 0, 255),
{
    clamp_i32(v, 0, 255) as u8
}

pub fn u8_to_wire(v: u8) -> (r: i32)
    ensures
        r == v,
{
    v as i32
}

/// The `USize` value for what arrived: clipped at zero, and at the top
/// where a count holds less than what arrived.
pub fn usize_from_wire(v: i64) -> (r: usize)
    ensures
        r == clamped(v as int, 0, usize::MAX as int),
{
    if v < 0 {
        0
    } else if v as u64 > usize::MAX as u64 {
        usize::MAX
    } else {
        v as usize
    }
}

/// What is sent for a `USize` value: the value, or the largest number the
/// wire type holds where the value is larger.
pub fn usize_to_wire(v: usize) -> (r: i64)
    ensures
        r == clamped(v as int, 0, i64::MAX as int),
{
    if v as u64 > i64::MAX as u64 {
        i64::MAX
    } else {
        v as i64
    }
}

/// The `ISize` value for what arrived, cut to what the type holds.
pub fn isize_from_wire(v: i64) -> (r: isize)
    ensures
        r == clamped(v as int, isize::MIN as int, isize::MAX as int),
{
    if v < isize::MIN as i64 {
        isize::MIN
    } else if v > isize::MAX as i64 {
        isize::MAX
    } else {
        v as isize
    }
}

pub fn isize_to_wire(v: isize) -> (r: i64)
    ensures
        r == v,
{
    v as i64
}

/// The pulse count for what arrived: at least one.
pub fn ppq_from_wire(v: i64) -> (r: u64)
    ensures
        r == clamped(v as int, 1, i64::MAX as int),
{
    if v < 1 {
        1
    } else {
        v as u64
    }
}

/// The rescheduling named `name` with the count `n`, clipped at zero; the
/// value `last` where the name is none of the three.
pub open spec fn resched_from_wire_spec(name: Seq<char>, n: i64, last: TickResched) -> TickResched {
    let count = clamped(n as int, 0, usize::MAX as int) as usize;
    if name == "Relative"@ {
        TickResched::Relative(count)
    } else if name == "ContextRelative"@ {
        TickResched::ContextRelative(count)
    } else if name == "None"@ {
        TickResched::Never
    } else {
        last
    }
}

pub fn resched_from_wire(name: &str, n: i64, last: TickResched) -> (r: TickResched)
    ensures
        r == resched_from_wire_spec(name@, n, last),
{
    let count = usize_from_wire(n);
    if str_eq(name, "Relative") {
        TickResched::Relative(count)
    } else if str_eq(name, "ContextRelative") {
        TickResched::ContextRelative(count)
    } else if str_eq(name, "None") {
        TickResched::Never
    } else {
        last
    }
}

/// The variant's name that is sent for a rescheduling.
pub open spec fn resched_name_spec(v: TickResched) -> Seq<char> {
    match v {
        TickResched::Never => "None"@,
        TickResched::Relative(_) => "Relative"@,
        TickResched::ContextRelative(_) => "ContextRelative"@,
    }
}

/// What is sent for a rescheduling: the variant's name and its count.
pub fn resched_to_wire(v: TickResched) -> (r: (&'static str, i64))
    ensures
        r.0@ == resched_name_spec(v),
        r.1 == (match v {
            TickResched::Never => 0,
            TickResched::Relative(n) => clamped(n as int, 0, i64::MAX as int),
            TickResched::ContextRelative(n) => clamped(n as int, 0, i64::MAX as int),
        }),
{
    match v {
        TickResched::Never => ("None", 0),
        TickResched::Relative(n) => ("Relative", usize_to_wire(n)),
        TickResched::ContextRelative(n) => ("ContextRelative", usize_to_wire(n)),
    }
}

/// The placement named `name` with the count `n`, clipped at zero; the
/// value `last` where the name is none of the three.
pub open spec fn sched_from_wire_spec(name: Seq<char>, n: i64, last: TickSched) -> TickSched {
    let count = clamped(n as int, 0, usize::MAX as int) as usize;
    if name == "Absolute"@ {
        TickSched::Absolute(count)
    } else if name == "ContextRelative"@ {
        TickSched::ContextRelative(count)
    } else if name == "None"@ {
        TickSched::Unset
    } else {
        last
    }
}

pub fn sched_from_wire(name: &str, n: i64, last: TickSched) -> (r: TickSched)
    ensures
        r == sched_from_wire_spec(name@, n, last),
{
    let count = usize_from_wire(n);
    if str_eq(name, "Absolute") {
        TickSched::Absolute(count)
    } else if str_eq(name, "ContextRelative") {
        TickSched::ContextRelative(count)
    } else if str_eq(name, "None") {
        TickSched::Unset
    } else {
        last
    }
}

/// The variant's name that is sent for a placement.
pub open spec fn sched_name_spec(v: TickSched) -> Seq<char> {
    match v {
        TickSched::Unset => "None"@,
        TickSched::Absolute(_) => "Absolute"@,
        TickSched::ContextRelative(_) => "ContextRelative"@,
    }
}

/// What is sent for a placement: the variant's name and its count.
pub fn sched_to_wire(v: TickSched) -> (r: (&'static str, i64))
    ensures
        r.0@ == sched_name_spec(v),
        r.1 == (match v {
            TickSched::Unset => 0,
            TickSched::Absolute(n) => clamped(n as int, 0, i64::MAX as int),
            TickSched::ContextRelative(n) => clamped(n as int, 0, i64::MAX as int),
        }),
{
    match v {
        TickSched::Unset => ("None", 0),
        TickSched::Absolute(n) => ("Absolute", usize_to_wire(n)),
        TickSched::ContextRelative(n) => ("ContextRelative", usize_to_wire(n)),
    }
}

/// One argument of a message of the control protocol.
pub enum OscType {
    Bool(bool),
    Int(i32),
    Long(i64),
    Double(Float),
    Text(String),
}

/// The count that `n` stands for on the wire.
pub open spec fn count_to_wire(n: usize) -> i64 {
    clamped(n as int, 0, i64::MAX as int) as i64
}

/// Whether `args` is what is sent for `v`: one argument for a simple
/// value, beat rate, pulse count and pulse period for a tempo, the
/// variant's name and its count for the tick types.
pub open spec fn is_wire_of(args: Seq<OscType>, v: TypedValue) -> bool {
    match v {
        TypedValue::Bool(b) => args.len() == 1 && (args[0] matches OscType::Bool(x) && x == b),
        TypedValue::U8(n) => args.len() == 1 && (args[0] matches OscType::Int(x) && x == n),
        TypedValue::USize(n) => args.len() == 1 && (args[0] matches OscType::Long(x) && x
            == count_to_wire(n)),
        TypedValue::ISize(n) => args.len() == 1 && (args[0] matches OscType::Long(x) && x == n),
        TypedValue::Float(f) => args.len() == 1 && (args[0] matches OscType::Double(x) && x == f),
        TypedValue::ClockData(c) => {
            &&& args.len() == 3
            &&& args[0] matches OscType::Double(x) && x == c.bpm
            &&& args[1] matches OscType::Long(x) && x == clamped(c.ppq as int, 0, i64::MAX as int)
            &&& args[2] matches OscType::Double(x) && x == c.period_micros
        },
        TypedValue::TickResched(r) => {
            &&& args.len() == 2
            &&& args[0] matches OscType::Text(t) && t@ == resched_name_spec(r)
            &&& args[1] matches OscType::Long(x) && x == (match r {
                TickResched::Never => 0,
                TickResched::Relative(n) => count_to_wire(n),
                TickResched::ContextRelative(n) => count_to_wire(n),
            })
        },
        TypedValue::TickSched(r) => {
            &&& args.len() == 2
            &&& args[0] matches OscType::Text(t) && t@ == sched_name_spec(r)
            &&& args[1] matches OscType::Long(x) && x == (match r {
                TickSched::Unset => 0,
                TickSched::Absolute(n) => count_to_wire(n),
                TickSched::ContextRelative(n) => count_to_wire(n),
            })
        },
    }
}

/// What is sent for a value.
pub fn to_wire(v: TypedValue) -> (args: Vec<OscType>)
    ensures
        is_wire_of(args@, v),
{
    let mut args: Vec<OscType> = Vec::new();
    match v {
        TypedValue::Bool(b) => args.push(OscType::Bool(b)),
        TypedValue::U8(n) => args.push(OscType::Int(u8_to_wire(n))),
        TypedValue::USize(n) => args.push(OscType::Long(usize_to_wire(n))),
        TypedValue::ISize(n) => args.push(OscType::Long(isize_to_wire(n))),
        TypedValue::Float(f) => args.push(OscType::Double(f)),
        TypedValue::ClockData(c) => {
            args.push(OscType::Double(c.bpm));
            args.push(
                OscType::Long(
                    if c.ppq > i64::MAX as u64 {
                        i64::MAX
                    } else {
                        c.ppq as i64
                    },
                ),
            );
            args.push(OscType::Double(c.period_micros));
        },
        TypedValue::TickResched(r) => {
            let (name, n) = resched_to_wire(r);
            args.push(OscType::Text(name.to_owned()));
            args.push(OscType::Long(n));
        },
        TypedValue::TickSched(r) => {
            let (name, n) = sched_to_wire(r);
            args.push(OscType::Text(name.to_owned()));
            args.push(OscType::Long(n));
        },
    }
    args
}

/// The count that follows the name in what arrived; zero where none does.
pub open spec fn count_arg(args: Seq<OscType>) -> i64 {
    if args.len() >= 2 {
        match args[1] {
            OscType::Long(n) => n,
            _ => 0,
        }
    } else {
        0
    }
}

/// The value to store for what arrived, where `last` is the value that
/// was there: the first argument, brought into range, where it is of the
/// wire type of `last`; for the tick types the named variant with the
/// count that follows. Nothing where the first argument is missing or of
/// another type, and nothing for a tempo, whose fields are set one by one
/// by who can compute with doubles.
pub open spec fn from_wire_spec(args: Seq<OscType>, last: TypedValue) -> Option<TypedValue> {
    if args.len() == 0 {
        None
    } else {
        match (last, args[0]) {
            (TypedValue::Bool(_), OscType::Bool(b)) => Some(TypedValue::Bool(b)),
            (TypedValue::U8(_), OscType::Int(v)) => Some(
                TypedValue::U8(clamped(v as int, 0, 255) as u8),
            ),
            (TypedValue::USize(_), OscType::Long(v)) => Some(
                TypedValue::USize(clamped(v as int, 0, usize::MAX as int) as usize),
            ),
            (TypedValue::ISize(_), OscType::Long(v)) => Some(
                TypedValue::ISize(clamped(v as int, isize::MIN as int, isize::MAX as int) as isize),
            ),
            (TypedValue::Float(_), OscType::Double(f)) => Some(TypedValue::Float(f)),
            (TypedValue::TickResched(r), OscType::Text(name)) => Some(
                TypedValue::TickResched(resched_from_wire_spec(name@, count_arg(args), r)),
            ),
            (TypedValue::TickSched(r), OscType::Text(name)) => Some(
                TypedValue::TickSched(sched_from_wire_spec(name@, count_arg(args), r)),
            ),
            _ => None,
        }
    }
}

fn count_of(args: &Vec<OscType>) -> (n: i64)
    ensures
        n == count_arg(args@),
{
    if args.len() >= 2 {
        match &args[1] {
            OscType::Long(n) => *n,
            _ => 0,
        }
    } else {
        0
    }
}

/// The value to store for what arrived, where `last` is the value that was there.
pub fn from_wire(args: &Vec<OscType>, last: TypedValue) -> (v: Option<TypedValue>)
    ensures
        v == from_wire_spec(args@, last),
        v matches Some(x) ==> x.tag_spec() == last.tag_spec(),
{
    if args.len() == 0 {
        return None;
    }
    match (last, &args[0]) {
        (TypedValue::Bool(_), OscType::Bool(b)) => Some(TypedValue::Bool(*b)),
        (TypedValue::U8(_), OscType::Int(v)) => Some(TypedValue::U8(u8_from_wire(*v))),
        (TypedValue::USize(_), OscType::Long(v)) => Some(TypedValue::USize(usize_from_wire(*v))),
        (TypedValue::ISize(_), OscType::Long(v)) => Some(TypedValue::ISize(isize_from_wire(*v))),
        (TypedValue::Float(_), OscType::Double(f)) => Some(TypedValue::Float(*f)),
        (TypedValue::TickResched(r), OscType::Text(name)) => Some(
            TypedValue::TickResched(resched_from_wire(name.as_str(), count_of(args), r)),
        ),
        (TypedValue::TickSched(r), OscType::Text(name)) => Some(
            TypedValue::TickSched(sched_from_wire(name.as_str(), count_of(args), r)),
        ),
        _ => None,
    }
}

} // verus!
