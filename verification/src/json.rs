//! Reading the arguments of a factory from JSON text.
//!
//! The JSON reader is the `serde_json` crate. What it reads from a text is
//! named here, not described: the functions that call it are trusted to
//! hand back what the names stand for, and the functions that build a value
//! from what was read are verified.

use crate::param::str_eq;
use crate::value::{ClockData, Float, TickResched, TickSched, TypedValue, ValueTag};
use vstd::prelude::*;

verus! {

/// The boolean that `serde_json` reads from a text, if it reads one.
pub uninterp spec fn json_bool_of(text: Seq<char>) -> Option<bool>;

/// The unsigned integer that `serde_json` reads from a text, if it reads one.
pub uninterp spec fn json_u64_of(text: Seq<char>) -> Option<u64>;

/// The signed integer that `serde_json` reads from a text, if it reads one.
pub uninterp spec fn json_i64_of(text: Seq<char>) -> Option<i64>;

/// The bit pattern of the double that `serde_json` reads from a text, if
/// it reads a number.
pub uninterp spec fn json_float_bits_of(text: Seq<char>) -> Option<u64>;

/// The string that `serde_json` reads from a text, if it reads one.
pub uninterp spec fn json_string_of(text: Seq<char>) -> Option<Seq<char>>;

/// The text of the member under `key` of the object that `serde_json`
/// reads from a text, if it reads an object with such a member.
pub uninterp spec fn json_member_of(text: Seq<char>, key: Seq<char>) -> Option<Seq<char>>;

/// Calls `serde_json::from_str` for a `bool`. Trusted: what comes back
/// depends on the text alone; an error is `None`.
#[verifier::external_body]
fn json_bool(text: &str) -> (r: Option<bool>)
    ensures
        r == json_bool_of(text@),
{
    serde_json::from_str::<bool>(text).ok()
}

/// Calls `serde_json::from_str` for a `u64`. Trusted: what comes back
/// depends on the text alone; an error is `None`.
#[verifier::external_body]
fn json_u64(text: &str) -> (r: Option<u64>)
    ensures
        r == json_u64_of(text@),
{
    serde_json::from_str::<u64>(text).ok()
}

/// Calls `serde_json::from_str` for an `i64`. Trusted: what comes back
/// depends on the text alone; an error is `None`.
#[verifier::external_body]
fn json_i64(text: &str) -> (r: Option<i64>)
    ensures
        r == json_i64_of(text@),
{
    serde_json::from_str::<i64>(text).ok()
}

/// Calls `serde_json::from_str` for a `serde_json::Number` and
/// `Number::as_f64` on it, and hands back the double's bit pattern.
/// Trusted: what comes back depends on the text alone; an error is `None`.
#[verifier::external_body]
fn json_float_bits(text: &str) -> (r: Option<u64>)
    ensures
        r == json_float_bits_of(text@),
{
    match serde_json::from_str::<serde_json::Number>(text) {
        Ok(n) => match n.as_f64() {
            Some(x) => Some(x.to_bits()),
            None => None,
        },
        Err(_) => None,
    }
}

/// Calls `serde_json::from_str` for a `String`. Trusted: what comes back
/// depends on the text alone; an error is `None`.
#[verifier::external_body]
fn json_string(text: &str) -> (r: Option<String>)
    ensures
        r matches Some(s) ==> json_string_of(text@) == Some(s@),
        r is None ==> json_string_of(text@) is None,
{
    serde_json::from_str::<String>(text).ok()
}

/// Calls `serde_json::from_str` for a `serde_json::Value`,
/// `Value::get` with `key` on it, and renders the member that was found.
/// Trusted: what comes back depends on the text and the key alone; an
/// error and a missing member are `None`.
#[verifier::external_body]
fn json_member(text: &str, key: &str) -> (r: Option<String>)
    ensures
        r matches Some(s) ==> json_member_of(text@, key@) == Some(s@),
        r is None ==> json_member_of(text@, key@) is None,
{
    match serde_json::from_str::<serde_json::Value>(text) {
        Ok(v) => match v.get(key) {
            Some(m) => Some(m.to_string()),
            None => None,
        },
        Err(_) => None,
    }
}

/// The `U8` value for a number, if it is within range.
pub open spec fn u8_from_spec(n: Option<u64>) -> Option<TypedValue> {
    match n {
        Some(n) => if n <= 255 {
            Some(TypedValue::U8(n as u8))
        } else {
            None
        },
        None => None,
    }
}

pub fn u8_from(n: Option<u64>) -> (v: Option<TypedValue>)
    ensures
        v == u8_from_spec(n),
{
    match n {
        Some(n) => if n <= 255 {
            Some(TypedValue::U8(n as u8))
        } else {
            None
        },
        None => None,
    }
}

/// The `USize` value for a number, if it is within range.
pub open spec fn usize_from_spec(n: Option<u64>) -> Option<TypedValue> {
    match n {
        Some(n) => if n <= usize::MAX {
            Some(TypedValue::USize(n as usize))
        } else {
            None
        },
        None => None,
    }
}

pub fn usize_from(n: Option<u64>) -> (v: Option<TypedValue>)
    ensures
        v == usize_from_spec(n),
{
    match n {
        Some(n) => if n <= usize::MAX as u64 {
            Some(TypedValue::USize(n as usize))
        } else {
            None
        },
        None => None,
    }
}

/// The `ISize` value for a number, if it is within range.
pub open spec fn isize_from_spec(n: Option<i64>) -> Option<TypedValue> {
    match n {
        Some(n) => if isize::MIN <= n <= isize::MAX {
            Some(TypedValue::ISize(n as isize))
        } else {
            None
        },
        None => None,
    }
}

pub fn isize_from(n: Option<i64>) -> (v: Option<TypedValue>)
    ensures
        v == isize_from_spec(n),
{
    match n {
        Some(n) => if isize::MIN as i64 <= n && n <= isize::MAX as i64 {
            Some(TypedValue::ISize(n as isize))
        } else {
            None
        },
        None => None,
    }
}

/// The tempo for a beat rate, a pulse count of at least one and a pulse period.
pub open spec fn clock_from_spec(bpm: Option<u64>, ppq: Option<u64>, period: Option<u64>) -> Option<
    TypedValue,
> {
    match (bpm, ppq, period) {
        (Some(b), Some(q), Some(p)) => if q >= 1 {
            Some(
                TypedValue::ClockData(
                    ClockData { bpm: Float { bits: b }, ppq: q, period_micros: Float { bits: p } },
                ),
            )
        } else {
            None
        },
        _ => None,
    }
}

pub fn clock_from(bpm: Option<u64>, ppq: Option<u64>, period: Option<u64>) -> (v: Option<TypedValue>)
    ensures
        v == clock_from_spec(bpm, ppq, period),
{
    match (bpm, ppq, period) {
        (Some(b), Some(q), Some(p)) => if q >= 1 {
            Some(
                TypedValue::ClockData(
                    ClockData { bpm: Float { bits: b }, ppq: q, period_micros: Float { bits: p } },
                ),
            )
        } else {
            None
        },
        _ => None,
    }
}

/// The count an optional number stands for, if it fits.
pub open spec fn count_spec(n: Option<u64>) -> Option<usize> {
    match n {
        Some(n) => if n <= usize::MAX {
            Some(n as usize)
        } else {
            None
        },
        None => None,
    }
}

fn count(n: Option<u64>) -> (c: Option<usize>)
    ensures
        c == count_spec(n),
{
    match n {
        Some(n) => if n <= usize::MAX as u64 {
            Some(n as usize)
        } else {
            None
        },
        None => None,
    }
}

/// The rescheduling that was written: the text `None`, or else a count
/// under `Relative`, or else one under `ContextRelative`.
pub open spec fn resched_from_spec(
    none: bool,
    relative: Option<u64>,
    context_relative: Option<u64>,
) -> Option<TypedValue> {
    if none {
        Some(TypedValue::TickResched(TickResched::Never))
    } else {
        match count_spec(relative) {
            Some(n) => Some(TypedValue::TickResched(TickResched::Relative(n))),
            None => match count_spec(context_relative) {
                Some(n) => Some(TypedValue::TickResched(TickResched::ContextRelative(n))),
                None => None,
            },
        }
    }
}

pub fn resched_from(none: bool, relative: Option<u64>, context_relative: Option<u64>) -> (v: Option<
    TypedValue,
>)
    ensures
        v == resched_from_spec(none, relative, context_relative),
{
    if none {
        return Some(TypedValue::TickResched(TickResched::Never));
    }
    match count(relative) {
        Some(n) => Some(TypedValue::TickResched(TickResched::Relative(n))),
        None => match count(context_relative) {
            Some(n) => Some(TypedValue::TickResched(TickResched::ContextRelative(n))),
            None => None,
        },
    }
}

/// The placement that was written: the text `None`, or else a count under
/// `Absolute`, or else one under `ContextRelative`.
pub open spec fn sched_from_spec(
    none: bool,
    absolute: Option<u64>,
    context_relative: Option<u64>,
) -> Option<TypedValue> {
    if none {
        Some(TypedValue::TickSched(TickSched::Unset))
    } else {
        match count_spec(absolute) {
            Some(n) => Some(TypedValue::TickSched(TickSched::Absolute(n))),
            None => match count_spec(context_relative) {
                Some(n) => Some(TypedValue::TickSched(TickSched::ContextRelative(n))),
                None => None,
            },
        }
    }
}

pub fn sched_from(none: bool, absolute: Option<u64>, context_relative: Option<u64>) -> (v: Option<
    TypedValue,
>)
    ensures
        v == sched_from_spec(none, absolute, context_relative),
{
    if none {
        return Some(TypedValue::TickSched(TickSched::Unset));
    }
    match count(absolute) {
        Some(n) => Some(TypedValue::TickSched(TickSched::Absolute(n))),
        None => match count(context_relative) {
            Some(n) => Some(TypedValue::TickSched(TickSched::ContextRelative(n))),
            None => None,
        },
    }
}

/// The unsigned integer under `key` of the object that a text holds.
pub open spec fn member_u64_spec(text: Seq<char>, key: Seq<char>) -> Option<u64> {
    match json_member_of(text, key) {
        Some(m) => json_u64_of(m),
        None => None,
    }
}

/// The bit pattern of the double under `key` of the object that a text holds.
pub open spec fn member_float_spec(text: Seq<char>, key: Seq<char>) -> Option<u64> {
    match json_member_of(text, key) {
        Some(m) => json_float_bits_of(m),
        None => None,
    }
}

/// Whether a text holds the string `None`.
pub open spec fn is_none_spec(text: Seq<char>) -> bool {
    json_string_of(text) == Some("None"@)
}

/// The value of the type `tag` that a JSON text stands for: a boolean; an
/// integer within the type's range; any number for `Float`; an object with
/// the members `bpm`, `ppq` and `period_micros` for `ClockData`; the string
/// `None` or an object with one count under the variant's name for the two
/// tick types.
pub open spec fn decode_spec(tag: ValueTag, text: Seq<char>) -> Option<TypedValue> {
    match tag {
        ValueTag::Bool => match json_bool_of(text) {
            Some(b) => Some(TypedValue::Bool(b)),
            None => None,
        },
        ValueTag::U8 => u8_from_spec(json_u64_of(text)),
        ValueTag::USize => usize_from_spec(json_u64_of(text)),
        ValueTag::ISize => isize_from_spec(json_i64_of(text)),
        ValueTag::Float => match json_float_bits_of(text) {
            Some(bits) => Some(TypedValue::Float(Float { bits })),
            None => None,
        },
        ValueTag::ClockData => clock_from_spec(
            member_float_spec(text, "bpm"@),
            member_u64_spec(text, "ppq"@),
            member_float_spec(text, "period_micros"@),
        ),
        ValueTag::TickResched => resched_from_spec(
            is_none_spec(text),
            member_u64_spec(text, "Relative"@),
            member_u64_spec(text, "ContextRelative"@),
        ),
        ValueTag::TickSched => sched_from_spec(
            is_none_spec(text),
            member_u64_spec(text, "Absolute"@),
            member_u64_spec(text, "ContextRelative"@),
        ),
    }
}

fn member_u64(text: &str, key: &str) -> (r: Option<u64>)
    ensures
        r == member_u64_spec(text@, key@),
{
    match json_member(text, key) {
        Some(m) => json_u64(m.as_str()),
        None => None,
    }
}

fn member_float_bits(text: &str, key: &str) -> (r: Option<u64>)
    ensures
        r == member_float_spec(text@, key@),
{
    match json_member(text, key) {
        Some(m) => json_float_bits(m.as_str()),
        None => None,
    }
}

fn is_none(text: &str) -> (b: bool)
    ensures
        b == is_none_spec(text@),
{
    match json_string(text) {
        Some(s) => str_eq(s.as_str(), "None"),
        None => false,
    }
}

/// Reads a value of the type `tag` from JSON text.
pub fn decode_value(tag: ValueTag, args: &str) -> (r: Option<TypedValue>)
    ensures
        r == decode_spec(tag, args@),
        r matches Some(v) ==> v.tag_spec() == tag,
{
    match tag {
        ValueTag::Bool => match json_bool(args) {
            Some(b) => Some(TypedValue::Bool(b)),
            None => None,
        },
        ValueTag::U8 => u8_from(json_u64(args)),
        ValueTag::USize => usize_from(json_u64(args)),
        ValueTag::ISize => isize_from(json_i64(args)),
        ValueTag::Float => match json_float_bits(args) {
            Some(bits) => Some(TypedValue::Float(Float { bits })),
            None => None,
        },
        ValueTag::ClockData => clock_from(
            member_float_bits(args, "bpm"),
            member_u64(args, "ppq"),
            member_float_bits(args, "period_micros"),
        ),
        ValueTag::TickResched => resched_from(
            is_none(args),
            member_u64(args, "Relative"),
            member_u64(args, "ContextRelative"),
        ),
        ValueTag::TickSched => sched_from(
            is_none(args),
            member_u64(args, "Absolute"),
            member_u64(args, "ContextRelative"),
        ),
    }
}

} // verus!
