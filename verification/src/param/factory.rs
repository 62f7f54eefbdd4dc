//! The factory of parameters: a constant and a mutable value of every type.

use crate::error::CreateError;
use crate::json::{decode_spec, decode_value};
use crate::param::{str_eq, ParamHashMap, Slot};
use crate::store::{Binding, Param, ParamDataAccess};
use crate::value::{TypedValue, ValueTag};
use vstd::prelude::*;

verus! {

/// The two ways in which the factory makes a value.
#[derive(Clone, Copy, Debug, PartialEq, Eq, Structural)]
pub enum FactoryKind {
    /// A value that cannot be changed.
    Constant,
    /// A value that can be read and written.
    Mutable,
}

/// One entry of the factory.
#[derive(Clone, Copy, Debug, PartialEq, Eq, Structural)]
pub struct ParamFactItem {
    pub kind: FactoryKind,
    pub tag: ValueTag,
}

/// What a factory entry hands out: the data, its shadow and the slots.
pub type ParamDataResult = Result<(ParamDataAccess, Option<ParamDataAccess>, ParamHashMap), CreateError>;

/// The name of an entry.
pub open spec fn key_spec(kind: FactoryKind, tag: ValueTag) -> Seq<char> {
    match (kind, tag) {
            (FactoryKind::Constant, ValueTag::Bool) => "const::<bool>"@,
            (FactoryKind::Constant, ValueTag::U8) => "const::<u8>"@,
            (FactoryKind::Constant, ValueTag::USize) => "const::<usize>"@,
            (FactoryKind::Constant, ValueTag::ISize) => "const::<isize>"@,
            (FactoryKind::Constant, ValueTag::Float) => "const::<Float>"@,
            (FactoryKind::Constant, ValueTag::ClockData) => "const::<ClockData>"@,
            (FactoryKind::Constant, ValueTag::TickResched) => "const::<TickResched>"@,
            (FactoryKind::Constant, ValueTag::TickSched) => "const::<TickSched>"@,
            (FactoryKind::Mutable, ValueTag::Bool) => "val::<bool>"@,
            (FactoryKind::Mutable, ValueTag::U8) => "val::<u8>"@,
            (FactoryKind::Mutable, ValueTag::USize) => "val::<usize>"@,
            (FactoryKind::Mutable, ValueTag::ISize) => "val::<isize>"@,
            (FactoryKind::Mutable, ValueTag::Float) => "val::<Float>"@,
            (FactoryKind::Mutable, ValueTag::ClockData) => "val::<ClockData>"@,
            (FactoryKind::Mutable, ValueTag::TickResched) => "val::<TickResched>"@,
            (FactoryKind::Mutable, ValueTag::TickSched) => "val::<TickSched>"@,
    }
}

/// The entry known under `name`, if there is one.
pub open spec fn param_entry(name: Seq<char>) -> Option<(FactoryKind, ValueTag)> {
    if name == key_spec(FactoryKind::Constant, ValueTag::Bool) {
        Some((FactoryKind::Constant, ValueTag::Bool))
    } else if name == key_spec(FactoryKind::Constant, ValueTag::U8) {
        Some((FactoryKind::Constant, ValueTag::U8))
    } else if name == key_spec(FactoryKind::Constant, ValueTag::USize) {
        Some((FactoryKind::Constant, ValueTag::USize))
    } else if name == key_spec(FactoryKind::Constant, ValueTag::ISize) {
        Some((FactoryKind::Constant, ValueTag::ISize))
    } else if name == key_spec(FactoryKind::Constant, ValueTag::Float) {
        Some((FactoryKind::Constant, ValueTag::Float))
    } else if name == key_spec(FactoryKind::Constant, ValueTag::ClockData) {
        Some((FactoryKind::Constant, ValueTag::ClockData))
    } else if name == key_spec(FactoryKind::Constant, ValueTag::TickResched) {
        Some((FactoryKind::Constant, ValueTag::TickResched))
    } else if name == key_spec(FactoryKind::Constant, ValueTag::TickSched) {
        Some((FactoryKind::Constant, ValueTag::TickSched))
    } else if name == key_spec(FactoryKind::Mutable, ValueTag::Bool) {
        Some((FactoryKind::Mutable, ValueTag::Bool))
    } else if name == key_spec(FactoryKind::Mutable, ValueTag::U8) {
        Some((FactoryKind::Mutable, ValueTag::U8))
    } else if name == key_spec(FactoryKind::Mutable, ValueTag::USize) {
        Some((FactoryKind::Mutable, ValueTag::USize))
    } else if name == key_spec(FactoryKind::Mutable, ValueTag::ISize) {
        Some((FactoryKind::Mutable, ValueTag::ISize))
    } else if name == key_spec(FactoryKind::Mutable, ValueTag::Float) {
        Some((FactoryKind::Mutable, ValueTag::Float))
    } else if name == key_spec(FactoryKind::Mutable, ValueTag::ClockData) {
        Some((FactoryKind::Mutable, ValueTag::ClockData))
    } else if name == key_spec(FactoryKind::Mutable, ValueTag::TickResched) {
        Some((FactoryKind::Mutable, ValueTag::TickResched))
    } else if name == key_spec(FactoryKind::Mutable, ValueTag::TickSched) {
        Some((FactoryKind::Mutable, ValueTag::TickSched))
    } else {
        None
    }
}

/// What an entry says of itself.
pub open spec fn description_spec(kind: FactoryKind, tag: ValueTag) -> Seq<char> {
    match (kind, tag) {
        (FactoryKind::Constant, ValueTag::Bool) => "Constant bool value"@,
        (FactoryKind::Constant, ValueTag::U8) => "Constant u8 value"@,
        (FactoryKind::Constant, ValueTag::USize) => "Constant usize value"@,
        (FactoryKind::Constant, ValueTag::ISize) => "Constant isize value"@,
        (FactoryKind::Constant, ValueTag::Float) => "Constant Float value"@,
        (FactoryKind::Constant, ValueTag::ClockData) => "Constant ClockData value"@,
        (FactoryKind::Constant, ValueTag::TickResched) => "Constant TickResched value"@,
        (FactoryKind::Constant, ValueTag::TickSched) => "Constant TickSched value"@,
        (FactoryKind::Mutable, ValueTag::Bool) => "Mutable bool value"@,
        (FactoryKind::Mutable, ValueTag::U8) => "Mutable u8 value"@,
        (FactoryKind::Mutable, ValueTag::USize) => "Mutable usize value"@,
        (FactoryKind::Mutable, ValueTag::ISize) => "Mutable isize value"@,
        (FactoryKind::Mutable, ValueTag::Float) => "Mutable Float value"@,
        (FactoryKind::Mutable, ValueTag::ClockData) => "Mutable ClockData value"@,
        (FactoryKind::Mutable, ValueTag::TickResched) => "Mutable TickResched value"@,
        (FactoryKind::Mutable, ValueTag::TickSched) => "Mutable TickSched value"@,
    }
}

/// Arguments from which an entry of the type makes the type's default.
pub open spec fn example_spec(tag: ValueTag) -> Seq<char> {
    match tag {
        ValueTag::Bool => "false"@,
        ValueTag::U8 => "0"@,
        ValueTag::USize => "0"@,
        ValueTag::ISize => "0"@,
        ValueTag::Float => "0.0"@,
        ValueTag::ClockData => "{\"bpm\":120.0,\"period_micros\":5208.333333333333,\"ppq\":96}"@,
        ValueTag::TickResched => "\"None\""@,
        ValueTag::TickSched => "\"None\""@,
    }
}

/// The type of the entries at place `i` of the constants and of the mutable values.
pub open spec fn tag_at(i: int) -> ValueTag {
    if i == 0 {
        ValueTag::Bool
    } else if i == 1 {
        ValueTag::U8
    } else if i == 2 {
        ValueTag::USize
    } else if i == 3 {
        ValueTag::ISize
    } else if i == 4 {
        ValueTag::Float
    } else if i == 5 {
        ValueTag::ClockData
    } else if i == 6 {
        ValueTag::TickResched
    } else {
        ValueTag::TickSched
    }
}

/// The entry at place `i` of the factory: the eight constants, then the
/// eight mutable values.
pub open spec fn entry_at(i: int) -> ParamFactItem {
    if i < 8 {
        ParamFactItem { kind: FactoryKind::Constant, tag: tag_at(i) }
    } else {
        ParamFactItem { kind: FactoryKind::Mutable, tag: tag_at(i - 8) }
    }
}

/// The data of a parameter that `kind` makes from `v`.
pub open spec fn data_for(kind: FactoryKind, v: TypedValue) -> ParamDataAccess {
    match kind {
        FactoryKind::Constant => ParamDataAccess::Get(Binding::Constant(v)),
        FactoryKind::Mutable => ParamDataAccess::GetSet(Binding::Cell(v)),
    }
}

/// Whether `p` is what the entry `(kind, tag)` makes from `v` under `uuid`.
pub open spec fn made_from(p: Param, kind: FactoryKind, tag: ValueTag, v: TypedValue, uuid: u128) -> bool {
    &&& p.wf()
    &&& p.uuid == uuid
    &&& p.type_label@ == key_spec(kind, tag)
    &&& p.data == data_for(kind, v)
    &&& p.shadow == Some(data_for(kind, v))
    &&& p.params@ == Seq::<Slot>::empty()
}

impl ParamFactItem {
    pub fn new(kind: FactoryKind, tag: ValueTag) -> (item: Self)
        ensures
            item == (ParamFactItem { kind, tag }),
    {
        ParamFactItem { kind, tag }
    }

    /// The name under which the entry is known.
    pub fn key(&self) -> (s: &'static str)
        ensures
            s@ == key_spec(self.kind, self.tag),
    {
        match (self.kind, self.tag) {
            (FactoryKind::Constant, ValueTag::Bool) => "const::<bool>",
            (FactoryKind::Constant, ValueTag::U8) => "const::<u8>",
            (FactoryKind::Constant, ValueTag::USize) => "const::<usize>",
            (FactoryKind::Constant, ValueTag::ISize) => "const::<isize>",
            (FactoryKind::Constant, ValueTag::Float) => "const::<Float>",
            (FactoryKind::Constant, ValueTag::ClockData) => "const::<ClockData>",
            (FactoryKind::Constant, ValueTag::TickResched) => "const::<TickResched>",
            (FactoryKind::Constant, ValueTag::TickSched) => "const::<TickSched>",
            (FactoryKind::Mutable, ValueTag::Bool) => "val::<bool>",
            (FactoryKind::Mutable, ValueTag::U8) => "val::<u8>",
            (FactoryKind::Mutable, ValueTag::USize) => "val::<usize>",
            (FactoryKind::Mutable, ValueTag::ISize) => "val::<isize>",
            (FactoryKind::Mutable, ValueTag::Float) => "val::<Float>",
            (FactoryKind::Mutable, ValueTag::ClockData) => "val::<ClockData>",
            (FactoryKind::Mutable, ValueTag::TickResched) => "val::<TickResched>",
            (FactoryKind::Mutable, ValueTag::TickSched) => "val::<TickSched>",
        }
    }

    /// Get the description.
    pub fn description(&self) -> (s: &'static str)
        ensures
            s@ == description_spec(self.kind, self.tag),
    {
        match (self.kind, self.tag) {
            (FactoryKind::Constant, ValueTag::Bool) => "Constant bool value",
            (FactoryKind::Constant, ValueTag::U8) => "Constant u8 value",
            (FactoryKind::Constant, ValueTag::USize) => "Constant usize value",
            (FactoryKind::Constant, ValueTag::ISize) => "Constant isize value",
            (FactoryKind::Constant, ValueTag::Float) => "Constant Float value",
            (FactoryKind::Constant, ValueTag::ClockData) => "Constant ClockData value",
            (FactoryKind::Constant, ValueTag::TickResched) => "Constant TickResched value",
            (FactoryKind::Constant, ValueTag::TickSched) => "Constant TickSched value",
            (FactoryKind::Mutable, ValueTag::Bool) => "Mutable bool value",
            (FactoryKind::Mutable, ValueTag::U8) => "Mutable u8 value",
            (FactoryKind::Mutable, ValueTag::USize) => "Mutable usize value",
            (FactoryKind::Mutable, ValueTag::ISize) => "Mutable isize value",
            (FactoryKind::Mutable, ValueTag::Float) => "Mutable Float value",
            (FactoryKind::Mutable, ValueTag::ClockData) => "Mutable ClockData value",
            (FactoryKind::Mutable, ValueTag::TickResched) => "Mutable TickResched value",
            (FactoryKind::Mutable, ValueTag::TickSched) => "Mutable TickSched value",
        }
    }

    /// Get the argument example.
    pub fn example_args(&self) -> (s: Option<&'static str>)
        ensures
            s.is_some(),
            s.unwrap()@ == example_spec(self.tag),
    {
        Some(
            match self.tag {
                ValueTag::Bool => "false",
                ValueTag::U8 => "0",
                ValueTag::USize => "0",
                ValueTag::ISize => "0",
                ValueTag::Float => "0.0",
                ValueTag::ClockData => "{\"bpm\":120.0,\"period_micros\":5208.333333333333,\"ppq\":96}",
                ValueTag::TickResched => "\"None\"",
                ValueTag::TickSched => "\"None\"",
            },
        )
    }

    /// What the entry makes from a value: nothing from none, and nothing
    /// from one of another type.
    pub fn create_from(&self, value: Option<TypedValue>) -> (r: ParamDataResult)
        ensures
            match value {
                Some(v) if v.tag_spec() == self.tag => {
                    &&& r matches Ok(made)
                    &&& made.0 == data_for(self.kind, v)
                    &&& made.1 == Some(data_for(self.kind, v))
                    &&& made.2@ == Seq::<Slot>::empty()
                    &&& made.2.wf()
                },
                _ => r matches Err(e) && e == CreateError::InvalidArgs,
            },
    {
        match value {
            Some(v) => {
                if v.tag() == self.tag {
                    let data = match self.kind {
                        FactoryKind::Constant => ParamDataAccess::Get(Binding::Constant(v)),
                        FactoryKind::Mutable => ParamDataAccess::GetSet(Binding::Cell(v)),
                    };
                    Ok((data, Some(data), ParamHashMap::new()))
                } else {
                    Err(CreateError::InvalidArgs)
                }
            },
            None => Err(CreateError::InvalidArgs),
        }
    }

    /// What the entry makes from JSON arguments: what it makes from the
    /// value that the arguments stand for.
    pub fn create(&self, args: &str) -> (r: ParamDataResult)
        ensures
            match decode_spec(self.tag, args@) {
                Some(v) => {
                    &&& r matches Ok(made)
                    &&& made.0 == data_for(self.kind, v)
                    &&& made.1 == Some(data_for(self.kind, v))
                    &&& made.2@ == Seq::<Slot>::empty()
                    &&& made.2.wf()
                },
                None => r matches Err(e) && e == CreateError::InvalidArgs,
            },
    {
        self.create_from(decode_value(self.tag, args))
    }
}

/// The entry known under `name`.
pub fn lookup(name: &str) -> (r: Option<ParamFactItem>)
    ensures
        match param_entry(name@) {
            Some((kind, tag)) => r == Some(ParamFactItem { kind, tag }),
            None => r.is_none(),
        },
{
    if str_eq(name, "const::<bool>") {
        Some(ParamFactItem { kind: FactoryKind::Constant, tag: ValueTag::Bool })
    } else if str_eq(name, "const::<u8>") {
        Some(ParamFactItem { kind: FactoryKind::Constant, tag: ValueTag::U8 })
    } else if str_eq(name, "const::<usize>") {
        Some(ParamFactItem { kind: FactoryKind::Constant, tag: ValueTag::USize })
    } else if str_eq(name, "const::<isize>") {
        Some(ParamFactItem { kind: FactoryKind::Constant, tag: ValueTag::ISize })
    } else if str_eq(name, "const::<Float>") {
        Some(ParamFactItem { kind: FactoryKind::Constant, tag: ValueTag::Float })
    } else if str_eq(name, "const::<ClockData>") {
        Some(ParamFactItem { kind: FactoryKind::Constant, tag: ValueTag::ClockData })
    } else if str_eq(name, "const::<TickResched>") {
        Some(ParamFactItem { kind: FactoryKind::Constant, tag: ValueTag::TickResched })
    } else if str_eq(name, "const::<TickSched>") {
        Some(ParamFactItem { kind: FactoryKind::Constant, tag: ValueTag::TickSched })
    } else if str_eq(name, "val::<bool>") {
        Some(ParamFactItem { kind: FactoryKind::Mutable, tag: ValueTag::Bool })
    } else if str_eq(name, "val::<u8>") {
        Some(ParamFactItem { kind: FactoryKind::Mutable, tag: ValueTag::U8 })
    } else if str_eq(name, "val::<usize>") {
        Some(ParamFactItem { kind: FactoryKind::Mutable, tag: ValueTag::USize })
    } else if str_eq(name, "val::<isize>") {
        Some(ParamFactItem { kind: FactoryKind::Mutable, tag: ValueTag::ISize })
    } else if str_eq(name, "val::<Float>") {
        Some(ParamFactItem { kind: FactoryKind::Mutable, tag: ValueTag::Float })
    } else if str_eq(name, "val::<ClockData>") {
        Some(ParamFactItem { kind: FactoryKind::Mutable, tag: ValueTag::ClockData })
    } else if str_eq(name, "val::<TickResched>") {
        Some(ParamFactItem { kind: FactoryKind::Mutable, tag: ValueTag::TickResched })
    } else if str_eq(name, "val::<TickSched>") {
        Some(ParamFactItem { kind: FactoryKind::Mutable, tag: ValueTag::TickSched })
    } else {
        None
    }
}

/// Makes the parameter known under `type_label` from a value, with the
/// identifier `uuid`.
pub fn param_from_value(uuid: u128, type_label: &str, value: Option<TypedValue>) -> (r: Result<
    Param,
    CreateError,
>)
    ensures
        match param_entry(type_label@) {
            None => r matches Err(e) && e == CreateError::TypeNotFound,
            Some((kind, tag)) => match value {
                Some(v) if v.tag_spec() == tag => r matches Ok(p) && made_from(p, kind, tag, v, uuid),
                _ => r matches Err(e) && e == CreateError::InvalidArgs,
            },
        },
{
    match lookup(type_label) {
        None => Err(CreateError::TypeNotFound),
        Some(item) => match item.create_from(value) {
            Ok((access, shadow, map)) => Ok(
                Param::new_with_id(item.key(), access, map, shadow, uuid),
            ),
            Err(e) => Err(e),
        },
    }
}

/// Makes the parameter known under `type_label` from JSON arguments, with
/// the identifier `uuid`: an unknown name is refused, and so are arguments
/// that do not stand for a value of the entry's type.
pub fn create_param(uuid: u128, type_label: &str, args: &str) -> (r: Result<Param, CreateError>)
    ensures
        match param_entry(type_label@) {
            None => r matches Err(e) && e == CreateError::TypeNotFound,
            Some((kind, tag)) => match decode_spec(tag, args@) {
                Some(v) => r matches Ok(p) && made_from(p, kind, tag, v, uuid),
                None => r matches Err(e) && e == CreateError::InvalidArgs,
            },
        },
{
    match lookup(type_label) {
        None => Err(CreateError::TypeNotFound),
        Some(item) => param_from_value(uuid, type_label, decode_value(item.tag, args)),
    }
}

/// Every entry of the factory, for display.
pub fn help() -> (entries: Vec<ParamFactItem>)
    ensures
        entries@.len() == 16,
        forall|i: int| 0 <= i < 16 ==> #[trigger] entries@[i] == entry_at(i),
{
    let mut entries: Vec<ParamFactItem> = Vec::new();
    entries.push(ParamFactItem { kind: FactoryKind::Constant, tag: ValueTag::Bool });
    entries.push(ParamFactItem { kind: FactoryKind::Constant, tag: ValueTag::U8 });
    entries.push(ParamFactItem { kind: FactoryKind::Constant, tag: ValueTag::USize });
    entries.push(ParamFactItem { kind: FactoryKind::Constant, tag: ValueTag::ISize });
    entries.push(ParamFactItem { kind: FactoryKind::Constant, tag: ValueTag::Float });
    entries.push(ParamFactItem { kind: FactoryKind::Constant, tag: ValueTag::ClockData });
    entries.push(ParamFactItem { kind: FactoryKind::Constant, tag: ValueTag::TickResched });
    entries.push(ParamFactItem { kind: FactoryKind::Constant, tag: ValueTag::TickSched });
    entries.push(ParamFactItem { kind: FactoryKind::Mutable, tag: ValueTag::Bool });
    entries.push(ParamFactItem { kind: FactoryKind::Mutable, tag: ValueTag::U8 });
    entries.push(ParamFactItem { kind: FactoryKind::Mutable, tag: ValueTag::USize });
    entries.push(ParamFactItem { kind: FactoryKind::Mutable, tag: ValueTag::ISize });
    entries.push(ParamFactItem { kind: FactoryKind::Mutable, tag: ValueTag::Float });
    entries.push(ParamFactItem { kind: FactoryKind::Mutable, tag: ValueTag::ClockData });
    entries.push(ParamFactItem { kind: FactoryKind::Mutable, tag: ValueTag::TickResched });
    entries.push(ParamFactItem { kind: FactoryKind::Mutable, tag: ValueTag::TickSched });
    entries
}

} // verus!
