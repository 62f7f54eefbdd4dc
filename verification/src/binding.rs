//! Typed access to parameters: reading and writing values of one Rust type
//! through a store that holds values of every type.

use crate::param::ParamRef;
use crate::store::{can_store, set_spec, ParamStore};
use crate::value::{ClockData, Float, TickResched, TickSched, TypedValue, ValueTag};
use vstd::prelude::*;

verus! {

/// A type whose values can be bound: one for every tag.
pub trait ParamValue: Sized + Copy {
    /// The tag of the type.
    spec fn tag_spec() -> ValueTag;

    /// The value as one of any type.
    spec fn into_spec(self) -> TypedValue;

    /// The value of this type that `v` holds, if it holds one.
    spec fn from_spec(v: TypedValue) -> Option<Self>;

    fn tag() -> (t: ValueTag)
        ensures
            t == Self::tag_spec(),
    ;

    fn into_value(self) -> (v: TypedValue)
        ensures
            v == self.into_spec(),
            v.tag_spec() == Self::tag_spec(),
            Self::from_spec(v) == Some(self),
    ;

    fn from_value(v: TypedValue) -> (r: Option<Self>)
        ensures
            r == Self::from_spec(v),
            r.is_some() == (v.tag_spec() == Self::tag_spec()),
            r matches Some(x) ==> x.into_spec() == v,
    ;
}

impl ParamValue for bool {
    open spec fn tag_spec() -> ValueTag {
        ValueTag::Bool
    }

    open spec fn into_spec(self) -> TypedValue {
        TypedValue::Bool(self)
    }

    open spec fn from_spec(v: TypedValue) -> Option<Self> {
        match v {
            TypedValue::Bool(x) => Some(x),
            _ => None,
        }
    }

    fn tag() -> (t: ValueTag) {
        ValueTag::Bool
    }

    fn into_value(self) -> (v: TypedValue) {
        TypedValue::Bool(self)
    }

    fn from_value(v: TypedValue) -> (r: Option<Self>) {
        match v {
            TypedValue::Bool(x) => Some(x),
            _ => None,
        }
    }
}

impl ParamValue for u8 {
    open spec fn tag_spec() -> ValueTag {
        ValueTag::U8
    }

    open spec fn into_spec(self) -> TypedValue {
        TypedValue::U8(self)
    }

    open spec fn from_spec(v: TypedValue) -> Option<Self> {
        match v {
            TypedValue::U8(x) => Some(x),
            _ => None,
        }
    }

    fn tag() -> (t: ValueTag) {
        ValueTag::U8
    }

    fn into_value(self) -> (v: TypedValue) {
        TypedValue::U8(self)
    }

    fn from_value(v: TypedValue) -> (r: Option<Self>) {
        match v {
            TypedValue::U8(x) => Some(x),
            _ => None,
        }
    }
}

impl ParamValue for usize {
    open spec fn tag_spec() -> ValueTag {
        ValueTag::USize
    }

    open spec fn into_spec(self) -> TypedValue {
        TypedValue::USize(self)
    }

    open spec fn from_spec(v: TypedValue) -> Option<Self> {
        match v {
            TypedValue::USize(x) => Some(x),
            _ => None,
        }
    }

    fn tag() -> (t: ValueTag) {
        ValueTag::USize
    }

    fn into_value(self) -> (v: TypedValue) {
        TypedValue::USize(self)
    }

    fn from_value(v: TypedValue) -> (r: Option<Self>) {
        match v {
            TypedValue::USize(x) => Some(x),
            _ => None,
        }
    }
}

impl ParamValue for isize {
    open spec fn tag_spec() -> ValueTag {
        ValueTag::ISize
    }

    open spec fn into_spec(self) -> TypedValue {
        TypedValue::ISize(self)
    }

    open spec fn from_spec(v: TypedValue) -> Option<Self> {
        match v {
            TypedValue::ISize(x) => Some(x),
            _ => None,
        }
    }

    fn tag() -> (t: ValueTag) {
        ValueTag::ISize
    }

    fn into_value(self) -> (v: TypedValue) {
        TypedValue::ISize(self)
    }

    fn from_value(v: TypedValue) -> (r: Option<Self>) {
        match v {
            TypedValue::ISize(x) => Some(x),
            _ => None,
        }
    }
}

impl ParamValue for Float {
    open spec fn tag_spec() -> ValueTag {
        ValueTag::Float
    }

    open spec fn into_spec(self) -> TypedValue {
        TypedValue::Float(self)
    }

    open spec fn from_spec(v: TypedValue) -> Option<Self> {
        match v {
            TypedValue::Float(x) => Some(x),
            _ => None,
        }
    }

    fn tag() -> (t: ValueTag) {
        ValueTag::Float
    }

    fn into_value(self) -> (v: TypedValue) {
        TypedValue::Float(self)
    }

    fn from_value(v: TypedValue) -> (r: Option<Self>) {
        match v {
            TypedValue::Float(x) => Some(x),
            _ => None,
        }
    }
}

impl ParamValue for ClockData {
    open spec fn tag_spec() -> ValueTag {
        ValueTag::ClockData
    }

    open spec fn into_spec(self) -> TypedValue {
        TypedValue::ClockData(self)
    }

    open spec fn from_spec(v: TypedValue) -> Option<Self> {
        match v {
            TypedValue::ClockData(x) => Some(x),
            _ => None,
        }
    }

    fn tag() -> (t: ValueTag) {
        ValueTag::ClockData
    }

    fn into_value(self) -> (v: TypedValue) {
        TypedValue::ClockData(self)
    }

    fn from_value(v: TypedValue) -> (r: Option<Self>) {
        match v {
            TypedValue::ClockData(x) => Some(x),
            _ => None,
        }
    }
}

impl ParamValue for TickResched {
    open spec fn tag_spec() -> ValueTag {
        ValueTag::TickResched
    }

    open spec fn into_spec(self) -> TypedValue {
        TypedValue::TickResched(self)
    }

    open spec fn from_spec(v: TypedValue) -> Option<Self> {
        match v {
            TypedValue::TickResched(x) => Some(x),
            _ => None,
        }
    }

    fn tag() -> (t: ValueTag) {
        ValueTag::TickResched
    }

    fn into_value(self) -> (v: TypedValue) {
        TypedValue::TickResched(self)
    }

    fn from_value(v: TypedValue) -> (r: Option<Self>) {
        match v {
            TypedValue::TickResched(x) => Some(x),
            _ => None,
        }
    }
}

impl ParamValue for TickSched {
    open spec fn tag_spec() -> ValueTag {
        ValueTag::TickSched
    }

    open spec fn into_spec(self) -> TypedValue {
        TypedValue::TickSched(self)
    }

    open spec fn from_spec(v: TypedValue) -> Option<Self> {
        match v {
            TypedValue::TickSched(x) => Some(x),
            _ => None,
        }
    }

    fn tag() -> (t: ValueTag) {
        ValueTag::TickSched
    }

    fn into_value(self) -> (v: TypedValue) {
        TypedValue::TickSched(self)
    }

    fn from_value(v: TypedValue) -> (r: Option<Self>) {
        match v {
            TypedValue::TickSched(x) => Some(x),
            _ => None,
        }
    }
}

/// A reader of values of one type, bound to a parameter of a store.
#[derive(Clone, Copy, Debug, PartialEq, Eq, Structural)]
pub struct ParamBindingGet {
    pub handle: usize,
    pub tag: ValueTag,
}

/// A writer of values of one type, bound to a parameter of a store.
#[derive(Clone, Copy, Debug, PartialEq, Eq, Structural)]
pub struct ParamBindingSet {
    pub handle: usize,
    pub tag: ValueTag,
}

/// The value of type `T` that a read yields, if the read yields one.
pub open spec fn typed<T: ParamValue>(v: Option<TypedValue>) -> Option<T> {
    match v {
        Some(v) => T::from_spec(v),
        None => None,
    }
}

impl ParamBindingGet {
    /// Reads the parameter. `None` where the parameter is not in `store`,
    /// cannot be read, or does not hold a `T`.
    pub fn get<T: ParamValue>(&self, store: &ParamStore) -> (r: Option<T>)
        requires
            store.wf(),
        ensures
            r == typed::<T>(store@.get_spec(self.handle as int)),
    {
        match store.get(self.handle) {
            Some(v) => T::from_value(v),
            None => None,
        }
    }
}

impl ParamBindingSet {
    /// Writes `v` to the parameter. Says whether it was stored.
    pub fn set<T: ParamValue>(&self, store: &mut ParamStore, v: T) -> (stored: bool)
        requires
            old(store).wf(),
        ensures
            final(store).wf(),
            final(store)@.params == old(store)@.params,
            final(store)@.values == set_spec(
                old(store)@.params,
                old(store)@.values,
                self.handle as int,
                v.into_spec(),
            ),
            stored == (self.handle < old(store)@.params.len() && can_store(
                old(store)@.params[self.handle as int],
                v.into_spec(),
            )),
    {
        store.set(self.handle, v.into_value())
    }
}

/// A reader that remembers the value it read last, so that the value can
/// be shown without reading again.
#[derive(Clone, Copy, Debug, PartialEq, Eq, Structural)]
pub struct BindingLastGet {
    pub inner: ParamBindingGet,
    pub last: Option<TypedValue>,
}

impl BindingLastGet {
    /// A reader that has read nothing yet.
    pub fn new(inner: ParamBindingGet) -> (b: Self)
        ensures
            b.inner == inner,
            b.last is None,
    {
        BindingLastGet { inner, last: None }
    }

    /// A reader that starts with what `inner` reads now.
    pub fn new_init(inner: ParamBindingGet, store: &ParamStore) -> (b: Self)
        requires
            store.wf(),
        ensures
            b.inner == inner,
            b.last == store@.get_spec(inner.handle as int),
    {
        BindingLastGet { inner, last: store.get(inner.handle) }
    }

    /// Reads the parameter and remembers what was read. A read that yields
    /// nothing leaves what was remembered.
    pub fn get(&mut self, store: &ParamStore) -> (v: Option<TypedValue>)
        requires
            store.wf(),
        ensures
            v == store@.get_spec(old(self).inner.handle as int),
            final(self).inner == old(self).inner,
            final(self).last == (if v.is_some() {
                v
            } else {
                old(self).last
            }),
    {
        let v = store.get(self.inner.handle);
        if v.is_some() {
            self.last = v;
        }
        v
    }

    /// What was read last.
    pub fn last(&self) -> (v: Option<TypedValue>)
        ensures
            v == self.last,
    {
        self.last
    }
}

/// A view of a parameter as a source of values of type `T`.
pub trait AsParamGet<T> {
    spec fn as_get_spec(&self) -> Option<ParamBindingGet>;

    fn as_get(&self) -> (r: Option<ParamBindingGet>)
        ensures
            r == self.as_get_spec(),
    ;
}

/// A view of a parameter as a sink of values of type `T`.
pub trait AsParamSet<T> {
    spec fn as_set_spec(&self) -> Option<ParamBindingSet>;

    fn as_set(&self) -> (r: Option<ParamBindingSet>)
        ensures
            r == self.as_set_spec(),
    ;
}

impl<T: ParamValue> AsParamGet<T> for ParamRef {
    /// A reader, where the parameter holds a `T` and can be read.
    open spec fn as_get_spec(&self) -> Option<ParamBindingGet> {
        if self.tag == T::tag_spec() && self.kind.can_get() {
            Some(ParamBindingGet { handle: self.handle, tag: self.tag })
        } else {
            None
        }
    }

    fn as_get(&self) -> (r: Option<ParamBindingGet>) {
        let readable = match self.kind {
            crate::value::AccessKind::SetOnly => false,
            _ => true,
        };
        if self.tag == T::tag() && readable {
            Some(ParamBindingGet { handle: self.handle, tag: self.tag })
        } else {
            None
        }
    }
}

impl<T: ParamValue> AsParamSet<T> for ParamRef {
    /// A writer, where the parameter holds a `T` and can be written.
    open spec fn as_set_spec(&self) -> Option<ParamBindingSet> {
        if self.tag == T::tag_spec() && self.kind.can_set() {
            Some(ParamBindingSet { handle: self.handle, tag: self.tag })
        } else {
            None
        }
    }

    fn as_set(&self) -> (r: Option<ParamBindingSet>) {
        let writable = match self.kind {
            crate::value::AccessKind::GetOnly => false,
            _ => true,
        };
        if self.tag == T::tag() && writable {
            Some(ParamBindingSet { handle: self.handle, tag: self.tag })
        } else {
            None
        }
    }
}

} // verus!
