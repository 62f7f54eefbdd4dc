//! Bindings, the parameters that carry them, and the store that holds the
//! parameters while slots refer to them.

use crate::acyclic::{
    acyclic, law_bind_keeps_acyclic, law_insert_keeps_acyclic, law_unbind_keeps_acyclic,
};
use crate::ident::new_uuid;
use crate::param::{
    bind_refusal, has_slot, slot_of, slots_bound, slots_unbound, BindingError, ParamAccess,
    ParamHashMap, ParamRef, Slot,
};
use crate::value::{AccessKind, TypedValue, ValueTag};
use vstd::prelude::*;

verus! {

/// A pure function of two values of one type.
#[derive(Clone, Copy, Debug, PartialEq, Eq, Structural)]
pub enum BinaryFn {
    Max,
    Min,
    Add,
}

impl BinaryFn {
    /// The types whose values the functions combine.
    pub open spec fn supports(tag: ValueTag) -> bool {
        tag == ValueTag::Bool || tag == ValueTag::U8 || tag == ValueTag::USize || tag
            == ValueTag::ISize
    }

    /// The function's value on `l` and `r`; the default of `tag` where either
    /// operand is not of that type or the type is not combined. Sums wrap.
    pub open spec fn apply_spec(self, tag: ValueTag, l: TypedValue, r: TypedValue) -> TypedValue {
        match (tag, l, r) {
            (ValueTag::Bool, TypedValue::Bool(a), TypedValue::Bool(b)) => TypedValue::Bool(
                match self {
                    BinaryFn::Max => a || b,
                    BinaryFn::Min => a && b,
                    BinaryFn::Add => a != b,
                },
            ),
            (ValueTag::U8, TypedValue::U8(a), TypedValue::U8(b)) => TypedValue::U8(
                match self {
                    BinaryFn::Max => if a >= b { a } else { b },
                    BinaryFn::Min => if a <= b { a } else { b },
                    BinaryFn::Add => a.wrapping_add(b),
                },
            ),
            (ValueTag::USize, TypedValue::USize(a), TypedValue::USize(b)) => TypedValue::USize(
                match self {
                    BinaryFn::Max => if a >= b { a } else { b },
                    BinaryFn::Min => if a <= b { a } else { b },
                    BinaryFn::Add => a.wrapping_add(b),
                },
            ),
            (ValueTag::ISize, TypedValue::ISize(a), TypedValue::ISize(b)) => TypedValue::ISize(
                match self {
                    BinaryFn::Max => if a >= b { a } else { b },
                    BinaryFn::Min => if a <= b { a } else { b },
                    BinaryFn::Add => a.wrapping_add(b),
                },
            ),
            _ => tag.default_spec(),
        }
    }

    pub fn apply(self, tag: ValueTag, l: TypedValue, r: TypedValue) -> (v: TypedValue)
        ensures
            v == self.apply_spec(tag, l, r),
            v.tag_spec() == tag,
    {
        match (tag, l, r) {
            (ValueTag::Bool, TypedValue::Bool(a), TypedValue::Bool(b)) => TypedValue::Bool(
                match self {
                    BinaryFn::Max => a || b,
                    BinaryFn::Min => a && b,
                    BinaryFn::Add => a != b,
                },
            ),
            (ValueTag::U8, TypedValue::U8(a), TypedValue::U8(b)) => TypedValue::U8(
                match self {
                    BinaryFn::Max => if a >= b { a } else { b },
                    BinaryFn::Min => if a <= b { a } else { b },
                    BinaryFn::Add => a.wrapping_add(b),
                },
            ),
            (ValueTag::USize, TypedValue::USize(a), TypedValue::USize(b)) => TypedValue::USize(
                match self {
                    BinaryFn::Max => if a >= b { a } else { b },
                    BinaryFn::Min => if a <= b { a } else { b },
                    BinaryFn::Add => a.wrapping_add(b),
                },
            ),
            (ValueTag::ISize, TypedValue::ISize(a), TypedValue::ISize(b)) => TypedValue::ISize(
                match self {
                    BinaryFn::Max => if a >= b { a } else { b },
                    BinaryFn::Min => if a <= b { a } else { b },
                    BinaryFn::Add => a.wrapping_add(b),
                },
            ),
            _ => tag.default_value(),
        }
    }
}

/// Where a parameter's value comes from.
#[derive(Clone, Copy, Debug, PartialEq, Eq, Structural)]
pub enum Binding {
    /// A fixed value; writes are ignored.
    Constant(TypedValue),
    /// A mutable cell, holding this value when the parameter is made.
    Cell(TypedValue),
    /// A function of what the owner's slots `left` and `right` read.
    BinaryOp(BinaryFn, ValueTag),
}

impl Binding {
    pub open spec fn tag_spec(self) -> ValueTag {
        match self {
            Binding::Constant(v) => v.tag_spec(),
            Binding::Cell(v) => v.tag_spec(),
            Binding::BinaryOp(_, tag) => tag,
        }
    }

    #[verifier::when_used_as_spec(tag_spec)]
    pub fn tag(self) -> (t: ValueTag)
        ensures
            t == self.tag_spec(),
    {
        match self {
            Binding::Constant(v) => v.tag(),
            Binding::Cell(v) => v.tag(),
            Binding::BinaryOp(_, tag) => tag,
        }
    }

    /// The value with which the binding starts.
    pub open spec fn initial_spec(self) -> TypedValue {
        match self {
            Binding::Constant(v) => v,
            Binding::Cell(v) => v,
            Binding::BinaryOp(_, tag) => tag.default_spec(),
        }
    }

    pub fn initial(self) -> (v: TypedValue)
        ensures
            v == self.initial_spec(),
            v.tag_spec() == self.tag_spec(),
    {
        match self {
            Binding::Constant(v) => v,
            Binding::Cell(v) => v,
            Binding::BinaryOp(_, tag) => tag.default_value(),
        }
    }
}

/// A binding together with the direction in which it can be used.
#[derive(Clone, Copy, Debug, PartialEq, Eq, Structural)]
pub enum ParamDataAccess {
    Get(Binding),
    SetOnly(Binding),
    GetSet(Binding),
}

impl ParamDataAccess {
    pub open spec fn kind_spec(self) -> AccessKind {
        match self {
            ParamDataAccess::Get(_) => AccessKind::GetOnly,
            ParamDataAccess::SetOnly(_) => AccessKind::SetOnly,
            ParamDataAccess::GetSet(_) => AccessKind::GetSet,
        }
    }

    pub open spec fn binding_spec(self) -> Binding {
        match self {
            ParamDataAccess::Get(b) => b,
            ParamDataAccess::SetOnly(b) => b,
            ParamDataAccess::GetSet(b) => b,
        }
    }

    pub open spec fn tag_spec(self) -> ValueTag {
        self.binding_spec().tag_spec()
    }

    /// A function of two slots can only be read, and only over a type whose
    /// values it combines.
    pub open spec fn wf(self) -> bool {
        self.binding_spec() matches Binding::BinaryOp(_, tag) ==> self is Get && BinaryFn::supports(
            tag,
        )
    }

    #[verifier::when_used_as_spec(kind_spec)]
    pub fn kind(self) -> (k: AccessKind)
        ensures
            k == self.kind_spec(),
    {
        match self {
            ParamDataAccess::Get(_) => AccessKind::GetOnly,
            ParamDataAccess::SetOnly(_) => AccessKind::SetOnly,
            ParamDataAccess::GetSet(_) => AccessKind::GetSet,
        }
    }

    #[verifier::when_used_as_spec(binding_spec)]
    pub fn binding(self) -> (b: Binding)
        ensures
            b == self.binding_spec(),
    {
        match self {
            ParamDataAccess::Get(b) => b,
            ParamDataAccess::SetOnly(b) => b,
            ParamDataAccess::GetSet(b) => b,
        }
    }

    #[verifier::when_used_as_spec(tag_spec)]
    pub fn tag(self) -> (t: ValueTag)
        ensures
            t == self.tag_spec(),
    {
        self.binding().tag()
    }

    /// `"get"`, `"set"` or `"getset"`.
    pub fn access_name(&self) -> (s: &'static str)
        ensures
            s@ == self.kind_spec().name_spec(),
    {
        self.kind().name()
    }

    pub fn data_type_name(&self) -> (s: &'static str)
        ensures
            s@ == self.tag_spec().name_spec(),
    {
        self.tag().name()
    }
}

/// A trait to access an item's parameters.
pub trait ParamMapGet {
    spec fn params_spec(&self) -> Seq<Slot>;

    /// Get a reference to the parameters for this object.
    fn params(&self) -> (m: &ParamHashMap)
        ensures
            m@ == self.params_spec(),
    ;
}

/// A uniquely identified, named, typed value with its own sub-parameters.
pub struct Param {
    /// The value to use in the scheduler.
    pub data: ParamDataAccess,
    /// What can be observed and changed from outside the scheduler.
    pub shadow: Option<ParamDataAccess>,
    /// Parameters that alter this value.
    pub params: ParamHashMap,
    pub uuid: u128,
    pub type_label: &'static str,
}

impl Param {
    /// The data and the slots are well formed, and a shadow is of the data's type.
    pub open spec fn wf(&self) -> bool {
        &&& self.data.wf()
        &&& self.params.wf()
        &&& self.shadow matches Some(s) ==> s.wf() && s.tag_spec() == self.data.tag_spec()
    }

    /// Nothing is bound into any of the parameter's slots.
    pub open spec fn unbound(&self) -> bool {
        forall|k: int| 0 <= k < self.params@.len() ==> (#[trigger] self.params@[k]).access.binding is None
    }

    /// Create a new param instance, with the given id.
    pub fn new_with_id(
        type_label: &'static str,
        data: ParamDataAccess,
        params: ParamHashMap,
        shadow: Option<ParamDataAccess>,
        id: u128,
    ) -> (p: Self)
        ensures
            p.data == data,
            p.shadow == shadow,
            p.params == params,
            p.uuid == id,
            p.type_label == type_label,
    {
        Param { data, shadow, params, uuid: id, type_label }
    }

    /// Create a new param instance.
    pub fn new(
        type_label: &'static str,
        data: ParamDataAccess,
        params: ParamHashMap,
        shadow: Option<ParamDataAccess>,
    ) -> (p: Self)
        ensures
            p.data == data,
            p.shadow == shadow,
            p.params == params,
            p.type_label == type_label,
    {
        let id = new_uuid();
        Self::new_with_id(type_label, data, params, shadow, id)
    }

    /// Get the unique identifier for this param instance.
    pub fn uuid(&self) -> (u: u128)
        ensures
            u == self.uuid,
    {
        self.uuid
    }

    /// Get the data for this param, to use in the scheduler.
    pub fn data(&self) -> (d: &ParamDataAccess)
        ensures
            *d == self.data,
    {
        &self.data
    }

    /// Get the type name for this param instance.
    pub fn type_label(&self) -> (s: &'static str)
        ensures
            s == self.type_label,
    {
        self.type_label
    }

    /// Get the access name for this param instance: `"get"`, `"set"` or `"getset"`.
    pub fn access_name(&self) -> (s: &'static str)
        ensures
            s@ == self.data.kind_spec().name_spec(),
    {
        self.data.access_name()
    }

    /// Get the data type name for this param instance.
    pub fn data_type_name(&self) -> (s: &'static str)
        ensures
            s@ == self.data.tag_spec().name_spec(),
    {
        self.data.data_type_name()
    }

    /// Get the shadow for this param, if there is one.
    pub fn shadow(&self) -> (s: &Option<ParamDataAccess>)
        ensures
            *s == self.shadow,
    {
        &self.shadow
    }
}

impl ParamMapGet for Param {
    open spec fn params_spec(&self) -> Seq<Slot> {
        self.params@
    }

    fn params(&self) -> (m: &ParamHashMap) {
        &self.params
    }
}

/// What a store holds: the parameters, and the value each one has at rest.
pub struct StoreView {
    pub params: Seq<Param>,
    pub values: Seq<TypedValue>,
}

/// What reading the parameter at `h` yields. A constant yields its value, a
/// cell what was last stored in it, a function its value on what the slots
/// `left` and `right` read. `fuel` bounds how deep functions of functions
/// are followed; below that depth a function yields the default of its type.
pub open spec fn eval(params: Seq<Param>, values: Seq<TypedValue>, h: int, fuel: nat) -> TypedValue
    decreases fuel, 0nat,
{
    if h < 0 || h >= params.len() || h >= values.len() {
        TypedValue::Bool(false)
    } else {
        match params[h].data.binding_spec() {
            Binding::Constant(v) => v,
            Binding::Cell(_) => values[h],
            Binding::BinaryOp(op, tag) => if fuel == 0 {
                tag.default_spec()
            } else {
                op.apply_spec(
                    tag,
                    read_named(params, values, params[h].params@, "left"@, tag, (fuel - 1) as nat),
                    read_named(params, values, params[h].params@, "right"@, tag, (fuel - 1) as nat),
                )
            },
        }
    }
}

/// What reading through a slot yields: what its source reads, or the slot's
/// own zero value while nothing is bound.
pub open spec fn read_slot(params: Seq<Param>, values: Seq<TypedValue>, a: ParamAccess, fuel: nat) -> TypedValue
    decreases fuel, 1nat,
{
    match a.binding {
        Some(b) => if b.handle < params.len() && b.handle < values.len() {
            eval(params, values, b.handle as int, fuel)
        } else {
            a.zero
        },
        None => a.zero,
    }
}

/// What reading through the slot called `name` yields; the default of `tag`
/// where there is no such slot.
pub open spec fn read_named(
    params: Seq<Param>,
    values: Seq<TypedValue>,
    slots: Seq<Slot>,
    name: Seq<char>,
    tag: ValueTag,
    fuel: nat,
) -> TypedValue
    decreases fuel, 2nat,
{
    if has_slot(slots, name) {
        read_slot(params, values, slot_of(slots, name), fuel)
    } else {
        tag.default_spec()
    }
}

/// Whether `v` can be stored in `p`: `p` is a writable cell of `v`'s type.
pub open spec fn can_store(p: Param, v: TypedValue) -> bool {
    &&& p.data.kind_spec().can_set()
    &&& p.data.binding_spec() is Cell
    &&& v.tag_spec() == p.data.tag_spec()
}

/// The values after `v` was written to the parameter at `h`.
pub open spec fn set_spec(params: Seq<Param>, values: Seq<TypedValue>, h: int, v: TypedValue) -> Seq<TypedValue> {
    if 0 <= h < params.len() && h < values.len() && can_store(params[h], v) {
        values.update(h, v)
    } else {
        values
    }
}

/// The values after `v` was written through a slot.
pub open spec fn write_slot(params: Seq<Param>, values: Seq<TypedValue>, a: ParamAccess, v: TypedValue) -> Seq<
    TypedValue,
> {
    match a.binding {
        Some(b) => set_spec(params, values, b.handle as int, v),
        None => values,
    }
}

/// The values after `v` was written through the slot called `name`, if there is one.
pub open spec fn write_named(
    params: Seq<Param>,
    values: Seq<TypedValue>,
    slots: Seq<Slot>,
    name: Seq<char>,
    v: TypedValue,
) -> Seq<TypedValue> {
    if has_slot(slots, name) {
        write_slot(params, values, slot_of(slots, name), v)
    } else {
        values
    }
}

/// The handle under which a store hands out the parameter at `h`.
pub open spec fn ref_of(params: Seq<Param>, h: int) -> ParamRef {
    ParamRef {
        handle: h as usize,
        uuid: params[h].uuid,
        tag: params[h].data.tag_spec(),
        kind: params[h].data.kind_spec(),
    }
}

/// The place of the parameter last added under `uuid`.
pub open spec fn latest(params: Seq<Param>, uuid: u128) -> Option<int>
    decreases params.len(),
{
    if params.len() == 0 {
        None
    } else if params.last().uuid == uuid {
        Some(params.len() - 1)
    } else {
        latest(params.drop_last(), uuid)
    }
}

/// Whether the parameter at `to` can be reached from the one at `from` by
/// following at most `fuel` bindings of sub-parameters.
pub open spec fn reaches(params: Seq<Param>, from: int, to: int, fuel: nat) -> bool
    decreases fuel, 0nat, 0nat,
{
    from == to || (fuel > 0 && 0 <= from < params.len() && reaches_by_slot(
        params,
        params[from].params@,
        0,
        to,
        (fuel - 1) as nat,
    ))
}

/// Whether `to` can be reached through one of the slots from place `k` on.
pub open spec fn reaches_by_slot(params: Seq<Param>, slots: Seq<Slot>, k: int, to: int, fuel: nat) -> bool
    decreases fuel, 1nat, slots.len() - k,
{
    0 <= k < slots.len() && ((slots[k].access.binding matches Some(b) && reaches(
        params,
        b.handle as int,
        to,
        fuel,
    )) || reaches_by_slot(params, slots, k + 1, to, fuel))
}

/// Why `source` cannot be bound into the slot `name` of `owner`, if it cannot.
pub open spec fn bind_outcome(params: Seq<Param>, owner: int, name: Seq<char>, source: int) -> Option<
    BindingError,
> {
    if !(0 <= owner < params.len() && 0 <= source < params.len()) {
        Some(BindingError::NotFound)
    } else if bind_refusal(params[owner].params@, name, ref_of(params, source)) is Some {
        bind_refusal(params[owner].params@, name, ref_of(params, source))
    } else if reaches(params, source, owner, params.len()) {
        Some(BindingError::CycleDetected)
    } else {
        None
    }
}

/// `q` is `p` with other slots.
pub open spec fn rewired(p: Param, q: Param, slots: Seq<Slot>) -> bool {
    &&& q.data == p.data
    &&& q.shadow == p.shadow
    &&& q.uuid == p.uuid
    &&& q.type_label == p.type_label
    &&& q.params@ == slots
}

/// The parameters after `source` was bound into the slot `name` of `owner`.
pub open spec fn store_bound(pre: Seq<Param>, post: Seq<Param>, owner: int, name: Seq<char>, source: int) -> bool {
    &&& post.len() == pre.len()
    &&& forall|k: int| 0 <= k < pre.len() && k != owner ==> post[k] == pre[k]
    &&& rewired(pre[owner], post[owner], slots_bound(pre[owner].params@, name, ref_of(pre, source)))
}

/// The parameters after the slot `name` of `owner` was unbound.
pub open spec fn store_unbound(pre: Seq<Param>, post: Seq<Param>, owner: int, name: Seq<char>) -> bool {
    &&& post.len() == pre.len()
    &&& forall|k: int| 0 <= k < pre.len() && k != owner ==> post[k] == pre[k]
    &&& rewired(pre[owner], post[owner], slots_unbound(pre[owner].params@, name))
}

/// The parameters the control plane has made, each kept for as long as the store lives.
pub struct ParamStore {
    params: Vec<Param>,
    values: Vec<TypedValue>,
}

impl ParamStore {
    /// What the store holds.
    pub closed spec fn view(&self) -> StoreView {
        StoreView { params: self.params@, values: self.values@ }
    }

    /// Every parameter is well formed and has a value of its type, and no
    /// parameter depends on itself through the bindings in its slots.
    pub open spec fn wf(&self) -> bool {
        &&& self@.params.len() == self@.values.len()
        &&& acyclic(self@.params)
        &&& forall|h: int|
            0 <= h < self@.params.len() ==> (#[trigger] self@.params[h]).wf() && self@.values[h].tag_spec()
                == self@.params[h].data.tag_spec()
    }

    pub fn new() -> (s: Self)
        ensures
            s.wf(),
            s@.params.len() == 0,
            s@.values.len() == 0,
    {
        let s = ParamStore { params: Vec::new(), values: Vec::new() };
        proof {
            assert forall|p: Seq<int>| #[trigger]
                crate::acyclic::is_path(s@.params, p) && p.len() >= 2 implies p.first() != p.last() by {
                assert(crate::acyclic::edge(s@.params, p[0], p[1]));
            }
        }
        s
    }

    /// The number of parameters.
    pub fn len(&self) -> (n: usize)
        ensures
            n == self@.params.len(),
    {
        self.params.len()
    }

    /// Takes a parameter in, with the value its binding starts with. The
    /// parameter comes with nothing bound: bindings are made in the store.
    pub fn insert(&mut self, param: Param) -> (r: ParamRef)
        requires
            old(self).wf(),
            param.wf(),
            param.unbound(),
        ensures
            final(self).wf(),
            final(self)@.params == old(self)@.params.push(param),
            final(self)@.values == old(self)@.values.push(param.data.binding_spec().initial_spec()),
            r == ref_of(final(self)@.params, old(self)@.params.len() as int),
    {
        let r = ParamRef {
            handle: self.params.len(),
            uuid: param.uuid,
            tag: param.data.tag(),
            kind: param.data.kind(),
        };
        let v = param.data.binding().initial();
        proof {
            law_insert_keeps_acyclic(self@.params, param);
        }
        self.params.push(param);
        self.values.push(v);
        r
    }

    /// The parameter last added under `uuid`.
    pub fn find(&self, uuid: u128) -> (r: Option<usize>)
        ensures
            match r {
                Some(h) => latest(self@.params, uuid) == Some(h as int) && h < self@.params.len(),
                None => latest(self@.params, uuid) is None,
            },
    {
        let mut i: usize = self.params.len();
        assert(self.params@.take(i as int) == self.params@);
        while i > 0
            invariant
                i <= self.params.len(),
                latest(self.params@, uuid) == latest(self.params@.take(i as int), uuid),
            decreases i,
        {
            proof {
                let s = self.params@.take(i as int);
                assert(s.last() == self.params@[i - 1]);
                assert(s.drop_last() == self.params@.take(i - 1));
            }
            if self.params[i - 1].uuid == uuid {
                return Some(i - 1);
            }
            i -= 1;
        }
        None
    }

    /// The parameter at `handle`.
    pub fn param(&self, handle: usize) -> (p: Option<&Param>)
        ensures
            handle < self@.params.len() ==> p == Some(&self@.params[handle as int]),
            handle >= self@.params.len() ==> p.is_none(),
    {
        if handle < self.params.len() {
            Some(&self.params[handle])
        } else {
            None
        }
    }

    /// A handle to the parameter at `handle`, to bind it into slots.
    pub fn param_ref(&self, handle: usize) -> (r: Option<ParamRef>)
        ensures
            handle < self@.params.len() ==> r == Some(ref_of(self@.params, handle as int)),
            handle >= self@.params.len() ==> r.is_none(),
    {
        if handle < self.params.len() {
            Some(
                ParamRef {
                    handle,
                    uuid: self.params[handle].uuid,
                    tag: self.params[handle].data.tag(),
                    kind: self.params[handle].data.kind(),
                },
            )
        } else {
            None
        }
    }

    fn eval(&self, h: usize, fuel: usize) -> (v: TypedValue)
        requires
            self.wf(),
            h < self@.params.len(),
        ensures
            v == eval(self@.params, self@.values, h as int, fuel as nat),
        decreases fuel, 0nat,
    {
        match self.params[h].data.binding() {
            Binding::Constant(v) => v,
            Binding::Cell(_) => self.values[h],
            Binding::BinaryOp(op, tag) => {
                if fuel == 0 {
                    tag.default_value()
                } else {
                    let l = self.read_named(&self.params[h].params, "left", tag, fuel - 1);
                    let r = self.read_named(&self.params[h].params, "right", tag, fuel - 1);
                    op.apply(tag, l, r)
                }
            },
        }
    }

    fn read_slot(&self, a: ParamAccess, fuel: usize) -> (v: TypedValue)
        requires
            self.wf(),
        ensures
            v == read_slot(self@.params, self@.values, a, fuel as nat),
        decreases fuel, 1nat,
    {
        match a.binding {
            Some(b) => {
                if b.handle < self.params.len() {
                    self.eval(b.handle, fuel)
                } else {
                    a.zero
                }
            },
            None => a.zero,
        }
    }

    fn read_named(&self, map: &ParamHashMap, name: &str, tag: ValueTag, fuel: usize) -> (v: TypedValue)
        requires
            self.wf(),
        ensures
            v == read_named(self@.params, self@.values, map@, name@, tag, fuel as nat),
        decreases fuel, 2nat,
    {
        match map.get(name) {
            Some(a) => self.read_slot(a, fuel),
            None => tag.default_value(),
        }
    }

    /// Reads the parameter at `handle`, if it is there and can be read.
    pub fn get(&self, handle: usize) -> (v: Option<TypedValue>)
        requires
            self.wf(),
        ensures
            v == self@.get_spec(handle as int),
    {
        if handle < self.params.len() {
            match self.params[handle].data.kind() {
                AccessKind::SetOnly => None,
                _ => Some(self.eval(handle, self.params.len())),
            }
        } else {
            None
        }
    }

    /// Reads the parameter at `handle` from outside the scheduler: through
    /// its shadow, if it has one that can be read.
    pub fn shadow_get(&self, handle: usize) -> (v: Option<TypedValue>)
        requires
            self.wf(),
        ensures
            v == self@.shadow_get_spec(handle as int),
    {
        if handle < self.params.len() {
            match self.params[handle].shadow {
                Some(ParamDataAccess::Get(_)) => Some(self.eval(handle, self.params.len())),
                Some(ParamDataAccess::GetSet(_)) => Some(self.eval(handle, self.params.len())),
                _ => None,
            }
        } else {
            None
        }
    }

    /// Writes `v` to the parameter at `handle` from outside the scheduler:
    /// through its shadow, if it has one that can be written. Says whether
    /// it was stored.
    pub fn shadow_set(&mut self, handle: usize, v: TypedValue) -> (stored: bool)
        requires
            old(self).wf(),
        ensures
            final(self).wf(),
            final(self)@.params == old(self)@.params,
            final(self)@.values == (if old(self)@.shadow_writable(handle as int) {
                set_spec(old(self)@.params, old(self)@.values, handle as int, v)
            } else {
                old(self)@.values
            }),
            stored == (old(self)@.shadow_writable(handle as int) && can_store(
                old(self)@.params[handle as int],
                v,
            )),
    {
        if handle < self.params.len() {
            match self.params[handle].shadow {
                Some(ParamDataAccess::SetOnly(_)) => self.set(handle, v),
                Some(ParamDataAccess::GetSet(_)) => self.set(handle, v),
                _ => false,
            }
        } else {
            false
        }
    }

    /// Reads through a slot.
    pub fn read(&self, a: ParamAccess) -> (v: TypedValue)
        requires
            self.wf(),
        ensures
            v == self@.read_spec(a),
    {
        self.read_slot(a, self.params.len())
    }

    /// Reads through the slot of `map` called `name`; the default of `tag`
    /// where there is no such slot.
    pub fn read_param(&self, map: &ParamHashMap, name: &str, tag: ValueTag) -> (v: TypedValue)
        requires
            self.wf(),
        ensures
            v == read_named(self@.params, self@.values, map@, name@, tag, self@.params.len()),
    {
        self.read_named(map, name, tag, self.params.len())
    }

    /// Writes `v` through the slot of `map` called `name`, if there is one.
    pub fn write_param(&mut self, map: &ParamHashMap, name: &str, v: TypedValue)
        requires
            old(self).wf(),
        ensures
            final(self).wf(),
            final(self)@.params == old(self)@.params,
            final(self)@.values == write_named(
                old(self)@.params,
                old(self)@.values,
                map@,
                name@,
                v,
            ),
    {
        match map.get(name) {
            Some(a) => self.write(a, v),
            None => {},
        }
    }

    /// Writes `v` to the parameter at `handle`. Says whether it was stored:
    /// it is where the parameter is a writable cell of `v`'s type.
    pub fn set(&mut self, handle: usize, v: TypedValue) -> (stored: bool)
        requires
            old(self).wf(),
        ensures
            final(self).wf(),
            final(self)@.params == old(self)@.params,
            final(self)@.values == set_spec(old(self)@.params, old(self)@.values, handle as int, v),
            stored == (handle < old(self)@.params.len() && can_store(
                old(self)@.params[handle as int],
                v,
            )),
    {
        if handle >= self.params.len() {
            return false;
        }
        let d = self.params[handle].data;
        let writable = match d {
            ParamDataAccess::Get(_) => false,
            _ => true,
        };
        let cell = match d.binding() {
            Binding::Cell(_) => true,
            _ => false,
        };
        if writable && cell && v.tag() == d.tag() {
            self.values.set(handle, v);
            true
        } else {
            false
        }
    }

    /// Writes `v` through a slot; dropped while nothing is bound.
    pub fn write(&mut self, a: ParamAccess, v: TypedValue)
        requires
            old(self).wf(),
        ensures
            final(self).wf(),
            final(self)@.params == old(self)@.params,
            final(self)@.values == write_slot(old(self)@.params, old(self)@.values, a, v),
    {
        match a.binding {
            Some(b) => {
                self.set(b.handle, v);
            },
            None => {},
        }
    }

    fn reaches(&self, from: usize, to: usize, fuel: usize) -> (r: bool)
        ensures
            r == reaches(self@.params, from as int, to as int, fuel as nat),
        decreases fuel, 0nat, 0nat,
    {
        if from == to {
            true
        } else if fuel > 0 && from < self.params.len() {
            self.reaches_by_slot(from, 0, to, fuel - 1)
        } else {
            false
        }
    }

    fn reaches_by_slot(&self, from: usize, k: usize, to: usize, fuel: usize) -> (r: bool)
        requires
            from < self@.params.len(),
        ensures
            r == reaches_by_slot(
                self@.params,
                self@.params[from as int].params@,
                k as int,
                to as int,
                fuel as nat,
            ),
        decreases fuel, 1nat, self@.params[from as int].params@.len() - k,
    {
        if k < self.params[from].params.len() {
            let a = self.params[from].params.access_at(k);
            let direct = match a.binding {
                Some(b) => self.reaches(b.handle, to, fuel),
                None => false,
            };
            if direct {
                true
            } else if k < usize::MAX {
                self.reaches_by_slot(from, k + 1, to, fuel)
            } else {
                false
            }
        } else {
            false
        }
    }

    /// Binds the parameter at `source` into the slot `name` of the one at `owner`.
    pub fn try_bind(&mut self, owner: usize, name: &str, source: usize) -> (r: Result<
        (),
        BindingError,
    >)
        requires
            old(self).wf(),
        ensures
            final(self).wf(),
            final(self)@.values == old(self)@.values,
            final(self)@.params.len() == old(self)@.params.len(),
            forall|k: int|
                0 <= k < old(self)@.params.len() && k != owner ==> final(self)@.params[k] == old(self)@.params[k],
            match bind_outcome(old(self)@.params, owner as int, name@, source as int) {
                Some(e) => r == Err::<(), BindingError>(e) && final(self)@ == old(self)@,
                None => r.is_ok() && rewired(
                    old(self)@.params[owner as int],
                    final(self)@.params[owner as int],
                    slots_bound(
                        old(self)@.params[owner as int].params@,
                        name@,
                        ref_of(old(self)@.params, source as int),
                    ),
                ),
            },
    {
        if owner >= self.params.len() || source >= self.params.len() {
            return Err(BindingError::NotFound);
        }
        let source_ref = ParamRef {
            handle: source,
            uuid: self.params[source].uuid,
            tag: self.params[source].data.tag(),
            kind: self.params[source].data.kind(),
        };
        let a = self.params[owner].params.get(name);
        match a {
            None => {
                return Err(BindingError::KeyMissing);
            },
            Some(a) => {
                if a.kind == AccessKind::GetOnly && source_ref.kind == AccessKind::SetOnly {
                    return Err(BindingError::NoGet);
                }
                if a.kind == AccessKind::SetOnly && source_ref.kind == AccessKind::GetOnly {
                    return Err(BindingError::NoSet);
                }
                if source_ref.tag != a.zero.tag() {
                    return Err(BindingError::TagMismatch);
                }
            },
        }
        if self.reaches(source, owner, self.params.len()) {
            return Err(BindingError::CycleDetected);
        }
        assert(self@.params[owner as int].wf());
        let r = self.params[owner].params.try_bind(name, source_ref);
        assert(final(self)@.values == old(self)@.values);
        proof {
            law_bind_keeps_acyclic(
                old(self)@.params,
                final(self)@.params,
                owner as int,
                name@,
                source as int,
            );
        }
        r
    }

    /// Unbinds the slot `name` of the parameter at `owner`, and hands back
    /// what was bound.
    pub fn unbind(&mut self, owner: usize, name: &str) -> (r: Option<ParamRef>)
        requires
            old(self).wf(),
        ensures
            final(self).wf(),
            final(self)@.values == old(self)@.values,
            final(self)@.params.len() == old(self)@.params.len(),
            forall|k: int|
                0 <= k < old(self)@.params.len() && k != owner ==> final(self)@.params[k] == old(self)@.params[k],
            owner >= old(self)@.params.len() ==> r.is_none() && final(self)@ == old(self)@,
            owner < old(self)@.params.len() ==> {
                let slots = old(self)@.params[owner as int].params@;
                &&& r == (if has_slot(slots, name@) {
                    slot_of(slots, name@).binding
                } else {
                    None
                })
                &&& rewired(
                    old(self)@.params[owner as int],
                    final(self)@.params[owner as int],
                    slots_unbound(slots, name@),
                )
            },
    {
        if owner >= self.params.len() {
            return None;
        }
        assert(self@.params[owner as int].wf());
        let r = self.params[owner].params.unbind(name);
        assert(final(self)@.values == old(self)@.values);
        proof {
            law_unbind_keeps_acyclic(old(self)@.params, final(self)@.params, owner as int, name@);
        }
        r
    }
}

impl StoreView {
    /// What a read of the parameter at `h` returns.
    pub open spec fn get_spec(self, h: int) -> Option<TypedValue> {
        if 0 <= h < self.params.len() && self.params[h].data.kind_spec().can_get() {
            Some(eval(self.params, self.values, h, self.params.len()))
        } else {
            None
        }
    }

    /// Whether the parameter at `h` can be written from outside the scheduler.
    pub open spec fn shadow_writable(self, h: int) -> bool {
        &&& 0 <= h < self.params.len()
        &&& self.params[h].shadow matches Some(s)
        &&& s.kind_spec().can_set()
    }

    /// What a read of the parameter at `h` from outside the scheduler returns.
    pub open spec fn shadow_get_spec(self, h: int) -> Option<TypedValue> {
        if 0 <= h < self.params.len() && (self.params[h].shadow matches Some(s)
            && s.kind_spec().can_get()) {
            Some(eval(self.params, self.values, h, self.params.len()))
        } else {
            None
        }
    }

    /// What a read through the slot `a` returns.
    pub open spec fn read_spec(self, a: ParamAccess) -> TypedValue {
        read_slot(self.params, self.values, a, self.params.len())
    }
}

} // verus!
