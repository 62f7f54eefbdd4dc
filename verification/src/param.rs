//! Parameters: named typed bindings, and the slots they are wired into.

use crate::value::{AccessKind, TypedValue, ValueTag};
use vstd::prelude::*;

pub mod factory;

verus! {

/// Compares two string slices with `str`'s `==`. Trusted: the slices are
/// equal exactly when they hold the same characters.
#[verifier::external_body]
pub(crate) fn str_eq(a: &str, b: &str) -> (r: bool)
    ensures
        r == (a@ == b@),
{
    a == b
}

/// Errors in binding parameters.
#[derive(Clone, Copy, Debug, PartialEq, Eq, Structural)]
pub enum BindingError {
    /// No parameter with the given name.
    KeyMissing,
    /// The source cannot be read, and the slot reads.
    NoGet,
    /// The source cannot be written, and the slot writes.
    NoSet,
    /// The source holds another type of value than the slot.
    TagMismatch,
    /// The binding would make a parameter depend on itself.
    CycleDetected,
    /// The owner or the source is not known.
    NotFound,
}

/// A shared handle to a parameter that a store holds: where it stands, its
/// identifier, and what can be done through it.
#[derive(Clone, Copy, Debug, PartialEq, Eq, Structural)]
pub struct ParamRef {
    pub handle: usize,
    pub uuid: u128,
    pub tag: ValueTag,
    pub kind: AccessKind,
}

/// The reading end of a swap cell: what it yields while nothing is bound.
#[derive(Clone, Copy, Debug, PartialEq, Eq, Structural)]
pub struct ParamGet {
    pub zero: TypedValue,
}

/// The writing end of a swap cell: writes are dropped while nothing is bound.
#[derive(Clone, Copy, Debug, PartialEq, Eq, Structural)]
pub struct ParamSet {
    pub tag: ValueTag,
}

impl ParamGet {
    /// A cell that reads `initial` until something is bound.
    pub fn new(initial: TypedValue) -> (g: Self)
        ensures
            g.zero == initial,
    {
        ParamGet { zero: initial }
    }

    /// A cell that reads the default of `tag` until something is bound.
    pub fn with_tag(tag: ValueTag) -> (g: Self)
        ensures
            g.zero == tag.default_spec(),
    {
        ParamGet { zero: tag.default_value() }
    }
}

impl ParamSet {
    pub fn new(tag: ValueTag) -> (s: Self)
        ensures
            s.tag == tag,
    {
        ParamSet { tag }
    }
}

/// A parameter slot: a swap cell with its direction, and the parameter that
/// is bound into it, if any.
#[derive(Clone, Copy, Debug, PartialEq, Eq, Structural)]
pub struct ParamAccess {
    /// `GetOnly` for a slot its owner reads, `SetOnly` for one it writes.
    pub kind: AccessKind,
    /// What a reading slot yields while unbound.
    pub zero: TypedValue,
    /// The bound source.
    pub binding: Option<ParamRef>,
}

impl ParamAccess {
    /// The type of value that flows through the slot.
    pub open spec fn tag(self) -> ValueTag {
        self.zero.tag_spec()
    }

    /// A slot has one direction, and what is bound into it fits it.
    pub open spec fn wf(self) -> bool {
        &&& self.kind != AccessKind::GetSet
        &&& self.binding matches Some(b) ==> {
            &&& b.tag == self.tag()
            &&& self.kind == AccessKind::GetOnly ==> b.kind.can_get()
            &&& self.kind == AccessKind::SetOnly ==> b.kind.can_set()
        }
    }

    /// Create a new unbound reading slot.
    pub fn new_get(get: ParamGet) -> (a: Self)
        ensures
            a == (ParamAccess { kind: AccessKind::GetOnly, zero: get.zero, binding: None }),
            a.wf(),
    {
        ParamAccess { kind: AccessKind::GetOnly, zero: get.zero, binding: None }
    }

    /// Create a new unbound writing slot.
    pub fn new_set(set: ParamSet) -> (a: Self)
        ensures
            a == (ParamAccess {
                kind: AccessKind::SetOnly,
                zero: set.tag.default_spec(),
                binding: None,
            }),
            a.wf(),
    {
        ParamAccess { kind: AccessKind::SetOnly, zero: set.tag.default_value(), binding: None }
    }

    /// An unbound writing slot for values of type `tag`.
    pub open spec fn new_set_spec(tag: ValueTag) -> ParamAccess {
        ParamAccess { kind: AccessKind::SetOnly, zero: tag.default_spec(), binding: None }
    }

    /// An unbound reading slot that reads `zero`.
    pub open spec fn new_get_spec(zero: TypedValue) -> ParamAccess {
        ParamAccess { kind: AccessKind::GetOnly, zero, binding: None }
    }

    /// The slot with `source` bound into it.
    pub open spec fn bound(self, source: ParamRef) -> ParamAccess {
        ParamAccess { binding: Some(source), ..self }
    }

    /// The slot with nothing bound, reading the default of its type.
    pub open spec fn unbound(self) -> ParamAccess {
        ParamAccess { zero: self.tag().default_spec(), binding: None, ..self }
    }

    /// Why `source` cannot be bound into the slot, if it cannot.
    pub open spec fn refusal(self, source: ParamRef) -> Option<BindingError> {
        if self.kind == AccessKind::GetOnly && !source.kind.can_get() {
            Some(BindingError::NoGet)
        } else if self.kind == AccessKind::SetOnly && !source.kind.can_set() {
            Some(BindingError::NoSet)
        } else if source.tag != self.tag() {
            Some(BindingError::TagMismatch)
        } else {
            None
        }
    }

    /// Get the uuid of the bound param, if there is a binding.
    pub fn uuid(&self) -> (u: Option<u128>)
        ensures
            u == slot_uuid(*self),
    {
        match self.binding {
            Some(b) => Some(b.uuid),
            None => None,
        }
    }

    /// `"get"` or `"set"`.
    pub fn access_name(&self) -> (s: &'static str)
        ensures
            s@ == self.kind.name_spec(),
    {
        self.kind.name()
    }

    pub fn data_type_name(&self) -> (s: &'static str)
        ensures
            s@ == self.tag().name_spec(),
    {
        self.zero.tag().name()
    }

    /// Attempt to bind.
    pub fn try_bind(&mut self, binding: ParamRef) -> (r: Result<(), BindingError>)
        requires
            old(self).wf(),
        ensures
            final(self).wf(),
            match old(self).refusal(binding) {
                Some(e) => r == Err::<(), BindingError>(e) && *final(self) == *old(self),
                None => r.is_ok() && *final(self) == old(self).bound(binding),
            },
    {
        if self.kind == AccessKind::GetOnly && binding.kind == AccessKind::SetOnly {
            Err(BindingError::NoGet)
        } else if self.kind == AccessKind::SetOnly && binding.kind == AccessKind::GetOnly {
            Err(BindingError::NoSet)
        } else if binding.tag != self.zero.tag() {
            Err(BindingError::TagMismatch)
        } else {
            self.binding = Some(binding);
            Ok(())
        }
    }

    /// Resets the swap cell and hands back what was bound.
    pub fn unbind(&mut self) -> (r: Option<ParamRef>)
        requires
            old(self).wf(),
        ensures
            final(self).wf(),
            r == old(self).binding,
            *final(self) == old(self).unbound(),
    {
        let evicted = self.binding;
        self.binding = None;
        self.zero = self.zero.tag().default_value();
        evicted
    }
}

/// The identifier of what is bound into a slot.
pub open spec fn slot_uuid(a: ParamAccess) -> Option<u128> {
    match a.binding {
        Some(b) => Some(b.uuid),
        None => None,
    }
}

/// One entry of a parameter map: a slot under its name.
pub struct Slot {
    pub name: Seq<char>,
    pub access: ParamAccess,
}

/// The place of the first slot called `name`, or the number of slots if there is none.
pub open spec fn slot_position(s: Seq<Slot>, name: Seq<char>) -> int
    decreases s.len(),
{
    if s.len() == 0 {
        0
    } else if s[0].name == name {
        0
    } else {
        1 + slot_position(s.drop_first(), name)
    }
}

/// Whether a slot called `name` exists.
pub open spec fn has_slot(s: Seq<Slot>, name: Seq<char>) -> bool {
    slot_position(s, name) < s.len()
}

/// The slot called `name`.
pub open spec fn slot_of(s: Seq<Slot>, name: Seq<char>) -> ParamAccess
    recommends
        has_slot(s, name),
{
    s[slot_position(s, name)].access
}

/// A name that no slot carries is the name of no slot.
pub proof fn lemma_no_slot(s: Seq<Slot>, name: Seq<char>)
    requires
        forall|i: int| 0 <= i < s.len() ==> (#[trigger] s[i]).name != name,
    ensures
        !has_slot(s, name),
{
    lemma_slot_position(s, name);
}

/// No two slots share a name.
pub open spec fn distinct_names(s: Seq<Slot>) -> bool {
    forall|i: int, j: int| 0 <= i < j < s.len() ==> s[i].name != s[j].name
}

/// The place of a name lies within the slots or just behind them; the slot
/// at the place carries the name, and no slot in front of it does.
pub proof fn lemma_slot_position(s: Seq<Slot>, name: Seq<char>)
    ensures
        0 <= slot_position(s, name) <= s.len(),
        has_slot(s, name) ==> s[slot_position(s, name)].name == name,
        forall|i: int| 0 <= i < slot_position(s, name) ==> s[i].name != name,
    decreases s.len(),
{
    if s.len() == 0 {
    } else if s[0].name == name {
    } else {
        let d = s.drop_first();
        lemma_slot_position(d, name);
        assert forall|i: int| 0 <= i < slot_position(s, name) implies s[i].name != name by {
            if i > 0 {
                assert(d[i - 1] == s[i]);
            }
        }
        if has_slot(s, name) {
            assert(d[slot_position(d, name)] == s[slot_position(s, name)]);
        }
    }
}

/// What a slot's owner gets from a failed or successful attempt to bind
/// `source` into the slot called `name`.
pub open spec fn bind_refusal(s: Seq<Slot>, name: Seq<char>, source: ParamRef) -> Option<
    BindingError,
> {
    if !has_slot(s, name) {
        Some(BindingError::KeyMissing)
    } else {
        slot_of(s, name).refusal(source)
    }
}

/// The slots after `source` was bound into the one called `name`.
pub open spec fn slots_bound(s: Seq<Slot>, name: Seq<char>, source: ParamRef) -> Seq<Slot> {
    let p = slot_position(s, name);
    s.update(p, Slot { name: s[p].name, access: s[p].access.bound(source) })
}

/// The slots after the one called `name` was unbound.
pub open spec fn slots_unbound(s: Seq<Slot>, name: Seq<char>) -> Seq<Slot> {
    let p = slot_position(s, name);
    if p < s.len() {
        s.update(p, Slot { name: s[p].name, access: s[p].access.unbound() })
    } else {
        s
    }
}

/// The slots of one item, by name.
pub struct ParamHashMap {
    inner: Vec<(&'static str, ParamAccess)>,
}

impl ParamHashMap {
    /// The slots in the order in which they were added.
    pub closed spec fn view(&self) -> Seq<Slot> {
        Seq::new(
            self.inner@.len(),
            |i: int| Slot { name: self.inner@[i].0@, access: self.inner@[i].1 },
        )
    }

    /// Names are distinct and every slot is well formed.
    pub open spec fn wf(&self) -> bool {
        &&& distinct_names(self@)
        &&& forall|i: int| 0 <= i < self@.len() ==> (#[trigger] self@[i]).access.wf()
    }

    /// A map without slots.
    pub fn new() -> (m: Self)
        ensures
            m.wf(),
            m@ == Seq::<Slot>::empty(),
    {
        let m = ParamHashMap { inner: Vec::new() };
        assert(m@ =~= Seq::<Slot>::empty());
        m
    }

    /// The place of the slot called `name`.
    fn find(&self, name: &str) -> (r: Option<usize>)
        ensures
            match r {
                Some(i) => has_slot(self@, name@) && i == slot_position(self@, name@),
                None => !has_slot(self@, name@),
            },
    {
        let mut i: usize = 0;
        assert(self@.skip(0) == self@);
        while i < self.inner.len()
            invariant
                i <= self.inner.len(),
                self@.len() == self.inner@.len(),
                slot_position(self@, name@) == i + slot_position(self@.skip(i as int), name@),
            decreases self.inner.len() - i,
        {
            proof {
                let s = self@.skip(i as int);
                assert(s[0] == self@[i as int]);
                assert(s.drop_first() == self@.skip(i + 1));
            }
            if str_eq(self.inner[i].0, name) {
                return Some(i);
            }
            i += 1;
        }
        None
    }

    /// See if the key exists in this map.
    pub fn contains_key(&self, key: &str) -> (b: bool)
        ensures
            b == has_slot(self@, key@),
    {
        self.find(key).is_some()
    }

    /// Get the param keys.
    pub fn keys(&self) -> (k: Vec<&'static str>)
        ensures
            k@.len() == self@.len(),
            forall|i: int| 0 <= i < k@.len() ==> (#[trigger] k@[i])@ == self@[i].name,
    {
        let mut k: Vec<&'static str> = Vec::new();
        let mut i: usize = 0;
        while i < self.inner.len()
            invariant
                i <= self.inner.len(),
                self@.len() == self.inner@.len(),
                k@.len() == i,
                forall|j: int| 0 <= j < i ==> (#[trigger] k@[j])@ == self@[j].name,
            decreases self.inner.len() - i,
        {
            k.push(self.inner[i].0);
            i += 1;
        }
        k
    }

    /// The number of slots.
    pub fn len(&self) -> (n: usize)
        ensures
            n == self@.len(),
    {
        self.inner.len()
    }

    /// The slot at place `i`.
    pub fn access_at(&self, i: usize) -> (a: ParamAccess)
        requires
            i < self@.len(),
        ensures
            a == self@[i as int].access,
    {
        self.inner[i].1
    }

    /// See if there is anything in the map.
    pub fn is_empty(&self) -> (b: bool)
        ensures
            b == (self@.len() == 0),
    {
        self.inner.len() == 0
    }

    /// The slot called `name`.
    pub fn get(&self, name: &str) -> (a: Option<ParamAccess>)
        ensures
            a == (if has_slot(self@, name@) {
                Some(slot_of(self@, name@))
            } else {
                None
            }),
    {
        match self.find(name) {
            Some(i) => Some(self.inner[i].1),
            None => None,
        }
    }

    /// Get the access name for the parameter with `name`.
    pub fn access_name(&self, name: &str) -> (s: Option<&'static str>)
        ensures
            has_slot(self@, name@) ==> s.is_some() && s.unwrap()@ == slot_of(
                self@,
                name@,
            ).kind.name_spec(),
            !has_slot(self@, name@) ==> s.is_none(),
    {
        match self.find(name) {
            Some(i) => Some(self.inner[i].1.access_name()),
            None => None,
        }
    }

    /// Get the data type name for the parameter with `name`, if there is a param.
    pub fn data_type_name(&self, name: &str) -> (s: Option<&'static str>)
        ensures
            has_slot(self@, name@) ==> s.is_some() && s.unwrap()@ == slot_of(
                self@,
                name@,
            ).tag().name_spec(),
            !has_slot(self@, name@) ==> s.is_none(),
    {
        match self.find(name) {
            Some(i) => Some(self.inner[i].1.data_type_name()),
            None => None,
        }
    }

    /// Get the uuid of the bound parameter.
    pub fn uuid(&self, name: &str) -> (u: Option<u128>)
        ensures
            u == (if has_slot(self@, name@) {
                slot_uuid(slot_of(self@, name@))
            } else {
                None
            }),
    {
        match self.find(name) {
            Some(i) => self.inner[i].1.uuid(),
            None => None,
        }
    }

    /// Unbinds the slot called `name` and hands back what was bound.
    pub fn unbind(&mut self, name: &str) -> (r: Option<ParamRef>)
        requires
            old(self).wf(),
        ensures
            final(self).wf(),
            final(self)@ == slots_unbound(old(self)@, name@),
            r == (if has_slot(old(self)@, name@) {
                slot_of(old(self)@, name@).binding
            } else {
                None
            }),
    {
        match self.find(name) {
            Some(i) => {
                let n = self.inner[i].0;
                let mut a = self.inner[i].1;
                assert(self@[i as int].access.wf());
                let r = a.unbind();
                self.inner.set(i, (n, a));
                proof {
                    assert(final(self)@ =~= slots_unbound(old(self)@, name@));
                    assert forall|k: int| 0 <= k < final(self)@.len() implies (
                    #[trigger] final(self)@[k]).access.wf() by {
                        if k != i {
                            assert(final(self)@[k] == old(self)@[k]);
                        }
                    }
                    assert forall|k: int, j: int| 0 <= k < j < final(self)@.len() implies final(self)@[k].name != final(self)@[j].name by {
                        assert(final(self)@[k].name == old(self)@[k].name);
                        assert(final(self)@[j].name == old(self)@[j].name);
                    }
                }
                r
            },
            None => None,
        }
    }

    /// Bind the parameter with the given `name` to the given `binding`.
    pub fn try_bind(&mut self, name: &str, binding: ParamRef) -> (r: Result<(), BindingError>)
        requires
            old(self).wf(),
        ensures
            final(self).wf(),
            match bind_refusal(old(self)@, name@, binding) {
                Some(e) => r == Err::<(), BindingError>(e) && *final(self) == *old(self),
                None => r.is_ok() && final(self)@ == slots_bound(old(self)@, name@, binding),
            },
    {
        match self.find(name) {
            Some(i) => {
                let n = self.inner[i].0;
                let mut a = self.inner[i].1;
                assert(self@[i as int].access.wf());
                let r = a.try_bind(binding);
                if r.is_ok() {
                    self.inner.set(i, (n, a));
                    proof {
                        assert(final(self)@ =~= slots_bound(old(self)@, name@, binding));
                        assert forall|k: int| 0 <= k < final(self)@.len() implies (
                        #[trigger] final(self)@[k]).access.wf() by {
                            if k != i {
                                assert(final(self)@[k] == old(self)@[k]);
                            }
                        }
                        assert forall|k: int, j: int|
                            0 <= k < j < final(self)@.len() implies final(self)@[k].name != final(self)@[j].name by {
                            assert(final(self)@[k].name == old(self)@[k].name);
                            assert(final(self)@[j].name == old(self)@[j].name);
                        }
                    }
                }
                r
            },
            None => Err(BindingError::KeyMissing),
        }
    }

    /// Insert a parameter into the mapping, it should be unbound.
    pub fn insert_unbound(&mut self, name: &'static str, param: ParamAccess)
        requires
            old(self).wf(),
            !has_slot(old(self)@, name@),
            param.wf(),
        ensures
            final(self).wf(),
            final(self)@ == old(self)@.push(Slot { name: name@, access: param }),
    {
        proof {
            lemma_slot_position(self@, name@);
        }
        self.inner.push((name, param));
        proof {
            assert(final(self)@ =~= old(self)@.push(Slot { name: name@, access: param }));
        }
    }
}

} // verus!
