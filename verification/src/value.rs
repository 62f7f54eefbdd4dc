//! The closed universe of value types that can be bound.

use vstd::prelude::*;

verus! {

/// Identifies one of the bindable value types.
#[derive(Clone, Copy, Debug, PartialEq, Eq, Structural)]
pub enum ValueTag {
    Bool,
    U8,
    USize,
    ISize,
    Float,
    ClockData,
    TickResched,
    TickSched,
}

/// The direction in which a binding can be used.
#[derive(Clone, Copy, Debug, PartialEq, Eq, Structural)]
pub enum AccessKind {
    GetOnly,
    SetOnly,
    GetSet,
}

/// A double-precision number, carried as its IEEE-754 bit pattern.
#[derive(Clone, Copy, Debug, PartialEq, Eq, Structural)]
pub struct Float {
    pub bits: u64,
}

/// Tempo: beats per minute, pulses per quarter note and the pulse period.
#[derive(Clone, Copy, Debug, PartialEq, Eq, Structural)]
pub struct ClockData {
    pub bpm: Float,
    pub ppq: u64,
    pub period_micros: Float,
}

/// How long an event wants to wait before it runs again.
#[derive(Clone, Copy, Debug, PartialEq, Eq, Structural)]
pub enum TickResched {
    Never,
    Relative(usize),
    ContextRelative(usize),
}

/// Where an event wants to be placed.
#[derive(Clone, Copy, Debug, PartialEq, Eq, Structural)]
pub enum TickSched {
    Unset,
    Absolute(usize),
    ContextRelative(usize),
}

/// A value of any bindable type.
#[derive(Clone, Copy, Debug, PartialEq, Eq, Structural)]
pub enum TypedValue {
    Bool(bool),
    U8(u8),
    USize(usize),
    ISize(isize),
    Float(Float),
    ClockData(ClockData),
    TickResched(TickResched),
    TickSched(TickSched),
}

/// Bit pattern of `0.0`.
pub const FLOAT_ZERO_BITS: u64 = 0;

/// Bit pattern of `120.0`, the default tempo.
pub const DEFAULT_BPM_BITS: u64 = 0x405E_0000_0000_0000;

/// The default number of pulses per quarter note.
pub const DEFAULT_PPQ: u64 = 96;

/// Bit pattern of `60_000_000 / (120 * 96)`, the default pulse period.
pub const DEFAULT_PERIOD_MICROS_BITS: u64 = 0x40B4_5855_5555_5555;

impl Float {
    /// The number with the given IEEE-754 bit pattern.
    pub fn from_bits(bits: u64) -> (f: Self)
        ensures
            f.bits == bits,
    {
        Float { bits }
    }

    /// The number's IEEE-754 bit pattern.
    pub fn to_bits(self) -> (bits: u64)
        ensures
            bits == self.bits,
    {
        self.bits
    }
}

impl ClockData {
    /// A tempo from its three fields. The pulse count is raised to one
    /// where it is zero. The fields depend on one another: the period is
    /// 60 000 000 over the product of the other two. To keep them in
    /// agreement takes arithmetic on doubles, and is left to the caller.
    pub fn new(bpm: Float, ppq: u64, period_micros: Float) -> (c: Self)
        ensures
            c.bpm == bpm,
            c.ppq == (if ppq < 1 {
                1
            } else {
                ppq
            }),
            c.period_micros == period_micros,
    {
        ClockData {
            bpm,
            ppq: if ppq < 1 {
                1
            } else {
                ppq
            },
            period_micros,
        }
    }

    pub fn bpm(&self) -> (f: Float)
        ensures
            f == self.bpm,
    {
        self.bpm
    }

    pub fn ppq(&self) -> (n: u64)
        ensures
            n == self.ppq,
    {
        self.ppq
    }

    pub fn period_micros(&self) -> (f: Float)
        ensures
            f == self.period_micros,
    {
        self.period_micros
    }

    /// Sets the beat rate, with the pulse period that follows from it.
    pub fn set_bpm(&mut self, bpm: Float, period_micros: Float)
        ensures
            *final(self) == (ClockData { bpm, period_micros, ..*old(self) }),
    {
        self.bpm = bpm;
        self.period_micros = period_micros;
    }

    /// Sets the pulse count, raised to one where it is zero, with the
    /// pulse period that follows from it.
    pub fn set_ppq(&mut self, ppq: u64, period_micros: Float)
        ensures
            *final(self) == (ClockData {
                ppq: if ppq < 1 {
                    1
                } else {
                    ppq
                },
                period_micros,
                ..*old(self)
            }),
    {
        self.ppq = if ppq < 1 {
            1
        } else {
            ppq
        };
        self.period_micros = period_micros;
    }

    /// Sets the pulse period, with the beat rate that follows from it.
    pub fn set_period_micros(&mut self, period_micros: Float, bpm: Float)
        ensures
            *final(self) == (ClockData { bpm, period_micros, ..*old(self) }),
    {
        self.bpm = bpm;
        self.period_micros = period_micros;
    }
}

impl TypedValue {
    /// The tag of the type this value belongs to.
    pub open spec fn tag_spec(self) -> ValueTag {
        match self {
            TypedValue::Bool(_) => ValueTag::Bool,
            TypedValue::U8(_) => ValueTag::U8,
            TypedValue::USize(_) => ValueTag::USize,
            TypedValue::ISize(_) => ValueTag::ISize,
            TypedValue::Float(_) => ValueTag::Float,
            TypedValue::ClockData(_) => ValueTag::ClockData,
            TypedValue::TickResched(_) => ValueTag::TickResched,
            TypedValue::TickSched(_) => ValueTag::TickSched,
        }
    }

    #[verifier::when_used_as_spec(tag_spec)]
    pub fn tag(self) -> (t: ValueTag)
        ensures
            t == self.tag_spec(),
    {
        match self {
            TypedValue::Bool(_) => ValueTag::Bool,
            TypedValue::U8(_) => ValueTag::U8,
            TypedValue::USize(_) => ValueTag::USize,
            TypedValue::ISize(_) => ValueTag::ISize,
            TypedValue::Float(_) => ValueTag::Float,
            TypedValue::ClockData(_) => ValueTag::ClockData,
            TypedValue::TickResched(_) => ValueTag::TickResched,
            TypedValue::TickSched(_) => ValueTag::TickSched,
        }
    }
}

impl TypedValue {
    /// The number a `USize` value holds; zero for a value of another type.
    pub open spec fn to_usize_spec(self) -> usize {
        match self {
            TypedValue::USize(n) => n,
            _ => 0,
        }
    }

    #[verifier::when_used_as_spec(to_usize_spec)]
    pub fn to_usize(self) -> (n: usize)
        ensures
            n == self.to_usize_spec(),
    {
        match self {
            TypedValue::USize(n) => n,
            _ => 0,
        }
    }

    /// The number a `U8` value holds; zero for a value of another type.
    pub open spec fn to_u8_spec(self) -> u8 {
        match self {
            TypedValue::U8(n) => n,
            _ => 0,
        }
    }

    #[verifier::when_used_as_spec(to_u8_spec)]
    pub fn to_u8(self) -> (n: u8)
        ensures
            n == self.to_u8_spec(),
    {
        match self {
            TypedValue::U8(n) => n,
            _ => 0,
        }
    }

    /// What a `Bool` value holds; false for a value of another type.
    pub open spec fn to_bool_spec(self) -> bool {
        match self {
            TypedValue::Bool(b) => b,
            _ => false,
        }
    }

    #[verifier::when_used_as_spec(to_bool_spec)]
    pub fn to_bool(self) -> (b: bool)
        ensures
            b == self.to_bool_spec(),
    {
        match self {
            TypedValue::Bool(b) => b,
            _ => false,
        }
    }

    /// What a `TickResched` value holds; `Never` for a value of another type.
    pub open spec fn to_resched_spec(self) -> TickResched {
        match self {
            TypedValue::TickResched(r) => r,
            _ => TickResched::Never,
        }
    }

    #[verifier::when_used_as_spec(to_resched_spec)]
    pub fn to_resched(self) -> (r: TickResched)
        ensures
            r == self.to_resched_spec(),
    {
        match self {
            TypedValue::TickResched(r) => r,
            _ => TickResched::Never,
        }
    }

    /// What a `Float` value holds; zero for a value of another type.
    pub open spec fn to_float_spec(self) -> Float {
        match self {
            TypedValue::Float(f) => f,
            _ => Float { bits: FLOAT_ZERO_BITS },
        }
    }

    #[verifier::when_used_as_spec(to_float_spec)]
    pub fn to_float(self) -> (f: Float)
        ensures
            f == self.to_float_spec(),
    {
        match self {
            TypedValue::Float(f) => f,
            _ => Float { bits: FLOAT_ZERO_BITS },
        }
    }
}

impl ValueTag {
    /// The value a binding of this type reads when nothing else is known.
    pub open spec fn default_spec(self) -> TypedValue {
        match self {
            ValueTag::Bool => TypedValue::Bool(false),
            ValueTag::U8 => TypedValue::U8(0),
            ValueTag::USize => TypedValue::USize(0),
            ValueTag::ISize => TypedValue::ISize(0),
            ValueTag::Float => TypedValue::Float(Float { bits: FLOAT_ZERO_BITS }),
            ValueTag::ClockData => TypedValue::ClockData(
                ClockData {
                    bpm: Float { bits: DEFAULT_BPM_BITS },
                    ppq: DEFAULT_PPQ,
                    period_micros: Float { bits: DEFAULT_PERIOD_MICROS_BITS },
                },
            ),
            ValueTag::TickResched => TypedValue::TickResched(TickResched::Never),
            ValueTag::TickSched => TypedValue::TickSched(TickSched::Unset),
        }
    }

    pub fn default_value(self) -> (v: TypedValue)
        ensures
            v == self.default_spec(),
            v.tag_spec() == self,
    {
        match self {
            ValueTag::Bool => TypedValue::Bool(false),
            ValueTag::U8 => TypedValue::U8(0),
            ValueTag::USize => TypedValue::USize(0),
            ValueTag::ISize => TypedValue::ISize(0),
            ValueTag::Float => TypedValue::Float(Float { bits: FLOAT_ZERO_BITS }),
            ValueTag::ClockData => TypedValue::ClockData(
                ClockData {
                    bpm: Float { bits: DEFAULT_BPM_BITS },
                    ppq: DEFAULT_PPQ,
                    period_micros: Float { bits: DEFAULT_PERIOD_MICROS_BITS },
                },
            ),
            ValueTag::TickResched => TypedValue::TickResched(TickResched::Never),
            ValueTag::TickSched => TypedValue::TickSched(TickSched::Unset),
        }
    }

    /// The human name of the type.
    pub open spec fn name_spec(self) -> Seq<char> {
        match self {
            ValueTag::Bool => "bool"@,
            ValueTag::U8 => "u8"@,
            ValueTag::USize => "usize"@,
            ValueTag::ISize => "isize"@,
            ValueTag::Float => "Float"@,
            ValueTag::ClockData => "ClockData"@,
            ValueTag::TickResched => "TickResched"@,
            ValueTag::TickSched => "TickSched"@,
        }
    }

    pub fn name(self) -> (s: &'static str)
        ensures
            s@ == self.name_spec(),
    {
        match self {
            ValueTag::Bool => "bool",
            ValueTag::U8 => "u8",
            ValueTag::USize => "usize",
            ValueTag::ISize => "isize",
            ValueTag::Float => "Float",
            ValueTag::ClockData => "ClockData",
            ValueTag::TickResched => "TickResched",
            ValueTag::TickSched => "TickSched",
        }
    }
}

impl AccessKind {
    pub open spec fn name_spec(self) -> Seq<char> {
        match self {
            AccessKind::GetOnly => "get"@,
            AccessKind::SetOnly => "set"@,
            AccessKind::GetSet => "getset"@,
        }
    }

    pub fn name(self) -> (s: &'static str)
        ensures
            s@ == self.name_spec(),
    {
        match self {
            AccessKind::GetOnly => "get",
            AccessKind::SetOnly => "set",
            AccessKind::GetSet => "getset",
        }
    }

    /// Whether a binding of this kind can be read.
    pub open spec fn can_get(self) -> bool {
        self != AccessKind::SetOnly
    }

    /// Whether a binding of this kind can be written.
    pub open spec fn can_set(self) -> bool {
        self != AccessKind::GetOnly
    }
}

} // verus!
