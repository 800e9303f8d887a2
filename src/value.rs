//! Opaque tagged handles to runtime objects, and the runtime's type tags.

use vstd::prelude::*;

verus! {

/// A machine word that refers to an object of the embedded runtime (or
/// encodes an immediate such as `false`, which is the zero word).
#[derive(Clone, Copy, PartialEq, Eq, Structural, Debug)]
pub struct Value {
    bits: u64,
}

impl View for Value {
    type V = u64;

    closed spec fn view(&self) -> u64 {
        self.bits
    }
}

impl Value {
    /// Wraps a raw word; the round trip through `to_bits` is exact.
    pub fn from_bits(bits: u64) -> (r: Value)
        ensures
            r@ == bits,
    {
        Value { bits }
    }

    /// The raw word.
    pub fn to_bits(self) -> (r: u64)
        ensures
            r == self@,
    {
        self.bits
    }
}

/// A handle that is never the zero word, so that zero can stand for absence.
#[derive(Clone, Copy, PartialEq, Eq, Structural, Debug)]
pub struct NonZeroValue {
    value: Value,
}

impl View for NonZeroValue {
    type V = u64;

    closed spec fn view(&self) -> u64 {
        self.value@
    }
}

impl NonZeroValue {
    #[verifier::type_invariant]
    spec fn inv(self) -> bool {
        self.value@ != 0
    }

    /// `Some` exactly when `value` is not the zero word.
    pub fn new(value: Value) -> (r: Option<NonZeroValue>)
        ensures
            r.is_some() <==> value@ != 0,
            r matches Some(n) ==> n@ == value@,
    {
        if value.bits != 0 {
            Some(NonZeroValue { value })
        } else {
            None
        }
    }

    /// The handle with its brand of non-zero removed.
    pub fn get(self) -> (r: Value)
        ensures
            r@ == self@,
            r@ != 0,
    {
        proof {
            use_type_invariant(&self);
        }
        self.value
    }
}

/// The representation tag that the runtime reports for an object.
#[derive(Clone, Copy, PartialEq, Eq, Structural, Debug)]
pub enum ValueType {
    Empty,
    Object,
    Class,
    Module,
    Float,
    String,
    Regexp,
    Array,
    Hash,
    Struct,
    Bignum,
    File,
    Data,
    Match,
    Complex,
    Rational,
    Nil,
    True,
    False,
    Symbol,
    Fixnum,
    Undef,
    IMemo,
    Node,
    IClass,
    Zombie,
    Moved,
}

/// The runtime's numeric code of each tag.
pub open spec fn type_code(t: ValueType) -> u32 {
    match t {
        ValueType::Empty => 0x00,
        ValueType::Object => 0x01,
        ValueType::Class => 0x02,
        ValueType::Module => 0x03,
        ValueType::Float => 0x04,
        ValueType::String => 0x05,
        ValueType::Regexp => 0x06,
        ValueType::Array => 0x07,
        ValueType::Hash => 0x08,
        ValueType::Struct => 0x09,
        ValueType::Bignum => 0x0a,
        ValueType::File => 0x0b,
        ValueType::Data => 0x0c,
        ValueType::Match => 0x0d,
        ValueType::Complex => 0x0e,
        ValueType::Rational => 0x0f,
        ValueType::Nil => 0x11,
        ValueType::True => 0x12,
        ValueType::False => 0x13,
        ValueType::Symbol => 0x14,
        ValueType::Fixnum => 0x15,
        ValueType::Undef => 0x16,
        ValueType::IMemo => 0x1a,
        ValueType::Node => 0x1b,
        ValueType::IClass => 0x1c,
        ValueType::Zombie => 0x1d,
        ValueType::Moved => 0x1e,
    }
}

impl ValueType {
    /// The runtime's numeric code of this tag.
    pub fn code(self) -> (r: u32)
        ensures
            r == type_code(self),
    {
        match self {
            ValueType::Empty => 0x00,
            ValueType::Object => 0x01,
            ValueType::Class => 0x02,
            ValueType::Module => 0x03,
            ValueType::Float => 0x04,
            ValueType::String => 0x05,
            ValueType::Regexp => 0x06,
            ValueType::Array => 0x07,
            ValueType::Hash => 0x08,
            ValueType::Struct => 0x09,
            ValueType::Bignum => 0x0a,
            ValueType::File => 0x0b,
            ValueType::Data => 0x0c,
            ValueType::Match => 0x0d,
            ValueType::Complex => 0x0e,
            ValueType::Rational => 0x0f,
            ValueType::Nil => 0x11,
            ValueType::True => 0x12,
            ValueType::False => 0x13,
            ValueType::Symbol => 0x14,
            ValueType::Fixnum => 0x15,
            ValueType::Undef => 0x16,
            ValueType::IMemo => 0x1a,
            ValueType::Node => 0x1b,
            ValueType::IClass => 0x1c,
            ValueType::Zombie => 0x1d,
            ValueType::Moved => 0x1e,
        }
    }

    /// Decodes a tag code reported by the runtime; `None` for a code that
    /// names no tag.
    pub fn from_code(code: u32) -> (r: Option<ValueType>)
        ensures
            r matches Some(t) ==> type_code(t) == code,
            r.is_none() ==> forall|t: ValueType| type_code(t) != code,
    {
        match code {
            0x00 => Some(ValueType::Empty),
            0x01 => Some(ValueType::Object),
            0x02 => Some(ValueType::Class),
            0x03 => Some(ValueType::Module),
            0x04 => Some(ValueType::Float),
            0x05 => Some(ValueType::String),
            0x06 => Some(ValueType::Regexp),
            0x07 => Some(ValueType::Array),
            0x08 => Some(ValueType::Hash),
            0x09 => Some(ValueType::Struct),
            0x0a => Some(ValueType::Bignum),
            0x0b => Some(ValueType::File),
            0x0c => Some(ValueType::Data),
            0x0d => Some(ValueType::Match),
            0x0e => Some(ValueType::Complex),
            0x0f => Some(ValueType::Rational),
            0x11 => Some(ValueType::Nil),
            0x12 => Some(ValueType::True),
            0x13 => Some(ValueType::False),
            0x14 => Some(ValueType::Symbol),
            0x15 => Some(ValueType::Fixnum),
            0x16 => Some(ValueType::Undef),
            0x1a => Some(ValueType::IMemo),
            0x1b => Some(ValueType::Node),
            0x1c => Some(ValueType::IClass),
            0x1d => Some(ValueType::Zombie),
            0x1e => Some(ValueType::Moved),
            _ => None,
        }
    }
}

/// Distinct tags have distinct codes, so a tag check on codes is a tag check
/// on tags.
pub proof fn lemma_type_code_injective(a: ValueType, b: ValueType)
    ensures
        type_code(a) == type_code(b) <==> a == b,
{
}

} // verus!
