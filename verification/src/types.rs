//! The primitive data types of stream attributes and their unification rule.

use vstd::prelude::*;

verus! {

/// Width and signedness of an integer attribute.
#[derive(Clone, Copy, Debug, PartialEq, Eq, Structural, Hash)]
pub enum IntType {
    Signed8,
    Unsigned8,
    Signed16,
    Unsigned16,
    Signed32,
    Unsigned32,
    Signed64,
    Unsigned64,
}

impl IntType {
    /// The number of bits of the type.
    pub open spec fn bits(self) -> nat {
        match self {
            IntType::Signed8 | IntType::Unsigned8 => 8,
            IntType::Signed16 | IntType::Unsigned16 => 16,
            IntType::Signed32 | IntType::Unsigned32 => 32,
            IntType::Signed64 | IntType::Unsigned64 => 64,
        }
    }

    /// The least value of the type.
    pub open spec fn min_value(self) -> int {
        match self {
            IntType::Signed8 => -0x80,
            IntType::Signed16 => -0x8000,
            IntType::Signed32 => -0x8000_0000,
            IntType::Signed64 => -0x8000_0000_0000_0000,
            _ => 0,
        }
    }

    /// The number of values of the type: 2 to the power of its width.
    pub open spec fn value_count(self) -> int {
        self.max_value() - self.min_value() + 1
    }

    /// The greatest value of the type.
    pub open spec fn max_value(self) -> int {
        match self {
            IntType::Signed8 => 0x7f,
            IntType::Unsigned8 => 0xff,
            IntType::Signed16 => 0x7fff,
            IntType::Unsigned16 => 0xffff,
            IntType::Signed32 => 0x7fff_ffff,
            IntType::Unsigned32 => 0xffff_ffff,
            IntType::Signed64 => 0x7fff_ffff_ffff_ffff,
            IntType::Unsigned64 => 0xffff_ffff_ffff_ffff,
        }
    }
}

/// Width of a floating-point attribute.
#[derive(Clone, Copy, Debug, PartialEq, Eq, Structural, Hash)]
pub enum FloatType {
    Bit32,
    Bit64,
}

impl FloatType {
    /// The number of bits of the type.
    pub open spec fn bits(self) -> nat {
        match self {
            FloatType::Bit32 => 32,
            FloatType::Bit64 => 64,
        }
    }
}

/// The type tag of a value. `Undefined` stands for a type that is not known
/// yet; it unifies with every type.
#[derive(Clone, Copy, Debug, PartialEq, Eq, Structural, Hash)]
pub enum NesType {
    Undefined,
    Bool,
    Char,
    Int(IntType),
    Float(FloatType),
}

/// Unification of two type tags: the concrete side where the other one is
/// `Undefined`, the common tag where both agree, nothing otherwise.
pub open spec fn resolve(a: NesType, b: NesType) -> Option<NesType> {
    if a == NesType::Undefined {
        Some(b)
    } else if b == NesType::Undefined || a == b {
        Some(a)
    } else {
        None
    }
}

impl NesType {
    /// Whether values of this type are numbers.
    pub open spec fn spec_is_numeric(self) -> bool {
        self is Int || self is Float
    }

    /// Unifies two type tags.
    pub fn try_resolve(a: NesType, b: NesType) -> (r: Option<NesType>)
        ensures
            r == resolve(a, b),
    {
        if a == NesType::Undefined {
            Some(b)
        } else if b == NesType::Undefined || a == b {
            Some(a)
        } else {
            None
        }
    }

    /// Whether values of this type are numbers.
    #[verifier::when_used_as_spec(spec_is_numeric)]
    pub fn is_numeric(self) -> (r: bool)
        ensures
            r == self.spec_is_numeric(),
    {
        match self {
            NesType::Int(_) | NesType::Float(_) => true,
            _ => false,
        }
    }
}

/// Unification does not depend on the order of its arguments.
pub proof fn lemma_resolve_commutative(a: NesType, b: NesType)
    ensures
        resolve(a, b) == resolve(b, a),
{
}

/// `Undefined` unifies with every type and yields that type.
pub proof fn lemma_resolve_undefined(x: NesType)
    ensures
        resolve(NesType::Undefined, x) == Some(x),
        resolve(x, NesType::Undefined) == Some(x),
{
}

/// Every type unifies with itself.
pub proof fn lemma_resolve_same(a: NesType)
    ensures
        resolve(a, a) == Some(a),
{
}

/// Two different concrete types do not unify.
pub proof fn lemma_resolve_mismatch(a: NesType, b: NesType)
    requires
        a != b,
        a != NesType::Undefined,
        b != NesType::Undefined,
    ensures
        resolve(a, b) is None,
{
}

} // verus!
