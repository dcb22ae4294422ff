//! Constant values inside an expression.

use crate::text::{bool_text, bool_to_string, decimal, i64_to_string};
use crate::types::{IntType, NesType};
use vstd::prelude::*;

verus! {

/// A constant: its text and the type that the text is read as.
#[derive(Debug, PartialEq)]
pub struct Literal {
    value: String,
    data_type: NesType,
}

/// What a [`Literal`] stands for.
pub ghost struct LiteralModel {
    pub value: Seq<char>,
    pub data_type: NesType,
}

impl View for Literal {
    type V = LiteralModel;

    closed spec fn view(&self) -> LiteralModel {
        LiteralModel { value: self.value@, data_type: self.data_type }
    }
}

impl Clone for Literal {
    fn clone(&self) -> (r: Self)
        ensures
            r@ == self@,
    {
        Self { value: self.value.clone(), data_type: self.data_type }
    }
}

impl Literal {
    /// A constant with the given type and with the text that the value
    /// gives as a string.
    pub fn typed<S: Into<String>>(value: S, data_type: NesType) -> (r: Self)
        ensures
            exists|text: String| #[trigger]
                call_ensures(S::into, (value,), text) && r@ == (LiteralModel {
                    value: text@,
                    data_type,
                }),
    {
        Self { value: value.into(), data_type }
    }

    /// A constant with the given text and type.
    pub(crate) fn with_text(value: String, data_type: NesType) -> (r: Self)
        ensures
            r@ == (LiteralModel { value: value@, data_type }),
    {
        Self { value, data_type }
    }

    /// The text of the constant.
    pub fn value(&self) -> (r: &str)
        ensures
            r@ == self@.value,
    {
        self.value.as_str()
    }

    /// The type of the constant.
    pub fn data_type(&self) -> (r: NesType)
        ensures
            r == self@.data_type,
    {
        self.data_type
    }

    /// The constant of a 32-bit signed number.
    pub fn from_i32(value: i32) -> (r: Self)
        ensures
            r@ == (LiteralModel {
                value: decimal(value as int),
                data_type: NesType::Int(IntType::Signed32),
            }),
    {
        Self { value: i64_to_string(value as i64), data_type: NesType::Int(IntType::Signed32) }
    }

    /// The constant of a 64-bit signed number.
    pub fn from_i64(value: i64) -> (r: Self)
        ensures
            r@ == (LiteralModel {
                value: decimal(value as int),
                data_type: NesType::Int(IntType::Signed64),
            }),
    {
        Self { value: i64_to_string(value), data_type: NesType::Int(IntType::Signed64) }
    }

    /// The constant of a truth value.
    pub fn from_bool(value: bool) -> (r: Self)
        ensures
            r@ == (LiteralModel { value: bool_text(value), data_type: NesType::Bool }),
    {
        Self { value: bool_to_string(value), data_type: NesType::Bool }
    }
}

/// What the conversion gives is stated over views at the conversion itself:
/// no specification function can build the string that the result holds.
impl vstd::std_specs::convert::FromSpecImpl<i32> for Literal {
    open spec fn obeys_from_spec() -> bool {
        false
    }

    open spec fn from_spec(value: i32) -> Literal {
        arbitrary()
    }
}

impl From<i32> for Literal {
    fn from(value: i32) -> (r: Literal)
        ensures
            r@ == (LiteralModel {
                value: decimal(value as int),
                data_type: NesType::Int(IntType::Signed32),
            }),
    {
        Literal::from_i32(value)
    }
}

/// What the conversion gives is stated over views at the conversion itself:
/// no specification function can build the string that the result holds.
impl vstd::std_specs::convert::FromSpecImpl<i64> for Literal {
    open spec fn obeys_from_spec() -> bool {
        false
    }

    open spec fn from_spec(value: i64) -> Literal {
        arbitrary()
    }
}

impl From<i64> for Literal {
    fn from(value: i64) -> (r: Literal)
        ensures
            r@ == (LiteralModel {
                value: decimal(value as int),
                data_type: NesType::Int(IntType::Signed64),
            }),
    {
        Literal::from_i64(value)
    }
}

/// What the conversion gives is stated over views at the conversion itself:
/// no specification function can build the string that the result holds.
impl vstd::std_specs::convert::FromSpecImpl<bool> for Literal {
    open spec fn obeys_from_spec() -> bool {
        false
    }

    open spec fn from_spec(value: bool) -> Literal {
        arbitrary()
    }
}

impl From<bool> for Literal {
    fn from(value: bool) -> (r: Literal)
        ensures
            r@ == (LiteralModel { value: bool_text(value), data_type: NesType::Bool }),
    {
        Literal::from_bool(value)
    }
}

} // verus!
