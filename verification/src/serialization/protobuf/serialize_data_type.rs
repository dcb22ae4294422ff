//! Descriptions of data types.

use crate::serialization::protobuf::nes::{FloatDetails, IntegerDetails, SerializableDataType};
use crate::types::{FloatType, IntType, NesType};
use vstd::prelude::*;

verus! {

/// A value between the least signed and the greatest unsigned 64-bit number,
/// read as a signed 64-bit number with the same bits.
pub open spec fn as_signed_64(v: int) -> i64 {
    if v > 0x7fff_ffff_ffff_ffff {
        (v - 0x1_0000_0000_0000_0000) as i64
    } else {
        v as i64
    }
}

/// Width and bounds of an integer type, each bound read as a signed 64-bit
/// number.
pub open spec fn integer_details(t: IntType) -> IntegerDetails {
    IntegerDetails {
        bits: t.bits() as u64,
        upper_bound: as_signed_64(t.max_value()),
        lower_bound: as_signed_64(t.min_value()),
    }
}

/// The description of a data type.
pub open spec fn serialized_data_type(data_type: NesType) -> SerializableDataType {
    match data_type {
        NesType::Undefined => SerializableDataType::Undefined,
        NesType::Char => SerializableDataType::Char,
        NesType::Bool => SerializableDataType::Boolean,
        NesType::Int(t) => SerializableDataType::Integer(integer_details(t)),
        NesType::Float(t) => SerializableDataType::Float(
            FloatDetails { bits: t.bits() as u64 },
        ),
    }
}

fn int_detail_helper(int_type: IntType) -> (r: IntegerDetails)
    ensures
        r == integer_details(int_type),
{
    match int_type {
        IntType::Signed8 => IntegerDetails { bits: 8, upper_bound: 127, lower_bound: -128 },
        IntType::Unsigned8 => IntegerDetails { bits: 8, upper_bound: 255, lower_bound: 0 },
        IntType::Signed16 => IntegerDetails { bits: 16, upper_bound: 32767, lower_bound: -32768 },
        IntType::Unsigned16 => IntegerDetails { bits: 16, upper_bound: 65535, lower_bound: 0 },
        IntType::Signed32 => IntegerDetails {
            bits: 32,
            upper_bound: 2147483647,
            lower_bound: -2147483648,
        },
        IntType::Unsigned32 => IntegerDetails { bits: 32, upper_bound: 4294967295, lower_bound: 0 },
        IntType::Signed64 => IntegerDetails {
            bits: 64,
            upper_bound: 9223372036854775807,
            lower_bound: -9223372036854775808,
        },
        IntType::Unsigned64 => IntegerDetails { bits: 64, upper_bound: -1, lower_bound: 0 },
    }
}

fn float_detail_helper(float_type: FloatType) -> (r: FloatDetails)
    ensures
        r.bits == float_type.bits(),
{
    match float_type {
        FloatType::Bit32 => FloatDetails { bits: 32 },
        FloatType::Bit64 => FloatDetails { bits: 64 },
    }
}

/// Describes a data type: its kind, and for a number type its width and,
/// for an integer type, its bounds.
pub fn serialize_data_type(data_type: NesType) -> (r: SerializableDataType)
    ensures
        r == serialized_data_type(data_type),
{
    match data_type {
        NesType::Undefined => SerializableDataType::Undefined,
        NesType::Char => SerializableDataType::Char,
        NesType::Bool => SerializableDataType::Boolean,
        NesType::Int(t) => SerializableDataType::Integer(int_detail_helper(t)),
        NesType::Float(t) => SerializableDataType::Float(float_detail_helper(t)),
    }
}

} // verus!
