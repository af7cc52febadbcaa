//! Typed scalar constants as they appear in literals of a filter.

use vstd::prelude::*;

verus! {

/// A typed constant of the engine.
///
/// Every typed variant may be a null of its type (`None`). The two
/// floating-point variants hold the IEEE 754 bit pattern of the number.
/// `Other` stands for a constant of any other kind (decimals, temporal and
/// nested values, ...). The translation does not look into such a constant
/// and carries it through as it is: `key` is the number under which the
/// caller keeps the constant, `null` says whether it is a null of its kind,
/// and `rendering` shows it in diagnostics.
#[derive(Debug, PartialEq, Eq)]
pub enum ScalarValue {
    Null,
    Boolean(Option<bool>),
    Int8(Option<i8>),
    Int16(Option<i16>),
    Int32(Option<i32>),
    Int64(Option<i64>),
    UInt8(Option<u8>),
    UInt16(Option<u16>),
    UInt32(Option<u32>),
    UInt64(Option<u64>),
    Float32(Option<u32>),
    Float64(Option<u64>),
    Utf8(Option<String>),
    Other { key: usize, null: bool, rendering: String },
}

/// The mathematical content of a [`ScalarValue`].
pub enum ScalarModel {
    Null,
    Boolean(Option<bool>),
    Int8(Option<i8>),
    Int16(Option<i16>),
    Int32(Option<i32>),
    Int64(Option<i64>),
    UInt8(Option<u8>),
    UInt16(Option<u16>),
    UInt32(Option<u32>),
    UInt64(Option<u64>),
    Float32(Option<u32>),
    Float64(Option<u64>),
    Utf8(Option<Seq<char>>),
    Other { key: int, null: bool, rendering: Seq<char> },
}

impl View for ScalarValue {
    type V = ScalarModel;

    open spec fn view(&self) -> ScalarModel {
        match self {
            ScalarValue::Null => ScalarModel::Null,
            ScalarValue::Boolean(v) => ScalarModel::Boolean(*v),
            ScalarValue::Int8(v) => ScalarModel::Int8(*v),
            ScalarValue::Int16(v) => ScalarModel::Int16(*v),
            ScalarValue::Int32(v) => ScalarModel::Int32(*v),
            ScalarValue::Int64(v) => ScalarModel::Int64(*v),
            ScalarValue::UInt8(v) => ScalarModel::UInt8(*v),
            ScalarValue::UInt16(v) => ScalarModel::UInt16(*v),
            ScalarValue::UInt32(v) => ScalarModel::UInt32(*v),
            ScalarValue::UInt64(v) => ScalarModel::UInt64(*v),
            ScalarValue::Float32(v) => ScalarModel::Float32(*v),
            ScalarValue::Float64(v) => ScalarModel::Float64(*v),
            ScalarValue::Utf8(v) => ScalarModel::Utf8(
                match v {
                    Some(s) => Some(s@),
                    None => None,
                },
            ),
            ScalarValue::Other { key, null, rendering } => ScalarModel::Other {
                key: *key as int,
                null: *null,
                rendering: rendering@,
            },
        }
    }
}

impl ScalarModel {
    /// Whether the constant is a null, of whatever kind.
    pub open spec fn is_null(self) -> bool {
        match self {
            ScalarModel::Null => true,
            ScalarModel::Boolean(v) => v is None,
            ScalarModel::Int8(v) => v is None,
            ScalarModel::Int16(v) => v is None,
            ScalarModel::Int32(v) => v is None,
            ScalarModel::Int64(v) => v is None,
            ScalarModel::UInt8(v) => v is None,
            ScalarModel::UInt16(v) => v is None,
            ScalarModel::UInt32(v) => v is None,
            ScalarModel::UInt64(v) => v is None,
            ScalarModel::Float32(v) => v is None,
            ScalarModel::Float64(v) => v is None,
            ScalarModel::Utf8(v) => v is None,
            ScalarModel::Other { null, .. } => null,
        }
    }

    /// Whether the constant can be a member of a list: the scan takes the
    /// members of a list as plain values of the host language, and there is
    /// one for a boolean, an integer of 8 to 64 bits, a float of 32 or 64
    /// bits and a string, none of them null, and for nothing else.
    pub open spec fn is_host_value(self) -> bool {
        match self {
            ScalarModel::Boolean(Some(_)) => true,
            ScalarModel::Int8(Some(_)) => true,
            ScalarModel::Int16(Some(_)) => true,
            ScalarModel::Int32(Some(_)) => true,
            ScalarModel::Int64(Some(_)) => true,
            ScalarModel::UInt8(Some(_)) => true,
            ScalarModel::UInt16(Some(_)) => true,
            ScalarModel::UInt32(Some(_)) => true,
            ScalarModel::UInt64(Some(_)) => true,
            ScalarModel::Float32(Some(_)) => true,
            ScalarModel::Float64(Some(_)) => true,
            ScalarModel::Utf8(Some(_)) => true,
            _ => false,
        }
    }
}

impl ScalarValue {
    /// Whether the constant is a null, of whatever kind.
    pub fn is_null(&self) -> (null: bool)
        ensures
            null == self@.is_null(),
    {
        match self {
            ScalarValue::Null => true,
            ScalarValue::Boolean(v) => v.is_none(),
            ScalarValue::Int8(v) => v.is_none(),
            ScalarValue::Int16(v) => v.is_none(),
            ScalarValue::Int32(v) => v.is_none(),
            ScalarValue::Int64(v) => v.is_none(),
            ScalarValue::UInt8(v) => v.is_none(),
            ScalarValue::UInt16(v) => v.is_none(),
            ScalarValue::UInt32(v) => v.is_none(),
            ScalarValue::UInt64(v) => v.is_none(),
            ScalarValue::Float32(v) => v.is_none(),
            ScalarValue::Float64(v) => v.is_none(),
            ScalarValue::Utf8(v) => v.is_none(),
            ScalarValue::Other { null, .. } => *null,
        }
    }

    /// Whether the constant can be a member of a list.
    pub fn is_host_value(&self) -> (plain: bool)
        ensures
            plain == self@.is_host_value(),
    {
        match self {
            ScalarValue::Boolean(Some(_)) => true,
            ScalarValue::Int8(Some(_)) => true,
            ScalarValue::Int16(Some(_)) => true,
            ScalarValue::Int32(Some(_)) => true,
            ScalarValue::Int64(Some(_)) => true,
            ScalarValue::UInt8(Some(_)) => true,
            ScalarValue::UInt16(Some(_)) => true,
            ScalarValue::UInt32(Some(_)) => true,
            ScalarValue::UInt64(Some(_)) => true,
            ScalarValue::Float32(Some(_)) => true,
            ScalarValue::Float64(Some(_)) => true,
            ScalarValue::Utf8(Some(_)) => true,
            _ => false,
        }
    }
}

impl Clone for ScalarValue {
    fn clone(&self) -> (copy: Self)
        ensures
            copy@ == self@,
    {
        match self {
            ScalarValue::Null => ScalarValue::Null,
            ScalarValue::Boolean(v) => ScalarValue::Boolean(*v),
            ScalarValue::Int8(v) => ScalarValue::Int8(*v),
            ScalarValue::Int16(v) => ScalarValue::Int16(*v),
            ScalarValue::Int32(v) => ScalarValue::Int32(*v),
            ScalarValue::Int64(v) => ScalarValue::Int64(*v),
            ScalarValue::UInt8(v) => ScalarValue::UInt8(*v),
            ScalarValue::UInt16(v) => ScalarValue::UInt16(*v),
            ScalarValue::UInt32(v) => ScalarValue::UInt32(*v),
            ScalarValue::UInt64(v) => ScalarValue::UInt64(*v),
            ScalarValue::Float32(v) => ScalarValue::Float32(*v),
            ScalarValue::Float64(v) => ScalarValue::Float64(*v),
            ScalarValue::Utf8(v) => ScalarValue::Utf8(
                match v {
                    Some(s) => Some(s.clone()),
                    None => None,
                },
            ),
            ScalarValue::Other { key, null, rendering } => ScalarValue::Other {
                key: *key,
                null: *null,
                rendering: rendering.clone(),
            },
        }
    }
}

} // verus!
