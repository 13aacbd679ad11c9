//! The element types of primitive arrays, as `newarray` names them.

use vstd::prelude::*;

verus! {

pub const T_BOOLEAN: u8 = 4;
pub const T_CHAR: u8 = 5;
pub const T_FLOAT: u8 = 6;
pub const T_DOUBLE: u8 = 7;
pub const T_BYTE: u8 = 8;
pub const T_SHORT: u8 = 9;
pub const T_INT: u8 = 10;
pub const T_LONG: u8 = 11;

/// The element type of a primitive array.
#[derive(Debug, Copy, Clone, PartialEq, Eq, Structural)]
pub enum ArrayType {
    Boolean,
    Char,
    Float,
    Double,
    Byte,
    Short,
    Int,
    Long,
}

/// The `newarray` code of an array type.
pub open spec fn array_type_code(t: ArrayType) -> u8 {
    match t {
        ArrayType::Boolean => T_BOOLEAN,
        ArrayType::Char => T_CHAR,
        ArrayType::Float => T_FLOAT,
        ArrayType::Double => T_DOUBLE,
        ArrayType::Byte => T_BYTE,
        ArrayType::Short => T_SHORT,
        ArrayType::Int => T_INT,
        ArrayType::Long => T_LONG,
    }
}

/// The array type with the given `newarray` code, for codes from
/// `T_BOOLEAN` to `T_LONG`.
pub open spec fn spec_array_type(value: u8) -> ArrayType {
    if value == T_BOOLEAN {
        ArrayType::Boolean
    } else if value == T_CHAR {
        ArrayType::Char
    } else if value == T_FLOAT {
        ArrayType::Float
    } else if value == T_DOUBLE {
        ArrayType::Double
    } else if value == T_BYTE {
        ArrayType::Byte
    } else if value == T_SHORT {
        ArrayType::Short
    } else if value == T_INT {
        ArrayType::Int
    } else {
        ArrayType::Long
    }
}

impl ArrayType {
    /// The array type with the given `newarray` code, if it is one.
    pub fn from(value: u8) -> (r: Option<ArrayType>)
        ensures
            match r {
                Some(t) => T_BOOLEAN <= value <= T_LONG && array_type_code(t) == value && t
                    == spec_array_type(value),
                None => value < T_BOOLEAN || value > T_LONG,
            },
    {
        if value < T_BOOLEAN || value > T_LONG {
            return None;
        }
        Some(ArrayType::from_unchecked(value))
    }

    /// The array type with the given code, which must be a `newarray` code.
    pub fn from_unchecked(value: u8) -> (r: ArrayType)
        requires
            T_BOOLEAN <= value <= T_LONG,
        ensures
            array_type_code(r) == value,
            r == spec_array_type(value),
    {
        match value {
            4 => ArrayType::Boolean,
            5 => ArrayType::Char,
            6 => ArrayType::Float,
            7 => ArrayType::Double,
            8 => ArrayType::Byte,
            9 => ArrayType::Short,
            10 => ArrayType::Int,
            _ => ArrayType::Long,
        }
    }

    /// The `newarray` code of this array type.
    pub fn code(&self) -> (r: u8)
        ensures
            r == array_type_code(*self),
    {
        match self {
            ArrayType::Boolean => T_BOOLEAN,
            ArrayType::Char => T_CHAR,
            ArrayType::Float => T_FLOAT,
            ArrayType::Double => T_DOUBLE,
            ArrayType::Byte => T_BYTE,
            ArrayType::Short => T_SHORT,
            ArrayType::Int => T_INT,
            ArrayType::Long => T_LONG,
        }
    }
}

/// Reading back the code of an array type gives the same array type.
pub proof fn law_array_type_code_roundtrip(t: ArrayType)
    ensures
        T_BOOLEAN <= array_type_code(t) <= T_LONG,
        forall|u: ArrayType| array_type_code(u) == array_type_code(t) ==> u == t,
{
}

} // verus!
