use vstd::prelude::*;
use vstd::string::*;

use crate::records::c_bytes;
use crate::text::{
    c_array_text, cstr_text, cstr_to_owned, decimal, first_zero, i64_decimal, push_decimal,
    signed_decimal, u64_decimal, lossy_decoding,
};

verus! {

/// Statistic type code: a boolean.
pub const FMD_TYPE_BOOL: u32 = 0;

/// Statistic type code: a signed 32-bit integer.
pub const FMD_TYPE_INT32: u32 = 1;

/// Statistic type code: an unsigned 32-bit integer.
pub const FMD_TYPE_UINT32: u32 = 2;

/// Statistic type code: a signed 64-bit integer.
pub const FMD_TYPE_INT64: u32 = 3;

/// Statistic type code: an unsigned 64-bit integer.
pub const FMD_TYPE_UINT64: u32 = 4;

/// Statistic type code: a string.
pub const FMD_TYPE_STRING: u32 = 5;

/// Statistic type code: a time in nanoseconds.
pub const FMD_TYPE_TIME: u32 = 6;

/// Statistic type code: a size in bytes.
pub const FMD_TYPE_SIZE: u32 = 7;

/// The value union of a statistic record, read as each of its members.
/// `str_` is the string the pointer member refers to (`None` for a null
/// pointer); it is read only for a string statistic and is `None` otherwise.
pub struct RawStatValue {
    pub bool_: i32,
    pub i32_: i32,
    pub ui32: u32,
    pub i64_: i64,
    pub ui64: u64,
    pub str_: Option<Vec<u8>>,
}

/// A statistic record as `libfmd_adm` returns it; `name` and `description`
/// are the bytes of its fixed-size character arrays.
pub struct RawStat {
    pub name: Vec<u8>,
    pub description: Vec<u8>,
    pub type_code: u32,
    pub value: RawStatValue,
}

/// Whether a statistic of this type code carries a string, so that the
/// caller must read the string its value points to.
pub fn stat_holds_string(type_code: u32) -> (r: bool)
    ensures
        r == (type_code == FMD_TYPE_STRING),
{
    type_code == FMD_TYPE_STRING
}

/// The value of a statistic.
#[derive(Debug, Clone)]
pub enum StatValue {
    Bool(bool),
    Int32(i32),
    UInt32(u32),
    Int64(i64),
    UInt64(u64),
    /// A time value in nanoseconds.
    Time(u64),
    /// A size value in bytes.
    Size(u64),
    String(String),
    /// A stat type not recognized by this crate.
    Unknown { type_code: u32, raw: u64 },
}

impl StatValue {
    /// `self` is the value of a record with this type code and value union.
    pub open spec fn is_from_raw(self, type_code: u32, raw: RawStatValue) -> bool {
        if type_code == FMD_TYPE_BOOL {
            self == StatValue::Bool(raw.bool_ != 0)
        } else if type_code == FMD_TYPE_INT32 {
            self == StatValue::Int32(raw.i32_)
        } else if type_code == FMD_TYPE_UINT32 {
            self == StatValue::UInt32(raw.ui32)
        } else if type_code == FMD_TYPE_INT64 {
            self == StatValue::Int64(raw.i64_)
        } else if type_code == FMD_TYPE_UINT64 {
            self == StatValue::UInt64(raw.ui64)
        } else if type_code == FMD_TYPE_TIME {
            self == StatValue::Time(raw.ui64)
        } else if type_code == FMD_TYPE_SIZE {
            self == StatValue::Size(raw.ui64)
        } else if type_code == FMD_TYPE_STRING {
            self matches StatValue::String(s) && s@ == cstr_text(raw.str_.deep_view())
        } else {
            self == StatValue::Unknown { type_code, raw: raw.ui64 }
        }
    }

    /// Decodes the value union of a record by its type code.
    pub fn from_raw(type_code: u32, raw: &RawStatValue) -> (r: StatValue)
        ensures
            r.is_from_raw(type_code, *raw),
    {
        if type_code == FMD_TYPE_BOOL {
            StatValue::Bool(raw.bool_ != 0)
        } else if type_code == FMD_TYPE_INT32 {
            StatValue::Int32(raw.i32_)
        } else if type_code == FMD_TYPE_UINT32 {
            StatValue::UInt32(raw.ui32)
        } else if type_code == FMD_TYPE_INT64 {
            StatValue::Int64(raw.i64_)
        } else if type_code == FMD_TYPE_UINT64 {
            StatValue::UInt64(raw.ui64)
        } else if type_code == FMD_TYPE_TIME {
            StatValue::Time(raw.ui64)
        } else if type_code == FMD_TYPE_SIZE {
            StatValue::Size(raw.ui64)
        } else if type_code == FMD_TYPE_STRING {
            StatValue::String(cstr_to_owned(c_bytes(&raw.str_)))
        } else {
            StatValue::Unknown { type_code, raw: raw.ui64 }
        }
    }

    /// The text that `Display` writes for the value.
    pub open spec fn display(self) -> Seq<char> {
        match self {
            StatValue::Bool(v) => if v {
                "true"@
            } else {
                "false"@
            },
            StatValue::Int32(v) => signed_decimal(v as int),
            StatValue::UInt32(v) => decimal(v as nat),
            StatValue::Int64(v) => signed_decimal(v as int),
            StatValue::UInt64(v) => decimal(v as nat),
            StatValue::Time(v) => decimal(v as nat) + "ns"@,
            StatValue::Size(v) => decimal(v as nat) + "B"@,
            StatValue::String(s) => s@,
            StatValue::Unknown { type_code, raw } => "unknown(type="@ + decimal(type_code as nat)
                + ", raw="@ + decimal(raw as nat) + ")"@,
        }
    }

    /// Renders the value as `Display` does: booleans and integers plainly,
    /// times with the suffix `ns`, sizes with `B`, strings as they are, and
    /// unknown values as `unknown(type=<code>, raw=<bits>)`.
    pub fn to_string(&self) -> (r: String)
        ensures
            r@ == self.display(),
    {
        match self {
            StatValue::Bool(v) => if *v {
                String::from_str("true")
            } else {
                String::from_str("false")
            },
            StatValue::Int32(v) => i64_decimal(*v as i64),
            StatValue::UInt32(v) => u64_decimal(*v as u64),
            StatValue::Int64(v) => i64_decimal(*v),
            StatValue::UInt64(v) => u64_decimal(*v),
            StatValue::Time(v) => {
                let mut s = u64_decimal(*v);
                s.append("ns");
                s
            },
            StatValue::Size(v) => {
                let mut s = u64_decimal(*v);
                s.append("B");
                s
            },
            StatValue::String(v) => v.clone(),
            StatValue::Unknown { type_code, raw } => {
                let mut s = String::from_str("unknown(type=");
                push_decimal(&mut s, *type_code as u64);
                s.append(", raw=");
                push_decimal(&mut s, *raw);
                s.append(")");
                s
            },
        }
    }
}

/// A named statistic of the daemon or of one of its modules.
#[derive(Debug, Clone)]
pub struct Stat {
    pub name: String,
    pub description: String,
    pub value: StatValue,
}

impl Stat {
    /// `self` is what the record `raw` describes.
    pub open spec fn is_from_raw(self, raw: RawStat) -> bool {
        &&& self.name@ == lossy_decoding(raw.name@.take(first_zero(raw.name@)))
        &&& self.description@ == lossy_decoding(raw.description@.take(first_zero(raw.description@)))
        &&& self.value.is_from_raw(raw.type_code, raw.value)
    }

    /// Converts a statistic record: the name and description are the text
    /// before the first NUL of their arrays, the value is decoded by type code.
    pub fn from_raw(raw: &RawStat) -> (r: Stat)
        ensures
            r.is_from_raw(*raw),
    {
        Stat {
            name: c_array_text(raw.name.as_slice()),
            description: c_array_text(raw.description.as_slice()),
            value: StatValue::from_raw(raw.type_code, &raw.value),
        }
    }
}

} // verus!
