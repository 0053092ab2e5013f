//! The size and kind of the scalar types that the type tables translate,
//! described independently of the tables, and the laws that the tables keep
//! each type's layout.

use vstd::prelude::*;
use crate::filewriter::{array_spec, pointer_spec, simple_type_spec, LanguageType, TranslatorView};
use crate::text::{decimal, digit_char};
use crate::typemap::{cpp_map, cs_map, py_map};

verus! {

/// The kind of a scalar value.
#[derive(PartialEq, Eq, Structural)]
pub enum Kind {
    Signed,
    Unsigned,
    Float,
    Bool,
}

/// The layout of a scalar: its size in bytes and its kind.
pub struct Scalar {
    pub size: nat,
    pub kind: Kind,
}

/// The layout of a Rust scalar type (`c_long` and `c_ulong` taken as 8 bytes, as on LP64 targets).
pub open spec fn rust_scalar(t: Seq<char>) -> Option<Scalar> {
    if t == "bool"@ {
        Some(Scalar { size: 1, kind: Kind::Bool })
    } else if t == "c_char"@ {
        Some(Scalar { size: 1, kind: Kind::Signed })
    } else if t == "i8"@ {
        Some(Scalar { size: 1, kind: Kind::Signed })
    } else if t == "c_schar"@ {
        Some(Scalar { size: 1, kind: Kind::Signed })
    } else if t == "u8"@ {
        Some(Scalar { size: 1, kind: Kind::Unsigned })
    } else if t == "c_uchar"@ {
        Some(Scalar { size: 1, kind: Kind::Unsigned })
    } else if t == "i16"@ {
        Some(Scalar { size: 2, kind: Kind::Signed })
    } else if t == "c_short"@ {
        Some(Scalar { size: 2, kind: Kind::Signed })
    } else if t == "u16"@ {
        Some(Scalar { size: 2, kind: Kind::Unsigned })
    } else if t == "c_ushort"@ {
        Some(Scalar { size: 2, kind: Kind::Unsigned })
    } else if t == "i32"@ {
        Some(Scalar { size: 4, kind: Kind::Signed })
    } else if t == "c_int"@ {
        Some(Scalar { size: 4, kind: Kind::Signed })
    } else if t == "u32"@ {
        Some(Scalar { size: 4, kind: Kind::Unsigned })
    } else if t == "c_uint"@ {
        Some(Scalar { size: 4, kind: Kind::Unsigned })
    } else if t == "i64"@ {
        Some(Scalar { size: 8, kind: Kind::Signed })
    } else if t == "c_long"@ {
        Some(Scalar { size: 8, kind: Kind::Signed })
    } else if t == "c_longlong"@ {
        Some(Scalar { size: 8, kind: Kind::Signed })
    } else if t == "u64"@ {
        Some(Scalar { size: 8, kind: Kind::Unsigned })
    } else if t == "c_ulong"@ {
        Some(Scalar { size: 8, kind: Kind::Unsigned })
    } else if t == "c_ulonglong"@ {
        Some(Scalar { size: 8, kind: Kind::Unsigned })
    } else if t == "f32"@ {
        Some(Scalar { size: 4, kind: Kind::Float })
    } else if t == "c_float"@ {
        Some(Scalar { size: 4, kind: Kind::Float })
    } else if t == "f64"@ {
        Some(Scalar { size: 8, kind: Kind::Float })
    } else if t == "c_double"@ {
        Some(Scalar { size: 8, kind: Kind::Float })
    } else {
        None
    }
}

/// The layout of a C++ scalar type name.
pub open spec fn cpp_scalar(t: Seq<char>) -> Option<Scalar> {
    if t == "bool"@ {
        Some(Scalar { size: 1, kind: Kind::Bool })
    } else if t == "signed char"@ {
        Some(Scalar { size: 1, kind: Kind::Signed })
    } else if t == "int8_t"@ {
        Some(Scalar { size: 1, kind: Kind::Signed })
    } else if t == "unsigned char"@ {
        Some(Scalar { size: 1, kind: Kind::Unsigned })
    } else if t == "uint8_t"@ {
        Some(Scalar { size: 1, kind: Kind::Unsigned })
    } else if t == "short"@ {
        Some(Scalar { size: 2, kind: Kind::Signed })
    } else if t == "int16_t"@ {
        Some(Scalar { size: 2, kind: Kind::Signed })
    } else if t == "unsigned short"@ {
        Some(Scalar { size: 2, kind: Kind::Unsigned })
    } else if t == "uint16_t"@ {
        Some(Scalar { size: 2, kind: Kind::Unsigned })
    } else if t == "int"@ {
        Some(Scalar { size: 4, kind: Kind::Signed })
    } else if t == "int32_t"@ {
        Some(Scalar { size: 4, kind: Kind::Signed })
    } else if t == "unsigned int"@ {
        Some(Scalar { size: 4, kind: Kind::Unsigned })
    } else if t == "uint32_t"@ {
        Some(Scalar { size: 4, kind: Kind::Unsigned })
    } else if t == "long long int"@ {
        Some(Scalar { size: 8, kind: Kind::Signed })
    } else if t == "int64_t"@ {
        Some(Scalar { size: 8, kind: Kind::Signed })
    } else if t == "unsigned long long int"@ {
        Some(Scalar { size: 8, kind: Kind::Unsigned })
    } else if t == "uint64_t"@ {
        Some(Scalar { size: 8, kind: Kind::Unsigned })
    } else if t == "float"@ {
        Some(Scalar { size: 4, kind: Kind::Float })
    } else if t == "double"@ {
        Some(Scalar { size: 8, kind: Kind::Float })
    } else {
        None
    }
}

/// The layout of a Python ctypes scalar name.
pub open spec fn py_scalar(t: Seq<char>) -> Option<Scalar> {
    if t == "c_bool"@ {
        Some(Scalar { size: 1, kind: Kind::Bool })
    } else if t == "c_byte"@ {
        Some(Scalar { size: 1, kind: Kind::Signed })
    } else if t == "c_ubyte"@ {
        Some(Scalar { size: 1, kind: Kind::Unsigned })
    } else if t == "c_short"@ {
        Some(Scalar { size: 2, kind: Kind::Signed })
    } else if t == "c_ushort"@ {
        Some(Scalar { size: 2, kind: Kind::Unsigned })
    } else if t == "c_int"@ {
        Some(Scalar { size: 4, kind: Kind::Signed })
    } else if t == "c_uint"@ {
        Some(Scalar { size: 4, kind: Kind::Unsigned })
    } else if t == "c_longlong"@ {
        Some(Scalar { size: 8, kind: Kind::Signed })
    } else if t == "c_ulonglong"@ {
        Some(Scalar { size: 8, kind: Kind::Unsigned })
    } else if t == "c_float"@ {
        Some(Scalar { size: 4, kind: Kind::Float })
    } else if t == "c_double"@ {
        Some(Scalar { size: 8, kind: Kind::Float })
    } else {
        None
    }
}

/// The layout of a C# scalar type name.
pub open spec fn cs_scalar(t: Seq<char>) -> Option<Scalar> {
    if t == "sbyte"@ {
        Some(Scalar { size: 1, kind: Kind::Signed })
    } else if t == "byte"@ {
        Some(Scalar { size: 1, kind: Kind::Unsigned })
    } else if t == "short"@ {
        Some(Scalar { size: 2, kind: Kind::Signed })
    } else if t == "ushort"@ {
        Some(Scalar { size: 2, kind: Kind::Unsigned })
    } else if t == "int"@ {
        Some(Scalar { size: 4, kind: Kind::Signed })
    } else if t == "uint"@ {
        Some(Scalar { size: 4, kind: Kind::Unsigned })
    } else if t == "long"@ {
        Some(Scalar { size: 8, kind: Kind::Signed })
    } else if t == "ulong"@ {
        Some(Scalar { size: 8, kind: Kind::Unsigned })
    } else if t == "float"@ {
        Some(Scalar { size: 4, kind: Kind::Float })
    } else if t == "double"@ {
        Some(Scalar { size: 8, kind: Kind::Float })
    } else {
        None
    }
}

/// A target type holds a Rust value of layout `r`: same size, and same
/// kind, except that a `bool` may be held in an unsigned byte.
pub open spec fn layout_matches(r: Scalar, c: Scalar) -> bool {
    r.size == c.size && (r.kind == c.kind || (r.kind == Kind::Bool && c.kind == Kind::Unsigned))
}

/// The C++ type `n` holds a Rust value of layout `r`.
pub open spec fn cpp_fits(n: Seq<char>, r: Scalar) -> bool {
    cpp_scalar(n) matches Some(c) && layout_matches(r, c)
}

/// The ctypes type `n` holds a Rust value of layout `r`.
pub open spec fn py_fits(n: Seq<char>, r: Scalar) -> bool {
    py_scalar(n) matches Some(c) && layout_matches(r, c)
}

/// The C# type `n` holds a Rust value of layout `r`.
pub open spec fn cs_fits(n: Seq<char>, r: Scalar) -> bool {
    cs_scalar(n) matches Some(c) && layout_matches(r, c)
}

/// Whether the C# table covers the Rust scalar type `t`.
pub open spec fn cs_covers(t: Seq<char>) -> bool {
    rust_scalar(t) is Some && t != "c_ulong"@ && t != "c_ulonglong"@
}

/// The C++ entry `m` names a type that holds a Rust value of layout `r`.
pub open spec fn cpp_holds(m: Option<Seq<char>>, r: Scalar) -> bool {
    m matches Some(n) && cpp_scalar(n) matches Some(c) && layout_matches(r, c)
}

/// The ctypes entry `m` names a type that holds a Rust value of layout `r`.
pub open spec fn py_holds(m: Option<Seq<char>>, r: Scalar) -> bool {
    m matches Some(n) && py_scalar(n) matches Some(c) && layout_matches(r, c)
}

/// The C# entry `m` names a type that holds a Rust value of layout `r`.
pub open spec fn cs_holds(m: Option<Seq<char>>, r: Scalar) -> bool {
    m matches Some(n) && cs_scalar(n) matches Some(c) && layout_matches(r, c)
}

proof fn lemma_literals()
    ensures
        "IntPtr"@ == seq!['I', 'n', 't', 'P', 't', 'r'],
        "IntPtr"@.len() == 6,
        "IntPtr"@[0] == 'I',
        "IntPtr"@[1] == 'n',
        "IntPtr"@[2] == 't',
        "IntPtr"@[3] == 'P',
        "IntPtr"@[4] == 't',
        "IntPtr"@[5] == 'r',
        "bool"@ == seq!['b', 'o', 'o', 'l'],
        "bool"@.len() == 4,
        "bool"@[0] == 'b',
        "bool"@[1] == 'o',
        "bool"@[2] == 'o',
        "bool"@[3] == 'l',
        "byte"@ == seq!['b', 'y', 't', 'e'],
        "byte"@.len() == 4,
        "byte"@[0] == 'b',
        "byte"@[1] == 'y',
        "byte"@[2] == 't',
        "byte"@[3] == 'e',
        "c_bool"@ == seq!['c', '_', 'b', 'o', 'o', 'l'],
        "c_bool"@.len() == 6,
        "c_bool"@[0] == 'c',
        "c_bool"@[1] == '_',
        "c_bool"@[2] == 'b',
        "c_bool"@[3] == 'o',
        "c_bool"@[4] == 'o',
        "c_bool"@[5] == 'l',
        "c_byte"@ == seq!['c', '_', 'b', 'y', 't', 'e'],
        "c_byte"@.len() == 6,
        "c_byte"@[0] == 'c',
        "c_byte"@[1] == '_',
        "c_byte"@[2] == 'b',
        "c_byte"@[3] == 'y',
        "c_byte"@[4] == 't',
        "c_byte"@[5] == 'e',
        "c_char"@ == seq!['c', '_', 'c', 'h', 'a', 'r'],
        "c_char"@.len() == 6,
        "c_char"@[0] == 'c',
        "c_char"@[1] == '_',
        "c_char"@[2] == 'c',
        "c_char"@[3] == 'h',
        "c_char"@[4] == 'a',
        "c_char"@[5] == 'r',
        "c_char_p"@ == seq!['c', '_', 'c', 'h', 'a', 'r', '_', 'p'],
        "c_char_p"@.len() == 8,
        "c_char_p"@[0] == 'c',
        "c_char_p"@[1] == '_',
        "c_char_p"@[2] == 'c',
        "c_char_p"@[3] == 'h',
        "c_char_p"@[4] == 'a',
        "c_char_p"@[5] == 'r',
        "c_char_p"@[6] == '_',
        "c_char_p"@[7] == 'p',
        "c_char_pntr"@ == seq!['c', '_', 'c', 'h', 'a', 'r', '_', 'p', 'n', 't', 'r'],
        "c_char_pntr"@.len() == 11,
        "c_char_pntr"@[0] == 'c',
        "c_char_pntr"@[1] == '_',
        "c_char_pntr"@[2] == 'c',
        "c_char_pntr"@[3] == 'h',
        "c_char_pntr"@[4] == 'a',
        "c_char_pntr"@[5] == 'r',
        "c_char_pntr"@[6] == '_',
        "c_char_pntr"@[7] == 'p',
        "c_char_pntr"@[8] == 'n',
        "c_char_pntr"@[9] == 't',
        "c_char_pntr"@[10] == 'r',
        "c_double"@ == seq!['c', '_', 'd', 'o', 'u', 'b', 'l', 'e'],
        "c_double"@.len() == 8,
        "c_double"@[0] == 'c',
        "c_double"@[1] == '_',
        "c_double"@[2] == 'd',
        "c_double"@[3] == 'o',
        "c_double"@[4] == 'u',
        "c_double"@[5] == 'b',
        "c_double"@[6] == 'l',
        "c_double"@[7] == 'e',
        "c_float"@ == seq!['c', '_', 'f', 'l', 'o', 'a', 't'],
        "c_float"@.len() == 7,
        "c_float"@[0] == 'c',
        "c_float"@[1] == '_',
        "c_float"@[2] == 'f',
        "c_float"@[3] == 'l',
        "c_float"@[4] == 'o',
        "c_float"@[5] == 'a',
        "c_float"@[6] == 't',
        "c_int"@ == seq!['c', '_', 'i', 'n', 't'],
        "c_int"@.len() == 5,
        "c_int"@[0] == 'c',
        "c_int"@[1] == '_',
        "c_int"@[2] == 'i',
        "c_int"@[3] == 'n',
        "c_int"@[4] == 't',
        "c_long"@ == seq!['c', '_', 'l', 'o', 'n', 'g'],
        "c_long"@.len() == 6,
        "c_long"@[0] == 'c',
        "c_long"@[1] == '_',
        "c_long"@[2] == 'l',
        "c_long"@[3] == 'o',
        "c_long"@[4] == 'n',
        "c_long"@[5] == 'g',
        "c_longlong"@ == seq!['c', '_', 'l', 'o', 'n', 'g', 'l', 'o', 'n', 'g'],
        "c_longlong"@.len() == 10,
        "c_longlong"@[0] == 'c',
        "c_longlong"@[1] == '_',
        "c_longlong"@[2] == 'l',
        "c_longlong"@[3] == 'o',
        "c_longlong"@[4] == 'n',
        "c_longlong"@[5] == 'g',
        "c_longlong"@[6] == 'l',
        "c_longlong"@[7] == 'o',
        "c_longlong"@[8] == 'n',
        "c_longlong"@[9] == 'g',
        "c_schar"@ == seq!['c', '_', 's', 'c', 'h', 'a', 'r'],
        "c_schar"@.len() == 7,
        "c_schar"@[0] == 'c',
        "c_schar"@[1] == '_',
        "c_schar"@[2] == 's',
        "c_schar"@[3] == 'c',
        "c_schar"@[4] == 'h',
        "c_schar"@[5] == 'a',
        "c_schar"@[6] == 'r',
        "c_short"@ == seq!['c', '_', 's', 'h', 'o', 'r', 't'],
        "c_short"@.len() == 7,
        "c_short"@[0] == 'c',
        "c_short"@[1] == '_',
        "c_short"@[2] == 's',
        "c_short"@[3] == 'h',
        "c_short"@[4] == 'o',
        "c_short"@[5] == 'r',
        "c_short"@[6] == 't',
        "c_ubyte"@ == seq!['c', '_', 'u', 'b', 'y', 't', 'e'],
        "c_ubyte"@.len() == 7,
        "c_ubyte"@[0] == 'c',
        "c_ubyte"@[1] == '_',
        "c_ubyte"@[2] == 'u',
        "c_ubyte"@[3] == 'b',
        "c_ubyte"@[4] == 'y',
        "c_ubyte"@[5] == 't',
        "c_ubyte"@[6] == 'e',
        "c_uchar"@ == seq!['c', '_', 'u', 'c', 'h', 'a', 'r'],
        "c_uchar"@.len() == 7,
        "c_uchar"@[0] == 'c',
        "c_uchar"@[1] == '_',
        "c_uchar"@[2] == 'u',
        "c_uchar"@[3] == 'c',
        "c_uchar"@[4] == 'h',
        "c_uchar"@[5] == 'a',
        "c_uchar"@[6] == 'r',
        "c_uint"@ == seq!['c', '_', 'u', 'i', 'n', 't'],
        "c_uint"@.len() == 6,
        "c_uint"@[0] == 'c',
        "c_uint"@[1] == '_',
        "c_uint"@[2] == 'u',
        "c_uint"@[3] == 'i',
        "c_uint"@[4] == 'n',
        "c_uint"@[5] == 't',
        "c_ulong"@ == seq!['c', '_', 'u', 'l', 'o', 'n', 'g'],
        "c_ulong"@.len() == 7,
        "c_ulong"@[0] == 'c',
        "c_ulong"@[1] == '_',
        "c_ulong"@[2] == 'u',
        "c_ulong"@[3] == 'l',
        "c_ulong"@[4] == 'o',
        "c_ulong"@[5] == 'n',
        "c_ulong"@[6] == 'g',
        "c_ulonglong"@ == seq!['c', '_', 'u', 'l', 'o', 'n', 'g', 'l', 'o', 'n', 'g'],
        "c_ulonglong"@.len() == 11,
        "c_ulonglong"@[0] == 'c',
        "c_ulonglong"@[1] == '_',
        "c_ulonglong"@[2] == 'u',
        "c_ulonglong"@[3] == 'l',
        "c_ulonglong"@[4] == 'o',
        "c_ulonglong"@[5] == 'n',
        "c_ulonglong"@[6] == 'g',
        "c_ulonglong"@[7] == 'l',
        "c_ulonglong"@[8] == 'o',
        "c_ulonglong"@[9] == 'n',
        "c_ulonglong"@[10] == 'g',
        "c_ushort"@ == seq!['c', '_', 'u', 's', 'h', 'o', 'r', 't'],
        "c_ushort"@.len() == 8,
        "c_ushort"@[0] == 'c',
        "c_ushort"@[1] == '_',
        "c_ushort"@[2] == 'u',
        "c_ushort"@[3] == 's',
        "c_ushort"@[4] == 'h',
        "c_ushort"@[5] == 'o',
        "c_ushort"@[6] == 'r',
        "c_ushort"@[7] == 't',
        "c_void"@ == seq!['c', '_', 'v', 'o', 'i', 'd'],
        "c_void"@.len() == 6,
        "c_void"@[0] == 'c',
        "c_void"@[1] == '_',
        "c_void"@[2] == 'v',
        "c_void"@[3] == 'o',
        "c_void"@[4] == 'i',
        "c_void"@[5] == 'd',
        "c_void_p"@ == seq!['c', '_', 'v', 'o', 'i', 'd', '_', 'p'],
        "c_void_p"@.len() == 8,
        "c_void_p"@[0] == 'c',
        "c_void_p"@[1] == '_',
        "c_void_p"@[2] == 'v',
        "c_void_p"@[3] == 'o',
        "c_void_p"@[4] == 'i',
        "c_void_p"@[5] == 'd',
        "c_void_p"@[6] == '_',
        "c_void_p"@[7] == 'p',
        "char"@ == seq!['c', 'h', 'a', 'r'],
        "char"@.len() == 4,
        "char"@[0] == 'c',
        "char"@[1] == 'h',
        "char"@[2] == 'a',
        "char"@[3] == 'r',
        "double"@ == seq!['d', 'o', 'u', 'b', 'l', 'e'],
        "double"@.len() == 6,
        "double"@[0] == 'd',
        "double"@[1] == 'o',
        "double"@[2] == 'u',
        "double"@[3] == 'b',
        "double"@[4] == 'l',
        "double"@[5] == 'e',
        "f32"@ == seq!['f', '3', '2'],
        "f32"@.len() == 3,
        "f32"@[0] == 'f',
        "f32"@[1] == '3',
        "f32"@[2] == '2',
        "f64"@ == seq!['f', '6', '4'],
        "f64"@.len() == 3,
        "f64"@[0] == 'f',
        "f64"@[1] == '6',
        "f64"@[2] == '4',
        "float"@ == seq!['f', 'l', 'o', 'a', 't'],
        "float"@.len() == 5,
        "float"@[0] == 'f',
        "float"@[1] == 'l',
        "float"@[2] == 'o',
        "float"@[3] == 'a',
        "float"@[4] == 't',
        "i16"@ == seq!['i', '1', '6'],
        "i16"@.len() == 3,
        "i16"@[0] == 'i',
        "i16"@[1] == '1',
        "i16"@[2] == '6',
        "i32"@ == seq!['i', '3', '2'],
        "i32"@.len() == 3,
        "i32"@[0] == 'i',
        "i32"@[1] == '3',
        "i32"@[2] == '2',
        "i64"@ == seq!['i', '6', '4'],
        "i64"@.len() == 3,
        "i64"@[0] == 'i',
        "i64"@[1] == '6',
        "i64"@[2] == '4',
        "i8"@ == seq!['i', '8'],
        "i8"@.len() == 2,
        "i8"@[0] == 'i',
        "i8"@[1] == '8',
        "int"@ == seq!['i', 'n', 't'],
        "int"@.len() == 3,
        "int"@[0] == 'i',
        "int"@[1] == 'n',
        "int"@[2] == 't',
        "int16_t"@ == seq!['i', 'n', 't', '1', '6', '_', 't'],
        "int16_t"@.len() == 7,
        "int16_t"@[0] == 'i',
        "int16_t"@[1] == 'n',
        "int16_t"@[2] == 't',
        "int16_t"@[3] == '1',
        "int16_t"@[4] == '6',
        "int16_t"@[5] == '_',
        "int16_t"@[6] == 't',
        "int32_t"@ == seq!['i', 'n', 't', '3', '2', '_', 't'],
        "int32_t"@.len() == 7,
        "int32_t"@[0] == 'i',
        "int32_t"@[1] == 'n',
        "int32_t"@[2] == 't',
        "int32_t"@[3] == '3',
        "int32_t"@[4] == '2',
        "int32_t"@[5] == '_',
        "int32_t"@[6] == 't',
        "int64_t"@ == seq!['i', 'n', 't', '6', '4', '_', 't'],
        "int64_t"@.len() == 7,
        "int64_t"@[0] == 'i',
        "int64_t"@[1] == 'n',
        "int64_t"@[2] == 't',
        "int64_t"@[3] == '6',
        "int64_t"@[4] == '4',
        "int64_t"@[5] == '_',
        "int64_t"@[6] == 't',
        "int8_t"@ == seq!['i', 'n', 't', '8', '_', 't'],
        "int8_t"@.len() == 6,
        "int8_t"@[0] == 'i',
        "int8_t"@[1] == 'n',
        "int8_t"@[2] == 't',
        "int8_t"@[3] == '8',
        "int8_t"@[4] == '_',
        "int8_t"@[5] == 't',
        "long"@ == seq!['l', 'o', 'n', 'g'],
        "long"@.len() == 4,
        "long"@[0] == 'l',
        "long"@[1] == 'o',
        "long"@[2] == 'n',
        "long"@[3] == 'g',
        "long long int"@ == seq!['l', 'o', 'n', 'g', ' ', 'l', 'o', 'n', 'g', ' ', 'i', 'n', 't'],
        "long long int"@.len() == 13,
        "long long int"@[0] == 'l',
        "long long int"@[1] == 'o',
        "long long int"@[2] == 'n',
        "long long int"@[3] == 'g',
        "long long int"@[4] == ' ',
        "long long int"@[5] == 'l',
        "long long int"@[6] == 'o',
        "long long int"@[7] == 'n',
        "long long int"@[8] == 'g',
        "long long int"@[9] == ' ',
        "long long int"@[10] == 'i',
        "long long int"@[11] == 'n',
        "long long int"@[12] == 't',
        "sbyte"@ == seq!['s', 'b', 'y', 't', 'e'],
        "sbyte"@.len() == 5,
        "sbyte"@[0] == 's',
        "sbyte"@[1] == 'b',
        "sbyte"@[2] == 'y',
        "sbyte"@[3] == 't',
        "sbyte"@[4] == 'e',
        "short"@ == seq!['s', 'h', 'o', 'r', 't'],
        "short"@.len() == 5,
        "short"@[0] == 's',
        "short"@[1] == 'h',
        "short"@[2] == 'o',
        "short"@[3] == 'r',
        "short"@[4] == 't',
        "signed char"@ == seq!['s', 'i', 'g', 'n', 'e', 'd', ' ', 'c', 'h', 'a', 'r'],
        "signed char"@.len() == 11,
        "signed char"@[0] == 's',
        "signed char"@[1] == 'i',
        "signed char"@[2] == 'g',
        "signed char"@[3] == 'n',
        "signed char"@[4] == 'e',
        "signed char"@[5] == 'd',
        "signed char"@[6] == ' ',
        "signed char"@[7] == 'c',
        "signed char"@[8] == 'h',
        "signed char"@[9] == 'a',
        "signed char"@[10] == 'r',
        "string"@ == seq!['s', 't', 'r', 'i', 'n', 'g'],
        "string"@.len() == 6,
        "string"@[0] == 's',
        "string"@[1] == 't',
        "string"@[2] == 'r',
        "string"@[3] == 'i',
        "string"@[4] == 'n',
        "string"@[5] == 'g',
        "u16"@ == seq!['u', '1', '6'],
        "u16"@.len() == 3,
        "u16"@[0] == 'u',
        "u16"@[1] == '1',
        "u16"@[2] == '6',
        "u32"@ == seq!['u', '3', '2'],
        "u32"@.len() == 3,
        "u32"@[0] == 'u',
        "u32"@[1] == '3',
        "u32"@[2] == '2',
        "u64"@ == seq!['u', '6', '4'],
        "u64"@.len() == 3,
        "u64"@[0] == 'u',
        "u64"@[1] == '6',
        "u64"@[2] == '4',
        "u8"@ == seq!['u', '8'],
        "u8"@.len() == 2,
        "u8"@[0] == 'u',
        "u8"@[1] == '8',
        "uint"@ == seq!['u', 'i', 'n', 't'],
        "uint"@.len() == 4,
        "uint"@[0] == 'u',
        "uint"@[1] == 'i',
        "uint"@[2] == 'n',
        "uint"@[3] == 't',
        "uint16_t"@ == seq!['u', 'i', 'n', 't', '1', '6', '_', 't'],
        "uint16_t"@.len() == 8,
        "uint16_t"@[0] == 'u',
        "uint16_t"@[1] == 'i',
        "uint16_t"@[2] == 'n',
        "uint16_t"@[3] == 't',
        "uint16_t"@[4] == '1',
        "uint16_t"@[5] == '6',
        "uint16_t"@[6] == '_',
        "uint16_t"@[7] == 't',
        "uint32_t"@ == seq!['u', 'i', 'n', 't', '3', '2', '_', 't'],
        "uint32_t"@.len() == 8,
        "uint32_t"@[0] == 'u',
        "uint32_t"@[1] == 'i',
        "uint32_t"@[2] == 'n',
        "uint32_t"@[3] == 't',
        "uint32_t"@[4] == '3',
        "uint32_t"@[5] == '2',
        "uint32_t"@[6] == '_',
        "uint32_t"@[7] == 't',
        "uint64_t"@ == seq!['u', 'i', 'n', 't', '6', '4', '_', 't'],
        "uint64_t"@.len() == 8,
        "uint64_t"@[0] == 'u',
        "uint64_t"@[1] == 'i',
        "uint64_t"@[2] == 'n',
        "uint64_t"@[3] == 't',
        "uint64_t"@[4] == '6',
        "uint64_t"@[5] == '4',
        "uint64_t"@[6] == '_',
        "uint64_t"@[7] == 't',
        "uint8_t"@ == seq!['u', 'i', 'n', 't', '8', '_', 't'],
        "uint8_t"@.len() == 7,
        "uint8_t"@[0] == 'u',
        "uint8_t"@[1] == 'i',
        "uint8_t"@[2] == 'n',
        "uint8_t"@[3] == 't',
        "uint8_t"@[4] == '8',
        "uint8_t"@[5] == '_',
        "uint8_t"@[6] == 't',
        "ulong"@ == seq!['u', 'l', 'o', 'n', 'g'],
        "ulong"@.len() == 5,
        "ulong"@[0] == 'u',
        "ulong"@[1] == 'l',
        "ulong"@[2] == 'o',
        "ulong"@[3] == 'n',
        "ulong"@[4] == 'g',
        "unsigned char"@ == seq!['u', 'n', 's', 'i', 'g', 'n', 'e', 'd', ' ', 'c', 'h', 'a', 'r'],
        "unsigned char"@.len() == 13,
        "unsigned char"@[0] == 'u',
        "unsigned char"@[1] == 'n',
        "unsigned char"@[2] == 's',
        "unsigned char"@[3] == 'i',
        "unsigned char"@[4] == 'g',
        "unsigned char"@[5] == 'n',
        "unsigned char"@[6] == 'e',
        "unsigned char"@[7] == 'd',
        "unsigned char"@[8] == ' ',
        "unsigned char"@[9] == 'c',
        "unsigned char"@[10] == 'h',
        "unsigned char"@[11] == 'a',
        "unsigned char"@[12] == 'r',
        "unsigned int"@ == seq!['u', 'n', 's', 'i', 'g', 'n', 'e', 'd', ' ', 'i', 'n', 't'],
        "unsigned int"@.len() == 12,
        "unsigned int"@[0] == 'u',
        "unsigned int"@[1] == 'n',
        "unsigned int"@[2] == 's',
        "unsigned int"@[3] == 'i',
        "unsigned int"@[4] == 'g',
        "unsigned int"@[5] == 'n',
        "unsigned int"@[6] == 'e',
        "unsigned int"@[7] == 'd',
        "unsigned int"@[8] == ' ',
        "unsigned int"@[9] == 'i',
        "unsigned int"@[10] == 'n',
        "unsigned int"@[11] == 't',
        "unsigned long long int"@ == seq!['u', 'n', 's', 'i', 'g', 'n', 'e', 'd', ' ', 'l', 'o', 'n', 'g', ' ', 'l', 'o', 'n', 'g', ' ', 'i', 'n', 't'],
        "unsigned long long int"@.len() == 22,
        "unsigned long long int"@[0] == 'u',
        "unsigned long long int"@[1] == 'n',
        "unsigned long long int"@[2] == 's',
        "unsigned long long int"@[3] == 'i',
        "unsigned long long int"@[4] == 'g',
        "unsigned long long int"@[5] == 'n',
        "unsigned long long int"@[6] == 'e',
        "unsigned long long int"@[7] == 'd',
        "unsigned long long int"@[8] == ' ',
        "unsigned long long int"@[9] == 'l',
        "unsigned long long int"@[10] == 'o',
        "unsigned long long int"@[11] == 'n',
        "unsigned long long int"@[12] == 'g',
        "unsigned long long int"@[13] == ' ',
        "unsigned long long int"@[14] == 'l',
        "unsigned long long int"@[15] == 'o',
        "unsigned long long int"@[16] == 'n',
        "unsigned long long int"@[17] == 'g',
        "unsigned long long int"@[18] == ' ',
        "unsigned long long int"@[19] == 'i',
        "unsigned long long int"@[20] == 'n',
        "unsigned long long int"@[21] == 't',
        "unsigned short"@ == seq!['u', 'n', 's', 'i', 'g', 'n', 'e', 'd', ' ', 's', 'h', 'o', 'r', 't'],
        "unsigned short"@.len() == 14,
        "unsigned short"@[0] == 'u',
        "unsigned short"@[1] == 'n',
        "unsigned short"@[2] == 's',
        "unsigned short"@[3] == 'i',
        "unsigned short"@[4] == 'g',
        "unsigned short"@[5] == 'n',
        "unsigned short"@[6] == 'e',
        "unsigned short"@[7] == 'd',
        "unsigned short"@[8] == ' ',
        "unsigned short"@[9] == 's',
        "unsigned short"@[10] == 'h',
        "unsigned short"@[11] == 'o',
        "unsigned short"@[12] == 'r',
        "unsigned short"@[13] == 't',
        "ushort"@ == seq!['u', 's', 'h', 'o', 'r', 't'],
        "ushort"@.len() == 6,
        "ushort"@[0] == 'u',
        "ushort"@[1] == 's',
        "ushort"@[2] == 'h',
        "ushort"@[3] == 'o',
        "ushort"@[4] == 'r',
        "ushort"@[5] == 't',
        "void"@ == seq!['v', 'o', 'i', 'd'],
        "void"@.len() == 4,
        "void"@[0] == 'v',
        "void"@[1] == 'o',
        "void"@[2] == 'i',
        "void"@[3] == 'd',
{
    reveal_strlit("IntPtr");
    assert("IntPtr"@ =~= seq!['I', 'n', 't', 'P', 't', 'r']);
    reveal_strlit("bool");
    assert("bool"@ =~= seq!['b', 'o', 'o', 'l']);
    reveal_strlit("byte");
    assert("byte"@ =~= seq!['b', 'y', 't', 'e']);
    reveal_strlit("c_bool");
    assert("c_bool"@ =~= seq!['c', '_', 'b', 'o', 'o', 'l']);
    reveal_strlit("c_byte");
    assert("c_byte"@ =~= seq!['c', '_', 'b', 'y', 't', 'e']);
    reveal_strlit("c_char");
    assert("c_char"@ =~= seq!['c', '_', 'c', 'h', 'a', 'r']);
    reveal_strlit("c_char_p");
    assert("c_char_p"@ =~= seq!['c', '_', 'c', 'h', 'a', 'r', '_', 'p']);
    reveal_strlit("c_char_pntr");
    assert("c_char_pntr"@ =~= seq!['c', '_', 'c', 'h', 'a', 'r', '_', 'p', 'n', 't', 'r']);
    reveal_strlit("c_double");
    assert("c_double"@ =~= seq!['c', '_', 'd', 'o', 'u', 'b', 'l', 'e']);
    reveal_strlit("c_float");
    assert("c_float"@ =~= seq!['c', '_', 'f', 'l', 'o', 'a', 't']);
    reveal_strlit("c_int");
    assert("c_int"@ =~= seq!['c', '_', 'i', 'n', 't']);
    reveal_strlit("c_long");
    assert("c_long"@ =~= seq!['c', '_', 'l', 'o', 'n', 'g']);
    reveal_strlit("c_longlong");
    assert("c_longlong"@ =~= seq!['c', '_', 'l', 'o', 'n', 'g', 'l', 'o', 'n', 'g']);
    reveal_strlit("c_schar");
    assert("c_schar"@ =~= seq!['c', '_', 's', 'c', 'h', 'a', 'r']);
    reveal_strlit("c_short");
    assert("c_short"@ =~= seq!['c', '_', 's', 'h', 'o', 'r', 't']);
    reveal_strlit("c_ubyte");
    assert("c_ubyte"@ =~= seq!['c', '_', 'u', 'b', 'y', 't', 'e']);
    reveal_strlit("c_uchar");
    assert("c_uchar"@ =~= seq!['c', '_', 'u', 'c', 'h', 'a', 'r']);
    reveal_strlit("c_uint");
    assert("c_uint"@ =~= seq!['c', '_', 'u', 'i', 'n', 't']);
    reveal_strlit("c_ulong");
    assert("c_ulong"@ =~= seq!['c', '_', 'u', 'l', 'o', 'n', 'g']);
    reveal_strlit("c_ulonglong");
    assert("c_ulonglong"@ =~= seq!['c', '_', 'u', 'l', 'o', 'n', 'g', 'l', 'o', 'n', 'g']);
    reveal_strlit("c_ushort");
    assert("c_ushort"@ =~= seq!['c', '_', 'u', 's', 'h', 'o', 'r', 't']);
    reveal_strlit("c_void");
    assert("c_void"@ =~= seq!['c', '_', 'v', 'o', 'i', 'd']);
    reveal_strlit("c_void_p");
    assert("c_void_p"@ =~= seq!['c', '_', 'v', 'o', 'i', 'd', '_', 'p']);
    reveal_strlit("char");
    assert("char"@ =~= seq!['c', 'h', 'a', 'r']);
    reveal_strlit("double");
    assert("double"@ =~= seq!['d', 'o', 'u', 'b', 'l', 'e']);
    reveal_strlit("f32");
    assert("f32"@ =~= seq!['f', '3', '2']);
    reveal_strlit("f64");
    assert("f64"@ =~= seq!['f', '6', '4']);
    reveal_strlit("float");
    assert("float"@ =~= seq!['f', 'l', 'o', 'a', 't']);
    reveal_strlit("i16");
    assert("i16"@ =~= seq!['i', '1', '6']);
    reveal_strlit("i32");
    assert("i32"@ =~= seq!['i', '3', '2']);
    reveal_strlit("i64");
    assert("i64"@ =~= seq!['i', '6', '4']);
    reveal_strlit("i8");
    assert("i8"@ =~= seq!['i', '8']);
    reveal_strlit("int");
    assert("int"@ =~= seq!['i', 'n', 't']);
    reveal_strlit("int16_t");
    assert("int16_t"@ =~= seq!['i', 'n', 't', '1', '6', '_', 't']);
    reveal_strlit("int32_t");
    assert("int32_t"@ =~= seq!['i', 'n', 't', '3', '2', '_', 't']);
    reveal_strlit("int64_t");
    assert("int64_t"@ =~= seq!['i', 'n', 't', '6', '4', '_', 't']);
    reveal_strlit("int8_t");
    assert("int8_t"@ =~= seq!['i', 'n', 't', '8', '_', 't']);
    reveal_strlit("long");
    assert("long"@ =~= seq!['l', 'o', 'n', 'g']);
    reveal_strlit("long long int");
    assert("long long int"@ =~= seq!['l', 'o', 'n', 'g', ' ', 'l', 'o', 'n', 'g', ' ', 'i', 'n', 't']);
    reveal_strlit("sbyte");
    assert("sbyte"@ =~= seq!['s', 'b', 'y', 't', 'e']);
    reveal_strlit("short");
    assert("short"@ =~= seq!['s', 'h', 'o', 'r', 't']);
    reveal_strlit("signed char");
    assert("signed char"@ =~= seq!['s', 'i', 'g', 'n', 'e', 'd', ' ', 'c', 'h', 'a', 'r']);
    reveal_strlit("string");
    assert("string"@ =~= seq!['s', 't', 'r', 'i', 'n', 'g']);
    reveal_strlit("u16");
    assert("u16"@ =~= seq!['u', '1', '6']);
    reveal_strlit("u32");
    assert("u32"@ =~= seq!['u', '3', '2']);
    reveal_strlit("u64");
    assert("u64"@ =~= seq!['u', '6', '4']);
    reveal_strlit("u8");
    assert("u8"@ =~= seq!['u', '8']);
    reveal_strlit("uint");
    assert("uint"@ =~= seq!['u', 'i', 'n', 't']);
    reveal_strlit("uint16_t");
    assert("uint16_t"@ =~= seq!['u', 'i', 'n', 't', '1', '6', '_', 't']);
    reveal_strlit("uint32_t");
    assert("uint32_t"@ =~= seq!['u', 'i', 'n', 't', '3', '2', '_', 't']);
    reveal_strlit("uint64_t");
    assert("uint64_t"@ =~= seq!['u', 'i', 'n', 't', '6', '4', '_', 't']);
    reveal_strlit("uint8_t");
    assert("uint8_t"@ =~= seq!['u', 'i', 'n', 't', '8', '_', 't']);
    reveal_strlit("ulong");
    assert("ulong"@ =~= seq!['u', 'l', 'o', 'n', 'g']);
    reveal_strlit("unsigned char");
    assert("unsigned char"@ =~= seq!['u', 'n', 's', 'i', 'g', 'n', 'e', 'd', ' ', 'c', 'h', 'a', 'r']);
    reveal_strlit("unsigned int");
    assert("unsigned int"@ =~= seq!['u', 'n', 's', 'i', 'g', 'n', 'e', 'd', ' ', 'i', 'n', 't']);
    reveal_strlit("unsigned long long int");
    assert("unsigned long long int"@ =~= seq!['u', 'n', 's', 'i', 'g', 'n', 'e', 'd', ' ', 'l', 'o', 'n', 'g', ' ', 'l', 'o', 'n', 'g', ' ', 'i', 'n', 't']);
    reveal_strlit("unsigned short");
    assert("unsigned short"@ =~= seq!['u', 'n', 's', 'i', 'g', 'n', 'e', 'd', ' ', 's', 'h', 'o', 'r', 't']);
    reveal_strlit("ushort");
    assert("ushort"@ =~= seq!['u', 's', 'h', 'o', 'r', 't']);
    reveal_strlit("void");
    assert("void"@ =~= seq!['v', 'o', 'i', 'd']);
}

/// Every Rust scalar type is translated to a type of the same size and
/// kind: in C++ and in Python ctypes always, and in C# wherever the C# table
/// has an entry, which it has for all but `c_ulong` and `c_ulonglong`.
pub proof fn law_tables_keep_layout(t: Seq<char>)
    ensures
        rust_scalar(t) matches Some(r) ==> cpp_holds(cpp_map(t), r),
        rust_scalar(t) matches Some(r) ==> py_holds(py_map(t), r),
        rust_scalar(t) matches Some(r) ==> (cs_map(t) is Some ==> cs_holds(cs_map(t), r)),
        rust_scalar(t) is Some && t != "c_ulong"@ && t != "c_ulonglong"@ ==> cs_map(t) is Some,
{
    lemma_literals();
    if t == "bool"@ {
        assert(cpp_holds(cpp_map(t), rust_scalar(t).unwrap()));
    } else if t == "c_char"@ {
        assert(cpp_holds(cpp_map(t), rust_scalar(t).unwrap()));
    } else if t == "i8"@ {
        assert(cpp_holds(cpp_map(t), rust_scalar(t).unwrap()));
    } else if t == "c_schar"@ {
        assert(cpp_holds(cpp_map(t), rust_scalar(t).unwrap()));
    } else if t == "u8"@ {
        assert(cpp_holds(cpp_map(t), rust_scalar(t).unwrap()));
    } else if t == "c_uchar"@ {
        assert(cpp_holds(cpp_map(t), rust_scalar(t).unwrap()));
    } else if t == "i16"@ {
        assert(cpp_holds(cpp_map(t), rust_scalar(t).unwrap()));
    } else if t == "c_short"@ {
        assert(cpp_holds(cpp_map(t), rust_scalar(t).unwrap()));
    } else if t == "u16"@ {
        assert(cpp_holds(cpp_map(t), rust_scalar(t).unwrap()));
    } else if t == "c_ushort"@ {
        assert(cpp_holds(cpp_map(t), rust_scalar(t).unwrap()));
    } else if t == "i32"@ {
        assert(cpp_holds(cpp_map(t), rust_scalar(t).unwrap()));
    } else if t == "c_int"@ {
        assert(cpp_holds(cpp_map(t), rust_scalar(t).unwrap()));
    } else if t == "u32"@ {
        assert(cpp_holds(cpp_map(t), rust_scalar(t).unwrap()));
    } else if t == "c_uint"@ {
        assert(cpp_holds(cpp_map(t), rust_scalar(t).unwrap()));
    } else if t == "i64"@ {
        assert(cpp_holds(cpp_map(t), rust_scalar(t).unwrap()));
    } else if t == "c_long"@ {
        assert(cpp_holds(cpp_map(t), rust_scalar(t).unwrap()));
    } else if t == "c_longlong"@ {
        assert(cpp_holds(cpp_map(t), rust_scalar(t).unwrap()));
    } else if t == "u64"@ {
        assert(cpp_holds(cpp_map(t), rust_scalar(t).unwrap()));
    } else if t == "c_ulong"@ {
        assert(cpp_holds(cpp_map(t), rust_scalar(t).unwrap()));
    } else if t == "c_ulonglong"@ {
        assert(cpp_holds(cpp_map(t), rust_scalar(t).unwrap()));
    } else if t == "f32"@ {
        assert(cpp_holds(cpp_map(t), rust_scalar(t).unwrap()));
    } else if t == "c_float"@ {
        assert(cpp_holds(cpp_map(t), rust_scalar(t).unwrap()));
    } else if t == "f64"@ {
        assert(cpp_holds(cpp_map(t), rust_scalar(t).unwrap()));
    } else if t == "c_double"@ {
        assert(cpp_holds(cpp_map(t), rust_scalar(t).unwrap()));
    }
}


/// A field of Rust scalar type `d` is declared in each output with a type of
/// the same size and kind: `\t<T> name;` in C++, `\t\tpublic <T> name;` in
/// C# (where the C# table covers `d`), and `("name", <T>)` among the Python
/// fields, `<T>` joining the Python imports.
pub proof fn law_simple_field_keeps_layout(v: TranslatorView, name: Seq<char>, d: Seq<char>)
    requires
        rust_scalar(d) is Some,
    ensures
        ({
            let r = rust_scalar(d).unwrap();
            &&& exists|n: Seq<char>| #[trigger] cpp_fits(n, r)
                && simple_type_spec(v, LanguageType::CPP, name, d).cpp == v.cpp + "\t"@ + n + " "@ + name + ";\n"@
            &&& cs_covers(d) ==> exists|n: Seq<char>| #[trigger] cs_fits(n, r)
                && simple_type_spec(v, LanguageType::CSharp, name, d).cs == v.cs + "\t\tpublic "@ + n + " "@ + name
                + ";\n"@
            &&& exists|n: Seq<char>| #[trigger] py_fits(n, r)
                && simple_type_spec(v, LanguageType::Python, name, d).py_lines == v.py_lines.push(
                "        (\""@ + name + "\", "@ + n + "),\n"@)
                && simple_type_spec(v, LanguageType::Python, name, d).py_used.contains(n)
        }),
{
    let r = rust_scalar(d).unwrap();
    law_tables_keep_layout(d);
    let c = cpp_map(d).unwrap();
    assert(cpp_fits(c, r));
    let p = py_map(d).unwrap();
    assert(py_fits(p, r));
    let u = simple_type_spec(v, LanguageType::Python, name, d).py_used;
    if v.py_used.contains(p) {
    } else {
        assert(u.last() == p);
    }
    assert(u.contains(p));
    if cs_covers(d) {
        let n = cs_map(d).unwrap();
        assert(cs_fits(n, r));
    }
}

/// A field that points to a Rust scalar type `d` other than `c_char` and
/// `c_void` is declared in C++ as a pointer to a type of the same size and
/// kind, `\t<T>* name;`, and in Python as `POINTER(<T>)`; a pointer to
/// `c_char` is a C string: `\tchar* name;` in C++ and `string` in C#.
pub proof fn law_pointer_field_keeps_layout(v: TranslatorView, name: Seq<char>, d: Seq<char>)
    ensures
        rust_scalar(d) is Some && d != "c_char"@ && d != "c_void"@ ==> ({
            let r = rust_scalar(d).unwrap();
            &&& exists|n: Seq<char>| #[trigger] cpp_fits(n, r)
                && pointer_spec(v, LanguageType::CPP, name, d).cpp == v.cpp + "\t"@ + n + "* "@ + name + ";\n"@
            &&& exists|n: Seq<char>| #[trigger] py_fits(n, r)
                && pointer_spec(v, LanguageType::Python, name, d).py_lines == v.py_lines.push(
                "        (\""@ + name + "\", POINTER("@ + n + ")),\n"@)
        }),
        d == "c_char"@ ==> pointer_spec(v, LanguageType::CPP, name, d).cpp == v.cpp + "\t"@ + "char"@ + "* "@
            + name + ";\n"@,
        d == "c_char"@ ==> pointer_spec(v, LanguageType::CSharp, name, d).cs == v.cs
            + "\t\t[MarshalAs(UnmanagedType.LPStr)]\n"@ + "\t\tpublic "@ + "string"@ + " "@ + name + ";\n"@,
        d == "c_char"@ ==> pointer_spec(v, LanguageType::Python, name, d).py_lines == v.py_lines.push(
            "        (\""@ + name + "\", "@ + "c_char_p"@ + "),\n"@),
        d == "c_void"@ ==> pointer_spec(v, LanguageType::CPP, name, d).cpp == v.cpp + "\t"@ + "void"@ + "* "@
            + name + ";\n"@,
        d == "c_void"@ ==> pointer_spec(v, LanguageType::Python, name, d).py_lines == v.py_lines.push(
            "        (\""@ + name + "\", "@ + "c_void_p"@ + "),\n"@),
        (cs_covers(d) && d != "c_char"@) || d == "c_void"@ ==> pointer_spec(v, LanguageType::CSharp, name, d).cs
            == v.cs + "\t\t//This is a '"@ + d + "' type\n"@ + "\t\tpublic IntPtr "@ + name + ";\n"@,
{
    lemma_literals();
    if rust_scalar(d) is Some && d != "c_char"@ && d != "c_void"@ {
        let r = rust_scalar(d).unwrap();
        law_tables_keep_layout(d);
        assert(crate::filewriter::ptr_lookup(d) == d);
        let c = cpp_map(d).unwrap();
        assert(cpp_fits(c, r));
        let p = py_map(d).unwrap();
        assert(py_fits(p, r));
        assert(d != "c_char_pntr"@);
    }
    if d == "c_char"@ {
        assert(cpp_map("c_char_pntr"@) == Some("char"@));
        assert(cs_map("c_char_pntr"@) == Some("string"@));
        assert(py_map("c_char_pntr"@) == Some("c_char_p"@));
    }
    if d == "c_void"@ {
        assert(cpp_map("c_void"@) == Some("void"@));
        assert(py_map("c_void"@) == Some("c_void_p"@));
        assert(cs_map("c_void"@) == Some("IntPtr"@));
    }
    if cs_covers(d) && d != "c_char"@ {
        law_tables_keep_layout(d);
        assert(crate::filewriter::ptr_lookup(d) == d);
        assert(d != "c_char_pntr"@);
        assert(cs_map(d) is Some);
    }
}

/// The Python entry of array field `name` is `("name", <n> * len)`, `<n>`
/// being the element type's own name when the Python table has no entry for
/// it, and a type of the same size and kind when it is a Rust scalar.
pub open spec fn py_array_entry(v: TranslatorView, name: Seq<char>, len: nat, d: Seq<char>, n: Seq<char>) -> bool {
    &&& array_spec(v, LanguageType::Python, name, len, d).py_lines == v.py_lines.push(
        "        (\""@ + name + "\", "@ + n + " * "@ + decimal(len) + "),\n"@)
    &&& py_map(d) is None ==> n == d
    &&& rust_scalar(d) matches Some(r) ==> py_fits(n, r)
}

/// The C++ declaration of array field `name` is `\t<n> name[len];`.
pub open spec fn cpp_array_entry(v: TranslatorView, name: Seq<char>, len: nat, d: Seq<char>, n: Seq<char>) -> bool {
    &&& array_spec(v, LanguageType::CPP, name, len, d).cpp == v.cpp + "\t"@ + n + " "@ + name + "["@
        + decimal(len) + "];\n"@
    &&& cpp_map(d) is None ==> n == d
    &&& rust_scalar(d) matches Some(r) ==> cpp_fits(n, r)
}

/// The C# declaration of array field `name` is a marshalling attribute that
/// ends in `len)]`, then `\t\tpublic <n>[] name;`.
pub open spec fn cs_array_entry(
    v: TranslatorView,
    name: Seq<char>,
    len: nat,
    d: Seq<char>,
    attr: Seq<char>,
    n: Seq<char>,
) -> bool {
    &&& array_spec(v, LanguageType::CSharp, name, len, d).cs == v.cs + attr + decimal(len) + ")]\n"@
        + "\t\tpublic "@ + n + "[] "@ + name + ";\n"@
    &&& cs_map(d) is None ==> n == d
    &&& cs_covers(d) ==> cs_fits(n, rust_scalar(d).unwrap())
}

/// An array field of `len` elements declares its whole length in every
/// output, whatever the element type: `[len]` in C++, `SizeConst` in C#, and
/// `<T> * len` among the Python fields; an element type that is a Rust
/// scalar keeps its size and kind.
pub proof fn law_array_field_keeps_length(v: TranslatorView, name: Seq<char>, len: nat, d: Seq<char>)
    ensures
        exists|n: Seq<char>| #[trigger] py_array_entry(v, name, len, d, n),
        exists|n: Seq<char>| #[trigger] cpp_array_entry(v, name, len, d, n),
        exists|attr: Seq<char>, n: Seq<char>| #[trigger] cs_array_entry(v, name, len, d, attr, n),
{
    law_tables_keep_layout(d);
    let p = match py_map(d) { Some(t) => t, None => d };
    assert(py_array_entry(v, name, len, d, p));
    let c = match cpp_map(d) { Some(t) => t, None => d };
    assert(cpp_array_entry(v, name, len, d, c));
    let s = match cs_map(d) { Some(t) => t, None => d };
    let attr = if cs_map(d) == Some("string"@) {
        "\t\t[MarshalAs(UnmanagedType.LPArray, ArraySubType=UnmanagedType.LPStr, SizeConst="@
    } else {
        "\t\t[MarshalAs(UnmanagedType.ByValArray, SizeConst = "@
    };
    assert(cs_array_entry(v, name, len, d, attr, s));
}


/// The tables name nothing but the Rust scalar types, `c_void`, and
/// `c_char_pntr` (the name under which a pointer to `c_char` is looked up):
/// any other type, such as a struct, keeps its own name in every language.
pub proof fn law_tables_map_only_known_types(t: Seq<char>)
    ensures
        cpp_map(t) is Some ==> rust_scalar(t) is Some || t == "c_char_pntr"@ || t == "c_void"@,
        py_map(t) is Some ==> rust_scalar(t) is Some || t == "c_char_pntr"@ || t == "c_void"@,
        cs_map(t) is Some ==> rust_scalar(t) is Some || t == "c_char_pntr"@ || t == "c_void"@,
{
    lemma_literals();
    if cpp_map(t) is Some || py_map(t) is Some || cs_map(t) is Some {
        if t == "bool"@ {
            assert(rust_scalar(t) is Some || t == "c_char_pntr"@ || t == "c_void"@);
        } else if t == "c_char"@ {
            assert(rust_scalar(t) is Some || t == "c_char_pntr"@ || t == "c_void"@);
        } else if t == "c_char_pntr"@ {
            assert(rust_scalar(t) is Some || t == "c_char_pntr"@ || t == "c_void"@);
        } else if t == "i8"@ {
            assert(rust_scalar(t) is Some || t == "c_char_pntr"@ || t == "c_void"@);
        } else if t == "c_schar"@ {
            assert(rust_scalar(t) is Some || t == "c_char_pntr"@ || t == "c_void"@);
        } else if t == "u8"@ {
            assert(rust_scalar(t) is Some || t == "c_char_pntr"@ || t == "c_void"@);
        } else if t == "c_uchar"@ {
            assert(rust_scalar(t) is Some || t == "c_char_pntr"@ || t == "c_void"@);
        } else if t == "u16"@ {
            assert(rust_scalar(t) is Some || t == "c_char_pntr"@ || t == "c_void"@);
        } else if t == "c_ushort"@ {
            assert(rust_scalar(t) is Some || t == "c_char_pntr"@ || t == "c_void"@);
        } else if t == "i16"@ {
            assert(rust_scalar(t) is Some || t == "c_char_pntr"@ || t == "c_void"@);
        } else if t == "c_short"@ {
            assert(rust_scalar(t) is Some || t == "c_char_pntr"@ || t == "c_void"@);
        } else if t == "c_void"@ {
            assert(rust_scalar(t) is Some || t == "c_char_pntr"@ || t == "c_void"@);
        } else if t == "u32"@ {
            assert(rust_scalar(t) is Some || t == "c_char_pntr"@ || t == "c_void"@);
        } else if t == "c_uint"@ {
            assert(rust_scalar(t) is Some || t == "c_char_pntr"@ || t == "c_void"@);
        } else if t == "i32"@ {
            assert(rust_scalar(t) is Some || t == "c_char_pntr"@ || t == "c_void"@);
        } else if t == "c_int"@ {
            assert(rust_scalar(t) is Some || t == "c_char_pntr"@ || t == "c_void"@);
        } else if t == "f32"@ {
            assert(rust_scalar(t) is Some || t == "c_char_pntr"@ || t == "c_void"@);
        } else if t == "c_float"@ {
            assert(rust_scalar(t) is Some || t == "c_char_pntr"@ || t == "c_void"@);
        } else if t == "i64"@ {
            assert(rust_scalar(t) is Some || t == "c_char_pntr"@ || t == "c_void"@);
        } else if t == "u64"@ {
            assert(rust_scalar(t) is Some || t == "c_char_pntr"@ || t == "c_void"@);
        } else if t == "c_long"@ {
            assert(rust_scalar(t) is Some || t == "c_char_pntr"@ || t == "c_void"@);
        } else if t == "c_longlong"@ {
            assert(rust_scalar(t) is Some || t == "c_char_pntr"@ || t == "c_void"@);
        } else if t == "c_ulong"@ {
            assert(rust_scalar(t) is Some || t == "c_char_pntr"@ || t == "c_void"@);
        } else if t == "c_ulonglong"@ {
            assert(rust_scalar(t) is Some || t == "c_char_pntr"@ || t == "c_void"@);
        } else if t == "c_double"@ {
            assert(rust_scalar(t) is Some || t == "c_char_pntr"@ || t == "c_void"@);
        } else if t == "f64"@ {
            assert(rust_scalar(t) is Some || t == "c_char_pntr"@ || t == "c_void"@);
        }
    }
}

/// A field whose type has no entry in a language's table is declared there
/// under the type's own name: `\t<d> name;` in C++, `\t\tpublic <d> name;`
/// in C#, `("name", <d>)` in Python (leaving the imports alone); a pointer
/// to it is `\t<d>* name;` in C++, `POINTER(<d>)` in Python, and an
/// `LPStruct` field of type `<d>` in C#.
pub proof fn law_unmapped_types_keep_their_name(v: TranslatorView, name: Seq<char>, d: Seq<char>)
    ensures
        cpp_map(d) is None ==> simple_type_spec(v, LanguageType::CPP, name, d).cpp == v.cpp + "\t"@ + d
            + " "@ + name + ";\n"@,
        cs_map(d) is None ==> simple_type_spec(v, LanguageType::CSharp, name, d).cs == v.cs + "\t\tpublic "@
            + d + " "@ + name + ";\n"@,
        py_map(d) is None ==> simple_type_spec(v, LanguageType::Python, name, d).py_lines == v.py_lines.push(
            "        (\""@ + name + "\", "@ + d + "),\n"@)
            && simple_type_spec(v, LanguageType::Python, name, d).py_used == v.py_used,
        cpp_map(d) is None && d != "c_char"@ ==> pointer_spec(v, LanguageType::CPP, name, d).cpp == v.cpp
            + "\t"@ + d + "* "@ + name + ";\n"@,
        py_map(d) is None && d != "c_char"@ ==> pointer_spec(v, LanguageType::Python, name, d).py_lines
            == v.py_lines.push("        (\""@ + name + "\", POINTER("@ + d + ")),\n"@),
        cs_map(d) is None && d != "c_char"@ ==> pointer_spec(v, LanguageType::CSharp, name, d).cs == v.cs
            + "\t\t[MarshalAs(UnmanagedType.LPStruct)]\n"@ + "\t\tpublic "@ + d + " "@ + name + ";\n"@,
{
    if d != "c_char"@ {
        assert(crate::filewriter::ptr_lookup(d) == d);
    }
}

/// The digits' value of a decimal notation.
pub open spec fn digits_value(s: Seq<char>) -> int
    decreases s.len(),
{
    if s.len() == 0 {
        0
    } else {
        digits_value(s.drop_last()) * 10 + (s.last() as int - '0' as int)
    }
}

proof fn lemma_digit(d: nat)
    requires
        d < 10,
    ensures
        digit_char(d) as int == d + '0' as int,
        '0' <= digit_char(d) <= '9',
        d != 0 ==> digit_char(d) != '0',
{
}

/// The decimal notation of `n` consists of decimal digits, has no leading
/// zero, and reads back as `n`: array lengths are written as their value.
pub proof fn law_decimal_reads_back(n: nat)
    ensures
        digits_value(decimal(n)) == n,
        forall|i: int| 0 <= i < decimal(n).len() ==> '0' <= #[trigger] decimal(n)[i] <= '9',
        decimal(n).len() >= 1,
        decimal(n).len() > 1 ==> decimal(n)[0] != '0',
    decreases n,
{
    let s = decimal(n);
    if n < 10 {
        lemma_digit(n);
        assert(s.drop_last() =~= Seq::<char>::empty());
        assert(digits_value(s) == digits_value(s.drop_last()) * 10 + (s.last() as int - '0' as int));
    } else {
        law_decimal_reads_back(n / 10);
        lemma_digit(n % 10);
        let q = decimal(n / 10);
        assert(s == q + seq![digit_char(n % 10)]);
        assert(s.drop_last() =~= q);
        assert(s.last() == digit_char(n % 10));
        assert(digits_value(s) == digits_value(q) * 10 + (s.last() as int - '0' as int));
        assert((n / 10) * 10 + n % 10 == n) by (nonlinear_arith);
        assert(s[0] == q[0]);
        if n / 10 < 10 {
            lemma_digit(n / 10);
            assert(q[0] == digit_char(n / 10));
        } else {
            law_decimal_reads_back(n / 10 / 10);
            assert(q == decimal(n / 10 / 10) + seq![digit_char((n / 10) % 10)]);
            assert(q.len() > 1);
        }
        assert forall|i: int| 0 <= i < s.len() implies '0' <= #[trigger] s[i] <= '9' by {
            if i < s.len() - 1 {
                assert(s[i] == q[i]);
            }
        }
    }
}

/// The names, separated by commas.
pub open spec fn comma_joined(used: Seq<Seq<char>>) -> Seq<char>
    decreases used.len(),
{
    if used.len() <= 1 {
        if used.len() == 1 { used[0] } else { seq![] }
    } else {
        comma_joined(used.drop_last()) + ","@ + used.last()
    }
}

proof fn lemma_comma_terminated(used: Seq<Seq<char>>)
    requires
        used.len() >= 1,
    ensures
        crate::filewriter::comma_terminated(used) == comma_joined(used) + ","@,
    decreases used.len(),
{
    if used.len() == 1 {
        assert(used.drop_last() =~= Seq::<Seq<char>>::empty());
        assert(crate::filewriter::comma_terminated(used.drop_last()) =~= Seq::<char>::empty());
        assert(used.last() == used[0]);
        assert(comma_joined(used) == used[0]);
        assert(crate::filewriter::comma_terminated(used) =~= comma_joined(used) + ","@);
    } else {
        lemma_comma_terminated(used.drop_last());
        assert(crate::filewriter::comma_terminated(used) =~= comma_joined(used) + ","@);
    }
}

/// The Python import line names the imported types, separated by commas
/// with no comma at the end: `from ctypes import A,B,C`.
pub proof fn law_import_line_lists_names(used: Seq<Seq<char>>)
    requires
        used.len() >= 1,
    ensures
        crate::filewriter::import_line(used) == "from ctypes import "@ + comma_joined(used),
{
    lemma_comma_terminated(used);
    reveal_strlit(",");
    let p = "from ctypes import "@;
    assert(p + crate::filewriter::comma_terminated(used) =~= (p + comma_joined(used)) + ","@);
    assert(((p + comma_joined(used)) + ","@).drop_last() =~= p + comma_joined(used));
}
} // verus!
