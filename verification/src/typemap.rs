//! The tables that name each Rust type in the three target languages.

use vstd::prelude::*;
use crate::text::str_eq;

verus! {

/// The C++ name of a Rust type, where the table has one.
pub open spec fn cpp_map(t: Seq<char>) -> Option<Seq<char>> {
    if t == "bool"@ {
        Some("bool"@)
    } else if t == "c_char"@ {
        Some("signed char"@)
    } else if t == "c_char_pntr"@ {
        Some("char"@)
    } else if t == "i8"@ {
        Some("int8_t"@)
    } else if t == "c_schar"@ {
        Some("signed char"@)
    } else if t == "u8"@ {
        Some("uint8_t"@)
    } else if t == "c_uchar"@ {
        Some("unsigned char"@)
    } else if t == "u16"@ {
        Some("uint16_t"@)
    } else if t == "c_ushort"@ {
        Some("unsigned short"@)
    } else if t == "i16"@ {
        Some("int16_t"@)
    } else if t == "c_short"@ {
        Some("short"@)
    } else if t == "c_void"@ {
        Some("void"@)
    } else if t == "u32"@ {
        Some("uint32_t"@)
    } else if t == "c_uint"@ {
        Some("unsigned int"@)
    } else if t == "i32"@ {
        Some("int32_t"@)
    } else if t == "c_int"@ {
        Some("int"@)
    } else if t == "f32"@ {
        Some("float"@)
    } else if t == "c_float"@ {
        Some("float"@)
    } else if t == "i64"@ {
        Some("int64_t"@)
    } else if t == "u64"@ {
        Some("uint64_t"@)
    } else if t == "c_long"@ {
        Some("long long int"@)
    } else if t == "c_longlong"@ {
        Some("long long int"@)
    } else if t == "c_ulong"@ {
        Some("unsigned long long int"@)
    } else if t == "c_ulonglong"@ {
        Some("unsigned long long int"@)
    } else if t == "c_double"@ {
        Some("double"@)
    } else if t == "f64"@ {
        Some("double"@)
    } else {
        None
    }
}

/// Looks a Rust type up in the C++ table.
pub fn cpp_type(t: &str) -> (r: Option<&'static str>)
    ensures
        match r { Some(x) => cpp_map(t@) == Some(x@), None => cpp_map(t@) is None },
{
    if str_eq(t, "bool") {
        Some("bool")
    } else if str_eq(t, "c_char") {
        Some("signed char")
    } else if str_eq(t, "c_char_pntr") {
        Some("char")
    } else if str_eq(t, "i8") {
        Some("int8_t")
    } else if str_eq(t, "c_schar") {
        Some("signed char")
    } else if str_eq(t, "u8") {
        Some("uint8_t")
    } else if str_eq(t, "c_uchar") {
        Some("unsigned char")
    } else if str_eq(t, "u16") {
        Some("uint16_t")
    } else if str_eq(t, "c_ushort") {
        Some("unsigned short")
    } else if str_eq(t, "i16") {
        Some("int16_t")
    } else if str_eq(t, "c_short") {
        Some("short")
    } else if str_eq(t, "c_void") {
        Some("void")
    } else if str_eq(t, "u32") {
        Some("uint32_t")
    } else if str_eq(t, "c_uint") {
        Some("unsigned int")
    } else if str_eq(t, "i32") {
        Some("int32_t")
    } else if str_eq(t, "c_int") {
        Some("int")
    } else if str_eq(t, "f32") {
        Some("float")
    } else if str_eq(t, "c_float") {
        Some("float")
    } else if str_eq(t, "i64") {
        Some("int64_t")
    } else if str_eq(t, "u64") {
        Some("uint64_t")
    } else if str_eq(t, "c_long") {
        Some("long long int")
    } else if str_eq(t, "c_longlong") {
        Some("long long int")
    } else if str_eq(t, "c_ulong") {
        Some("unsigned long long int")
    } else if str_eq(t, "c_ulonglong") {
        Some("unsigned long long int")
    } else if str_eq(t, "c_double") {
        Some("double")
    } else if str_eq(t, "f64") {
        Some("double")
    } else {
        None
    }
}

/// The Python ctypes name of a Rust type, where the table has one.
pub open spec fn py_map(t: Seq<char>) -> Option<Seq<char>> {
    if t == "bool"@ {
        Some("c_bool"@)
    } else if t == "c_char"@ {
        Some("c_byte"@)
    } else if t == "i8"@ {
        Some("c_byte"@)
    } else if t == "c_schar"@ {
        Some("c_byte"@)
    } else if t == "c_char_pntr"@ {
        Some("c_char_p"@)
    } else if t == "u8"@ {
        Some("c_ubyte"@)
    } else if t == "c_uchar"@ {
        Some("c_ubyte"@)
    } else if t == "u16"@ {
        Some("c_ushort"@)
    } else if t == "c_ushort"@ {
        Some("c_ushort"@)
    } else if t == "i16"@ {
        Some("c_short"@)
    } else if t == "c_short"@ {
        Some("c_short"@)
    } else if t == "c_void"@ {
        Some("c_void_p"@)
    } else if t == "u32"@ {
        Some("c_uint"@)
    } else if t == "c_uint"@ {
        Some("c_uint"@)
    } else if t == "i32"@ {
        Some("c_int"@)
    } else if t == "c_int"@ {
        Some("c_int"@)
    } else if t == "f32"@ {
        Some("c_float"@)
    } else if t == "c_float"@ {
        Some("c_float"@)
    } else if t == "i64"@ {
        Some("c_longlong"@)
    } else if t == "u64"@ {
        Some("c_ulonglong"@)
    } else if t == "c_long"@ {
        Some("c_longlong"@)
    } else if t == "c_longlong"@ {
        Some("c_longlong"@)
    } else if t == "c_ulong"@ {
        Some("c_ulonglong"@)
    } else if t == "c_ulonglong"@ {
        Some("c_ulonglong"@)
    } else if t == "c_double"@ {
        Some("c_double"@)
    } else if t == "f64"@ {
        Some("c_double"@)
    } else {
        None
    }
}

/// Looks a Rust type up in the Python ctypes table.
pub fn py_type(t: &str) -> (r: Option<&'static str>)
    ensures
        match r { Some(x) => py_map(t@) == Some(x@), None => py_map(t@) is None },
{
    if str_eq(t, "bool") {
        Some("c_bool")
    } else if str_eq(t, "c_char") {
        Some("c_byte")
    } else if str_eq(t, "i8") {
        Some("c_byte")
    } else if str_eq(t, "c_schar") {
        Some("c_byte")
    } else if str_eq(t, "c_char_pntr") {
        Some("c_char_p")
    } else if str_eq(t, "u8") {
        Some("c_ubyte")
    } else if str_eq(t, "c_uchar") {
        Some("c_ubyte")
    } else if str_eq(t, "u16") {
        Some("c_ushort")
    } else if str_eq(t, "c_ushort") {
        Some("c_ushort")
    } else if str_eq(t, "i16") {
        Some("c_short")
    } else if str_eq(t, "c_short") {
        Some("c_short")
    } else if str_eq(t, "c_void") {
        Some("c_void_p")
    } else if str_eq(t, "u32") {
        Some("c_uint")
    } else if str_eq(t, "c_uint") {
        Some("c_uint")
    } else if str_eq(t, "i32") {
        Some("c_int")
    } else if str_eq(t, "c_int") {
        Some("c_int")
    } else if str_eq(t, "f32") {
        Some("c_float")
    } else if str_eq(t, "c_float") {
        Some("c_float")
    } else if str_eq(t, "i64") {
        Some("c_longlong")
    } else if str_eq(t, "u64") {
        Some("c_ulonglong")
    } else if str_eq(t, "c_long") {
        Some("c_longlong")
    } else if str_eq(t, "c_longlong") {
        Some("c_longlong")
    } else if str_eq(t, "c_ulong") {
        Some("c_ulonglong")
    } else if str_eq(t, "c_ulonglong") {
        Some("c_ulonglong")
    } else if str_eq(t, "c_double") {
        Some("c_double")
    } else if str_eq(t, "f64") {
        Some("c_double")
    } else {
        None
    }
}

/// The C# name of a Rust type, where the table has one.
pub open spec fn cs_map(t: Seq<char>) -> Option<Seq<char>> {
    if t == "bool"@ {
        Some("byte"@)
    } else if t == "c_char"@ {
        Some("sbyte"@)
    } else if t == "i8"@ {
        Some("sbyte"@)
    } else if t == "c_schar"@ {
        Some("sbyte"@)
    } else if t == "c_char_pntr"@ {
        Some("string"@)
    } else if t == "u8"@ {
        Some("byte"@)
    } else if t == "c_uchar"@ {
        Some("byte"@)
    } else if t == "u16"@ {
        Some("ushort"@)
    } else if t == "c_ushort"@ {
        Some("ushort"@)
    } else if t == "i16"@ {
        Some("short"@)
    } else if t == "c_short"@ {
        Some("short"@)
    } else if t == "c_void"@ {
        Some("IntPtr"@)
    } else if t == "u32"@ {
        Some("uint"@)
    } else if t == "c_uint"@ {
        Some("uint"@)
    } else if t == "i32"@ {
        Some("int"@)
    } else if t == "c_int"@ {
        Some("int"@)
    } else if t == "f32"@ {
        Some("float"@)
    } else if t == "c_float"@ {
        Some("float"@)
    } else if t == "i64"@ {
        Some("long"@)
    } else if t == "u64"@ {
        Some("ulong"@)
    } else if t == "c_long"@ {
        Some("long"@)
    } else if t == "c_longlong"@ {
        Some("long"@)
    } else if t == "c_double"@ {
        Some("double"@)
    } else if t == "f64"@ {
        Some("double"@)
    } else {
        None
    }
}

/// Looks a Rust type up in the C# table.
pub fn cs_type(t: &str) -> (r: Option<&'static str>)
    ensures
        match r { Some(x) => cs_map(t@) == Some(x@), None => cs_map(t@) is None },
{
    if str_eq(t, "bool") {
        Some("byte")
    } else if str_eq(t, "c_char") {
        Some("sbyte")
    } else if str_eq(t, "i8") {
        Some("sbyte")
    } else if str_eq(t, "c_schar") {
        Some("sbyte")
    } else if str_eq(t, "c_char_pntr") {
        Some("string")
    } else if str_eq(t, "u8") {
        Some("byte")
    } else if str_eq(t, "c_uchar") {
        Some("byte")
    } else if str_eq(t, "u16") {
        Some("ushort")
    } else if str_eq(t, "c_ushort") {
        Some("ushort")
    } else if str_eq(t, "i16") {
        Some("short")
    } else if str_eq(t, "c_short") {
        Some("short")
    } else if str_eq(t, "c_void") {
        Some("IntPtr")
    } else if str_eq(t, "u32") {
        Some("uint")
    } else if str_eq(t, "c_uint") {
        Some("uint")
    } else if str_eq(t, "i32") {
        Some("int")
    } else if str_eq(t, "c_int") {
        Some("int")
    } else if str_eq(t, "f32") {
        Some("float")
    } else if str_eq(t, "c_float") {
        Some("float")
    } else if str_eq(t, "i64") {
        Some("long")
    } else if str_eq(t, "u64") {
        Some("ulong")
    } else if str_eq(t, "c_long") {
        Some("long")
    } else if str_eq(t, "c_longlong") {
        Some("long")
    } else if str_eq(t, "c_double") {
        Some("double")
    } else if str_eq(t, "f64") {
        Some("double")
    } else {
        None
    }
}

} // verus!
