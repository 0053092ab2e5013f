use translator::text::{contains_str, push_decimal, str_eq};
use translator::typemap::{cpp_type, cs_type, py_type};

#[test]
fn string_equality() {
    assert!(str_eq("abc", "abc"));
    assert!(!str_eq("abc", "abd"));
    assert!(!str_eq("abc", "ab"));
    assert!(str_eq("", ""));
    assert!(str_eq("é☃", "é☃"));
}

#[test]
fn list_membership() {
    let v = vec!["Structure".to_string(), "c_int".to_string()];
    assert!(contains_str(&v, "c_int"));
    assert!(!contains_str(&v, "c_uint"));
    assert!(!contains_str(&Vec::new(), "x"));
}

#[test]
fn decimal_notation() {
    let mut s = String::from("n=");
    push_decimal(&mut s, 0);
    assert_eq!(s, "n=0");
    let mut s = String::new();
    push_decimal(&mut s, 907);
    assert_eq!(s, "907");
    let mut s = String::new();
    push_decimal(&mut s, u64::MAX);
    assert_eq!(s, u64::MAX.to_string());
}

#[test]
fn type_tables() {
    assert_eq!(cpp_type("i32"), Some("int32_t"));
    assert_eq!(cpp_type("c_ulonglong"), Some("unsigned long long int"));
    assert_eq!(cpp_type("c_char_pntr"), Some("char"));
    assert_eq!(cpp_type("Baz"), None);
    assert_eq!(cpp_type("i128"), None);
    assert_eq!(py_type("bool"), Some("c_bool"));
    assert_eq!(py_type("c_void"), Some("c_void_p"));
    assert_eq!(py_type("u64"), Some("c_ulonglong"));
    assert_eq!(cs_type("c_char_pntr"), Some("string"));
    assert_eq!(cs_type("c_void"), Some("IntPtr"));
    assert_eq!(cs_type("c_ulong"), None);
    assert_eq!(cs_type("f64"), Some("double"));
}
