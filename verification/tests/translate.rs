use translator::derive::{
    check_finalized, check_magic_struct, error_message, impl_translate, output_action, Outcome,
    OutputAction,
};
use translator::filewriter::{
    add_array, add_pointer, add_simple_type, close_file, close_struct, file_opening,
    start_struct, LanguageType, TranslateError, Translator,
};
use translator::model::{
    get_array_len, is_repr_c_attrs, ArrayLen, AttrToken, Attribute, Data, DeriveInput,
    ElemType, Field, FieldType, Fields, GroupToken, TypeArray,
};

fn attr(path: &str, words: &[&str]) -> Attribute {
    let group = words.iter().map(|w| GroupToken::Term(w.to_string())).collect();
    Attribute { path: path.to_string(), tokens: vec![AttrToken::Group(group)] }
}

fn repr_c() -> Vec<Attribute> {
    vec![attr("repr", &["C"])]
}

fn field(name: &str, ty: FieldType) -> Field {
    Field { name: name.to_string(), ty }
}

fn path(t: &str) -> FieldType {
    FieldType::Path(t.to_string())
}

fn array(t: &str, len: u64) -> FieldType {
    FieldType::Array(TypeArray { elem: ElemType::Path(t.to_string()), len: ArrayLen::Int(len) })
}

fn pointer(t: &str) -> FieldType {
    FieldType::Ptr(ElemType::Path(t.to_string()))
}

fn strukt(attrs: Vec<Attribute>, name: &str, fields: Vec<Field>) -> DeriveInput {
    DeriveInput { attrs, ident: name.to_string(), data: Data::Struct(Fields::Named(fields)) }
}

fn finalizer() -> DeriveInput {
    strukt(vec![], "__FinalizeTranslatorStruct__", vec![])
}

const CPP_HEAD: &str = "#include <stdbool.h>\n#include <cstdint>\n\n#ifndef TranslateOutput_H\n#define TranslateOutput_H\n\n";
const CS_HEAD: &str = "using System;\nusing System.Linq;\nusing System.Runtime.InteropServices;\n\nnamespace TranslateOutput\n{\n";

#[test]
fn it_works() {
    assert_eq!(2 + 2, 4);
}

#[test]
fn lib_it_works() {
    assert_eq!(2 + 2, 4);
}

#[test]
fn readme_example_is_translated() {
    let mut t = Translator::new("TranslateOutput");
    let some = strukt(
        repr_c(),
        "SomeStruct",
        vec![
            field("foo", path("i32")),
            field("bar", path("Baz")),
            field("foobar", array("u8", 5)),
            field("test_c_char", pointer("c_char")),
        ],
    );
    let baz = strukt(repr_c(), "Baz", vec![field("bob", path("f32"))]);
    assert_eq!(impl_translate(&mut t, some), Ok(Outcome::Translated));
    assert_eq!(impl_translate(&mut t, baz), Ok(Outcome::Translated));
    assert_eq!(impl_translate(&mut t, finalizer()), Ok(Outcome::Finalized));
    assert!(t.is_closed());
    let cpp = format!(
        "{}typedef struct SomeStructTag {{\n\tint32_t foo;\n\tBaz bar;\n\tuint8_t foobar[5];\n\tchar* test_c_char;\n}} SomeStruct;\n\ntypedef struct BazTag {{\n\tfloat bob;\n}} Baz;\n\n\n#endif",
        CPP_HEAD
    );
    assert_eq!(t.cpp_text(), cpp);
    let cs = format!(
        "{}\t[StructLayout(LayoutKind.Sequential)]\n\tpublic struct SomeStruct\n\t{{\n\t\tpublic int foo;\n\t\tpublic Baz bar;\n\t\t[MarshalAs(UnmanagedType.ByValArray, SizeConst = 5)]\n\t\tpublic byte[] foobar;\n\t\t[MarshalAs(UnmanagedType.LPStr)]\n\t\tpublic string test_c_char;\n\t}}\n\n\t[StructLayout(LayoutKind.Sequential)]\n\tpublic struct Baz\n\t{{\n\t\tpublic float bob;\n\t}}\n\n\n}}",
        CS_HEAD
    );
    assert_eq!(t.cs_text(), cs);
    let py = "\nfrom ctypes import Structure,c_int,c_ubyte,c_char_p,c_float\n\nclass SomeStruct(Structure):\n    _fields_ = [\n        (\"foo\", c_int),\n        (\"bar\", Baz),\n        (\"foobar\", c_ubyte * 5),\n        (\"test_c_char\", c_char_p),\n        ]\n\nclass Baz(Structure):\n    _fields_ = [\n        (\"bob\", c_float),\n        ]\n\n";
    assert_eq!(t.py_text(), py);
}

#[test]
fn fresh_outputs_hold_headers() {
    let t = Translator::new("Out");
    assert_eq!(
        t.cpp_text(),
        "#include <stdbool.h>\n#include <cstdint>\n\n#ifndef Out_H\n#define Out_H\n\n"
    );
    assert_eq!(
        t.cs_text(),
        "using System;\nusing System.Linq;\nusing System.Runtime.InteropServices;\n\nnamespace Out\n{\n"
    );
    assert_eq!(t.py_text(), "");
    assert!(!t.is_closed());
}

#[test]
fn non_repr_c_struct_is_ignored() {
    let mut t = Translator::new("TranslateOutput");
    let s = strukt(vec![attr("derive", &["Clone", "Copy"])], "Plain", vec![field("a", path("i32"))]);
    assert_eq!(impl_translate(&mut t, s), Ok(Outcome::Ignored));
    assert_eq!(t.cpp_text(), CPP_HEAD);
    assert_eq!(t.cs_text(), CS_HEAD);
    assert!(!t.is_closed());
}

#[test]
fn repr_c_detection() {
    assert!(is_repr_c_attrs(&repr_c()));
    assert!(!is_repr_c_attrs(&vec![]));
    assert!(is_repr_c_attrs(&vec![attr("repr", &["C"]), attr("allow", &["dead_code"])]));
    assert!(is_repr_c_attrs(&vec![attr("derive", &["Clone"]), attr("repr", &["C"])]));
    assert!(is_repr_c_attrs(&vec![attr("repr", &["packed", "C"])]));
    assert!(!is_repr_c_attrs(&vec![attr("allow", &["C"])]));
    assert!(!is_repr_c_attrs(&vec![attr("repr", &["u8"])]));
    assert!(!is_repr_c_attrs(&vec![Attribute { path: "repr".to_string(), tokens: vec![AttrToken::Other] }]));
    let mixed = Attribute {
        path: "repr".to_string(),
        tokens: vec![
            AttrToken::Other,
            AttrToken::Group(vec![GroupToken::Other, GroupToken::Term("C".to_string())]),
        ],
    };
    assert!(is_repr_c_attrs(&vec![mixed]));
}

#[test]
fn repr_c_struct_with_other_attributes_is_translated() {
    let mut t = Translator::new("TranslateOutput");
    let s = strukt(
        vec![attr("repr", &["C"]), attr("allow", &["dead_code"])],
        "A",
        vec![field("x", path("i32"))],
    );
    assert_eq!(impl_translate(&mut t, s), Ok(Outcome::Translated));
    assert_eq!(t.cpp_text(), format!("{}typedef struct ATag {{\n\tint32_t x;\n}} A;\n\n", CPP_HEAD));
}

#[test]
fn word_c_outside_repr_is_not_repr_c() {
    let mut t = Translator::new("TranslateOutput");
    let s = strukt(vec![attr("allow", &["C"])], "B", vec![field("x", path("i32"))]);
    assert_eq!(impl_translate(&mut t, s), Ok(Outcome::Ignored));
    assert_eq!(t.cpp_text(), CPP_HEAD);
}

#[test]
fn enum_with_repr_c_is_ignored() {
    let mut t = Translator::new("TranslateOutput");
    let e = DeriveInput { attrs: repr_c(), ident: "E".to_string(), data: Data::Other };
    assert_eq!(impl_translate(&mut t, e), Ok(Outcome::Ignored));
    assert_eq!(t.cpp_text(), CPP_HEAD);
}

#[test]
fn repr_c_finalizer_closes_too() {
    let mut t = Translator::new("TranslateOutput");
    let f = strukt(repr_c(), "__FinalizeTranslatorStruct__", vec![field("x", path("i32"))]);
    assert_eq!(impl_translate(&mut t, f), Ok(Outcome::Finalized));
    assert_eq!(t.cpp_text(), format!("{}\n#endif", CPP_HEAD));
    assert_eq!(t.cs_text(), format!("{}\n}}", CS_HEAD));
    assert_eq!(t.py_text(), "\nfrom ctypes import Structure\n\n");
}

#[test]
fn closed_outputs_refuse_structs() {
    let mut t = Translator::new("TranslateOutput");
    assert_eq!(impl_translate(&mut t, finalizer()), Ok(Outcome::Finalized));
    let before = t.cpp_text().to_string();
    let s = strukt(repr_c(), "Late", vec![field("a", path("i32"))]);
    assert_eq!(impl_translate(&mut t, s), Err(TranslateError::FilesClosed));
    assert_eq!(impl_translate(&mut t, finalizer()), Err(TranslateError::FilesClosed));
    assert_eq!(t.cpp_text(), before);
    assert_eq!(check_finalized(&t), Err(TranslateError::FilesClosed));
}

#[test]
fn check_finalized_passes_open_outputs() {
    let t = Translator::new("TranslateOutput");
    assert_eq!(check_finalized(&t), Ok(()));
}

#[test]
fn check_magic_struct_only_for_its_name() {
    let mut t = Translator::new("TranslateOutput");
    assert!(!check_magic_struct(&mut t, "Other"));
    assert!(!t.is_closed());
    assert_eq!(t.cpp_text(), CPP_HEAD);
    assert!(check_magic_struct(&mut t, "__FinalizeTranslatorStruct__"));
    assert!(t.is_closed());
}

#[test]
fn unnamed_fields_give_empty_struct() {
    let mut t = Translator::new("TranslateOutput");
    let s = DeriveInput { attrs: repr_c(), ident: "T".to_string(), data: Data::Struct(Fields::Unnamed) };
    assert_eq!(impl_translate(&mut t, s), Ok(Outcome::Translated));
    assert_eq!(t.cpp_text(), format!("{}typedef struct TTag {{\n}} T;\n\n", CPP_HEAD));
    let u = DeriveInput { attrs: repr_c(), ident: "U".to_string(), data: Data::Struct(Fields::Unit) };
    assert_eq!(impl_translate(&mut t, u), Ok(Outcome::Translated));
}

fn translate_one(ty: FieldType) -> (Result<Outcome, TranslateError>, Translator) {
    let mut t = Translator::new("TranslateOutput");
    let s = strukt(repr_c(), "S", vec![field("a", path("i32")), field("f", ty)]);
    let r = impl_translate(&mut t, s);
    (r, t)
}

#[test]
fn each_error_has_its_field() {
    assert_eq!(translate_one(path("i128")).0, Err(TranslateError::Int128));
    assert_eq!(translate_one(path("u128")).0, Err(TranslateError::Int128));
    assert_eq!(translate_one(array("u128", 2)).0, Err(TranslateError::Int128));
    assert_eq!(translate_one(pointer("i128")).0, Err(TranslateError::Int128));
    let multi = FieldType::Array(TypeArray { elem: ElemType::Array, len: ArrayLen::Int(2) });
    assert_eq!(translate_one(multi).0, Err(TranslateError::MultiDimArray));
    let ptrs = FieldType::Array(TypeArray { elem: ElemType::Ptr, len: ArrayLen::Int(2) });
    assert_eq!(translate_one(ptrs).0, Err(TranslateError::PointerArray));
    assert_eq!(translate_one(FieldType::Ptr(ElemType::Array)).0, Err(TranslateError::PointerToArray));
    assert_eq!(translate_one(FieldType::Ptr(ElemType::Ptr)).0, Err(TranslateError::MultiPointer));
    assert_eq!(translate_one(FieldType::Ptr(ElemType::Other)).0, Err(TranslateError::UnsupportedPointer));
}

#[test]
fn error_keeps_what_was_written_before() {
    let (r, t) = translate_one(path("i128"));
    assert_eq!(r, Err(TranslateError::Int128));
    assert_eq!(t.cpp_text(), format!("{}typedef struct STag {{\n\tint32_t a;\n", CPP_HEAD));
}

#[test]
fn unsupported_fields_are_skipped() {
    let (r, mut t) = translate_one(FieldType::Other);
    assert_eq!(r, Ok(Outcome::Translated));
    assert_eq!(t.take_notices(), vec!["f is an unsupported type".to_string()]);
    assert!(t.take_notices().is_empty());
    assert_eq!(t.cpp_text(), format!("{}typedef struct STag {{\n\tint32_t a;\n}} S;\n\n", CPP_HEAD));
    let odd_len = FieldType::Array(TypeArray { elem: ElemType::Array, len: ArrayLen::Other });
    let (r, t) = translate_one(odd_len);
    assert_eq!(r, Ok(Outcome::Translated));
    assert_eq!(t.cpp_text(), format!("{}typedef struct STag {{\n\tint32_t a;\n}} S;\n\n", CPP_HEAD));
    let odd_elem = FieldType::Array(TypeArray { elem: ElemType::Other, len: ArrayLen::Int(3) });
    assert_eq!(translate_one(odd_elem).0, Ok(Outcome::Translated));
}

#[test]
fn simple_types_in_each_language() {
    let mut t = Translator::new("N");
    assert_eq!(add_simple_type(&mut t, LanguageType::CPP, "x", "u64"), Ok(()));
    assert_eq!(add_simple_type(&mut t, LanguageType::CSharp, "x", "u64"), Ok(()));
    assert_eq!(add_simple_type(&mut t, LanguageType::Python, "x", "u64"), Ok(()));
    assert_eq!(add_simple_type(&mut t, LanguageType::CSharp, "y", "c_ulong"), Ok(()));
    assert_eq!(add_simple_type(&mut t, LanguageType::Python, "z", "Other"), Ok(()));
    assert_eq!(add_simple_type(&mut t, LanguageType::CPP, "w", "i128"), Err(TranslateError::Int128));
    assert!(t.cpp_text().ends_with("\tuint64_t x;\n"));
    assert!(t.cs_text().ends_with("\t\tpublic ulong x;\n\t\tpublic c_ulong y;\n"));
    close_file(&mut t, LanguageType::Python);
    assert_eq!(
        t.py_text(),
        "\nfrom ctypes import Structure,c_ulonglong\n\n        (\"x\", c_ulonglong),\n        (\"z\", Other),\n"
    );
}

#[test]
fn arrays_in_each_language() {
    let mut t = Translator::new("N");
    assert_eq!(add_array(&mut t, LanguageType::CPP, "a", 1234567, "f64"), Ok(()));
    assert!(t.cpp_text().ends_with("\tdouble a[1234567];\n"));
    assert_eq!(add_array(&mut t, LanguageType::CPP, "z", 0, "Foo"), Ok(()));
    assert!(t.cpp_text().ends_with("\tFoo z[0];\n"));
    assert_eq!(add_array(&mut t, LanguageType::CPP, "m", u64::MAX, "u8"), Ok(()));
    assert!(t.cpp_text().ends_with("\tuint8_t m[18446744073709551615];\n"));
    assert_eq!(add_array(&mut t, LanguageType::CSharp, "s", 3, "c_char_pntr"), Ok(()));
    assert!(t.cs_text().ends_with(
        "\t\t[MarshalAs(UnmanagedType.LPArray, ArraySubType=UnmanagedType.LPStr, SizeConst=3)]\n\t\tpublic string[] s;\n"
    ));
    assert_eq!(add_array(&mut t, LanguageType::CSharp, "o", 10, "Foo"), Ok(()));
    assert!(t.cs_text().ends_with(
        "\t\t[MarshalAs(UnmanagedType.ByValArray, SizeConst = 10)]\n\t\tpublic Foo[] o;\n"
    ));
    assert_eq!(add_array(&mut t, LanguageType::Python, "p", 7, "i16"), Ok(()));
    assert_eq!(add_array(&mut t, LanguageType::Python, "q", 8, "i128"), Err(TranslateError::Int128));
    close_file(&mut t, LanguageType::Python);
    assert_eq!(t.py_text(), "\nfrom ctypes import Structure,c_short\n\n        (\"p\", c_short * 7),\n");
}

#[test]
fn pointers_in_each_language() {
    let mut t = Translator::new("N");
    assert_eq!(add_pointer(&mut t, LanguageType::CPP, "v", "c_void"), Ok(()));
    assert!(t.cpp_text().ends_with("\tvoid* v;\n"));
    assert_eq!(add_pointer(&mut t, LanguageType::CPP, "b", "Baz"), Ok(()));
    assert!(t.cpp_text().ends_with("\tBaz* b;\n"));
    assert_eq!(add_pointer(&mut t, LanguageType::CPP, "s", "c_char"), Ok(()));
    assert!(t.cpp_text().ends_with("\tchar* s;\n"));
    assert_eq!(add_pointer(&mut t, LanguageType::CSharp, "v", "c_void"), Ok(()));
    assert!(t.cs_text().ends_with("\t\t//This is a 'c_void' type\n\t\tpublic IntPtr v;\n"));
    assert_eq!(add_pointer(&mut t, LanguageType::CSharp, "p", "i32"), Ok(()));
    assert!(t.cs_text().ends_with("\t\t//This is a 'i32' type\n\t\tpublic IntPtr p;\n"));
    assert_eq!(add_pointer(&mut t, LanguageType::CSharp, "b", "Baz"), Ok(()));
    assert!(t.cs_text().ends_with("\t\t[MarshalAs(UnmanagedType.LPStruct)]\n\t\tpublic Baz b;\n"));
    assert_eq!(add_pointer(&mut t, LanguageType::CSharp, "s", "c_char"), Ok(()));
    assert!(t.cs_text().ends_with("\t\t[MarshalAs(UnmanagedType.LPStr)]\n\t\tpublic string s;\n"));
    assert_eq!(add_pointer(&mut t, LanguageType::Python, "i", "i32"), Ok(()));
    assert_eq!(add_pointer(&mut t, LanguageType::Python, "v", "c_void"), Ok(()));
    assert_eq!(add_pointer(&mut t, LanguageType::Python, "b", "Baz"), Ok(()));
    assert_eq!(add_pointer(&mut t, LanguageType::Python, "j", "i32"), Ok(()));
    assert_eq!(add_pointer(&mut t, LanguageType::Python, "w", "u128"), Err(TranslateError::Int128));
    close_file(&mut t, LanguageType::Python);
    assert_eq!(
        t.py_text(),
        "\nfrom ctypes import Structure,c_int,POINTER,c_void_p\n\n        (\"i\", POINTER(c_int)),\n        (\"v\", c_void_p),\n        (\"b\", POINTER(Baz)),\n        (\"j\", POINTER(c_int)),\n"
    );
}

#[test]
fn struct_openings_and_closings() {
    let mut t = Translator::new("N");
    start_struct(&mut t, LanguageType::CPP, "P");
    start_struct(&mut t, LanguageType::CSharp, "P");
    start_struct(&mut t, LanguageType::Python, "P");
    close_struct(&mut t, LanguageType::CPP, "P");
    close_struct(&mut t, LanguageType::CSharp, "P");
    close_struct(&mut t, LanguageType::Python, "P");
    assert!(t.cpp_text().ends_with("typedef struct PTag {\n} P;\n\n"));
    assert!(t.cs_text().ends_with("\t[StructLayout(LayoutKind.Sequential)]\n\tpublic struct P\n\t{\n\t}\n\n"));
    close_file(&mut t, LanguageType::Python);
    close_file(&mut t, LanguageType::CPP);
    close_file(&mut t, LanguageType::CSharp);
    assert_eq!(t.py_text(), "\nfrom ctypes import Structure\n\nclass P(Structure):\n    _fields_ = [\n        ]\n\n");
    assert!(t.cpp_text().ends_with("} P;\n\n\n#endif"));
    assert!(t.cs_text().ends_with("\t}\n\n\n}"));
}

#[test]
fn file_openings() {
    assert_eq!(file_opening(LanguageType::CPP, "Q"), "typedef struct QTag {\n");
    assert_eq!(file_opening(LanguageType::Python, "Q"), "class Q(Structure):\n");
    assert_eq!(
        file_opening(LanguageType::CSharp, "Q"),
        "\t[StructLayout(LayoutKind.Sequential)]\n\tpublic struct Q\n\t{\n"
    );
}

#[test]
fn array_lengths() {
    let lit = TypeArray { elem: ElemType::Array, len: ArrayLen::Int(42) };
    assert_eq!(get_array_len(&lit), Some(42));
    let other = TypeArray { elem: ElemType::Array, len: ArrayLen::Other };
    assert_eq!(get_array_len(&other), None);
}

#[test]
fn file_work_after_each_outcome() {
    let none = OutputAction { create_directory: false, write_files: false };
    assert_eq!(output_action(&Ok(Outcome::Ignored)), none);
    assert_eq!(
        output_action(&Ok(Outcome::Translated)),
        OutputAction { create_directory: true, write_files: true }
    );
    assert_eq!(
        output_action(&Ok(Outcome::Finalized)),
        OutputAction { create_directory: false, write_files: true }
    );
    assert_eq!(output_action(&Err(TranslateError::FilesClosed)), none);
    assert_eq!(
        output_action(&Err(TranslateError::PointerArray)),
        OutputAction { create_directory: true, write_files: true }
    );
}

#[test]
fn error_messages() {
    assert_eq!(error_message(TranslateError::Int128), "There is no mapping for 128 bit integer types");
    assert_eq!(error_message(TranslateError::MultiDimArray), "2+D Arrays not currently implemented");
    assert_eq!(
        error_message(TranslateError::FilesClosed),
        "translator files are closed, please make sure that __FinalizeTranslatorStruct__ is the last struct translated"
    );
    assert_eq!(error_message(TranslateError::UnsupportedPointer), "pointer type not implemented");
}
