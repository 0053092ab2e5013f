//! The translation of one declaration: deciding whether it is translated,
//! ignored or closes the outputs, and writing each of its fields.

use vstd::prelude::*;
use crate::filewriter::{
    add_array, add_pointer, add_simple_type, array_spec, close_file, close_file_spec,
    close_struct, close_struct_spec, int128, pointer_spec, simple_type_spec, start_struct,
    start_struct_spec, LanguageType, TranslateError, Translator, TranslatorView,
};
use crate::model::{
    get_array_len, is_repr_c, is_repr_c_attrs, ArrayLen, Data, DeriveInput, ElemType, Field,
    FieldType, Fields,
};
use crate::text::str_eq;

verus! {

/// What a translated declaration did to the outputs.
#[derive(Clone, Copy, Debug, PartialEq, Eq, Structural)]
pub enum Outcome {
    /// Nothing was written.
    Ignored,
    /// A struct was added to the outputs.
    Translated,
    /// The outputs were closed.
    Finalized,
}

/// The name of the struct whose derive closes the outputs.
pub open spec fn magic_name() -> Seq<char> {
    "__FinalizeTranslatorStruct__"@
}

/// The outputs once all three are closed.
pub open spec fn finalize_spec(v: TranslatorView) -> TranslatorView {
    TranslatorView {
        closed: true,
        ..close_file_spec(
            close_file_spec(close_file_spec(v, LanguageType::CPP), LanguageType::Python),
            LanguageType::CSharp,
        )
    }
}

/// The outputs after a declaration named `id` is checked for being the
/// finalizing struct, and whether it was.
pub open spec fn magic_spec(v: TranslatorView, id: Seq<char>) -> (TranslatorView, bool) {
    if id == magic_name() {
        (finalize_spec(v), true)
    } else {
        (v, false)
    }
}

/// A simple field in all three outputs.
pub open spec fn simple_all(v: TranslatorView, name: Seq<char>, d: Seq<char>) -> TranslatorView {
    simple_type_spec(
        simple_type_spec(simple_type_spec(v, LanguageType::CPP, name, d), LanguageType::CSharp, name, d),
        LanguageType::Python,
        name,
        d,
    )
}

/// An array field in all three outputs.
pub open spec fn array_all(v: TranslatorView, name: Seq<char>, len: nat, d: Seq<char>) -> TranslatorView {
    array_spec(
        array_spec(array_spec(v, LanguageType::CPP, name, len, d), LanguageType::CSharp, name, len, d),
        LanguageType::Python,
        name,
        len,
        d,
    )
}

/// A pointer field in all three outputs.
pub open spec fn pointer_all(v: TranslatorView, name: Seq<char>, d: Seq<char>) -> TranslatorView {
    pointer_spec(
        pointer_spec(pointer_spec(v, LanguageType::CPP, name, d), LanguageType::Python, name, d),
        LanguageType::CSharp,
        name,
        d,
    )
}

/// A struct's opening in all three outputs.
pub open spec fn start_all(v: TranslatorView, n: Seq<char>) -> TranslatorView {
    start_struct_spec(
        start_struct_spec(start_struct_spec(v, LanguageType::CPP, n), LanguageType::Python, n),
        LanguageType::CSharp,
        n,
    )
}

/// A struct's closing in all three outputs.
pub open spec fn close_all(v: TranslatorView, n: Seq<char>) -> TranslatorView {
    close_struct_spec(
        close_struct_spec(close_struct_spec(v, LanguageType::CPP, n), LanguageType::Python, n),
        LanguageType::CSharp,
        n,
    )
}

/// The outputs after one field, and the error that stops the translation, if any.
pub open spec fn field_spec(v: TranslatorView, f: Field) -> (TranslatorView, Option<TranslateError>) {
    match f.ty {
        FieldType::Array(arr) => match arr.len {
            ArrayLen::Int(l) => match arr.elem {
                ElemType::Array => (v, Some(TranslateError::MultiDimArray)),
                ElemType::Ptr => (v, Some(TranslateError::PointerArray)),
                ElemType::Path(p) => if int128(p@) {
                    (v, Some(TranslateError::Int128))
                } else {
                    (array_all(v, f.name@, l as nat, p@), None)
                },
                ElemType::Other => (v, None),
            },
            ArrayLen::Other => (v, None),
        },
        FieldType::Ptr(e) => match e {
            ElemType::Array => (v, Some(TranslateError::PointerToArray)),
            ElemType::Ptr => (v, Some(TranslateError::MultiPointer)),
            ElemType::Path(p) => if int128(p@) {
                (v, Some(TranslateError::Int128))
            } else {
                (pointer_all(v, f.name@, p@), None)
            },
            ElemType::Other => (v, Some(TranslateError::UnsupportedPointer)),
        },
        FieldType::Path(p) => if int128(p@) {
            (v, Some(TranslateError::Int128))
        } else {
            (simple_all(v, f.name@, p@), None)
        },
        FieldType::Other => (TranslatorView { notices: v.notices.push(unsupported_notice(f.name@)), ..v }, None),
    }
}

/// The notice about a field whose type is not translated.
pub open spec fn unsupported_notice(name: Seq<char>) -> Seq<char> {
    name + " is an unsupported type"@
}

/// The outputs after the fields in order, stopping at the first error.
pub open spec fn fields_spec(v: TranslatorView, fs: Seq<Field>) -> (TranslatorView, Option<TranslateError>)
    decreases fs.len(),
{
    if fs.len() == 0 {
        (v, None)
    } else {
        let (v1, e) = fields_spec(v, fs.drop_last());
        if e is Some {
            (v1, e)
        } else {
            field_spec(v1, fs.last())
        }
    }
}

/// The outputs after a declaration, and what the translation reports.
pub open spec fn translate_spec(v: TranslatorView, ast: DeriveInput) -> (TranslatorView, Result<Outcome, TranslateError>) {
    if v.closed {
        (v, Err(TranslateError::FilesClosed))
    } else if !is_repr_c(ast.attrs@) {
        let (v1, m) = magic_spec(v, ast.ident@);
        (v1, Ok(if m { Outcome::Finalized } else { Outcome::Ignored }))
    } else {
        match ast.data {
            Data::Struct(fields) => if ast.ident@ == magic_name() {
                (finalize_spec(v), Ok(Outcome::Finalized))
            } else {
                let v1 = start_all(v, ast.ident@);
                let (v2, e) = match fields {
                    Fields::Named(fs) => fields_spec(v1, fs@),
                    _ => (v1, None),
                };
                match e {
                    Some(err) => (v2, Err(err)),
                    None => (close_all(v2, ast.ident@), Ok(Outcome::Translated)),
                }
            },
            Data::Other => (v, Ok(Outcome::Ignored)),
        }
    }
}

/// Fails once the outputs were closed: the finalizing struct must come last.
pub fn check_finalized(out: &Translator) -> (r: Result<(), TranslateError>)
    ensures
        !out@.closed ==> r is Ok,
        out@.closed ==> r == Err::<(), TranslateError>(TranslateError::FilesClosed),
{
    if out.is_closed() {
        Err(TranslateError::FilesClosed)
    } else {
        Ok(())
    }
}

/// Closes all three outputs when `id` names the finalizing struct, and says
/// whether it did.
pub fn check_magic_struct(out: &mut Translator, id: &str) -> (r: bool)
    ensures
        (final(out)@, r) == magic_spec(old(out)@, id@),
{
    if str_eq(id, "__FinalizeTranslatorStruct__") {
        close_file(out, LanguageType::CPP);
        close_file(out, LanguageType::Python);
        close_file(out, LanguageType::CSharp);
        out.set_closed();
        return true;
    }
    false
}

fn translate_field(out: &mut Translator, f: &Field) -> (r: Result<(), TranslateError>)
    ensures
        field_spec(old(out)@, *f) == (final(out)@, match r {
            Ok(_) => None,
            Err(e) => Some(e),
        }),
{
    let name = f.name.as_str();
    match &f.ty {
        FieldType::Array(array) => {
            if let Some(len) = get_array_len(array) {
                match &array.elem {
                    ElemType::Array => {
                        return Err(TranslateError::MultiDimArray);
                    },
                    ElemType::Ptr => {
                        return Err(TranslateError::PointerArray);
                    },
                    ElemType::Path(p) => {
                        let p = p.as_str();
                        if let Err(e) = add_array(out, LanguageType::CPP, name, len, p) {
                            return Err(e);
                        }
                        let _ = add_array(out, LanguageType::CSharp, name, len, p);
                        let _ = add_array(out, LanguageType::Python, name, len, p);
                    },
                    ElemType::Other => {},
                }
            }
        },
        FieldType::Ptr(elem) => {
            match elem {
                ElemType::Array => {
                    return Err(TranslateError::PointerToArray);
                },
                ElemType::Ptr => {
                    return Err(TranslateError::MultiPointer);
                },
                ElemType::Path(p) => {
                    let p = p.as_str();
                    if let Err(e) = add_pointer(out, LanguageType::CPP, name, p) {
                        return Err(e);
                    }
                    let _ = add_pointer(out, LanguageType::Python, name, p);
                    let _ = add_pointer(out, LanguageType::CSharp, name, p);
                },
                ElemType::Other => {
                    return Err(TranslateError::UnsupportedPointer);
                },
            }
        },
        FieldType::Path(p) => {
            let p = p.as_str();
            if let Err(e) = add_simple_type(out, LanguageType::CPP, name, p) {
                return Err(e);
            }
            let _ = add_simple_type(out, LanguageType::CSharp, name, p);
            let _ = add_simple_type(out, LanguageType::Python, name, p);
        },
        FieldType::Other => {
            let mut notice = String::new();
            notice.append(name);
            notice.append(" is an unsupported type");
            out.push_notice(notice);
        },
    }
    Ok(())
}

proof fn lemma_fields_error_stops(v: TranslatorView, fs: Seq<Field>, k: int)
    requires
        0 <= k <= fs.len(),
        fields_spec(v, fs.take(k)).1 is Some,
    ensures
        fields_spec(v, fs) == fields_spec(v, fs.take(k)),
    decreases fs.len(),
{
    if k < fs.len() {
        assert(fs.drop_last().take(k) =~= fs.take(k));
        lemma_fields_error_stops(v, fs.drop_last(), k);
    } else {
        assert(fs.take(k) =~= fs);
    }
}

fn translate_fields(out: &mut Translator, fs: &Vec<Field>) -> (r: Result<(), TranslateError>)
    ensures
        fields_spec(old(out)@, fs@) == (final(out)@, match r {
            Ok(_) => None,
            Err(e) => Some(e),
        }),
{
    let mut i: usize = 0;
    while i < fs.len()
        invariant
            i <= fs.len(),
            fields_spec(old(out)@, fs@.take(i as int)) == (out@, None::<TranslateError>),
        decreases fs.len() - i,
    {
        assert(fs@.take(i + 1).drop_last() =~= fs@.take(i as int));
        let r = translate_field(out, &fs[i]);
        if let Err(e) = r {
            proof {
                lemma_fields_error_stops(old(out)@, fs@, i + 1);
            }
            return Err(e);
        }
        i = i + 1;
    }
    assert(fs@.take(fs.len() as int) =~= fs@);
    Ok(())
}

/// Translates one declaration. A closed output refuses it. A declaration
/// that is not `repr(C)` is only checked for being the finalizing struct.
/// A `repr(C)` struct either is the finalizing struct or is added to all
/// three outputs, field by field; an enum or a union is ignored.
pub fn impl_translate(out: &mut Translator, ast: DeriveInput) -> (r: Result<Outcome, TranslateError>)
    ensures
        (final(out)@, r) == translate_spec(old(out)@, ast),
{
    if let Err(e) = check_finalized(out) {
        return Err(e);
    }
    let is_reprc = is_repr_c_attrs(&ast.attrs);
    if !is_reprc {
        if check_magic_struct(out, ast.ident.as_str()) {
            return Ok(Outcome::Finalized);
        }
        return Ok(Outcome::Ignored);
    }
    match &ast.data {
        Data::Struct(fields) => {
            if check_magic_struct(out, ast.ident.as_str()) {
                return Ok(Outcome::Finalized);
            }
            let n = ast.ident.as_str();
            start_struct(out, LanguageType::CPP, n);
            start_struct(out, LanguageType::Python, n);
            start_struct(out, LanguageType::CSharp, n);
            if let Fields::Named(fs) = fields {
                if let Err(e) = translate_fields(out, fs) {
                    return Err(e);
                }
            }
            close_struct(out, LanguageType::CPP, n);
            close_struct(out, LanguageType::Python, n);
            close_struct(out, LanguageType::CSharp, n);
            Ok(Outcome::Translated)
        },
        Data::Other => Ok(Outcome::Ignored),
    }
}

/// What becomes of the output files after a declaration.
#[derive(Clone, Copy, Debug, PartialEq, Eq, Structural)]
pub struct OutputAction {
    /// The output directory is created first.
    pub create_directory: bool,
    /// The files are (re)written with the outputs' contents.
    pub write_files: bool,
}

/// The file work that follows a translation: a translated struct creates
/// the directory and writes the files; closing writes them without creating
/// the directory; an error found while a struct is written creates the
/// directory and writes what was written so far; an ignored declaration and
/// a refused one touch nothing.
pub open spec fn output_action_spec(r: Result<Outcome, TranslateError>) -> OutputAction {
    match r {
        Ok(Outcome::Ignored) => OutputAction { create_directory: false, write_files: false },
        Ok(Outcome::Translated) => OutputAction { create_directory: true, write_files: true },
        Ok(Outcome::Finalized) => OutputAction { create_directory: false, write_files: true },
        Err(TranslateError::FilesClosed) => OutputAction { create_directory: false, write_files: false },
        Err(_) => OutputAction { create_directory: true, write_files: true },
    }
}

/// The file work that follows a translation that reported `r`.
pub fn output_action(r: &Result<Outcome, TranslateError>) -> (a: OutputAction)
    ensures
        a == output_action_spec(*r),
{
    match r {
        Ok(Outcome::Ignored) => OutputAction { create_directory: false, write_files: false },
        Ok(Outcome::Translated) => OutputAction { create_directory: true, write_files: true },
        Ok(Outcome::Finalized) => OutputAction { create_directory: false, write_files: true },
        Err(TranslateError::FilesClosed) => OutputAction { create_directory: false, write_files: false },
        Err(_) => OutputAction { create_directory: true, write_files: true },
    }
}

/// The message that reports an error.
pub open spec fn error_message_spec(e: TranslateError) -> Seq<char> {
    match e {
        TranslateError::FilesClosed => "translator files are closed, please make sure that __FinalizeTranslatorStruct__ is the last struct translated"@,
        TranslateError::Int128 => "There is no mapping for 128 bit integer types"@,
        TranslateError::MultiDimArray => "2+D Arrays not currently implemented"@,
        TranslateError::PointerArray => "Pointer Arrays not currently implemented"@,
        TranslateError::PointerToArray => "pointer to an array not currently implemented"@,
        TranslateError::MultiPointer => "double+ pointers not currently implemented"@,
        TranslateError::UnsupportedPointer => "pointer type not implemented"@,
    }
}

/// The message that reports `e`.
pub fn error_message(e: TranslateError) -> (r: &'static str)
    ensures
        r@ == error_message_spec(e),
{
    match e {
        TranslateError::FilesClosed => "translator files are closed, please make sure that __FinalizeTranslatorStruct__ is the last struct translated",
        TranslateError::Int128 => "There is no mapping for 128 bit integer types",
        TranslateError::MultiDimArray => "2+D Arrays not currently implemented",
        TranslateError::PointerArray => "Pointer Arrays not currently implemented",
        TranslateError::PointerToArray => "pointer to an array not currently implemented",
        TranslateError::MultiPointer => "double+ pointers not currently implemented",
        TranslateError::UnsupportedPointer => "pointer type not implemented",
    }
}

} // verus!
