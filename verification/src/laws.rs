//! Properties of the translation that hold across declarations.

use vstd::prelude::*;
use crate::derive::{
    array_all, close_all, field_spec, fields_spec, finalize_spec, magic_name, pointer_all,
    simple_all, start_all, translate_spec, Outcome,
};
use crate::filewriter::{
    array_spec, close_file_spec, close_struct_spec, initial_view, note_used, pointer_spec,
    simple_type_spec, start_struct_spec, used_after, LanguageType, TranslateError,
    TranslatorView,
};
use crate::model::{is_repr_c, is_repr_c_attr, Attribute, Data, DeriveInput, Field, Fields};

verus! {

/// The import list of the Python module names `Structure` first and no
/// name twice.
pub open spec fn imports_wf(v: TranslatorView) -> bool {
    &&& v.py_used.len() >= 1
    &&& v.py_used[0] == "Structure"@
    &&& v.py_used.no_duplicates()
}

/// `w` holds everything that `v` held: each output of `v` begins `w`'s.
pub open spec fn extends(v: TranslatorView, w: TranslatorView) -> bool {
    &&& v.cpp.is_prefix_of(w.cpp)
    &&& v.cs.is_prefix_of(w.cs)
    &&& v.py.is_prefix_of(w.py)
    &&& v.py_lines.is_prefix_of(w.py_lines)
    &&& v.py_used.is_prefix_of(w.py_used)
}

proof fn lemma_extends_refl(v: TranslatorView)
    ensures
        extends(v, v),
{
    assert(v.cpp.subrange(0, v.cpp.len() as int) =~= v.cpp);
    assert(v.cs.subrange(0, v.cs.len() as int) =~= v.cs);
    assert(v.py.subrange(0, v.py.len() as int) =~= v.py);
    assert(v.py_lines.subrange(0, v.py_lines.len() as int) =~= v.py_lines);
    assert(v.py_used.subrange(0, v.py_used.len() as int) =~= v.py_used);
}

proof fn lemma_prefix_trans<A>(a: Seq<A>, b: Seq<A>, c: Seq<A>)
    requires
        a.is_prefix_of(b),
        b.is_prefix_of(c),
    ensures
        a.is_prefix_of(c),
{
    assert(a =~= c.subrange(0, a.len() as int)) by {
        assert forall|i: int| 0 <= i < a.len() implies a[i] == c[i] by {
            assert(a[i] == b.subrange(0, a.len() as int)[i]);
            assert(b[i] == c.subrange(0, b.len() as int)[i]);
        }
    }
}

proof fn lemma_extends_trans(u: TranslatorView, v: TranslatorView, w: TranslatorView)
    requires
        extends(u, v),
        extends(v, w),
    ensures
        extends(u, w),
{
    lemma_prefix_trans(u.cpp, v.cpp, w.cpp);
    lemma_prefix_trans(u.cs, v.cs, w.cs);
    lemma_prefix_trans(u.py, v.py, w.py);
    lemma_prefix_trans(u.py_lines, v.py_lines, w.py_lines);
    lemma_prefix_trans(u.py_used, v.py_used, w.py_used);
}

proof fn lemma_prefix_push<A>(a: Seq<A>, x: A)
    ensures
        a.is_prefix_of(a.push(x)),
{
    assert(a =~= a.push(x).subrange(0, a.len() as int));
}

proof fn lemma_note_used(used: Seq<Seq<char>>, t: Seq<char>)
    ensures
        used.is_prefix_of(note_used(used, t)),
        used.len() >= 1 ==> note_used(used, t)[0] == used[0],
        used.no_duplicates() ==> note_used(used, t).no_duplicates(),
{
    lemma_prefix_push(used, t);
    lemma_extends_seq_refl(used);
    if !used.contains(t) {
        let w = used.push(t);
        assert forall|i: int, j: int| 0 <= i < w.len() && 0 <= j < w.len() && i != j
            && used.no_duplicates() implies w[i] != w[j] by {
            if i == used.len() {
                assert(w[j] == used[j]);
            } else if j == used.len() {
                assert(w[i] == used[i]);
            }
        }
    }
}

proof fn lemma_extends_seq_refl<A>(a: Seq<A>)
    ensures
        a.is_prefix_of(a),
{
    assert(a =~= a.subrange(0, a.len() as int));
}

proof fn lemma_used_after(used: Seq<Seq<char>>, m: Option<Seq<char>>)
    ensures
        used.is_prefix_of(used_after(used, m)),
        used.len() >= 1 ==> used_after(used, m)[0] == used[0],
        used.no_duplicates() ==> used_after(used, m).no_duplicates(),
{
    lemma_extends_seq_refl(used);
    if let Some(t) = m {
        lemma_note_used(used, t);
    }
}


/// An operation that only appends: it extends the outputs, keeps the import
/// list well formed and leaves the closed flag alone.
pub open spec fn appends(v: TranslatorView, w: TranslatorView) -> bool {
    &&& extends(v, w)
    &&& imports_wf(v) ==> imports_wf(w)
    &&& w.closed == v.closed
    &&& w.py == v.py
}

proof fn lemma_appends_trans(u: TranslatorView, v: TranslatorView, w: TranslatorView)
    requires
        appends(u, v),
        appends(v, w),
    ensures
        appends(u, w),
{
    lemma_extends_trans(u, v, w);
}

proof fn lemma_simple_appends(v: TranslatorView, lt: LanguageType, name: Seq<char>, d: Seq<char>)
    ensures
        appends(v, simple_type_spec(v, lt, name, d)),
{
    let w = simple_type_spec(v, lt, name, d);
    lemma_extends_refl(v);
    match lt {
        LanguageType::CPP => {
            assert(v.cpp.is_prefix_of(w.cpp)) by {
                assert(v.cpp =~= w.cpp.subrange(0, v.cpp.len() as int));
            }
        },
        LanguageType::Python => {
            lemma_prefix_push(v.py_lines, w.py_lines.last());
            lemma_used_after(v.py_used, crate::typemap::py_map(d));
        },
        LanguageType::CSharp => {
            assert(v.cs.is_prefix_of(w.cs)) by {
                assert(v.cs =~= w.cs.subrange(0, v.cs.len() as int));
            }
        },
    }
}

proof fn lemma_array_appends(
    v: TranslatorView,
    lt: LanguageType,
    name: Seq<char>,
    len: nat,
    d: Seq<char>,
)
    ensures
        appends(v, array_spec(v, lt, name, len, d)),
{
    let w = array_spec(v, lt, name, len, d);
    lemma_extends_refl(v);
    match lt {
        LanguageType::CPP => {
            assert(v.cpp.is_prefix_of(w.cpp)) by {
                assert(v.cpp =~= w.cpp.subrange(0, v.cpp.len() as int));
            }
        },
        LanguageType::Python => {
            lemma_prefix_push(v.py_lines, w.py_lines.last());
            lemma_used_after(v.py_used, crate::typemap::py_map(d));
        },
        LanguageType::CSharp => {
            assert(v.cs.is_prefix_of(w.cs)) by {
                assert(v.cs =~= w.cs.subrange(0, v.cs.len() as int));
            }
        },
    }
}

proof fn lemma_pointer_appends(v: TranslatorView, lt: LanguageType, name: Seq<char>, d: Seq<char>)
    ensures
        appends(v, pointer_spec(v, lt, name, d)),
{
    let w = pointer_spec(v, lt, name, d);
    lemma_extends_refl(v);
    match lt {
        LanguageType::CPP => {
            assert(v.cpp.is_prefix_of(w.cpp)) by {
                assert(v.cpp =~= w.cpp.subrange(0, v.cpp.len() as int));
            }
        },
        LanguageType::Python => {
            lemma_prefix_push(v.py_lines, w.py_lines.last());
            let used = used_after(v.py_used, crate::typemap::py_map(crate::filewriter::ptr_lookup(d)));
            lemma_used_after(v.py_used, crate::typemap::py_map(crate::filewriter::ptr_lookup(d)));
            lemma_note_used(used, "POINTER"@);
            lemma_prefix_trans(v.py_used, used, w.py_used);
        },
        LanguageType::CSharp => {
            assert(v.cs.is_prefix_of(w.cs)) by {
                assert(v.cs =~= w.cs.subrange(0, v.cs.len() as int));
            }
        },
    }
}

proof fn lemma_start_appends(v: TranslatorView, lt: LanguageType, n: Seq<char>)
    ensures
        appends(v, start_struct_spec(v, lt, n)),
{
    let w = start_struct_spec(v, lt, n);
    lemma_extends_refl(v);
    match lt {
        LanguageType::CPP => {
            assert(v.cpp.is_prefix_of(w.cpp)) by {
                assert(v.cpp =~= w.cpp.subrange(0, v.cpp.len() as int));
            }
        },
        LanguageType::Python => {
            assert(v.py_lines.is_prefix_of(w.py_lines)) by {
                assert(v.py_lines =~= w.py_lines.subrange(0, v.py_lines.len() as int));
            }
        },
        LanguageType::CSharp => {
            assert(v.cs.is_prefix_of(w.cs)) by {
                assert(v.cs =~= w.cs.subrange(0, v.cs.len() as int));
            }
        },
    }
}

proof fn lemma_close_struct_appends(v: TranslatorView, lt: LanguageType, n: Seq<char>)
    ensures
        appends(v, close_struct_spec(v, lt, n)),
{
    let w = close_struct_spec(v, lt, n);
    lemma_extends_refl(v);
    match lt {
        LanguageType::CPP => {
            assert(v.cpp.is_prefix_of(w.cpp)) by {
                assert(v.cpp =~= w.cpp.subrange(0, v.cpp.len() as int));
            }
        },
        LanguageType::Python => {
            lemma_prefix_push(v.py_lines, w.py_lines.last());
        },
        LanguageType::CSharp => {
            assert(v.cs.is_prefix_of(w.cs)) by {
                assert(v.cs =~= w.cs.subrange(0, v.cs.len() as int));
            }
        },
    }
}

proof fn lemma_close_file_extends(v: TranslatorView, lt: LanguageType)
    ensures
        extends(v, close_file_spec(v, lt)),
        imports_wf(v) ==> imports_wf(close_file_spec(v, lt)),
{
    let w = close_file_spec(v, lt);
    lemma_extends_refl(v);
    match lt {
        LanguageType::CPP => {
            assert(v.cpp.is_prefix_of(w.cpp)) by {
                assert(v.cpp =~= w.cpp.subrange(0, v.cpp.len() as int));
            }
        },
        LanguageType::Python => {
            assert(v.py.is_prefix_of(w.py)) by {
                assert(v.py =~= w.py.subrange(0, v.py.len() as int));
            }
        },
        LanguageType::CSharp => {
            assert(v.cs.is_prefix_of(w.cs)) by {
                assert(v.cs =~= w.cs.subrange(0, v.cs.len() as int));
            }
        },
    }
}


proof fn lemma_field_appends(v: TranslatorView, f: Field)
    ensures
        appends(v, field_spec(v, f).0),
{
    let name = f.name@;
    lemma_extends_refl(v);
    match f.ty {
        crate::model::FieldType::Array(arr) => match arr.len {
            crate::model::ArrayLen::Int(l) => match arr.elem {
                crate::model::ElemType::Path(p) => {
                    let d = p@;
                    let v1 = array_spec(v, LanguageType::CPP, name, l as nat, d);
                    let v2 = array_spec(v1, LanguageType::CSharp, name, l as nat, d);
                    lemma_array_appends(v, LanguageType::CPP, name, l as nat, d);
                    lemma_array_appends(v1, LanguageType::CSharp, name, l as nat, d);
                    lemma_array_appends(v2, LanguageType::Python, name, l as nat, d);
                    lemma_appends_trans(v, v1, v2);
                    lemma_appends_trans(v, v2, array_all(v, name, l as nat, d));
                },
                _ => {},
            },
            _ => {},
        },
        crate::model::FieldType::Ptr(e) => match e {
            crate::model::ElemType::Path(p) => {
                let d = p@;
                let v1 = pointer_spec(v, LanguageType::CPP, name, d);
                let v2 = pointer_spec(v1, LanguageType::Python, name, d);
                lemma_pointer_appends(v, LanguageType::CPP, name, d);
                lemma_pointer_appends(v1, LanguageType::Python, name, d);
                lemma_pointer_appends(v2, LanguageType::CSharp, name, d);
                lemma_appends_trans(v, v1, v2);
                lemma_appends_trans(v, v2, pointer_all(v, name, d));
            },
            _ => {},
        },
        crate::model::FieldType::Path(p) => {
            let d = p@;
            let v1 = simple_type_spec(v, LanguageType::CPP, name, d);
            let v2 = simple_type_spec(v1, LanguageType::CSharp, name, d);
            lemma_simple_appends(v, LanguageType::CPP, name, d);
            lemma_simple_appends(v1, LanguageType::CSharp, name, d);
            lemma_simple_appends(v2, LanguageType::Python, name, d);
            lemma_appends_trans(v, v1, v2);
            lemma_appends_trans(v, v2, simple_all(v, name, d));
        },
        crate::model::FieldType::Other => {},
    }
}

proof fn lemma_fields_appends(v: TranslatorView, fs: Seq<Field>)
    ensures
        appends(v, fields_spec(v, fs).0),
    decreases fs.len(),
{
    if fs.len() == 0 {
        lemma_extends_refl(v);
    } else {
        let (v1, e) = fields_spec(v, fs.drop_last());
        lemma_fields_appends(v, fs.drop_last());
        if e is None {
            lemma_field_appends(v1, fs.last());
            lemma_appends_trans(v, v1, field_spec(v1, fs.last()).0);
        }
    }
}

proof fn lemma_start_all_appends(v: TranslatorView, n: Seq<char>)
    ensures
        appends(v, start_all(v, n)),
{
    let v1 = start_struct_spec(v, LanguageType::CPP, n);
    let v2 = start_struct_spec(v1, LanguageType::Python, n);
    lemma_start_appends(v, LanguageType::CPP, n);
    lemma_start_appends(v1, LanguageType::Python, n);
    lemma_start_appends(v2, LanguageType::CSharp, n);
    lemma_appends_trans(v, v1, v2);
    lemma_appends_trans(v, v2, start_all(v, n));
}

proof fn lemma_close_all_appends(v: TranslatorView, n: Seq<char>)
    ensures
        appends(v, close_all(v, n)),
{
    let v1 = close_struct_spec(v, LanguageType::CPP, n);
    let v2 = close_struct_spec(v1, LanguageType::Python, n);
    lemma_close_struct_appends(v, LanguageType::CPP, n);
    lemma_close_struct_appends(v1, LanguageType::Python, n);
    lemma_close_struct_appends(v2, LanguageType::CSharp, n);
    lemma_appends_trans(v, v1, v2);
    lemma_appends_trans(v, v2, close_all(v, n));
}

proof fn lemma_finalize(v: TranslatorView)
    ensures
        extends(v, finalize_spec(v)),
        imports_wf(v) ==> imports_wf(finalize_spec(v)),
        finalize_spec(v).closed,
{
    let v1 = close_file_spec(v, LanguageType::CPP);
    let v2 = close_file_spec(v1, LanguageType::Python);
    let v3 = close_file_spec(v2, LanguageType::CSharp);
    lemma_close_file_extends(v, LanguageType::CPP);
    lemma_close_file_extends(v1, LanguageType::Python);
    lemma_close_file_extends(v2, LanguageType::CSharp);
    lemma_extends_trans(v, v1, v2);
    lemma_extends_trans(v, v2, v3);
}

/// Translating a declaration never removes or rewrites anything: every
/// output, the gathered Python lines and the import list of the outputs
/// before it begin the corresponding ones after it, whether the translation
/// succeeds or fails.
pub proof fn law_outputs_only_grow(v: TranslatorView, ast: DeriveInput)
    ensures
        extends(v, translate_spec(v, ast).0),
{
    lemma_extends_refl(v);
    if !v.closed {
        if !is_repr_c(ast.attrs@) {
            if ast.ident@ == magic_name() {
                lemma_finalize(v);
            }
        } else {
            match ast.data {
                Data::Struct(fields) => if ast.ident@ == magic_name() {
                    lemma_finalize(v);
                } else {
                    let v1 = start_all(v, ast.ident@);
                    lemma_start_all_appends(v, ast.ident@);
                    match fields {
                        Fields::Named(fs) => {
                            let (v2, e) = fields_spec(v1, fs@);
                            lemma_fields_appends(v1, fs@);
                            lemma_appends_trans(v, v1, v2);
                            if e is None {
                                lemma_close_all_appends(v2, ast.ident@);
                                lemma_appends_trans(v, v2, close_all(v2, ast.ident@));
                            }
                        },
                        _ => {
                            lemma_close_all_appends(v1, ast.ident@);
                            lemma_appends_trans(v, v1, close_all(v1, ast.ident@));
                        },
                    }
                },
                Data::Other => {},
            }
        }
    }
}

/// The Python import list always names `Structure` first and never names a
/// type twice: fresh outputs have that form, and every translation keeps it.
pub proof fn law_imports_stay_distinct(en: Seq<char>, v: TranslatorView, ast: DeriveInput)
    ensures
        imports_wf(initial_view(en)),
        imports_wf(v) ==> imports_wf(translate_spec(v, ast).0),
{
    let i = initial_view(en);
    assert(i.py_used.no_duplicates());
    if !v.closed {
        if !is_repr_c(ast.attrs@) {
            if ast.ident@ == magic_name() {
                lemma_finalize(v);
            }
        } else {
            match ast.data {
                Data::Struct(fields) => if ast.ident@ == magic_name() {
                    lemma_finalize(v);
                } else {
                    let v1 = start_all(v, ast.ident@);
                    lemma_start_all_appends(v, ast.ident@);
                    match fields {
                        Fields::Named(fs) => {
                            let (v2, e) = fields_spec(v1, fs@);
                            lemma_fields_appends(v1, fs@);
                            if e is None {
                                lemma_close_all_appends(v2, ast.ident@);
                            }
                        },
                        _ => {
                            lemma_close_all_appends(v1, ast.ident@);
                        },
                    }
                },
                Data::Other => {},
            }
        }
    }
}

/// Once the outputs are closed they stay closed, and every later
/// declaration is refused with `FilesClosed`, the outputs unchanged.
pub proof fn law_closed_outputs_refuse(v: TranslatorView, ast: DeriveInput)
    requires
        v.closed,
    ensures
        translate_spec(v, ast) == (v, Err::<Outcome, TranslateError>(TranslateError::FilesClosed)),
{
}

/// A translation closes the outputs exactly when it reports `Finalized`.
pub proof fn law_closed_only_by_finalizing(v: TranslatorView, ast: DeriveInput)
    requires
        !v.closed,
    ensures
        translate_spec(v, ast).0.closed <==> translate_spec(v, ast).1
            == Ok::<Outcome, TranslateError>(Outcome::Finalized),
{
    if is_repr_c(ast.attrs@) {
        match ast.data {
            Data::Struct(fields) => if ast.ident@ != magic_name() {
                let v1 = start_all(v, ast.ident@);
                lemma_start_all_appends(v, ast.ident@);
                match fields {
                    Fields::Named(fs) => {
                        let (v2, e) = fields_spec(v1, fs@);
                        lemma_fields_appends(v1, fs@);
                        if e is None {
                            lemma_close_all_appends(v2, ast.ident@);
                        }
                    },
                    _ => {
                        lemma_close_all_appends(v1, ast.ident@);
                    },
                }
            },
            Data::Other => {},
        }
    }
}

/// A declaration none of whose attributes is a `repr` listing `C` is
/// ignored, all outputs unchanged, unless it is the finalizing struct.
pub proof fn law_non_repr_c_ignored(v: TranslatorView, ast: DeriveInput)
    requires
        !v.closed,
        !is_repr_c(ast.attrs@),
        ast.ident@ != magic_name(),
    ensures
        translate_spec(v, ast) == (v, Ok::<Outcome, TranslateError>(Outcome::Ignored)),
{
}

/// The finalizing struct closes all three outputs, whether or not it is
/// `repr(C)` (a `repr(C)` enum or union of that name excepted): the C++
/// header ends its include guard, the C# source its namespace, and the Python
/// module receives the import line and then every gathered line.
pub proof fn law_finalizing_struct_closes(v: TranslatorView, ast: DeriveInput)
    requires
        !v.closed,
        ast.ident@ == magic_name(),
        is_repr_c(ast.attrs@) ==> ast.data is Struct,
    ensures
        translate_spec(v, ast) == (finalize_spec(v), Ok::<Outcome, TranslateError>(Outcome::Finalized)),
        finalize_spec(v).closed,
        finalize_spec(v).cpp == v.cpp + "\n#endif"@,
        finalize_spec(v).cs == v.cs + "\n}"@,
        finalize_spec(v).py == v.py + "\n"@ + crate::filewriter::import_line(v.py_used) + "\n\n"@
            + crate::filewriter::concat_lines(v.py_lines),
{
}


/// A struct that is translated appears in each output as one block: in the
/// C++ header a `typedef struct` from its opening to `} Name;`, in the C#
/// source a `[StructLayout]` struct, and among the Python lines a `class`
/// with its `_fields_` list; the Python module itself is written only when
/// the outputs are closed.
pub proof fn law_translated_struct_is_one_block(v: TranslatorView, ast: DeriveInput)
    requires
        translate_spec(v, ast).1 == Ok::<Outcome, TranslateError>(Outcome::Translated),
    ensures
        ({
            let w = translate_spec(v, ast).0;
            let n = ast.ident@;
            &&& exists|body: Seq<char>|
                w.cpp == v.cpp + "typedef struct "@ + n + "Tag {\n"@ + body + "} "@ + n + ";\n\n"@
            &&& exists|body: Seq<char>|
                w.cs == v.cs + "\t[StructLayout(LayoutKind.Sequential)]\n\tpublic struct "@ + n
                    + "\n\t{\n"@ + body + "\t}\n\n"@
            &&& exists|body: Seq<Seq<char>>|
                w.py_lines == v.py_lines + seq!["class "@ + n + "(Structure):\n"@, "    _fields_ = [\n"@]
                    + body + seq!["        ]\n\n"@]
            &&& w.py == v.py
            &&& !w.closed
        }),
{
    let n = ast.ident@;
    let v1 = start_all(v, n);
    lemma_start_all_appends(v, n);
    let fields = ast.data->Struct_0;
    let v2 = match fields {
        Fields::Named(fs) => fields_spec(v1, fs@).0,
        _ => v1,
    };
    match fields {
        Fields::Named(fs) => {
            lemma_fields_appends(v1, fs@);
        },
        _ => {
            lemma_extends_refl(v1);
        },
    }
    let w = close_all(v2, n);
    assert(w == translate_spec(v, ast).0);
    let open_cpp = v.cpp + "typedef struct "@ + n + "Tag {\n"@;
    assert(v1.cpp == open_cpp);
    let cpp_body = v2.cpp.subrange(v1.cpp.len() as int, v2.cpp.len() as int);
    assert(v2.cpp =~= v1.cpp + cpp_body);
    assert(w.cpp =~= v.cpp + "typedef struct "@ + n + "Tag {\n"@ + cpp_body + "} "@ + n + ";\n\n"@);
    let open_cs = v.cs + "\t[StructLayout(LayoutKind.Sequential)]\n\tpublic struct "@ + n + "\n\t{\n"@;
    assert(v1.cs == open_cs);
    let cs_body = v2.cs.subrange(v1.cs.len() as int, v2.cs.len() as int);
    assert(v2.cs =~= v1.cs + cs_body);
    assert(w.cs =~= v.cs + "\t[StructLayout(LayoutKind.Sequential)]\n\tpublic struct "@ + n
        + "\n\t{\n"@ + cs_body + "\t}\n\n"@);
    let heads = seq!["class "@ + n + "(Structure):\n"@, "    _fields_ = [\n"@];
    assert(v1.py_lines =~= v.py_lines + heads);
    let py_body = v2.py_lines.subrange(v1.py_lines.len() as int, v2.py_lines.len() as int);
    assert(v2.py_lines =~= v1.py_lines + py_body);
    assert(w.py_lines =~= v.py_lines + heads + py_body + seq!["        ]\n\n"@]);
}

/// The type named by a field wherever the translation writes it: the field's
/// own path type, the type a pointer points to, or the element type of an
/// array whose length is an integer literal.
pub open spec fn written_type(f: Field) -> Option<Seq<char>> {
    match f.ty {
        crate::model::FieldType::Path(p) => Some(p@),
        crate::model::FieldType::Ptr(crate::model::ElemType::Path(p)) => Some(p@),
        crate::model::FieldType::Array(arr) => match (arr.len, arr.elem) {
            (crate::model::ArrayLen::Int(_), crate::model::ElemType::Path(p)) => Some(p@),
            _ => None,
        },
        _ => None,
    }
}

/// `i128` and `u128` have no counterpart in any target language: a field
/// that would write one is refused with `Int128` before anything of it is
/// written, and a field that writes any other type is not refused for it.
pub proof fn law_int128_fields_refused(v: TranslatorView, f: Field)
    ensures
        written_type(f) matches Some(d) && crate::filewriter::int128(d) ==> field_spec(v, f) == (
            v,
            Some(TranslateError::Int128),
        ),
        written_type(f) matches Some(d) && !crate::filewriter::int128(d) ==> field_spec(v, f).1
            != Some(TranslateError::Int128),
{
}

/// Whether a declaration is `repr(C)` does not depend on its other
/// attributes: with attributes `a` followed by `b` it is `repr(C)` exactly
/// when `a` or `b` alone would make it so.
pub proof fn law_other_attributes_do_not_matter(a: Seq<Attribute>, b: Seq<Attribute>)
    ensures
        is_repr_c(a + b) == (is_repr_c(a) || is_repr_c(b)),
{
    let ab = a + b;
    if is_repr_c(ab) {
        let i = choose|i: int| 0 <= i < ab.len() && is_repr_c_attr(#[trigger] ab[i]);
        if i < a.len() {
            assert(ab[i] == a[i]);
        } else {
            assert(ab[i] == b[i - a.len()]);
        }
    }
    if is_repr_c(a) {
        let i = choose|i: int| 0 <= i < a.len() && is_repr_c_attr(#[trigger] a[i]);
        assert(ab[i] == a[i]);
    }
    if is_repr_c(b) {
        let i = choose|i: int| 0 <= i < b.len() && is_repr_c_attr(#[trigger] b[i]);
        assert(ab[i + a.len()] == b[i]);
    }
}

} // verus!
