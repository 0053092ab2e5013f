//! The three outputs of a translation (a C++ header, a C# source file and a
//! Python ctypes module) and the operations that add declarations to them.

use vstd::prelude::*;
use crate::text::{contains_str, decimal, push_decimal, str_eq};
use crate::typemap::{cpp_map, cpp_type, cs_map, cs_type, py_map, py_type};

verus! {

/// A target language.
#[derive(Clone, Copy, Debug, PartialEq, Eq, Structural)]
pub enum LanguageType {
    CPP,
    Python,
    CSharp,
}

/// Why a declaration cannot be translated.
#[derive(Clone, Copy, Debug, PartialEq, Eq, Structural)]
pub enum TranslateError {
    /// The outputs were closed by the finalizing struct before this declaration.
    FilesClosed,
    /// A field's type is `i128` or `u128`, which no target language has.
    Int128,
    /// An array of arrays.
    MultiDimArray,
    /// An array of pointers.
    PointerArray,
    /// A pointer to an array.
    PointerToArray,
    /// A pointer to a pointer.
    MultiPointer,
    /// A pointer to a type that is neither a path, an array nor a pointer.
    UnsupportedPointer,
}

/// The contents of the outputs.
#[verifier::ext_equal]
pub struct TranslatorView {
    /// The C++ header.
    pub cpp: Seq<char>,
    /// The C# source.
    pub cs: Seq<char>,
    /// The Python module; it stays empty until the outputs are closed.
    pub py: Seq<char>,
    /// The Python lines gathered for the module's body.
    pub py_lines: Seq<Seq<char>>,
    /// The ctypes names that the Python module imports, in first-use order.
    pub py_used: Seq<Seq<char>>,
    /// Whether the outputs were closed.
    pub closed: bool,
    /// Notices about fields that were skipped, not yet taken by the caller.
    pub notices: Seq<Seq<char>>,
}

/// The outputs of a translation, built up one declaration at a time.
pub struct Translator {
    cpp: String,
    cs: String,
    py: String,
    py_lines: Vec<String>,
    py_used: Vec<String>,
    closed: bool,
    notices: Vec<String>,
}

impl View for Translator {
    type V = TranslatorView;

    closed spec fn view(&self) -> TranslatorView {
        TranslatorView {
            cpp: self.cpp@,
            cs: self.cs@,
            py: self.py@,
            py_lines: self.py_lines.deep_view(),
            py_used: self.py_used.deep_view(),
            closed: self.closed,
            notices: self.notices.deep_view(),
        }
    }
}

/// The C++ header's opening lines for an output named `en`.
pub open spec fn cpp_header(en: Seq<char>) -> Seq<char> {
    "#include <stdbool.h>\n#include <cstdint>\n\n"@ + "#ifndef "@ + en + "_H\n"@ + "#define "@ + en
        + "_H\n\n"@
}

/// The C# source's opening lines for an output named `en`.
pub open spec fn cs_header(en: Seq<char>) -> Seq<char> {
    "using System;\n"@ + "using System.Linq;\n"@ + "using System.Runtime.InteropServices;\n\n"@
        + "namespace "@ + en + "\n{\n"@
}

/// The outputs before any declaration, for an output named `en`.
pub open spec fn initial_view(en: Seq<char>) -> TranslatorView {
    TranslatorView {
        cpp: cpp_header(en),
        cs: cs_header(en),
        py: seq![],
        py_lines: seq![],
        py_used: seq!["Structure"@],
        closed: false,
        notices: seq![],
    }
}

/// The 128-bit integer types, which have no counterpart.
pub open spec fn int128(d: Seq<char>) -> bool {
    d == "i128"@ || d == "u128"@
}

/// The mapped name, or the type's own name where the table has none.
pub open spec fn or_self(m: Option<Seq<char>>, d: Seq<char>) -> Seq<char> {
    match m {
        Some(t) => t,
        None => d,
    }
}

/// The import list after a use of `t`: `t` is added at the end unless it is there.
pub open spec fn note_used(used: Seq<Seq<char>>, t: Seq<char>) -> Seq<Seq<char>> {
    if used.contains(t) {
        used
    } else {
        used.push(t)
    }
}

/// The import list after a field whose type the Python table maps as `m`.
pub open spec fn used_after(used: Seq<Seq<char>>, m: Option<Seq<char>>) -> Seq<Seq<char>> {
    match m {
        Some(t) => note_used(used, t),
        None => used,
    }
}

/// A Python `_fields_` entry.
pub open spec fn py_line(name: Seq<char>, ty: Seq<char>) -> Seq<char> {
    "        (\""@ + name + "\", "@ + ty + "),\n"@
}

/// A Python `_fields_` entry for a pointer.
pub open spec fn py_pointer_line(name: Seq<char>, ty: Seq<char>) -> Seq<char> {
    "        (\""@ + name + "\", POINTER("@ + ty + ")),\n"@
}

/// The outputs after a field of simple type `d` in language `lt`.
pub open spec fn simple_type_spec(
    v: TranslatorView,
    lt: LanguageType,
    name: Seq<char>,
    d: Seq<char>,
) -> TranslatorView {
    match lt {
        LanguageType::CPP => TranslatorView {
            cpp: v.cpp + "\t"@ + or_self(cpp_map(d), d) + " "@ + name + ";\n"@,
            ..v
        },
        LanguageType::Python => TranslatorView {
            py_lines: v.py_lines.push(py_line(name, or_self(py_map(d), d))),
            py_used: used_after(v.py_used, py_map(d)),
            ..v
        },
        LanguageType::CSharp => TranslatorView {
            cs: v.cs + "\t\tpublic "@ + or_self(cs_map(d), d) + " "@ + name + ";\n"@,
            ..v
        },
    }
}

/// The outputs after a field that is an array of `len` elements of type `d`.
pub open spec fn array_spec(
    v: TranslatorView,
    lt: LanguageType,
    name: Seq<char>,
    len: nat,
    d: Seq<char>,
) -> TranslatorView {
    match lt {
        LanguageType::CPP => TranslatorView {
            cpp: v.cpp + "\t"@ + or_self(cpp_map(d), d) + " "@ + name + "["@ + decimal(len)
                + "];\n"@,
            ..v
        },
        LanguageType::Python => TranslatorView {
            py_lines: v.py_lines.push(
                "        (\""@ + name + "\", "@ + or_self(py_map(d), d) + " * "@ + decimal(len)
                    + "),\n"@,
            ),
            py_used: used_after(v.py_used, py_map(d)),
            ..v
        },
        LanguageType::CSharp => TranslatorView {
            cs: v.cs + (if cs_map(d) == Some("string"@) {
                "\t\t[MarshalAs(UnmanagedType.LPArray, ArraySubType=UnmanagedType.LPStr, SizeConst="@
            } else {
                "\t\t[MarshalAs(UnmanagedType.ByValArray, SizeConst = "@
            }) + decimal(len) + ")]\n"@ + "\t\tpublic "@ + or_self(cs_map(d), d) + "[] "@ + name
                + ";\n"@,
            ..v
        },
    }
}

/// The name under which a pointer's target is looked up: `c_char` stands
/// for a C string.
pub open spec fn ptr_lookup(d: Seq<char>) -> Seq<char> {
    if d == "c_char"@ {
        "c_char_pntr"@
    } else {
        d
    }
}

/// Whether the Python entry of a pointer to `d` is wrapped in `POINTER(..)`.
pub open spec fn py_uses_pointer(d: Seq<char>) -> bool {
    match py_map(ptr_lookup(d)) {
        Some(t) => ptr_lookup(d) != "c_char_pntr"@ && ptr_lookup(d) != "c_void"@,
        None => true,
    }
}

/// The Python entry of a field that points to `d`.
pub open spec fn py_pointer_entry(name: Seq<char>, d: Seq<char>) -> Seq<char> {
    match py_map(ptr_lookup(d)) {
        Some(t) => if py_uses_pointer(d) {
            py_pointer_line(name, t)
        } else {
            py_line(name, t)
        },
        None => py_pointer_line(name, d),
    }
}

/// The outputs after a field that points to `d`.
pub open spec fn pointer_spec(
    v: TranslatorView,
    lt: LanguageType,
    name: Seq<char>,
    d: Seq<char>,
) -> TranslatorView {
    match lt {
        LanguageType::CPP => TranslatorView {
            cpp: v.cpp + "\t"@ + or_self(cpp_map(ptr_lookup(d)), d) + "* "@ + name + ";\n"@,
            ..v
        },
        LanguageType::Python => {
            let used = used_after(v.py_used, py_map(ptr_lookup(d)));
            TranslatorView {
                py_lines: v.py_lines.push(py_pointer_entry(name, d)),
                py_used: if py_uses_pointer(d) {
                    note_used(used, "POINTER"@)
                } else {
                    used
                },
                ..v
            }
        },
        LanguageType::CSharp => TranslatorView {
            cs: match cs_map(ptr_lookup(d)) {
                Some(t) => if ptr_lookup(d) == "c_char_pntr"@ {
                    v.cs + "\t\t[MarshalAs(UnmanagedType.LPStr)]\n"@ + "\t\tpublic "@ + t + " "@
                        + name + ";\n"@
                } else {
                    v.cs + "\t\t//This is a '"@ + d + "' type\n"@ + "\t\tpublic IntPtr "@ + name
                        + ";\n"@
                },
                None => v.cs + "\t\t[MarshalAs(UnmanagedType.LPStruct)]\n"@ + "\t\tpublic "@ + d
                    + " "@ + name + ";\n"@,
            },
            ..v
        },
    }
}

/// The outputs after the opening of struct `n`.
pub open spec fn start_struct_spec(v: TranslatorView, lt: LanguageType, n: Seq<char>) -> TranslatorView {
    match lt {
        LanguageType::CPP => TranslatorView { cpp: v.cpp + "typedef struct "@ + n + "Tag {\n"@, ..v },
        LanguageType::CSharp => TranslatorView {
            cs: v.cs + "\t[StructLayout(LayoutKind.Sequential)]\n\tpublic struct "@ + n + "\n\t{\n"@,
            ..v
        },
        LanguageType::Python => TranslatorView {
            py_lines: v.py_lines.push("class "@ + n + "(Structure):\n"@).push("    _fields_ = [\n"@),
            ..v
        },
    }
}

/// The outputs after the closing of struct `n`.
pub open spec fn close_struct_spec(v: TranslatorView, lt: LanguageType, n: Seq<char>) -> TranslatorView {
    match lt {
        LanguageType::CPP => TranslatorView { cpp: v.cpp + "} "@ + n + ";\n\n"@, ..v },
        LanguageType::CSharp => TranslatorView { cs: v.cs + "\t}\n\n"@, ..v },
        LanguageType::Python => TranslatorView { py_lines: v.py_lines.push("        ]\n\n"@), ..v },
    }
}

/// Each name followed by a comma.
pub open spec fn comma_terminated(used: Seq<Seq<char>>) -> Seq<char>
    decreases used.len(),
{
    if used.len() == 0 {
        seq![]
    } else {
        comma_terminated(used.drop_last()) + used.last() + ","@
    }
}

/// The Python import line: the names, comma-separated, after
/// `from ctypes import `, with the text's last character removed.
pub open spec fn import_line(used: Seq<Seq<char>>) -> Seq<char> {
    ("from ctypes import "@ + comma_terminated(used)).drop_last()
}

/// All lines, one after the other.
pub open spec fn concat_lines(lines: Seq<Seq<char>>) -> Seq<char>
    decreases lines.len(),
{
    if lines.len() == 0 {
        seq![]
    } else {
        concat_lines(lines.drop_last()) + lines.last()
    }
}

/// The outputs after the output of language `lt` is closed.
pub open spec fn close_file_spec(v: TranslatorView, lt: LanguageType) -> TranslatorView {
    match lt {
        LanguageType::CPP => TranslatorView { cpp: v.cpp + "\n#endif"@, ..v },
        LanguageType::CSharp => TranslatorView { cs: v.cs + "\n}"@, ..v },
        LanguageType::Python => TranslatorView {
            py: v.py + "\n"@ + import_line(v.py_used) + "\n\n"@ + concat_lines(v.py_lines),
            ..v
        },
    }
}

/// The opening that a file for struct `n` starts with.
pub open spec fn file_opening_spec(lt: LanguageType, n: Seq<char>) -> Seq<char> {
    match lt {
        LanguageType::CPP => "typedef struct "@ + n + "Tag {\n"@,
        LanguageType::Python => "class "@ + n + "(Structure):\n"@,
        LanguageType::CSharp => "\t[StructLayout(LayoutKind.Sequential)]\n\tpublic struct "@ + n
            + "\n\t{\n"@,
    }
}

fn string_of(s: &str) -> (r: String)
    ensures
        r@ == s@,
{
    let mut r = String::new();
    r.append(s);
    r
}

fn is_int128(d: &str) -> (r: bool)
    ensures
        r == int128(d@),
{
    str_eq(d, "i128") || str_eq(d, "u128")
}

impl Translator {
    /// Empty outputs named `export_name`: the C++ header starts with its
    /// includes and include guard, the C# source with its usings and namespace.
    pub fn new(export_name: &str) -> (r: Translator)
        ensures
            r@ == initial_view(export_name@),
    {
        let mut cpp = String::new();
        cpp.append("#include <stdbool.h>\n#include <cstdint>\n\n");
        cpp.append("#ifndef ");
        cpp.append(export_name);
        cpp.append("_H\n");
        cpp.append("#define ");
        cpp.append(export_name);
        cpp.append("_H\n\n");
        let mut cs = String::new();
        cs.append("using System;\n");
        cs.append("using System.Linq;\n");
        cs.append("using System.Runtime.InteropServices;\n\n");
        cs.append("namespace ");
        cs.append(export_name);
        cs.append("\n{\n");
        let mut py_used: Vec<String> = Vec::new();
        py_used.push(string_of("Structure"));
        let r = Translator {
            cpp,
            cs,
            py: String::new(),
            py_lines: Vec::new(),
            py_used,
            closed: false,
            notices: Vec::new(),
        };
        assert(r@.py_lines =~= Seq::<Seq<char>>::empty());
        assert(r@.notices =~= Seq::<Seq<char>>::empty());
        assert(r@.py_used =~= seq!["Structure"@]);
        r
    }

    /// The C++ header written so far.
    pub fn cpp_text(&self) -> (r: &str)
        ensures
            r@ == self@.cpp,
    {
        self.cpp.as_str()
    }

    /// The C# source written so far.
    pub fn cs_text(&self) -> (r: &str)
        ensures
            r@ == self@.cs,
    {
        self.cs.as_str()
    }

    /// The Python module written so far.
    pub fn py_text(&self) -> (r: &str)
        ensures
            r@ == self@.py,
    {
        self.py.as_str()
    }

    /// Whether the outputs were closed.
    pub fn is_closed(&self) -> (r: bool)
        ensures
            r == self@.closed,
    {
        self.closed
    }

    pub(crate) fn set_closed(&mut self)
        ensures
            final(self)@ == (TranslatorView { closed: true, ..old(self)@ }),
    {
        self.closed = true;
    }

    /// Hands out the notices gathered so far and forgets them.
    pub fn take_notices(&mut self) -> (r: Vec<String>)
        ensures
            r.deep_view() == old(self)@.notices,
            final(self)@ == (TranslatorView { notices: seq![], ..old(self)@ }),
    {
        let mut r: Vec<String> = Vec::new();
        std::mem::swap(&mut r, &mut self.notices);
        assert(self.notices.deep_view() =~= Seq::<Seq<char>>::empty());
        r
    }

    pub(crate) fn push_notice(&mut self, notice: String)
        ensures
            final(self)@ == (TranslatorView {
                notices: old(self)@.notices.push(notice@),
                ..old(self)@
            }),
    {
        self.notices.push(notice);
        assert(self.notices.deep_view() =~= old(self).notices.deep_view().push(notice@));
    }

    fn push_py_line(&mut self, line: String)
        ensures
            final(self)@ == (TranslatorView {
                py_lines: old(self)@.py_lines.push(line@),
                ..old(self)@
            }),
    {
        self.py_lines.push(line);
        assert(self.py_lines.deep_view() =~= old(self).py_lines.deep_view().push(line@));
    }

    fn note_used(&mut self, t: &str)
        ensures
            final(self)@ == (TranslatorView {
                py_used: note_used(old(self)@.py_used, t@),
                ..old(self)@
            }),
    {
        if !contains_str(&self.py_used, t) {
            self.py_used.push(string_of(t));
            assert(self.py_used.deep_view() =~= old(self).py_used.deep_view().push(t@));
        }
    }
}

/// Adds a field of simple type `dtype` (such as `i32` or another struct) to
/// the output of `ltype`, under the name that language gives the type.
pub fn add_simple_type(
    out: &mut Translator,
    ltype: LanguageType,
    name: &str,
    dtype: &str,
) -> (r: Result<(), TranslateError>)
    ensures
        int128(dtype@) ==> r == Err::<(), TranslateError>(TranslateError::Int128) && final(out)@
            == old(out)@,
        !int128(dtype@) ==> r is Ok && final(out)@ == simple_type_spec(
            old(out)@,
            ltype,
            name@,
            dtype@,
        ),
{
    if is_int128(dtype) {
        return Err(TranslateError::Int128);
    }
    match ltype {
        LanguageType::CPP => {
            let t = match cpp_type(dtype) {
                Some(t) => t,
                None => dtype,
            };
            out.cpp.append("\t");
            out.cpp.append(t);
            out.cpp.append(" ");
            out.cpp.append(name);
            out.cpp.append(";\n");
        },
        LanguageType::Python => {
            let m = py_type(dtype);
            let t = match m {
                Some(t) => t,
                None => dtype,
            };
            let mut line = String::new();
            line.append("        (\"");
            line.append(name);
            line.append("\", ");
            line.append(t);
            line.append("),\n");
            out.push_py_line(line);
            if let Some(t) = m {
                out.note_used(t);
            }
        },
        LanguageType::CSharp => {
            let t = match cs_type(dtype) {
                Some(t) => t,
                None => dtype,
            };
            out.cs.append("\t\tpublic ");
            out.cs.append(t);
            out.cs.append(" ");
            out.cs.append(name);
            out.cs.append(";\n");
        },
    }
    Ok(())
}


/// Adds a field that is an array of `length` elements of type `dtype` to the
/// output of `ltype`.
pub fn add_array(
    out: &mut Translator,
    ltype: LanguageType,
    name: &str,
    length: u64,
    dtype: &str,
) -> (r: Result<(), TranslateError>)
    ensures
        int128(dtype@) ==> r == Err::<(), TranslateError>(TranslateError::Int128) && final(out)@
            == old(out)@,
        !int128(dtype@) ==> r is Ok && final(out)@ == array_spec(
            old(out)@,
            ltype,
            name@,
            length as nat,
            dtype@,
        ),
{
    if is_int128(dtype) {
        return Err(TranslateError::Int128);
    }
    match ltype {
        LanguageType::CPP => {
            let t = match cpp_type(dtype) {
                Some(t) => t,
                None => dtype,
            };
            out.cpp.append("\t");
            out.cpp.append(t);
            out.cpp.append(" ");
            out.cpp.append(name);
            out.cpp.append("[");
            push_decimal(&mut out.cpp, length);
            out.cpp.append("];\n");
        },
        LanguageType::Python => {
            let m = py_type(dtype);
            let t = match m {
                Some(t) => t,
                None => dtype,
            };
            let mut line = String::new();
            line.append("        (\"");
            line.append(name);
            line.append("\", ");
            line.append(t);
            line.append(" * ");
            push_decimal(&mut line, length);
            line.append("),\n");
            out.push_py_line(line);
            if let Some(t) = m {
                out.note_used(t);
            }
        },
        LanguageType::CSharp => {
            let m = cs_type(dtype);
            let is_string = match m {
                Some(t) => str_eq(t, "string"),
                None => false,
            };
            let t = match m {
                Some(t) => t,
                None => dtype,
            };
            if is_string {
                out.cs.append(
                    "\t\t[MarshalAs(UnmanagedType.LPArray, ArraySubType=UnmanagedType.LPStr, SizeConst=",
                );
            } else {
                out.cs.append("\t\t[MarshalAs(UnmanagedType.ByValArray, SizeConst = ");
            }
            push_decimal(&mut out.cs, length);
            out.cs.append(")]\n");
            out.cs.append("\t\tpublic ");
            out.cs.append(t);
            out.cs.append("[] ");
            out.cs.append(name);
            out.cs.append(";\n");
        },
    }
    Ok(())
}

/// Adds a field that is a raw pointer to `dtype` to the output of `ltype`;
/// a pointer to `c_char` is a C string.
pub fn add_pointer(
    out: &mut Translator,
    ltype: LanguageType,
    name: &str,
    dtype: &str,
) -> (r: Result<(), TranslateError>)
    ensures
        int128(dtype@) ==> r == Err::<(), TranslateError>(TranslateError::Int128) && final(out)@
            == old(out)@,
        !int128(dtype@) ==> r is Ok && final(out)@ == pointer_spec(
            old(out)@,
            ltype,
            name@,
            dtype@,
        ),
{
    if is_int128(dtype) {
        return Err(TranslateError::Int128);
    }
    let lookup: &str = if str_eq(dtype, "c_char") {
        "c_char_pntr"
    } else {
        dtype
    };
    assert(lookup@ == ptr_lookup(dtype@));
    match ltype {
        LanguageType::CPP => {
            let t = match cpp_type(lookup) {
                Some(t) => t,
                None => dtype,
            };
            out.cpp.append("\t");
            out.cpp.append(t);
            out.cpp.append("* ");
            out.cpp.append(name);
            out.cpp.append(";\n");
        },
        LanguageType::Python => {
            let mut line = String::new();
            let mut uses_pointer = false;
            match py_type(lookup) {
                Some(t) => {
                    if !str_eq(lookup, "c_char_pntr") && !str_eq(lookup, "c_void") {
                        line.append("        (\"");
                        line.append(name);
                        line.append("\", POINTER(");
                        line.append(t);
                        line.append(")),\n");
                        uses_pointer = true;
                    } else {
                        line.append("        (\"");
                        line.append(name);
                        line.append("\", ");
                        line.append(t);
                        line.append("),\n");
                    }
                    out.push_py_line(line);
                    out.note_used(t);
                },
                None => {
                    line.append("        (\"");
                    line.append(name);
                    line.append("\", POINTER(");
                    line.append(dtype);
                    line.append(")),\n");
                    uses_pointer = true;
                    out.push_py_line(line);
                },
            }
            assert(uses_pointer == py_uses_pointer(dtype@));
            if uses_pointer {
                out.note_used("POINTER");
            }
        },
        LanguageType::CSharp => {
            match cs_type(lookup) {
                Some(t) => {
                    if str_eq(lookup, "c_char_pntr") {
                        out.cs.append("\t\t[MarshalAs(UnmanagedType.LPStr)]\n");
                        out.cs.append("\t\tpublic ");
                        out.cs.append(t);
                        out.cs.append(" ");
                        out.cs.append(name);
                        out.cs.append(";\n");
                    } else {
                        out.cs.append("\t\t//This is a '");
                        out.cs.append(dtype);
                        out.cs.append("' type\n");
                        out.cs.append("\t\tpublic IntPtr ");
                        out.cs.append(name);
                        out.cs.append(";\n");
                    }
                },
                None => {
                    out.cs.append("\t\t[MarshalAs(UnmanagedType.LPStruct)]\n");
                    out.cs.append("\t\tpublic ");
                    out.cs.append(dtype);
                    out.cs.append(" ");
                    out.cs.append(name);
                    out.cs.append(";\n");
                },
            }
        },
    }
    Ok(())
}

/// Opens the declaration of struct `structname` in the output of `ltype`.
pub fn start_struct(out: &mut Translator, ltype: LanguageType, structname: &str)
    ensures
        final(out)@ == start_struct_spec(old(out)@, ltype, structname@),
{
    match ltype {
        LanguageType::CPP => {
            out.cpp.append("typedef struct ");
            out.cpp.append(structname);
            out.cpp.append("Tag {\n");
        },
        LanguageType::CSharp => {
            out.cs.append("\t[StructLayout(LayoutKind.Sequential)]\n\tpublic struct ");
            out.cs.append(structname);
            out.cs.append("\n\t{\n");
        },
        LanguageType::Python => {
            let mut first = String::new();
            first.append("class ");
            first.append(structname);
            first.append("(Structure):\n");
            out.push_py_line(first);
            out.push_py_line(string_of("    _fields_ = [\n"));
        },
    }
}

/// Closes the declaration of struct `structname` in the output of `ltype`.
pub fn close_struct(out: &mut Translator, ltype: LanguageType, structname: &str)
    ensures
        final(out)@ == close_struct_spec(old(out)@, ltype, structname@),
{
    match ltype {
        LanguageType::CPP => {
            out.cpp.append("} ");
            out.cpp.append(structname);
            out.cpp.append(";\n\n");
        },
        LanguageType::CSharp => {
            out.cs.append("\t}\n\n");
        },
        LanguageType::Python => {
            out.push_py_line(string_of("        ]\n\n"));
        },
    }
}

proof fn lemma_import_line_empty()
    ensures
        import_line(seq![]) == "from ctypes import"@,
{
    reveal_strlit("from ctypes import ");
    reveal_strlit("from ctypes import");
    assert(("from ctypes import "@ + comma_terminated(seq![])) =~= "from ctypes import "@);
    assert(("from ctypes import "@).drop_last() =~= "from ctypes import"@);
}

fn import_line_text(used: &Vec<String>) -> (r: String)
    ensures
        r@ == import_line(used.deep_view()),
{
    let ghost u = used.deep_view();
    let n = used.len();
    if n == 0 {
        proof {
            lemma_import_line_empty();
            assert(u =~= Seq::<Seq<char>>::empty());
        }
        return string_of("from ctypes import");
    }
    let mut r = string_of("from ctypes import ");
    let mut i: usize = 0;
    while i < n - 1
        invariant
            n == used.len(),
            n > 0,
            u == used.deep_view(),
            i <= n - 1,
            r@ == "from ctypes import "@ + comma_terminated(u.take(i as int)),
        decreases n - 1 - i,
    {
        assert(u.take(i + 1).drop_last() =~= u.take(i as int));
        assert(u.take(i + 1).last() == used[i as int]@);
        r.append(used[i].as_str());
        r.append(",");
        i = i + 1;
    }
    r.append(used[n - 1].as_str());
    proof {
        assert(u.take(n - 1) =~= u.drop_last());
        assert(u.last() == used[n - 1]@);
        let p = "from ctypes import "@;
        let whole = p + comma_terminated(u);
        reveal_strlit(",");
        assert(comma_terminated(u) == comma_terminated(u.drop_last()) + u.last() + ","@);
        assert(whole =~= (p + comma_terminated(u.drop_last()) + u.last()) + ","@);
        assert(whole.drop_last() =~= p + comma_terminated(u.drop_last()) + u.last());
    }
    r
}

fn concat_text(out: &mut String, lines: &Vec<String>)
    ensures
        final(out)@ == old(out)@ + concat_lines(lines.deep_view()),
{
    let ghost u = lines.deep_view();
    let mut i: usize = 0;
    while i < lines.len()
        invariant
            i <= lines.len(),
            u == lines.deep_view(),
            out@ == old(out)@ + concat_lines(u.take(i as int)),
        decreases lines.len() - i,
    {
        assert(u.take(i + 1).drop_last() =~= u.take(i as int));
        assert(u.take(i + 1).last() == lines[i as int]@);
        out.append(lines[i].as_str());
        i = i + 1;
    }
    assert(u.take(lines.len() as int) =~= u);
}

/// Ends the output of `ltype`: the C++ header closes its include guard, the
/// C# source its namespace, and the Python module receives its import line
/// and all gathered lines.
pub fn close_file(out: &mut Translator, ltype: LanguageType)
    ensures
        final(out)@ == close_file_spec(old(out)@, ltype),
{
    match ltype {
        LanguageType::CPP => {
            out.cpp.append("\n#endif");
        },
        LanguageType::CSharp => {
            out.cs.append("\n}");
        },
        LanguageType::Python => {
            out.py.append("\n");
            let imports = import_line_text(&out.py_used);
            out.py.append(imports.as_str());
            out.py.append("\n\n");
            concat_text(&mut out.py, &out.py_lines);
        },
    }
}

/// The opening that a file for struct `structname` in language `ltype` starts with.
pub fn file_opening(ltype: LanguageType, structname: &str) -> (r: String)
    ensures
        r@ == file_opening_spec(ltype, structname@),
{
    let mut r = String::new();
    match ltype {
        LanguageType::CPP => {
            r.append("typedef struct ");
            r.append(structname);
            r.append("Tag {\n");
        },
        LanguageType::Python => {
            r.append("class ");
            r.append(structname);
            r.append("(Structure):\n");
        },
        LanguageType::CSharp => {
            r.append("\t[StructLayout(LayoutKind.Sequential)]\n\tpublic struct ");
            r.append(structname);
            r.append("\n\t{\n");
        },
    }
    r
}

} // verus!
