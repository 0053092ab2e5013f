//! The parts of a struct declaration that the translation reads: its
//! attributes (as tokens), its name and the types of its named fields.

use vstd::prelude::*;
use crate::text::str_eq;

verus! {

/// A token inside the delimited group of an attribute, such as `C` in `#[repr(C)]`.
pub enum GroupToken {
    /// A word (identifier or keyword).
    Term(String),
    /// Punctuation, literals and nested groups.
    Other,
}

/// A token of an attribute's token stream after its path.
pub enum AttrToken {
    /// A delimited group, with the tokens directly inside it.
    Group(Vec<GroupToken>),
    /// Any token that is not a group.
    Other,
}

/// An outer attribute of the declaration, such as `#[repr(C)]`.
pub struct Attribute {
    /// The attribute's path, such as `repr`.
    pub path: String,
    /// The tokens after the path, such as the group `(C)`.
    pub tokens: Vec<AttrToken>,
}

/// The length expression of an array type.
pub enum ArrayLen {
    /// An integer literal.
    Int(u64),
    /// Any other expression.
    Other,
}

/// The type that an array or a pointer holds, as far as the translation reads it.
pub enum ElemType {
    Array,
    Ptr,
    /// A type named by a path; the string is the path's last segment.
    Path(String),
    Other,
}

/// An array type `[elem; len]`.
pub struct TypeArray {
    pub elem: ElemType,
    pub len: ArrayLen,
}

/// The type of a field.
pub enum FieldType {
    Array(TypeArray),
    /// A raw pointer, with the type it points to.
    Ptr(ElemType),
    /// A type named by a path; the string is the path's last segment.
    Path(String),
    Other,
}

/// A named field.
pub struct Field {
    pub name: String,
    pub ty: FieldType,
}

/// The fields of a struct.
pub enum Fields {
    Named(Vec<Field>),
    Unnamed,
    Unit,
}

/// The body of the declaration.
pub enum Data {
    Struct(Fields),
    /// An enum or a union.
    Other,
}

/// A type declaration handed to the derive.
pub struct DeriveInput {
    pub attrs: Vec<Attribute>,
    pub ident: String,
    pub data: Data,
}

/// Whether the token is the word `C`.
pub open spec fn is_c_word(t: GroupToken) -> bool {
    match t {
        GroupToken::Term(w) => w@ == "C"@,
        GroupToken::Other => false,
    }
}

/// Whether the group holds the word `C`.
pub open spec fn group_lists_c(g: Seq<GroupToken>) -> bool {
    exists|k: int| 0 <= k < g.len() && #[trigger] is_c_word(g[k])
}

/// Whether the token is a group that holds the word `C`.
pub open spec fn is_c_group(t: AttrToken) -> bool {
    match t {
        AttrToken::Group(g) => group_lists_c(g@),
        AttrToken::Other => false,
    }
}

/// Whether one of the attribute's groups holds the word `C`.
pub open spec fn attr_lists_c(ts: Seq<AttrToken>) -> bool {
    exists|j: int| 0 <= j < ts.len() && #[trigger] is_c_group(ts[j])
}

/// Whether the attribute is `repr(..)` with `C` among its representations.
pub open spec fn is_repr_c_attr(a: Attribute) -> bool {
    a.path@ == "repr"@ && attr_lists_c(a.tokens@)
}

/// A declaration is `repr(C)` when one of its attributes is a `repr`
/// attribute that lists `C`, whatever other attributes it carries.
pub open spec fn is_repr_c(attrs: Seq<Attribute>) -> bool {
    exists|i: int| 0 <= i < attrs.len() && is_repr_c_attr(#[trigger] attrs[i])
}

fn group_has_c(g: &Vec<GroupToken>) -> (r: bool)
    ensures
        r == group_lists_c(g@),
{
    let mut i: usize = 0;
    while i < g.len()
        invariant
            i <= g.len(),
            forall|k: int| 0 <= k < i ==> !#[trigger] is_c_word(g@[k]),
        decreases g.len() - i,
    {
        if let GroupToken::Term(w) = &g[i] {
            if str_eq(w.as_str(), "C") {
                assert(is_c_word(g@[i as int]));
                return true;
            }
        }
        i = i + 1;
    }
    false
}

fn attr_has_c(ts: &Vec<AttrToken>) -> (r: bool)
    ensures
        r == attr_lists_c(ts@),
{
    let mut i: usize = 0;
    while i < ts.len()
        invariant
            i <= ts.len(),
            forall|k: int| 0 <= k < i ==> !#[trigger] is_c_group(ts@[k]),
        decreases ts.len() - i,
    {
        if let AttrToken::Group(g) = &ts[i] {
            if group_has_c(g) {
                assert(is_c_group(ts@[i as int]));
                return true;
            }
        }
        i = i + 1;
    }
    false
}

/// Whether the declaration is `repr(C)`: some attribute is `repr` and one
/// of its groups lists `C`.
pub fn is_repr_c_attrs(attrs: &Vec<Attribute>) -> (r: bool)
    ensures
        r == is_repr_c(attrs@),
{
    let mut i: usize = 0;
    while i < attrs.len()
        invariant
            i <= attrs.len(),
            forall|k: int| 0 <= k < i ==> !is_repr_c_attr(#[trigger] attrs@[k]),
        decreases attrs.len() - i,
    {
        if str_eq(attrs[i].path.as_str(), "repr") && attr_has_c(&attrs[i].tokens) {
            assert(is_repr_c_attr(attrs@[i as int]));
            return true;
        }
        i = i + 1;
    }
    false
}

/// The value of an array's length, where it is an integer literal.
pub fn get_array_len(arr: &TypeArray) -> (r: Option<u64>)
    ensures
        r == (match arr.len {
            ArrayLen::Int(v) => Some(v),
            ArrayLen::Other => None,
        }),
{
    match arr.len {
        ArrayLen::Int(v) => Some(v),
        ArrayLen::Other => None,
    }
}

} // verus!
