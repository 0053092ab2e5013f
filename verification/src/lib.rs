//! Translates `#[repr(C)]` Rust struct descriptions into C++, Python
//! (ctypes) and C# declarations.

use vstd::prelude::*;

pub mod text;
pub mod typemap;
pub mod model;
pub mod filewriter;
pub mod derive;
pub mod laws;
pub mod layout;

verus! {

} // verus!
