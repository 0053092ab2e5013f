# translator

Turns descriptions of `#[repr(C)]` Rust structs into C++, C# and Python
(ctypes) declarations.

- `src/` is the verified library: the type tables (`typemap`), the model of a
  declaration (`model`), the three outputs and the operations that write to
  them (`filewriter`), the translation of one declaration (`derive`) and the
  properties that hold across translations (`laws`).
- `app/` is the derive's entry point: it reads the declaration with `syn`,
  calls the library and writes `./target/TranslateOutput/TranslateOutput.{h,cs,py}`.
- `tests/` runs the library on concrete declarations.
