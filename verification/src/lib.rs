//! Semantic checks for the modules of an Erlang-like language.
//!
//! Once a module is parsed, five independent passes look at what the parser
//! cannot judge locally: that exports, the `on_load` hook, nif declarations
//! and type specs name functions the module defines, and that every call in
//! every function body reaches a callable target with the right number of
//! arguments that is not deprecated. Each pass reads the module and reports
//! diagnostics; none of them changes it.
//!
//! Every pass states, as a sequence of diagnostics computed from the module
//! alone, exactly what it reports and in which order.

pub mod ast;
pub mod calls;
pub mod declarations;
pub mod diagnostics;
pub mod exports;
pub mod function;
pub mod gc;
pub mod metadata;
pub mod names;
pub mod passes;
pub mod process;
pub mod similarity;
pub mod text;
