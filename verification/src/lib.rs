//! Front-end core of a SystemVerilog compiler: a directive preprocessor over
//! categorized tokens and a constant folder over elaborated expressions.

pub mod ast;
pub mod bignum;
pub mod cat;
pub mod eval;
pub mod hir;
pub mod laws;
pub mod macros;
pub mod mir;
pub mod model;
pub mod preproc;
pub mod token;
pub mod ty;
pub mod value;
