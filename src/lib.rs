//! Entry-point generation and signature checking for functions marked runnable.
//!
//! The code generator turns an attributed function declaration into a wrapper
//! that reads its arguments from a flat input buffer of field elements and
//! writes the serialized result to an output buffer. The signature validator
//! checks that every raw entry point follows that two-parameter convention.

pub mod client_status;
pub mod codegen;
pub mod diagnostics;
pub mod text;
pub mod validator;
