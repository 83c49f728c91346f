//! Per-function bytecode builder for a register-oriented virtual machine that
//! runs a Go-like language.
//!
//! A [`context::FuncCtx`] gathers the instructions of one function in a
//! symbolic form ([`inst::InterInst`] over [`addr::Addr`]) and, once every
//! local, label and package member is known, rewrites them in one pass into
//! the numeric form that the machine decodes ([`value::Instruction`]).
//!
//! - [`keys`], [`value`], [`objects`], [`objmap`]: what the builder shares
//!   with the parser, the type checker and the machine.
//! - [`consts`]: the constant pool.
//! - [`addr`], [`inst`]: symbolic operands and instructions, and how each
//!   becomes final.
//! - [`expr`]: the temporaries of one expression.
//! - [`state`]: the builder as a mathematical value, and its steps.
//! - [`context`]: the builder itself.
//! - [`laws`]: what holds of the builder as a whole.
//! - [`engine`]: settings and extensions of a run.
//! - [`error`]: what the builder reports.

pub mod addr;
pub mod consts;
pub mod context;
pub mod engine;
pub mod error;
pub mod expr;
pub mod inst;
pub mod keys;
pub mod laws;
pub mod objects;
pub mod objmap;
pub mod state;
pub mod value;
