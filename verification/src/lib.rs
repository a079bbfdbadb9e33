//! A sans-I/O core for a small 16-bit, word-addressed machine: image loading,
//! memory-mapped device decoding, instruction execution and trap dispatch.
//!
//! The machine never touches a terminal itself. Before each instruction the
//! host asks [`Vm::demand`] what the keyboard has to provide, obtains it, and
//! hands it to [`Vm::step`], which returns the bytes to send to the display.
//! [`Vm::run`] does the same against keys that are known in advance.

pub mod decode;
pub mod error;
pub mod exec;
pub mod flag;
pub mod laws;
pub mod loader;
pub mod machine;
pub mod outcome;
pub mod run;
pub mod semantics;
pub mod trap;
pub mod vm;
pub mod word;

pub use decode::{Opcode, OpcodeConvertErr};
pub use error::VmError;
pub use exec::Request;
pub use flag::Flag;
pub use machine::Supply;
pub use outcome::{Outcome, RunState};
pub use run::{Report, Stop};
pub use semantics::Need;
pub use vm::Vm;
pub use word::sign_ext;
