//! A minimal command interpreter's core: parsing a line into a command, a
//! redirected command or a pipeline, planning how each process is launched,
//! and the descriptor bookkeeping of a pipeline run, all with verified
//! contracts. The process primitives themselves are driven by the caller.

pub mod builtin;
pub mod command;
pub mod launch;
pub mod parser;
pub mod pipeline;
pub mod text;
