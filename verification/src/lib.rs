//! Session orchestration for a command-line SAT front end: the rules that
//! surround an opaque solving engine.
//!
//! The engine itself, the streams and the interrupt handler belong to the
//! program that uses this library. What is here is what that program has to
//! get right whichever engine it runs:
//!
//! - `location`: whether an input argument is a URL or a local path;
//! - `replay`: the buffer that lets the console be read again after a seek;
//! - `limits`: the ceilings on CPU time and address space, which may only
//!   tighten what the platform enforces;
//! - `stat`: the timing record, flushed to the diagnostic channel at most
//!   once;
//! - `memory`: the resident memory of the process;
//! - `outcome`: the answer, its exit code and its text on the result
//!   channel;
//! - `session`: the order of a session, as a machine that the program
//!   steps;
//! - `runs`: what holds of every run of that machine;
//! - `text`: numbers as text.

pub mod limits;
pub mod location;
pub mod memory;
pub mod outcome;
pub mod replay;
pub mod runs;
pub mod session;
pub mod stat;
pub mod text;
