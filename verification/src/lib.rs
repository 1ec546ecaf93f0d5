//! The execution core of a small native-process debugger for x86-64 Linux:
//! the life cycle of one traced process, the table that describes every
//! register of the architecture, and the decoding and encoding of register
//! values against the kernel's register snapshot.
//!
//! The library performs no system call. The host issues the tracing requests
//! and hands their outcomes to the controller, which decides what follows.

pub mod codec;
pub mod command;
pub mod error;
pub mod process;
pub mod reginfo;
pub mod registers;
pub mod text;
