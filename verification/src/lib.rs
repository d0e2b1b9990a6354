//! Platform backend for a language runtime's standard library, targeted at a
//! restricted execution environment in which most operating-system facilities
//! are deliberately unavailable.
//!
//! Every capability-providing operation (files, sockets, pipes, processes,
//! threads) either succeeds with a well-defined result or fails with the
//! canonical `Unsupported` error; the shared utility layers (error-code
//! translation, timestamp arithmetic, buffer-initialization tracking) are
//! bit-exact and fully specified.

pub mod backtrace;
pub mod common;
pub mod error;
pub mod fd;
pub mod fs;
mod handle;
pub mod io;
pub mod locks;
pub mod net;
pub mod numfmt;
pub mod os;
pub mod pipe;
pub mod process;
pub mod rand;
pub mod readbuf;
pub mod thread;
pub mod time;
