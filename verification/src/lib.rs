//! A verified core for a WASI-style host runtime: the error taxonomy that
//! crosses the guest/host boundary, the file-capability interface with the
//! three standard streams, the poll-event bridge to the host's native
//! multiplexing primitive, the per-instance execution environment, the
//! version-sensitive syscall binding tables, and a validator for the
//! WebAssembly modules whose imports those tables serve.

pub mod abi;
pub mod env;
pub mod errno;
pub mod file;
pub mod fs_error;
pub mod poll;
pub mod poll_event;
pub mod webassembly;
