//! Numeric error codes of the guest ABI.
//!
//! These are the wire-format values a guest sees in the `errno` result of a
//! syscall.  Only the codes the host-side error taxonomy speaks of are listed.

#![allow(non_camel_case_types)]
#![allow(non_upper_case_globals)]

use vstd::prelude::*;

verus! {

/// The guest ABI's errno wire type.
pub type __wasi_errno_t = u16;

pub const __WASI_EADDRINUSE: u16 = 3;
pub const __WASI_EADDRNOTAVAIL: u16 = 4;
pub const __WASI_EAGAIN: u16 = 6;
pub const __WASI_EBADF: u16 = 8;
pub const __WASI_ECONNABORTED: u16 = 13;
pub const __WASI_ECONNREFUSED: u16 = 14;
pub const __WASI_ECONNRESET: u16 = 15;
pub const __WASI_EEXIST: u16 = 20;
pub const __WASI_EINTR: u16 = 27;
pub const __WASI_EINVAL: u16 = 28;
pub const __WASI_EIO: u16 = 29;
pub const __WASI_ENOENT: u16 = 44;
pub const __WASI_ENOSPC: u16 = 51;
pub const __WASI_ENOTCONN: u16 = 53;
pub const __WASI_ENOTDIR: u16 = 54;
pub const __WASI_ENOTSUP: u16 = 58;
pub const __WASI_EPERM: u16 = 63;
pub const __WASI_EPIPE: u16 = 64;
pub const __WASI_EPROTO: u16 = 65;
pub const __WASI_ETIMEDOUT: u16 = 73;

} // verus!
