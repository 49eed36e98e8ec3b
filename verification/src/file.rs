//! The file capability: the interface a backing resource must satisfy to be
//! addressable as a guest file descriptor, and the three standard streams as
//! concrete capabilities.
//!
//! Every operation is a first-class method returning a definite result; what
//! a backing kind cannot meaningfully do answers with the typed
//! `WasiFsError::NotSupported`, never by aborting the process.

use vstd::prelude::*;

use crate::fs_error::HostErrorKind;
use crate::fs_error::HostErrorKind as H;
use crate::fs_error::WasiFsError;
use std::io::ErrorKind as K;

verus! {

/// Where a seek counts from.
#[derive(Copy, Clone, Debug, PartialEq, Eq, Structural)]
pub enum SeekPosition {
    /// An absolute offset from the start of the resource.
    Start(u64),
    /// A signed offset from the end of the resource.
    End(i64),
    /// A signed offset from the current position.
    Current(i64),
}

/// A backing resource addressable as a guest file descriptor.
///
/// Implementations own the backing resource; it is released when the value is
/// dropped, which happens when the descriptor is closed or its environment is
/// torn down.  Timestamps are nanoseconds since the UNIX epoch.
pub trait WasiFile {
    /// Read bytes into the front of `buf`, returning how many were placed.
    fn read(&mut self, buf: &mut Vec<u8>) -> Result<usize, WasiFsError>;

    /// Write bytes from `buf`, returning how many were taken.
    fn write(&mut self, buf: &[u8]) -> Result<usize, WasiFsError>;

    /// Move the read/write position, returning the offset from the start.
    fn seek(&mut self, pos: SeekPosition) -> Result<u64, WasiFsError>;

    /// The last time the file was accessed.
    fn last_accessed(&self) -> u64;

    /// The last time the file was modified.
    fn last_modified(&self) -> u64;

    /// The time at which the file was created.
    fn created_time(&self) -> u64;

    /// Set the last time the file was accessed.
    fn set_last_accessed(&mut self, last_accessed: u64) -> Result<(), WasiFsError>;

    /// Set the last time the file was modified.
    fn set_last_modified(&mut self, last_modified: u64) -> Result<(), WasiFsError>;

    /// Set the time at which the file was created.
    fn set_created_time(&mut self, created_time: u64) -> Result<(), WasiFsError>;

    /// The size of the file in bytes.
    fn size(&self) -> u64;

    /// Change the size of the file; when growing, the new bytes read as zero.
    fn set_len(&mut self, new_size: u64) -> Result<(), WasiFsError>;

    /// Request deletion of the file.
    fn unlink(&mut self) -> Result<(), WasiFsError>;

    /// Store file contents and metadata to durable storage.
    fn sync_to_disk(&self) -> Result<(), WasiFsError>;

    /// Move the file to a new location.
    fn rename_file(&mut self, new_name: &str) -> Result<(), WasiFsError>;

    /// How many bytes can be read right now without blocking.
    fn bytes_available(&self) -> Result<usize, WasiFsError>;

    /// The native host handle this capability reports to the poll bridge;
    /// `None`, the default, where the backing kind has none.
    open spec fn raw_fd_spec(&self) -> Option<i32> {
        None
    }

    /// The native host handle behind this capability, for the poll bridge:
    /// exactly the one `raw_fd_spec` names.
    fn get_raw_fd(&self) -> (r: Option<i32>)
        ensures
            r == self.raw_fd_spec(),
    ;
}

/// A resource that names a place in the virtual filesystem tree.
pub trait WasiPath {

}

/// The host process's standard output: write-only, no position, no
/// timestamps, fixed size zero.
#[derive(Debug)]
pub struct Stdout;

/// The host process's standard error: write-only, no position, no
/// timestamps, fixed size zero.
#[derive(Debug)]
pub struct Stderr;

/// The host process's standard input: read-only, no position, no timestamps,
/// fixed size zero.
#[derive(Debug)]
pub struct Stdin;

/// Relies on std::io::Error::kind: names the category of a host I/O error.
/// Categories outside the modeled set arrive as `Uncategorized`.
#[verifier::external_body]
fn host_error_category(e: &std::io::Error) -> HostErrorKind {
    match e.kind() {
        K::AddrInUse => H::AddrInUse, K::AddrNotAvailable => H::AddrNotAvailable,
        K::AlreadyExists => H::AlreadyExists, K::BrokenPipe => H::BrokenPipe,
        K::ConnectionAborted => H::ConnectionAborted, K::ConnectionRefused => H::ConnectionRefused,
        K::ConnectionReset => H::ConnectionReset, K::Interrupted => H::Interrupted,
        K::InvalidData => H::InvalidData, K::InvalidInput => H::InvalidInput,
        K::NotConnected => H::NotConnected, K::NotFound => H::NotFound,
        K::PermissionDenied => H::PermissionDenied, K::TimedOut => H::TimedOut,
        K::UnexpectedEof => H::UnexpectedEof, K::WouldBlock => H::WouldBlock,
        K::WriteZero => H::WriteZero, _ => H::Uncategorized,
    }
}

/// The host's own I/O error value, carried opaquely until it is categorized.
#[verifier::external_type_specification]
#[verifier::external_body]
pub struct ExIoError(std::io::Error);

impl WasiFsError {
    /// The taxonomy kind for a host I/O error: its category, mapped through
    /// the explicit table.  Never the `UnknownError` fallback, which only
    /// the numeric-code direction can reach.
    pub fn from_io_error(e: &std::io::Error) -> (r: WasiFsError)
        ensures
            !(r matches WasiFsError::UnknownError(_)),
    {
        let k = host_error_category(e);
        proof {
            crate::fs_error::lemma_host_error_never_unknown(k);
        }
        WasiFsError::from(k)
    }
}

/// Decide a byte-count probe's result from the host query's return code and
/// the count it wrote.  A zero code is success, with a negative count read
/// as none; the three host error codes the caller names map to their kinds,
/// and any other nonzero code is the generic I/O failure.
pub fn bytes_available_outcome(
    code: i32,
    bytes_found: i32,
    bad_handle: i32,
    bad_address: i32,
    bad_request: i32,
) -> (r: Result<usize, WasiFsError>)
    ensures
        code == 0 ==> r == Ok::<usize, WasiFsError>(
            if bytes_found >= 0 {
                bytes_found as usize
            } else {
                0
            },
        ),
        code != 0 ==> r == Err::<usize, WasiFsError>(
            if code == bad_handle {
                WasiFsError::InvalidFd
            } else if code == bad_address {
                WasiFsError::InvalidData
            } else if code == bad_request {
                WasiFsError::InvalidInput
            } else {
                WasiFsError::IOError
            },
        ),
{
    if code == 0 {
        if bytes_found >= 0 {
            Ok(bytes_found as usize)
        } else {
            Ok(0)
        }
    } else if code == bad_handle {
        Err(WasiFsError::InvalidFd)
    } else if code == bad_address {
        Err(WasiFsError::InvalidData)
    } else if code == bad_request {
        Err(WasiFsError::InvalidInput)
    } else {
        Err(WasiFsError::IOError)
    }
}

/// Relies on std::io::Write::write on the standard output: at most
/// `buf.len()` bytes are taken.
#[verifier::external_body]
fn host_stdout_write(buf: &[u8]) -> (r: Result<usize, std::io::Error>)
    ensures
        r matches Ok(n) ==> n <= buf@.len(),
{
    std::io::Write::write(&mut std::io::stdout(), buf)
}

/// Relies on std::io::Write::write on the standard error: at most
/// `buf.len()` bytes are taken.
#[verifier::external_body]
fn host_stderr_write(buf: &[u8]) -> (r: Result<usize, std::io::Error>)
    ensures
        r matches Ok(n) ==> n <= buf@.len(),
{
    std::io::Write::write(&mut std::io::stderr(), buf)
}

/// Relies on std::io::Write::flush on the standard output.
#[verifier::external_body]
fn host_stdout_flush() -> Result<(), std::io::Error> {
    std::io::Write::flush(&mut std::io::stdout())
}

/// Relies on std::io::Write::flush on the standard error.
#[verifier::external_body]
fn host_stderr_flush() -> Result<(), std::io::Error> {
    std::io::Write::flush(&mut std::io::stderr())
}

/// Relies on std::io::Read::read on the standard input: at most `buf.len()`
/// bytes are placed at the front of `buf`, `buf` keeps its length, and the
/// bytes past the returned count are left as they were.
#[verifier::external_body]
fn host_stdin_read(buf: &mut Vec<u8>) -> (r: Result<usize, std::io::Error>)
    ensures
        final(buf)@.len() == old(buf)@.len(),
        r matches Ok(n) ==> n <= old(buf)@.len() && final(buf)@.skip(n as int)
            == old(buf)@.skip(n as int),
        r is Err ==> final(buf)@ == old(buf)@,
{
    std::io::Read::read(&mut std::io::stdin(), buf.as_mut_slice())
}

/// Relies on libc::STDIN_FILENO: the standard input's host handle is 0.
#[verifier::external_body]
fn host_stdin_fd() -> (r: i32)
    ensures
        r == 0i32,
{
    libc::STDIN_FILENO
}

/// Relies on libc::STDOUT_FILENO: the standard output's host handle is 1.
#[verifier::external_body]
fn host_stdout_fd() -> (r: i32)
    ensures
        r == 1i32,
{
    libc::STDOUT_FILENO
}

/// Relies on libc::STDERR_FILENO: the standard error's host handle is 2.
#[verifier::external_body]
fn host_stderr_fd() -> (r: i32)
    ensures
        r == 2i32,
{
    libc::STDERR_FILENO
}

impl WasiFile for Stdout {
    /// The standard output cannot be read; no bytes are ever placed.
    fn read(&mut self, buf: &mut Vec<u8>) -> (r: Result<usize, WasiFsError>)
        ensures
            r == Err::<usize, WasiFsError>(WasiFsError::NotSupported),
            final(buf)@ == old(buf)@,
    {
        Err(WasiFsError::NotSupported)
    }

    fn write(&mut self, buf: &[u8]) -> (r: Result<usize, WasiFsError>)
        ensures
            r matches Ok(n) ==> n <= buf@.len(),
            r matches Err(k) ==> !(k matches WasiFsError::UnknownError(_)),
    {
        match host_stdout_write(buf) {
            Ok(n) => Ok(n),
            Err(e) => Err(WasiFsError::from_io_error(&e)),
        }
    }

    /// The standard output has no position to move.
    fn seek(&mut self, pos: SeekPosition) -> (r: Result<u64, WasiFsError>)
        ensures
            r == Err::<u64, WasiFsError>(WasiFsError::NotSupported),
    {
        Err(WasiFsError::NotSupported)
    }

    fn last_accessed(&self) -> (r: u64)
        ensures
            r == 0u64,
    {
        0
    }

    fn last_modified(&self) -> (r: u64)
        ensures
            r == 0u64,
    {
        0
    }

    fn created_time(&self) -> (r: u64)
        ensures
            r == 0u64,
    {
        0
    }

    fn set_last_accessed(&mut self, last_accessed: u64) -> (r: Result<(), WasiFsError>)
        ensures
            r == Err::<(), WasiFsError>(WasiFsError::NotSupported),
    {
        Err(WasiFsError::NotSupported)
    }

    fn set_last_modified(&mut self, last_modified: u64) -> (r: Result<(), WasiFsError>)
        ensures
            r == Err::<(), WasiFsError>(WasiFsError::NotSupported),
    {
        Err(WasiFsError::NotSupported)
    }

    fn set_created_time(&mut self, created_time: u64) -> (r: Result<(), WasiFsError>)
        ensures
            r == Err::<(), WasiFsError>(WasiFsError::NotSupported),
    {
        Err(WasiFsError::NotSupported)
    }

    fn size(&self) -> (r: u64)
        ensures
            r == 0u64,
    {
        0
    }

    fn set_len(&mut self, new_size: u64) -> (r: Result<(), WasiFsError>)
        ensures
            r == Err::<(), WasiFsError>(WasiFsError::NotSupported),
    {
        Err(WasiFsError::NotSupported)
    }

    fn unlink(&mut self) -> (r: Result<(), WasiFsError>)
        ensures
            r == Err::<(), WasiFsError>(WasiFsError::NotSupported),
    {
        Err(WasiFsError::NotSupported)
    }

    /// For a stream, durable storage means the host's own buffer is emptied.
    fn sync_to_disk(&self) -> (r: Result<(), WasiFsError>)
        ensures
            r matches Err(k) ==> !(k matches WasiFsError::UnknownError(_)),
    {
        match host_stdout_flush() {
            Ok(_) => Ok(()),
            Err(e) => Err(WasiFsError::from_io_error(&e)),
        }
    }

    fn rename_file(&mut self, new_name: &str) -> (r: Result<(), WasiFsError>)
        ensures
            r == Err::<(), WasiFsError>(WasiFsError::NotSupported),
    {
        Err(WasiFsError::NotSupported)
    }

    fn bytes_available(&self) -> (r: Result<usize, WasiFsError>)
        ensures
            r == Err::<usize, WasiFsError>(WasiFsError::NotSupported),
    {
        Err(WasiFsError::NotSupported)
    }

    open spec fn raw_fd_spec(&self) -> Option<i32> {
        Some(1i32)
    }

    fn get_raw_fd(&self) -> (r: Option<i32>)
        ensures
            r == Some(1i32),
    {
        Some(host_stdout_fd())
    }
}

impl WasiFile for Stderr {
    /// The standard error cannot be read; no bytes are ever placed.
    fn read(&mut self, buf: &mut Vec<u8>) -> (r: Result<usize, WasiFsError>)
        ensures
            r == Err::<usize, WasiFsError>(WasiFsError::NotSupported),
            final(buf)@ == old(buf)@,
    {
        Err(WasiFsError::NotSupported)
    }

    fn write(&mut self, buf: &[u8]) -> (r: Result<usize, WasiFsError>)
        ensures
            r matches Ok(n) ==> n <= buf@.len(),
            r matches Err(k) ==> !(k matches WasiFsError::UnknownError(_)),
    {
        match host_stderr_write(buf) {
            Ok(n) => Ok(n),
            Err(e) => Err(WasiFsError::from_io_error(&e)),
        }
    }

    /// The standard error has no position to move.
    fn seek(&mut self, pos: SeekPosition) -> (r: Result<u64, WasiFsError>)
        ensures
            r == Err::<u64, WasiFsError>(WasiFsError::NotSupported),
    {
        Err(WasiFsError::NotSupported)
    }

    fn last_accessed(&self) -> (r: u64)
        ensures
            r == 0u64,
    {
        0
    }

    fn last_modified(&self) -> (r: u64)
        ensures
            r == 0u64,
    {
        0
    }

    fn created_time(&self) -> (r: u64)
        ensures
            r == 0u64,
    {
        0
    }

    fn set_last_accessed(&mut self, last_accessed: u64) -> (r: Result<(), WasiFsError>)
        ensures
            r == Err::<(), WasiFsError>(WasiFsError::NotSupported),
    {
        Err(WasiFsError::NotSupported)
    }

    fn set_last_modified(&mut self, last_modified: u64) -> (r: Result<(), WasiFsError>)
        ensures
            r == Err::<(), WasiFsError>(WasiFsError::NotSupported),
    {
        Err(WasiFsError::NotSupported)
    }

    fn set_created_time(&mut self, created_time: u64) -> (r: Result<(), WasiFsError>)
        ensures
            r == Err::<(), WasiFsError>(WasiFsError::NotSupported),
    {
        Err(WasiFsError::NotSupported)
    }

    fn size(&self) -> (r: u64)
        ensures
            r == 0u64,
    {
        0
    }

    fn set_len(&mut self, new_size: u64) -> (r: Result<(), WasiFsError>)
        ensures
            r == Err::<(), WasiFsError>(WasiFsError::NotSupported),
    {
        Err(WasiFsError::NotSupported)
    }

    fn unlink(&mut self) -> (r: Result<(), WasiFsError>)
        ensures
            r == Err::<(), WasiFsError>(WasiFsError::NotSupported),
    {
        Err(WasiFsError::NotSupported)
    }

    /// For a stream, durable storage means the host's own buffer is emptied.
    fn sync_to_disk(&self) -> (r: Result<(), WasiFsError>)
        ensures
            r matches Err(k) ==> !(k matches WasiFsError::UnknownError(_)),
    {
        match host_stderr_flush() {
            Ok(_) => Ok(()),
            Err(e) => Err(WasiFsError::from_io_error(&e)),
        }
    }

    fn rename_file(&mut self, new_name: &str) -> (r: Result<(), WasiFsError>)
        ensures
            r == Err::<(), WasiFsError>(WasiFsError::NotSupported),
    {
        Err(WasiFsError::NotSupported)
    }

    fn bytes_available(&self) -> (r: Result<usize, WasiFsError>)
        ensures
            r == Err::<usize, WasiFsError>(WasiFsError::NotSupported),
    {
        Err(WasiFsError::NotSupported)
    }

    open spec fn raw_fd_spec(&self) -> Option<i32> {
        Some(2i32)
    }

    fn get_raw_fd(&self) -> (r: Option<i32>)
        ensures
            r == Some(2i32),
    {
        Some(host_stderr_fd())
    }
}

impl WasiFile for Stdin {
    fn read(&mut self, buf: &mut Vec<u8>) -> (r: Result<usize, WasiFsError>)
        ensures
            final(buf)@.len() == old(buf)@.len(),
            r matches Ok(n) ==> n <= old(buf)@.len() && final(buf)@.skip(n as int)
                == old(buf)@.skip(n as int),
            r matches Err(k) ==> !(k matches WasiFsError::UnknownError(_)) && final(buf)@
                == old(buf)@,
    {
        match host_stdin_read(buf) {
            Ok(n) => Ok(n),
            Err(e) => Err(WasiFsError::from_io_error(&e)),
        }
    }

    /// The standard input cannot be written; no bytes are ever taken.
    fn write(&mut self, buf: &[u8]) -> (r: Result<usize, WasiFsError>)
        ensures
            r == Err::<usize, WasiFsError>(WasiFsError::NotSupported),
    {
        Err(WasiFsError::NotSupported)
    }

    /// The standard input has no position to move.
    fn seek(&mut self, pos: SeekPosition) -> (r: Result<u64, WasiFsError>)
        ensures
            r == Err::<u64, WasiFsError>(WasiFsError::NotSupported),
    {
        Err(WasiFsError::NotSupported)
    }

    fn last_accessed(&self) -> (r: u64)
        ensures
            r == 0u64,
    {
        0
    }

    fn last_modified(&self) -> (r: u64)
        ensures
            r == 0u64,
    {
        0
    }

    fn created_time(&self) -> (r: u64)
        ensures
            r == 0u64,
    {
        0
    }

    fn set_last_accessed(&mut self, last_accessed: u64) -> (r: Result<(), WasiFsError>)
        ensures
            r == Err::<(), WasiFsError>(WasiFsError::NotSupported),
    {
        Err(WasiFsError::NotSupported)
    }

    fn set_last_modified(&mut self, last_modified: u64) -> (r: Result<(), WasiFsError>)
        ensures
            r == Err::<(), WasiFsError>(WasiFsError::NotSupported),
    {
        Err(WasiFsError::NotSupported)
    }

    fn set_created_time(&mut self, created_time: u64) -> (r: Result<(), WasiFsError>)
        ensures
            r == Err::<(), WasiFsError>(WasiFsError::NotSupported),
    {
        Err(WasiFsError::NotSupported)
    }

    fn size(&self) -> (r: u64)
        ensures
            r == 0u64,
    {
        0
    }

    fn set_len(&mut self, new_size: u64) -> (r: Result<(), WasiFsError>)
        ensures
            r == Err::<(), WasiFsError>(WasiFsError::NotSupported),
    {
        Err(WasiFsError::NotSupported)
    }

    fn unlink(&mut self) -> (r: Result<(), WasiFsError>)
        ensures
            r == Err::<(), WasiFsError>(WasiFsError::NotSupported),
    {
        Err(WasiFsError::NotSupported)
    }

    /// The standard input holds nothing of ours to store.
    fn sync_to_disk(&self) -> (r: Result<(), WasiFsError>)
        ensures
            r == Err::<(), WasiFsError>(WasiFsError::NotSupported),
    {
        Err(WasiFsError::NotSupported)
    }

    fn rename_file(&mut self, new_name: &str) -> (r: Result<(), WasiFsError>)
        ensures
            r == Err::<(), WasiFsError>(WasiFsError::NotSupported),
    {
        Err(WasiFsError::NotSupported)
    }

    /// The host's byte-count query needs raw OS access this library does not
    /// take; poll the handle from `get_raw_fd` to learn about readiness.
    fn bytes_available(&self) -> (r: Result<usize, WasiFsError>)
        ensures
            r == Err::<usize, WasiFsError>(WasiFsError::NotSupported),
    {
        Err(WasiFsError::NotSupported)
    }

    open spec fn raw_fd_spec(&self) -> Option<i32> {
        Some(0i32)
    }

    fn get_raw_fd(&self) -> (r: Option<i32>)
        ensures
            r == Some(0i32),
    {
        Some(host_stdin_fd())
    }
}

} // verus!
