//! The host-side error taxonomy.
//!
//! `WasiFsError` is the closed vocabulary the file capabilities and the poll
//! bridge speak.  It converts both ways to the guest ABI's numeric codes and
//! one way from the host OS's error categories.  The two numeric conversions
//! are deliberately not mutual inverses: several kinds collapse onto one code
//! (`InvalidData` and `IOError` both travel as `__WASI_EIO`), and only the
//! `UnknownError` fallback is guaranteed to carry its code back unchanged.

use vstd::prelude::*;

use crate::errno::__WASI_EADDRINUSE;
use crate::errno::__WASI_EADDRNOTAVAIL;
use crate::errno::__WASI_EAGAIN;
use crate::errno::__WASI_EBADF;
use crate::errno::__WASI_ECONNABORTED;
use crate::errno::__WASI_ECONNREFUSED;
use crate::errno::__WASI_ECONNRESET;
use crate::errno::__WASI_EEXIST;
use crate::errno::__WASI_EINTR;
use crate::errno::__WASI_EINVAL;
use crate::errno::__WASI_EIO;
use crate::errno::__WASI_ENOENT;
use crate::errno::__WASI_ENOSPC;
use crate::errno::__WASI_ENOTCONN;
use crate::errno::__WASI_ENOTDIR;
use crate::errno::__WASI_ENOTSUP;
use crate::errno::__WASI_EPERM;
use crate::errno::__WASI_EPIPE;
use crate::errno::__WASI_EPROTO;
use crate::errno::__WASI_ETIMEDOUT;
use crate::errno::__wasi_errno_t;

verus! {

/// One kind of I/O failure, as the host side names it.
#[derive(Copy, Clone, Debug, PartialEq, Eq, Structural)]
pub enum WasiFsError {
    /// The fd given as a base was not a directory so the operation was not possible
    BaseNotDirectory,
    /// Expected a file but found not a file
    NotAFile,
    /// The fd given was not usable
    InvalidFd,
    /// File exists
    AlreadyExists,
    /// Something failed when doing IO. These errors can generally not be handled.
    /// It may work if tried again.
    IOError,
    /// The address was in use
    AddressInUse,
    /// The address could not be found
    AddressNotAvailable,
    /// A pipe was closed
    BrokenPipe,
    /// The connection was aborted
    ConnectionAborted,
    /// The connection request was refused
    ConnectionRefused,
    /// The connection was reset
    ConnectionReset,
    /// The operation was interrupted before it could finish
    Interrupted,
    /// Invalid internal data, if the argument data is invalid, use `InvalidInput`
    InvalidData,
    /// The provided data is invalid
    InvalidInput,
    /// Could not perform the operation because there was not an open connection
    NotConnected,
    /// The requested file or directory could not be found
    EntityNotFound,
    /// Caller was not allowed to perform this operation
    PermissionDenied,
    /// The operation did not complete within the given amount of time
    TimedOut,
    /// Found EOF when EOF was not expected
    UnexpectedEof,
    /// Operation would block, this error lets the caller know that they can try again
    WouldBlock,
    /// A call to write returned 0
    WriteZero,
    /// The backing resource of this capability has no meaningful way to
    /// perform the requested operation
    NotSupported,
    /// A guest ABI error code without a host-side name.  The original code is
    /// preserved so that re-encoding loses nothing.
    UnknownError(__wasi_errno_t),
}

/// The forward mapping: which kind a guest ABI code decodes to.
/// Total: unrecognized codes fall back to `UnknownError`, keeping the code.
pub open spec fn kind_of_errno(err: __wasi_errno_t) -> WasiFsError {
    if err == __WASI_EBADF {
        WasiFsError::InvalidFd
    } else if err == __WASI_EEXIST {
        WasiFsError::AlreadyExists
    } else if err == __WASI_EIO {
        WasiFsError::IOError
    } else if err == __WASI_EADDRINUSE {
        WasiFsError::AddressInUse
    } else if err == __WASI_EADDRNOTAVAIL {
        WasiFsError::AddressNotAvailable
    } else if err == __WASI_EPIPE {
        WasiFsError::BrokenPipe
    } else if err == __WASI_ECONNABORTED {
        WasiFsError::ConnectionAborted
    } else if err == __WASI_ECONNREFUSED {
        WasiFsError::ConnectionRefused
    } else if err == __WASI_ECONNRESET {
        WasiFsError::ConnectionReset
    } else if err == __WASI_EINTR {
        WasiFsError::Interrupted
    } else if err == __WASI_EINVAL {
        WasiFsError::InvalidInput
    } else if err == __WASI_ENOTCONN {
        WasiFsError::NotConnected
    } else if err == __WASI_ENOENT {
        WasiFsError::EntityNotFound
    } else if err == __WASI_EPERM {
        WasiFsError::PermissionDenied
    } else if err == __WASI_ETIMEDOUT {
        WasiFsError::TimedOut
    } else if err == __WASI_EPROTO {
        WasiFsError::UnexpectedEof
    } else if err == __WASI_EAGAIN {
        WasiFsError::WouldBlock
    } else if err == __WASI_ENOSPC {
        WasiFsError::WriteZero
    } else if err == __WASI_ENOTSUP {
        WasiFsError::NotSupported
    } else {
        WasiFsError::UnknownError(err)
    }
}

/// The backward mapping: which guest ABI code a kind encodes to.  Total; this
/// is the direction that collapses several kinds onto one code.
pub open spec fn errno_of_kind(kind: WasiFsError) -> __wasi_errno_t {
    match kind {
        WasiFsError::AlreadyExists => __WASI_EEXIST,
        WasiFsError::AddressInUse => __WASI_EADDRINUSE,
        WasiFsError::AddressNotAvailable => __WASI_EADDRNOTAVAIL,
        WasiFsError::BaseNotDirectory => __WASI_ENOTDIR,
        WasiFsError::BrokenPipe => __WASI_EPIPE,
        WasiFsError::ConnectionAborted => __WASI_ECONNABORTED,
        WasiFsError::ConnectionRefused => __WASI_ECONNREFUSED,
        WasiFsError::ConnectionReset => __WASI_ECONNRESET,
        WasiFsError::Interrupted => __WASI_EINTR,
        WasiFsError::InvalidData => __WASI_EIO,
        WasiFsError::InvalidFd => __WASI_EBADF,
        WasiFsError::InvalidInput => __WASI_EINVAL,
        WasiFsError::IOError => __WASI_EIO,
        WasiFsError::NotAFile => __WASI_EINVAL,
        WasiFsError::NotConnected => __WASI_ENOTCONN,
        WasiFsError::EntityNotFound => __WASI_ENOENT,
        WasiFsError::PermissionDenied => __WASI_EPERM,
        WasiFsError::TimedOut => __WASI_ETIMEDOUT,
        WasiFsError::UnexpectedEof => __WASI_EPROTO,
        WasiFsError::WouldBlock => __WASI_EAGAIN,
        WasiFsError::WriteZero => __WASI_ENOSPC,
        WasiFsError::NotSupported => __WASI_ENOTSUP,
        WasiFsError::UnknownError(ec) => ec,
    }
}

impl WasiFsError {
    /// Decode a guest ABI error code into its host-side kind.
    pub fn from_wasi_err(err: __wasi_errno_t) -> (r: WasiFsError)
        ensures
            r == kind_of_errno(err),
    {
        match err {
            __WASI_EBADF => WasiFsError::InvalidFd,
            __WASI_EEXIST => WasiFsError::AlreadyExists,
            __WASI_EIO => WasiFsError::IOError,
            __WASI_EADDRINUSE => WasiFsError::AddressInUse,
            __WASI_EADDRNOTAVAIL => WasiFsError::AddressNotAvailable,
            __WASI_EPIPE => WasiFsError::BrokenPipe,
            __WASI_ECONNABORTED => WasiFsError::ConnectionAborted,
            __WASI_ECONNREFUSED => WasiFsError::ConnectionRefused,
            __WASI_ECONNRESET => WasiFsError::ConnectionReset,
            __WASI_EINTR => WasiFsError::Interrupted,
            __WASI_EINVAL => WasiFsError::InvalidInput,
            __WASI_ENOTCONN => WasiFsError::NotConnected,
            __WASI_ENOENT => WasiFsError::EntityNotFound,
            __WASI_EPERM => WasiFsError::PermissionDenied,
            __WASI_ETIMEDOUT => WasiFsError::TimedOut,
            __WASI_EPROTO => WasiFsError::UnexpectedEof,
            __WASI_EAGAIN => WasiFsError::WouldBlock,
            __WASI_ENOSPC => WasiFsError::WriteZero,
            __WASI_ENOTSUP => WasiFsError::NotSupported,
            _ => WasiFsError::UnknownError(err),
        }
    }

    /// Encode this kind as the guest ABI error code it travels as.
    pub fn into_wasi_err(self) -> (r: __wasi_errno_t)
        ensures
            r == errno_of_kind(self),
    {
        match self {
            WasiFsError::AlreadyExists => __WASI_EEXIST,
            WasiFsError::AddressInUse => __WASI_EADDRINUSE,
            WasiFsError::AddressNotAvailable => __WASI_EADDRNOTAVAIL,
            WasiFsError::BaseNotDirectory => __WASI_ENOTDIR,
            WasiFsError::BrokenPipe => __WASI_EPIPE,
            WasiFsError::ConnectionAborted => __WASI_ECONNABORTED,
            WasiFsError::ConnectionRefused => __WASI_ECONNREFUSED,
            WasiFsError::ConnectionReset => __WASI_ECONNRESET,
            WasiFsError::Interrupted => __WASI_EINTR,
            WasiFsError::InvalidData => __WASI_EIO,
            WasiFsError::InvalidFd => __WASI_EBADF,
            WasiFsError::InvalidInput => __WASI_EINVAL,
            WasiFsError::IOError => __WASI_EIO,
            WasiFsError::NotAFile => __WASI_EINVAL,
            WasiFsError::NotConnected => __WASI_ENOTCONN,
            WasiFsError::EntityNotFound => __WASI_ENOENT,
            WasiFsError::PermissionDenied => __WASI_EPERM,
            WasiFsError::TimedOut => __WASI_ETIMEDOUT,
            WasiFsError::UnexpectedEof => __WASI_EPROTO,
            WasiFsError::WouldBlock => __WASI_EAGAIN,
            WasiFsError::WriteZero => __WASI_ENOSPC,
            WasiFsError::NotSupported => __WASI_ENOTSUP,
            WasiFsError::UnknownError(ec) => ec,
        }
    }
}

/// Law: decoding any guest ABI code and re-encoding it gives the code back.
/// Recognized codes come back because each decodes to a kind that encodes to
/// it alone; unrecognized codes come back because `UnknownError` carries them.
pub proof fn lemma_errno_round_trip(err: __wasi_errno_t)
    ensures
        errno_of_kind(kind_of_errno(err)) == err,
{
}

/// Law: the kind→code→kind direction is where the collapse shows.  Encoding
/// never changes the code a kind travels as, but three kinds re-decode to a
/// different kind because they share a code or their code has no host name.
pub proof fn lemma_kind_collapse()
    ensures
        kind_of_errno(errno_of_kind(WasiFsError::InvalidData)) == WasiFsError::IOError,
        kind_of_errno(errno_of_kind(WasiFsError::NotAFile)) == WasiFsError::InvalidInput,
        kind_of_errno(errno_of_kind(WasiFsError::BaseNotDirectory)) == WasiFsError::UnknownError(
            __WASI_ENOTDIR,
        ),
        forall|kind: WasiFsError|
            errno_of_kind(#[trigger] kind_of_errno(errno_of_kind(kind))) == errno_of_kind(kind),
{
    assert forall|kind: WasiFsError|
        errno_of_kind(#[trigger] kind_of_errno(errno_of_kind(kind))) == errno_of_kind(kind) by {
        lemma_errno_round_trip(errno_of_kind(kind));
    }
}

/// One category of host OS error, as the host's standard I/O library reports
/// it.  This models the categories the taxonomy has an explicit mapping for;
/// everything the host reports outside them arrives as `Uncategorized`.
#[derive(Copy, Clone, Debug, PartialEq, Eq, Structural)]
pub enum HostErrorKind {
    AddrInUse,
    AddrNotAvailable,
    AlreadyExists,
    BrokenPipe,
    ConnectionAborted,
    ConnectionRefused,
    ConnectionReset,
    Interrupted,
    InvalidData,
    InvalidInput,
    NotConnected,
    NotFound,
    PermissionDenied,
    TimedOut,
    UnexpectedEof,
    WouldBlock,
    WriteZero,
    Uncategorized,
}

/// The mapping from a host OS error category onto the taxonomy.  Total, and
/// never the `UnknownError` fallback: no guest ABI code exists in this
/// direction, so an unmapped category becomes the generic `IOError`.
pub open spec fn kind_of_host_error(k: HostErrorKind) -> WasiFsError {
    match k {
        HostErrorKind::AddrInUse => WasiFsError::AddressInUse,
        HostErrorKind::AddrNotAvailable => WasiFsError::AddressNotAvailable,
        HostErrorKind::AlreadyExists => WasiFsError::AlreadyExists,
        HostErrorKind::BrokenPipe => WasiFsError::BrokenPipe,
        HostErrorKind::ConnectionAborted => WasiFsError::ConnectionAborted,
        HostErrorKind::ConnectionRefused => WasiFsError::ConnectionRefused,
        HostErrorKind::ConnectionReset => WasiFsError::ConnectionReset,
        HostErrorKind::Interrupted => WasiFsError::Interrupted,
        HostErrorKind::InvalidData => WasiFsError::InvalidData,
        HostErrorKind::InvalidInput => WasiFsError::InvalidInput,
        HostErrorKind::NotConnected => WasiFsError::NotConnected,
        HostErrorKind::NotFound => WasiFsError::EntityNotFound,
        HostErrorKind::PermissionDenied => WasiFsError::PermissionDenied,
        HostErrorKind::TimedOut => WasiFsError::TimedOut,
        HostErrorKind::UnexpectedEof => WasiFsError::UnexpectedEof,
        HostErrorKind::WouldBlock => WasiFsError::WouldBlock,
        HostErrorKind::WriteZero => WasiFsError::WriteZero,
        HostErrorKind::Uncategorized => WasiFsError::IOError,
    }
}

impl From<HostErrorKind> for WasiFsError {
    /// Translate a host OS error category into the taxonomy.
    fn from(k: HostErrorKind) -> (r: WasiFsError) {
        match k {
            HostErrorKind::AddrInUse => WasiFsError::AddressInUse,
            HostErrorKind::AddrNotAvailable => WasiFsError::AddressNotAvailable,
            HostErrorKind::AlreadyExists => WasiFsError::AlreadyExists,
            HostErrorKind::BrokenPipe => WasiFsError::BrokenPipe,
            HostErrorKind::ConnectionAborted => WasiFsError::ConnectionAborted,
            HostErrorKind::ConnectionRefused => WasiFsError::ConnectionRefused,
            HostErrorKind::ConnectionReset => WasiFsError::ConnectionReset,
            HostErrorKind::Interrupted => WasiFsError::Interrupted,
            HostErrorKind::InvalidData => WasiFsError::InvalidData,
            HostErrorKind::InvalidInput => WasiFsError::InvalidInput,
            HostErrorKind::NotConnected => WasiFsError::NotConnected,
            HostErrorKind::NotFound => WasiFsError::EntityNotFound,
            HostErrorKind::PermissionDenied => WasiFsError::PermissionDenied,
            HostErrorKind::TimedOut => WasiFsError::TimedOut,
            HostErrorKind::UnexpectedEof => WasiFsError::UnexpectedEof,
            HostErrorKind::WouldBlock => WasiFsError::WouldBlock,
            HostErrorKind::WriteZero => WasiFsError::WriteZero,
            HostErrorKind::Uncategorized => WasiFsError::IOError,
        }
    }
}

impl vstd::std_specs::convert::FromSpecImpl<HostErrorKind> for WasiFsError {
    open spec fn obeys_from_spec() -> bool {
        true
    }

    open spec fn from_spec(k: HostErrorKind) -> WasiFsError {
        kind_of_host_error(k)
    }
}

/// Law: no host OS error category reaches the `UnknownError` fallback; that
/// variant is only reachable from the numeric-code direction.
pub proof fn lemma_host_error_never_unknown(k: HostErrorKind)
    ensures
        !(kind_of_host_error(k) matches WasiFsError::UnknownError(_)),
{
}

} // verus!
