//! Translation of native error codes into a portable categorical error
//! enumeration, plus the canonical "unsupported operation" error used by every
//! stubbed capability of the restricted backend.

use vstd::prelude::*;

verus! {

/// Native error numbers of the target platform (Linux).
///
/// The platform's error-number table is part of this backend's contract: the
/// decoder below is specified directly over these values.
pub const E2BIG: i32 = 7;
pub const EADDRINUSE: i32 = 98;
pub const EADDRNOTAVAIL: i32 = 99;
pub const EBUSY: i32 = 16;
pub const ECONNABORTED: i32 = 103;
pub const ECONNREFUSED: i32 = 111;
pub const ECONNRESET: i32 = 104;
pub const EDEADLK: i32 = 35;
pub const EDQUOT: i32 = 122;
pub const EEXIST: i32 = 17;
pub const EFBIG: i32 = 27;
pub const EHOSTUNREACH: i32 = 113;
pub const EINTR: i32 = 4;
pub const EINVAL: i32 = 22;
pub const EISDIR: i32 = 21;
pub const ELOOP: i32 = 40;
pub const ENOENT: i32 = 2;
pub const ENOMEM: i32 = 12;
pub const ENOSPC: i32 = 28;
pub const ENOSYS: i32 = 38;
pub const EMLINK: i32 = 31;
pub const ENAMETOOLONG: i32 = 36;
pub const ENETDOWN: i32 = 100;
pub const ENETUNREACH: i32 = 101;
pub const ENOTCONN: i32 = 107;
pub const ENOTDIR: i32 = 20;
pub const ENOTEMPTY: i32 = 39;
pub const EPIPE: i32 = 32;
pub const EROFS: i32 = 30;
pub const ESPIPE: i32 = 29;
pub const ESTALE: i32 = 116;
pub const ETIMEDOUT: i32 = 110;
pub const ETXTBSY: i32 = 26;
pub const EXDEV: i32 = 18;
pub const EACCES: i32 = 13;
pub const EPERM: i32 = 1;
pub const EAGAIN: i32 = 11;
pub const EWOULDBLOCK: i32 = 11;

/// Portable categorical error kinds shared by every platform backend.
#[derive(Clone, Copy, Debug, PartialEq, Eq, Structural)]
pub enum ErrorKind {
    AddrInUse,
    AddrNotAvailable,
    AlreadyExists,
    ArgumentListTooLong,
    BrokenPipe,
    ConnectionAborted,
    ConnectionRefused,
    ConnectionReset,
    CrossesDevices,
    Deadlock,
    DirectoryNotEmpty,
    ExecutableFileBusy,
    FileTooLarge,
    FilesystemLoop,
    FilesystemQuotaExceeded,
    HostUnreachable,
    Interrupted,
    InvalidFilename,
    InvalidInput,
    IsADirectory,
    NetworkDown,
    NetworkUnreachable,
    NotADirectory,
    NotConnected,
    NotFound,
    NotSeekable,
    OutOfMemory,
    PermissionDenied,
    ReadOnlyFilesystem,
    ResourceBusy,
    StaleNetworkFileHandle,
    StorageFull,
    TimedOut,
    TooManyLinks,
    Unsupported,
    WouldBlock,
    Uncategorized,
}

/// The portable kind that a native error number denotes.
pub open spec fn decoded_kind(errno: i32) -> ErrorKind {
    if errno == E2BIG {
        ErrorKind::ArgumentListTooLong
    } else if errno == EADDRINUSE {
        ErrorKind::AddrInUse
    } else if errno == EADDRNOTAVAIL {
        ErrorKind::AddrNotAvailable
    } else if errno == EBUSY {
        ErrorKind::ResourceBusy
    } else if errno == ECONNABORTED {
        ErrorKind::ConnectionAborted
    } else if errno == ECONNREFUSED {
        ErrorKind::ConnectionRefused
    } else if errno == ECONNRESET {
        ErrorKind::ConnectionReset
    } else if errno == EDEADLK {
        ErrorKind::Deadlock
    } else if errno == EDQUOT {
        ErrorKind::FilesystemQuotaExceeded
    } else if errno == EEXIST {
        ErrorKind::AlreadyExists
    } else if errno == EFBIG {
        ErrorKind::FileTooLarge
    } else if errno == EHOSTUNREACH {
        ErrorKind::HostUnreachable
    } else if errno == EINTR {
        ErrorKind::Interrupted
    } else if errno == EINVAL {
        ErrorKind::InvalidInput
    } else if errno == EISDIR {
        ErrorKind::IsADirectory
    } else if errno == ELOOP {
        ErrorKind::FilesystemLoop
    } else if errno == ENOENT {
        ErrorKind::NotFound
    } else if errno == ENOMEM {
        ErrorKind::OutOfMemory
    } else if errno == ENOSPC {
        ErrorKind::StorageFull
    } else if errno == ENOSYS {
        ErrorKind::Unsupported
    } else if errno == EMLINK {
        ErrorKind::TooManyLinks
    } else if errno == ENAMETOOLONG {
        ErrorKind::InvalidFilename
    } else if errno == ENETDOWN {
        ErrorKind::NetworkDown
    } else if errno == ENETUNREACH {
        ErrorKind::NetworkUnreachable
    } else if errno == ENOTCONN {
        ErrorKind::NotConnected
    } else if errno == ENOTDIR {
        ErrorKind::NotADirectory
    } else if errno == ENOTEMPTY {
        ErrorKind::DirectoryNotEmpty
    } else if errno == EPIPE {
        ErrorKind::BrokenPipe
    } else if errno == EROFS {
        ErrorKind::ReadOnlyFilesystem
    } else if errno == ESPIPE {
        ErrorKind::NotSeekable
    } else if errno == ESTALE {
        ErrorKind::StaleNetworkFileHandle
    } else if errno == ETIMEDOUT {
        ErrorKind::TimedOut
    } else if errno == ETXTBSY {
        ErrorKind::ExecutableFileBusy
    } else if errno == EXDEV {
        ErrorKind::CrossesDevices
    } else if errno == EACCES || errno == EPERM {
        ErrorKind::PermissionDenied
    } else if errno == EAGAIN || errno == EWOULDBLOCK {
        ErrorKind::WouldBlock
    } else {
        ErrorKind::Uncategorized
    }
}

/// Translates a native error number into its portable kind.
///
/// Total over every `i32`: numbers outside the platform's table fall into
/// `Uncategorized`, never a panic.
pub fn decode_error_kind(errno: i32) -> (kind: ErrorKind)
    ensures
        kind == decoded_kind(errno),
{
    if errno == E2BIG {
        ErrorKind::ArgumentListTooLong
    } else if errno == EADDRINUSE {
        ErrorKind::AddrInUse
    } else if errno == EADDRNOTAVAIL {
        ErrorKind::AddrNotAvailable
    } else if errno == EBUSY {
        ErrorKind::ResourceBusy
    } else if errno == ECONNABORTED {
        ErrorKind::ConnectionAborted
    } else if errno == ECONNREFUSED {
        ErrorKind::ConnectionRefused
    } else if errno == ECONNRESET {
        ErrorKind::ConnectionReset
    } else if errno == EDEADLK {
        ErrorKind::Deadlock
    } else if errno == EDQUOT {
        ErrorKind::FilesystemQuotaExceeded
    } else if errno == EEXIST {
        ErrorKind::AlreadyExists
    } else if errno == EFBIG {
        ErrorKind::FileTooLarge
    } else if errno == EHOSTUNREACH {
        ErrorKind::HostUnreachable
    } else if errno == EINTR {
        ErrorKind::Interrupted
    } else if errno == EINVAL {
        ErrorKind::InvalidInput
    } else if errno == EISDIR {
        ErrorKind::IsADirectory
    } else if errno == ELOOP {
        ErrorKind::FilesystemLoop
    } else if errno == ENOENT {
        ErrorKind::NotFound
    } else if errno == ENOMEM {
        ErrorKind::OutOfMemory
    } else if errno == ENOSPC {
        ErrorKind::StorageFull
    } else if errno == ENOSYS {
        ErrorKind::Unsupported
    } else if errno == EMLINK {
        ErrorKind::TooManyLinks
    } else if errno == ENAMETOOLONG {
        ErrorKind::InvalidFilename
    } else if errno == ENETDOWN {
        ErrorKind::NetworkDown
    } else if errno == ENETUNREACH {
        ErrorKind::NetworkUnreachable
    } else if errno == ENOTCONN {
        ErrorKind::NotConnected
    } else if errno == ENOTDIR {
        ErrorKind::NotADirectory
    } else if errno == ENOTEMPTY {
        ErrorKind::DirectoryNotEmpty
    } else if errno == EPIPE {
        ErrorKind::BrokenPipe
    } else if errno == EROFS {
        ErrorKind::ReadOnlyFilesystem
    } else if errno == ESPIPE {
        ErrorKind::NotSeekable
    } else if errno == ESTALE {
        ErrorKind::StaleNetworkFileHandle
    } else if errno == ETIMEDOUT {
        ErrorKind::TimedOut
    } else if errno == ETXTBSY {
        ErrorKind::ExecutableFileBusy
    } else if errno == EXDEV {
        ErrorKind::CrossesDevices
    } else if errno == EACCES || errno == EPERM {
        ErrorKind::PermissionDenied
    } else if errno == EAGAIN || errno == EWOULDBLOCK {
        ErrorKind::WouldBlock
    } else {
        ErrorKind::Uncategorized
    }
}

/// Every error number of the platform's table decodes to its own specific
/// kind, never to the `Uncategorized` fallback.
pub proof fn lemma_decode_table_exhaustive()
    ensures
        forall|errno: i32|
            (errno == E2BIG || errno == EADDRINUSE || errno == EADDRNOTAVAIL || errno == EBUSY
                || errno == ECONNABORTED || errno == ECONNREFUSED || errno == ECONNRESET
                || errno == EDEADLK || errno == EDQUOT || errno == EEXIST || errno == EFBIG
                || errno == EHOSTUNREACH || errno == EINTR || errno == EINVAL || errno == EISDIR
                || errno == ELOOP || errno == ENOENT || errno == ENOMEM || errno == ENOSPC
                || errno == ENOSYS || errno == EMLINK || errno == ENAMETOOLONG || errno == ENETDOWN
                || errno == ENETUNREACH || errno == ENOTCONN || errno == ENOTDIR
                || errno == ENOTEMPTY || errno == EPIPE || errno == EROFS || errno == ESPIPE
                || errno == ESTALE || errno == ETIMEDOUT || errno == ETXTBSY || errno == EXDEV
                || errno == EACCES || errno == EPERM || errno == EAGAIN || errno == EWOULDBLOCK)
                ==> #[trigger] decoded_kind(errno) != ErrorKind::Uncategorized,
{
}

/// A categorized I/O error: a portable kind, the native error number it came
/// from where one exists, and a fixed human-readable message.
#[derive(Clone, Copy, Debug)]
pub struct IoError {
    pub kind: ErrorKind,
    pub raw: Option<i32>,
    pub message: &'static str,
}

impl IoError {
    /// The canonical message carried by every `Unsupported` error the
    /// restricted backend produces.
    pub open spec fn unsupported_message() -> Seq<char> {
        "operation not supported on this platform"@
    }

    /// Whether this is the canonical "unsupported operation" error.
    pub open spec fn is_unsupported(self) -> bool {
        self.kind == ErrorKind::Unsupported && self.raw is None
            && self.message@ == Self::unsupported_message()
    }

    pub fn new(kind: ErrorKind, message: &'static str) -> (e: IoError)
        ensures
            e.kind == kind,
            e.raw is None,
            e.message@ == message@,
    {
        IoError { kind, raw: None, message }
    }

    /// Builds the categorized error for a native error number.
    pub fn from_raw_os_error(errno: i32) -> (e: IoError)
        ensures
            e.kind == decoded_kind(errno),
            e.raw == Some(errno),
    {
        IoError { kind: decode_error_kind(errno), raw: Some(errno), message: "" }
    }

    pub fn kind(&self) -> (kind: ErrorKind)
        ensures
            kind == self.kind,
    {
        self.kind
    }

    pub fn raw_os_error(&self) -> (raw: Option<i32>)
        ensures
            raw == self.raw,
    {
        self.raw
    }

    pub fn message(&self) -> (m: &'static str)
        ensures
            m@ == self.message@,
    {
        self.message
    }
}

/// Constructs the canonical "unsupported operation" error used by every
/// stubbed operation of the restricted backend.
pub fn unsupported_err() -> (e: IoError)
    ensures
        e.is_unsupported(),
{
    IoError {
        kind: ErrorKind::Unsupported,
        raw: None,
        message: "operation not supported on this platform",
    }
}

/// The uniform failure result of a stubbed operation.
pub fn unsupported<T>() -> (r: Result<T, IoError>)
    ensures
        r is Err && r->Err_0.is_unsupported(),
{
    Err(unsupported_err())
}

} // verus!
