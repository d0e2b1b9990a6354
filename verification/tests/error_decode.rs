use postgrestd::error::{decode_error_kind, unsupported_err, ErrorKind, IoError};

#[test]
fn error_constants_match_native_table() {
    assert_eq!(postgrestd::error::E2BIG, libc::E2BIG);
    assert_eq!(postgrestd::error::EADDRINUSE, libc::EADDRINUSE);
    assert_eq!(postgrestd::error::EADDRNOTAVAIL, libc::EADDRNOTAVAIL);
    assert_eq!(postgrestd::error::EBUSY, libc::EBUSY);
    assert_eq!(postgrestd::error::ECONNABORTED, libc::ECONNABORTED);
    assert_eq!(postgrestd::error::ECONNREFUSED, libc::ECONNREFUSED);
    assert_eq!(postgrestd::error::ECONNRESET, libc::ECONNRESET);
    assert_eq!(postgrestd::error::EDEADLK, libc::EDEADLK);
    assert_eq!(postgrestd::error::EDQUOT, libc::EDQUOT);
    assert_eq!(postgrestd::error::EEXIST, libc::EEXIST);
    assert_eq!(postgrestd::error::EFBIG, libc::EFBIG);
    assert_eq!(postgrestd::error::EHOSTUNREACH, libc::EHOSTUNREACH);
    assert_eq!(postgrestd::error::EINTR, libc::EINTR);
    assert_eq!(postgrestd::error::EINVAL, libc::EINVAL);
    assert_eq!(postgrestd::error::EISDIR, libc::EISDIR);
    assert_eq!(postgrestd::error::ELOOP, libc::ELOOP);
    assert_eq!(postgrestd::error::ENOENT, libc::ENOENT);
    assert_eq!(postgrestd::error::ENOMEM, libc::ENOMEM);
    assert_eq!(postgrestd::error::ENOSPC, libc::ENOSPC);
    assert_eq!(postgrestd::error::ENOSYS, libc::ENOSYS);
    assert_eq!(postgrestd::error::EMLINK, libc::EMLINK);
    assert_eq!(postgrestd::error::ENAMETOOLONG, libc::ENAMETOOLONG);
    assert_eq!(postgrestd::error::ENETDOWN, libc::ENETDOWN);
    assert_eq!(postgrestd::error::ENETUNREACH, libc::ENETUNREACH);
    assert_eq!(postgrestd::error::ENOTCONN, libc::ENOTCONN);
    assert_eq!(postgrestd::error::ENOTDIR, libc::ENOTDIR);
    assert_eq!(postgrestd::error::ENOTEMPTY, libc::ENOTEMPTY);
    assert_eq!(postgrestd::error::EPIPE, libc::EPIPE);
    assert_eq!(postgrestd::error::EROFS, libc::EROFS);
    assert_eq!(postgrestd::error::ESPIPE, libc::ESPIPE);
    assert_eq!(postgrestd::error::ESTALE, libc::ESTALE);
    assert_eq!(postgrestd::error::ETIMEDOUT, libc::ETIMEDOUT);
    assert_eq!(postgrestd::error::ETXTBSY, libc::ETXTBSY);
    assert_eq!(postgrestd::error::EXDEV, libc::EXDEV);
    assert_eq!(postgrestd::error::EACCES, libc::EACCES);
    assert_eq!(postgrestd::error::EPERM, libc::EPERM);
    assert_eq!(postgrestd::error::EAGAIN, libc::EAGAIN);
    assert_eq!(postgrestd::error::EWOULDBLOCK, libc::EWOULDBLOCK);
}

#[test]
fn decode_maps_every_table_entry_to_its_own_kind() {
    let table = [
        (libc::E2BIG, ErrorKind::ArgumentListTooLong),
        (libc::EADDRINUSE, ErrorKind::AddrInUse),
        (libc::EADDRNOTAVAIL, ErrorKind::AddrNotAvailable),
        (libc::EBUSY, ErrorKind::ResourceBusy),
        (libc::ECONNABORTED, ErrorKind::ConnectionAborted),
        (libc::ECONNREFUSED, ErrorKind::ConnectionRefused),
        (libc::ECONNRESET, ErrorKind::ConnectionReset),
        (libc::EDEADLK, ErrorKind::Deadlock),
        (libc::EDQUOT, ErrorKind::FilesystemQuotaExceeded),
        (libc::EEXIST, ErrorKind::AlreadyExists),
        (libc::EFBIG, ErrorKind::FileTooLarge),
        (libc::EHOSTUNREACH, ErrorKind::HostUnreachable),
        (libc::EINTR, ErrorKind::Interrupted),
        (libc::EINVAL, ErrorKind::InvalidInput),
        (libc::EISDIR, ErrorKind::IsADirectory),
        (libc::ELOOP, ErrorKind::FilesystemLoop),
        (libc::ENOENT, ErrorKind::NotFound),
        (libc::ENOMEM, ErrorKind::OutOfMemory),
        (libc::ENOSPC, ErrorKind::StorageFull),
        (libc::ENOSYS, ErrorKind::Unsupported),
        (libc::EMLINK, ErrorKind::TooManyLinks),
        (libc::ENAMETOOLONG, ErrorKind::InvalidFilename),
        (libc::ENETDOWN, ErrorKind::NetworkDown),
        (libc::ENETUNREACH, ErrorKind::NetworkUnreachable),
        (libc::ENOTCONN, ErrorKind::NotConnected),
        (libc::ENOTDIR, ErrorKind::NotADirectory),
        (libc::ENOTEMPTY, ErrorKind::DirectoryNotEmpty),
        (libc::EPIPE, ErrorKind::BrokenPipe),
        (libc::EROFS, ErrorKind::ReadOnlyFilesystem),
        (libc::ESPIPE, ErrorKind::NotSeekable),
        (libc::ESTALE, ErrorKind::StaleNetworkFileHandle),
        (libc::ETIMEDOUT, ErrorKind::TimedOut),
        (libc::ETXTBSY, ErrorKind::ExecutableFileBusy),
        (libc::EXDEV, ErrorKind::CrossesDevices),
        (libc::EACCES, ErrorKind::PermissionDenied),
        (libc::EPERM, ErrorKind::PermissionDenied),
        (libc::EAGAIN, ErrorKind::WouldBlock),
        (libc::EWOULDBLOCK, ErrorKind::WouldBlock),
    ];
    for (errno, kind) in table {
        assert_eq!(decode_error_kind(errno), kind);
        assert_ne!(decode_error_kind(errno), ErrorKind::Uncategorized);
    }
}

#[test]
fn decode_unknown_codes_fall_into_uncategorized() {
    assert_eq!(decode_error_kind(0), ErrorKind::Uncategorized);
    assert_eq!(decode_error_kind(-1), ErrorKind::Uncategorized);
    assert_eq!(decode_error_kind(9999), ErrorKind::Uncategorized);
}

#[test]
fn unsupported_error_is_canonical() {
    let e = unsupported_err();
    assert_eq!(e.kind(), ErrorKind::Unsupported);
    assert_eq!(e.raw_os_error(), None);
    assert_eq!(e.message(), "operation not supported on this platform");
}

#[test]
fn from_raw_os_error_keeps_the_number() {
    let e = IoError::from_raw_os_error(libc::ENOENT);
    assert_eq!(e.kind(), ErrorKind::NotFound);
    assert_eq!(e.raw_os_error(), Some(libc::ENOENT));
}
