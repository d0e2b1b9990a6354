//! File descriptors on a platform without them: the handle type cannot be
//! constructed, and every operation fails with `Unsupported` or reports the
//! capability as absent.

use vstd::prelude::*;
use crate::error::{unsupported, IoError};
use crate::handle::NoHandle;
use crate::io::{IoSlice, IoSliceMut};
use crate::readbuf::BorrowedCursor;

verus! {

/// An owned native file descriptor.  On this platform none can exist.
#[derive(Debug)]
pub struct FileDesc {
    #[allow(dead_code)]
    pub(crate) token: NoHandle,
}

impl FileDesc {
    pub fn read(&self, buf: &mut [u8]) -> (r: Result<usize, IoError>)
        ensures
            r is Err && r->Err_0.is_unsupported(),
            final(buf)@ == old(buf)@,
    {
        unsupported()
    }

    pub fn read_vectored(&self, bufs: &mut [IoSliceMut]) -> (r: Result<usize, IoError>)
        ensures
            r is Err && r->Err_0.is_unsupported(),
    {
        unsupported()
    }

    /// Whether vectored reads are genuinely supported, so generic I/O code can
    /// pick the cheaper plain path when they are not.
    pub fn is_read_vectored(&self) -> (r: bool)
        ensures
            r == false,
    {
        false
    }

    pub fn read_to_end(&self, buf: &mut Vec<u8>) -> (r: Result<usize, IoError>)
        ensures
            r is Err && r->Err_0.is_unsupported(),
            final(buf)@ == old(buf)@,
    {
        unsupported()
    }

    pub fn read_at(&self, buf: &mut [u8], _offset: u64) -> (r: Result<usize, IoError>)
        ensures
            r is Err && r->Err_0.is_unsupported(),
            final(buf)@ == old(buf)@,
    {
        unsupported()
    }

    pub fn read_buf(&self, cursor: &mut BorrowedCursor) -> (r: Result<(), IoError>)
        ensures
            r is Err && r->Err_0.is_unsupported(),
            *final(cursor) == *old(cursor),
    {
        unsupported()
    }

    pub fn write(&self, _buf: &[u8]) -> (r: Result<usize, IoError>)
        ensures
            r is Err && r->Err_0.is_unsupported(),
    {
        unsupported()
    }

    pub fn write_vectored(&self, _bufs: &[IoSlice<'_>]) -> (r: Result<usize, IoError>)
        ensures
            r is Err && r->Err_0.is_unsupported(),
    {
        unsupported()
    }

    /// Whether vectored writes are genuinely supported.
    pub fn is_write_vectored(&self) -> (r: bool)
        ensures
            r == false,
    {
        false
    }

    pub fn write_at(&self, _buf: &[u8], _offset: u64) -> (r: Result<usize, IoError>)
        ensures
            r is Err && r->Err_0.is_unsupported(),
    {
        unsupported()
    }

    pub fn get_cloexec(&self) -> (r: Result<bool, IoError>)
        ensures
            r is Err && r->Err_0.is_unsupported(),
    {
        unsupported()
    }

    pub fn set_cloexec(&self) -> (r: Result<(), IoError>)
        ensures
            r is Err && r->Err_0.is_unsupported(),
    {
        unsupported()
    }

    pub fn set_nonblocking(&self, _nonblocking: bool) -> (r: Result<(), IoError>)
        ensures
            r is Err && r->Err_0.is_unsupported(),
    {
        unsupported()
    }

    pub fn duplicate(&self) -> (r: Result<FileDesc, IoError>)
        ensures
            r is Err && r->Err_0.is_unsupported(),
    {
        unsupported()
    }
}

} // verus!
