//! Anonymous pipes.  On this platform none can be created, so every operation
//! fails with `Unsupported`.

use vstd::prelude::*;
use crate::error::{unsupported, IoError};
use crate::fd::FileDesc;
use crate::handle::NoHandle;
use crate::io::{IoSlice, IoSliceMut};

verus! {

/// One end of an anonymous pipe.  On this platform none can exist.
#[derive(Debug)]
pub struct AnonPipe {
    pub(crate) token: NoHandle,
}

/// Creating a pipe pair is not supported.
pub fn anon_pipe() -> (r: Result<(AnonPipe, AnonPipe), IoError>)
    ensures
        r is Err && r->Err_0.is_unsupported(),
{
    unsupported()
}

impl AnonPipe {
    pub fn read(&self, buf: &mut [u8]) -> (r: Result<usize, IoError>)
        ensures
            r is Err && r->Err_0.is_unsupported(),
            final(buf)@ == old(buf)@,
    {
        unsupported()
    }

    pub fn read_vectored(&self, _bufs: &mut [IoSliceMut]) -> (r: Result<usize, IoError>)
        ensures
            r is Err && r->Err_0.is_unsupported(),
    {
        unsupported()
    }

    pub fn is_read_vectored(&self) -> (r: bool)
        ensures
            r == false,
    {
        false
    }

    pub fn write(&self, _buf: &[u8]) -> (r: Result<usize, IoError>)
        ensures
            r is Err && r->Err_0.is_unsupported(),
    {
        unsupported()
    }

    pub fn write_vectored(&self, _bufs: &[IoSlice<'_>]) -> (r: Result<usize, IoError>)
        ensures
            r is Err && r->Err_0.is_unsupported(),
    {
        unsupported()
    }

    pub fn is_write_vectored(&self) -> (r: bool)
        ensures
            r == false,
    {
        false
    }

    /// The descriptor this pipe end owns.
    pub fn into_fd(self) -> (fd: FileDesc) {
        FileDesc { token: self.token }
    }
}

/// Drains both pipes to completion into the two buffers; not supported.
pub fn read2(_p1: AnonPipe, v1: &mut Vec<u8>, _p2: AnonPipe, v2: &mut Vec<u8>) -> (r: Result<
    (),
    IoError,
>)
    ensures
        r is Err && r->Err_0.is_unsupported(),
        final(v1)@ == old(v1)@,
        final(v2)@ == old(v2)@,
{
    unsupported()
}

} // verus!
