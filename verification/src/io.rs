//! Small I/O value types shared by the file, pipe and socket layers.

use vstd::prelude::*;

verus! {

/// A seek target within a file.
#[derive(Clone, Copy, Debug, PartialEq, Eq, Structural)]
pub enum SeekFrom {
    Start(u64),
    End(i64),
    Current(i64),
}

/// An immutable byte slice for vectored writes.
pub struct IoSlice<'a> {
    buf: &'a [u8],
}

impl<'a> IoSlice<'a> {
    pub closed spec fn view_spec(self) -> Seq<u8> {
        self.buf@
    }

    pub fn new(buf: &'a [u8]) -> (s: IoSlice<'a>)
        ensures
            s.view_spec() == buf@,
    {
        IoSlice { buf }
    }

    pub fn as_slice(&self) -> (out: &[u8])
        ensures
            out@ == self.view_spec(),
    {
        self.buf
    }
}

/// An owned byte buffer for vectored reads.
pub struct IoSliceMut {
    buf: Vec<u8>,
}

impl IoSliceMut {
    pub closed spec fn view_spec(self) -> Seq<u8> {
        self.buf@
    }

    pub fn new(buf: Vec<u8>) -> (s: IoSliceMut)
        ensures
            s.view_spec() == buf@,
    {
        IoSliceMut { buf }
    }

    pub fn into_vec(self) -> (out: Vec<u8>)
        ensures
            out@ == self.view_spec(),
    {
        self.buf
    }
}

} // verus!
