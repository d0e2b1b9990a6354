//! Buffer-initialization tracking: a byte buffer that is incrementally filled
//! and initialized, and a cursor granting write access to its unfilled
//! suffix.
//!
//! The buffer tracks three regions, `filled <= init <= capacity`: bytes
//! logically written and readable, bytes known to hold defined values, and the
//! total region.  The `init` watermark never decreases.  The classic form of
//! this protocol hands the "the advanced region really was written" obligation
//! to the caller as an unchecked contract; here the buffer owns its storage,
//! every byte of which holds a defined value, so the watermark discipline is a
//! checked invariant instead.

use vstd::prelude::*;

verus! {

/// A byte buffer of fixed capacity that is incrementally filled and
/// initialized.
#[derive(Debug)]
pub struct BorrowedBuf {
    data: Vec<u8>,
    filled: usize,
    init: usize,
}

impl BorrowedBuf {
    /// The three regions are nested: `filled <= init <= capacity`.
    pub closed spec fn wf(self) -> bool {
        self.filled <= self.init <= self.data@.len()
    }

    pub closed spec fn capacity_spec(self) -> nat {
        self.data@.len()
    }

    pub closed spec fn filled_spec(self) -> nat {
        self.filled as nat
    }

    pub closed spec fn init_spec(self) -> nat {
        self.init as nat
    }

    /// The buffer's whole storage, one byte per capacity slot.
    pub closed spec fn data_spec(self) -> Seq<u8> {
        self.data@
    }

    /// The filled prefix: the bytes logically written and readable.
    pub open spec fn filled_seq(self) -> Seq<u8> {
        self.data_spec().subrange(0, self.filled_spec() as int)
    }

    /// A buffer over storage none of which has been filled or initialized.
    ///
    /// Every capacity slot physically holds zero, but the `init` watermark
    /// starts at zero: the contract treats the whole region as undefined.
    pub fn with_capacity(capacity: usize) -> (buf: BorrowedBuf)
        ensures
            buf.wf(),
            buf.capacity_spec() == capacity,
            buf.filled_spec() == 0,
            buf.init_spec() == 0,
    {
        BorrowedBuf { data: vec![0u8; capacity], filled: 0, init: 0 }
    }

    /// A buffer over fully initialized storage: `init` starts at the
    /// capacity, `filled` at zero.
    pub fn from_vec(data: Vec<u8>) -> (buf: BorrowedBuf)
        ensures
            buf.wf(),
            buf.capacity_spec() == data@.len(),
            buf.filled_spec() == 0,
            buf.init_spec() == data@.len(),
            buf.data_spec() == data@,
    {
        let init = data.len();
        BorrowedBuf { data, filled: 0, init }
    }

    pub fn capacity(&self) -> (n: usize)
        ensures
            n == self.capacity_spec(),
    {
        self.data.len()
    }

    pub fn len(&self) -> (n: usize)
        ensures
            n == self.filled_spec(),
    {
        self.filled
    }

    pub fn init_len(&self) -> (n: usize)
        ensures
            n == self.init_spec(),
    {
        self.init
    }

    /// The filled portion of the buffer.
    pub fn filled(&self) -> (out: &[u8])
        requires
            self.wf(),
        ensures
            out@ == self.filled_seq(),
    {
        vstd::slice::slice_subrange(self.data.as_slice(), 0, self.filled)
    }

    /// Resets the filled region to empty; the `init` watermark and the
    /// contents are untouched.
    pub fn clear(&mut self)
        requires
            old(self).wf(),
        ensures
            final(self).wf(),
            final(self).filled_spec() == 0,
            final(self).init_spec() == old(self).init_spec(),
            final(self).capacity_spec() == old(self).capacity_spec(),
            final(self).data_spec() == old(self).data_spec(),
    {
        self.filled = 0;
    }

    /// Asserts that the first `n` capacity slots hold defined values.  The
    /// watermark never moves backwards: fewer bytes than already known to be
    /// initialized leave it unchanged.
    pub fn set_init(&mut self, n: usize)
        requires
            old(self).wf(),
            n <= old(self).capacity_spec(),
        ensures
            final(self).wf(),
            final(self).init_spec() == if n > old(self).init_spec() {
                n as nat
            } else {
                old(self).init_spec()
            },
            final(self).filled_spec() == old(self).filled_spec(),
            final(self).capacity_spec() == old(self).capacity_spec(),
            final(self).data_spec() == old(self).data_spec(),
    {
        if n > self.init {
            self.init = n;
        }
    }

    /// Hands the buffer to a cursor over its unfilled suffix.  The cursor has
    /// exclusive access until it gives the buffer back.
    pub fn unfilled(self) -> (cursor: BorrowedCursor)
        requires
            self.wf(),
        ensures
            cursor.wf(),
            cursor.buf_spec() == self,
            cursor.start_spec() == self.filled_spec(),
    {
        let start = self.filled;
        BorrowedCursor { buf: self, start }
    }
}

/// A write cursor over the unfilled portion of a [`BorrowedBuf`].
///
/// Advancing the cursor is the only way to grow the buffer's filled region;
/// bytes behind the cursor can no longer be touched through it.
#[derive(Debug)]
pub struct BorrowedCursor {
    buf: BorrowedBuf,
    start: usize,
}

impl BorrowedCursor {
    pub closed spec fn buf_spec(self) -> BorrowedBuf {
        self.buf
    }

    pub closed spec fn start_spec(self) -> nat {
        self.start as nat
    }

    pub open spec fn wf(self) -> bool {
        self.buf_spec().wf() && self.start_spec() <= self.buf_spec().filled_spec()
    }

    /// Space left in the cursor.
    pub open spec fn capacity_spec(self) -> nat {
        (self.buf_spec().capacity_spec() - self.buf_spec().filled_spec()) as nat
    }

    /// Gives the underlying buffer back.
    pub fn into_buf(self) -> (buf: BorrowedBuf)
        ensures
            buf == self.buf_spec(),
    {
        self.buf
    }

    pub fn capacity(&self) -> (n: usize)
        requires
            self.wf(),
        ensures
            n == self.capacity_spec(),
    {
        self.buf.capacity() - self.buf.len()
    }

    /// Bytes written through this cursor since it was created.
    pub fn written(&self) -> (n: usize)
        requires
            self.wf(),
        ensures
            n == self.buf_spec().filled_spec() - self.start_spec(),
    {
        self.buf.len() - self.start
    }

    /// Marks `n` more bytes as filled: the caller's assertion that it wrote
    /// them.  Here the storage always holds defined bytes, so the assertion
    /// costs nothing to honor.
    pub fn advance(&mut self, n: usize)
        requires
            old(self).wf(),
            n <= old(self).capacity_spec(),
        ensures
            final(self).wf(),
            final(self).start_spec() == old(self).start_spec(),
            final(self).buf_spec().filled_spec() == old(self).buf_spec().filled_spec() + n,
            final(self).buf_spec().init_spec() == if old(self).buf_spec().filled_spec() + n > old(
                self,
            ).buf_spec().init_spec() {
                old(self).buf_spec().filled_spec() + n
            } else {
                old(self).buf_spec().init_spec() as int
            },
            final(self).buf_spec().capacity_spec() == old(self).buf_spec().capacity_spec(),
            final(self).buf_spec().data_spec() == old(self).buf_spec().data_spec(),
    {
        // The storage length is a machine word; naming it brings that bound
        // into scope for the additions below.
        let _cap: usize = self.buf.data.len();
        self.buf.filled = self.buf.filled + n;
        if self.buf.filled > self.buf.init {
            self.buf.init = self.buf.filled;
        }
    }

    /// Asserts that the first `n` unfilled bytes hold defined values; the
    /// watermark never moves backwards.
    pub fn set_init(&mut self, n: usize)
        requires
            old(self).wf(),
            n <= old(self).capacity_spec(),
        ensures
            final(self).wf(),
            final(self).start_spec() == old(self).start_spec(),
            final(self).buf_spec().filled_spec() == old(self).buf_spec().filled_spec(),
            final(self).buf_spec().init_spec() == if old(self).buf_spec().filled_spec() + n > old(
                self,
            ).buf_spec().init_spec() {
                old(self).buf_spec().filled_spec() + n
            } else {
                old(self).buf_spec().init_spec() as int
            },
            final(self).buf_spec().capacity_spec() == old(self).buf_spec().capacity_spec(),
            final(self).buf_spec().data_spec() == old(self).buf_spec().data_spec(),
    {
        // The storage length is a machine word; naming it brings that bound
        // into scope for the additions below.
        let _cap: usize = self.buf.data.len();
        if self.buf.filled + n > self.buf.init {
            self.buf.init = self.buf.filled + n;
        }
    }

    /// Initializes every remaining byte with zero and marks the whole
    /// capacity initialized.  Filled bytes are never altered.
    pub fn ensure_init(&mut self)
        requires
            old(self).wf(),
        ensures
            final(self).wf(),
            final(self).start_spec() == old(self).start_spec(),
            final(self).buf_spec().filled_spec() == old(self).buf_spec().filled_spec(),
            final(self).buf_spec().init_spec() == old(self).buf_spec().capacity_spec(),
            final(self).buf_spec().capacity_spec() == old(self).buf_spec().capacity_spec(),
            final(self).buf_spec().data_spec().subrange(
                0,
                old(self).buf_spec().init_spec() as int,
            ) == old(self).buf_spec().data_spec().subrange(
                0,
                old(self).buf_spec().init_spec() as int,
            ),
            forall|i: int|
                old(self).buf_spec().init_spec() <= i < old(self).buf_spec().capacity_spec()
                    ==> final(self).buf_spec().data_spec()[i] == 0u8,
    {
        let ghost orig = self.buf.data@;
        let mut i = self.buf.init;
        while i < self.buf.data.len()
            invariant
                old(self).buf_spec().init_spec() <= i <= self.buf.data@.len(),
                self.buf.data@.len() == orig.len(),
                self.buf.filled == old(self).buf_spec().filled_spec(),
                self.buf.init == old(self).buf_spec().init_spec(),
                self.start == old(self).start_spec(),
                old(self).wf(),
                forall|j: int| 0 <= j < old(self).buf_spec().init_spec() ==> self.buf.data@[j]
                    == orig[j],
                forall|j: int| old(self).buf_spec().init_spec() <= j < i ==> self.buf.data@[j]
                    == 0u8,
                orig == old(self).buf_spec().data_spec(),
            decreases self.buf.data@.len() - i,
        {
            self.buf.data[i] = 0;
            i = i + 1;
        }
        self.buf.init = self.buf.data.len();
        proof {
            assert(final(self).buf_spec().data_spec().subrange(
                0,
                old(self).buf_spec().init_spec() as int,
            ) =~= old(self).buf_spec().data_spec().subrange(
                0,
                old(self).buf_spec().init_spec() as int,
            ));
        }
    }

    /// Appends `data` wholesale, advancing the cursor.  The bytes must fit
    /// within the cursor's capacity, the one condition on which appending is
    /// refused.  Never partially writes.
    pub fn append(&mut self, data: &[u8])
        requires
            old(self).wf(),
            data@.len() <= old(self).capacity_spec(),
        ensures
            final(self).wf(),
            final(self).start_spec() == old(self).start_spec(),
            final(self).buf_spec().filled_spec() == old(self).buf_spec().filled_spec()
                + data@.len(),
            final(self).buf_spec().capacity_spec() == old(self).buf_spec().capacity_spec(),
            final(self).buf_spec().init_spec() == if old(self).buf_spec().filled_spec()
                + data@.len() > old(self).buf_spec().init_spec() {
                old(self).buf_spec().filled_spec() + data@.len()
            } else {
                old(self).buf_spec().init_spec()
            },
            final(self).buf_spec().data_spec().subrange(
                0,
                old(self).buf_spec().filled_spec() as int,
            ) == old(self).buf_spec().data_spec().subrange(
                0,
                old(self).buf_spec().filled_spec() as int,
            ),
            final(self).buf_spec().data_spec().subrange(
                old(self).buf_spec().filled_spec() as int,
                (old(self).buf_spec().filled_spec() + data@.len()) as int,
            ) == data@,
            final(self).buf_spec().data_spec().skip(
                (old(self).buf_spec().filled_spec() + data@.len()) as int,
            ) == old(self).buf_spec().data_spec().skip(
                (old(self).buf_spec().filled_spec() + data@.len()) as int,
            ),
    {
        let ghost orig = self.buf.data@;
        let ghost fill0 = self.buf.filled as int;
        let mut i: usize = 0;
        while i < data.len()
            invariant
                0 <= i <= data@.len(),
                fill0 == old(self).buf_spec().filled_spec(),
                fill0 + data@.len() <= self.buf.data@.len(),
                self.buf.data@.len() == orig.len(),
                self.buf.filled == old(self).buf_spec().filled_spec(),
                self.buf.init == old(self).buf_spec().init_spec(),
                self.start == old(self).start_spec(),
                old(self).wf(),
                forall|j: int| 0 <= j < fill0 ==> self.buf.data@[j] == orig[j],
                forall|j: int| 0 <= j < i ==> self.buf.data@[fill0 + j] == data@[j],
                forall|j: int| fill0 + data@.len() <= j < orig.len() ==> self.buf.data@[j]
                    == orig[j],
                orig == old(self).buf_spec().data_spec(),
            decreases data@.len() - i,
        {
            let b = *vstd::slice::slice_index_get(data, i);
            // The storage length is a machine word; naming it brings that bound
        // into scope for the additions below.
        let _cap: usize = self.buf.data.len();
            self.buf.data[self.buf.filled + i] = b;
            i = i + 1;
        }
        let n = data.len();
        self.set_init(n);
        self.buf.filled = self.buf.filled + n;
        proof {
            assert(final(self).buf_spec().data_spec().subrange(0, fill0) =~= orig.subrange(
                0,
                fill0,
            ));
            assert(final(self).buf_spec().data_spec().subrange(fill0, fill0 + data@.len())
                =~= data@);
            assert(final(self).buf_spec().data_spec().skip(fill0 + data@.len()) =~= orig.skip(
                fill0 + data@.len(),
            ));
        }
    }

    /// The checked companion of [`append`](Self::append): appends and returns
    /// `true` exactly when the bytes fit, and otherwise changes nothing.
    pub fn try_append(&mut self, data: &[u8]) -> (ok: bool)
        requires
            old(self).wf(),
        ensures
            ok <==> data@.len() <= old(self).capacity_spec(),
            !ok ==> *final(self) == *old(self),
            ok ==> final(self).wf() && final(self).start_spec() == old(self).start_spec()
                && final(self).buf_spec().filled_spec() == old(self).buf_spec().filled_spec()
                + data@.len() && final(self).buf_spec().data_spec().subrange(
                old(self).buf_spec().filled_spec() as int,
                (old(self).buf_spec().filled_spec() + data@.len()) as int,
            ) == data@,
    {
        if data.len() <= self.capacity() {
            self.append(data);
            true
        } else {
            false
        }
    }
}

} // verus!
