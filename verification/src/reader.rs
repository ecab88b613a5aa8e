//! A consuming read cursor over a byte slice.
//!
//! During a raw-framing decode the deserializer pulls bytes from the front
//! of the input buffer, and the codec must afterwards know exactly how far
//! the buffer may be advanced.  `Reader` is that bookkeeper: a cursor over
//! the buffer's current bytes whose `amount` is the total number of bytes
//! consumed through it so far.

use vstd::prelude::*;
use vstd::slice::{slice_index_get, slice_subrange};

verus! {

/// A cursor over a borrowed byte slice that records how many bytes have
/// been consumed from its front.
///
/// Its lifetime is one decode call: it is built over the buffer's current
/// contents, the deserializer reads through it, and `amount` then tells the
/// codec how many bytes to drop from the buffer.
#[derive(Debug)]
pub struct Reader<'buf> {
    buf: &'buf [u8],
    amount: usize,
}

impl<'buf> Reader<'buf> {
    /// The whole slice this reader was built over.
    pub closed spec fn full(self) -> Seq<u8> {
        self.buf@
    }

    /// How many bytes have been consumed through this reader so far.
    pub closed spec fn consumed(self) -> nat {
        self.amount as nat
    }

    /// The consumed count never exceeds the number of bytes physically
    /// present in the slice.
    pub open spec fn wf(self) -> bool {
        self.consumed() <= self.full().len()
    }

    /// The bytes not yet consumed.
    pub open spec fn remaining(self) -> Seq<u8> {
        self.full().skip(self.consumed() as int)
    }

    /// Builds a reader over `buf` with nothing consumed yet.
    pub fn new(buf: &'buf [u8]) -> (r: Self)
        ensures
            r.wf(),
            r.full() == buf@,
            r.consumed() == 0,
    {
        Reader { buf, amount: 0 }
    }

    /// The total number of bytes consumed through this reader.
    pub fn amount(&self) -> (r: usize)
        ensures
            r == self.consumed(),
    {
        self.amount
    }

    /// The bytes not yet consumed, as a slice.
    pub fn rest(&self) -> (r: &'buf [u8])
        requires
            self.wf(),
        ensures
            r@ == self.remaining(),
    {
        let len = self.buf.len();
        slice_subrange(self.buf, self.amount, len)
    }

    /// Marks `n` more bytes as consumed.
    pub(crate) fn advance(&mut self, n: usize)
        requires
            old(self).wf(),
            old(self).consumed() + n <= old(self).full().len(),
        ensures
            final(self).wf(),
            final(self).full() == old(self).full(),
            final(self).consumed() == old(self).consumed() + n,
    {
        let len = self.buf.len();
        assert(self.amount + n <= len);
        self.amount = self.amount + n;
    }

    /// Copies up to `want` bytes out of the remaining slice, advancing the
    /// cursor by the number of bytes copied.  Asking for more bytes than
    /// remain yields exactly the bytes that are there; at end of input the
    /// result is empty, never a blocking wait.
    pub fn read(&mut self, want: usize) -> (r: Vec<u8>)
        requires
            old(self).wf(),
        ensures
            final(self).wf(),
            final(self).full() == old(self).full(),
            r@.len() == if want <= old(self).remaining().len() {
                want as nat
            } else {
                old(self).remaining().len()
            },
            r@ == old(self).remaining().take(r@.len() as int),
            final(self).consumed() == old(self).consumed() + r@.len(),
    {
        let len = self.buf.len();
        let avail = len - self.amount;
        let k = if want < avail {
            want
        } else {
            avail
        };
        let mut out: Vec<u8> = Vec::new();
        let mut i: usize = 0;
        while i < k
            invariant
                i <= k,
                self.amount + k <= len,
                len == self.buf@.len(),
                self.buf == old(self).buf,
                self.amount == old(self).amount,
                out@ == self.buf@.subrange(self.amount as int, self.amount + i),
            decreases k - i,
        {
            out.push(*slice_index_get(self.buf, self.amount + i));
            assert(out@ == self.buf@.subrange(self.amount as int, self.amount + i + 1));
            i = i + 1;
        }
        self.amount = self.amount + k;
        proof {
            assert(out@ =~= old(self).remaining().take(k as int));
        }
        out
    }
}

} // verus!
