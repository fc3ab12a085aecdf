//! The bytes behind a transfer.
//!
//! The buffer keeps every byte it ever owned until it is told to release
//! them: making it shorter only hides the tail, and making it longer again
//! within what it owns writes zeros over what was hidden, in place.

use vstd::prelude::*;
use vstd::math::max;
use crate::bytes::resized;

verus! {

/// Owned bytes, of which the first `len` are in use.
#[derive(Debug)]
pub(crate) struct Buffer {
    pub(crate) storage: Vec<u8>,
    pub(crate) len: usize,
}

impl Buffer {
    /// The bytes in use.
    pub(crate) open spec fn bytes(&self) -> Seq<u8> {
        self.storage@.take(self.len as int)
    }

    /// The number of bytes owned, in use or not.
    pub(crate) open spec fn capacity(&self) -> nat {
        self.storage@.len()
    }

    pub(crate) open spec fn wf(&self) -> bool {
        self.len <= self.storage@.len()
    }

    /// A buffer that owns nothing.
    pub(crate) fn new() -> (buffer: Buffer)
        ensures
            buffer.wf(),
            buffer.bytes() == Seq::<u8>::empty(),
            buffer.capacity() == 0,
    {
        let buffer = Buffer { storage: Vec::new(), len: 0 };
        assert(buffer.bytes() =~= Seq::<u8>::empty());
        buffer
    }

    /// Brings the bytes in use to `n`. Bytes that come into use are zero,
    /// whatever was stored there before. Storage is added only where `n`
    /// goes beyond what the buffer owns.
    pub(crate) fn resize(&mut self, n: usize)
        requires
            old(self).wf(),
        ensures
            final(self).wf(),
            final(self).len == n,
            final(self).bytes() == resized(old(self).bytes(), n as nat),
            final(self).capacity() == max(old(self).capacity() as int, n as int),
    {
        let owned = self.storage.len();
        let stop = if n < owned {
            n
        } else {
            owned
        };
        let mut i: usize = self.len;
        while i < stop
            invariant
                self.len == old(self).len,
                self.len <= i,
                stop <= owned,
                self.storage@.len() == owned,
                owned == old(self).storage@.len(),
                forall|j: int| self.len <= j < i ==> self.storage@[j] == 0,
                forall|j: int| 0 <= j < self.len ==> self.storage@[j] == old(self).storage@[j],
            decreases stop - i,
        {
            self.storage[i] = 0;
            i += 1;
        }
        if n > owned {
            self.storage.resize(n, 0);
        }
        self.len = n;
        assert(self.bytes() =~= resized(old(self).bytes(), n as nat));
    }

    /// Gives up every byte, in use or not.
    pub(crate) fn release(&mut self)
        ensures
            final(self).wf(),
            final(self).bytes() == Seq::<u8>::empty(),
            final(self).capacity() == 0,
    {
        self.storage = Vec::new();
        self.len = 0;
        assert(self.bytes() =~= Seq::<u8>::empty());
    }

    /// The bytes in use.
    pub(crate) fn as_slice(&self) -> (bytes: &[u8])
        requires
            self.wf(),
        ensures
            bytes@ == self.bytes(),
    {
        let (bytes, _) = self.storage.as_slice().split_at(self.len);
        bytes
    }
}

} // verus!
