//! Byte ring buffer holding the undecoded tail of the input stream.
use vstd::prelude::*;
use vstd::slice::slice_subrange;

use crate::error::Error;
use crate::BUFFER_SIZE;

verus! {

/// A byte buffer with O(1) front-truncation and amortized O(bytes added)
/// back-append, whose whole content is always readable as one contiguous
/// slice (the decode primitive scans it linearly for frame sync).
///
/// It is backed by a vector and a front index: truncating the front merely
/// advances the index, and the dead prefix is compacted away only when an
/// append would otherwise push the backing vector past [`BUFFER_SIZE`].
/// An append that would push the *content* past [`BUFFER_SIZE`] fails with
/// [`Error::AllocationFailure`] instead of growing: callers keep occupancy
/// below the refill trigger by design, not by recovery.
pub struct ByteRing {
    data: Vec<u8>,
    start: usize,
}

impl View for ByteRing {
    type V = Seq<u8>;

    closed spec fn view(&self) -> Seq<u8> {
        self.data@.subrange(self.start as int, self.data@.len() as int)
    }
}

impl ByteRing {
    /// The backing vector never outgrows the fixed capacity, and the front
    /// index stays inside it.
    pub closed spec fn wf(&self) -> bool {
        &&& self.start <= self.data@.len()
        &&& self.data@.len() <= BUFFER_SIZE
    }

    /// An empty ring buffer with the full capacity reserved up front.
    pub fn new() -> (ring: Self)
        ensures
            ring.wf(),
            ring@ == Seq::<u8>::empty(),
    {
        let ring = Self { data: Vec::with_capacity(BUFFER_SIZE), start: 0 };
        proof {
            assert(ring@ =~= Seq::<u8>::empty());
        }
        ring
    }

    /// Number of buffered bytes.
    pub fn len(&self) -> (n: usize)
        requires
            self.wf(),
        ensures
            n == self@.len(),
    {
        self.data.len() - self.start
    }

    /// The whole content as one contiguous read-only slice.
    pub fn as_contiguous_slice(&self) -> (bytes: &[u8])
        requires
            self.wf(),
        ensures
            bytes@ == self@,
    {
        slice_subrange(self.data.as_slice(), self.start, self.data.len())
    }

    /// Discard the first `n` buffered bytes.
    pub fn truncate_front(&mut self, n: usize)
        requires
            old(self).wf(),
            n <= old(self)@.len(),
        ensures
            final(self).wf(),
            final(self)@ == old(self)@.subrange(n as int, old(self)@.len() as int),
    {
        self.start = self.start + n;
        proof {
            assert(self@ =~= old(self)@.subrange(n as int, old(self)@.len() as int));
        }
    }

    /// Move the live content to the front of the backing vector, freeing the
    /// dead prefix left behind by earlier front-truncations.
    fn compact(&mut self)
        requires
            old(self).wf(),
        ensures
            final(self).wf(),
            final(self)@ == old(self)@,
            final(self)@.len() == final(self).spec_backing_len(),
    {
        let count: usize = self.data.len() - self.start;
        let start: usize = self.start;
        let mut i: usize = 0;
        while i < count
            invariant
                start + count == self.data@.len(),
                self.data@.len() <= BUFFER_SIZE,
                self.data@.len() == old(self).data@.len(),
                self.start == start,
                i <= count,
                forall|j: int| i <= j < count ==> #[trigger] self.data@[start + j] == old(self).data@[start + j],
                forall|j: int| 0 <= j < i ==> #[trigger] self.data@[j] == old(self).data@[start + j],
            decreases count - i,
        {
            let b: u8 = *vstd::std_specs::vec::vec_index(&self.data, start + i);
            *vstd::std_specs::vec::vec_index_mut(&mut self.data, i) = b;
            i = i + 1;
        }
        self.data.truncate(count);
        self.start = 0;
        proof {
            assert(self@ =~= old(self)@);
        }
    }

    /// Length of the backing vector, dead prefix included.
    closed spec fn spec_backing_len(&self) -> int {
        self.data@.len() as int
    }

    /// Append `chunk` at the back.
    ///
    /// Succeeds exactly when the resulting content still fits the fixed
    /// capacity; otherwise the content is left untouched and
    /// [`Error::AllocationFailure`] comes back.
    pub fn append(&mut self, chunk: &[u8]) -> (result: Result<(), Error>)
        requires
            old(self).wf(),
        ensures
            final(self).wf(),
            old(self)@.len() + chunk@.len() <= BUFFER_SIZE ==> {
                &&& result == Ok::<(), Error>(())
                &&& final(self)@ == old(self)@ + chunk@
            },
            old(self)@.len() + chunk@.len() > BUFFER_SIZE ==> {
                &&& result == Err::<(), Error>(Error::AllocationFailure)
                &&& final(self)@ == old(self)@
            },
    {
        let occupied: usize = self.data.len() - self.start;
        if chunk.len() > BUFFER_SIZE - occupied {
            return Err(Error::AllocationFailure);
        }
        if chunk.len() > BUFFER_SIZE - self.data.len() {
            self.compact();
        }
        self.data.extend_from_slice(chunk);
        proof {
            assert(self@ =~= old(self)@ + chunk@);
        }
        Ok(())
    }
}

} // verus!
