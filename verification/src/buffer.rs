//! Growable message buffers.
//!
//! Each side of the bridge owns the buffers it writes into, so that it can
//! enlarge them when a payload needs more room. A buffer starts with zero
//! capacity and is grown to at least the required size before every write;
//! it never shrinks. On growth the old region is discarded and replaced by
//! a fresh zero-initialized region of exactly the required size.

use vstd::prelude::*;

verus! {

/// What growing a buffer does to its contents: nothing when the requirement
/// is already met, otherwise a fresh zero-initialized region of exactly the
/// required size.
pub open spec fn spec_grow(contents: Seq<u8>, required: nat) -> Seq<u8> {
    if required <= contents.len() {
        contents
    } else {
        Seq::new(required, |i: int| 0u8)
    }
}

/// An owned, contiguous byte region with a current capacity, grown on
/// demand and never shrunk. The view is the byte contents; the capacity is
/// the view's length.
pub struct GrowableBuffer {
    data: Vec<u8>,
}

impl View for GrowableBuffer {
    type V = Seq<u8>;

    closed spec fn view(&self) -> Seq<u8> {
        self.data@
    }
}

impl GrowableBuffer {
    /// A fresh buffer with zero capacity, so that the first write of any
    /// length exercises the growth path.
    pub fn new() -> (r: Self)
        ensures
            r@ =~= Seq::<u8>::empty(),
    {
        GrowableBuffer { data: Vec::new() }
    }

    /// The current capacity in bytes.
    pub fn capacity(&self) -> (n: usize)
        ensures
            n == self@.len(),
    {
        self.data.len()
    }

    /// The byte at `i`.
    pub fn byte_at(&self, i: usize) -> (b: u8)
        requires
            i < self@.len(),
        ensures
            b == self@[i as int],
    {
        self.data[i]
    }

    /// Grows the buffer to at least `required` bytes. A requirement within
    /// the current capacity changes nothing, neither capacity nor contents;
    /// a larger one installs a fresh zero-initialized region of exactly
    /// `required` bytes in place of the old one.
    pub fn ensure_capacity(&mut self, required: usize)
        ensures
            final(self)@ == spec_grow(old(self)@, required as nat),
            final(self)@.len() >= required,
            final(self)@.len() >= old(self)@.len(),
    {
        if required > self.data.len() {
            let mut fresh: Vec<u8> = Vec::new();
            while fresh.len() < required
                invariant
                    fresh@.len() <= required,
                    forall|i: int| 0 <= i < fresh@.len() ==> fresh@[i] == 0u8,
                decreases required - fresh@.len(),
            {
                fresh.push(0u8);
            }
            assert(fresh@ =~= Seq::new(required as nat, |i: int| 0u8));
            self.data = fresh;
        }
    }

    /// Writes `bytes` at the start of the buffer, which must already be
    /// large enough; the capacity and the bytes past the written prefix are
    /// untouched.
    pub fn write_prefix(&mut self, bytes: &Vec<u8>)
        requires
            bytes@.len() <= old(self)@.len(),
        ensures
            final(self)@.len() == old(self)@.len(),
            final(self)@.subrange(0, bytes@.len() as int) == bytes@,
            final(self)@.skip(bytes@.len() as int) == old(self)@.skip(bytes@.len() as int),
    {
        let mut i: usize = 0;
        while i < bytes.len()
            invariant
                i <= bytes@.len(),
                bytes@.len() <= self@.len(),
                self@.len() == old(self)@.len(),
                forall|j: int| 0 <= j < i ==> self@[j] == bytes@[j],
                forall|j: int| i <= j < self@.len() ==> self@[j] == old(self)@[j],
            decreases bytes@.len() - i,
        {
            self.data[i] = bytes[i];
            i = i + 1;
        }
        assert(self@.subrange(0, bytes@.len() as int) =~= bytes@);
        assert(self@.skip(bytes@.len() as int) =~= old(self)@.skip(bytes@.len() as int));
    }

    /// Copies out the `len` bytes that begin at `offset`.
    pub fn read_range(&self, offset: usize, len: usize) -> (r: Vec<u8>)
        requires
            offset + len <= self@.len(),
        ensures
            r@ == self@.subrange(offset as int, offset as int + len as int),
    {
        let mut out: Vec<u8> = Vec::new();
        let n = self.data.len();
        let mut i: usize = 0;
        while i < len
            invariant
                i <= len,
                offset + len <= self@.len(),
                self@.len() == n,
                out@.len() == i,
                forall|j: int| 0 <= j < i ==> out@[j] == self@[offset as int + j],
            decreases len - i,
        {
            out.push(self.data[offset + i]);
            i = i + 1;
        }
        assert(out@ =~= self@.subrange(offset as int, offset as int + len as int));
        out
    }
}

/// Idempotent no-op growth: a growth request within the current capacity
/// changes neither the buffer's capacity nor its contents.
pub proof fn lemma_grow_noop(contents: Seq<u8>, required: nat)
    requires
        required <= contents.len(),
    ensures
        spec_grow(contents, required) == contents,
{
}

/// Monotonic growth: after growing to `required` the capacity is at least
/// `required` and never below what it was, and a second growth request for
/// no more than `required` leaves the buffer exactly as the first left it.
pub proof fn lemma_grow_monotonic(contents: Seq<u8>, required: nat, later: nat)
    requires
        later <= required,
    ensures
        spec_grow(contents, required).len() >= required,
        spec_grow(contents, required).len() >= contents.len(),
        spec_grow(spec_grow(contents, required), later) == spec_grow(contents, required),
{
}

} // verus!
