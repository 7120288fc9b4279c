//! A fixed-capacity single-producer/single-consumer byte ring with
//! postponed publication.
//!
//! Bytes pushed by the producer are first *staged*: they sit in the ring's
//! storage but are not yet visible to the consumer. A [`Ring::sync`]
//! publishes all staged bytes at once, so a multi-chunk request becomes a
//! single observable step for the consumer. [`Ring::push_slice`] is the
//! plain producer operation that publishes immediately. The consumer pops
//! published bytes from the front in FIFO order.

use vstd::prelude::*;

verus! {

/// The SPSC byte ring. `tail` is the read position, `count` the number of
/// published bytes and `staged` the number of staged bytes; the bytes live
/// at positions `tail..tail+count+staged`, wrapping around the storage.
pub struct Ring {
    buf: Vec<u8>,
    tail: usize,
    count: usize,
    staged: usize,
}

impl Ring {
    /// The ring's capacity in bytes.
    pub closed spec fn cap(self) -> int {
        self.buf@.len() as int
    }

    /// Well-formed: non-empty storage small enough for wrap-free index
    /// arithmetic, the read position inside the storage, and the held
    /// bytes within capacity.
    pub closed spec fn wf(self) -> bool {
        &&& 0 < self.buf@.len()
        &&& self.buf@.len() <= usize::MAX as int / 2
        &&& (self.tail as int) < self.buf@.len()
        &&& self.count + self.staged <= self.buf@.len()
    }

    /// The storage position of the `i`-th byte counted from the read
    /// position.
    spec fn pos(self, i: int) -> int
        recommends
            0 <= i <= self.cap(),
    {
        if self.tail + i < self.cap() {
            self.tail + i
        } else {
            self.tail + i - self.cap()
        }
    }

    /// The published bytes, oldest first: what the consumer can pop.
    pub closed spec fn pending(self) -> Seq<u8> {
        Seq::new(self.count as nat, |i: int| self.buf@[self.pos(i)])
    }

    /// The staged bytes, oldest first: pushed by the producer but not yet
    /// published.
    pub closed spec fn staged_bytes(self) -> Seq<u8> {
        Seq::new(self.staged as nat, |i: int| self.buf@[self.pos(self.count + i)])
    }

    /// How many more bytes the producer can push before the ring is full.
    pub open spec fn free_len(self) -> int {
        self.cap() - self.pending().len() - self.staged_bytes().len()
    }

    /// A fresh ring of the given capacity, empty.
    pub fn new(capacity: usize) -> (r: Ring)
        requires
            0 < capacity <= usize::MAX / 2,
        ensures
            r.wf(),
            r.cap() == capacity,
            r.pending() == Seq::<u8>::empty(),
            r.staged_bytes() == Seq::<u8>::empty(),
    {
        let r = Ring { buf: vec![0u8; capacity], tail: 0, count: 0, staged: 0 };
        proof {
            assert(r.pending() =~= Seq::<u8>::empty());
            assert(r.staged_bytes() =~= Seq::<u8>::empty());
        }
        r
    }

    /// The ring's capacity in bytes.
    pub fn capacity(&self) -> (r: usize)
        ensures
            r == self.cap(),
    {
        self.buf.len()
    }

    /// How many published bytes the consumer can pop.
    pub fn readable(&self) -> (r: usize)
        ensures
            r == self.pending().len(),
    {
        self.count
    }

    /// How many more bytes the producer can push.
    pub fn writable(&self) -> (r: usize)
        requires
            self.wf(),
        ensures
            r == self.free_len(),
    {
        self.buf.len() - self.count - self.staged
    }

    /// Stage up to `data.len()` bytes of `data` at the back of the ring,
    /// without publishing them. Returns how many bytes were staged: all of
    /// `data` if it fits, otherwise exactly the free space.
    pub fn push_slice_postponed(&mut self, data: &[u8]) -> (n: usize)
        requires
            old(self).wf(),
        ensures
            final(self).wf(),
            final(self).cap() == old(self).cap(),
            n == if data@.len() <= old(self).free_len() {
                data@.len() as int
            } else {
                old(self).free_len()
            },
            final(self).pending() == old(self).pending(),
            final(self).staged_bytes() == old(self).staged_bytes() + data@.take(n as int),
    {
        let ghost orig = *self;
        let cap = self.buf.len();
        let avail = cap - self.count - self.staged;
        let want = if data.len() < avail {
            data.len()
        } else {
            avail
        };
        let mut idx = if self.tail + self.count >= cap {
            self.tail + self.count - cap
        } else {
            self.tail + self.count
        };
        idx = if idx + self.staged >= cap {
            idx + self.staged - cap
        } else {
            idx + self.staged
        };
        let mut j: usize = 0;
        while j < want
            invariant
                orig.wf(),
                want <= data@.len(),
                want <= orig.free_len(),
                j <= want,
                cap == self.buf@.len(),
                self.buf@.len() == orig.buf@.len(),
                self.tail == orig.tail,
                self.count == orig.count,
                self.staged == orig.staged + j,
                self.wf(),
                j < want ==> idx as int == self.pos(self.count + self.staged),
                self.pending() == orig.pending(),
                self.staged_bytes() == orig.staged_bytes() + data@.take(j as int),
            decreases want - j,
        {
            let ghost pre = *self;
            self.buf[idx] = data[j];
            self.staged = self.staged + 1;
            proof {
                let w = pre.pos(pre.count + pre.staged);
                assert forall|i: int| 0 <= i < self.count implies self.pending()[i]
                    == pre.pending()[i] by {
                    assert(pre.pos(i) != w);
                }
                assert(self.pending() =~= pre.pending());
                assert forall|i: int| 0 <= i < self.staged implies self.staged_bytes()[i] == (
                pre.staged_bytes() + seq![data@[j as int]])[i] by {
                    if i < pre.staged {
                        assert(pre.pos(pre.count + i) != w);
                    } else {
                        assert(self.staged_bytes()[i] == self.buf@[w]);
                    }
                }
                assert(self.staged_bytes() =~= pre.staged_bytes() + seq![data@[j as int]]);
                assert(pre.staged_bytes() + seq![data@[j as int]] =~= orig.staged_bytes()
                    + data@.take(j + 1));
            }
            j = j + 1;
            idx = if idx + 1 == cap {
                0
            } else {
                idx + 1
            };
        }
        want
    }

    /// Publish all staged bytes: they move to the back of the published
    /// bytes, in the order they were staged.
    pub fn sync(&mut self)
        requires
            old(self).wf(),
        ensures
            final(self).wf(),
            final(self).cap() == old(self).cap(),
            final(self).pending() == old(self).pending() + old(self).staged_bytes(),
            final(self).staged_bytes() == Seq::<u8>::empty(),
    {
        let ghost orig = *self;
        self.count = self.count + self.staged;
        self.staged = 0;
        proof {
            assert forall|i: int| 0 <= i < self.count implies self.pending()[i] == (orig.pending()
                + orig.staged_bytes())[i] by {
                if i < orig.count {
                } else {
                    assert(orig.staged_bytes()[i - orig.count] == orig.buf@[orig.pos(i)]);
                }
            }
            assert(self.pending() =~= orig.pending() + orig.staged_bytes());
            assert(self.staged_bytes() =~= Seq::<u8>::empty());
        }
    }

    /// Push up to `data.len()` bytes and publish them immediately.
    /// Requires that no bytes are currently staged, so published bytes are
    /// exactly the pushed prefix.
    pub fn push_slice(&mut self, data: &[u8]) -> (n: usize)
        requires
            old(self).wf(),
            old(self).staged_bytes() == Seq::<u8>::empty(),
        ensures
            final(self).wf(),
            final(self).cap() == old(self).cap(),
            n == if data@.len() <= old(self).free_len() {
                data@.len() as int
            } else {
                old(self).free_len()
            },
            final(self).pending() == old(self).pending() + data@.take(n as int),
            final(self).staged_bytes() == Seq::<u8>::empty(),
    {
        let n = self.push_slice_postponed(data);
        self.sync();
        n
    }

    /// Pop up to `want` published bytes from the front, in FIFO order.
    /// Returns all of the published bytes if fewer than `want` are
    /// available.
    pub fn pop_slice(&mut self, want: usize) -> (r: Vec<u8>)
        requires
            old(self).wf(),
        ensures
            final(self).wf(),
            final(self).cap() == old(self).cap(),
            r@ == old(self).pending().take(r@.len() as int),
            r@.len() == if want <= old(self).pending().len() {
                want as int
            } else {
                old(self).pending().len() as int
            },
            final(self).pending() == old(self).pending().skip(r@.len() as int),
            final(self).staged_bytes() == old(self).staged_bytes(),
    {
        let ghost orig = *self;
        let n = if want < self.count {
            want
        } else {
            self.count
        };
        let mut out: Vec<u8> = Vec::new();
        let cap = self.buf.len();
        let mut j: usize = 0;
        while j < n
            invariant
                orig.wf(),
                n <= orig.count,
                j <= n,
                cap == self.buf@.len(),
                self.buf@ == orig.buf@,
                self.staged == orig.staged,
                self.count == orig.count - j,
                self.tail as int == orig.pos(j as int),
                self.wf(),
                out@ == orig.pending().take(j as int),
                self.pending() == orig.pending().skip(j as int),
                self.staged_bytes() == orig.staged_bytes(),
            decreases n - j,
        {
            let ghost pre = *self;
            out.push(self.buf[self.tail]);
            self.tail = if self.tail + 1 == cap {
                0
            } else {
                self.tail + 1
            };
            self.count = self.count - 1;
            proof {
                assert(pre.buf@[pre.tail as int] == pre.pending()[0]);
                assert(pre.pending()[0] == orig.pending()[j as int]);
                assert(out@ =~= orig.pending().take(j + 1));
                assert forall|i: int| 0 <= i < self.count implies self.pending()[i]
                    == pre.pending()[i + 1] by {
                    assert(self.pos(i) == pre.pos(i + 1));
                }
                assert(self.pending() =~= orig.pending().skip(j + 1));
                assert forall|i: int| 0 <= i < self.staged implies self.staged_bytes()[i]
                    == pre.staged_bytes()[i] by {
                    assert(self.pos(self.count + i) == pre.pos(pre.count + i));
                }
                assert(self.staged_bytes() =~= orig.staged_bytes());
                assert(self.tail as int == orig.pos(j + 1));
            }
            j = j + 1;
        }
        out
    }
}

} // verus!
