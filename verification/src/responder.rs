//! The responder: the worker-side owner handle of the pipe.
//!
//! The worker reads length-prefixed request frames from the request ring
//! and writes unframed response bytes to the response ring — the
//! requester knows the expected response size, mirroring the protocol
//! being tunnelled. The responder tracks the in-flight incoming frame as
//! `(frame length, bytes still unread)`.

use vstd::prelude::*;

use crate::shared::TryLockOutcome;
use crate::{Joined, RawSharedMemPipe, SharedMemPipePtr, USE_EVENTFD_ON_RESPONSE};
use vstd::bytes::spec_u32_from_le_bytes;

verus! {

/// The worker-side owner handle. It holds the responder participant
/// slot's mutex for its whole lifetime, so the robust-mutex property
/// turns worker death into an owner-died observation by the peer.
pub struct OwnedResponder {
    // How long the currently received message is, and how much remains.
    remaining: Option<(u32, u32)>,
    pid: u32,
    recovered: bool,
}

impl OwnedResponder {
    /// The in-flight incoming frame: its length and its unread bytes.
    pub closed spec fn in_flight(self) -> Option<(u32, u32)> {
        self.remaining
    }

    /// The process identifier this responder registered.
    pub closed spec fn owner_pid(self) -> u32 {
        self.pid
    }

    /// Whether acquiring the slot reported that a previous holder died.
    pub closed spec fn recovered_from_owner_death(self) -> bool {
        self.recovered
    }

    /// Whether acquiring the slot reported that a previous holder died.
    pub fn was_recovered(&self) -> (r: bool)
        ensures
            r == self.recovered_from_owner_death(),
    {
        self.recovered
    }

    /// The in-flight record is consistent: the unread bytes of the
    /// current frame never exceed the frame's length.
    pub open spec fn wf(self) -> bool {
        self.in_flight() matches Some((len, rem)) ==> rem <= len
    }

    /// If no frame is in progress, decode the 4-byte host-order length
    /// of the next frame and record it as in flight; if one is, return
    /// its unread length as the error — the caller must drain it first.
    pub fn read_next_frame_len(&mut self, seg: &mut RawSharedMemPipe) -> (r: Result<u32, u32>)
        requires
            old(seg).usable(),
            old(self).wf(),
            old(self).in_flight() is None ==> old(seg).to_worker.pending().len() >= 4,
        ensures
            final(seg).usable(),
            final(self).wf(),
            old(self).in_flight() matches Some((_, rem)) ==> r == Result::<u32, u32>::Err(rem)
                && *final(self) == *old(self) && *final(seg) == *old(seg),
            old(self).in_flight() is None ==> {
                let len = spec_u32_from_le_bytes(old(seg).to_worker.pending().take(4));
                &&& r == Result::<u32, u32>::Ok(len)
                &&& final(self).in_flight() == Some((len, len))
                &&& final(seg).to_worker.pending() == old(seg).to_worker.pending().skip(4)
                &&& final(seg).to_worker.staged_bytes() == old(seg).to_worker.staged_bytes()
                &&& final(seg).from_worker == old(seg).from_worker
                &&& final(seg).to_worker_waiters == old(seg).to_worker_waiters
                &&& final(seg).magic == old(seg).magic
            },
            final(seg).notify_request_written == old(seg).notify_request_written,
            final(seg).notify_response_written == old(seg).notify_response_written,
            final(seg).participants == old(seg).participants,
            final(seg).stats() == old(seg).stats(),
            final(self).owner_pid() == old(self).owner_pid(),
            final(self).recovered_from_owner_death() == old(self).recovered_from_owner_death(),
    {
        match self.remaining {
            Some((_, rem)) => Err(rem),
            None => {
                let header = seg.to_worker.pop_slice(4);
                let len = vstd::bytes::u32_from_le_bytes(header.as_slice());
                self.remaining = Some((len, len));
                Ok(len)
            },
        }
    }

    /// Read request bytes: decode the frame length first if no frame is
    /// in progress, then pop up to `want` bytes, never past the frame's
    /// end nor past what the ring has published. The in-flight record is
    /// decremented and cleared when the frame is fully read.
    pub fn read(&mut self, seg: &mut RawSharedMemPipe, want: usize) -> (r: Vec<u8>)
        requires
            old(seg).usable(),
            old(self).wf(),
            old(self).in_flight() is None ==> old(seg).to_worker.pending().len() >= 4,
        ensures
            final(seg).usable(),
            final(self).wf(),
            ({
                let (len, rem, pending) = if old(self).in_flight() is Some {
                    (
                        old(self).in_flight()->Some_0.0,
                        old(self).in_flight()->Some_0.1,
                        old(seg).to_worker.pending(),
                    )
                } else {
                    let l = spec_u32_from_le_bytes(old(seg).to_worker.pending().take(4));
                    (l, l, old(seg).to_worker.pending().skip(4))
                };
                let bound = if want <= rem as int {
                    want as int
                } else {
                    rem as int
                };
                let take = if bound <= pending.len() {
                    bound
                } else {
                    pending.len() as int
                };
                &&& (want == 0 ==> r@ == Seq::<u8>::empty() && final(self).in_flight() == Some(
                    (len, rem),
                ) && final(seg).to_worker.pending() == pending)
                &&& (want > 0 ==> {
                    &&& r@ == pending.take(take)
                    &&& final(seg).to_worker.pending() == pending.skip(take)
                    &&& final(self).in_flight() == (if rem as int - take == 0 {
                        Option::<(u32, u32)>::None
                    } else {
                        Some((len, (rem as int - take) as u32))
                    })
                })
            }),
            final(seg).to_worker.staged_bytes() == old(seg).to_worker.staged_bytes(),
            final(seg).from_worker == old(seg).from_worker,
            final(seg).to_worker_waiters == old(seg).to_worker_waiters,
            final(seg).magic == old(seg).magic,
            final(seg).notify_request_written == old(seg).notify_request_written,
            final(seg).notify_response_written == old(seg).notify_response_written,
            final(seg).participants == old(seg).participants,
            final(seg).stats() == old(seg).stats(),
            final(self).owner_pid() == old(self).owner_pid(),
            final(self).recovered_from_owner_death() == old(self).recovered_from_owner_death(),
    {
        if self.remaining.is_none() {
            let header = seg.to_worker.pop_slice(4);
            let len = vstd::bytes::u32_from_le_bytes(header.as_slice());
            self.remaining = Some((len, len));
        }
        if want == 0 {
            return Vec::new();
        }
        let (len, rem) = match self.remaining {
            Some(p) => p,
            None => (0u32, 0u32),
        };
        // Pop only up to the frame's end.
        let bound = if (want as u64) <= (rem as u64) {
            want
        } else {
            rem as usize
        };
        let r = seg.to_worker.pop_slice(bound);
        let taken = r.len() as u32;
        let rem = rem - taken;
        if rem == 0 {
            self.remaining = None;
        } else {
            self.remaining = Some((len, rem));
        }
        r
    }

    /// Read exactly the unread bytes of the in-flight frame, which must
    /// have more than one of them, and clear the in-flight record.
    pub fn read_exact(&mut self, seg: &mut RawSharedMemPipe) -> (r: Vec<u8>)
        requires
            old(seg).usable(),
            old(self).in_flight() matches Some((_, rem)) && rem > 1,
            old(self).in_flight() matches Some((_, rem)) ==> rem as int <= old(
                seg,
            ).to_worker.pending().len(),
        ensures
            final(seg).usable(),
            final(self).wf(),
            old(self).in_flight() matches Some((_, rem)) ==> {
                &&& r@ == old(seg).to_worker.pending().take(rem as int)
                &&& final(seg).to_worker.pending() == old(seg).to_worker.pending().skip(rem as int)
            },
            final(self).in_flight() is None,
            final(seg).to_worker.staged_bytes() == old(seg).to_worker.staged_bytes(),
            final(seg).from_worker == old(seg).from_worker,
            final(seg).to_worker_waiters == old(seg).to_worker_waiters,
            final(seg).magic == old(seg).magic,
            final(seg).notify_request_written == old(seg).notify_request_written,
            final(seg).notify_response_written == old(seg).notify_response_written,
            final(seg).participants == old(seg).participants,
            final(seg).stats() == old(seg).stats(),
            final(self).owner_pid() == old(self).owner_pid(),
            final(self).recovered_from_owner_death() == old(self).recovered_from_owner_death(),
    {
        let rem = match self.remaining {
            Some((_, rem)) => rem,
            None => 0u32,
        };
        let r = seg.to_worker.pop_slice(rem as usize);
        self.remaining = None;
        r
    }

    /// The receive-path handshake: when the ring is empty, the worker
    /// blocks on the request eventfd only while no request is in flight,
    /// so it neither spins on a long-empty ring nor sleeps through a
    /// writer that is mid-publication.
    pub fn must_wait_for_wakeup(&self, seg: &RawSharedMemPipe, can_wait: bool) -> (r: bool)
        ensures
            r <==> can_wait && seg.to_worker_waiters == 0,
    {
        can_wait && seg.to_worker_waiters == 0
    }

    /// Begin writing `data` as the response. Nothing at all happens for
    /// an empty response.
    pub fn write_all_begin(&self, data: &[u8]) -> (r: Option<WriteAll>)
        ensures
            data@.len() == 0 <==> r is None,
            r matches Some(w) ==> w.data_bytes() == data@ && w.sent_so_far() == 0 && (
            w.has_woken() <==> !USE_EVENTFD_ON_RESPONSE),
    {
        if data.len() == 0 {
            return None;
        }
        let mut copy: Vec<u8> = Vec::new();
        copy.extend_from_slice(data);
        Some(WriteAll { data: copy, sent: 0, woken: !USE_EVENTFD_ON_RESPONSE })
    }
}

/// An in-progress response write: the bytes to deliver, how many have
/// been published into the response ring, and whether the requester's
/// wakeup has been posted.
pub struct WriteAll {
    data: Vec<u8>,
    sent: usize,
    woken: bool,
}

impl WriteAll {
    /// The response bytes being delivered.
    pub closed spec fn data_bytes(self) -> Seq<u8> {
        self.data@
    }

    /// How many response bytes have been published.
    pub closed spec fn sent_so_far(self) -> int {
        self.sent as int
    }

    /// Whether the requester's wakeup has been posted.
    pub closed spec fn has_woken(self) -> bool {
        self.woken
    }

    /// The whole response has been published.
    pub open spec fn all_sent(self) -> bool {
        self.sent_so_far() == self.data_bytes().len()
    }

    /// The published prefix never exceeds the response.
    pub open spec fn wf(self) -> bool {
        self.sent_so_far() <= self.data_bytes().len()
    }

    /// Whether the whole response has been published.
    pub fn is_all_sent(&self) -> (r: bool)
        ensures
            r <==> self.all_sent(),
    {
        self.sent == self.data.len()
    }

    /// One writer step: publish as much of the remaining response as
    /// fits, and post the requester's wakeup on the very first step —
    /// before the ring could possibly be filled — so a response as large
    /// as the ring cannot deadlock. On the step that publishes the last
    /// byte, the in-flight request counter is released.
    pub fn step(&mut self, seg: &mut RawSharedMemPipe) -> (done: bool)
        requires
            old(seg).usable(),
            old(seg).from_worker.staged_bytes() == Seq::<u8>::empty(),
            old(self).wf(),
            !old(self).all_sent(),
        ensures
            final(seg).usable(),
            final(self).wf(),
            final(self).data_bytes() == old(self).data_bytes(),
            final(seg).from_worker.staged_bytes() == Seq::<u8>::empty(),
            ({
                let remaining = old(self).data_bytes().len() - old(self).sent_so_far();
                let free = old(seg).from_worker.free_len();
                let take = if remaining <= free {
                    remaining as int
                } else {
                    free
                };
                &&& final(self).sent_so_far() == old(self).sent_so_far() + take
                &&& final(seg).from_worker.pending() == old(seg).from_worker.pending() + old(
                    self,
                ).data_bytes().subrange(old(self).sent_so_far(), old(self).sent_so_far() + take)
            }),
            final(self).has_woken(),
            (!old(self).has_woken() && old(seg).notify_response_written.level() < u64::MAX) ==> final(seg).notify_response_written.level() == old(seg).notify_response_written.level() + 1,
            old(self).has_woken() ==> final(seg).notify_response_written == old(
                seg,
            ).notify_response_written,
            done <==> final(self).all_sent(),
            done ==> final(seg).to_worker_waiters == vstd::wrapping::u32_specs::wrapping_sub(
                old(seg).to_worker_waiters,
                1u32,
            ),
            !done ==> final(seg).to_worker_waiters == old(seg).to_worker_waiters,
            final(seg).to_worker == old(seg).to_worker,
            final(seg).notify_request_written == old(seg).notify_request_written,
            final(seg).magic == old(seg).magic,
            final(seg).participants == old(seg).participants,
            final(seg).stats() == old(seg).stats(),
    {
        let ghost pre = *self;
        let n = seg.from_worker.push_slice(slice_tail(self.data.as_slice(), self.sent));
        proof {
            assert(self.data@.len() == self.data.len());
            assert(self.sent + n <= self.data@.len());
        }
        self.sent = self.sent + n;
        proof {
            let sent = pre.sent_so_far();
            assert(pre.data_bytes().skip(sent).take(n as int) =~= pre.data_bytes().subrange(
                sent,
                sent + n,
            ));
        }
        if !self.woken {
            self.woken = true;
            seg.notify_response_written.post();
        }
        if self.sent == self.data.len() {
            seg.to_worker_waiters = seg.to_worker_waiters.wrapping_sub(1);
            true
        } else {
            false
        }
    }
}

/// A response written with [`WriteAll::step`] is received back exactly:
/// the steps publish `x` behind whatever the response ring already held,
/// so a receiver that pops those earlier bytes and then `x.len()` more —
/// as [`crate::requester::RecvResponse::step`] does, in FIFO order —
/// obtains exactly `x`.
pub proof fn lemma_write_all_round_trip(pending: Seq<u8>, x: Seq<u8>)
    ensures
        (pending + x).take(pending.len() as int) == pending,
        (pending + x).skip(pending.len() as int) == x,
{
    assert((pending + x).take(pending.len() as int) =~= pending);
    assert((pending + x).skip(pending.len() as int) =~= x);
}

/// The suffix of a slice from `at` on.
fn slice_tail<'a>(s: &'a [u8], at: usize) -> (r: &'a [u8])
    requires
        at <= s@.len(),
    ensures
        r@ == s@.skip(at as int),
{
    let (_, tail) = s.split_at(at);
    tail
}

impl SharedMemPipePtr<Joined> {
    /// Acquire the responder role: take the responder participant slot
    /// and retain it for the lifetime of the responder, recording the
    /// caller's process identifier. If the previous holder died, the
    /// acquisition still succeeds and the dirty state is reported on the
    /// handle.
    pub fn try_acquire_responder(self, seg: &mut RawSharedMemPipe, pid: u32) -> (r: Option<
        OwnedResponder,
    >)
        ensures
            old(seg).participants.responder.is_locked() ==> r is None && *final(seg) == *old(seg),
            !old(seg).participants.responder.is_locked() ==> r is Some && final(seg).participants.responder.locked_by(pid) && final(seg).participants.responder.inner()
                == Some(pid),
            r matches Some(resp) ==> resp.in_flight() is None && resp.owner_pid() == pid && (
            resp.recovered_from_owner_death() <==> old(seg).participants.responder.owner_died()),
            final(seg).participants.requester == old(seg).participants.requester,
            final(seg).to_worker == old(seg).to_worker,
            final(seg).from_worker == old(seg).from_worker,
            final(seg).to_worker_waiters == old(seg).to_worker_waiters,
            final(seg).magic == old(seg).magic,
            final(seg).notify_request_written == old(seg).notify_request_written,
            final(seg).notify_response_written == old(seg).notify_response_written,
            final(seg).stats() == old(seg).stats(),
    {
        let outcome = seg.participants.responder.try_lock(pid);
        match outcome {
            TryLockOutcome::WouldBlock => None,
            TryLockOutcome::Acquired => {
                seg.participants.responder.set_value(pid, Some(pid));
                Some(OwnedResponder { remaining: None, pid, recovered: false })
            },
            TryLockOutcome::AcquiredOwnerDied => {
                seg.participants.responder.set_value(pid, Some(pid));
                Some(OwnedResponder { remaining: None, pid, recovered: true })
            },
        }
    }
}

impl OwnedResponder {
    /// Release the responder role, unlocking the participant slot, as
    /// dropping the worker's handle would.
    pub fn release(self, seg: &mut RawSharedMemPipe)
        requires
            old(seg).participants.responder.locked_by(self.owner_pid()),
        ensures
            !final(seg).participants.responder.is_locked(),
            final(seg).participants.responder.inner() == old(seg).participants.responder.inner(),
            final(seg).participants.requester == old(seg).participants.requester,
            final(seg).to_worker == old(seg).to_worker,
            final(seg).from_worker == old(seg).from_worker,
            final(seg).to_worker_waiters == old(seg).to_worker_waiters,
            final(seg).magic == old(seg).magic,
            final(seg).notify_request_written == old(seg).notify_request_written,
            final(seg).notify_response_written == old(seg).notify_response_written,
            final(seg).stats() == old(seg).stats(),
    {
        seg.participants.responder.unlock(self.pid);
    }
}

} // verus!
