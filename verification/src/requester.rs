//! The requester: the coordinator-side owner handle of the pipe.
//!
//! Multiple caller threads submit requests concurrently. A process-local
//! producer order mints a 32-bit wrapping ticket per request and frames
//! the request bytes into the request ring; a process-local consumer
//! order serves responses strictly by ticket, parking each caller until
//! its ticket is next. The blocking pieces (locks, parking, eventfd
//! waits) belong to the driver; every decision between them is a step
//! function here, so any interleaving the driver produces satisfies the
//! contracts below.

use vstd::prelude::*;

use crate::{RawSharedMemPipe, SharedMemPipePtr, Created, USE_EVENTFD_ON_RESPONSE};
use crate::shared::TryLockOutcome;
use vstd::bytes::spec_u32_to_le_bytes;
use vstd::string::StringExecFns;

verus! {

/// Tickets wrap at 2^32.
pub const TICKET_MODULUS: u64 = 0x1_0000_0000;

/// A ticket distance beyond this cap indicates misuse of the park queue.
pub const PARK_QUEUE_CAP: usize = 4096;

/// A number reduced into ticket range.
pub open spec fn wrap32(n: int) -> u32 {
    (n % (TICKET_MODULUS as int)) as u32
}

/// Successive tickets follow each other by wrapping addition of one.
pub proof fn lemma_wrap32_succ(n: int)
    requires
        n >= 0,
    ensures
        wrap32(n + 1) == vstd::wrapping::u32_specs::wrapping_add(wrap32(n), 1u32),
{
    let m = TICKET_MODULUS as int;
    let r = n % m;
    vstd::arithmetic::div_mod::lemma_fundamental_div_mod(n, m);
    vstd::arithmetic::div_mod::lemma_mod_pos_bound(n, m);
    let q = n / m;
    if r < m - 1 {
        vstd::arithmetic::div_mod::lemma_fundamental_div_mod_converse_mod(n + 1, m, q, r + 1);
    } else {
        assert(n + 1 == (q + 1) * m + 0) by (nonlinear_arith)
            requires
                n == q * m + r,
                r == m - 1,
        ;
        vstd::arithmetic::div_mod::lemma_fundamental_div_mod_converse_mod(n + 1, m, q + 1, 0);
    }
}

/// A ticket value below the modulus reduces to itself.
pub proof fn lemma_wrap32_small(x: u32)
    ensures
        wrap32(x as int) == x,
{
    vstd::arithmetic::div_mod::lemma_small_mod(x as nat, TICKET_MODULUS as nat);
}

/// Ticket wrap at 2^32 is transparent: for a ticket minted `k` tickets
/// after `next`, the distance computed by wrapping subtraction is exactly
/// `k`, whether or not the counter wrapped in between.
pub proof fn lemma_ticket_wrap_distance(next: u32, k: int)
    requires
        0 <= k < TICKET_MODULUS,
    ensures
        vstd::wrapping::u32_specs::wrapping_sub(wrap32(next + k), next) == k,
{
    let m = TICKET_MODULUS as int;
    if next + k < m {
        vstd::arithmetic::div_mod::lemma_small_mod((next + k) as nat, m as nat);
    } else {
        vstd::arithmetic::div_mod::lemma_fundamental_div_mod_converse_mod(
            next + k,
            m,
            1,
            next + k - m,
        );
    }
}

/// The frame a request travels in on the request ring: the 4-byte
/// host-order length prefix, then the payload.
pub open spec fn request_frame(x: Seq<u8>) -> Seq<u8>
    recommends
        x.len() <= u32::MAX,
{
    spec_u32_to_le_bytes(x.len() as u32) + x
}

/// Framing a request and parsing it back are inverse: the length prefix
/// that [`OwnedRequester::send_request_begin`] places before the payload
/// decodes to the payload's length, and the bytes after it are exactly
/// the payload — which is what the responder's frame reader recovers
/// from the request ring.
pub proof fn lemma_request_frame_round_trip(x: Seq<u8>)
    requires
        x.len() <= u32::MAX,
    ensures
        request_frame(x).len() == 4 + x.len(),
        vstd::bytes::spec_u32_from_le_bytes(request_frame(x).take(4)) == x.len(),
        request_frame(x).skip(4) == x,
{
    vstd::bytes::lemma_auto_spec_u32_to_from_le_bytes();
    assert(request_frame(x).take(4) =~= spec_u32_to_le_bytes(x.len() as u32));
    assert(request_frame(x).skip(4) =~= x);
}

/// Requests framed one after the other arrive one after the other: in
/// the concatenation of two frames, the first frame's prefix decodes to
/// the first payload's length, the payload follows it exactly, and what
/// remains after the first frame is exactly the second frame. With the
/// producer order serializing submissions into the ring and the ring's
/// FIFO contract, the responder therefore reads back request `i` of any
/// submission order as its `i`-th frame, byte for byte.
pub proof fn lemma_frames_arrive_in_submission_order(a: Seq<u8>, b: Seq<u8>)
    requires
        a.len() <= u32::MAX,
        b.len() <= u32::MAX,
    ensures
        vstd::bytes::spec_u32_from_le_bytes((request_frame(a) + request_frame(b)).take(4))
            == a.len(),
        (request_frame(a) + request_frame(b)).skip(4).take(a.len() as int) == a,
        (request_frame(a) + request_frame(b)).skip(4 + a.len() as int) == request_frame(b),
{
    lemma_request_frame_round_trip(a);
    lemma_request_frame_round_trip(b);
    assert((request_frame(a) + request_frame(b)).take(4) =~= request_frame(a).take(4));
    assert((request_frame(a) + request_frame(b)).skip(4).take(a.len() as int) =~= a);
    assert((request_frame(a) + request_frame(b)).skip(4 + a.len() as int) =~= request_frame(b));
}

/// The concatenation of the frames of a sequence of payloads, in order.
pub open spec fn frames_concat(ps: Seq<Seq<u8>>) -> Seq<u8>
    decreases ps.len(),
{
    if ps.len() == 0 {
        Seq::<u8>::empty()
    } else {
        request_frame(ps[0]) + frames_concat(ps.skip(1))
    }
}

/// Any number of framed requests arrive one after the other: at the
/// front of the concatenated frames stands the first payload's frame,
/// whose prefix decodes to that payload's length and whose body is that
/// payload; what follows is the concatenation of the remaining frames.
/// Peeling frames this way, the responder recovers every submitted
/// payload, in submission order, byte for byte.
pub proof fn lemma_all_frames_arrive_in_submission_order(ps: Seq<Seq<u8>>)
    requires
        ps.len() > 0,
        forall|i: int| 0 <= i < ps.len() ==> (#[trigger] ps[i]).len() <= u32::MAX,
    ensures
        vstd::bytes::spec_u32_from_le_bytes(frames_concat(ps).take(4)) == ps[0].len(),
        frames_concat(ps).skip(4).take(ps[0].len() as int) == ps[0],
        frames_concat(ps).skip(4 + ps[0].len() as int) == frames_concat(ps.skip(1)),
{
    lemma_request_frame_round_trip(ps[0]);
    assert(frames_concat(ps) == request_frame(ps[0]) + frames_concat(ps.skip(1)));
    assert(frames_concat(ps).take(4) =~= request_frame(ps[0]).take(4));
    assert(frames_concat(ps).skip(4).take(ps[0].len() as int) =~= ps[0]);
    assert(frames_concat(ps).skip(4 + ps[0].len() as int) =~= frames_concat(ps.skip(1)));
}

/// The error returned for a request whose frame length cannot be carried
/// in the 32-bit length prefix.
#[derive(Debug, Clone, Copy, PartialEq, Eq)]
pub struct RequestTooLarge;

impl RequestTooLarge {
    /// The text [`RequestTooLarge::message`] returns.
    pub open spec fn spec_message(self) -> Seq<char> {
        "request cannot exceed 4 GB"@
    }

    /// A human-readable description of the failure.
    pub fn message(&self) -> (r: String)
        ensures
            r@ == self.spec_message(),
    {
        let mut m = String::new();
        m.append("request cannot exceed 4 GB");
        proof {
            assert(Seq::<char>::empty() + "request cannot exceed 4 GB"@ =~= "request cannot exceed 4 GB"@);
        }
        m
    }
}

/// An intra-process FIFO of parked caller threads, keyed by the distance
/// between their ticket and the next ticket to serve. Threads are named
/// by an abstract 64-bit identifier; the driver parks and unparks the
/// real threads.
pub struct UnparkInOrder {
    slots: Vec<Option<u64>>,
}

impl UnparkInOrder {
    /// The queue's slots, front first: slot `k` belongs to the caller
    /// whose ticket is `k` past the next ticket to serve.
    pub closed spec fn view_slots(self) -> Seq<Option<u64>> {
        self.slots@
    }

    pub fn new() -> (r: UnparkInOrder)
        ensures
            r.view_slots() == Seq::<Option<u64>>::empty(),
    {
        UnparkInOrder { slots: Vec::new() }
    }

    /// Store the calling thread at the given distance. The popular
    /// thread-count invariant caps the distance; a slot may be taken
    /// only once.
    pub fn store_current(&mut self, distance: usize, tid: u64)
        requires
            distance < PARK_QUEUE_CAP,
            distance < old(self).view_slots().len() ==> old(self).view_slots()[distance as int]
                is None,
        ensures
            final(self).view_slots().len() == if distance < old(self).view_slots().len() {
                old(self).view_slots().len() as int
            } else {
                distance + 1
            },
            final(self).view_slots()[distance as int] == Some(tid),
            forall|k: int|
                0 <= k < old(self).view_slots().len() && k != distance ==> final(self).view_slots()[k] == old(self).view_slots()[k],
            forall|k: int|
                old(self).view_slots().len() <= k < final(self).view_slots().len() && k != distance
                    ==> final(self).view_slots()[k] is None,
    {
        while self.slots.len() <= distance
            invariant
                self.slots@.len() >= old(self).view_slots().len(),
                self.slots@.len() == old(self).view_slots().len() || self.slots@.len() <= distance
                    + 1,
                forall|k: int|
                    0 <= k < old(self).view_slots().len() ==> self.slots@[k] == old(
                        self,
                    ).view_slots()[k],
                forall|k: int|
                    old(self).view_slots().len() <= k < self.slots@.len() ==> self.slots@[k]
                        is None,
            decreases distance + 1 - self.slots@.len(),
        {
            self.slots.push(None);
        }
        self.slots[distance] = Some(tid);
    }

    /// Whether the calling thread is at the front of the queue.
    pub fn current_is_front(&self, tid: u64) -> (r: bool)
        ensures
            r <==> self.view_slots().len() > 0 && self.view_slots()[0] == Some(tid),
    {
        if self.slots.len() == 0 {
            false
        } else {
            match self.slots[0] {
                Some(first) => first == tid,
                None => false,
            }
        }
    }

    /// Pop the calling thread off the front; it must be at the front.
    pub fn pop_current(&mut self, tid: u64)
        requires
            old(self).view_slots().len() > 0,
            old(self).view_slots()[0] == Some(tid),
        ensures
            final(self).view_slots() == old(self).view_slots().skip(1),
    {
        self.slots.remove(0);
        assert(final(self).view_slots() =~= old(self).view_slots().skip(1));
    }

    /// The thread to unpark next, if it has already arrived at the
    /// parking lot.
    pub fn unpark_front(&self) -> (r: Option<u64>)
        ensures
            self.view_slots().len() > 0 && self.view_slots()[0] is Some ==> r
                == self.view_slots()[0],
            self.view_slots().len() == 0 || self.view_slots()[0] is None ==> r is None,
    {
        if self.slots.len() == 0 {
            None
        } else {
            self.slots[0]
        }
    }
}

/// The consumer-side state: the parked callers and the next ticket to
/// serve.
pub struct Wakeup {
    pub waiting: UnparkInOrder,
    pub next: u32,
}

/// An in-progress request submission: the minted ticket, the framed
/// bytes (4-byte host-order length prefix, then the payload), how much of
/// the frame has been staged into the ring, and whether this submission
/// still owes the worker a wakeup.
pub struct SendRequest {
    id: u32,
    frame: Vec<u8>,
    sent: usize,
    might_wait: bool,
}

impl SendRequest {
    /// The ticket minted for this request.
    pub closed spec fn ticket(self) -> u32 {
        self.id
    }

    /// The framed bytes: length prefix then payload.
    pub closed spec fn frame_bytes(self) -> Seq<u8> {
        self.frame@
    }

    /// How many frame bytes have been staged into the ring.
    pub closed spec fn sent_so_far(self) -> int {
        self.sent as int
    }

    /// Whether this submission still owes the worker a wakeup post.
    pub closed spec fn owes_wake(self) -> bool {
        self.might_wait
    }

    /// The whole frame has been staged.
    pub open spec fn all_sent(self) -> bool {
        self.sent_so_far() == self.frame_bytes().len()
    }

    /// The staged prefix never exceeds the frame.
    pub open spec fn wf(self) -> bool {
        self.sent_so_far() <= self.frame_bytes().len()
    }

    /// The ticket minted for this request.
    pub fn id(&self) -> (r: u32)
        ensures
            r == self.ticket(),
    {
        self.id
    }

    /// Whether the whole frame has been staged.
    pub fn is_all_sent(&self) -> (r: bool)
        ensures
            r <==> self.all_sent(),
    {
        self.sent == self.frame.len()
    }

    /// One producer step: stage as much of the remaining frame as fits.
    /// When nothing fits, publish what is staged and post the worker's
    /// wakeup if this submission still owes one, so the worker can drain
    /// the ring and make room.
    pub fn step(&mut self, seg: &mut RawSharedMemPipe)
        requires
            old(seg).usable(),
            old(self).wf(),
            !old(self).all_sent(),
        ensures
            final(seg).usable(),
            final(self).wf(),
            final(self).ticket() == old(self).ticket(),
            final(self).frame_bytes() == old(self).frame_bytes(),
            final(seg).from_worker == old(seg).from_worker,
            final(seg).to_worker_waiters == old(seg).to_worker_waiters,
            final(seg).magic == old(seg).magic,
            final(seg).notify_response_written == old(seg).notify_response_written,
            final(seg).participants == old(seg).participants,
            final(seg).stats() == old(seg).stats(),
            ({
                let remaining = old(self).frame_bytes().len() - old(self).sent_so_far();
                let free = old(seg).to_worker.free_len();
                let take = if remaining <= free {
                    remaining as int
                } else {
                    free
                };
                if take > 0 {
                    &&& final(self).sent_so_far() == old(self).sent_so_far() + take
                    &&& final(seg).to_worker.pending() == old(seg).to_worker.pending()
                    &&& final(seg).to_worker.staged_bytes() == old(seg).to_worker.staged_bytes()
                        + old(self).frame_bytes().subrange(
                        old(self).sent_so_far(),
                        old(self).sent_so_far() + take,
                    )
                    &&& final(self).owes_wake() == old(self).owes_wake()
                    &&& final(seg).notify_request_written == old(seg).notify_request_written
                } else {
                    &&& final(self).sent_so_far() == old(self).sent_so_far()
                    &&& final(seg).to_worker.pending() == old(seg).to_worker.pending() + old(
                        seg,
                    ).to_worker.staged_bytes()
                    &&& final(seg).to_worker.staged_bytes() == Seq::<u8>::empty()
                    &&& !final(self).owes_wake()
                    &&& ((old(self).owes_wake() && old(seg).notify_request_written.level()
                        < u64::MAX) ==> final(seg).notify_request_written.level() == old(
                        seg,
                    ).notify_request_written.level() + 1)
                    &&& (!old(self).owes_wake() ==> final(seg).notify_request_written == old(
                        seg,
                    ).notify_request_written)
                }
            }),
    {
        let n = seg.to_worker.push_slice_postponed(slice_tail(self.frame.as_slice(), self.sent));
        if n == 0 {
            seg.to_worker.sync();
            if self.might_wait {
                seg.notify_request_written.post();
                self.might_wait = false;
            }
        } else {
            proof {
                assert(self.frame@.len() == self.frame.len());
                assert(self.sent + n <= self.frame@.len());
            }
            self.sent = self.sent + n;
            proof {
                let sent = old(self).sent_so_far();
                assert(old(self).frame_bytes().skip(sent).take(n as int) =~= old(
                    self,
                ).frame_bytes().subrange(sent, sent + n));
            }
        }
    }

    /// Final producer step once the whole frame is staged: publish it,
    /// and post the worker's wakeup if it is still owed. Returns the
    /// minted ticket.
    pub fn finish(self, seg: &mut RawSharedMemPipe) -> (r: u32)
        requires
            old(seg).usable(),
            self.all_sent(),
        ensures
            final(seg).usable(),
            r == self.ticket(),
            final(seg).to_worker.pending() == old(seg).to_worker.pending() + old(
                seg,
            ).to_worker.staged_bytes(),
            final(seg).to_worker.staged_bytes() == Seq::<u8>::empty(),
            final(seg).from_worker == old(seg).from_worker,
            final(seg).to_worker_waiters == old(seg).to_worker_waiters,
            final(seg).magic == old(seg).magic,
            final(seg).notify_response_written == old(seg).notify_response_written,
            final(seg).participants == old(seg).participants,
            final(seg).stats() == old(seg).stats(),
            (self.owes_wake() && old(seg).notify_request_written.level() < u64::MAX) ==> final(seg).notify_request_written.level() == old(seg).notify_request_written.level() + 1,
            !self.owes_wake() ==> final(seg).notify_request_written == old(
                seg,
            ).notify_request_written,
    {
        seg.to_worker.sync();
        if self.might_wait {
            seg.notify_request_written.post();
        }
        self.id
    }
}

/// The suffix of a slice from `at` on.
fn slice_tail<'a>(s: &'a [u8], at: usize) -> (r: &'a [u8])
    requires
        at <= s@.len(),
    ensures
        r@ == s@.skip(at as int),
{
    let (_, tail) = s.split_at(at);
    tail
}

/// An in-progress response receive for one ticket: the expected length,
/// what has been received so far, and whether the response eventfd has
/// been consumed.
pub struct RecvResponse {
    id: u32,
    expected: usize,
    got: Vec<u8>,
    waited: bool,
}

impl RecvResponse {
    /// The ticket whose response is being received.
    pub closed spec fn ticket(self) -> u32 {
        self.id
    }

    /// How many response bytes the caller expects.
    pub closed spec fn expected_len(self) -> int {
        self.expected as int
    }

    /// The response bytes received so far.
    pub closed spec fn received(self) -> Seq<u8> {
        self.got@
    }

    /// Whether the response eventfd has been consumed for this receive.
    pub closed spec fn waited(self) -> bool {
        self.waited
    }

    /// The full expected response has been received.
    pub open spec fn complete(self) -> bool {
        self.received().len() == self.expected_len()
    }

    /// The received bytes never exceed the expected length.
    pub open spec fn wf(self) -> bool {
        self.received().len() <= self.expected_len()
    }

    /// Whether the full expected response has been received.
    pub fn is_complete(&self) -> (r: bool)
        ensures
            r <==> self.complete(),
    {
        self.got.len() == self.expected
    }

    /// Consume one post of the response eventfd, waiting for the worker
    /// to begin writing the response. Reports false when the driver must
    /// block on the real eventfd first.
    pub fn await_response(&mut self, seg: &mut RawSharedMemPipe) -> (r: bool)
        requires
            !old(self).waited(),
        ensures
            r <==> old(seg).notify_response_written.level() > 0,
            r ==> final(self).waited() && final(seg).notify_response_written.level() == old(
                seg,
            ).notify_response_written.level() - 1,
            !r ==> *final(self) == *old(self) && final(seg).notify_response_written == old(
                seg,
            ).notify_response_written,
            final(self).ticket() == old(self).ticket(),
            final(self).expected_len() == old(self).expected_len(),
            final(self).received() == old(self).received(),
            final(seg).to_worker == old(seg).to_worker,
            final(seg).from_worker == old(seg).from_worker,
            final(seg).to_worker_waiters == old(seg).to_worker_waiters,
            final(seg).magic == old(seg).magic,
            final(seg).notify_request_written == old(seg).notify_request_written,
            final(seg).participants == old(seg).participants,
            final(seg).stats() == old(seg).stats(),
    {
        if seg.notify_response_written.try_wait() {
            self.waited = true;
            true
        } else {
            false
        }
    }

    /// One consumer step: pop as much of the outstanding response as the
    /// ring has published, in FIFO order. The eventfd must have been
    /// consumed first when responses gate on it.
    pub fn step(&mut self, seg: &mut RawSharedMemPipe) -> (n: usize)
        requires
            old(seg).usable(),
            old(self).wf(),
            !old(self).complete(),
            USE_EVENTFD_ON_RESPONSE ==> old(self).waited(),
        ensures
            final(seg).usable(),
            final(self).wf(),
            final(self).ticket() == old(self).ticket(),
            final(self).expected_len() == old(self).expected_len(),
            final(self).waited() == old(self).waited(),
            ({
                let outstanding = old(self).expected_len() - old(self).received().len();
                let avail = old(seg).from_worker.pending().len() as int;
                let take = if outstanding <= avail {
                    outstanding
                } else {
                    avail
                };
                &&& n == take
                &&& final(self).received() == old(self).received() + old(
                    seg,
                ).from_worker.pending().take(take)
                &&& final(seg).from_worker.pending() == old(seg).from_worker.pending().skip(take)
                &&& final(seg).from_worker.staged_bytes() == old(seg).from_worker.staged_bytes()
            }),
            final(seg).to_worker == old(seg).to_worker,
            final(seg).to_worker_waiters == old(seg).to_worker_waiters,
            final(seg).magic == old(seg).magic,
            final(seg).notify_request_written == old(seg).notify_request_written,
            final(seg).notify_response_written == old(seg).notify_response_written,
            final(seg).participants == old(seg).participants,
            final(seg).stats() == old(seg).stats(),
    {
        let outstanding = self.expected - self.got.len();
        let mut popped = seg.from_worker.pop_slice(outstanding);
        let n = popped.len();
        self.got.append(&mut popped);
        n
    }

    /// The received response, once complete.
    pub fn into_bytes(self) -> (r: Vec<u8>)
        requires
            self.complete(),
        ensures
            r@ == self.received(),
    {
        self.got
    }
}

/// The coordinator-side owner handle: serializes local caller threads
/// into the request ring and orders responses out by ticket.
///
/// A full request/response exchange by one caller thread is:
/// [`OwnedRequester::send_request_begin`], then [`SendRequest::step`]
/// until all is sent and [`SendRequest::finish`] (under the producer
/// order); [`OwnedRequester::register_waiter`], then parking until
/// [`OwnedRequester::ready`] holds for the ticket;
/// [`OwnedRequester::claim_turn`], [`RecvResponse::await_response`] and
/// [`RecvResponse::step`] until complete; and
/// [`OwnedRequester::finish_receive`], unparking the reported thread
/// (all under the consumer order). The caller must run this sequence to
/// completion: it does not support cancellation.
pub struct OwnedRequester {
    producer: u32,
    consumer: Wakeup,
    minted: Ghost<Seq<u32>>,
    served: Ghost<Seq<u32>>,
}

impl OwnedRequester {
    /// The tickets minted so far, in mint order.
    pub closed spec fn minted_tickets(self) -> Seq<u32> {
        self.minted@
    }

    /// The tickets whose responses have been fully served, in serve
    /// order.
    pub closed spec fn served_tickets(self) -> Seq<u32> {
        self.served@
    }

    /// The next ticket to serve.
    pub closed spec fn next_to_serve(self) -> u32 {
        self.consumer.next
    }

    /// The park-queue slots.
    pub closed spec fn queue(self) -> Seq<Option<u64>> {
        self.consumer.waiting.view_slots()
    }

    /// Requests minted but not yet served.
    pub open spec fn outstanding(self) -> int {
        self.minted_tickets().len() - self.served_tickets().len()
    }

    /// The requester invariant: tickets are minted consecutively from
    /// zero (wrapping at 2^32), responses are served in exactly that
    /// order, and the producer and consumer counters stand at the next
    /// ticket to mint and to serve.
    pub closed spec fn wf(self) -> bool {
        &&& self.served@.len() <= self.minted@.len()
        &&& forall|i: int| 0 <= i < self.minted@.len() ==> self.minted@[i] == wrap32(i)
        &&& forall|i: int| 0 <= i < self.served@.len() ==> self.served@[i] == self.minted@[i]
        &&& self.producer == wrap32(self.minted@.len() as int)
        &&& self.consumer.next == wrap32(self.served@.len() as int)
    }

    /// A fresh requester: no tickets minted, none served.
    pub fn new() -> (r: OwnedRequester)
        ensures
            r.wf(),
            r.minted_tickets() == Seq::<u32>::empty(),
            r.served_tickets() == Seq::<u32>::empty(),
            r.queue() == Seq::<Option<u64>>::empty(),
            r.next_to_serve() == 0,
    {
        let r = OwnedRequester {
            producer: 0,
            consumer: Wakeup { waiting: UnparkInOrder::new(), next: 0 },
            minted: Ghost(Seq::empty()),
            served: Ghost(Seq::empty()),
        };
        proof {
            lemma_wrap32_small(0);
        }
        r
    }

    /// Mint a ticket and frame the request: the 4-byte host-order length
    /// prefix followed by the payload. A request whose length does not
    /// fit the 32-bit prefix is rejected. Fetch-adds the in-flight
    /// counter; the first in-flight request owes the worker a wakeup.
    pub fn send_request_begin(&mut self, seg: &mut RawSharedMemPipe, req: &[u8]) -> (r: Result<
        SendRequest,
        RequestTooLarge,
    >)
        requires
            old(self).wf(),
        ensures
            final(self).wf(),
            req@.len() > u32::MAX <==> r is Err,
            r is Err ==> *final(self) == *old(self) && *final(seg) == *old(seg),
            r matches Ok(s) ==> {
                &&& s.wf()
                &&& s.ticket() == wrap32(old(self).minted_tickets().len() as int)
                &&& final(self).minted_tickets() == old(self).minted_tickets().push(s.ticket())
                &&& s.frame_bytes() == request_frame(req@)
                &&& s.sent_so_far() == 0
                &&& (s.owes_wake() <==> old(seg).to_worker_waiters == 0)
                &&& final(seg).to_worker_waiters == vstd::wrapping::u32_specs::wrapping_add(
                    old(seg).to_worker_waiters,
                    1u32,
                )
                &&& final(self).served_tickets() == old(self).served_tickets()
                &&& final(self).next_to_serve() == old(self).next_to_serve()
                &&& final(self).queue() == old(self).queue()
                &&& final(seg).to_worker == old(seg).to_worker
                &&& final(seg).from_worker == old(seg).from_worker
                &&& final(seg).notify_request_written == old(seg).notify_request_written
                &&& final(seg).notify_response_written == old(seg).notify_response_written
                &&& final(seg).magic == old(seg).magic
                &&& final(seg).participants == old(seg).participants
                &&& final(seg).stats() == old(seg).stats()
            },
    {
        if req.len() > u32::MAX as usize {
            return Err(RequestTooLarge);
        }
        let might_wait = seg.to_worker_waiters == 0;
        seg.to_worker_waiters = seg.to_worker_waiters.wrapping_add(1);
        let id = self.producer;
        self.producer = self.producer.wrapping_add(1);
        proof {
            lemma_wrap32_succ(self.minted@.len() as int);
        }
        self.minted = Ghost(self.minted@.push(id));
        let mut frame = vstd::bytes::u32_to_le_bytes(req.len() as u32);
        frame.extend_from_slice(req);
        Ok(SendRequest { id, frame, sent: 0, might_wait })
    }

    /// Whether ticket `id` is the next to be served: the park-while
    /// condition of the consumer path.
    pub fn ready(&self, id: u32) -> (r: bool)
        ensures
            r <==> self.next_to_serve() == id,
    {
        self.consumer.next == id
    }

    /// Register the calling thread as the waiter for ticket `id`, at the
    /// park-queue slot given by the wrapping distance between the ticket
    /// and the next ticket to serve.
    pub fn register_waiter(&mut self, id: u32, tid: u64) -> (distance: usize)
        requires
            old(self).wf(),
            vstd::wrapping::u32_specs::wrapping_sub(id, old(self).next_to_serve())
                < PARK_QUEUE_CAP as u32,
            ((vstd::wrapping::u32_specs::wrapping_sub(id, old(self).next_to_serve()) as int) < old(
                self,
            ).queue().len()) ==> old(self).queue()[vstd::wrapping::u32_specs::wrapping_sub(
                id,
                old(self).next_to_serve(),
            ) as int] is None,
        ensures
            final(self).wf(),
            distance == vstd::wrapping::u32_specs::wrapping_sub(
                id,
                old(self).next_to_serve(),
            ) as usize,
            distance < PARK_QUEUE_CAP,
            final(self).queue()[distance as int] == Some(tid),
            final(self).queue().len() == if distance < old(self).queue().len() {
                old(self).queue().len() as int
            } else {
                distance + 1
            },
            forall|k: int|
                0 <= k < old(self).queue().len() && k != distance ==> final(self).queue()[k] == old(
                    self,
                ).queue()[k],
            final(self).minted_tickets() == old(self).minted_tickets(),
            final(self).served_tickets() == old(self).served_tickets(),
            final(self).next_to_serve() == old(self).next_to_serve(),
    {
        let distance = id.wrapping_sub(self.consumer.next) as usize;
        self.consumer.waiting.store_current(distance, tid);
        distance
    }

    /// Whether the calling thread stands at the front of the park queue.
    pub fn current_is_front(&self, tid: u64) -> (r: bool)
        ensures
            r <==> self.queue().len() > 0 && self.queue()[0] == Some(tid),
    {
        self.consumer.waiting.current_is_front(tid)
    }

    /// Once ticket `id` is next and the calling thread has been unparked,
    /// it must stand at the front of the queue; pop it and begin the
    /// receive of `expected` response bytes.
    pub fn claim_turn(&mut self, id: u32, tid: u64, expected: usize) -> (r: RecvResponse)
        requires
            old(self).next_to_serve() == id,
            old(self).queue().len() > 0,
            old(self).queue()[0] == Some(tid),
        ensures
            final(self).queue() == old(self).queue().skip(1),
            final(self).minted_tickets() == old(self).minted_tickets(),
            final(self).served_tickets() == old(self).served_tickets(),
            final(self).next_to_serve() == old(self).next_to_serve(),
            old(self).wf() ==> final(self).wf(),
            r.ticket() == id,
            r.expected_len() == expected,
            r.received() == Seq::<u8>::empty(),
            !r.waited(),
    {
        self.consumer.waiting.pop_current(tid);
        RecvResponse { id, expected, got: Vec::new(), waited: false }
    }

    /// Serve completion for ticket `id`: advance the next-to-serve
    /// counter and report which parked thread, if any, to unpark. Bumps
    /// the request statistic.
    pub fn finish_receive(&mut self, seg: &mut RawSharedMemPipe, id: u32) -> (unpark: Option<u64>)
        requires
            old(self).wf(),
            old(self).next_to_serve() == id,
            old(self).outstanding() > 0,
        ensures
            final(self).wf(),
            final(self).served_tickets() == old(self).served_tickets().push(id),
            final(self).minted_tickets() == old(self).minted_tickets(),
            final(self).next_to_serve() == vstd::wrapping::u32_specs::wrapping_add(id, 1u32),
            final(self).queue() == old(self).queue(),
            final(self).queue().len() > 0 && final(self).queue()[0] is Some ==> unpark == final(self).queue()[0],
            final(self).queue().len() == 0 || final(self).queue()[0] is None ==> unpark is None,
            final(seg).to_worker == old(seg).to_worker,
            final(seg).from_worker == old(seg).from_worker,
            final(seg).to_worker_waiters == old(seg).to_worker_waiters,
            final(seg).magic == old(seg).magic,
            final(seg).notify_request_written == old(seg).notify_request_written,
            final(seg).notify_response_written == old(seg).notify_response_written,
            final(seg).participants == old(seg).participants,
            final(seg).requests == vstd::wrapping::usize_specs::wrapping_add(
                old(seg).requests,
                1usize,
            ),
            final(seg).send_request_loops == old(seg).send_request_loops,
            final(seg).receive_request_loops == old(seg).receive_request_loops,
            final(seg).recv_loops == old(seg).recv_loops,
            final(seg).write_loops == old(seg).write_loops,
    {
        proof {
            lemma_wrap32_succ(self.served@.len() as int);
        }
        self.consumer.next = self.consumer.next.wrapping_add(1);
        self.served = Ghost(self.served@.push(id));
        seg.requests = seg.requests.wrapping_add(1);
        self.consumer.waiting.unpark_front()
    }

    /// Swap out and return the loop statistics, zeroing them: iterations
    /// spent sending requests, receiving responses, in the worker's
    /// receive path, in the worker's write path, and the completed
    /// request count.
    pub fn dump_loops(&self, seg: &mut RawSharedMemPipe) -> (r: (
        usize,
        usize,
        usize,
        usize,
        usize,
    ))
        ensures
            r.0 == old(seg).send_request_loops,
            r.1 == old(seg).receive_request_loops,
            r.2 == old(seg).recv_loops,
            r.3 == old(seg).write_loops,
            r.4 == old(seg).requests,
            final(seg).send_request_loops == 0,
            final(seg).receive_request_loops == 0,
            final(seg).recv_loops == 0,
            final(seg).write_loops == 0,
            final(seg).requests == 0,
            final(seg).to_worker == old(seg).to_worker,
            final(seg).from_worker == old(seg).from_worker,
            final(seg).to_worker_waiters == old(seg).to_worker_waiters,
            final(seg).magic == old(seg).magic,
            final(seg).notify_request_written == old(seg).notify_request_written,
            final(seg).notify_response_written == old(seg).notify_response_written,
            final(seg).participants == old(seg).participants,
    {
        let r = (
            seg.send_request_loops,
            seg.receive_request_loops,
            seg.recv_loops,
            seg.write_loops,
            seg.requests,
        );
        seg.send_request_loops = 0;
        seg.receive_request_loops = 0;
        seg.recv_loops = 0;
        seg.write_loops = 0;
        seg.requests = 0;
        r
    }

    /// Responses are delivered in exactly ticket order: the sequence of
    /// served tickets is a prefix of the sequence of minted tickets, so
    /// the caller holding the `i`-th minted ticket is the `i`-th to be
    /// served, under every interleaving of callers the driver produces.
    pub proof fn lemma_responses_in_ticket_order(&self)
        requires
            self.wf(),
        ensures
            self.served_tickets() == self.minted_tickets().take(self.served_tickets().len() as int),
            forall|i: int, j: int|
                0 <= i < j < self.served_tickets().len() && self.minted_tickets().len()
                    < TICKET_MODULUS ==> self.served_tickets()[i] != self.served_tickets()[j],
    {
        assert(self.served_tickets() =~= self.minted_tickets().take(
            self.served_tickets().len() as int,
        ));
        assert forall|i: int, j: int|
            0 <= i < j < self.served_tickets().len() && self.minted_tickets().len()
                < TICKET_MODULUS implies self.served_tickets()[i] != self.served_tickets()[j] by {
            assert(self.served_tickets()[i] == self.minted_tickets()[i]);
            assert(self.served_tickets()[j] == self.minted_tickets()[j]);
            assert(self.minted_tickets()[i] == wrap32(i));
            assert(self.minted_tickets()[j] == wrap32(j));
            vstd::arithmetic::div_mod::lemma_small_mod(i as nat, TICKET_MODULUS as nat);
            vstd::arithmetic::div_mod::lemma_small_mod(j as nat, TICKET_MODULUS as nat);
        }
    }
}

impl SharedMemPipePtr<Created> {
    /// Acquire the requester role: take the requester participant slot,
    /// record the caller's process identifier in it, and release the
    /// mutex immediately — the slot's process identifier serves as the
    /// tenancy record. Fails when another live process holds the slot;
    /// finding one's own identifier there is a re-acquisition.
    pub fn try_acquire_requester(self, seg: &mut RawSharedMemPipe, pid: u32) -> (r: Option<
        OwnedRequester,
    >)
        ensures
            old(seg).participants.requester.is_locked() ==> r is None && *final(seg) == *old(seg),
            !old(seg).participants.requester.is_locked() ==> !final(seg).participants.requester.is_locked(),
            !old(seg).participants.requester.is_locked() && (old(
                seg,
            ).participants.requester.inner() matches Some(other) && other != pid) ==> r is None
                && final(seg).participants.requester.inner() == old(
                seg,
            ).participants.requester.inner(),
            !old(seg).participants.requester.is_locked() && (old(
                seg,
            ).participants.requester.inner() is None || old(seg).participants.requester.inner()
                == Some(pid)) ==> r is Some && final(seg).participants.requester.inner() == Some(
                pid,
            ),
            r matches Some(req) ==> req.wf() && req.minted_tickets() == Seq::<u32>::empty()
                && req.served_tickets() == Seq::<u32>::empty() && req.queue() == Seq::<
                Option<u64>,
            >::empty() && req.next_to_serve() == 0,
            final(seg).participants.responder == old(seg).participants.responder,
            final(seg).to_worker == old(seg).to_worker,
            final(seg).from_worker == old(seg).from_worker,
            final(seg).to_worker_waiters == old(seg).to_worker_waiters,
            final(seg).magic == old(seg).magic,
            final(seg).notify_request_written == old(seg).notify_request_written,
            final(seg).notify_response_written == old(seg).notify_response_written,
            final(seg).stats() == old(seg).stats(),
    {
        let outcome = seg.participants.requester.try_lock(pid);
        match outcome {
            TryLockOutcome::WouldBlock => None,
            _ => {
                let current = *seg.participants.requester.value(pid);
                match current {
                    Some(other) => {
                        if other != pid {
                            seg.participants.requester.unlock(pid);
                            return None;
                        }
                    },
                    None => {},
                }
                // We cannot keep the mutex locked: nothing guarantees
                // the same thread drops this side. The slot's process
                // identifier plus a liveness check by the peer is the
                // tenancy record.
                seg.participants.requester.set_value(pid, Some(pid));
                seg.participants.requester.unlock(pid);
                Some(OwnedRequester::new())
            },
        }
    }
}

} // verus!
