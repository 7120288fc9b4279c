//! A shared-memory request/response pipe between a coordinator process
//! and a single-threaded worker, together with a cancellation-safe
//! framing layer for the Postgres wire protocol.
//!
//! The crate verifies the logic of both cores: the framing grammar and
//! its startup state machine, the SPSC byte ring with postponed
//! publication, ticket ordering across concurrent requesters, and the
//! segment lifecycle (magic word, participant slots, robust-mutex
//! recovery). The operating system pieces that carry this logic between
//! real processes (shared memory mappings, eventfds, thread parking) live
//! outside the library and drive it through the step functions exposed
//! here.

use vstd::prelude::*;

pub mod bytebuf;
pub mod codec;
pub mod framed;
pub mod requester;
pub mod responder;
pub mod ring;
pub mod shared;

use crate::ring::Ring;
use crate::shared::{EventfdSemaphore, PinnedCondvar, PinnedMutex, TryLockOutcome};
use vstd::string::StringExecFns;

verus! {

/// Magic word while the segment is still being initialized.
pub const MAGIC_INITIALIZING: u32 = 0x0000_0000;

/// Magic word once every field of the segment is initialized and the
/// layout is frozen.
pub const MAGIC_READY: u32 = 0xcafe_babe;

/// Magic word once the segment is being torn down.
pub const MAGIC_TORN_DOWN: u32 = 0xffff_ffff;

/// Capacity of the request ring, coordinator to worker.
pub const TO_WORKER_LEN: usize = 32 * 4096;

/// Capacity of the response ring, worker to coordinator.
pub const FROM_WORKER_LEN: usize = 4 * 4096;

/// How many times a joiner polls the magic word, at roughly a
/// millisecond apart, before giving up.
pub const JOIN_POLL_ATTEMPTS: u32 = 1000;

/// Whether the requester sleeps on the response eventfd while waiting
/// for the response written by the worker.
pub const USE_EVENTFD_ON_RESPONSE: bool = true;

/// The two participant slots: each is a robust mutex guarding an
/// optional process identifier. The requester slot belongs to the
/// coordinator, the responder slot to the worker.
pub struct Participants {
    pub requester: PinnedMutex<Option<u32>>,
    pub responder: PinnedMutex<Option<u32>>,
}

/// Input/output over a shared memory "pipe". In the mapped region this
/// struct has a stable field order so independent rebuilds of either
/// side observe the same offsets; here it is the verified model of that
/// region's state.
pub struct RawSharedMemPipe {
    /// The lifecycle word: initializing, ready, or torn down.
    pub magic: u32,
    /// Semaphore-mode eventfd used to wake the request reader.
    pub notify_request_written: EventfdSemaphore,
    /// Semaphore-mode eventfd used to wake the response reader.
    pub notify_response_written: EventfdSemaphore,
    /// Statistics: completed requests.
    pub requests: usize,
    /// Statistics: loop iterations spent sending requests.
    pub send_request_loops: usize,
    /// Statistics: loop iterations spent receiving responses.
    pub receive_request_loops: usize,
    /// Statistics: loop iterations spent in the worker's receive path.
    pub recv_loops: usize,
    /// Statistics: loop iterations spent in the worker's write path.
    pub write_loops: usize,
    /// The processes participating in this pipe.
    pub participants: Participants,
    /// Number of in-flight requests currently pushing to the request
    /// ring; a wake hint for the worker.
    pub to_worker_waiters: u32,
    /// Writer mutex of the request path; reserved for future expansion.
    pub to_worker_writer: PinnedMutex<()>,
    /// Condition variable of the request path; reserved for future
    /// expansion.
    pub to_worker_cond: PinnedCondvar,
    /// Writer mutex of the response path; reserved for future expansion.
    pub from_worker_writer: PinnedMutex<()>,
    /// Condition variable of the response path; reserved for future
    /// expansion.
    pub from_worker_cond: PinnedCondvar,
    /// Request path: SPSC byte ring, coordinator to worker.
    pub to_worker: Ring,
    /// Response path: SPSC byte ring, worker to coordinator.
    pub from_worker: Ring,
}

impl RawSharedMemPipe {
    /// Everything a ready segment promises its users: both rings are
    /// well-formed at their fixed capacities. The mutexes and eventfds
    /// are values of their model types and are usable as such.
    pub open spec fn usable(self) -> bool {
        &&& self.to_worker.wf()
        &&& self.to_worker.cap() == TO_WORKER_LEN
        &&& self.from_worker.wf()
        &&& self.from_worker.cap() == FROM_WORKER_LEN
    }

    /// The segment invariant: a magic word observed as ready implies
    /// the layout is frozen and every field is usable.
    pub open spec fn inv(self) -> bool {
        self.magic == MAGIC_READY ==> self.usable()
    }

    /// The five statistics counters as one value, for stating that an
    /// operation leaves the diagnostics untouched: completed requests,
    /// then the four loop counters.
    pub open spec fn stats(self) -> (usize, usize, usize, usize, usize) {
        (
            self.requests,
            self.send_request_loops,
            self.receive_request_loops,
            self.recv_loops,
            self.write_loops,
        )
    }

    /// Initialize a segment in place: every field is constructed before
    /// the magic word is published as ready.
    pub fn new() -> (r: RawSharedMemPipe)
        ensures
            r.magic == MAGIC_READY,
            r.usable(),
            r.inv(),
            r.to_worker.pending() == Seq::<u8>::empty(),
            r.to_worker.staged_bytes() == Seq::<u8>::empty(),
            r.from_worker.pending() == Seq::<u8>::empty(),
            r.from_worker.staged_bytes() == Seq::<u8>::empty(),
            r.to_worker_waiters == 0,
            r.stats() == (0usize, 0usize, 0usize, 0usize, 0usize),
            r.notify_request_written.level() == 0,
            r.notify_response_written.level() == 0,
            !r.participants.requester.is_locked(),
            r.participants.requester.inner() == Option::<u32>::None,
            !r.participants.requester.owner_died(),
            !r.participants.responder.is_locked(),
            r.participants.responder.inner() == Option::<u32>::None,
            !r.participants.responder.owner_died(),
    {
        let mut seg = RawSharedMemPipe {
            magic: MAGIC_INITIALIZING,
            notify_request_written: EventfdSemaphore::new(),
            notify_response_written: EventfdSemaphore::new(),
            requests: 0,
            send_request_loops: 0,
            receive_request_loops: 0,
            recv_loops: 0,
            write_loops: 0,
            participants: Participants {
                requester: PinnedMutex::new(None),
                responder: PinnedMutex::new(None),
            },
            to_worker_waiters: 0,
            to_worker_writer: PinnedMutex::new(()),
            to_worker_cond: PinnedCondvar::new(),
            from_worker_writer: PinnedMutex::new(()),
            from_worker_cond: PinnedCondvar::new(),
            to_worker: Ring::new(TO_WORKER_LEN),
            from_worker: Ring::new(FROM_WORKER_LEN),
        };
        // Every field is initialized: publish the magic word.
        seg.magic = MAGIC_READY;
        seg
    }
}

/// A magic word observed as ready implies every field of the segment is
/// usable: the rings are well-formed at their fixed capacities, and the
/// mutexes and eventfds are initialized values of their types. The
/// constructor establishes the invariant by publishing the ready word
/// only after every field is built, and every operation on the segment
/// preserves both the magic word and usability.
pub proof fn lemma_ready_segment_is_usable(seg: RawSharedMemPipe)
    requires
        seg.inv(),
        seg.magic == MAGIC_READY,
    ensures
        seg.usable(),
{
}

/// Type state for a mapped but not yet validated segment.
pub struct MMapped;

/// Type state for a segment handle obtained with [`create`].
pub struct Created;

/// Type state for a segment handle obtained with [`open_existing`].
pub struct Joined;

/// A typed handle to the segment. The stage records how the handle was
/// obtained and thereby which participant role it may acquire.
pub struct SharedMemPipePtr<Stage> {
    _stage: core::marker::PhantomData<Stage>,
}

impl SharedMemPipePtr<MMapped> {
    /// A handle over a freshly mapped region, not yet validated.
    pub fn post_mmap() -> (r: SharedMemPipePtr<MMapped>) {
        SharedMemPipePtr { _stage: core::marker::PhantomData }
    }

    /// Promote the handle once initialization or validation finished.
    pub fn post_initialization<T>(self) -> (r: SharedMemPipePtr<T>) {
        SharedMemPipePtr { _stage: core::marker::PhantomData }
    }
}

/// The lowercase hexadecimal digit character for a value below sixteen.
pub open spec fn spec_hex_digit(d: u32) -> char {
    if d == 0 {
        '0'
    } else if d == 1 {
        '1'
    } else if d == 2 {
        '2'
    } else if d == 3 {
        '3'
    } else if d == 4 {
        '4'
    } else if d == 5 {
        '5'
    } else if d == 6 {
        '6'
    } else if d == 7 {
        '7'
    } else if d == 8 {
        '8'
    } else if d == 9 {
        '9'
    } else if d == 10 {
        'a'
    } else if d == 11 {
        'b'
    } else if d == 12 {
        'c'
    } else if d == 13 {
        'd'
    } else if d == 14 {
        'e'
    } else {
        'f'
    }
}

/// The eight lowercase hexadecimal digits of a 32-bit value, most
/// significant first.
pub open spec fn spec_u32_hex(x: u32) -> Seq<char> {
    seq![
        spec_hex_digit((x >> 28u32) & 0xfu32),
        spec_hex_digit((x >> 24u32) & 0xfu32),
        spec_hex_digit((x >> 20u32) & 0xfu32),
        spec_hex_digit((x >> 16u32) & 0xfu32),
        spec_hex_digit((x >> 12u32) & 0xfu32),
        spec_hex_digit((x >> 8u32) & 0xfu32),
        spec_hex_digit((x >> 4u32) & 0xfu32),
        spec_hex_digit(x & 0xfu32),
    ]
}

/// Append the hexadecimal digit character for `d` to `out`.
fn push_hex_digit(out: &mut String, d: u32)
    requires
        d < 16,
    ensures
        final(out)@ == old(out)@ + seq![spec_hex_digit(d)],
{
    proof {
        reveal_strlit("0");
        reveal_strlit("1");
        reveal_strlit("2");
        reveal_strlit("3");
        reveal_strlit("4");
        reveal_strlit("5");
        reveal_strlit("6");
        reveal_strlit("7");
        reveal_strlit("8");
        reveal_strlit("9");
        reveal_strlit("a");
        reveal_strlit("b");
        reveal_strlit("c");
        reveal_strlit("d");
        reveal_strlit("e");
        reveal_strlit("f");
    }
    let digit = if d == 0 {
        "0"
    } else if d == 1 {
        "1"
    } else if d == 2 {
        "2"
    } else if d == 3 {
        "3"
    } else if d == 4 {
        "4"
    } else if d == 5 {
        "5"
    } else if d == 6 {
        "6"
    } else if d == 7 {
        "7"
    } else if d == 8 {
        "8"
    } else if d == 9 {
        "9"
    } else if d == 10 {
        "a"
    } else if d == 11 {
        "b"
    } else if d == 12 {
        "c"
    } else if d == 13 {
        "d"
    } else if d == 14 {
        "e"
    } else {
        "f"
    };
    assert(digit@ =~= seq![spec_hex_digit(d)]);
    out.append(digit);
}

/// Render a 32-bit value as its eight lowercase hexadecimal digits.
fn u32_hex_string(x: u32) -> (r: String)
    ensures
        r@ == spec_u32_hex(x),
{
    let mut out = String::new();
    let mut shift: u32 = 32;
    while shift > 0
        invariant
            shift <= 32,
            shift % 4 == 0,
            out@ == spec_u32_hex(x).take(((32 - shift) / 4) as int),
        decreases shift,
    {
        shift = shift - 4;
        let d = (x >> shift) & 0xf;
        proof {
            assert((x >> shift) & 0xfu32 < 16u32) by (bit_vector);
        }
        push_hex_digit(&mut out, d);
        proof {
            let done = ((32 - shift) / 4) as int;
            assert(spec_u32_hex(x)[done - 1] == spec_hex_digit((x >> shift) & 0xfu32)) by {
                if shift == 28 {
                } else if shift == 24 {
                } else if shift == 20 {
                } else if shift == 16 {
                } else if shift == 12 {
                } else if shift == 8 {
                } else if shift == 4 {
                } else {
                    assert(shift == 0) by (bit_vector)
                        requires
                            shift < 32u32 && shift % 4 == 0 && shift != 28 && shift != 24 && shift
                                != 20 && shift != 16 && shift != 12 && shift != 8 && shift != 4,
                    ;
                    assert(x >> 0u32 == x) by (bit_vector);
                }
            }
            assert(out@ =~= spec_u32_hex(x).take(done));
        }
    }
    proof {
        assert(spec_u32_hex(x).take(8) =~= spec_u32_hex(x));
    }
    out
}

/// Errors when joining a segment created by another process.
#[derive(Debug, Clone, PartialEq, Eq)]
pub enum JoinError {
    /// The magic word held a value other than initializing or ready.
    UnknownMagic { value: u32 },
    /// The creator did not publish the ready magic within the poll
    /// budget.
    InitTimeout,
}

impl JoinError {
    /// The text [`JoinError::message`] returns: an unknown magic is
    /// reported with the observed value in the message.
    pub open spec fn spec_message(self) -> Seq<char> {
        match self {
            JoinError::UnknownMagic { value } => {
                "shared memory area has unknown magic: 0x"@ + spec_u32_hex(value)
            },
            JoinError::InitTimeout => {
                "shared memory area did not complete initialization before timeout"@
            },
        }
    }

    /// A human-readable description of the failure.
    pub fn message(&self) -> (r: String)
        ensures
            r@ == self.spec_message(),
    {
        match self {
            JoinError::UnknownMagic { value } => {
                let mut m = String::new();
                m.append("shared memory area has unknown magic: 0x");
                m.append(u32_hex_string(*value).as_str());
                proof {
                    assert(Seq::<char>::empty() + "shared memory area has unknown magic: 0x"@
                        =~= "shared memory area has unknown magic: 0x"@);
                }
                m
            },
            JoinError::InitTimeout => {
                let mut m = String::new();
                m.append("shared memory area did not complete initialization before timeout");
                proof {
                    assert(Seq::<char>::empty()
                        + "shared memory area did not complete initialization before timeout"@
                        =~= "shared memory area did not complete initialization before timeout"@);
                }
                m
            },
        }
    }
}

/// One step of the joiner's poll over the magic word.
#[derive(Debug, Clone, PartialEq, Eq)]
pub enum JoinStep {
    /// The segment is ready; proceed.
    Ready,
    /// The segment is still initializing; sleep a millisecond and poll
    /// again.
    KeepWaiting,
    /// Give up with the given error.
    Failed(JoinError),
}

/// The joiner's poll loop over the magic word, with its attempt budget.
/// The driver reads the magic, hands each observation to [`JoinPoll::observe`]
/// and performs the sleep between polls.
pub struct JoinPoll {
    attempts_left: u32,
}

impl JoinPoll {
    /// Attempts that remain before the joiner gives up.
    pub closed spec fn budget(self) -> u32 {
        self.attempts_left
    }

    pub fn new() -> (r: JoinPoll)
        ensures
            r.budget() == JOIN_POLL_ATTEMPTS,
    {
        JoinPoll { attempts_left: JOIN_POLL_ATTEMPTS }
    }

    /// Judge one observation of the magic word: ready proceeds, an
    /// initializing value waits while budget remains and times out
    /// otherwise, and any other value fails at once with that value in
    /// the error.
    pub fn observe(&mut self, magic: u32) -> (r: JoinStep)
        ensures
            magic == MAGIC_READY ==> r == JoinStep::Ready,
            magic == MAGIC_INITIALIZING && old(self).budget() > 0 ==> r == JoinStep::KeepWaiting
                && final(self).budget() == old(self).budget() - 1,
            magic == MAGIC_INITIALIZING && old(self).budget() == 0 ==> r == JoinStep::Failed(
                JoinError::InitTimeout,
            ),
            magic != MAGIC_READY && magic != MAGIC_INITIALIZING ==> (r == JoinStep::Failed(
                JoinError::UnknownMagic { value: magic },
            )),
            magic != MAGIC_INITIALIZING ==> final(self).budget() == old(self).budget(),
    {
        if magic == MAGIC_READY {
            JoinStep::Ready
        } else if magic == MAGIC_INITIALIZING {
            if self.attempts_left > 0 {
                self.attempts_left = self.attempts_left - 1;
                JoinStep::KeepWaiting
            } else {
                JoinStep::Failed(JoinError::InitTimeout)
            }
        } else {
            JoinStep::Failed(JoinError::UnknownMagic { value: magic })
        }
    }
}

/// Create the pipe: the segment with every field initialized and the
/// ready magic published, and the creator's handle to it.
pub fn create() -> (r: (RawSharedMemPipe, SharedMemPipePtr<Created>))
    ensures
        r.0.magic == MAGIC_READY,
        r.0.usable(),
        r.0.inv(),
        r.0.to_worker.pending() == Seq::<u8>::empty(),
        r.0.to_worker.staged_bytes() == Seq::<u8>::empty(),
        r.0.from_worker.pending() == Seq::<u8>::empty(),
        r.0.from_worker.staged_bytes() == Seq::<u8>::empty(),
        r.0.to_worker_waiters == 0,
        r.0.stats() == (0usize, 0usize, 0usize, 0usize, 0usize),
        r.0.notify_request_written.level() == 0,
        r.0.notify_response_written.level() == 0,
        !r.0.participants.requester.is_locked(),
        r.0.participants.requester.inner() == Option::<u32>::None,
        !r.0.participants.responder.is_locked(),
        r.0.participants.responder.inner() == Option::<u32>::None,
{
    let seg = RawSharedMemPipe::new();
    let ptr = SharedMemPipePtr::post_mmap();
    (seg, ptr.post_initialization())
}

/// Join a segment created elsewhere: validate the magic word and return
/// the joiner's handle. A segment still initializing cannot become ready
/// within this call, so the poll budget collapses to a timeout; a driver
/// that can sleep between polls uses [`JoinPoll`] instead.
pub fn open_existing(seg: &RawSharedMemPipe) -> (r: Result<SharedMemPipePtr<Joined>, JoinError>)
    ensures
        seg.magic == MAGIC_READY <==> r is Ok,
        seg.magic == MAGIC_INITIALIZING ==> r == Result::<
            SharedMemPipePtr<Joined>,
            JoinError,
        >::Err(JoinError::InitTimeout),
        seg.magic != MAGIC_READY && seg.magic != MAGIC_INITIALIZING ==> r == Result::<
            SharedMemPipePtr<Joined>,
            JoinError,
        >::Err(JoinError::UnknownMagic { value: seg.magic }),
{
    if seg.magic == MAGIC_READY {
        let ptr = SharedMemPipePtr::post_mmap();
        Ok(ptr.post_initialization())
    } else if seg.magic == MAGIC_INITIALIZING {
        Err(JoinError::InitTimeout)
    } else {
        Err(JoinError::UnknownMagic { value: seg.magic })
    }
}

/// Tear the segment down, as the drop of the last handle would: only
/// when both participant slots can be locked (a dead holder counts as
/// lockable) is the torn-down magic published; otherwise nothing
/// changes but possibly the consumed owner-died marks.
pub fn teardown(seg: &mut RawSharedMemPipe, pid: u32) -> (r: bool)
    ensures
        r <==> !old(seg).participants.requester.is_locked()
            && !old(seg).participants.responder.is_locked(),
        r ==> final(seg).magic == MAGIC_TORN_DOWN,
        !r ==> final(seg).magic == old(seg).magic,
        !final(seg).participants.requester.is_locked() == !old(
            seg,
        ).participants.requester.is_locked(),
        !final(seg).participants.responder.is_locked() == !old(
            seg,
        ).participants.responder.is_locked(),
        final(seg).participants.requester.inner() == old(seg).participants.requester.inner(),
        final(seg).participants.responder.inner() == old(seg).participants.responder.inner(),
        final(seg).to_worker == old(seg).to_worker,
        final(seg).from_worker == old(seg).from_worker,
        final(seg).to_worker_waiters == old(seg).to_worker_waiters,
        final(seg).notify_request_written == old(seg).notify_request_written,
        final(seg).notify_response_written == old(seg).notify_response_written,
        final(seg).stats() == old(seg).stats(),
{
    let first = seg.participants.requester.try_lock(pid);
    match first {
        TryLockOutcome::WouldBlock => false,
        _ => {
            let second = seg.participants.responder.try_lock(pid);
            match second {
                TryLockOutcome::WouldBlock => {
                    seg.participants.requester.unlock(pid);
                    false
                },
                _ => {
                    seg.magic = MAGIC_TORN_DOWN;
                    seg.participants.responder.unlock(pid);
                    seg.participants.requester.unlock(pid);
                    true
                },
            }
        },
    }
}

/// Whether a byte is an ASCII hexadecimal digit.
pub open spec fn spec_is_hex_digit(c: u8) -> bool {
    (48 <= c <= 57) || (97 <= c <= 102) || (65 <= c <= 70)
}

/// The shared-memory object path prefix for the WAL-redo pipe.
pub open spec fn walredo_path_prefix() -> Seq<u8> {
    seq![47u8, 119u8, 97u8, 108u8, 114u8, 101u8, 100u8, 111u8, 45u8]
}

/// Build the shared-memory object path for a tenant: `/walredo-` followed
/// by the tenant identifier, which must be exactly 32 hexadecimal
/// characters. The terminating NUL that the C side appends is not part of
/// the path.
pub fn walredo_shm_path(tenant: &[u8]) -> (r: Option<Vec<u8>>)
    ensures
        r is Some <==> tenant@.len() == 32 && (forall|i: int|
            0 <= i < 32 ==> spec_is_hex_digit(tenant@[i])),
        r matches Some(p) ==> p@ == walredo_path_prefix() + tenant@ && p@.len() == 41,
{
    if tenant.len() != 32 {
        return None;
    }
    let mut i: usize = 0;
    while i < 32
        invariant
            i <= 32,
            tenant@.len() == 32,
            forall|k: int| 0 <= k < i ==> spec_is_hex_digit(tenant@[k]),
        decreases 32 - i,
    {
        let c = tenant[i];
        let is_hex = (c >= 48 && c <= 57) || (c >= 97 && c <= 102) || (c >= 65 && c <= 70);
        if !is_hex {
            return None;
        }
        i = i + 1;
    }
    let mut path: Vec<u8> = Vec::new();
    path.push(47u8);
    path.push(119u8);
    path.push(97u8);
    path.push(108u8);
    path.push(114u8);
    path.push(101u8);
    path.push(100u8);
    path.push(111u8);
    path.push(45u8);
    assert(path@ =~= walredo_path_prefix());
    let mut j: usize = 0;
    while j < 32
        invariant
            j <= 32,
            tenant@.len() == 32,
            path@ == walredo_path_prefix() + tenant@.take(j as int),
        decreases 32 - j,
    {
        path.push(tenant[j]);
        assert(path@ =~= walredo_path_prefix() + tenant@.take(j + 1));
        j = j + 1;
    }
    proof {
        assert(tenant@.take(32) =~= tenant@);
    }
    Some(path)
}

} // verus!
