//! Buffered, cancellation-safe framing of Postgres messages.
//!
//! A [`Framed`] owns two growable byte buffers and the startup flag of the
//! frame state machine. The byte stream itself is owned by the driver
//! around the library: the driver appends whatever it read from the stream
//! with [`Framed::feed`], asks [`Framed::decode`] for the next message,
//! and drains [`Framed::write_pending`] towards the stream, acknowledging
//! progress with [`Framed::note_written`]. Because every buffer mutation
//! happens in these small steps, dropping a suspended read or flush leaves
//! the buffers describing exactly the work that remains.

use vstd::prelude::*;

use vstd::string::StringExecFns;

use crate::bytebuf::{
    byte_buf_advance, byte_buf_bytes, byte_buf_extend, byte_buf_with_capacity, bytes_mut_view,
};
use crate::codec::{
    parse_startup_packet, parse_typed_message, startup_code, startup_frame_ready, startup_len,
    startup_len_valid, startup_need_more, startup_rest, typed_body, typed_frame_ready, typed_len,
    typed_len_valid, typed_need_more, typed_tag, version_major, BeMessage, FeMessage,
    FeStartupPacket, ProtocolError, CANCEL_REQUEST_CODE, SSL_REQUEST_CODE,
    SUPPORTED_MAJOR_VERSION,
};

verus! {

/// Initial capacity of each buffer; an allocation hint only.
pub const INITIAL_CAPACITY: usize = 8 * 1024;

/// The kind of a transport failure surfaced by the framing layer.
#[derive(Debug, Clone, Copy, PartialEq, Eq)]
pub enum IoKind {
    /// The stream ended in the middle of a frame.
    UnexpectedEof,
    /// The stream accepted zero bytes while the write buffer still held
    /// some.
    WriteZero,
    /// Any other transport failure.
    Other,
}

/// A transport failure: a kind and a human-readable message.
#[derive(Debug, Clone, PartialEq, Eq)]
pub struct IoFailure {
    pub kind: IoKind,
    pub message: String,
}

/// Error on a postgres connection: either a transport failure or a
/// protocol violation.
#[derive(Debug, Clone, PartialEq, Eq)]
pub enum ConnectionError {
    Io(IoFailure),
    Protocol(ProtocolError),
}

impl ConnectionError {
    /// Collapse the error into a transport failure, for callers that only
    /// accept those: a transport failure passes through unchanged and a
    /// protocol violation becomes a failure of the `Other` kind carrying
    /// the violation's message.
    pub fn into_io_error(self) -> (r: IoFailure)
        ensures
            self matches ConnectionError::Io(e) ==> r == e,
            self matches ConnectionError::Protocol(pe) ==> r.kind == IoKind::Other && r.message@
                == pe.spec_message(),
    {
        match self {
            ConnectionError::Io(e) => e,
            ConnectionError::Protocol(pe) => IoFailure { kind: IoKind::Other, message: pe.message() },
        }
    }
}

/// The transition one decode step makes on the read buffer and the
/// startup flag, and the result it must return for them. Stated once and
/// shared by [`Framed`] and [`FramedReader`].
pub open spec fn decode_transition(
    pre_buf: Seq<u8>,
    pre_startup: bool,
    post_buf: Seq<u8>,
    post_startup: bool,
    r: Result<Option<FeMessage>, ProtocolError>,
) -> bool {
    &&& (r is Ok && r->Ok_0 is None ==> post_buf == pre_buf && post_startup == pre_startup)
    &&& (r is Err ==> post_buf == pre_buf && post_startup == pre_startup)
    &&& (!pre_startup ==> {
        &&& (r is Ok && r->Ok_0 is None <==> startup_need_more(pre_buf))
        &&& (r matches Ok(Some(m)) ==> startup_frame_ready(pre_buf) && post_buf == pre_buf.skip(
            startup_len(pre_buf),
        ) && m is StartupPacket)
        &&& (r matches Ok(Some(FeMessage::StartupPacket(p))) ==> (post_startup <==> p
            is StartupMessage))
        &&& (pre_buf.len() >= 4 && !startup_len_valid(pre_buf) <==> (r matches Err(
            ProtocolError::BadStartupLength { length },
        ) && length as int == startup_len(pre_buf)))
        &&& (startup_frame_ready(pre_buf) && startup_code(pre_buf) == SSL_REQUEST_CODE <==> (
        r matches Ok(Some(m)) && m == FeMessage::StartupPacket(FeStartupPacket::SslRequest)))
        &&& (startup_frame_ready(pre_buf) && startup_code(pre_buf) == CANCEL_REQUEST_CODE <==> (
        r matches Ok(Some(m)) && m == FeMessage::StartupPacket(FeStartupPacket::CancelRequest)))
        &&& (startup_frame_ready(pre_buf) && startup_code(pre_buf) != SSL_REQUEST_CODE
            && startup_code(pre_buf) != CANCEL_REQUEST_CODE && version_major(startup_code(pre_buf))
            == SUPPORTED_MAJOR_VERSION <==> (r matches Ok(Some(FeMessage::StartupPacket(p))) && p
            is StartupMessage))
        &&& (r matches Ok(Some(FeMessage::StartupPacket(FeStartupPacket::StartupMessage {
            version,
            params,
        }))) ==> version == startup_code(pre_buf) && params@ == startup_rest(pre_buf))
        &&& (startup_frame_ready(pre_buf) && startup_code(pre_buf) != SSL_REQUEST_CODE
            && startup_code(pre_buf) != CANCEL_REQUEST_CODE && version_major(startup_code(pre_buf))
            != SUPPORTED_MAJOR_VERSION <==> (r matches Err(ProtocolError::UnsupportedVersion {
            version,
        }) && version == startup_code(pre_buf)))
    })
    &&& (pre_startup ==> {
        &&& post_startup == true
        &&& (r is Ok && r->Ok_0 is None <==> typed_need_more(pre_buf))
        &&& (typed_frame_ready(pre_buf) <==> r is Ok && r->Ok_0 is Some)
        &&& (r matches Ok(Some(m)) ==> typed_frame_ready(pre_buf) && post_buf == pre_buf.skip(
            1 + typed_len(pre_buf),
        ) && m is Typed)
        &&& (r matches Ok(Some(FeMessage::Typed { tag, body })) ==> tag == typed_tag(pre_buf)
            && body@ == typed_body(pre_buf))
        &&& (pre_buf.len() >= 5 && !typed_len_valid(pre_buf) <==> (r matches Err(
            ProtocolError::BadTypedLength { length },
        ) && length as int == typed_len(pre_buf)))
    })
}

/// One decode step over a read buffer and the startup flag.
///
/// Before the first startup message has been decoded, the startup grammar
/// is applied; afterwards only the typed grammar is. Exactly one whole
/// frame is consumed on success, and nothing is consumed otherwise. The
/// flag advances to true precisely when a startup message proper is
/// decoded; it never returns to false.
fn decode(read_buf: &mut bytes::BytesMut, startup_read: &mut bool) -> (r: Result<
    Option<FeMessage>,
    ProtocolError,
>)
    ensures
        decode_transition(
            bytes_mut_view(*old(read_buf)),
            *old(startup_read),
            bytes_mut_view(*final(read_buf)),
            *final(startup_read),
            r,
        ),
        *old(startup_read) ==> *final(startup_read),
        !*final(startup_read) ==> !(r matches Ok(Some(FeMessage::StartupPacket(
            FeStartupPacket::StartupMessage { version: v, params: ps },
        )))),
{
    if !*startup_read {
        let parsed = {
            let s = byte_buf_bytes(read_buf);
            parse_startup_packet(s)
        };
        match parsed {
            Ok(Some((packet, consumed))) => {
                byte_buf_advance(read_buf, consumed);
                if let FeStartupPacket::StartupMessage { version: _, params: _ } = &packet {
                    *startup_read = true;
                }
                Ok(Some(FeMessage::StartupPacket(packet)))
            },
            Ok(None) => Ok(None),
            Err(e) => Err(e),
        }
    } else {
        let parsed = {
            let s = byte_buf_bytes(read_buf);
            parse_typed_message(s)
        };
        match parsed {
            Ok(Some((msg, consumed))) => {
                byte_buf_advance(read_buf, consumed);
                Ok(Some(msg))
            },
            Ok(None) => Ok(None),
            Err(e) => Err(e),
        }
    }
}

/// The decision taken when the stream reports end of input: data stranded
/// in the read buffer means a frame was cut short, while an empty buffer
/// is a clean end of the message stream.
fn on_read_closed(read_buf: &bytes::BytesMut) -> (r: Result<Option<FeMessage>, ConnectionError>)
    ensures
        bytes_mut_view(*read_buf).len() > 0 <==> (r matches Err(ConnectionError::Io(e)) && e.kind
            == IoKind::UnexpectedEof && e.message@ == "EOF with unprocessed data in the buffer"@),
        bytes_mut_view(*read_buf).len() == 0 <==> r == Result::<
            Option<FeMessage>,
            ConnectionError,
        >::Ok(None),
{
    let s = byte_buf_bytes(read_buf);
    if s.len() > 0 {
        let mut m = String::new();
        m.append("EOF with unprocessed data in the buffer");
        proof {
            assert(Seq::<char>::empty() + "EOF with unprocessed data in the buffer"@
                =~= "EOF with unprocessed data in the buffer"@);
        }
        Err(ConnectionError::Io(IoFailure { kind: IoKind::UnexpectedEof, message: m }))
    } else {
        Ok(None)
    }
}

/// The decision taken when the stream accepted zero bytes during a flush
/// while bytes remained to be written.
fn on_write_zero() -> (r: IoFailure)
    ensures
        r.kind == IoKind::WriteZero,
        r.message@ == "failed to write message"@,
{
    let mut m = String::new();
    m.append("failed to write message");
    proof {
        assert(Seq::<char>::empty() + "failed to write message"@ =~= "failed to write message"@);
    }
    IoFailure { kind: IoKind::WriteZero, message: m }
}

/// Messages to write/flush and read over buffered byte streams.
///
/// Two ghost histories follow the write side across its whole lifetime:
/// the concatenation of every encoded message submitted, and the
/// concatenation of every byte the stream has accepted. The invariant
/// [`Framed::flush_consistent`] ties them to the write buffer, so the
/// delivered bytes are always exactly a prefix of the submitted
/// messages, no matter how many flushes were cancelled in between.
pub struct Framed {
    read_buf: bytes::BytesMut,
    write_buf: bytes::BytesMut,
    // Have we already decoded the startup message? All further frames
    // start with a message type byte then.
    startup_read: bool,
    submitted: Ghost<Seq<u8>>,
    delivered: Ghost<Seq<u8>>,
}

impl Framed {
    /// The raw bytes received but not yet parsed.
    pub closed spec fn read_bytes(self) -> Seq<u8> {
        bytes_mut_view(self.read_buf)
    }

    /// The encoded messages produced but not yet transmitted.
    pub closed spec fn write_bytes(self) -> Seq<u8> {
        bytes_mut_view(self.write_buf)
    }

    /// Whether the first startup message has been decoded.
    pub closed spec fn startup_done(self) -> bool {
        self.startup_read
    }

    /// The concatenation of every encoded message submitted so far, in
    /// submission order.
    pub closed spec fn submitted_bytes(self) -> Seq<u8> {
        self.submitted@
    }

    /// The concatenation of every byte the stream has accepted so far.
    pub closed spec fn delivered_bytes(self) -> Seq<u8> {
        self.delivered@
    }

    /// The write-side history invariant: what was delivered, followed by
    /// what is still buffered, is exactly what was submitted. It holds
    /// from construction on and every operation preserves it, so a
    /// cancelled flush can never lose, duplicate or reorder a byte.
    pub open spec fn flush_consistent(self) -> bool {
        self.delivered_bytes() + self.write_bytes() == self.submitted_bytes()
    }

    pub fn new() -> (r: Framed)
        ensures
            r.read_bytes() == Seq::<u8>::empty(),
            r.write_bytes() == Seq::<u8>::empty(),
            !r.startup_done(),
            r.submitted_bytes() == Seq::<u8>::empty(),
            r.delivered_bytes() == Seq::<u8>::empty(),
            r.flush_consistent(),
    {
        let r = Framed {
            read_buf: byte_buf_with_capacity(INITIAL_CAPACITY),
            write_buf: byte_buf_with_capacity(INITIAL_CAPACITY),
            startup_read: false,
            submitted: Ghost(Seq::empty()),
            delivered: Ghost(Seq::empty()),
        };
        proof {
            assert(r.delivered_bytes() + r.write_bytes() =~= r.submitted_bytes());
        }
        r
    }

    /// Append bytes read from the stream to the read buffer.
    pub fn feed(&mut self, chunk: &[u8])
        ensures
            final(self).read_bytes() == old(self).read_bytes() + chunk@,
            final(self).write_bytes() == old(self).write_bytes(),
            final(self).startup_done() == old(self).startup_done(),
            final(self).submitted_bytes() == old(self).submitted_bytes(),
            final(self).delivered_bytes() == old(self).delivered_bytes(),
    {
        byte_buf_extend(&mut self.read_buf, chunk);
    }

    /// Try to decode a single message out of the read buffer.
    pub fn decode(&mut self) -> (r: Result<Option<FeMessage>, ProtocolError>)
        ensures
            decode_transition(
                old(self).read_bytes(),
                old(self).startup_done(),
                final(self).read_bytes(),
                final(self).startup_done(),
                r,
            ),
            old(self).startup_done() ==> final(self).startup_done(),
            final(self).write_bytes() == old(self).write_bytes(),
            final(self).submitted_bytes() == old(self).submitted_bytes(),
            final(self).delivered_bytes() == old(self).delivered_bytes(),
    {
        decode(&mut self.read_buf, &mut self.startup_read)
    }

    /// The decision taken when the stream reports end of input.
    pub fn on_read_closed(&self) -> (r: Result<Option<FeMessage>, ConnectionError>)
        ensures
            self.read_bytes().len() > 0 <==> (r matches Err(ConnectionError::Io(e)) && e.kind
                == IoKind::UnexpectedEof && e.message@
                == "EOF with unprocessed data in the buffer"@),
            self.read_bytes().len() == 0 <==> r == Result::<
                Option<FeMessage>,
                ConnectionError,
            >::Ok(None),
    {
        on_read_closed(&self.read_buf)
    }

    /// Write the next message to the output buffer; doesn't flush.
    pub fn write_message(&mut self, msg: &BeMessage) -> (r: Result<(), ProtocolError>)
        ensures
            msg.body@.len() + 4 <= u32::MAX <==> r is Ok,
            r is Ok ==> final(self).write_bytes() == old(self).write_bytes()
                + crate::codec::be_message_bytes(msg.tag, msg.body@) && final(self).submitted_bytes() == old(self).submitted_bytes() + crate::codec::be_message_bytes(
                msg.tag,
                msg.body@,
            ),
            r is Err ==> final(self).write_bytes() == old(self).write_bytes() && final(self).submitted_bytes() == old(self).submitted_bytes(),
            final(self).read_bytes() == old(self).read_bytes(),
            final(self).startup_done() == old(self).startup_done(),
            final(self).delivered_bytes() == old(self).delivered_bytes(),
            old(self).flush_consistent() ==> final(self).flush_consistent(),
    {
        let mut encoded: Vec<u8> = Vec::new();
        match msg.write(&mut encoded) {
            Ok(()) => {
                byte_buf_extend(&mut self.write_buf, encoded.as_slice());
                self.submitted = Ghost(self.submitted@ + encoded@);
                proof {
                    if old(self).flush_consistent() {
                        assert(final(self).delivered_bytes() + final(self).write_bytes()
                            =~= final(self).submitted_bytes());
                    }
                }
                Ok(())
            },
            Err(e) => Err(e),
        }
    }

    /// The bytes that remain to be flushed to the stream, in order.
    pub fn write_pending<'a>(&'a self) -> (r: &'a [u8])
        ensures
            r@ == self.write_bytes(),
    {
        byte_buf_bytes(&self.write_buf)
    }

    /// Record that the stream accepted the first `n` pending bytes. After
    /// a cancelled flush the buffer therefore holds exactly the bytes not
    /// yet transmitted, and a later flush resumes correctly.
    pub fn note_written(&mut self, n: usize)
        requires
            n <= old(self).write_bytes().len(),
        ensures
            final(self).write_bytes() == old(self).write_bytes().skip(n as int),
            final(self).read_bytes() == old(self).read_bytes(),
            final(self).startup_done() == old(self).startup_done(),
            final(self).submitted_bytes() == old(self).submitted_bytes(),
            final(self).delivered_bytes() == old(self).delivered_bytes() + old(
                self,
            ).write_bytes().take(n as int),
            old(self).flush_consistent() ==> final(self).flush_consistent(),
    {
        byte_buf_advance(&mut self.write_buf, n);
        self.delivered = Ghost(self.delivered@ + old(self).write_bytes().take(n as int));
        proof {
            if old(self).flush_consistent() {
                assert(final(self).delivered_bytes() + final(self).write_bytes() =~= final(self).submitted_bytes());
            }
        }
    }

    /// The failure reported when the stream accepts zero bytes while
    /// pending bytes remain.
    pub fn write_zero_error(&self) -> (r: IoFailure)
        ensures
            r.kind == IoKind::WriteZero,
            r.message@ == "failed to write message"@,
    {
        on_write_zero()
    }

    /// Split into read and write parts that can be driven from
    /// independent tasks. The buffers and the startup flag carry over.
    pub fn split(self) -> (r: (FramedReader, FramedWriter))
        ensures
            r.0.read_bytes() == self.read_bytes(),
            r.0.startup_done() == self.startup_done(),
            r.1.write_bytes() == self.write_bytes(),
            r.1.submitted_bytes() == self.submitted_bytes(),
            r.1.delivered_bytes() == self.delivered_bytes(),
            self.flush_consistent() ==> r.1.flush_consistent(),
    {
        let Framed { read_buf, write_buf, startup_read, submitted, delivered } = self;
        (
            FramedReader { read_buf, startup_read },
            FramedWriter { write_buf, submitted, delivered },
        )
    }

    /// Join read and write parts back.
    pub fn unsplit(reader: FramedReader, writer: FramedWriter) -> (r: Framed)
        ensures
            r.read_bytes() == reader.read_bytes(),
            r.startup_done() == reader.startup_done(),
            r.write_bytes() == writer.write_bytes(),
            r.submitted_bytes() == writer.submitted_bytes(),
            r.delivered_bytes() == writer.delivered_bytes(),
            writer.flush_consistent() ==> r.flush_consistent(),
    {
        Framed {
            read_buf: reader.read_buf,
            write_buf: writer.write_buf,
            startup_read: reader.startup_read,
            submitted: writer.submitted,
            delivered: writer.delivered,
        }
    }
}

/// Read-only part of a split [`Framed`].
pub struct FramedReader {
    read_buf: bytes::BytesMut,
    startup_read: bool,
}

impl FramedReader {
    /// The raw bytes received but not yet parsed.
    pub closed spec fn read_bytes(self) -> Seq<u8> {
        bytes_mut_view(self.read_buf)
    }

    /// Whether the first startup message has been decoded.
    pub closed spec fn startup_done(self) -> bool {
        self.startup_read
    }

    /// Append bytes read from the stream to the read buffer.
    pub fn feed(&mut self, chunk: &[u8])
        ensures
            final(self).read_bytes() == old(self).read_bytes() + chunk@,
            final(self).startup_done() == old(self).startup_done(),
    {
        byte_buf_extend(&mut self.read_buf, chunk);
    }

    /// Try to decode a single message out of the read buffer.
    pub fn decode(&mut self) -> (r: Result<Option<FeMessage>, ProtocolError>)
        ensures
            decode_transition(
                old(self).read_bytes(),
                old(self).startup_done(),
                final(self).read_bytes(),
                final(self).startup_done(),
                r,
            ),
            old(self).startup_done() ==> final(self).startup_done(),
    {
        decode(&mut self.read_buf, &mut self.startup_read)
    }

    /// The decision taken when the stream reports end of input.
    pub fn on_read_closed(&self) -> (r: Result<Option<FeMessage>, ConnectionError>)
        ensures
            self.read_bytes().len() > 0 <==> (r matches Err(ConnectionError::Io(e)) && e.kind
                == IoKind::UnexpectedEof && e.message@
                == "EOF with unprocessed data in the buffer"@),
            self.read_bytes().len() == 0 <==> r == Result::<
                Option<FeMessage>,
                ConnectionError,
            >::Ok(None),
    {
        on_read_closed(&self.read_buf)
    }
}

/// Write-only part of a split [`Framed`]. It carries the write-side
/// ghost histories of the [`Framed`] it was split from.
pub struct FramedWriter {
    write_buf: bytes::BytesMut,
    submitted: Ghost<Seq<u8>>,
    delivered: Ghost<Seq<u8>>,
}

impl FramedWriter {
    /// The encoded messages produced but not yet transmitted.
    pub closed spec fn write_bytes(self) -> Seq<u8> {
        bytes_mut_view(self.write_buf)
    }

    /// The concatenation of every encoded message submitted so far, in
    /// submission order.
    pub closed spec fn submitted_bytes(self) -> Seq<u8> {
        self.submitted@
    }

    /// The concatenation of every byte the stream has accepted so far.
    pub closed spec fn delivered_bytes(self) -> Seq<u8> {
        self.delivered@
    }

    /// The write-side history invariant; see [`Framed::flush_consistent`].
    pub open spec fn flush_consistent(self) -> bool {
        self.delivered_bytes() + self.write_bytes() == self.submitted_bytes()
    }

    /// Write the next message to the output buffer; doesn't flush.
    pub fn write_message(&mut self, msg: &BeMessage) -> (r: Result<(), ProtocolError>)
        ensures
            msg.body@.len() + 4 <= u32::MAX <==> r is Ok,
            r is Ok ==> final(self).write_bytes() == old(self).write_bytes()
                + crate::codec::be_message_bytes(msg.tag, msg.body@) && final(self).submitted_bytes() == old(self).submitted_bytes() + crate::codec::be_message_bytes(
                msg.tag,
                msg.body@,
            ),
            r is Err ==> final(self).write_bytes() == old(self).write_bytes() && final(self).submitted_bytes() == old(self).submitted_bytes(),
            final(self).delivered_bytes() == old(self).delivered_bytes(),
            old(self).flush_consistent() ==> final(self).flush_consistent(),
    {
        let mut encoded: Vec<u8> = Vec::new();
        match msg.write(&mut encoded) {
            Ok(()) => {
                byte_buf_extend(&mut self.write_buf, encoded.as_slice());
                self.submitted = Ghost(self.submitted@ + encoded@);
                proof {
                    if old(self).flush_consistent() {
                        assert(final(self).delivered_bytes() + final(self).write_bytes()
                            =~= final(self).submitted_bytes());
                    }
                }
                Ok(())
            },
            Err(e) => Err(e),
        }
    }

    /// The bytes that remain to be flushed to the stream, in order.
    pub fn write_pending<'a>(&'a self) -> (r: &'a [u8])
        ensures
            r@ == self.write_bytes(),
    {
        byte_buf_bytes(&self.write_buf)
    }

    /// Record that the stream accepted the first `n` pending bytes.
    pub fn note_written(&mut self, n: usize)
        requires
            n <= old(self).write_bytes().len(),
        ensures
            final(self).write_bytes() == old(self).write_bytes().skip(n as int),
            final(self).submitted_bytes() == old(self).submitted_bytes(),
            final(self).delivered_bytes() == old(self).delivered_bytes() + old(
                self,
            ).write_bytes().take(n as int),
            old(self).flush_consistent() ==> final(self).flush_consistent(),
    {
        byte_buf_advance(&mut self.write_buf, n);
        self.delivered = Ghost(self.delivered@ + old(self).write_bytes().take(n as int));
        proof {
            if old(self).flush_consistent() {
                assert(final(self).delivered_bytes() + final(self).write_bytes() =~= final(self).submitted_bytes());
            }
        }
    }

    /// The failure reported when the stream accepts zero bytes while
    /// pending bytes remain.
    pub fn write_zero_error(&self) -> (r: IoFailure)
        ensures
            r.kind == IoKind::WriteZero,
            r.message@ == "failed to write message"@,
    {
        on_write_zero()
    }
}

/// For any number of flush cancellations interleaved with writes, the
/// bytes delivered to the stream are exactly a prefix of the encoded
/// messages in submission order, and the write buffer holds exactly the
/// unsent suffix: [`Framed::flush_consistent`] holds from construction
/// on and is preserved by every operation, so this statement covers
/// every whole trace of writes, partial flushes and cancellations.
pub proof fn lemma_delivered_is_prefix_of_submitted(f: Framed)
    requires
        f.flush_consistent(),
    ensures
        f.delivered_bytes() == f.submitted_bytes().take(f.delivered_bytes().len() as int),
        f.write_bytes() == f.submitted_bytes().skip(f.delivered_bytes().len() as int),
{
    assert(f.delivered_bytes() =~= f.submitted_bytes().take(f.delivered_bytes().len() as int));
    assert(f.write_bytes() =~= f.submitted_bytes().skip(f.delivered_bytes().len() as int));
}

/// The same statement for the write half of a split [`Framed`].
pub proof fn lemma_writer_delivered_is_prefix_of_submitted(w: FramedWriter)
    requires
        w.flush_consistent(),
    ensures
        w.delivered_bytes() == w.submitted_bytes().take(w.delivered_bytes().len() as int),
        w.write_bytes() == w.submitted_bytes().skip(w.delivered_bytes().len() as int),
{
    assert(w.delivered_bytes() =~= w.submitted_bytes().take(w.delivered_bytes().len() as int));
    assert(w.write_bytes() =~= w.submitted_bytes().skip(w.delivered_bytes().len() as int));
}

/// The write buffer always holds exactly the submitted-but-undelivered
/// bytes: delivering any `n` of them and then resuming delivers the
/// pending bytes exactly once, and a message submitted between the two
/// flush halves is transmitted after the bytes that were already pending.
pub proof fn lemma_flush_cancellation_safe(pending: Seq<u8>, msg_bytes: Seq<u8>, n: int)
    requires
        0 <= n <= pending.len(),
    ensures
        pending.take(n) + pending.skip(n) == pending,
        (pending + msg_bytes).skip(n) == pending.skip(n) + msg_bytes,
        (pending + msg_bytes).take(n) == pending.take(n),
{
    assert(pending.take(n) + pending.skip(n) =~= pending);
    assert((pending + msg_bytes).skip(n) =~= pending.skip(n) + msg_bytes);
    assert((pending + msg_bytes).take(n) =~= pending.take(n));
}

} // verus!
