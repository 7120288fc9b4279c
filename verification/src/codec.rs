//! The Postgres v3 frame grammar: startup frames and typed frames.
//!
//! A startup frame is a 4-byte big-endian length (which counts the length
//! bytes themselves) followed by the payload; the payload begins with a
//! 4-byte value that is either a special request code (SSL request, cancel
//! request) or the protocol version of a startup message. Every later frame
//! is a 1-byte type tag followed by a 4-byte big-endian length (which
//! counts the length bytes but not the tag) and the payload. The framing
//! layer never interprets payload bytes.

use vstd::prelude::*;

use vstd::string::StringExecFns;

verus! {

/// Request code that marks a startup frame as a cancel request.
pub const CANCEL_REQUEST_CODE: u32 = 80877102;

/// Request code that marks a startup frame as an SSL negotiation request.
pub const SSL_REQUEST_CODE: u32 = 80877103;

/// The protocol major version accepted in a startup message.
pub const SUPPORTED_MAJOR_VERSION: u32 = 3;

// ------------------------------------------------------------------
// Big-endian 32-bit integers
// ------------------------------------------------------------------

/// The value of four bytes read in big-endian order.
pub open spec fn be32(b0: u8, b1: u8, b2: u8, b3: u8) -> u32 {
    ((b0 as u32) << 24u32) | ((b1 as u32) << 16u32) | ((b2 as u32) << 8u32) | (b3 as u32)
}

/// The four big-endian bytes of a 32-bit value.
pub open spec fn spec_u32_be(x: u32) -> Seq<u8> {
    seq![
        (x >> 24u32) as u8,
        ((x >> 16u32) & 0xffu32) as u8,
        ((x >> 8u32) & 0xffu32) as u8,
        (x & 0xffu32) as u8,
    ]
}

/// Reading back the big-endian bytes of `x` yields `x`.
pub proof fn lemma_be32_of_spec_u32_be(x: u32)
    ensures
        be32(spec_u32_be(x)[0], spec_u32_be(x)[1], spec_u32_be(x)[2], spec_u32_be(x)[3]) == x,
        spec_u32_be(x).len() == 4,
{
    let b0 = (x >> 24u32) as u8;
    let b1 = ((x >> 16u32) & 0xffu32) as u8;
    let b2 = ((x >> 8u32) & 0xffu32) as u8;
    let b3 = (x & 0xffu32) as u8;
    assert(((b0 as u32) << 24u32) | ((b1 as u32) << 16u32) | ((b2 as u32) << 8u32) | (b3 as u32)
        == x) by (bit_vector)
        requires
            b0 == (x >> 24u32) as u8,
            b1 == ((x >> 16u32) & 0xffu32) as u8,
            b2 == ((x >> 8u32) & 0xffu32) as u8,
            b3 == (x & 0xffu32) as u8,
    ;
}

/// Writing the value of four bytes back out in big-endian order yields the
/// same four bytes.
pub proof fn lemma_spec_u32_be_of_be32(b0: u8, b1: u8, b2: u8, b3: u8)
    ensures
        spec_u32_be(be32(b0, b1, b2, b3)) == seq![b0, b1, b2, b3],
{
    let x = be32(b0, b1, b2, b3);
    assert((x >> 24u32) as u8 == b0 && ((x >> 16u32) & 0xffu32) as u8 == b1 && ((x >> 8u32)
        & 0xffu32) as u8 == b2 && (x & 0xffu32) as u8 == b3) by (bit_vector)
        requires
            x == ((b0 as u32) << 24u32) | ((b1 as u32) << 16u32) | ((b2 as u32) << 8u32) | (
            b3 as u32),
    ;
    assert(spec_u32_be(x) =~= seq![b0, b1, b2, b3]);
}

/// Read a big-endian 32-bit value from four consecutive bytes of a slice.
pub fn read_u32_be(s: &[u8], at: usize) -> (x: u32)
    requires
        at + 4 <= s@.len(),
    ensures
        x == be32(s@[at as int], s@[at + 1], s@[at + 2], s@[at + 3]),
{
    let b0 = s[at];
    let b1 = s[at + 1];
    let b2 = s[at + 2];
    let b3 = s[at + 3];
    ((b0 as u32) << 24u32) | ((b1 as u32) << 16u32) | ((b2 as u32) << 8u32) | (b3 as u32)
}

/// Append the big-endian bytes of `x` to `out`.
pub fn put_u32_be(out: &mut Vec<u8>, x: u32)
    ensures
        final(out)@ == old(out)@ + spec_u32_be(x),
{
    out.push((x >> 24u32) as u8);
    out.push(((x >> 16u32) & 0xffu32) as u8);
    out.push(((x >> 8u32) & 0xffu32) as u8);
    out.push((x & 0xffu32) as u8);
    assert(final(out)@ =~= old(out)@ + spec_u32_be(x));
}

// ------------------------------------------------------------------
// Message types
// ------------------------------------------------------------------

/// The first frame on a connection. Only a `StartupMessage` advances the
/// connection to typed-frame mode; the other variants are followed by
/// either a fresh startup exchange or connection termination.
#[derive(Debug, Clone, PartialEq, Eq)]
pub enum FeStartupPacket {
    /// A startup message proper: a supported protocol version followed by
    /// the uninterpreted parameter bytes of the frame.
    StartupMessage { version: u32, params: Vec<u8> },
    /// A cancel request; its payload is not interpreted here.
    CancelRequest,
    /// An SSL negotiation request.
    SslRequest,
}

/// A frontend message produced by the decoder.
#[derive(Debug, Clone, PartialEq, Eq)]
pub enum FeMessage {
    /// The startup frame, seen only before the first startup message.
    StartupPacket(FeStartupPacket),
    /// A typed frame: a tag byte and the uninterpreted payload.
    Typed { tag: u8, body: Vec<u8> },
}

/// A backend message to be framed and written out: a tag byte and the
/// uninterpreted payload.
#[derive(Debug, Clone, PartialEq, Eq)]
pub struct BeMessage {
    pub tag: u8,
    pub body: Vec<u8>,
}

/// A violation of the frame grammar.
#[derive(Debug, Clone, PartialEq, Eq)]
pub enum ProtocolError {
    /// A startup frame whose length field cannot even cover the length and
    /// request-code bytes.
    BadStartupLength { length: u32 },
    /// A startup message with a protocol major version other than the
    /// supported one.
    UnsupportedVersion { version: u32 },
    /// A typed frame whose length field cannot even cover the length bytes.
    BadTypedLength { length: u32 },
    /// A backend message whose payload cannot be framed in a 32-bit length.
    OversizedMessage,
}

impl ProtocolError {
    /// The text [`ProtocolError::message`] returns for each violation.
    pub open spec fn spec_message(self) -> Seq<char> {
        match self {
            ProtocolError::BadStartupLength { length: _ } => "invalid startup frame length"@,
            ProtocolError::UnsupportedVersion { version: _ } => "unsupported protocol version"@,
            ProtocolError::BadTypedLength { length: _ } => "invalid message frame length"@,
            ProtocolError::OversizedMessage => "message too large to frame"@,
        }
    }

    /// A human-readable description of the violation.
    pub fn message(&self) -> (r: String)
        ensures
            r@ == self.spec_message(),
    {
        let mut m = String::new();
        match self {
            ProtocolError::BadStartupLength { length: _ } => {
                m.append("invalid startup frame length");
                proof {
                    assert(Seq::<char>::empty() + "invalid startup frame length"@
                        =~= "invalid startup frame length"@);
                }
            },
            ProtocolError::UnsupportedVersion { version: _ } => {
                m.append("unsupported protocol version");
                proof {
                    assert(Seq::<char>::empty() + "unsupported protocol version"@
                        =~= "unsupported protocol version"@);
                }
            },
            ProtocolError::BadTypedLength { length: _ } => {
                m.append("invalid message frame length");
                proof {
                    assert(Seq::<char>::empty() + "invalid message frame length"@
                        =~= "invalid message frame length"@);
                }
            },
            ProtocolError::OversizedMessage => {
                m.append("message too large to frame");
                proof {
                    assert(Seq::<char>::empty() + "message too large to frame"@
                        =~= "message too large to frame"@);
                }
            },
        }
        m
    }
}

// ------------------------------------------------------------------
// Startup frame grammar, at the specification level
// ------------------------------------------------------------------

/// The length field of a startup frame, once four bytes are present.
pub open spec fn startup_len(s: Seq<u8>) -> int
    recommends
        s.len() >= 4,
{
    be32(s[0], s[1], s[2], s[3]) as int
}

/// Whether the startup length field admits the mandatory length and
/// request-code bytes.
pub open spec fn startup_len_valid(s: Seq<u8>) -> bool
    recommends
        s.len() >= 4,
{
    startup_len(s) >= 8
}

/// More input is needed before a startup frame can be judged.
pub open spec fn startup_need_more(s: Seq<u8>) -> bool {
    s.len() < 4 || (startup_len_valid(s) && s.len() < startup_len(s))
}

/// A whole, well-formed startup frame is present.
pub open spec fn startup_frame_ready(s: Seq<u8>) -> bool {
    s.len() >= 4 && startup_len_valid(s) && startup_len(s) <= s.len()
}

/// The request code or protocol version of a ready startup frame.
pub open spec fn startup_code(s: Seq<u8>) -> u32
    recommends
        s.len() >= 8,
{
    be32(s[4], s[5], s[6], s[7])
}

/// The payload of a ready startup frame past the request code.
pub open spec fn startup_rest(s: Seq<u8>) -> Seq<u8>
    recommends
        startup_frame_ready(s),
{
    s.subrange(8, startup_len(s))
}

/// The major component of a protocol version.
pub open spec fn version_major(v: u32) -> u32 {
    v >> 16u32
}

/// Parse one startup frame from the beginning of `s`.
///
/// Returns `Ok(None)` when more input is needed, and otherwise the packet
/// together with the number of bytes the frame occupies.
pub fn parse_startup_packet(s: &[u8]) -> (r: Result<Option<(FeStartupPacket, usize)>, ProtocolError>)
    ensures
        r is Ok && r->Ok_0 is None <==> startup_need_more(s@),
        r is Err ==> !startup_need_more(s@) && s@.len() >= 4,
        s@.len() >= 4 && !startup_len_valid(s@) <==> (r matches Err(
            ProtocolError::BadStartupLength { length },
        ) && length as int == startup_len(s@)),
        startup_frame_ready(s@) && startup_code(s@) != SSL_REQUEST_CODE && startup_code(s@)
            != CANCEL_REQUEST_CODE && version_major(startup_code(s@)) != SUPPORTED_MAJOR_VERSION
            <==> (r matches Err(ProtocolError::UnsupportedVersion { version }) && version
            == startup_code(s@)),
        r matches Ok(Some((p, n))) ==> startup_frame_ready(s@) && n as int == startup_len(s@),
        startup_frame_ready(s@) && startup_code(s@) == SSL_REQUEST_CODE <==> (r matches Ok(
            Some((p, n)),
        ) && p == FeStartupPacket::SslRequest),
        startup_frame_ready(s@) && startup_code(s@) == CANCEL_REQUEST_CODE <==> (r matches Ok(
            Some((p, n)),
        ) && p == FeStartupPacket::CancelRequest),
        r matches Ok(Some((FeStartupPacket::StartupMessage { version, params }, n)))
            ==> version == startup_code(s@) && params@ == startup_rest(s@),
        startup_frame_ready(s@) && startup_code(s@) != SSL_REQUEST_CODE && startup_code(s@)
            != CANCEL_REQUEST_CODE && version_major(startup_code(s@)) == SUPPORTED_MAJOR_VERSION
            ==> (r matches Ok(Some((p, n))) && p is StartupMessage),
{
    if s.len() < 4 {
        return Ok(None);
    }
    let frame_len = read_u32_be(s, 0);
    if frame_len < 8 {
        return Err(ProtocolError::BadStartupLength { length: frame_len });
    }
    let frame_len = frame_len as usize;
    if s.len() < frame_len {
        return Ok(None);
    }
    let code = read_u32_be(s, 4);
    if code == SSL_REQUEST_CODE {
        Ok(Some((FeStartupPacket::SslRequest, frame_len)))
    } else if code == CANCEL_REQUEST_CODE {
        Ok(Some((FeStartupPacket::CancelRequest, frame_len)))
    } else if code >> 16u32 == SUPPORTED_MAJOR_VERSION {
        let params = slice_range_to_vec(s, 8, frame_len);
        Ok(Some((FeStartupPacket::StartupMessage { version: code, params }, frame_len)))
    } else {
        Err(ProtocolError::UnsupportedVersion { version: code })
    }
}

// ------------------------------------------------------------------
// Typed frame grammar, at the specification level
// ------------------------------------------------------------------

/// The length field of a typed frame, once the tag and four length bytes
/// are present. It counts the length bytes but not the tag.
pub open spec fn typed_len(s: Seq<u8>) -> int
    recommends
        s.len() >= 5,
{
    be32(s[1], s[2], s[3], s[4]) as int
}

/// Whether the typed length field admits the mandatory length bytes.
pub open spec fn typed_len_valid(s: Seq<u8>) -> bool
    recommends
        s.len() >= 5,
{
    typed_len(s) >= 4
}

/// More input is needed before a typed frame can be judged.
pub open spec fn typed_need_more(s: Seq<u8>) -> bool {
    s.len() < 5 || (typed_len_valid(s) && s.len() < 1 + typed_len(s))
}

/// A whole, well-formed typed frame is present.
pub open spec fn typed_frame_ready(s: Seq<u8>) -> bool {
    s.len() >= 5 && typed_len_valid(s) && 1 + typed_len(s) <= s.len()
}

/// The tag byte of a typed frame.
pub open spec fn typed_tag(s: Seq<u8>) -> u8
    recommends
        s.len() >= 1,
{
    s[0]
}

/// The payload of a ready typed frame.
pub open spec fn typed_body(s: Seq<u8>) -> Seq<u8>
    recommends
        typed_frame_ready(s),
{
    s.subrange(5, 1 + typed_len(s))
}

/// Parse one typed frame from the beginning of `s`.
///
/// Returns `Ok(None)` when more input is needed, and otherwise the message
/// together with the number of bytes the frame occupies.
pub fn parse_typed_message(s: &[u8]) -> (r: Result<Option<(FeMessage, usize)>, ProtocolError>)
    ensures
        r is Ok && r->Ok_0 is None <==> typed_need_more(s@),
        s@.len() >= 5 && !typed_len_valid(s@) <==> (r matches Err(
            ProtocolError::BadTypedLength { length },
        ) && length as int == typed_len(s@)),
        r is Err ==> !typed_need_more(s@),
        typed_frame_ready(s@) <==> r is Ok && r->Ok_0 is Some,
        r matches Ok(Some((m, n))) ==> n as int == 1 + typed_len(s@) && (m matches
            FeMessage::Typed { tag, body } && tag == typed_tag(s@) && body@ == typed_body(s@)),
{
    if s.len() < 5 {
        return Ok(None);
    }
    let tag = s[0];
    let frame_len = read_u32_be(s, 1);
    if frame_len < 4 {
        return Err(ProtocolError::BadTypedLength { length: frame_len });
    }
    let frame_len = frame_len as usize;
    if s.len() - 1 < frame_len {
        return Ok(None);
    }
    let body = slice_range_to_vec(s, 5, 1 + frame_len);
    Ok(Some((FeMessage::Typed { tag, body }, 1 + frame_len)))
}

// ------------------------------------------------------------------
// Encoding backend messages
// ------------------------------------------------------------------

/// The frame bytes of a backend message: the tag, the big-endian length of
/// the payload plus the length bytes, and the payload.
pub open spec fn be_message_bytes(tag: u8, body: Seq<u8>) -> Seq<u8>
    recommends
        body.len() + 4 <= u32::MAX,
{
    seq![tag] + spec_u32_be((body.len() + 4) as u32) + body
}

impl BeMessage {
    /// Append the frame bytes of this message to `out`. A payload too
    /// large for the 32-bit length field is rejected and `out` is left
    /// unchanged.
    pub fn write(&self, out: &mut Vec<u8>) -> (r: Result<(), ProtocolError>)
        ensures
            self.body@.len() + 4 <= u32::MAX <==> r is Ok,
            r is Ok ==> final(out)@ == old(out)@ + be_message_bytes(self.tag, self.body@),
            r is Err ==> final(out)@ == old(out)@ && r == Result::<(), ProtocolError>::Err(
                ProtocolError::OversizedMessage,
            ),
    {
        if self.body.len() > (u32::MAX - 4) as usize {
            return Err(ProtocolError::OversizedMessage);
        }
        let frame_len = (self.body.len() as u32) + 4;
        out.push(self.tag);
        put_u32_be(out, frame_len);
        let mut i: usize = 0;
        while i < self.body.len()
            invariant
                i <= self.body@.len(),
                out@ == old(out)@ + seq![self.tag] + spec_u32_be(
                    (self.body@.len() + 4) as u32,
                ) + self.body@.take(i as int),
            decreases self.body@.len() - i,
        {
            out.push(self.body[i]);
            assert(self.body@.take(i as int).push(self.body@[i as int]) =~= self.body@.take(
                i + 1,
            ));
            i = i + 1;
        }
        proof {
            assert(self.body@.take(self.body@.len() as int) =~= self.body@);
            assert(final(out)@ =~= old(out)@ + be_message_bytes(self.tag, self.body@));
        }
        Ok(())
    }
}

/// Framing a backend message and then decoding one typed frame from those
/// bytes yields the message back: the frame is whole, it spans exactly the
/// encoded bytes, and its tag and payload are the ones given.
pub proof fn lemma_encode_decode_roundtrip(tag: u8, body: Seq<u8>)
    requires
        body.len() + 4 <= u32::MAX,
    ensures
        typed_frame_ready(be_message_bytes(tag, body)),
        typed_tag(be_message_bytes(tag, body)) == tag,
        typed_body(be_message_bytes(tag, body)) == body,
        1 + typed_len(be_message_bytes(tag, body)) == be_message_bytes(tag, body).len(),
{
    let s = be_message_bytes(tag, body);
    let flen = (body.len() + 4) as u32;
    lemma_be32_of_spec_u32_be(flen);
    assert(s.len() == 5 + body.len());
    assert(s[1] == spec_u32_be(flen)[0] && s[2] == spec_u32_be(flen)[1] && s[3] == spec_u32_be(
        flen,
    )[2] && s[4] == spec_u32_be(flen)[3]);
    assert(typed_len(s) == flen as int);
    assert(typed_body(s) =~= body);
}

/// Copy `s[from..to]` into a fresh vector.
pub fn slice_range_to_vec(s: &[u8], from: usize, to: usize) -> (r: Vec<u8>)
    requires
        from <= to <= s@.len(),
    ensures
        r@ == s@.subrange(from as int, to as int),
{
    let mut r: Vec<u8> = Vec::new();
    let mut i: usize = from;
    while i < to
        invariant
            from <= i <= to <= s@.len(),
            r@ == s@.subrange(from as int, i as int),
        decreases to - i,
    {
        r.push(s[i]);
        assert(r@ =~= s@.subrange(from as int, i + 1));
        i = i + 1;
    }
    r
}

} // verus!
