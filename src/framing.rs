//! Length-prefixed framing over a byte stream.
//!
//! A frame is a 4-byte big-endian length `L` followed by exactly `L` payload
//! bytes. [`FrameCodec`] is built from [`LengthHeaderCodec`], which reads and
//! writes the header, and [`PayloadCodec`], which reads and writes the
//! payload; decoding hands the length read by the first to the second as its
//! context.
use vstd::prelude::*;
use crate::error::CodecError;
use crate::stream::ByteReader;
use crate::{ContextualDecodeMut, ContextualEncodeMut, DecodeMut};

verus! {

/// The four bytes of `n`, most significant first.
pub open spec fn be32(n: u32) -> Seq<u8> {
    seq![(n >> 24u32) as u8, (n >> 16u32) as u8, (n >> 8u32) as u8, n as u8]
}

/// The number held by four bytes, the first one most significant.
pub open spec fn from_be32(b: Seq<u8>) -> u32
    recommends
        b.len() == 4,
{
    ((b[0] as u32) << 24u32) | ((b[1] as u32) << 16u32) | ((b[2] as u32) << 8u32) | (b[3] as u32)
}

/// The payload length declared by the header at the front of `s`.
pub open spec fn declared_length(s: Seq<u8>) -> int {
    from_be32(s.take(4)) as int
}

/// Whether `s` starts with a whole frame: a header and the payload bytes it
/// declares.
pub open spec fn holds_frame(s: Seq<u8>) -> bool {
    s.len() >= 4 && s.len() - 4 >= declared_length(s)
}

/// The payload of the frame at the front of `s`.
pub open spec fn frame_payload(s: Seq<u8>) -> Seq<u8> {
    s.subrange(4, 4 + declared_length(s))
}

/// The bytes of the frame that carries `payload`.
pub open spec fn frame_bytes(payload: Seq<u8>) -> Seq<u8> {
    be32(payload.len() as u32) + payload
}

/// Reading back a written length header gives the length that was written.
pub proof fn lemma_length_header_round_trip(n: u32)
    ensures
        from_be32(be32(n)) == n,
{
    let b0 = (n >> 24u32) as u8;
    let b1 = (n >> 16u32) as u8;
    let b2 = (n >> 8u32) as u8;
    let b3 = n as u8;
    assert(((b0 as u32) << 24u32) | ((b1 as u32) << 16u32) | ((b2 as u32) << 8u32) | (b3 as u32)
        == n) by (bit_vector)
        requires
            b0 == (n >> 24u32) as u8,
            b1 == (n >> 16u32) as u8,
            b2 == (n >> 8u32) as u8,
            b3 == n as u8,
    ;
}

/// Writing the length read from a header reproduces the header's four bytes.
pub proof fn lemma_length_header_bytes(b: Seq<u8>)
    requires
        b.len() == 4,
    ensures
        be32(from_be32(b)) == b,
{
    let (b0, b1, b2, b3) = (b[0], b[1], b[2], b[3]);
    let n = from_be32(b);
    assert((n >> 24u32) as u8 == b0 && (n >> 16u32) as u8 == b1 && (n >> 8u32) as u8 == b2
        && n as u8 == b3) by (bit_vector)
        requires
            n == ((b0 as u32) << 24u32) | ((b1 as u32) << 16u32) | ((b2 as u32) << 8u32) | (
            b3 as u32),
    ;
    assert(be32(n) =~= b);
}

/// For every payload whose length fits in the 32-bit header: the bytes of
/// its frame hold a whole frame, decoding them gives back the payload, and
/// encoding that payload reproduces the same bytes.
pub proof fn lemma_frame_round_trip(payload: Seq<u8>)
    requires
        payload.len() <= u32::MAX,
    ensures
        holds_frame(frame_bytes(payload)),
        frame_payload(frame_bytes(payload)) == payload,
        frame_bytes(frame_payload(frame_bytes(payload))) == frame_bytes(payload),
{
    let bytes = frame_bytes(payload);
    let n = payload.len() as u32;
    lemma_length_header_round_trip(n);
    assert(bytes.take(4) =~= be32(n));
    assert(frame_payload(bytes) =~= payload);
}

/// Bytes that hold exactly one frame, and nothing after it, are reproduced by
/// encoding the payload decoded from them.
pub proof fn lemma_frame_reencode(bytes: Seq<u8>)
    requires
        holds_frame(bytes),
        bytes.len() == 4 + declared_length(bytes),
    ensures
        frame_bytes(frame_payload(bytes)) == bytes,
{
    let payload = frame_payload(bytes);
    lemma_length_header_bytes(bytes.take(4));
    assert(payload.len() as u32 == from_be32(bytes.take(4)));
    assert(frame_bytes(payload) =~= bytes);
}

/// Appends `bytes` to `writer`.
fn write_all(writer: &mut Vec<u8>, bytes: &[u8])
    ensures
        final(writer)@ == old(writer)@ + bytes@,
{
    let mut i: usize = 0;
    while i < bytes.len()
        invariant
            i <= bytes@.len(),
            writer@ == old(writer)@ + bytes@.take(i as int),
        decreases bytes@.len() - i,
    {
        writer.push(bytes[i]);
        i = i + 1;
        assert(writer@ =~= old(writer)@ + bytes@.take(i as int));
    }
    assert(bytes@.take(i as int) =~= bytes@);
}

/// Codec of the 4-byte big-endian length header of a frame.
pub struct LengthHeaderCodec<'a, T>(core::marker::PhantomData<&'a T>);

impl<'a> DecodeMut for LengthHeaderCodec<'a, ByteReader> {
    type Place = ByteReader;

    type Output = Result<u32, CodecError>;

    /// When four bytes are left, they are consumed and the number they hold
    /// is returned; otherwise decoding fails and consumes nothing.
    open spec fn decode_ensures(before: ByteReader, after: ByteReader, output: Result<u32, CodecError>) -> bool {
        match output {
            Ok(length) => {
                &&& before@.len() >= 4
                &&& length == from_be32(before@.take(4))
                &&& after@ == before@.skip(4)
            },
            Err(e) => {
                &&& before@.len() < 4
                &&& e == CodecError::UnexpectedEnd
                &&& after@ == before@
            },
        }
    }

    fn decode(reader: &mut ByteReader) -> (output: Result<u32, CodecError>) {
        let buf = match reader.read_exact(4) {
            Ok(buf) => buf,
            Err(e) => return Err(e),
        };
        let length = ((buf[0] as u32) << 24u32) | ((buf[1] as u32) << 16u32) | ((buf[2] as u32)
            << 8u32) | (buf[3] as u32);
        Ok(length)
    }
}

impl<'a> ContextualEncodeMut for LengthHeaderCodec<'a, Vec<u8>> {
    type Place = Vec<u8>;

    type Context = u32;

    type Output = Result<(), CodecError>;

    /// The four bytes of the length, most significant first, are appended;
    /// writing to a vector always succeeds.
    open spec fn encode_ensures(before: Vec<u8>, after: Vec<u8>, length: u32, output: Result<(), CodecError>) -> bool {
        &&& output is Ok
        &&& after@ == before@ + be32(length)
    }

    fn encode(writer: &mut Vec<u8>, length: u32) -> (output: Result<(), CodecError>) {
        writer.push((length >> 24u32) as u8);
        writer.push((length >> 16u32) as u8);
        writer.push((length >> 8u32) as u8);
        writer.push(length as u8);
        assert(writer@ =~= old(writer)@ + be32(length));
        Ok(())
    }
}

/// Codec of a payload whose length is given as the context.
pub struct PayloadCodec<'a, T>(core::marker::PhantomData<&'a T>);

impl<'a> ContextualDecodeMut for PayloadCodec<'a, ByteReader> {
    type Place = ByteReader;

    type Context = u32;

    type Output = Result<Vec<u8>, CodecError>;

    /// When `length` bytes are left, exactly those are consumed and returned;
    /// otherwise decoding fails and consumes nothing.
    open spec fn decode_ensures(
        before: ByteReader,
        after: ByteReader,
        length: u32,
        output: Result<Vec<u8>, CodecError>,
    ) -> bool {
        match output {
            Ok(payload) => {
                &&& length <= before@.len()
                &&& payload@ == before@.take(length as int)
                &&& after@ == before@.skip(length as int)
            },
            Err(e) => {
                &&& before@.len() < length
                &&& e == CodecError::UnexpectedEnd
                &&& after@ == before@
            },
        }
    }

    fn decode(reader: &mut ByteReader, length: u32) -> (output: Result<Vec<u8>, CodecError>) {
        reader.read_exact(length as usize)
    }
}

impl<'a> ContextualEncodeMut for PayloadCodec<'a, Vec<u8>> {
    type Place = Vec<u8>;

    type Context = &'a Vec<u8>;

    type Output = Result<(), CodecError>;

    /// The payload is appended as it is; writing to a vector always
    /// succeeds.
    open spec fn encode_ensures(
        before: Vec<u8>,
        after: Vec<u8>,
        payload: &'a Vec<u8>,
        output: Result<(), CodecError>,
    ) -> bool {
        &&& output is Ok
        &&& after@ == before@ + payload@
    }

    fn encode(writer: &mut Vec<u8>, payload: &'a Vec<u8>) -> (output: Result<(), CodecError>) {
        write_all(writer, payload.as_slice());
        Ok(())
    }
}

/// One length-prefixed unit of a stream.
#[derive(Debug, PartialEq, Eq)]
pub struct Frame {
    pub payload: Vec<u8>,
}

/// Codec of whole frames, composed of [`LengthHeaderCodec`] and
/// [`PayloadCodec`].
pub struct FrameCodec<'a, T>(core::marker::PhantomData<&'a T>);

impl<'a> DecodeMut for FrameCodec<'a, ByteReader> {
    type Place = ByteReader;

    type Output = Result<Frame, CodecError>;

    /// When the stream starts with a header and the payload bytes it
    /// declares, exactly those bytes are consumed and the frame is returned.
    /// Otherwise decoding fails; a header that was read stays consumed.
    open spec fn decode_ensures(before: ByteReader, after: ByteReader, output: Result<Frame, CodecError>) -> bool {
        match output {
            Ok(frame) => {
                &&& holds_frame(before@)
                &&& frame.payload@ == frame_payload(before@)
                &&& after@ == before@.skip(4 + declared_length(before@))
            },
            Err(e) => {
                &&& !holds_frame(before@)
                &&& e == CodecError::UnexpectedEnd
                &&& after@ == if before@.len() < 4 {
                    before@
                } else {
                    before@.skip(4)
                }
            },
        }
    }

    /// Reads the length header, then that many payload bytes.
    fn decode(reader: &mut ByteReader) -> (output: Result<Frame, CodecError>) {
        let ghost before = reader@;
        let length = match LengthHeaderCodec::decode(reader) {
            Ok(length) => length,
            Err(e) => return Err(e),
        };
        let payload = match PayloadCodec::decode(reader, length) {
            Ok(payload) => payload,
            Err(e) => return Err(e),
        };
        assert(payload@ =~= frame_payload(before));
        assert(reader@ =~= before.skip(4 + declared_length(before)));
        Ok(Frame { payload })
    }
}

impl<'a> ContextualEncodeMut for FrameCodec<'a, Vec<u8>> {
    type Place = Vec<u8>;

    type Context = &'a Frame;

    type Output = Result<(), CodecError>;

    /// The header computed from the payload's length and then the payload
    /// are appended; encoding fails, and writes nothing, exactly when the
    /// length does not fit in the 32-bit header.
    open spec fn encode_ensures(
        before: Vec<u8>,
        after: Vec<u8>,
        frame: &'a Frame,
        output: Result<(), CodecError>,
    ) -> bool {
        match output {
            Ok(()) => {
                &&& frame.payload@.len() <= u32::MAX
                &&& after@ == before@ + frame_bytes(frame.payload@)
            },
            Err(e) => {
                &&& frame.payload@.len() > u32::MAX
                &&& e == CodecError::LengthOverflow
                &&& after@ == before@
            },
        }
    }

    fn encode(writer: &mut Vec<u8>, frame: &'a Frame) -> (output: Result<(), CodecError>) {
        if frame.payload.len() > u32::MAX as usize {
            return Err(CodecError::LengthOverflow);
        }
        let length = frame.payload.len() as u32;
        let ghost before = writer@;
        let _ = LengthHeaderCodec::encode(writer, length);
        let _ = PayloadCodec::encode(writer, &frame.payload);
        assert(writer@ =~= before + frame_bytes(frame.payload@));
        Ok(())
    }
}

} // verus!
