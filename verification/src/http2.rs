//! Reassembly of frames from a byte stream that arrives in chunks of any
//! size.
//!
//! The reader owns the bytes that have arrived and were not handed out yet.
//! It does no I/O itself: whoever owns the transport asks for the next frame,
//! and where none is complete, reads a chunk and hands it over.

use crate::error::FrameError;
use crate::frame::{
    clear_reserved_bit, decode_frame, encode_frame, lemma_encoded_layout, lemma_frame_roundtrip,
    Frame, HEADER_LEN,
};
use crate::utils::{declared_len, extract_length};
use vstd::prelude::*;

verus! {

/// A whole frame stands at the start of `buf`: its header and all the
/// payload bytes that the header declares.
pub open spec fn frame_ready(buf: Seq<u8>) -> bool {
    buf.len() >= HEADER_LEN && buf.len() >= HEADER_LEN + declared_len(buf)
}

/// The length of the frame whose header stands at the start of `buf`.
pub open spec fn first_frame_len(buf: Seq<u8>) -> nat
    recommends
        buf.len() >= HEADER_LEN,
{
    HEADER_LEN as nat + declared_len(buf)
}

/// Cuts a byte stream into frames.
pub struct Http2Reader {
    buffer: Vec<u8>,
}

impl View for Http2Reader {
    type V = Seq<u8>;

    /// The bytes that have arrived and were not handed out yet, oldest first.
    closed spec fn view(&self) -> Seq<u8> {
        self.buffer@
    }
}

impl Http2Reader {
    /// A reader that holds no bytes.
    pub fn new() -> (r: Self)
        ensures
            r@ == Seq::<u8>::empty(),
    {
        Http2Reader { buffer: Vec::new() }
    }

    /// The number of bytes that have arrived and were not handed out yet.
    pub fn buffered(&self) -> (n: usize)
        ensures
            n == self@.len(),
    {
        self.buffer.len()
    }

    /// Hands out the frame at the start of the buffered bytes, if all of it
    /// has arrived: exactly its bytes leave the buffer, and what follows
    /// them stays for the next call. Where the frame is not complete yet,
    /// nothing changes and `None` says that the transport must be read.
    pub fn next_frame(&mut self) -> (r: Option<Vec<u8>>)
        ensures
            match r {
                Some(frame) => {
                    &&& frame_ready(old(self)@)
                    &&& frame@ == old(self)@.take(first_frame_len(old(self)@) as int)
                    &&& final(self)@ == old(self)@.skip(first_frame_len(old(self)@) as int)
                    &&& old(self)@ == frame@ + final(self)@
                },
                None => !frame_ready(old(self)@) && final(self)@ == old(self)@,
            },
    {
        if self.buffer.len() < HEADER_LEN {
            return None;
        }
        let payload_len = extract_length(self.buffer.as_slice());
        let total = HEADER_LEN + (payload_len as usize);
        if self.buffer.len() < total {
            return None;
        }
        let mut frame = self.buffer.split_off(total);
        core::mem::swap(&mut self.buffer, &mut frame);
        assert(old(self)@ =~= frame@ + self@);
        Some(frame)
    }

    /// Takes in what one read of the transport delivered, and hands out the
    /// next frame if it is now complete.
    ///
    /// A read of length zero means that the peer has closed the transport:
    /// the result is `ConnectionClosed`, and the buffered bytes stay as they
    /// are. Any other chunk is appended to the buffered bytes; the result is
    /// then the frame at their start, which leaves the buffer, or `None` where
    /// more bytes are needed.
    pub fn read(&mut self, chunk: &[u8]) -> (r: Result<Option<Vec<u8>>, FrameError>)
        ensures
            chunk@.len() == 0 ==> r == Err::<Option<Vec<u8>>, FrameError>(
                FrameError::ConnectionClosed,
            ) && final(self)@ == old(self)@,
            chunk@.len() > 0 ==> match r {
                Ok(Some(frame)) => {
                    &&& frame_ready(old(self)@ + chunk@)
                    &&& frame@ == (old(self)@ + chunk@).take(
                        first_frame_len(old(self)@ + chunk@) as int,
                    )
                    &&& final(self)@ == (old(self)@ + chunk@).skip(
                        first_frame_len(old(self)@ + chunk@) as int,
                    )
                    &&& old(self)@ + chunk@ == frame@ + final(self)@
                },
                Ok(None) => !frame_ready(old(self)@ + chunk@) && final(self)@ == old(self)@
                    + chunk@,
                Err(_) => false,
            },
    {
        if chunk.len() == 0 {
            return Err(FrameError::ConnectionClosed);
        }
        self.buffer.extend_from_slice(chunk);
        assert(self@ =~= old(self)@ + chunk@);
        Ok(self.next_frame())
    }
}

/// The wire bytes of a well-formed frame at the start of a buffer are a
/// whole frame, of exactly their length, whatever follows them.
pub proof fn lemma_encoded_frame_ready(f: Frame, rest: Seq<u8>)
    requires
        f.wf(),
    ensures
        frame_ready(encode_frame(f) + rest),
        first_frame_len(encode_frame(f) + rest) == encode_frame(f).len(),
        (encode_frame(f) + rest).take(encode_frame(f).len() as int) == encode_frame(f),
        (encode_frame(f) + rest).skip(encode_frame(f).len() as int) == rest,
{
    let bytes = encode_frame(f);
    let buf = bytes + rest;
    lemma_encoded_layout(f);
    assert(buf[0] == bytes[0] && buf[1] == bytes[1] && buf[2] == bytes[2]);
    assert(buf.take(bytes.len() as int) =~= bytes);
    assert(buf.skip(bytes.len() as int) =~= rest);
}

/// No frame is handed out before all of its bytes have arrived: a proper
/// prefix of the wire bytes of a well-formed frame is not a whole frame.
pub proof fn lemma_partial_frame_not_ready(f: Frame, k: int)
    requires
        f.wf(),
        0 <= k < encode_frame(f).len(),
    ensures
        !frame_ready(encode_frame(f).take(k)),
{
    let bytes = encode_frame(f);
    let part = bytes.take(k);
    lemma_encoded_layout(f);
    if k >= HEADER_LEN {
        assert(part[0] == bytes[0] && part[1] == bytes[1] && part[2] == bytes[2]);
    }
}

/// From the stream to the frame: where the wire bytes of a well-formed
/// frame with defined flags stand at the start of the buffered bytes, the
/// bytes handed out decode to that frame, with the reserved bit of its
/// stream id cleared.
pub proof fn lemma_reassembled_frame_decodes(f: Frame, rest: Seq<u8>)
    requires
        f.wf(),
        f.flags_known(),
    ensures
        frame_ready(encode_frame(f) + rest),
        decode_frame((encode_frame(f) + rest).take(first_frame_len(encode_frame(f) + rest) as int))
            == Ok::<Frame, FrameError>(
            Frame {
                frame_type: f.frame_type,
                flags: f.flags,
                stream_id: clear_reserved_bit(f.stream_id),
                payload_len: f.payload_len,
                payload: f.payload,
            },
        ),
{
    lemma_encoded_frame_ready(f, rest);
    lemma_frame_roundtrip(f);
}

/// The bytes that the reader hands out as a frame always hold a whole header
/// and the whole payload it declares: decoding them fails only on an unknown
/// frame type.
pub proof fn lemma_ready_frame_decodes(buf: Seq<u8>)
    requires
        frame_ready(buf),
    ensures
        decode_frame(buf.take(first_frame_len(buf) as int)) is Ok <==> buf[3] <= 0x09,
        buf[3] > 0x09 ==> decode_frame(buf.take(first_frame_len(buf) as int)) == Err::<
            Frame,
            FrameError,
        >(FrameError::InvalidFrameType),
        decode_frame(buf.take(first_frame_len(buf) as int)) == decode_frame(buf),
{
    let frame = buf.take(first_frame_len(buf) as int);
    assert(frame[0] == buf[0] && frame[1] == buf[1] && frame[2] == buf[2] && frame[3] == buf[3]);
    assert(frame[4] == buf[4] && frame[5] == buf[5] && frame[6] == buf[6] && frame[7] == buf[7]
        && frame[8] == buf[8]);
    assert(frame.subrange(HEADER_LEN as int, HEADER_LEN + declared_len(frame)) =~= buf.subrange(
        HEADER_LEN as int,
        HEADER_LEN + declared_len(buf),
    ));
}

} // verus!
