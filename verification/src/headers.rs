//! Header lists and the HEADERS frame that carries one.
//!
//! The name/value pairs are compressed by the `hpack` crate. What its encoder
//! returns is not modelled here: it is named, and the contracts say which
//! list of pairs was handed to it.

use crate::error::FrameError;
use crate::frame::{
    lemma_flags_union, Frame, FrameFlags, FrameType, FrameWriter, END_HEADERS, END_STREAM,
    MAX_PAYLOAD_LEN,
};
use vstd::prelude::*;

verus! {

/// The header block that a fresh HPACK encoder of the `hpack` crate gives
/// for a list of headers.
pub uninterp spec fn hpack_encoded(headers: Seq<(Seq<char>, Seq<char>)>) -> Seq<u8>;

/// Compresses a header list with a fresh encoder: `hpack::Encoder::new`
/// followed by `hpack::Encoder::encode` on the names and values as bytes, in
/// the order of the list.
///
/// Trusted: the encoder starts from the static table and an empty dynamic
/// table each time, so the block depends on the list alone, and `encode`
/// returns it without ever failing. Nothing else is claimed of the block.
#[verifier::external_body]
fn hpack_encode(headers: &Vec<(String, String)>) -> (block: Vec<u8>)
    ensures
        block@ == hpack_encoded(headers.deep_view()),
{
    let mut encoder = hpack::Encoder::new();
    let pairs: Vec<(&[u8], &[u8])> = headers.iter().map(
        |(name, value)| (name.as_bytes(), value.as_bytes()),
    ).collect();
    encoder.encode(pairs)
}

/// The headers of the request that `FrameWriter::new_frame_writer` carries:
/// `GET /` over `https` to `example.com`.
pub open spec fn default_request_headers() -> Seq<(Seq<char>, Seq<char>)> {
    seq![
        (":method"@, "GET"@),
        (":path"@, "/"@),
        (":scheme"@, "https"@),
        (":authority"@, "example.com"@),
    ]
}

/// An ordered list of headers. Order matters: pseudo-headers come first.
pub struct FrameHeaders {
    headers: Vec<(String, String)>,
}

impl View for FrameHeaders {
    type V = Seq<(Seq<char>, Seq<char>)>;

    closed spec fn view(&self) -> Seq<(Seq<char>, Seq<char>)> {
        self.headers.deep_view()
    }
}

impl FrameHeaders {
    /// The empty header list.
    pub fn new() -> (r: Self)
        ensures
            r@ == Seq::<(Seq<char>, Seq<char>)>::empty(),
    {
        let r = FrameHeaders { headers: Vec::new() };
        assert(r@ =~= Seq::<(Seq<char>, Seq<char>)>::empty());
        r
    }

    /// The header list that holds the given pairs, in their order.
    pub fn from_pairs(headers: Vec<(String, String)>) -> (r: Self)
        ensures
            r@ == headers.deep_view(),
    {
        FrameHeaders { headers }
    }

    /// Appends one header at the end of the list.
    pub fn add_header(&mut self, name: String, value: String)
        ensures
            final(self)@ == old(self)@.push((name@, value@)),
    {
        self.headers.push((name, value));
        assert(self@ =~= old(self)@.push((name@, value@)));
    }

    /// The header block for this list: the list compressed by a fresh HPACK
    /// encoder.
    pub fn serialize(&self) -> (block: Vec<u8>)
        ensures
            block@ == hpack_encoded(self@),
    {
        hpack_encode(&self.headers)
    }
}

/// The HEADERS frame that carries a compressed header block on a stream,
/// with both `END_HEADERS` and `END_STREAM` set: a request is sent as one
/// frame that also ends the stream.
pub open spec fn headers_frame(block: Seq<u8>, stream_id: u32) -> Frame {
    Frame {
        frame_type: FrameType::HEADERS,
        flags: 0x05,
        stream_id,
        payload_len: (block.len() % 0x1_0000_0000) as u32,
        payload: block,
    }
}

/// Wraps a compressed header block as the HEADERS frame of a request on
/// stream `stream_id`. The frame is well formed whenever the block fits the
/// 24-bit length field.
pub fn headers_frame_writer(block: Vec<u8>, stream_id: u32) -> (frame: FrameWriter)
    ensures
        frame@ == headers_frame(block@, stream_id),
        frame@.flags == END_HEADERS | END_STREAM,
        frame.flags.wf(),
        block@.len() <= MAX_PAYLOAD_LEN ==> frame@.wf(),
{
    let end_headers = FrameFlags::end_headers();
    let end_stream = FrameFlags::end_stream();
    proof {
        lemma_flags_union(end_headers, end_stream);
    }
    assert(END_HEADERS | END_STREAM == 0x05) by (bit_vector);
    FrameWriter::new(FrameType::HEADERS, end_headers | end_stream, stream_id, block)
}

/// Collects headers for a HEADERS frame.
pub struct HeadersBuilder {
    headers: Vec<(String, String)>,
}

impl View for HeadersBuilder {
    type V = Seq<(Seq<char>, Seq<char>)>;

    closed spec fn view(&self) -> Seq<(Seq<char>, Seq<char>)> {
        self.headers.deep_view()
    }
}

impl HeadersBuilder {
    /// A builder that holds no header yet.
    pub fn new() -> (r: Self)
        ensures
            r@ == Seq::<(Seq<char>, Seq<char>)>::empty(),
    {
        let r = HeadersBuilder { headers: Vec::new() };
        assert(r@ =~= Seq::<(Seq<char>, Seq<char>)>::empty());
        r
    }

    /// The builder with one more header at the end.
    pub fn add_header(self, name: String, value: String) -> (r: Self)
        ensures
            r@ == self@.push((name@, value@)),
    {
        let mut headers = self.headers;
        headers.push((name, value));
        let r = HeadersBuilder { headers };
        assert(r@ =~= self@.push((name@, value@)));
        r
    }

    /// The HEADERS frame for the collected headers on stream `stream_id`:
    /// the list compressed by a fresh HPACK encoder, wrapped as
    /// `headers_frame_writer` does. Always succeeds: the encoder accepts every
    /// header list.
    pub fn build(self, stream_id: u32) -> (r: Result<FrameWriter, FrameError>)
        ensures
            r matches Ok(frame) && frame@ == headers_frame(hpack_encoded(self@), stream_id),
            r matches Ok(frame) && frame.flags.wf() && (frame.payload@.len() <= MAX_PAYLOAD_LEN
                ==> frame@.wf()),
    {
        let headers = FrameHeaders::from_pairs(self.headers);
        let block = headers.serialize();
        Ok(headers_frame_writer(block, stream_id))
    }
}

} // verus!
