use h2frame::error::FrameError;
use h2frame::frame::{FrameFlags, FrameReader, FrameType, FrameWriter};
use h2frame::http2::Http2Reader;

/// Stands for a transport: hands out the given chunks one per read, and a
/// zero-length read once they are used up.
struct Chunks {
    chunks: Vec<Vec<u8>>,
    reads: usize,
}

impl Chunks {
    fn new(chunks: Vec<Vec<u8>>) -> Self {
        Chunks { chunks, reads: 0 }
    }

    fn read(&mut self) -> Vec<u8> {
        let chunk = self.chunks.get(self.reads).cloned().unwrap_or_default();
        self.reads += 1;
        chunk
    }
}

/// The loop that an owner of a transport runs to get the next frame.
fn next_frame(reader: &mut Http2Reader, transport: &mut Chunks) -> Result<Vec<u8>, FrameError> {
    if let Some(frame) = reader.next_frame() {
        return Ok(frame);
    }
    loop {
        let chunk = transport.read();
        if let Some(frame) = reader.read(&chunk)? {
            return Ok(frame);
        }
    }
}

fn ping(stream_id: u32) -> Vec<u8> {
    FrameWriter::new(FrameType::PING, FrameFlags::none(), stream_id, vec![]).serialize().unwrap()
}

fn data(stream_id: u32, payload: Vec<u8>) -> Vec<u8> {
    FrameWriter::new(FrameType::DATA, FrameFlags::end_stream(), stream_id, payload)
        .serialize()
        .unwrap()
}

#[test]
fn new_reader_holds_nothing() {
    let mut reader = Http2Reader::new();
    assert_eq!(reader.buffered(), 0);
    assert_eq!(reader.next_frame(), None);
    assert_eq!(reader.buffered(), 0);
}

#[test]
fn header_in_three_chunks_yields_frame_at_ninth_byte() {
    let frame = ping(1);
    assert_eq!(frame.len(), 9);
    let mut reader = Http2Reader::new();
    assert_eq!(reader.read(&frame[0..3]), Ok(None));
    assert_eq!(reader.next_frame(), None);
    assert_eq!(reader.read(&frame[3..6]), Ok(None));
    assert_eq!(reader.next_frame(), None);
    assert_eq!(reader.buffered(), 6);
    assert_eq!(reader.read(&frame[6..9]), Ok(Some(frame.clone())));
    assert_eq!(reader.buffered(), 0);
    assert_eq!(reader.next_frame(), None);
}

#[test]
fn header_in_three_chunks_through_the_read_loop() {
    let frame = ping(1);
    let mut transport =
        Chunks::new(vec![frame[0..3].to_vec(), frame[3..6].to_vec(), frame[6..9].to_vec()]);
    let mut reader = Http2Reader::new();
    assert_eq!(next_frame(&mut reader, &mut transport), Ok(frame));
    assert_eq!(transport.reads, 3);
}

#[test]
fn two_frames_in_one_chunk_come_out_one_at_a_time() {
    let first = data(1, vec![1, 2, 3]);
    let second = ping(2);
    let mut chunk = first.clone();
    chunk.extend_from_slice(&second);
    let mut transport = Chunks::new(vec![chunk]);
    let mut reader = Http2Reader::new();

    assert_eq!(next_frame(&mut reader, &mut transport), Ok(first));
    assert_eq!(transport.reads, 1);
    assert_eq!(reader.buffered(), second.len());
    assert_eq!(next_frame(&mut reader, &mut transport), Ok(second));
    assert_eq!(transport.reads, 1);
    assert_eq!(reader.buffered(), 0);
}

#[test]
fn zero_length_read_is_connection_closed() {
    let mut reader = Http2Reader::new();
    assert_eq!(reader.read(&[]), Err(FrameError::ConnectionClosed));

    let mut reader = Http2Reader::new();
    assert_eq!(reader.read(&[0, 0, 4, 0]), Ok(None));
    assert_eq!(reader.read(&[]), Err(FrameError::ConnectionClosed));
    assert_eq!(reader.buffered(), 4);

    let mut transport = Chunks::new(vec![vec![0, 0, 1]]);
    let mut reader = Http2Reader::new();
    assert_eq!(next_frame(&mut reader, &mut transport), Err(FrameError::ConnectionClosed));
}

#[test]
fn frame_is_held_back_until_its_payload_is_complete() {
    let frame = data(5, vec![10, 20, 30, 40, 50]);
    let mut reader = Http2Reader::new();
    for k in 0..frame.len() - 1 {
        assert_eq!(reader.read(&frame[k..k + 1]), Ok(None));
        assert_eq!(reader.buffered(), k + 1);
    }
    assert_eq!(reader.read(&frame[frame.len() - 1..]), Ok(Some(frame)));
    assert_eq!(reader.buffered(), 0);
}

#[test]
fn bytes_behind_a_frame_stay_buffered() {
    let first = data(1, vec![0xab; 20]);
    let second = data(3, vec![0xcd; 10]);
    let mut chunk = first.clone();
    chunk.extend_from_slice(&second[..4]);
    let mut reader = Http2Reader::new();
    assert_eq!(reader.read(&chunk), Ok(Some(first)));
    assert_eq!(reader.buffered(), 4);
    assert_eq!(reader.next_frame(), None);
    assert_eq!(reader.read(&second[4..]), Ok(Some(second)));
    assert_eq!(reader.buffered(), 0);
}

#[test]
fn buffer_grows_by_chunk_and_shrinks_by_frame() {
    let a = data(1, vec![1; 7]);
    let b = data(1, vec![2; 3]);
    let c = ping(0);
    let mut all = a.clone();
    all.extend_from_slice(&b);
    all.extend_from_slice(&c);
    let mut reader = Http2Reader::new();
    assert_eq!(reader.read(&all), Ok(Some(a.clone())));
    assert_eq!(reader.buffered(), all.len() - a.len());
    assert_eq!(reader.next_frame(), Some(b.clone()));
    assert_eq!(reader.buffered(), c.len());
    assert_eq!(reader.next_frame(), Some(c));
    assert_eq!(reader.buffered(), 0);
    assert_eq!(reader.next_frame(), None);
}

#[test]
fn reassembled_frames_decode() {
    let frames = vec![data(1, vec![9; 100]), ping(7), data(0x7fff_ffff, vec![])];
    let stream: Vec<u8> = frames.concat();
    let chunks: Vec<Vec<u8>> = stream.chunks(7).map(|c| c.to_vec()).collect();
    let mut transport = Chunks::new(chunks);
    let mut reader = Http2Reader::new();
    for expected in frames {
        let bytes = next_frame(&mut reader, &mut transport).unwrap();
        assert_eq!(bytes, expected);
        let frame = FrameReader::read_frame(&bytes).unwrap();
        assert_eq!(frame.payload_len as usize, bytes.len() - 9);
    }
    assert_eq!(next_frame(&mut reader, &mut transport), Err(FrameError::ConnectionClosed));
}

#[test]
fn frame_of_unknown_type_is_still_cut_out() {
    let bytes = [0, 0, 2, 0x0a, 0, 0, 0, 0, 1, 5, 6];
    let mut reader = Http2Reader::new();
    assert_eq!(reader.read(&bytes), Ok(Some(bytes.to_vec())));
    assert_eq!(FrameReader::read_frame(&bytes), Err(FrameError::InvalidFrameType));
}
