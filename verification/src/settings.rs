//! The SETTINGS payload: an ordered list of six-byte records, each a 16-bit
//! identifier followed by a 32-bit value, both big-endian.

use crate::frame::{encode_frame, Frame, FrameFlags, FrameType, FrameWriter, MAX_PAYLOAD_LEN};
use crate::wire::{
    be16, be16_bytes, be32, be32_bytes, lemma_be16_of_bytes, lemma_be32_of_bytes, push_u16,
    push_u32, read_u16, read_u32,
};
use vstd::prelude::*;

verus! {

/// Length of one setting on the wire.
pub const SETTING_LEN: usize = 6;

/// Identifier of the setting that limits the number of concurrent streams.
pub const MAX_CONCURRENT_STREAMS: u16 = 0x03;

/// Identifier of the setting that gives the initial flow-control window.
pub const INITIAL_WINDOW_SIZE: u16 = 0x04;

/// Identifier of the setting that gives the largest frame payload accepted.
pub const MAX_FRAME_SIZE: u16 = 0x05;

/// Identifier of the setting that limits the size of a header list.
pub const MAX_HEADER_LIST_SIZE: u16 = 0x06;

/// One setting: an identifier and its value.
#[derive(Clone, Copy, Debug, PartialEq, Eq, Structural)]
pub struct Setting {
    pub id: u16,
    pub value: u32,
}

impl Setting {
    /// The setting with the given identifier and value.
    pub fn new(id: u16, value: u32) -> (r: Self)
        ensures
            r == (Setting { id, value }),
    {
        Setting { id, value }
    }
}

/// The six wire bytes of one setting.
pub open spec fn setting_bytes(s: Setting) -> Seq<u8> {
    be16_bytes(s.id) + be32_bytes(s.value)
}

/// The payload that carries a list of settings: their records one after the
/// other, in the order of the list.
pub open spec fn encode_settings(list: Seq<Setting>) -> Seq<u8> {
    Seq::new(6 * list.len(), |k: int| setting_bytes(list[k / 6])[k % 6])
}

/// The setting whose record starts at offset `at` of a payload.
pub open spec fn setting_at(payload: Seq<u8>, at: int) -> Setting {
    Setting {
        id: be16(payload[at], payload[at + 1]) as u16,
        value: be32(payload[at + 2], payload[at + 3], payload[at + 4], payload[at + 5]) as u32,
    }
}

/// The settings that a payload carries: one for each whole record, in order.
/// A remainder of fewer than six bytes at the end carries nothing.
pub open spec fn decode_settings(payload: Seq<u8>) -> Seq<Setting> {
    Seq::new(payload.len() / 6, |i: int| setting_at(payload, 6 * i))
}

/// The list of settings that a list of (identifier, value) pairs stands for.
pub open spec fn settings_of_pairs(pairs: Seq<(u16, u32)>) -> Seq<Setting> {
    Seq::new(pairs.len(), |i: int| Setting { id: pairs[i].0, value: pairs[i].1 })
}

/// The settings a client advertises at first: at most 100 concurrent
/// streams, an initial window of 65535, frames of up to 16384 bytes, and a
/// header list size of 0.
pub open spec fn default_settings() -> Seq<Setting> {
    seq![
        Setting { id: MAX_CONCURRENT_STREAMS, value: 100 },
        Setting { id: INITIAL_WINDOW_SIZE, value: 65535 },
        Setting { id: MAX_FRAME_SIZE, value: 16384 },
        Setting { id: MAX_HEADER_LIST_SIZE, value: 0 },
    ]
}

/// The nine bytes of the frame that acknowledges the peer's settings.
pub open spec fn settings_ack_bytes() -> Seq<u8> {
    seq![0u8, 0u8, 0u8, 4u8, 1u8, 0u8, 0u8, 0u8, 0u8]
}

/// Decodes a SETTINGS payload. Never fails: an empty payload gives no
/// setting, and a remainder of fewer than six bytes at the end is dropped.
pub fn parse_settings(payload: &[u8]) -> (list: Vec<Setting>)
    ensures
        list@ == decode_settings(payload@),
        list@.len() == payload@.len() / 6,
{
    let mut list: Vec<Setting> = Vec::new();
    let mut at: usize = 0;
    while payload.len() - at >= SETTING_LEN
        invariant
            at <= payload@.len(),
            at == 6 * list@.len(),
            list@.len() <= payload@.len() / 6,
            forall|i: int| 0 <= i < list@.len() ==> list@[i] == setting_at(payload@, 6 * i),
        decreases payload@.len() - at,
    {
        let id = read_u16(payload, at);
        let value = read_u32(payload, at + 2);
        list.push(Setting::new(id, value));
        at = at + SETTING_LEN;
    }
    assert(list@ =~= decode_settings(payload@));
    list
}

/// An ordered list of settings.
#[derive(Debug, PartialEq, Eq)]
pub struct Settings {
    pub settings: Vec<Setting>,
}

impl View for Settings {
    type V = Seq<Setting>;

    open spec fn view(&self) -> Seq<Setting> {
        self.settings@
    }
}

impl Default for Settings {
    /// The settings a client advertises at first. Each call makes a fresh
    /// value.
    fn default() -> (r: Self)
        ensures
            r@ == default_settings(),
    {
        let mut settings: Vec<Setting> = Vec::new();
        settings.push(Setting::new(MAX_CONCURRENT_STREAMS, 100));
        settings.push(Setting::new(INITIAL_WINDOW_SIZE, 65535));
        settings.push(Setting::new(MAX_FRAME_SIZE, 16384));
        settings.push(Setting::new(MAX_HEADER_LIST_SIZE, 0));
        assert(settings@ =~= default_settings());
        Settings { settings }
    }
}

impl Settings {
    /// The empty list of settings.
    pub fn new() -> (r: Self)
        ensures
            r@ == Seq::<Setting>::empty(),
    {
        Settings { settings: Vec::new() }
    }

    /// The frame that acknowledges the peer's settings: a SETTINGS frame with
    /// the ACK flag, on stream 0, without payload. Always the same nine bytes.
    pub fn write_settings_ack() -> (ack: Vec<u8>)
        ensures
            ack@ == settings_ack_bytes(),
    {
        let ack: Vec<u8> = vec![0, 0, 0, 4, 1, 0, 0, 0, 0];
        assert(ack@ =~= settings_ack_bytes());
        ack
    }

    /// The list of settings that the pairs stand for, in their order.
    pub fn from_pairs(pairs: Vec<(u16, u32)>) -> (r: Self)
        ensures
            r@ == settings_of_pairs(pairs@),
    {
        let mut settings = Settings::new();
        let mut i: usize = 0;
        while i < pairs.len()
            invariant
                i <= pairs@.len(),
                settings@ == settings_of_pairs(pairs@.take(i as int)),
            decreases pairs@.len() - i,
        {
            let (id, value) = pairs[i];
            settings.settings.push(Setting::new(id, value));
            i = i + 1;
            assert(settings@ =~= settings_of_pairs(pairs@.take(i as int)));
        }
        assert(pairs@.take(i as int) =~= pairs@);
        settings
    }

    /// The payload that carries these settings: for each one, in order, two
    /// bytes of identifier and four bytes of value. Equal identifiers are
    /// all written.
    pub fn serialize(self) -> (payload: Vec<u8>)
        ensures
            payload@ == encode_settings(self@),
            payload@.len() == 6 * self@.len(),
    {
        let mut payload: Vec<u8> = Vec::new();
        let mut i: usize = 0;
        while i < self.settings.len()
            invariant
                i <= self@.len(),
                payload@ == encode_settings(self@.take(i as int)),
            decreases self@.len() - i,
        {
            let setting = self.settings[i];
            let ghost before = payload@;
            push_u16(&mut payload, setting.id);
            push_u32(&mut payload, setting.value);
            i = i + 1;
            assert(payload@ =~= before + setting_bytes(setting));
            assert(payload@ =~= encode_settings(self@.take(i as int)));
        }
        assert(self@.take(i as int) =~= self@);
        payload
    }
}

/// Collects (identifier, value) pairs for a SETTINGS frame.
pub struct SettingsBuilder {
    settings: Vec<(u16, u32)>,
}

impl View for SettingsBuilder {
    type V = Seq<(u16, u32)>;

    closed spec fn view(&self) -> Seq<(u16, u32)> {
        self.settings@
    }
}

impl SettingsBuilder {
    /// A builder that holds no setting yet.
    pub fn new() -> (r: Self)
        ensures
            r@ == Seq::<(u16, u32)>::empty(),
    {
        SettingsBuilder { settings: Vec::new() }
    }

    /// The builder with one more setting at the end.
    pub fn add_setting(self, id: u16, value: u32) -> (r: Self)
        ensures
            r@ == self@.push((id, value)),
    {
        let mut settings = self.settings;
        settings.push((id, value));
        SettingsBuilder { settings }
    }

    /// The SETTINGS frame that carries the collected settings, in the order
    /// in which they were added: no flags, stream 0.
    pub fn build(self) -> (frame: FrameWriter)
        ensures
            frame@ == (Frame {
                frame_type: FrameType::SETTINGS,
                flags: 0,
                stream_id: 0,
                payload_len: ((6 * self@.len()) % 0x1_0000_0000) as u32,
                payload: encode_settings(settings_of_pairs(self@)),
            }),
            6 * self@.len() <= MAX_PAYLOAD_LEN ==> frame@.wf(),
    {
        let settings = Settings::from_pairs(self.settings);
        let payload = settings.serialize();
        FrameWriter::new(FrameType::SETTINGS, FrameFlags::none(), 0, payload)
    }
}

/// Round trip: decoding the payload written for a list of settings gives the
/// list back, in order; the empty list included.
pub proof fn lemma_settings_roundtrip(list: Seq<Setting>)
    ensures
        decode_settings(encode_settings(list)) == list,
{
    lemma_settings_trailing_bytes_dropped(list, Seq::empty());
    assert(encode_settings(list) + Seq::<u8>::empty() =~= encode_settings(list));
}

/// Fewer than six bytes behind the last whole record change nothing: the
/// payload written for a list, followed by such a remainder, still decodes to
/// the list.
pub proof fn lemma_settings_trailing_bytes_dropped(list: Seq<Setting>, rest: Seq<u8>)
    requires
        rest.len() < SETTING_LEN,
    ensures
        decode_settings(encode_settings(list) + rest) == list,
{
    let payload = encode_settings(list) + rest;
    assert(payload.len() / 6 == list.len());
    assert forall|i: int| 0 <= i < list.len() implies #[trigger] decode_settings(payload)[i]
        == list[i] by {
        let s = list[i];
        lemma_be16_of_bytes(s.id);
        lemma_be32_of_bytes(s.value);
        assert forall|j: int| 0 <= j < 6 implies payload[6 * i + j] == setting_bytes(s)[j] by {
            assert((6 * i + j) / 6 == i);
            assert((6 * i + j) % 6 == j);
        }
        assert(payload[6 * i] == setting_bytes(s)[0]);
        assert(payload[6 * i + 1] == setting_bytes(s)[1]);
        assert(payload[6 * i + 2] == setting_bytes(s)[2]);
        assert(payload[6 * i + 3] == setting_bytes(s)[3]);
        assert(payload[6 * i + 4] == setting_bytes(s)[4]);
        assert(payload[6 * i + 5] == setting_bytes(s)[5]);
    }
    assert(decode_settings(payload) =~= list);
}

/// The acknowledgement is the wire form of a SETTINGS frame with the ACK
/// flag (`0x01`), stream 0 and an empty payload.
pub proof fn lemma_settings_ack_is_frame()
    ensures
        settings_ack_bytes() == encode_frame(
            Frame {
                frame_type: FrameType::SETTINGS,
                flags: 0x01,
                stream_id: 0,
                payload_len: 0,
                payload: Seq::empty(),
            },
        ),
{
    let f = Frame {
        frame_type: FrameType::SETTINGS,
        flags: 0x01,
        stream_id: 0,
        payload_len: 0,
        payload: Seq::empty(),
    };
    assert(settings_ack_bytes() =~= encode_frame(f));
}

} // verus!
