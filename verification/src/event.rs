//! Event decoder: from the raw bytes of one live MIDI message to a structured
//! event.
//!
//! The bytes are parsed by `midly`. This module states which buffers that
//! parser accepts and what the accepted ones mean, as far as the bridge tells
//! messages apart: note on, note off, and everything else.

use midly::live::LiveEvent;
use midly::MidiMessage;
use vstd::prelude::*;

verus! {

/// One decoded live MIDI message.
///
/// Only note-on and note-off messages carry data; control changes, pitch bends,
/// system messages and the like are all `Other`.
#[derive(Clone, Copy, Debug, PartialEq, Eq, Structural)]
pub enum DecodedEvent {
    NoteOn { key: u8, channel: u8, velocity: u8 },
    NoteOff { key: u8, channel: u8, velocity: u8 },
    Other,
}

impl DecodedEvent {
    /// Keys and velocities are seven-bit values, channels four-bit values.
    pub open spec fn wf(self) -> bool {
        match self {
            DecodedEvent::NoteOn { key, channel, velocity } => key <= 127 && channel <= 15
                && velocity <= 127,
            DecodedEvent::NoteOff { key, channel, velocity } => key <= 127 && channel <= 15
                && velocity <= 127,
            DecodedEvent::Other => true,
        }
    }
}

/// Why a buffer is not a live MIDI message.
#[derive(Clone, Copy, Debug, PartialEq, Eq, Structural)]
pub enum DecodeError {
    /// The buffer is empty.
    NoStatus,
    /// A channel-voice status byte is not followed by all of its data bytes.
    Truncated,
    /// The first byte is a data byte or the end-of-exclusive marker.
    InvalidStatus,
}

/// Status bytes of channel-voice messages: the high nibble is the message
/// type, the low nibble the channel.
pub open spec fn is_channel_voice(status: u8) -> bool {
    0x80 <= status <= 0xEF
}

/// How many data bytes follow a channel-voice status byte: one after program
/// change and channel aftertouch, two after the others.
pub open spec fn data_length(status: u8) -> nat {
    if 0xC0 <= status <= 0xDF {
        1
    } else {
        2
    }
}

/// The `n` bytes after the status byte are present and all are data bytes, that
/// is, have the top bit clear.
pub open spec fn has_data(raw: Seq<u8>, n: nat) -> bool {
    raw.len() > n && forall|i: int| 1 <= i <= n ==> #[trigger] raw[i] <= 0x7F
}

/// The buffers that parse as a live message.
///
/// A channel-voice message needs its data bytes; what follows them is ignored.
/// System messages (`0xF0` and above) parse whatever follows, except for the
/// lone end-of-exclusive marker `0xF7`.
pub open spec fn parses(raw: Seq<u8>) -> bool {
    raw.len() > 0 && if is_channel_voice(raw[0]) {
        has_data(raw, data_length(raw[0]))
    } else {
        0xF0 <= raw[0] && raw[0] != 0xF7
    }
}

/// What a buffer that parses means.
pub open spec fn event_of(raw: Seq<u8>) -> DecodedEvent {
    if raw[0] / 16 == 0x9 {
        DecodedEvent::NoteOn { key: raw[1], channel: raw[0] % 16, velocity: raw[2] }
    } else if raw[0] / 16 == 0x8 {
        DecodedEvent::NoteOff { key: raw[1], channel: raw[0] % 16, velocity: raw[2] }
    } else {
        DecodedEvent::Other
    }
}

/// Why a buffer that does not parse is rejected.
pub open spec fn rejection(raw: Seq<u8>) -> DecodeError {
    if raw.len() == 0 {
        DecodeError::NoStatus
    } else if is_channel_voice(raw[0]) {
        DecodeError::Truncated
    } else {
        DecodeError::InvalidStatus
    }
}

/// The outcome of decoding a buffer.
pub open spec fn decoded(raw: Seq<u8>) -> Result<DecodedEvent, DecodeError> {
    if parses(raw) {
        Ok(event_of(raw))
    } else {
        Err(rejection(raw))
    }
}

/// Every event that a buffer decodes to is within the MIDI ranges: key and
/// velocity in seven bits, channel in four.
pub proof fn lemma_decoded_is_wf(raw: Seq<u8>)
    ensures
        decoded(raw) matches Ok(event) ==> event.wf(),
{
}

/// `midly::Error`, the parser's error. It is passed on unopened: nothing is
/// claimed of what it holds.
#[verifier::external_type_specification]
#[verifier::external_body]
pub struct ExMidlyError(midly::Error);

/// Calls `midly::live::LiveEvent::parse` and keeps of its result what the
/// bridge distinguishes.
///
/// Trusted, not proved. The contract claims of the parser:
/// - It takes the first byte as the status byte and, as data, the bytes after
///   it up to the first one with the top bit set. An empty buffer is an error.
/// - After a channel-voice status (`0x80..=0xEF`) it wants two data bytes, or
///   one after program change and channel aftertouch (`0xC0..=0xDF`); with
///   fewer it fails, and more are ignored. A note-off (`0x8n`) or note-on
///   (`0x9n`) comes back with channel `n`, the first data byte as key and the
///   second as velocity.
/// - A system status (`0xF0..=0xFF`) parses with whatever data there is, but
///   for `0xF7`, which fails, as does a first byte below `0x80`.
/// - It does not panic.
#[verifier::external_body]
fn parse_live(data: &[u8]) -> (r: Result<DecodedEvent, midly::Error>)
    ensures
        r is Ok <==> parses(data@),
        r matches Ok(event) ==> event == event_of(data@),
{
    match LiveEvent::parse(data) {
        Ok(LiveEvent::Midi { channel, message: MidiMessage::NoteOn { key, vel } }) => Ok(
            DecodedEvent::NoteOn { key: key.as_int(), channel: channel.as_int(), velocity: vel.as_int() },
        ),
        Ok(LiveEvent::Midi { channel, message: MidiMessage::NoteOff { key, vel } }) => Ok(
            DecodedEvent::NoteOff { key: key.as_int(), channel: channel.as_int(), velocity: vel.as_int() },
        ),
        Ok(_) => Ok(DecodedEvent::Other),
        Err(e) => Err(e),
    }
}

/// Decodes one raw MIDI message.
///
/// Succeeds exactly on the buffers that parse, with the event they mean; the
/// error says what is wrong with the others.
pub fn decode(data: &[u8]) -> (r: Result<DecodedEvent, DecodeError>)
    ensures
        r == decoded(data@),
        r matches Ok(event) ==> event.wf(),
{
    match parse_live(data) {
        Ok(event) => Ok(event),
        Err(_) => {
            if data.len() == 0 {
                Err(DecodeError::NoStatus)
            } else if 0x80 <= data[0] && data[0] <= 0xEF {
                Err(DecodeError::Truncated)
            } else {
                Err(DecodeError::InvalidStatus)
            }
        },
    }
}

} // verus!
