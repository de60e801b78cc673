//! The callback pipeline: decode a raw message, map it to a command, send the
//! command to the sink. It runs once for every incoming MIDI message.

use crate::command::{command_for, command_text, decimal, lemma_decimal_is_digits, text_of};
use crate::event::{decode, decoded, DecodeError, DecodedEvent};
use crate::sink::{line, send_serial, SerialSink, LINE_END};
use vstd::prelude::*;
use vstd::utf8::*;

verus! {

/// The command text that a raw message leads to, if any.
pub open spec fn raw_command(raw: Seq<u8>) -> Option<Seq<char>> {
    match decoded(raw) {
        Ok(event) => command_text(event),
        Err(_) => None,
    }
}

/// The bytes that a raw message puts on the wire of a configured device.
pub open spec fn wire_output(raw: Seq<u8>) -> Seq<u8> {
    match raw_command(raw) {
        Some(text) => line(text),
        None => Seq::empty(),
    }
}

/// What is queued in a sink after it has seen a raw message.
pub open spec fn pending_after_event(configured: bool, pending: Seq<u8>, raw: Seq<u8>) -> Seq<u8> {
    if configured {
        pending + wire_output(raw)
    } else {
        pending
    }
}

/// What is queued in a sink after it has seen a run of raw messages, one
/// after the other.
pub open spec fn pending_after_events(
    configured: bool,
    pending: Seq<u8>,
    raws: Seq<Seq<u8>>,
) -> Seq<u8>
    decreases raws.len(),
{
    if raws.len() == 0 {
        pending
    } else {
        pending_after_event(
            configured,
            pending_after_events(configured, pending, raws.drop_last()),
            raws.last(),
        )
    }
}

/// Handles one incoming MIDI message.
///
/// The message is decoded; a note-on or note-off is sent to the sink as its
/// command line, any other message leaves the sink as it was. A buffer that
/// does not decode is reported and leaves the sink untouched. The timestamp is
/// the caller's to log: nothing here depends on it.
pub fn handle_event(_timestamp: u64, data: &[u8], sink: &mut SerialSink) -> (r: Result<
    DecodedEvent,
    DecodeError,
>)
    ensures
        r == decoded(data@),
        final(sink).configured() == old(sink).configured(),
        final(sink).pending() == pending_after_event(
            old(sink).configured(),
            old(sink).pending(),
            data@,
        ),
{
    let event = match decode(data) {
        Ok(event) => event,
        Err(error) => return Err(error),
    };
    if let Some(command) = command_for(&event) {
        send_serial(command.as_str(), sink);
    }
    Ok(event)
}

/// A note-on message: status nibble 9, then a key and a velocity, both data
/// bytes.
pub open spec fn is_note_on(raw: Seq<u8>) -> bool {
    raw.len() >= 3 && raw[0] / 16 == 0x9 && raw[1] <= 127 && raw[2] <= 127
}

/// A note-off message: status nibble 8, then a key and a velocity, both data
/// bytes.
pub open spec fn is_note_off(raw: Seq<u8>) -> bool {
    raw.len() >= 3 && raw[0] / 16 == 0x8 && raw[1] <= 127 && raw[2] <= 127
}

/// Every note-on message for key `k` decodes to a note-on event with that key,
/// the channel of its status byte and its velocity, and maps to exactly `on k`.
pub proof fn lemma_note_on_maps_to_on(raw: Seq<u8>)
    requires
        is_note_on(raw),
    ensures
        decoded(raw) == Ok::<DecodedEvent, DecodeError>(
            DecodedEvent::NoteOn { key: raw[1], channel: raw[0] % 16, velocity: raw[2] },
        ),
        raw_command(raw) == Some(seq!['o', 'n', ' '] + decimal(raw[1] as nat)),
{
}

/// Every note-off message for key `k` decodes to a note-off event with that
/// key, the channel of its status byte and its velocity, and maps to exactly
/// `off k`.
pub proof fn lemma_note_off_maps_to_off(raw: Seq<u8>)
    requires
        is_note_off(raw),
    ensures
        decoded(raw) == Ok::<DecodedEvent, DecodeError>(
            DecodedEvent::NoteOff { key: raw[1], channel: raw[0] % 16, velocity: raw[2] },
        ),
        raw_command(raw) == Some(seq!['o', 'f', 'f', ' '] + decimal(raw[1] as nat)),
{
}

/// A message that is no note message (any other channel-voice message, or a
/// system message) leads to no command and puts nothing on the wire, whatever
/// the sink.
pub proof fn lemma_other_messages_are_silent(raw: Seq<u8>)
    requires
        raw.len() > 0,
        raw[0] >= 0xA0,
    ensures
        raw_command(raw) is None,
        wire_output(raw) == Seq::<u8>::empty(),
        forall|configured: bool, pending: Seq<u8>| #[trigger]
            pending_after_event(configured, pending, raw) == pending,
{
}

/// Decoding and mapping are functions of the buffer alone: two runs over the
/// same bytes end the same way, with the same event and the same command.
pub proof fn lemma_pipeline_is_repeatable(
    raw: Seq<u8>,
    first: Result<DecodedEvent, DecodeError>,
    first_command: Option<String>,
    second: Result<DecodedEvent, DecodeError>,
    second_command: Option<String>,
)
    requires
        first == decoded(raw),
        second == decoded(raw),
        first matches Ok(event) ==> text_of(first_command) == command_text(event),
        second matches Ok(event) ==> text_of(second_command) == command_text(event),
    ensures
        first == second,
        first is Ok ==> text_of(first_command) == text_of(second_command) && text_of(first_command)
            == raw_command(raw),
{
}

/// Without a serial device, no run of messages ever queues a byte.
pub proof fn lemma_unconfigured_sink_stays_silent(pending: Seq<u8>, raws: Seq<Seq<u8>>)
    ensures
        pending_after_events(false, pending, raws) == pending,
    decreases raws.len(),
{
    if raws.len() > 0 {
        lemma_unconfigured_sink_stays_silent(pending, raws.drop_last());
    }
}

/// With a serial device, a run of messages queues the wire output of each, in
/// order, behind what was waiting.
pub proof fn lemma_configured_sink_queues_in_order(
    pending: Seq<u8>,
    raws: Seq<Seq<u8>>,
    raw: Seq<u8>,
)
    ensures
        pending_after_events(true, pending, raws.push(raw)) == pending_after_events(
            true,
            pending,
            raws,
        ) + wire_output(raw),
{
    assert(raws.push(raw).drop_last() =~= raws);
}

/// The line of a command is plain ASCII: one byte for each character of its
/// text, none of them a line end, and then the single line end.
pub proof fn lemma_command_line_is_ascii(event: DecodedEvent)
    requires
        command_text(event) is Some,
    ensures
        ({
            let text = command_text(event).unwrap();
            let bytes = line(text);
            &&& bytes.len() == text.len() + 1
            &&& forall|i: int|
                0 <= i < text.len() ==> #[trigger] bytes[i] == text[i] as u8 && bytes[i] < 128
                    && bytes[i] != LINE_END
            &&& bytes[text.len() as int] == LINE_END
        }),
{
    let text = command_text(event).unwrap();
    let key: nat = match event {
        DecodedEvent::NoteOn { key, .. } => key as nat,
        DecodedEvent::NoteOff { key, .. } => key as nat,
        DecodedEvent::Other => 0,
    };
    lemma_decimal_is_digits(key);
    assert forall|i: int| 0 <= i < text.len() implies ' ' <= #[trigger] text[i] <= 'o' by {}
    is_ascii_chars_encode_utf8(text);
}

} // verus!
