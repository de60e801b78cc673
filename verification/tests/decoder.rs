use drummond::event::{decode, DecodeError, DecodedEvent};

#[test]
fn note_on_decodes_with_key_channel_and_velocity() {
    let raw: [u8; 3] = [0x90, 60, 100];
    assert_eq!(
        decode(&raw),
        Ok(DecodedEvent::NoteOn { key: 60, channel: 0, velocity: 100 })
    );
}

#[test]
fn note_off_decodes_with_key_channel_and_velocity() {
    let raw: [u8; 3] = [0x83, 37, 0];
    assert_eq!(
        decode(&raw),
        Ok(DecodedEvent::NoteOff { key: 37, channel: 3, velocity: 0 })
    );
}

#[test]
fn channel_is_the_low_nibble_of_the_status_byte() {
    for channel in 0u8..16 {
        let on: [u8; 3] = [0x90 | channel, 1, 2];
        let off: [u8; 3] = [0x80 | channel, 3, 4];
        assert_eq!(decode(&on), Ok(DecodedEvent::NoteOn { key: 1, channel, velocity: 2 }));
        assert_eq!(decode(&off), Ok(DecodedEvent::NoteOff { key: 3, channel, velocity: 4 }));
    }
}

#[test]
fn note_on_with_velocity_zero_stays_a_note_on() {
    let raw: [u8; 3] = [0x95, 64, 0];
    assert_eq!(
        decode(&raw),
        Ok(DecodedEvent::NoteOn { key: 64, channel: 5, velocity: 0 })
    );
}

#[test]
fn extreme_keys_and_velocities_decode() {
    let low: [u8; 3] = [0x9F, 0, 0];
    let high: [u8; 3] = [0x8F, 127, 127];
    assert_eq!(decode(&low), Ok(DecodedEvent::NoteOn { key: 0, channel: 15, velocity: 0 }));
    assert_eq!(
        decode(&high),
        Ok(DecodedEvent::NoteOff { key: 127, channel: 15, velocity: 127 })
    );
}

#[test]
fn decoded_notes_are_within_midi_ranges() {
    for status in 0x80u8..=0x9F {
        for key in 0u8..=127 {
            let raw: [u8; 3] = [status, key, 127 - key];
            match decode(&raw) {
                Ok(DecodedEvent::NoteOn { key: k, channel, velocity })
                | Ok(DecodedEvent::NoteOff { key: k, channel, velocity }) => {
                    assert!(k <= 127);
                    assert!(channel <= 15);
                    assert!(velocity <= 127);
                    assert_eq!(k, key);
                    assert_eq!(velocity, 127 - key);
                    assert_eq!(channel, status & 0x0F);
                }
                other => panic!("note message decoded to {:?}", other),
            }
        }
    }
}

#[test]
fn other_channel_voice_messages_decode_to_other() {
    let aftertouch: [u8; 3] = [0xA1, 60, 10];
    let control_change: [u8; 3] = [0xB0, 7, 127];
    let program_change: [u8; 2] = [0xC2, 5];
    let channel_pressure: [u8; 2] = [0xD3, 90];
    let pitch_bend: [u8; 3] = [0xE4, 0, 64];
    assert_eq!(decode(&aftertouch), Ok(DecodedEvent::Other));
    assert_eq!(decode(&control_change), Ok(DecodedEvent::Other));
    assert_eq!(decode(&program_change), Ok(DecodedEvent::Other));
    assert_eq!(decode(&channel_pressure), Ok(DecodedEvent::Other));
    assert_eq!(decode(&pitch_bend), Ok(DecodedEvent::Other));
}

#[test]
fn system_messages_decode_to_other() {
    let sysex: [u8; 5] = [0xF0, 0x7E, 0x00, 0x06, 0xF7];
    let empty_sysex: [u8; 1] = [0xF0];
    let quarter_frame: [u8; 2] = [0xF1, 0x23];
    let song_position: [u8; 3] = [0xF2, 1, 2];
    let song_select: [u8; 2] = [0xF3, 9];
    let undefined: [u8; 1] = [0xF4];
    let tune_request: [u8; 1] = [0xF6];
    assert_eq!(decode(&sysex), Ok(DecodedEvent::Other));
    assert_eq!(decode(&empty_sysex), Ok(DecodedEvent::Other));
    assert_eq!(decode(&quarter_frame), Ok(DecodedEvent::Other));
    assert_eq!(decode(&song_position), Ok(DecodedEvent::Other));
    assert_eq!(decode(&song_select), Ok(DecodedEvent::Other));
    assert_eq!(decode(&undefined), Ok(DecodedEvent::Other));
    assert_eq!(decode(&tune_request), Ok(DecodedEvent::Other));
    for status in 0xF8u8..=0xFF {
        let realtime: [u8; 1] = [status];
        assert_eq!(decode(&realtime), Ok(DecodedEvent::Other));
    }
}

#[test]
fn system_messages_with_missing_data_still_decode() {
    let quarter_frame: [u8; 1] = [0xF1];
    let song_position: [u8; 2] = [0xF2, 1];
    let song_select: [u8; 1] = [0xF3];
    assert_eq!(decode(&quarter_frame), Ok(DecodedEvent::Other));
    assert_eq!(decode(&song_position), Ok(DecodedEvent::Other));
    assert_eq!(decode(&song_select), Ok(DecodedEvent::Other));
}

#[test]
fn empty_buffer_has_no_status() {
    let raw: [u8; 0] = [];
    assert_eq!(decode(&raw), Err(DecodeError::NoStatus));
}

#[test]
fn missing_data_bytes_are_truncation() {
    let status_only: [u8; 1] = [0x90];
    let one_of_two: [u8; 2] = [0x90, 60];
    let program_change: [u8; 1] = [0xC0];
    let note_off: [u8; 2] = [0x80, 1];
    assert_eq!(decode(&status_only), Err(DecodeError::Truncated));
    assert_eq!(decode(&one_of_two), Err(DecodeError::Truncated));
    assert_eq!(decode(&program_change), Err(DecodeError::Truncated));
    assert_eq!(decode(&note_off), Err(DecodeError::Truncated));
}

#[test]
fn a_status_byte_in_place_of_data_is_truncation() {
    let key_has_top_bit: [u8; 3] = [0x90, 0x80, 100];
    let velocity_has_top_bit: [u8; 3] = [0x90, 60, 0xFF];
    let next_message_too_early: [u8; 4] = [0x80, 60, 0x90, 61];
    assert_eq!(decode(&key_has_top_bit), Err(DecodeError::Truncated));
    assert_eq!(decode(&velocity_has_top_bit), Err(DecodeError::Truncated));
    assert_eq!(decode(&next_message_too_early), Err(DecodeError::Truncated));
}

#[test]
fn data_byte_first_is_an_invalid_status() {
    let zero: [u8; 1] = [0x00];
    let running_status: [u8; 2] = [60, 100];
    let highest_data_byte: [u8; 3] = [0x7F, 1, 2];
    assert_eq!(decode(&zero), Err(DecodeError::InvalidStatus));
    assert_eq!(decode(&running_status), Err(DecodeError::InvalidStatus));
    assert_eq!(decode(&highest_data_byte), Err(DecodeError::InvalidStatus));
}

#[test]
fn end_of_exclusive_marker_is_an_invalid_status() {
    let alone: [u8; 1] = [0xF7];
    let with_data: [u8; 3] = [0xF7, 1, 2];
    assert_eq!(decode(&alone), Err(DecodeError::InvalidStatus));
    assert_eq!(decode(&with_data), Err(DecodeError::InvalidStatus));
}

#[test]
fn bytes_after_the_message_are_ignored() {
    let extra_data: [u8; 4] = [0x90, 60, 100, 5];
    let next_message: [u8; 6] = [0x90, 60, 100, 0x80, 60, 0];
    let after_program_change: [u8; 3] = [0xC0, 5, 0xFF];
    assert_eq!(
        decode(&extra_data),
        Ok(DecodedEvent::NoteOn { key: 60, channel: 0, velocity: 100 })
    );
    assert_eq!(
        decode(&next_message),
        Ok(DecodedEvent::NoteOn { key: 60, channel: 0, velocity: 100 })
    );
    assert_eq!(decode(&after_program_change), Ok(DecodedEvent::Other));
}

#[test]
fn decoding_twice_gives_the_same_event() {
    let buffers: Vec<Vec<u8>> = vec![
        vec![0x90, 60, 100],
        vec![0x83, 37, 0],
        vec![0xB0, 7, 127],
        vec![],
        vec![0x90],
        vec![0x42],
    ];
    for raw in &buffers {
        assert_eq!(decode(raw), decode(raw));
    }
}
