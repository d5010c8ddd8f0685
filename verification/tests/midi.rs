use rs_vst_host::midi::{
    find_port_index, midi_to_vst3_event, port_infos, translate_midi_batch, MidiPortInfo, MidiReceiver, RawMidiMessage, K_NOTE_OFF_EVENT,
    K_NOTE_ON_EVENT, MIDI_QUEUE_CAPACITY,
};

fn make_midi(data: &[u8]) -> RawMidiMessage {
    let mut msg = RawMidiMessage { timestamp_us: 0, data: [0; 3], len: data.len() as u8 };
    msg.data[..data.len()].copy_from_slice(data);
    msg
}

fn normalized(velocity: u8) -> f32 {
    velocity as f32 / 127.0
}

#[test]
fn test_note_on() {
    let msg = make_midi(&[0x90, 60, 100]);
    let event = midi_to_vst3_event(&msg, 0).expect("should produce event");
    assert_eq!(event.event_type, K_NOTE_ON_EVENT);
    assert_eq!(event.sample_offset, 0);
    assert_eq!(event.channel, 0);
    assert_eq!(event.pitch, 60);
    assert!((normalized(event.velocity) - 100.0 / 127.0).abs() < 0.01);
}

#[test]
fn test_note_off() {
    let msg = make_midi(&[0x80, 60, 64]);
    let event = midi_to_vst3_event(&msg, 128).expect("should produce event");
    assert_eq!(event.event_type, K_NOTE_OFF_EVENT);
    assert_eq!(event.sample_offset, 128);
    assert_eq!(event.pitch, 60);
}

#[test]
fn test_note_on_velocity_zero_is_note_off() {
    let msg = make_midi(&[0x90, 64, 0]);
    let event = midi_to_vst3_event(&msg, 0).expect("should produce event");
    assert_eq!(event.event_type, K_NOTE_OFF_EVENT);
}

#[test]
fn test_channel_extraction() {
    let msg = make_midi(&[0x95, 60, 100]);
    let event = midi_to_vst3_event(&msg, 0).expect("should produce event");
    assert_eq!(event.channel, 5);
}

#[test]
fn test_unsupported_message_returns_none() {
    let msg = make_midi(&[0xB0, 1, 64]);
    assert!(midi_to_vst3_event(&msg, 0).is_none());
    let msg = make_midi(&[0xC0, 5]);
    assert!(midi_to_vst3_event(&msg, 0).is_none());
}

#[test]
fn test_empty_message_returns_none() {
    let msg = RawMidiMessage { timestamp_us: 0, data: [0; 3], len: 0 };
    assert!(midi_to_vst3_event(&msg, 0).is_none());
}

#[test]
fn test_translate_batch() {
    let messages = vec![make_midi(&[0x90, 60, 100]), make_midi(&[0xB0, 1, 64]), make_midi(&[0x80, 60, 0])];
    let events = translate_midi_batch(&messages);
    assert_eq!(events.len(), 2);
}

#[test]
fn test_velocity_range() {
    let msg = make_midi(&[0x90, 60, 1]);
    let event = midi_to_vst3_event(&msg, 0).unwrap();
    assert!(normalized(event.velocity) > 0.0);
    assert!(normalized(event.velocity) < 0.02);

    let msg = make_midi(&[0x90, 60, 127]);
    let event = midi_to_vst3_event(&msg, 0).unwrap();
    assert!((normalized(event.velocity) - 1.0).abs() < 0.001);
}

#[test]
fn test_all_channels() {
    for ch in 0..16u8 {
        let msg = make_midi(&[0x90 | ch, 60, 100]);
        let event = midi_to_vst3_event(&msg, 0).unwrap();
        assert_eq!(event.channel, ch as i16, "Channel {} mismatch", ch);
    }
}

#[test]
fn test_all_pitches() {
    for pitch in [0u8, 1, 60, 126, 127] {
        let msg = make_midi(&[0x90, pitch, 100]);
        let event = midi_to_vst3_event(&msg, 0).unwrap();
        assert_eq!(event.pitch, pitch as i16);
    }
}

#[test]
fn test_note_off_velocity() {
    let msg = make_midi(&[0x80, 64, 100]);
    let event = midi_to_vst3_event(&msg, 0).unwrap();
    assert!((normalized(event.velocity) - 100.0 / 127.0).abs() < 0.01);
}

#[test]
fn test_sample_offset_propagated() {
    let msg = make_midi(&[0x90, 60, 100]);
    let event = midi_to_vst3_event(&msg, 256).unwrap();
    assert_eq!(event.sample_offset, 256);
}

#[test]
fn test_note_id_is_negative_one() {
    let msg = make_midi(&[0x90, 60, 100]);
    let event = midi_to_vst3_event(&msg, 0).unwrap();
    assert_eq!(event.note_id, -1);
}

#[test]
fn test_truncated_note_on_message() {
    let msg = RawMidiMessage { timestamp_us: 0, data: [0x90, 60, 0], len: 2 };
    assert!(midi_to_vst3_event(&msg, 0).is_none());
}

#[test]
fn test_translate_batch_empty() {
    let events = translate_midi_batch(&[]);
    assert!(events.is_empty());
}

#[test]
fn test_translate_batch_all_filtered() {
    let mut at = make_midi(&[0xD0, 100, 0]);
    at.len = 2;
    let messages = vec![make_midi(&[0xB0, 1, 64]), make_midi(&[0xE0, 0, 64]), at];
    let events = translate_midi_batch(&messages);
    assert!(events.is_empty());
}

#[test]
fn test_translate_batch_preserves_order() {
    let messages = vec![make_midi(&[0x90, 60, 100]), make_midi(&[0x90, 64, 80]), make_midi(&[0x80, 60, 0])];
    let events = translate_midi_batch(&messages);
    assert_eq!(events.len(), 3);
    assert_eq!(events[0].pitch, 60);
    assert_eq!(events[1].pitch, 64);
    assert_eq!(events[2].event_type, K_NOTE_OFF_EVENT);
}

#[test]
fn test_single_byte_message() {
    let msg = RawMidiMessage { timestamp_us: 0, data: [0xFE, 0, 0], len: 1 };
    assert!(midi_to_vst3_event(&msg, 0).is_none());
}

#[test]
fn test_batch_events_are_at_block_start() {
    let mut late = make_midi(&[0x91, 70, 90]);
    late.timestamp_us = 999_999;
    let events = translate_midi_batch(&[late]);
    assert_eq!(events.len(), 1);
    assert_eq!(events[0].sample_offset, 0);
    assert_eq!(events[0].channel, 1);
    assert_eq!(events[0].velocity, 90);
}

#[test]
fn test_note_off_keeps_release_velocity() {
    let event = midi_to_vst3_event(&make_midi(&[0x8F, 10, 33]), 7).unwrap();
    assert_eq!(event.event_type, K_NOTE_OFF_EVENT);
    assert_eq!(event.channel, 15);
    assert_eq!(event.velocity, 33);
    assert_eq!(event.sample_offset, 7);
}

#[test]
fn test_midi_receiver_push_and_drain() {
    let mut recv = MidiReceiver::new();
    recv.push(1000, &[0x90, 60, 100]);
    recv.push(2000, &[0x80, 60, 0]);

    let messages = recv.drain();
    assert_eq!(messages.len(), 2);
    assert_eq!(messages[0].data[0], 0x90);
    assert_eq!(messages[0].data[1], 60);
    assert_eq!(messages[0].data[2], 100);
    assert_eq!(messages[0].len, 3);
    assert_eq!(messages[1].data[0], 0x80);
}

#[test]
fn test_midi_receiver_drain_clears() {
    let mut recv = MidiReceiver::new();
    recv.push(0, &[0x90, 60, 100]);
    let first = recv.drain();
    assert_eq!(first.len(), 1);
    let second = recv.drain();
    assert_eq!(second.len(), 0);
}

#[test]
fn test_midi_receiver_ignores_empty() {
    let mut recv = MidiReceiver::new();
    recv.push(0, &[]);
    let messages = recv.drain();
    assert_eq!(messages.len(), 0);
}

#[test]
fn test_midi_receiver_ignores_oversized() {
    let mut recv = MidiReceiver::new();
    recv.push(0, &[0x90, 60, 100, 0xFF]);
    let messages = recv.drain();
    assert_eq!(messages.len(), 0);
}

#[test]
fn test_midi_receiver_has_pending() {
    let mut recv = MidiReceiver::new();
    assert!(!recv.has_pending());
    recv.push(0, &[0x90, 60, 100]);
    assert!(recv.has_pending());
    recv.drain();
    assert!(!recv.has_pending());
}

#[test]
fn test_midi_port_info() {
    let info = MidiPortInfo { name: "Test Port".to_string(), index: 0 };
    assert_eq!(info.name, "Test Port");
    assert_eq!(info.index, 0);
}

#[test]
fn test_raw_midi_message_clone() {
    let msg = RawMidiMessage { timestamp_us: 12345, data: [0x90, 60, 100], len: 3 };
    let cloned = msg.clone();
    assert_eq!(cloned.timestamp_us, 12345);
    assert_eq!(cloned.data, [0x90, 60, 100]);
    assert_eq!(cloned.len, 3);
}

#[test]
fn test_midi_receiver_short_message_zero_padded() {
    let mut recv = MidiReceiver::new();
    recv.push(42, &[0xC3, 7]);
    let messages = recv.drain();
    assert_eq!(messages.len(), 1);
    assert_eq!(messages[0].timestamp_us, 42);
    assert_eq!(messages[0].data, [0xC3, 7, 0]);
    assert_eq!(messages[0].len, 2);
}

#[test]
fn test_midi_receiver_drops_when_full() {
    let mut recv = MidiReceiver::new();
    for i in 0..(MIDI_QUEUE_CAPACITY as u64 + 10) {
        recv.push(i, &[0x90, 60, 100]);
    }
    let messages = recv.drain();
    assert_eq!(messages.len(), MIDI_QUEUE_CAPACITY);
    assert_eq!(messages[MIDI_QUEUE_CAPACITY - 1].timestamp_us, MIDI_QUEUE_CAPACITY as u64 - 1);
}

#[test]
fn test_find_port_index_case_insensitive() {
    let names = vec![None, Some("IAC Driver Bus 1".to_string()), Some("KeyStep Pro".to_string())];
    assert_eq!(find_port_index(&names, "keystep"), Some(2));
    assert_eq!(find_port_index(&names, "BUS"), Some(1));
    assert_eq!(find_port_index(&names, "missing"), None);
}

#[test]
fn test_port_infos_fallback_names() {
    let infos = port_infos(vec![Some("A".to_string()), None]);
    assert_eq!(infos.len(), 2);
    assert_eq!(infos[0].name, "A");
    assert_eq!(infos[1].name, "Port 1");
    assert_eq!(infos[1].index, 1);
}
