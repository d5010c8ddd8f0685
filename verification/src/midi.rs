//! MIDI input queue and MIDI → VST3 note event translation.
use vstd::prelude::*;
use crate::text::{chars_of, decimal, lowercase, lowercase_of, occurs, occurs_in, push_decimal, push_str};

verus! {

/// Most messages the input queue holds before new ones are dropped.
pub const MIDI_QUEUE_CAPACITY: usize = 4096;

/// VST3 event type of a note-on event.
pub const K_NOTE_ON_EVENT: u16 = 0;

/// VST3 event type of a note-off event.
pub const K_NOTE_OFF_EVENT: u16 = 1;

/// Information about a MIDI input port.
#[derive(Debug, Clone)]
pub struct MidiPortInfo {
    /// Display name of the port.
    pub name: String,
    /// Port index (for selection).
    pub index: usize,
}

/// A raw MIDI message with timestamp.
#[derive(Debug, Clone, Copy)]
pub struct RawMidiMessage {
    /// Timestamp in microseconds from the MIDI driver.
    pub timestamp_us: u64,
    /// Raw MIDI bytes (typically 1-3 bytes).
    pub data: [u8; 3],
    /// Number of valid bytes in `data`.
    pub len: u8,
}

/// A VST3 note event produced from a MIDI message.
///
/// `velocity` is the 7-bit MIDI velocity; the normalized VST3 velocity of
/// the event is `velocity / 127`.
#[derive(Debug, Clone, Copy)]
pub struct Event {
    /// `K_NOTE_ON_EVENT` or `K_NOTE_OFF_EVENT`.
    pub event_type: u16,
    /// Position of the event inside the current process block.
    pub sample_offset: i32,
    /// MIDI channel (0-15).
    pub channel: i16,
    /// MIDI note number (0-127).
    pub pitch: i16,
    /// 7-bit MIDI velocity.
    pub velocity: u8,
    /// Note identifier; always -1 (unspecified).
    pub note_id: i32,
}

/// The message that `push` stores for `bytes` received at `timestamp_us`:
/// the bytes left-aligned in `data`, zero padded.
pub open spec fn holds_bytes(msg: RawMidiMessage, timestamp_us: u64, bytes: Seq<u8>) -> bool {
    &&& msg.timestamp_us == timestamp_us
    &&& msg.len == bytes.len()
    &&& forall|i: int| 0 <= i < 3 ==> msg.data@[i] == (if i < bytes.len() { bytes[i] } else { 0u8 })
}

/// Whether `push` accepts a message of these bytes at all.
pub open spec fn acceptable_bytes(bytes: Seq<u8>) -> bool {
    1 <= bytes.len() <= 3
}

/// The note event a message stands for, placed at `sample_offset`.
///
/// Status high nibble 9 with at least three bytes is a note-on (velocity 0
/// meaning note-off), high nibble 8 with at least three bytes is a note-off;
/// everything else has no event.
pub open spec fn note_event(msg: RawMidiMessage, sample_offset: i32) -> Option<Event> {
    if msg.len < 3 {
        None
    } else {
        let status = msg.data@[0] / 16;
        let channel = (msg.data@[0] % 16) as i16;
        let pitch = msg.data@[1] as i16;
        let velocity = msg.data@[2];
        if status == 9 && velocity != 0 {
            Some(Event { event_type: K_NOTE_ON_EVENT, sample_offset, channel, pitch, velocity, note_id: -1i32 })
        } else if status == 9 || status == 8 {
            Some(Event { event_type: K_NOTE_OFF_EVENT, sample_offset, channel, pitch, velocity, note_id: -1i32 })
        } else {
            None
        }
    }
}

/// The events of a batch, in order, each at sample offset 0.
pub open spec fn batch_events(msgs: Seq<RawMidiMessage>) -> Seq<Event>
    decreases msgs.len(),
{
    if msgs.len() == 0 {
        Seq::empty()
    } else {
        let rest = batch_events(msgs.drop_last());
        match note_event(msgs.last(), 0) {
            Some(e) => rest.push(e),
            None => rest,
        }
    }
}

/// Convert a raw MIDI message into a VST3 note event, if applicable.
///
/// Returns `None` for unsupported message types (CC, pitch bend, ...).
pub fn midi_to_vst3_event(msg: &RawMidiMessage, sample_offset: i32) -> (res: Option<Event>)
    ensures
        res == note_event(*msg, sample_offset),
{
    if msg.len < 1 {
        return None;
    }
    let first = msg.data[0];
    let status = first & 0xF0;
    let channel = (first & 0x0F) as i16;
    assert(first & 0xF0 == (first / 16) * 16 && first & 0x0F == first % 16) by (bit_vector);
    if msg.len >= 3 && (status == 0x90 || status == 0x80) {
        let pitch = msg.data[1] as i16;
        let velocity = msg.data[2];
        if status == 0x90 && velocity != 0 {
            Some(Event { event_type: K_NOTE_ON_EVENT, sample_offset, channel, pitch, velocity, note_id: -1i32 })
        } else {
            Some(Event { event_type: K_NOTE_OFF_EVENT, sample_offset, channel, pitch, velocity, note_id: -1i32 })
        }
    } else {
        None
    }
}

/// Convert a batch of raw MIDI messages into VST3 events, all at sample
/// offset 0, dropping the messages that have no event.
pub fn translate_midi_batch(messages: &[RawMidiMessage]) -> (events: Vec<Event>)
    ensures
        events@ == batch_events(messages@),
{
    let mut events: Vec<Event> = Vec::new();
    let mut i: usize = 0;
    while i < messages.len()
        invariant
            i <= messages@.len(),
            events@ == batch_events(messages@.take(i as int)),
        decreases messages@.len() - i,
    {
        let ev = midi_to_vst3_event(&messages[i], 0);
        assert(messages@.take(i as int + 1).drop_last() == messages@.take(i as int));
        if let Some(e) = ev {
            events.push(e);
        }
        i = i + 1;
    }
    assert(messages@.take(messages@.len() as int) == messages@);
    events
}

/// Queue of MIDI messages passed from the input side to the audio side.
///
/// Holds at most `MIDI_QUEUE_CAPACITY` messages; a message that arrives
/// while the queue is full is dropped.
pub struct MidiReceiver {
    buffer: Vec<RawMidiMessage>,
}

impl View for MidiReceiver {
    type V = Seq<RawMidiMessage>;

    closed spec fn view(&self) -> Seq<RawMidiMessage> {
        self.buffer@
    }
}

impl MidiReceiver {
    #[verifier::type_invariant]
    spec fn bounded(self) -> bool {
        self.buffer@.len() <= MIDI_QUEUE_CAPACITY
    }

    /// Create an empty receiver.
    pub fn new() -> (r: Self)
        ensures
            r@ == Seq::<RawMidiMessage>::empty(),
    {
        MidiReceiver { buffer: Vec::new() }
    }

    /// Queue the message `data` received at `timestamp_us`.
    ///
    /// Empty messages and messages longer than three bytes are ignored, and
    /// so is any message while the queue is full.
    pub fn push(&mut self, timestamp_us: u64, data: &[u8])
        ensures
            final(self)@.len() <= MIDI_QUEUE_CAPACITY,
            acceptable_bytes(data@) && old(self)@.len() < MIDI_QUEUE_CAPACITY ==> {
                &&& final(self)@.len() == old(self)@.len() + 1
                &&& final(self)@.drop_last() == old(self)@
                &&& holds_bytes(final(self)@.last(), timestamp_us, data@)
            },
            !(acceptable_bytes(data@) && old(self)@.len() < MIDI_QUEUE_CAPACITY) ==> final(self)@
                == old(self)@,
    {
        proof {
            use_type_invariant(&*self);
        }
        let n = data.len();
        if n == 0 || n > 3 {
            return;
        }
        let b1: u8 = if n > 1 { data[1] } else { 0 };
        let b2: u8 = if n > 2 { data[2] } else { 0 };
        let msg = RawMidiMessage { timestamp_us, data: [data[0], b1, b2], len: n as u8 };
        if self.buffer.len() < MIDI_QUEUE_CAPACITY {
            let mut buf: Vec<RawMidiMessage> = Vec::new();
            std::mem::swap(&mut buf, &mut self.buffer);
            buf.push(msg);
            assert(buf@.drop_last() == old(self).buffer@);
            self.buffer = buf;
        }
    }

    /// Remove and return all pending messages, oldest first.
    pub fn drain(&mut self) -> (messages: Vec<RawMidiMessage>)
        ensures
            messages@ == old(self)@,
            final(self)@ == Seq::<RawMidiMessage>::empty(),
    {
        let mut taken: Vec<RawMidiMessage> = Vec::new();
        std::mem::swap(&mut taken, &mut self.buffer);
        taken
    }

    /// Whether there are pending messages.
    pub fn has_pending(&self) -> (b: bool)
        ensures
            b == (self@.len() > 0),
    {
        self.buffer.len() > 0
    }
}

/// Whether port name `port` matches the search text `query`: the lowercase
/// query occurs in the lowercase port name.
pub open spec fn port_matches(port: Seq<char>, query: Seq<char>) -> bool {
    occurs_in(lowercase_of(query), lowercase_of(port))
}

/// Whether a port with this (possibly unreadable) name matches `query`.
pub open spec fn named_match(name: Option<String>, query: Seq<char>) -> bool {
    match name {
        Some(n) => port_matches(n@, query),
        None => false,
    }
}

/// The first port whose name matches `query` (case-insensitive substring
/// search); ports whose name could not be read (`None`) never match.
pub fn find_port_index(port_names: &[Option<String>], query: &str) -> (r: Option<usize>)
    ensures
        r is Some ==> r->0 < port_names@.len() && named_match(port_names@[r->0 as int], query@) && forall|j: int|
            0 <= j < r->0 ==> !named_match(#[trigger] port_names@[j], query@),
        r is None ==> forall|j: int| 0 <= j < port_names@.len() ==> !named_match(#[trigger] port_names@[j], query@),
{
    let q = chars_of(lowercase(query).as_str());
    let mut i: usize = 0;
    while i < port_names.len()
        invariant
            i <= port_names@.len(),
            q@ == lowercase_of(query@),
            forall|j: int| 0 <= j < i ==> !named_match(#[trigger] port_names@[j], query@),
        decreases port_names@.len() - i,
    {
        match &port_names[i] {
            Some(name) => {
                if occurs(&q, &chars_of(lowercase(name.as_str()).as_str())) {
                    return Some(i);
                }
            },
            None => {},
        }
        i = i + 1;
    }
    None
}

/// The name listed for port `index`: its own, or "Port <index>" when it
/// could not be read.
pub open spec fn listed_port_name(name: Option<Seq<char>>, index: nat) -> Seq<char> {
    match name {
        Some(n) => n,
        None => "Port "@ + decimal(index),
    }
}

/// The port list shown to the user, one entry per port in driver order.
pub fn port_infos(port_names: Vec<Option<String>>) -> (infos: Vec<MidiPortInfo>)
    ensures
        infos@.len() == port_names@.len(),
        forall|i: int|
            0 <= i < infos@.len() ==> (#[trigger] infos@[i]).index == i && infos@[i].name@ == listed_port_name(
                match port_names@[i] {
                    Some(n) => Some(n@),
                    None => None,
                },
                i as nat,
            ),
{
    let mut infos: Vec<MidiPortInfo> = Vec::new();
    let mut i: usize = 0;
    while i < port_names.len()
        invariant
            i <= port_names@.len(),
            infos@.len() == i,
            forall|k: int|
                0 <= k < i ==> (#[trigger] infos@[k]).index == k && infos@[k].name@ == listed_port_name(
                    match port_names@[k] {
                        Some(n) => Some(n@),
                        None => None,
                    },
                    k as nat,
                ),
        decreases port_names@.len() - i,
    {
        let name = match &port_names[i] {
            Some(n) => n.clone(),
            None => {
                let mut t = String::new();
                push_str(&mut t, "Port ");
                push_decimal(&mut t, i as u64);
                t
            },
        };
        infos.push(MidiPortInfo { name, index: i });
        i = i + 1;
    }
    infos
}

} // verus!
