//! Status and device records exchanged between the audio side and the GUI.
use vstd::prelude::*;

verus! {

/// Audio engine status snapshot for GUI display.
#[derive(Debug, Clone, Default)]
pub struct AudioStatus {
    /// Sample rate in Hz.
    pub sample_rate: u32,
    /// Buffer/block size in frames.
    pub buffer_size: u32,
    /// Audio output device name.
    pub device_name: String,
    /// Whether audio engine is running.
    pub running: bool,
}

/// Audio status as sent over IPC.
#[derive(Debug, Clone, Default)]
pub struct AudioStatusState {
    /// Sample rate in Hz.
    pub sample_rate: u32,
    /// Buffer size in frames.
    pub buffer_size: u32,
    /// Device name.
    pub device_name: String,
    /// Whether the audio engine is running.
    pub running: bool,
}

/// Audio device info as sent over IPC.
#[derive(Debug, Clone)]
pub struct DeviceState {
    /// Device name.
    pub name: String,
}

/// MIDI port info as sent over IPC.
#[derive(Debug, Clone)]
pub struct MidiPortState {
    /// Port name.
    pub name: String,
}

/// Preset info as sent over IPC.
#[derive(Debug, Clone)]
pub struct PresetInfo {
    /// Preset display name.
    pub name: String,
    /// Absolute path to the preset file.
    pub path: String,
}

/// Convert an engine status to its IPC form.
pub fn audio_status_state(status: &AudioStatus) -> (s: AudioStatusState)
    ensures
        s.sample_rate == status.sample_rate,
        s.buffer_size == status.buffer_size,
        s.device_name@ == status.device_name@,
        s.running == status.running,
{
    AudioStatusState {
        sample_rate: status.sample_rate,
        buffer_size: status.buffer_size,
        device_name: status.device_name.clone(),
        running: status.running,
    }
}

} // verus!
