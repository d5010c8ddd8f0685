//! Verified core of a VST3 plugin host: MIDI capture and translation,
//! the shared-memory audio layout, the length-prefixed IPC framing, the
//! undo/redo history, session snapshots, the crash-restart policy of the
//! supervisor, the audio worker's handling of GUI actions, the rack and
//! parameter views of the GUI, and the plugin browser filter.

mod clock;
mod text;
pub mod audio_io;
pub mod client;
pub mod editor;
pub mod host;
pub mod midi;
pub mod panel;
pub mod protocol;
pub mod rack;
pub mod restart;
pub mod session;
pub mod shadow;
pub mod shm;
pub mod status;
pub mod undo;
pub mod wire;
pub mod worker;
