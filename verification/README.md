# rs_vst_host

The verified core of a VST3 plugin host that runs its GUI, its audio
engine and its plugins in separate processes, so that a crashing plugin
does not take the host down.

`src/` is a Verus library; every function in it carries a contract that
Verus proves:

- `midi`: the bounded MIDI input queue and the translation of note
  messages into VST3 note events; MIDI port lookup.
- `shm`: the layout of the shared-memory block that carries audio between
  the host and a plugin worker (header, input and output channels).
- `audio_io`: what to do with one device buffer, and moving samples
  between interleaved device buffers and per-channel buffers.
- `wire`: the length-prefixed frames of the IPC sockets, and how read
  errors are classified.
- `protocol`: the messages between the GUI, the supervisor and the audio
  worker.
- `worker`: the audio worker's bookkeeping and its handling of every GUI
  action, with the work left to the engine spelled out.
- `shadow`, `restart`: the supervisor's copy of the worker's state and its
  crash-restart policy.
- `client`: the GUI process's state, fed by supervisor updates.
- `host`, `panel`: the rack, the plugin browser and the parameter view.
- `undo`: the undo/redo history of user edits.
- `session`: session snapshots of the transport and the rack.
- `rack`, `status`, `editor`: shared records and constants.

`app/` is the command-line program around the library (logging, MIDI port
listing through `midir`, session files through `serde_json`, shared
memory through `libc`). `tests/` runs the library on concrete values.
