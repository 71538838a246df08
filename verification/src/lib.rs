//! Decision logic of a push-to-talk speech-to-text daemon: the wire
//! protocol between client and daemon, the daemon's state machine, the
//! text clean-up applied to transcriptions, and the choices the daemon
//! makes about devices, models and text injection.

pub mod audio;
pub mod daemon;
pub mod inject;
pub mod ipc;
pub mod setup;
pub mod text;
pub mod transcribe;
