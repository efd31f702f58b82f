//! Verified core of a keyboard VU-meter driver: the wire protocol that frames
//! loudness commands for a HID keyboard, the startup handshake state machine,
//! and the per-key color frame that mirrors the meter on screen.

pub mod handshake;
pub mod protocol;
pub mod visualizer;
