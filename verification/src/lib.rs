//! Core logic of a network SID-chip sound server.
//!
//! Clients stream timestamped SID register writes over a framed binary
//! protocol; the server queues them, paces an emulation worker that turns
//! them into stereo PCM, and answers a UDP discovery beacon.  This crate
//! holds the verified heart of that server: the frame decoder and command
//! dispatcher, the write queue with its pacing thresholds, the worker-side
//! configuration logic and sample mixing, and the discovery packet rules.
//! Sockets, audio devices, threads and the SID DSP core itself live outside,
//! in the surrounding application.

pub mod device_state;
pub mod discovery;
pub mod player;
pub mod protocol;
pub mod render;
pub mod settings;
pub mod ring;
pub mod session;
