//! A verified model of a window frame-capture pipeline: a driver thread pulls
//! rendered frames out of a native capture session, converts each transient
//! frame into an owned snapshot, and hands it to a single-slot shared sink
//! that a poller reads. The start/stop handshake, the slot's overwrite-latest
//! semantics, the frame conversion and the error taxonomy are specified and
//! proved here; the platform message loop and the native capture calls stay
//! with the embedding program.

pub mod driver;
pub mod errors;
pub mod frame;
pub mod handle;
pub mod handler;
pub mod handshake;
pub mod poller;
pub mod sink;
pub mod slot;
