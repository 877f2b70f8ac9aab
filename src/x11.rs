//! The X-server backend's logic: the wire format of its events, the
//! translation of notifications into events, and the properties it writes.

pub mod hints;
pub mod keysym;
pub mod setup;
pub mod state;
pub mod translate;
pub mod wire;
