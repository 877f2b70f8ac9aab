//! Platform-independent windowing core: the event model, the translation of
//! native notifications into edge-triggered events, and the bookkeeping that
//! multiplexes one native event stream over many windows.

pub mod buffer;
pub mod builder;
pub mod chars;
pub mod decoration;
pub mod error;
pub mod event;
pub mod input;
pub mod pending;
pub mod win32;
pub mod x11;
