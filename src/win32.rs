//! The thread-affine backend's logic: virtual-key translation, the
//! translation of window messages into events, window styles, and the
//! decisions of the worker thread that owns each native window.

pub mod keys;
pub mod message;
pub mod style;
pub mod worker;
