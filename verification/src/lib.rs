//! A verified core for two default hardware services: the controller of an
//! ultra-wideband chip that sits behind a serial transport, and the
//! exterior-view enumerator that offers no device at all.
//!
//! Nothing in this crate performs I/O. The controller and the packet reader
//! are state machines: they are told what happened outside and answer with
//! the next thing to do outside.

pub mod chip;
pub mod chip_laws;
pub mod error;
pub mod evs;
pub mod frame;
pub mod protocol;
pub mod reader;
pub mod reader_laws;
pub mod session;
