//! Decision logic for relaying a wearable's heart rate to avatar parameters:
//! the measurement codec, the parameter mapping, device selection and the
//! connection supervisor that drives scanning, connecting and streaming.

pub mod codec;
pub mod config;
pub mod emitter;
pub mod selector;
pub mod supervisor;
