//! Real-time audio passthrough: a delay buffer between a capture and a
//! render endpoint, the selection of those endpoints by name, and the
//! lifecycle of one supervised run at a time.

pub mod audio_manager;
pub mod delay_buffer;
pub mod device;
pub mod error;
pub mod ring;
pub mod stopper;
pub mod supervisor;
