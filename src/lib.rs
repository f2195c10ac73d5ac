//! Audio oscilloscope core: turns a live sample stream into fixed-size
//! windows and hands the latest one to a renderer through a triple buffer.

pub mod channel;
pub mod interval;
pub mod plot;
pub mod window;
