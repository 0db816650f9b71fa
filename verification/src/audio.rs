//! The audio signal path: stereo frames and the effects they run through.

pub mod chain;
pub mod delay;
pub mod effect;
pub mod frame;
