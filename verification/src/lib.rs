//! Building blocks of a small game framework: the audio effect chain, start-up
//! configuration, geometry, shapes, HTTP responses and a task pool.
//!
//! Numbers that the hardware would round are never computed here. A
//! [`scalar::Scalar`] carries a single-precision value as its bit pattern; what
//! can be decided from the pattern alone (order, sign, clamping) is decided and
//! proved in this crate, and every rounding operation is handed to the caller's
//! evaluator (see [`arith`]).

pub mod arith;
pub mod audio;
pub mod conf;
pub mod geom;
pub mod gfx;
pub mod gl;
pub mod http;
pub mod math;
pub mod scalar;
pub mod task;
