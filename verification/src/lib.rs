//! Core of a multi-mode stereo audio effect.
//!
//! For each fixed-size block of samples the host delivers, the engine selects
//! exactly one of four per-sample kernels — stereo panning, mid-side encode,
//! mid-side decode, or a goniometer analysis — from a parameter snapshot read
//! once at block entry. The goniometer additionally publishes one frame of
//! derived XY points per block through a wait-free triple-slot channel to a
//! best-effort consumer.
//!
//! Audio samples and derived points are IEEE-754 single-precision values; this
//! crate carries them as their 32-bit patterns and never does arithmetic on
//! them. The per-sample floating-point kernels live with the host shell; what
//! is verified here is everything around them: the mode tables and their
//! round-trips, the per-block dispatch decision, the frame capacity discipline,
//! the channel's slot rotation, and the exact-arithmetic algebra behind the
//! panning and mid-side kernels.

pub mod channel;
pub mod engine;
pub mod frame;
pub mod midside;
pub mod modes;
pub mod panning;
pub mod params;
