//! Integer bookkeeping of a split-operator Fourier-transform (SOFT) solver for the
//! time-dependent Schrödinger equation.
//!
//! The physics itself runs on complex floating-point grids and lives in the
//! application crate; this library holds the parts of the solver that are exact:
//!
//! * [`frequency`]: the placement of Fourier frequencies on an FFT grid (which
//!   grid slot carries which signed wave number), used when the kinetic
//!   propagator is precomputed;
//! * [`schedule`]: the driver of a simulation run, which decides after which time
//!   steps a video frame is rendered;
//! * [`encoder`]: the command line that starts the video encoder.
pub mod encoder;
pub mod frequency;
pub mod schedule;
