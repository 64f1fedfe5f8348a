//! Core per-sample signal chain of a stereo tape-echo emulator.
//!
//! The engine combines smoothed macro parameters, wow/flutter modulation,
//! a vari-speed read-head pitch scheme, a dropout stage, saturation drive
//! scaling, a one-sample-latency feedback loop and a wet/dry output mixer
//! into one per-sample algorithm.  All control and audio values are held in
//! signed fixed point with a decimal scale of one million, so that every
//! arithmetic step has an exact, machine-checked contract.
//!
//! The low-level DSP collaborators (fractional delay line, oscillators,
//! hysteresis saturator, denormal dither) are outside this crate: the engine
//! is split into phases, and the host performs the collaborator work between
//! them, handing each phase the collaborator outputs as plain values.
pub mod fixed;
pub mod params;
pub mod pitch;
pub mod smooth;
pub mod mapper;
pub mod modulation;
pub mod dropouts;
pub mod readhead;
pub mod dcblock;
pub mod saturation;
pub mod effect;
