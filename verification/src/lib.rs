//! Hall-sensor commutation and speed control for a three-phase brushless motor.
//!
//! The crate holds the decision logic of a fixed-rate control tick: decoding the
//! three Hall sensors into a rotor sector, tracking signed sector transitions,
//! estimating a commanded advance rate, generating the phase duties of a
//! sinusoidal or six-step drive, and deciding when a six-step change needs an
//! all-off dead-time interval. Hardware access belongs to the caller.

pub mod angle;
pub mod engine;
pub mod fixed;
pub mod hall;
pub mod sixstep;
pub mod speed;
pub mod tracker;
pub mod waveform;
