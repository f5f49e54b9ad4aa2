//! Compartmental epidemic models integrated over a fixed-length horizon.
//!
//! `integrate` holds the fixed-step schemes (explicit Euler and classical
//! fourth-order Runge-Kutta) over a trajectory of states; `model` holds the
//! lifecycle that allocates a trajectory and fills it once.
pub mod integrate;
pub mod model;
