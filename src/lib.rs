//! A robot that walks a square grid by running a small program of
//! instructions, one instruction per tick.
//!
//! The logical state (integer cell coordinates and a cardinal facing) and the
//! interpreter that advances it are modelled and verified here; the smooth
//! on-screen animation is left to the host engine.

pub mod bank;
pub mod grid;
pub mod instructions;
pub mod robot;
