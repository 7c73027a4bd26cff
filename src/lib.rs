//! Decisions and text handling around a native arbitrary-precision integer
//! binding, plus a bounded dice roller.

pub mod dice;
pub mod factorial;
pub mod render;
pub mod config;
pub mod cli;
pub mod handle;
