//! An instruction-accurate model of the Intel 4004 and its memory chips.
//!
//! The processor works on four-bit values with twelve-bit program addresses.
//! Program words come from a read-only store, data lives in small register
//! banks with status characters and output latches, and a facade routes the
//! processor's requests to both.

pub mod cpu;
pub mod hardware;
pub mod laws;
pub mod model;
pub mod nibble;
pub mod ram;
pub mod rom;
