//! Driver layer for the Mega Drive's video display processor (VDP) and its
//! sibling sound and input peripherals.
//!
//! The drivers are modelled as state machines over plain values: every
//! hardware operation is recorded as a sequence of port operations that an
//! unverified executor performs against the memory-mapped ports. The
//! contracts pin down the exact register protocol: which words are written,
//! in which order, and how the cached shadow state evolves.

pub mod console;
pub mod flags;
pub mod fm;
pub mod heap;
pub mod input;
pub mod ops;
pub mod psg;
pub mod registers;
pub mod render;
pub mod rng;
pub mod sprite;
pub mod vdp;
