//! Identifiers of the VDP's internal registers, written through the control
//! port as `(register << 8) | value`, and the sizes of its memory banks.

use vstd::prelude::*;

verus! {

pub const MODE_1: u8 = 0x80;

pub const MODE_2: u8 = 0x81;

pub const MODE_3: u8 = 0x8b;

pub const MODE_4: u8 = 0x8c;

pub const PLANE_A: u8 = 0x82;

pub const PLANE_B: u8 = 0x84;

pub const SPRITE: u8 = 0x85;

pub const WINDOW: u8 = 0x83;

pub const HSCROLL: u8 = 0x8d;

pub const SIZE: u8 = 0x90;

pub const WINX: u8 = 0x91;

pub const WINY: u8 = 0x92;

pub const INCR: u8 = 0x8f;

pub const BG_COLOUR: u8 = 0x87;

pub const HBLANK_RATE: u8 = 0x8a;

pub const DMA_LEN_L: u8 = 0x93;

pub const DMA_LEN_H: u8 = 0x94;

pub const DMA_SRC_L: u8 = 0x95;

pub const DMA_SRC_M: u8 = 0x96;

pub const DMA_SRC_H: u8 = 0x97;

pub const VRAM_SIZE: u32 = 0x10000;

pub const CRAM_SIZE: u16 = 128;

pub const VSRAM_SIZE: u16 = 80;

} // verus!
