//! Hardware sprite descriptors: fixed byte order `(y, size+link, flags, x)`,
//! dictated by how the sprite table is read by the display processor.

use vstd::prelude::*;

use crate::flags::TileFlags;

verus! {

/// An enumeration of valid sprite sizes in tiles.
///
/// The hardware packs the width in the high two bits of the nibble and the
/// height in the low two, each zero-based.
#[derive(Copy, Clone, Debug, PartialEq, Eq, Structural)]
pub enum SpriteSize {
    Size1x1,
    Size2x1,
    Size3x1,
    Size4x1,
    Size1x2,
    Size2x2,
    Size3x2,
    Size4x2,
    Size1x3,
    Size2x3,
    Size3x3,
    Size4x3,
    Size1x4,
    Size2x4,
    Size3x4,
    Size4x4,
}

impl SpriteSize {
    /// The 4-bit hardware code of this size: `(width-1) * 4 + (height-1)`.
    pub open spec fn spec_code(self) -> u8 {
        match self {
            SpriteSize::Size1x1 => 0b0000,
            SpriteSize::Size2x1 => 0b0100,
            SpriteSize::Size3x1 => 0b1000,
            SpriteSize::Size4x1 => 0b1100,
            SpriteSize::Size1x2 => 0b0001,
            SpriteSize::Size2x2 => 0b0101,
            SpriteSize::Size3x2 => 0b1001,
            SpriteSize::Size4x2 => 0b1101,
            SpriteSize::Size1x3 => 0b0010,
            SpriteSize::Size2x3 => 0b0110,
            SpriteSize::Size3x3 => 0b1010,
            SpriteSize::Size4x3 => 0b1110,
            SpriteSize::Size1x4 => 0b0011,
            SpriteSize::Size2x4 => 0b0111,
            SpriteSize::Size3x4 => 0b1011,
            SpriteSize::Size4x4 => 0b1111,
        }
    }

    /// The 4-bit hardware code of this size.
    #[verifier::when_used_as_spec(spec_code)]
    pub fn code(self) -> (r: u8)
        ensures
            r == self.spec_code(),
    {
        match self {
            SpriteSize::Size1x1 => 0b0000,
            SpriteSize::Size2x1 => 0b0100,
            SpriteSize::Size3x1 => 0b1000,
            SpriteSize::Size4x1 => 0b1100,
            SpriteSize::Size1x2 => 0b0001,
            SpriteSize::Size2x2 => 0b0101,
            SpriteSize::Size3x2 => 0b1001,
            SpriteSize::Size4x2 => 0b1101,
            SpriteSize::Size1x3 => 0b0010,
            SpriteSize::Size2x3 => 0b0110,
            SpriteSize::Size3x3 => 0b1010,
            SpriteSize::Size4x3 => 0b1110,
            SpriteSize::Size1x4 => 0b0011,
            SpriteSize::Size2x4 => 0b0111,
            SpriteSize::Size3x4 => 0b1011,
            SpriteSize::Size4x4 => 0b1111,
        }
    }

    /// Get the `SpriteSize` given the width and height of the sprite in
    /// tiles. Dimensions outside 1 to 4 are a programmer error and are
    /// rejected at the contract.
    pub fn for_size(w: u8, h: u8) -> (r: SpriteSize)
        requires
            1 <= w <= 4,
            1 <= h <= 4,
        ensures
            r.spec_code() == (w - 1) * 4 + (h - 1),
    {
        match (w, h) {
            (1, 1) => SpriteSize::Size1x1,
            (2, 1) => SpriteSize::Size2x1,
            (3, 1) => SpriteSize::Size3x1,
            (4, 1) => SpriteSize::Size4x1,
            (1, 2) => SpriteSize::Size1x2,
            (2, 2) => SpriteSize::Size2x2,
            (3, 2) => SpriteSize::Size3x2,
            (4, 2) => SpriteSize::Size4x2,
            (1, 3) => SpriteSize::Size1x3,
            (2, 3) => SpriteSize::Size2x3,
            (3, 3) => SpriteSize::Size3x3,
            (4, 3) => SpriteSize::Size4x3,
            (1, 4) => SpriteSize::Size1x4,
            (2, 4) => SpriteSize::Size2x4,
            (3, 4) => SpriteSize::Size3x4,
            (4, 4) => SpriteSize::Size4x4,
            _ => {
                proof {
                    assert(false);
                }
                SpriteSize::Size1x1
            },
        }
    }
}

/// A representation of the hardware sprites supported by the Mega Drive VDP.
///
/// The field order mirrors the hardware byte order: vertical position, then
/// size and link, then attribute flags, then horizontal position.
#[derive(Copy, Clone, Debug, PartialEq, Eq, Structural)]
pub struct Sprite {
    pub y: u16,
    pub size: SpriteSize,
    pub link: u8,
    pub flags: TileFlags,
    pub x: u16,
}

impl Sprite {
    /// Create a new sprite with the given rendering flags.
    pub fn with_flags(flags: TileFlags, size: SpriteSize) -> (r: Self)
        ensures
            r.y == 0,
            r.size == size,
            r.link == 0,
            r.flags == flags,
            r.x == 0,
    {
        Sprite { y: 0, size, link: 0, flags, x: 0 }
    }

    /// Fetch the rendering flags for this sprite.
    pub fn flags(&self) -> (r: TileFlags)
        ensures
            r == self.flags,
    {
        self.flags
    }

    /// Get a mutable reference to this sprite's rendering flags.
    pub fn flags_mut(&mut self) -> (r: &mut TileFlags)
        ensures
            *r == old(self).flags,
            final(self).flags == *final(r),
            final(self).y == old(self).y,
            final(self).size == old(self).size,
            final(self).link == old(self).link,
            final(self).x == old(self).x,
    {
        &mut self.flags
    }

    /// Set the rendering flags for this sprite.
    pub fn set_flags(&mut self, flags: TileFlags)
        ensures
            final(self).flags == flags,
            final(self).y == old(self).y,
            final(self).size == old(self).size,
            final(self).link == old(self).link,
            final(self).x == old(self).x,
    {
        self.flags = flags;
    }
}

impl Default for Sprite {
    /// A one-by-one sprite at the origin with zeroed flags.
    fn default() -> (r: Self)
        ensures
            r.y == 0,
            r.size == SpriteSize::Size1x1,
            r.link == 0,
            r.flags.bits() == 0,
            r.x == 0,
    {
        Sprite {
            y: 0,
            size: SpriteSize::Size1x1,
            link: 0,
            flags: TileFlags::default(),
            x: 0,
        }
    }
}

} // verus!
