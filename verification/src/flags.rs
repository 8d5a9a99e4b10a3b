//! Tile attribute flags: the 16-bit bitfield selecting tile index, palette,
//! priority and flip state for a rendered cell or sprite.

use vstd::prelude::*;

verus! {

/// A struct representing the display flags of a single tile.
///
/// This is shared between sprite definitions and tiles rendered on one of the
/// 3 render planes. The layout is fixed by the hardware: tile index in bits
/// 0-10, horizontal flip in bit 11, vertical flip in bit 12, palette in bits
/// 13-14 and priority in bit 15.
#[derive(Clone, Copy, Debug, PartialEq, Eq, Structural)]
pub struct TileFlags(u16);

impl TileFlags {
    /// The raw 16-bit register value these flags stand for.
    pub closed spec fn bits(self) -> u16 {
        self.0
    }

    /// The tile index held in bits 0-10.
    pub closed spec fn spec_tile_index(self) -> u16 {
        self.0 & 0x7ff
    }

    /// The palette selector held in bits 13-14.
    pub closed spec fn spec_palette(self) -> u8 {
        ((self.0 >> 13) & 3) as u8
    }

    /// The priority flag held in bit 15.
    pub closed spec fn spec_priority(self) -> bool {
        self.0 & 0x8000 != 0
    }

    /// The horizontal flip flag held in bit 11.
    pub closed spec fn spec_flip_h(self) -> bool {
        self.0 & 0x800 != 0
    }

    /// The vertical flip flag held in bit 12.
    pub closed spec fn spec_flip_v(self) -> bool {
        self.0 & 0x1000 != 0
    }

    /// The raw register word, as the hardware stores it in a plane cell or
    /// a sprite descriptor.
    pub fn raw_value(self) -> (r: u16)
        ensures
            r == self.bits(),
    {
        self.0
    }

    /// Create a new flag set for a given tile index.
    pub fn for_tile(tile_idx: u16, palette: u8) -> (r: TileFlags)
        ensures
            r.spec_tile_index() == tile_idx & 0x7ff,
            r.spec_palette() == palette & 3,
            !r.spec_priority(),
            !r.spec_flip_h(),
            !r.spec_flip_v(),
    {
        proof {
            lemma_zero_flags();
        }
        TileFlags(0).set_tile_index(tile_idx).set_palette(palette)
    }

    /// Get the tile index these flags refer to.
    pub fn tile_index(self) -> (r: u16)
        ensures
            r == self.spec_tile_index(),
    {
        self.0 & 0x7ff
    }

    /// Set the tile index for these flags, preserving every other field.
    pub fn set_tile_index(self, tile_index: u16) -> (r: TileFlags)
        ensures
            r.bits() == (self.bits() & 0xf800) | (tile_index & 0x7ff),
            r.spec_tile_index() == tile_index & 0x7ff,
            r.spec_palette() == self.spec_palette(),
            r.spec_priority() == self.spec_priority(),
            r.spec_flip_h() == self.spec_flip_h(),
            r.spec_flip_v() == self.spec_flip_v(),
    {
        let r = TileFlags((self.0 & 0xf800) | (tile_index & 0x7ff));
        proof {
            lemma_masked_update(self.0, r.0, tile_index);
        }
        r
    }

    /// Get the palette index these flags use.
    pub fn palette(self) -> (r: u8)
        ensures
            r == self.spec_palette(),
    {
        ((self.0 >> 13) & 3) as u8
    }

    /// Set the palette used by these flags, preserving every other field.
    pub fn set_palette(self, palette: u8) -> (r: TileFlags)
        ensures
            r.bits() == (self.bits() & 0x9fff) | (((palette & 3) as u16) << 13),
            r.spec_palette() == palette & 3,
            r.spec_tile_index() == self.spec_tile_index(),
            r.spec_priority() == self.spec_priority(),
            r.spec_flip_h() == self.spec_flip_h(),
            r.spec_flip_v() == self.spec_flip_v(),
    {
        let r = TileFlags((self.0 & 0x9fff) | (((palette & 3) as u16) << 13));
        proof {
            lemma_palette_update(self.0, r.0, palette);
        }
        r
    }

    /// Returns true if this tile will be rendered with priority.
    pub fn priority(self) -> (r: bool)
        ensures
            r == self.spec_priority(),
    {
        (self.0 & 0x8000) != 0
    }

    /// Configure whether these flags render tiles with priority.
    pub fn set_priority(self, p: bool) -> (r: TileFlags)
        ensures
            r.bits() == (if p {
                self.bits() | 0x8000
            } else {
                self.bits() & !0x8000
            }),
            r.spec_priority() == p,
            r.spec_tile_index() == self.spec_tile_index(),
            r.spec_palette() == self.spec_palette(),
            r.spec_flip_h() == self.spec_flip_h(),
            r.spec_flip_v() == self.spec_flip_v(),
    {
        let r = TileFlags(if p {
            self.0 | 0x8000
        } else {
            self.0 & !0x8000
        });
        proof {
            lemma_bit_update(self.0, r.0, 0x8000, p);
        }
        r
    }

    /// Returns true if this tile is flipped horizontally.
    pub fn flip_h(self) -> (r: bool)
        ensures
            r == self.spec_flip_h(),
    {
        (self.0 & 0x800) != 0
    }

    /// Set whether these flags will render horizontally flipped tiles.
    pub fn set_flip_h(self, p: bool) -> (r: TileFlags)
        ensures
            r.bits() == (if p {
                self.bits() | 0x800
            } else {
                self.bits() & !0x800
            }),
            r.spec_flip_h() == p,
            r.spec_tile_index() == self.spec_tile_index(),
            r.spec_palette() == self.spec_palette(),
            r.spec_priority() == self.spec_priority(),
            r.spec_flip_v() == self.spec_flip_v(),
    {
        let r = TileFlags(if p {
            self.0 | 0x800
        } else {
            self.0 & !0x800
        });
        proof {
            lemma_bit_update(self.0, r.0, 0x800, p);
        }
        r
    }

    /// Returns true if this tile is flipped vertically.
    pub fn flip_v(self) -> (r: bool)
        ensures
            r == self.spec_flip_v(),
    {
        (self.0 & 0x1000) != 0
    }

    /// Set whether these flags will render vertically flipped tiles.
    pub fn set_flip_v(self, p: bool) -> (r: TileFlags)
        ensures
            r.bits() == (if p {
                self.bits() | 0x1000
            } else {
                self.bits() & !0x1000
            }),
            r.spec_flip_v() == p,
            r.spec_tile_index() == self.spec_tile_index(),
            r.spec_palette() == self.spec_palette(),
            r.spec_priority() == self.spec_priority(),
            r.spec_flip_h() == self.spec_flip_h(),
    {
        let r = TileFlags(if p {
            self.0 | 0x1000
        } else {
            self.0 & !0x1000
        });
        proof {
            lemma_bit_update(self.0, r.0, 0x1000, p);
        }
        r
    }
}

impl Default for TileFlags {
    /// The all-zero flag set: tile 0, palette 0, no priority, no flips.
    fn default() -> (r: Self)
        ensures
            r.bits() == 0,
    {
        TileFlags(0)
    }
}

/// The raw register word is determined by the five fields: the tile index
/// in bits 0-10, horizontal flip in bit 11, vertical flip in bit 12, the
/// palette in bits 13-14 and priority in bit 15.
pub proof fn lemma_bits_from_fields(f: TileFlags)
    ensures
        f.bits() == f.spec_tile_index() | (if f.spec_flip_h() {
            0x800u16
        } else {
            0
        }) | (if f.spec_flip_v() {
            0x1000u16
        } else {
            0
        }) | ((f.spec_palette() as u16) << 13) | (if f.spec_priority() {
            0x8000u16
        } else {
            0
        }),
{
    lemma_bits_decompose(f.bits());
}

/// Any 16-bit word equals its five flag fields reassembled.
proof fn lemma_bits_decompose(a: u16)
    by (bit_vector)
    ensures
        a == (a & 0x7ff) | (if a & 0x800 != 0 {
            0x800u16
        } else {
            0
        }) | (if a & 0x1000 != 0 {
            0x1000u16
        } else {
            0
        }) | ((((a >> 13) & 3) as u8 as u16) << 13) | (if a & 0x8000 != 0 {
            0x8000u16
        } else {
            0
        }),
{
}

/// The all-zero flag word has every field clear.
proof fn lemma_zero_flags()
    by (bit_vector)
    ensures
        0u16 & 0x7ff == 0,
        0u16 & 0x8000 == 0,
        0u16 & 0x800 == 0,
        0u16 & 0x1000 == 0,
        (0u16 >> 13) & 3 == 0,
{
}

/// After replacing bits 0-10 of `a` with the low bits of `idx`, the index
/// field reads back as `idx & 0x7ff` and the other fields keep their value.
proof fn lemma_masked_update(a: u16, r: u16, idx: u16)
    by (bit_vector)
    requires
        r == (a & 0xf800) | (idx & 0x7ff),
    ensures
        r & 0x7ff == idx & 0x7ff,
        (r >> 13) & 3 == (a >> 13) & 3,
        (r & 0x8000 != 0) == (a & 0x8000 != 0),
        (r & 0x800 != 0) == (a & 0x800 != 0),
        (r & 0x1000 != 0) == (a & 0x1000 != 0),
{
}

/// After replacing bits 13-14 of `a` with the low bits of `p`, the palette
/// field reads back as `p & 3` and the other fields keep their value.
proof fn lemma_palette_update(a: u16, r: u16, p: u8)
    by (bit_vector)
    requires
        r == (a & 0x9fff) | (((p & 3) as u16) << 13),
    ensures
        ((r >> 13) & 3) as u8 == p & 3,
        r & 0x7ff == a & 0x7ff,
        (r & 0x8000 != 0) == (a & 0x8000 != 0),
        (r & 0x800 != 0) == (a & 0x800 != 0),
        (r & 0x1000 != 0) == (a & 0x1000 != 0),
{
}

/// Setting or clearing the single bit `m` leaves the bits outside `m` alone.
proof fn lemma_bit_update(a: u16, r: u16, m: u16, p: bool)
    by (bit_vector)
    requires
        m == 0x8000 || m == 0x800 || m == 0x1000,
        r == if p { a | m } else { a & !m },
    ensures
        (r & m != 0) == p,
        m != 0x8000 ==> (r & 0x8000 != 0) == (a & 0x8000 != 0),
        m != 0x800 ==> (r & 0x800 != 0) == (a & 0x800 != 0),
        m != 0x1000 ==> (r & 0x1000 != 0) == (a & 0x1000 != 0),
        r & 0x7ff == a & 0x7ff,
        (r >> 13) & 3 == (a >> 13) & 3,
{
}

} // verus!
