//! A renderer which assists with programming the VDP: a bounded sprite
//! draw queue flushed to the sprite table in one upload, and a tile font
//! blitted as a run of sprites.

use vstd::prelude::*;
use vstd::pervasive::VecAdditionalExecFns;

use crate::flags::TileFlags;
use crate::sprite::Sprite;
use crate::sprite::SpriteSize;
use crate::vdp::AddrKind;
use crate::vdp::Tile;
use crate::vdp::VDP;
use crate::vdp::upload_ops;

verus! {

/// The hardware sprite table holds at most 80 entries.
pub const MAX_SPRITES: usize = 80;

/// A renderer which assists with programming the VDP.
pub struct Renderer {
    sprites: Vec<Sprite>,
}

impl Renderer {
    /// The sprites queued for the next flush, in draw order.
    pub closed spec fn queue(self) -> Seq<Sprite> {
        self.sprites@
    }

    /// Allocate a new renderer with an empty draw queue.
    pub fn new() -> (r: Renderer)
        ensures
            r.queue() == Seq::<Sprite>::empty(),
    {
        Renderer { sprites: Vec::new() }
    }

    /// The queued sprites, in draw order.
    pub fn queued_sprites(&self) -> (r: &Vec<Sprite>)
        ensures
            r@ == self.queue(),
    {
        &self.sprites
    }

    /// Clear the sprite buffer and prepare for rendering.
    pub fn clear(&mut self)
        ensures
            final(self).queue() == Seq::<Sprite>::empty(),
    {
        self.sprites.clear();
    }

    /// Add a sprite to the draw queue.
    pub fn draw_sprite(&mut self, s: Sprite)
        requires
            old(self).queue().len() < MAX_SPRITES,
        ensures
            final(self).queue() == old(self).queue().push(s),
    {
        self.sprites.push(s);
    }

    /// Render the sprite buffer to the screen: chain each queued sprite to
    /// the next through the hardware link field, close the chain on the
    /// last one, and upload the whole table.
    pub fn render(&mut self, vdp: &mut VDP)
        requires
            1 <= old(self).queue().len() <= MAX_SPRITES,
        ensures
            final(self).queue().len() == old(self).queue().len(),
            forall|i: int|
                0 <= i < final(self).queue().len() ==> ({
                    let s = #[trigger] final(self).queue()[i];
                    let o = old(self).queue()[i];
                    &&& s.y == o.y
                    &&& s.size == o.size
                    &&& s.flags == o.flags
                    &&& s.x == o.x
                    &&& s.link == (if i < old(self).queue().len() - 1 {
                        (i + 1) as u8
                    } else {
                        0u8
                    })
                }),
            final(vdp).shadow_mode() == old(vdp).shadow_mode() & !0x1000u32,
            final(vdp).same_bases(*old(vdp)),
            exists|src: u32|
                final(vdp).log() == old(vdp).log() + #[trigger] upload_ops(
                    old(vdp).shadow_mode(),
                    AddrKind::VRAM,
                    old(vdp).base_sprites(),
                    src,
                    (old(self).queue().len() * 8) as u16,
                ),
    {
        let num_sprites = self.sprites.len();
        let mut i: usize = 0;
        while i < num_sprites
            invariant
                num_sprites == self.queue().len(),
                1 <= num_sprites <= MAX_SPRITES,
                i <= num_sprites,
                forall|j: int|
                    i <= j < num_sprites ==> #[trigger] self.queue()[j] == old(self).queue()[j],
                forall|j: int|
                    0 <= j < i ==> ({
                        let s = #[trigger] self.queue()[j];
                        let o = old(self).queue()[j];
                        &&& s.y == o.y
                        &&& s.size == o.size
                        &&& s.flags == o.flags
                        &&& s.x == o.x
                        &&& s.link == (if j < num_sprites - 1 {
                            (j + 1) as u8
                        } else {
                            0u8
                        })
                    }),
            decreases num_sprites - i,
        {
            let next: u8 = if i < num_sprites - 1 {
                (i + 1) as u8
            } else {
                0
            };
            let mut s = self.sprites[i];
            s.link = next;
            self.sprites.set(i, s);
            i += 1;
        }

        vdp.set_sprites(0, self.sprites.as_slice());
    }
}

/// Font struct, having tile data and a size definition.
pub struct Font {
    pub tile_data: Vec<Tile>,
    pub sprite_size: SpriteSize,
    pub start_index: u16,
}

impl Font {
    /// The width of one glyph sprite in pixels: the tile width packed in
    /// the high bits of the size code, times the 8-pixel tile width.
    pub open spec fn spec_width_px(self) -> u16 {
        (((((self.sprite_size.spec_code() as u16) & 0b1100) >> 2) + 1) * 8) as u16
    }

    /// Loads the font to the start index, using an already initialized
    /// visual display.
    pub fn load(&self, vdp: &mut VDP)
        requires
            self.start_index < 2048,
            1 <= self.tile_data@.len(),
            self.tile_data@.len() * 32 <= 0xffff,
        ensures
            final(vdp).shadow_mode() == old(vdp).shadow_mode() & !0x1000u32,
            final(vdp).same_bases(*old(vdp)),
            exists|src: u32|
                final(vdp).log() == old(vdp).log() + #[trigger] upload_ops(
                    old(vdp).shadow_mode(),
                    AddrKind::VRAM,
                    (self.start_index * 32) as u16,
                    src,
                    (self.tile_data@.len() * 32) as u16,
                ),
    {
        vdp.set_tiles(self.start_index as usize, self.tile_data.as_slice());
    }

    /// Displays text using renderer at position (x, y), one sprite per
    /// byte of `text`, glyphs taken from the font's tile run.
    ///
    /// Note remember to call `render` afterwards.
    pub fn blit_text(&self, renderer: &mut Renderer, text: &[u8], x: u16, y: u16)
        requires
            old(renderer).queue().len() + text@.len() <= MAX_SPRITES,
            self.start_index + 255 <= 0xffff,
            x + self.spec_width_px() * text@.len() <= 0xffff,
        ensures
            final(renderer).queue().len() == old(renderer).queue().len() + text@.len(),
            forall|j: int|
                0 <= j < old(renderer).queue().len() ==> #[trigger] final(renderer).queue()[j]
                    == old(renderer).queue()[j],
            forall|j: int|
                0 <= j < text@.len() ==> ({
                    let s = #[trigger] final(renderer).queue()[old(renderer).queue().len() + j];
                    &&& s.y == y
                    &&& s.size == self.sprite_size
                    &&& s.link == 0
                    &&& s.x == x + self.spec_width_px() * j
                    &&& s.flags.spec_tile_index() == (text@[j] + self.start_index) as u16
                        & 0x7ff
                    &&& s.flags.spec_palette() == 0
                    &&& !s.flags.spec_priority()
                    &&& !s.flags.spec_flip_h()
                    &&& !s.flags.spec_flip_v()
                }),
    {
        proof {
            lemma_font_width(self.sprite_size.spec_code());
        }
        let sprite_width: u16 = (((self.sprite_size.code() as u16) & 0b1100) >> 2) + 1;
        let sprite_width_as_pixels: u16 = sprite_width * 8;

        let ghost base_len = renderer.queue().len();
        let mut idx: usize = 0;
        while idx < text.len()
            invariant
                idx <= text@.len(),
                base_len + text@.len() <= MAX_SPRITES,
                self.start_index + 255 <= 0xffff,
                x + self.spec_width_px() * text@.len() <= 0xffff,
                sprite_width_as_pixels == self.spec_width_px(),
                renderer.queue().len() == base_len + idx,
                base_len == old(renderer).queue().len(),
                forall|j: int|
                    0 <= j < base_len ==> #[trigger] renderer.queue()[j] == old(
                        renderer,
                    ).queue()[j],
                forall|j: int|
                    0 <= j < idx ==> ({
                        let s = #[trigger] renderer.queue()[base_len + j];
                        &&& s.y == y
                        &&& s.size == self.sprite_size
                        &&& s.link == 0
                        &&& s.x == x + self.spec_width_px() * j
                        &&& s.flags.spec_tile_index() == (text@[j] + self.start_index) as u16
                            & 0x7ff
                        &&& s.flags.spec_palette() == 0
                        &&& !s.flags.spec_priority()
                        &&& !s.flags.spec_flip_h()
                        &&& !s.flags.spec_flip_v()
                    }),
            decreases text@.len() - idx,
        {
            proof {
                lemma_font_width(self.sprite_size.spec_code());
                assert(self.spec_width_px() * idx <= self.spec_width_px() * text@.len())
                    by (nonlinear_arith)
                    requires
                        0 <= idx <= text@.len(),
                        self.spec_width_px() >= 0,
                ;
            }
            let byte = text[idx];
            let char_as_tile_idx = (byte as u16) + self.start_index;

            let mut sprite = Sprite::with_flags(
                TileFlags::for_tile(char_as_tile_idx, 0),
                self.sprite_size,
            );

            sprite.x = x + sprite_width_as_pixels * (idx as u16);
            sprite.y = y;

            renderer.draw_sprite(sprite);
            idx += 1;
        }
    }
}

/// The tile width packed in a size code's high bits is at most 3.
proof fn lemma_font_width(c: u8)
    by (bit_vector)
    ensures
        ((c as u16) & 0b1100) >> 2 <= 3,
        0u8 & 3 == 0,
{
}

} // verus!
