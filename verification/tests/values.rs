//! Tests of the bit-packed value types: tile attribute flags, sprite
//! descriptors and sizes, the console version word, and the data-port
//! encodings of tiles and sprites.

use megadrive::console::Region;
use megadrive::console::Version;
use megadrive::flags::TileFlags;
use megadrive::ops::PortOp;
use megadrive::sprite::Sprite;
use megadrive::sprite::SpriteSize;
use megadrive::vdp::VDP;

#[test]
fn tile_flags_fields_round_trip() {
    let f = TileFlags::for_tile(0x123, 2);
    assert_eq!(f.tile_index(), 0x123);
    assert_eq!(f.palette(), 2);
    assert!(!f.priority());
    assert!(!f.flip_h());
    assert!(!f.flip_v());

    let f = f.set_priority(true);
    assert!(f.priority());
    assert_eq!(f.tile_index(), 0x123);
    assert_eq!(f.palette(), 2);

    let f = f.set_flip_h(true).set_flip_v(true);
    assert!(f.flip_h());
    assert!(f.flip_v());
    assert!(f.priority());

    let f = f.set_flip_h(false);
    assert!(!f.flip_h());
    assert!(f.flip_v());

    let f = f.set_palette(1).set_tile_index(0x7FF);
    assert_eq!(f.palette(), 1);
    assert_eq!(f.tile_index(), 0x7FF);
    assert!(f.priority());
    assert!(f.flip_v());
}

#[test]
fn tile_flags_mask_out_of_range_values() {
    // Only the low 11 bits of the index and 2 bits of the palette are
    // stored.
    let f = TileFlags::for_tile(0x1FFF, 7);
    assert_eq!(f.tile_index(), 0x7FF);
    assert_eq!(f.palette(), 3);
}

#[test]
fn tile_flags_default_is_zero() {
    let f = TileFlags::default();
    assert_eq!(f.raw_value(), 0);
    assert_eq!(f.tile_index(), 0);
}

#[test]
fn tile_flags_raw_layout() {
    let f = TileFlags::for_tile(1, 0).set_priority(true);
    assert_eq!(f.raw_value(), 0x8001);
    let f = TileFlags::for_tile(0, 3).set_flip_h(true).set_flip_v(true);
    assert_eq!(f.raw_value(), 0x6000 | 0x800 | 0x1000);
}

#[test]
fn sprite_sizes_pack_width_and_height() {
    assert_eq!(SpriteSize::for_size(1, 1), SpriteSize::Size1x1);
    assert_eq!(SpriteSize::for_size(2, 1), SpriteSize::Size2x1);
    assert_eq!(SpriteSize::for_size(1, 2), SpriteSize::Size1x2);
    assert_eq!(SpriteSize::for_size(4, 4), SpriteSize::Size4x4);
    assert_eq!(SpriteSize::for_size(3, 2).code(), 0b1001);
    assert_eq!(SpriteSize::Size4x1.code(), 0b1100);
}

#[test]
fn sprite_construction_and_flags() {
    let flags = TileFlags::for_tile(7, 1);
    let mut s = Sprite::with_flags(flags, SpriteSize::Size2x2);
    assert_eq!(s.y, 0);
    assert_eq!(s.x, 0);
    assert_eq!(s.link, 0);
    assert_eq!(s.flags(), flags);

    let other = TileFlags::for_tile(9, 0);
    s.set_flags(other);
    assert_eq!(s.flags(), other);

    let d = Sprite::default();
    assert_eq!(d.size, SpriteSize::Size1x1);
    assert_eq!(d.flags.raw_value(), 0);

    let mut m = Sprite::with_flags(TileFlags::for_tile(3, 0), SpriteSize::Size1x1);
    *m.flags_mut() = m.flags().set_priority(true);
    assert!(m.flags().priority());
    assert_eq!(m.flags().tile_index(), 3);
}

#[test]
fn version_decodes_the_hardware_word() {
    let v = Version::from_raw(0xA3);
    assert_eq!(v.hardware_revision(), 3);
    assert!(v.has_fdd());
    assert!(!v.is_pal());
    assert!(v.is_ntsc());
    assert!(v.is_overseas());
    assert_eq!(v.region(), Region::USA);

    assert_eq!(Version::from_raw(0x00).region(), Region::Japan);
    assert_eq!(Version::from_raw(0x40).region(), Region::Europe);
    assert_eq!(Version::from_raw(0xC0).region(), Region::Invalid);
    assert!(Version::from_raw(0x40).is_pal());
}

fn fresh_vdp() -> VDP {
    let mut vdp = VDP::new(Version::from_raw(0));
    let _ = vdp.take_ops();
    vdp
}

#[test]
fn tile_bytes_become_big_endian_words() {
    let mut tile = [0u8; 32];
    for (i, b) in tile.iter_mut().enumerate() {
        *b = i as u8;
    }
    let mut vdp = fresh_vdp();
    vdp.set_tile(2, &tile);
    let ops = vdp.take_ops();
    // Cursor pair, then 16 words pairing the bytes high-first.
    assert_eq!(ops.len(), 18);
    assert_eq!(ops[2], PortOp::Data(0x0001));
    assert_eq!(ops[3], PortOp::Data(0x0203));
    assert_eq!(ops[17], PortOp::Data(0x1E1F));
}

#[test]
fn tiles_via_data_port_follow_the_cursor() {
    let tile_a = [0xAAu8; 32];
    let tile_b = [0xBBu8; 32];
    let mut vdp = fresh_vdp();
    vdp.set_tiles_iter(1, &[tile_a, tile_b]);
    let ops = vdp.take_ops();
    assert_eq!(ops.len(), 2 + 32);
    // Tile memory offset 1 << 5 = 32.
    assert_eq!(ops[0], PortOp::Control(0x4020));
    assert_eq!(ops[1], PortOp::Control(0x0000));
    assert_eq!(ops[2], PortOp::Data(0xAAAA));
    assert_eq!(ops[18], PortOp::Data(0xBBBB));
}

#[test]
fn sprites_via_data_port_use_the_hardware_word_order() {
    let mut s = Sprite::with_flags(TileFlags::for_tile(1, 0), SpriteSize::Size2x2);
    s.y = 5;
    s.x = 7;
    s.link = 3;
    let mut vdp = fresh_vdp();
    vdp.set_sprites_iter(0, &[s]);
    let ops = vdp.take_ops();
    assert_eq!(
        ops,
        vec![
            PortOp::Control(0x7000), // sprite table base 0xF000, low word
            PortOp::Control(0x0003), // high word
            PortOp::Data(5),         // y
            PortOp::Data(0x0503),    // size code 0b0101 over link 3
            PortOp::Data(0x0001),    // attribute flags
            PortOp::Data(7),         // x
        ]
    );
}
