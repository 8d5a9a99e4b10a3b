//! Tests of the register protocol: masked mode updates, cursor encoding,
//! and the DMA transfer engine's chunking.

use megadrive::console::Version;
use megadrive::ops::PortOp;
use megadrive::vdp::AddrKind;
use megadrive::vdp::VDP;
use megadrive::vdp::decode_cursor;

fn fresh_vdp() -> VDP {
    let mut vdp = VDP::new(Version::from_raw(0));
    // Drop the initialization protocol; the tests below look at single
    // operations.
    let _ = vdp.take_ops();
    vdp
}

fn control_word(op: &PortOp) -> u16 {
    match op {
        PortOp::Control(w) => *w,
        _ => panic!("expected a control-port write"),
    }
}

/// The register id and value of a control word that writes an internal
/// register.
fn reg_write(op: &PortOp) -> (u8, u8) {
    let w = control_word(op);
    assert!(w >= 0x8000, "not an internal register write: {w:#x}");
    ((w >> 8) as u8, w as u8)
}

/// Collect the `(length, dest_kind, dest_offset)` of every physical DMA
/// transfer in an op list, reading the length registers and the
/// DMA-triggering cursor pair before each completion poll.
fn dma_transfers(ops: &[PortOp]) -> Vec<(u16, AddrKind, u16)> {
    let mut out = Vec::new();
    let mut len_l: u8 = 0;
    let mut len_h: u8 = 0;
    let mut last_two: Vec<u16> = Vec::new();
    for op in ops {
        match op {
            PortOp::Control(w) => {
                if *w >= 0x8000 {
                    match (*w >> 8) as u8 {
                        0x93 => len_l = *w as u8,
                        0x94 => len_h = *w as u8,
                        _ => {}
                    }
                    // CRAM cursor-low words are >= 0xC000; keep them.
                    if *w >= 0xC000 {
                        last_two.push(*w);
                    }
                } else {
                    last_two.push(*w);
                }
            }
            PortOp::WaitDma => {
                let n = last_two.len();
                assert!(n >= 2, "a DMA trigger needs a cursor pair");
                let (kind, offset) = decode_cursor(last_two[n - 2], last_two[n - 1]);
                out.push((((len_h as u16) << 8) | len_l as u16, kind, offset));
            }
            _ => {}
        }
    }
    out
}

#[test]
fn modify_mode_writes_only_masked_slices() {
    let mut vdp = fresh_vdp();
    vdp.modify_mode(0xff00, 0xABCD1234);
    let ops = vdp.take_ops();
    // Only the second mode register slice is touched: one write, carrying
    // that slice of the new shadow value.
    assert_eq!(ops, vec![PortOp::Control(0x8112)]);

    vdp.modify_mode(0xff, 0xABCD1234);
    let ops = vdp.take_ops();
    assert_eq!(ops, vec![PortOp::Control(0x8034)]);
}

#[test]
fn modify_mode_zero_mask_writes_nothing() {
    let mut vdp = fresh_vdp();
    vdp.modify_mode(0, 0xFFFFFFFF);
    assert_eq!(vdp.take_ops(), vec![]);
}

#[test]
fn configuration_is_idempotent() {
    let mut vdp = fresh_vdp();
    vdp.enable_shadow_mode(true);
    let first = vdp.take_ops();
    vdp.enable_shadow_mode(true);
    let second = vdp.take_ops();
    assert_eq!(first, second);

    vdp.enable_interrupts(true, false, true);
    let first = vdp.take_ops();
    vdp.enable_interrupts(true, false, true);
    let second = vdp.take_ops();
    assert_eq!(first, second);
}

/// Replay an op list into a software register file.
fn replay_registers(ops: &[PortOp], regs: &mut [u8; 256]) {
    for op in ops {
        if let PortOp::Control(w) = op {
            if *w >= 0x8000 && *w < 0xC000 {
                regs[(*w >> 8) as usize] = *w as u8;
            }
        }
    }
}

#[test]
fn display_and_resolution_compose_in_either_order() {
    let mut a = fresh_vdp();
    a.enable_display(true);
    a.set_resolution(true, false);
    let ops_a = a.take_ops();

    let mut b = fresh_vdp();
    b.set_resolution(true, false);
    b.enable_display(true);
    let ops_b = b.take_ops();

    let mut regs_a = [0u8; 256];
    let mut regs_b = [0u8; 256];
    replay_registers(&ops_a, &mut regs_a);
    replay_registers(&ops_b, &mut regs_b);
    assert_eq!(regs_a, regs_b);

    // The final mode-2 slice carries both the display bit (0x40) and the
    // default slice bits: neither operation disturbed the other.
    assert_eq!(regs_a[0x81], 0x44);
    // The mode-4 slice carries the horizontal resolution bits.
    assert_eq!(regs_a[0x8c], 0x81);
    assert_eq!(a.resolution(), (320, 224));
}

#[test]
fn cursor_encoding_round_trips() {
    let kinds = [AddrKind::VRAM, AddrKind::CRAM, AddrKind::VSRAM];
    let offsets = [0u16, 1, 0x1234, 0x3FFF];
    for &kind in &kinds {
        for &offset in &offsets {
            let mut vdp = fresh_vdp();
            vdp.set_address(kind, offset);
            let ops = vdp.take_ops();
            assert_eq!(ops.len(), 2);
            let lo = control_word(&ops[0]);
            let hi = control_word(&ops[1]);
            assert_eq!(decode_cursor(lo, hi), (kind, offset));
        }
    }
}

#[test]
fn cursor_words_for_vram() {
    let mut vdp = fresh_vdp();
    vdp.set_address(AddrKind::VRAM, 0x100);
    let ops = vdp.take_ops();
    assert_eq!(ops, vec![PortOp::Control(0x4100), PortOp::Control(0x0000)]);
}

#[test]
fn upload_in_one_chunk_when_source_is_far_from_a_boundary() {
    let mut vdp = fresh_vdp();
    vdp.dma_upload(AddrKind::VRAM, 0x40, 0, 64);
    let transfers = dma_transfers(&vdp.take_ops());
    assert_eq!(transfers, vec![(64, AddrKind::VRAM, 0x40)]);
}

#[test]
fn upload_splits_at_the_source_alignment_boundary() {
    // The source sits 16 words before a naturally aligned boundary of the
    // word address space, so a 64-unit transfer must split.
    let src_bytes = (0x20000u32 - 16) * 2;
    let mut vdp = fresh_vdp();
    vdp.dma_upload(AddrKind::VRAM, 0, src_bytes, 64);
    let transfers = dma_transfers(&vdp.take_ops());
    assert_eq!(transfers.len(), 2);
    assert_eq!(transfers[0].0, 16);
    assert_eq!(transfers[1].0, 48);
    assert_eq!(transfers[0].0 + transfers[1].0, 64);
    // The destination advances by the chunk size.
    assert_eq!(transfers[0].2, 0);
    assert_eq!(transfers[1].2, 16);
}

#[test]
fn upload_leaves_dma_mode_disabled() {
    let mut vdp = fresh_vdp();
    vdp.dma_upload(AddrKind::VRAM, 0, 0, 2);
    let ops = vdp.take_ops();
    // The first operation raises the DMA bit in the mode-2 slice, the last
    // clears it again.
    assert_eq!(ops.first(), Some(&PortOp::Control(0x8114)));
    assert_eq!(ops.last(), Some(&PortOp::Control(0x8104)));
}

#[test]
fn upload_tiles_programs_cursor_and_length() {
    let tile_a = [0u8; 32];
    let tile_b = [1u8; 32];
    let mut vdp = fresh_vdp();
    vdp.set_tiles(1, &[tile_a, tile_b]);
    let transfers = dma_transfers(&vdp.take_ops());
    // Two 32-byte tiles from index 1: 64 bytes to tile-memory offset 32,
    // in however many chunks the source address forces.
    let total: u16 = transfers.iter().map(|t| t.0).sum();
    assert_eq!(total, 64);
    assert_eq!(transfers[0].1, AddrKind::VRAM);
    assert_eq!(transfers[0].2, 32);
}

#[test]
fn set_palette_targets_the_bank_offset() {
    let colors = [0x0EEEu16; 16];
    let mut vdp = fresh_vdp();
    vdp.set_palette(2, &colors);
    let transfers = dma_transfers(&vdp.take_ops());
    // 32 bytes into colour memory at 2 << 5 = 64; always a single chunk.
    let total: u16 = transfers.iter().map(|t| t.0).sum();
    assert_eq!(total, 32);
    assert_eq!(transfers[0].1, AddrKind::CRAM);
    assert_eq!(transfers[0].2, 64);
}

#[test]
fn dma_set_issues_the_exact_protocol() {
    let mut vdp = fresh_vdp();
    vdp.dma_set(AddrKind::VRAM, 0x100, 0xAB, 7);
    let ops = vdp.take_ops();
    assert_eq!(
        ops,
        vec![
            PortOp::Control(0x8114), // DMA mode on
            PortOp::Control(0x8F01), // increment 1
            PortOp::Control(0x9307), // length low
            PortOp::Control(0x9400), // length high
            PortOp::Control(0x9780), // fill source marker
            PortOp::Control(0x4100), // cursor low
            PortOp::Control(0x0080), // cursor high, DMA trigger
            PortOp::Data(0x00AB),    // the fill byte starts the operation
            PortOp::WaitDma,
            PortOp::Control(0x8104), // DMA mode off
            PortOp::Control(0x8F02), // increment restored
        ]
    );
}

#[test]
fn dma_copy_issues_the_exact_protocol() {
    let mut vdp = fresh_vdp();
    vdp.dma_copy(AddrKind::VRAM, 0x200, 0x340, 16);
    let ops = vdp.take_ops();
    assert_eq!(
        ops,
        vec![
            PortOp::Control(0x8114),
            PortOp::Control(0x9310),
            PortOp::Control(0x9400),
            PortOp::Control(0x9540),
            PortOp::Control(0x9603),
            PortOp::Control(0x97C0), // copy marker
            PortOp::Control(0x4200),
            PortOp::Control(0x0080),
            PortOp::WaitDma,
            PortOp::Control(0x8104),
        ]
    );
}

#[test]
fn initialization_issues_the_documented_protocol() {
    let mut vdp = VDP::new(Version::from_raw(0));
    let ops = vdp.take_ops();
    let expected_prefix = vec![
        PortOp::ReadStatus,
        PortOp::Control(0x8004),
        PortOp::Control(0x8104),
        PortOp::Control(0x8B00),
        PortOp::Control(0x8C81),
        PortOp::Control(0x8230), // plane A base
        PortOp::Control(0x8407), // plane B base
        PortOp::Control(0x8578), // sprite table base
        PortOp::Control(0x8330), // window base
        PortOp::Control(0x8D3D), // scroll table base
        PortOp::Control(0x8F02), // increment
        PortOp::Control(0x9000), // plane size
        PortOp::Control(0x9100), // window x
        PortOp::Control(0x9200), // window y
        PortOp::Control(0x8700), // background colour
        PortOp::Control(0x8AFF), // h-blank rate
    ];
    assert_eq!(&ops[..expected_prefix.len()], &expected_prefix[..]);
    // Three bank wipes and the default palette upload each poll at least
    // once; the palette may split once at a source boundary.
    let polls = ops.iter().filter(|o| **o == PortOp::WaitDma).count();
    assert!(polls == 4 || polls == 5, "polls: {polls}");
}

#[test]
fn resolution_and_framerate_follow_mode_and_version() {
    let vdp = VDP::new(Version::from_raw(0));
    assert_eq!(vdp.resolution(), (320, 224));
    assert_eq!(vdp.framerate(), 60);

    let mut pal = VDP::new(Version::from_raw(0x40));
    assert_eq!(pal.framerate(), 50);
    pal.set_resolution(false, true);
    assert_eq!(pal.resolution(), (256, 240));
}

#[test]
fn set_register_packs_id_and_value() {
    let mut vdp = fresh_vdp();
    vdp.set_register(0x8A, 0x55);
    assert_eq!(vdp.take_ops(), vec![PortOp::Control(0x8A55)]);
}

#[test]
fn base_setters_write_the_relocated_pointer() {
    let mut vdp = fresh_vdp();
    vdp.set_plane_a_address(0x2000);
    assert_eq!(vdp.take_ops(), vec![PortOp::Control(0x8200)]);
    vdp.set_sprite_address(0xD800);
    assert_eq!(vdp.take_ops(), vec![PortOp::Control(0x856C)]);
    vdp.set_plane_b_address(0xE000);
    assert_eq!(vdp.take_ops(), vec![PortOp::Control(0x8470)]);
    vdp.set_scroll_base(0xF40);
    assert_eq!(vdp.take_ops(), vec![PortOp::Control(0x8D3D)]);
    vdp.set_window_base(0xD00);
    assert_eq!(vdp.take_ops(), vec![PortOp::Control(0x8330)]);
}

#[test]
fn sprite_uploads_use_the_recorded_base() {
    let mut vdp = fresh_vdp();
    vdp.set_sprite_address(0xD800);
    let _ = vdp.take_ops();
    let sprites = [megadrive::sprite::Sprite::default(); 2];
    vdp.set_sprites(1, &sprites);
    let transfers = dma_transfers(&vdp.take_ops());
    let total: u16 = transfers.iter().map(|t| t.0).sum();
    assert_eq!(total, 16);
    assert_eq!(transfers[0].2, 0xD808);
}

#[test]
fn write_data_and_increment() {
    let mut vdp = fresh_vdp();
    vdp.set_increment(2);
    vdp.write_data(0x1234);
    assert_eq!(
        vdp.take_ops(),
        vec![PortOp::Control(0x8F02), PortOp::Data(0x1234)]
    );
}
