//! Tests of the sound drivers, controller decoding, the renderer and
//! font, the heap arithmetic and the pseudo-random generator.

use megadrive::console::Version;
use megadrive::flags::TileFlags;
use megadrive::fm::Channel;
use megadrive::fm::FM;
use megadrive::fm::FmWrite;
use megadrive::fm::Panning;
use megadrive::fm::TimerConfig;
use megadrive::heap::Heap;
use megadrive::heap::align_down;
use megadrive::heap::align_up;
use megadrive::input::Button;
use megadrive::input::Controllers;
use megadrive::psg::NoiseFrequency;
use megadrive::psg::PSG;
use megadrive::render::Font;
use megadrive::render::Renderer;
use megadrive::rng::PseudoRng;
use megadrive::sprite::Sprite;
use megadrive::sprite::SpriteSize;
use megadrive::vdp::VDP;

#[test]
fn psg_new_silences_every_channel() {
    let mut psg = PSG::new();
    assert_eq!(psg.take_ops(), vec![0x9F, 0xBF, 0xDF, 0xFF]);
}

#[test]
fn psg_command_bytes() {
    let mut psg = PSG::new();
    let _ = psg.take_ops();

    psg.set_volume(1, 5);
    assert_eq!(psg.take_ops(), vec![0xBA]);

    psg.set_pitch(2, 0x123);
    assert_eq!(psg.take_ops(), vec![0xC3, 0x12]);

    psg.set_noise(true, NoiseFrequency::Low);
    assert_eq!(psg.take_ops(), vec![0xE6]);
}

#[test]
fn psg_notes_shift_by_octave() {
    assert_eq!(megadrive::psg::Note::A3.value(), 506);
    assert_eq!(megadrive::psg::Note::A3.increase_octave(0), 506);
    assert_eq!(megadrive::psg::Note::A3.increase_octave(1), 253);
    assert_eq!(megadrive::psg::Note::C3.increase_octave(2), 212);
}

#[test]
fn timer_config_packs_its_fields() {
    let t = TimerConfig::new();
    let t = t.ch3_special_mode(true);
    let t = t.enable_timer_a(true, true);
    let t = t.enable_timer_b(true, false);
    let t = t.reset_timer_a(true);
    let mut fm = FM::new();
    let _ = fm.take_ops();
    fm.configure_timers(t);
    assert_eq!(
        fm.take_ops(),
        vec![FmWrite { bank2: false, addr: 0x27, value: 0x40 | 4 | 1 | 8 | 0x10 }]
    );
    let cleared = t.reset_timer_a(false).reset_timer_b(true);
    fm.configure_timers(cleared);
    assert_eq!(
        fm.take_ops(),
        vec![FmWrite { bank2: false, addr: 0x27, value: 0x40 | 4 | 1 | 8 | 0x20 }]
    );
}

#[test]
fn fm_new_initialises_lfo_timers_dac_and_channels() {
    let mut fm = FM::new();
    let ops = fm.take_ops();
    assert_eq!(ops.len(), 3 + 6 * 6);
    assert_eq!(ops[0], FmWrite { bank2: false, addr: 0x22, value: 0 });
    assert_eq!(ops[1], FmWrite { bank2: false, addr: 0x27, value: 0 });
    assert_eq!(ops[2], FmWrite { bank2: false, addr: 0x2b, value: 0 });
    // Channel 0: panning off, key up, four cleared operator registers.
    assert_eq!(ops[3], FmWrite { bank2: false, addr: 0xb4, value: 0 });
    assert_eq!(ops[4], FmWrite { bank2: false, addr: 0x28, value: 0 });
    assert_eq!(ops[5], FmWrite { bank2: false, addr: 0x90, value: 0 });
    assert_eq!(ops[8], FmWrite { bank2: false, addr: 0x9C, value: 0 });
    // Channel 4 lives in the second bank as slice 1, and its key command
    // names hardware channel 5.
    assert_eq!(ops[3 + 4 * 6], FmWrite { bank2: true, addr: 0xb5, value: 0 });
    assert_eq!(ops[4 + 4 * 6], FmWrite { bank2: false, addr: 0x28, value: 5 });
}

#[test]
fn fm_channel_writes_select_bank_and_slice() {
    let mut fm = FM::new();
    let _ = fm.take_ops();

    let ch: Channel = fm.channel(4);
    ch.set_frequency(&mut fm, 0x2C4, 3);
    assert_eq!(
        fm.take_ops(),
        vec![
            FmWrite { bank2: true, addr: 0xa5, value: 0x02 | (3 << 3) },
            FmWrite { bank2: true, addr: 0xa1, value: 0xC4 },
        ]
    );

    let ch2 = fm.channel(2);
    ch2.set_key(&mut fm, true);
    assert_eq!(
        fm.take_ops(),
        vec![FmWrite { bank2: false, addr: 0x28, value: 2 | 0xF0 }]
    );

    ch2.set_panning(&mut fm, Panning::Both, 1, 2);
    assert_eq!(
        fm.take_ops(),
        vec![FmWrite { bank2: false, addr: 0xb6, value: (3 << 6) | (1 << 4) | 2 }]
    );

    ch2.set_algorithm(&mut fm, 5, 3);
    assert_eq!(
        fm.take_ops(),
        vec![FmWrite { bank2: false, addr: 0xb2, value: 5 | (3 << 3) }]
    );
}

#[test]
fn fm_operator_writes_select_the_operator_slot() {
    let mut fm = FM::new();
    let _ = fm.take_ops();

    let op = fm.channel(1).operator(2);
    op.set_total_level(&mut fm, 200);
    assert_eq!(
        fm.take_ops(),
        vec![FmWrite { bank2: false, addr: 0x40 | 1 | (2 << 2), value: 200 & 0x7f }]
    );

    op.set_multiplier(&mut fm, 3, 2);
    assert_eq!(
        fm.take_ops(),
        vec![FmWrite { bank2: false, addr: 0x30 | 1 | (2 << 2), value: (2 << 4) | 3 }]
    );

    op.set_attack_rate(&mut fm, 31, 1);
    assert_eq!(
        fm.take_ops(),
        vec![FmWrite { bank2: false, addr: 0x50 | 1 | (2 << 2), value: 31 | (1 << 6) }]
    );

    op.set_decay_rate(&mut fm, 9, true);
    assert_eq!(
        fm.take_ops(),
        vec![FmWrite { bank2: false, addr: 0x60 | 1 | (2 << 2), value: 0x80 | 9 }]
    );

    op.set_sustain_rate(&mut fm, 7);
    assert_eq!(
        fm.take_ops(),
        vec![FmWrite { bank2: false, addr: 0x70 | 1 | (2 << 2), value: 7 }]
    );

    op.set_release_rate(&mut fm, 5, 9);
    assert_eq!(
        fm.take_ops(),
        vec![FmWrite { bank2: false, addr: 0x80 | 1 | (2 << 2), value: 5 | (9 << 4) }]
    );

    op.set_frequency_special(&mut fm, 0x1C4, 2);
    assert_eq!(
        fm.take_ops(),
        vec![
            FmWrite { bank2: false, addr: 0xac, value: 1 | (2 << 3) },
            FmWrite { bank2: false, addr: 0xa8, value: 0xC4 },
        ]
    );
}

#[test]
fn fm_timers_and_dac() {
    let mut fm = FM::new();
    let _ = fm.take_ops();
    fm.set_timer_a(0x3FF);
    assert_eq!(
        fm.take_ops(),
        vec![
            FmWrite { bank2: false, addr: 0x24, value: 0xFF },
            FmWrite { bank2: false, addr: 0x25, value: 3 },
        ]
    );
    fm.set_timer_b(0x80);
    assert_eq!(fm.take_ops(), vec![FmWrite { bank2: false, addr: 0x25, value: 0x80 }]);
    fm.dac_write(0x42);
    assert_eq!(fm.take_ops(), vec![FmWrite { bank2: false, addr: 0x2a, value: 0x42 }]);
    fm.enable_dac(true);
    assert_eq!(fm.take_ops(), vec![FmWrite { bank2: false, addr: 0x2b, value: 0x80 }]);
    fm.enable_lfo(Some(megadrive::fm::LFORate::F5_33Hz));
    assert_eq!(fm.take_ops(), vec![FmWrite { bank2: false, addr: 0x22, value: 8 | 1 }]);
}

#[test]
fn fm_timer_status_decodes_the_completion_bits() {
    let fm = FM::new();
    assert_eq!(fm.timer_status(0), (false, false));
    assert_eq!(fm.timer_status(1), (true, false));
    assert_eq!(fm.timer_status(2), (false, true));
    assert_eq!(fm.timer_status(0x83), (true, true));
}

#[test]
fn controllers_track_connection_and_history() {
    let mut c = Controllers::new();
    assert!(c.controller_state(0).is_none());
    assert!(c.controller_state(1).is_none());

    // Port 1: connected, every button line low (pressed), 6-button reply.
    // Port 2: the connection bits read high, so no controller.
    c.update(0x0000, 0x0C00, 0x0F00, 0x0000);
    let s = c.controller_state(0).expect("connected");
    assert!(s.is_6button());
    assert_eq!(s.down_raw(), 0x0FFF);
    assert_eq!(s.pressed_raw(), 0x0FFF);
    assert!(s.down(Button::Up));
    assert!(s.down(Button::Mode));
    assert!(s.pressed(Button::Up));
    assert!(c.controller_state(1).is_none());

    // A second identical update: everything still down, but nothing newly
    // pressed.
    c.update(0x0000, 0x0C00, 0x0F00, 0x0000);
    let s = c.controller_state(0).expect("still connected");
    assert_eq!(s.down_raw(), 0x0FFF);
    assert_eq!(s.pressed_raw(), 0);
    assert!(s.down(Button::Up));
    assert!(!s.pressed(Button::Up));

    // A 3-button pad with every line released: the connection bits stay
    // low, the button lines read high.
    c.update(0x303F, 0x0C00, 0x0000, 0x0000);
    let s = c.controller_state(0).expect("still connected");
    assert!(!s.is_6button());
    assert_eq!(s.down_raw(), 0);
    assert!(!s.down(Button::Up));
    assert_eq!(s.pressed_raw(), 0);

    let states = c.controller_states();
    assert!(states[0].is_some());
    assert!(states[1].is_none());
}

#[test]
fn renderer_links_sprites_into_a_chain() {
    let mut r = Renderer::new();
    r.draw_sprite(Sprite::default());
    r.draw_sprite(Sprite::default());
    r.draw_sprite(Sprite::default());

    let mut vdp = VDP::new(Version::from_raw(0));
    let _ = vdp.take_ops();
    r.render(&mut vdp);

    let q = r.queued_sprites();
    assert_eq!(q.len(), 3);
    assert_eq!(q[0].link, 1);
    assert_eq!(q[1].link, 2);
    assert_eq!(q[2].link, 0);

    // The flush is one upload of the whole table to the sprite base.
    let ops = vdp.take_ops();
    assert!(!ops.is_empty());

    r.clear();
    assert!(r.queued_sprites().is_empty());
}

#[test]
fn font_blits_one_sprite_per_byte() {
    let font = Font {
        tile_data: vec![[0u8; 32]; 96],
        sprite_size: SpriteSize::Size2x1,
        start_index: 64,
    };
    let mut r = Renderer::new();
    font.blit_text(&mut r, b"AB", 100, 50);
    let q = r.queued_sprites();
    assert_eq!(q.len(), 2);
    // Size2x1 glyphs are 16 pixels wide.
    assert_eq!(q[0].x, 100);
    assert_eq!(q[1].x, 116);
    assert_eq!(q[0].y, 50);
    assert_eq!(q[0].flags.tile_index(), 64 + b'A' as u16);
    assert_eq!(q[1].flags.tile_index(), 64 + b'B' as u16);
    assert_eq!(q[0].size, SpriteSize::Size2x1);

    let mut vdp = VDP::new(Version::from_raw(0));
    let _ = vdp.take_ops();
    font.load(&mut vdp);
    assert!(!vdp.take_ops().is_empty());
}

#[test]
fn heap_bounds_and_alignment() {
    let h = Heap::empty();
    assert_eq!(h.bottom(), 0);
    assert_eq!(h.size(), 0);
    assert_eq!(h.top(), 0);

    assert_eq!(align_down(7, 4), 4);
    assert_eq!(align_down(8, 4), 8);
    assert_eq!(align_down(7, 0), 7);
    assert_eq!(align_up(5, 4), 8);
    assert_eq!(align_up(8, 4), 8);
    assert_eq!(align_up(0, 16), 0);
}

#[test]
fn rng_mixes_the_counter_sample() {
    let mut rng = PseudoRng::from_seed(0);
    assert_eq!(rng.random(0), 0xDE32);

    // The same seed and samples give the same sequence.
    let mut a = PseudoRng::from_seed(77);
    let mut b = PseudoRng::from_seed(77);
    assert_eq!(a.random(0x1234), b.random(0x1234));
    assert_eq!(a.random(0x00FF), b.random(0x00FF));

    // Different counter samples steer the stream apart.
    let mut c = PseudoRng::from_seed(77);
    let x = c.random(0x5555);
    assert_ne!(x, a.random(0x9999));
}
