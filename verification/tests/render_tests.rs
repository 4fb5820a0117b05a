use nes_core::cartridge::Mirroring;
use nes_core::frame::Frame;
use nes_core::joypad::{Joypad, JoypadButton};
use nes_core::palette::system_palette;
use nes_core::ppu::NesPPU;
use nes_core::ppu_regs::{Color, ControlRegister, MaskRegister};
use nes_core::render::render;
use nes_core::tile_viewer::{show_tile, show_tile_bank};

#[test]
fn test_frame_set_pixel_and_clipping() {
    let mut frame = Frame::new();
    assert_eq!(frame.data.len(), 256 * 240 * 3);
    frame.set_pixel(2, 1, (10, 20, 30));
    let base = 768 + 6;
    assert_eq!(frame.data[base], 10);
    assert_eq!(frame.data[base + 1], 20);
    assert_eq!(frame.data[base + 2], 30);
    // A write below the surface is dropped.
    frame.set_pixel(0, 240, (1, 2, 3));
    assert_eq!(frame.data.len(), 256 * 240 * 3);
}

#[test]
fn test_system_palette_wraps_at_64() {
    assert_eq!(system_palette(0), (0x80, 0x80, 0x80));
    assert_eq!(system_palette(64), system_palette(0));
    assert_eq!(system_palette(0x3f), (0x11, 0x11, 0x11));
}

#[test]
fn test_show_tile_draws_expected_colors() {
    let mut chr = vec![0u8; 0x2000];
    // Tile 0, row 0: the first plane carries the high colour bit, the
    // second plane the low bit.
    chr[0] = 0x80; // pixel (0,0) gets colour 2
    chr[8] = 0x01; // pixel (7,0) gets colour 1
    let frame = show_tile(&chr, 0, 0);

    let c2 = system_palette(0x27);
    assert_eq!(frame.data[0], c2.0);
    assert_eq!(frame.data[1], c2.1);
    assert_eq!(frame.data[2], c2.2);

    let c1 = system_palette(0x23);
    assert_eq!(frame.data[7 * 3], c1.0);
    assert_eq!(frame.data[7 * 3 + 1], c1.1);
    assert_eq!(frame.data[7 * 3 + 2], c1.2);

    let c0 = system_palette(0x01);
    assert_eq!(frame.data[3], c0.0);
    assert_eq!(frame.data[4], c0.1);
    assert_eq!(frame.data[5], c0.2);
}

#[test]
fn test_show_tile_bank_places_second_tile() {
    let mut chr = vec![0u8; 0x2000];
    chr[16] = 0x80; // tile 1, pixel (0,0), colour 2
    let frame = show_tile_bank(&chr, 0);
    // Tile 1 sits ten pixels to the right.
    let c2 = system_palette(0x27);
    let base = 10 * 3;
    assert_eq!(frame.data[base], c2.0);
    assert_eq!(frame.data[base + 1], c2.1);
    assert_eq!(frame.data[base + 2], c2.2);
}

#[test]
fn test_render_blank_background() {
    let ppu = NesPPU::new(vec![0u8; 0x2000], Mirroring::HORIZONTAL);
    let mut frame = Frame::new();
    render(&ppu, &mut frame);
    // Colour 0 everywhere: the backdrop entry of palette RAM, which is 0,
    // mapped through the system palette.
    let c = system_palette(0);
    assert_eq!(frame.data[0], c.0);
    assert_eq!(frame.data[1], c.1);
    assert_eq!(frame.data[2], c.2);
    let last = (240 * 256 - 1) * 3;
    assert_eq!(frame.data[last], c.0);
}

#[test]
fn test_joypad_shift_sequence() {
    let mut joypad = Joypad::new();
    joypad.press(JoypadButton::A);
    joypad.press(JoypadButton::RIGHT);

    joypad.write(1);
    joypad.write(0);
    let mut bits = Vec::new();
    for _ in 0..8 {
        bits.push(joypad.read());
    }
    assert_eq!(bits, vec![1, 0, 0, 0, 0, 0, 0, 1]);
    // Past the eighth read the open bus answers 1.
    assert_eq!(joypad.read(), 1);

    joypad.release(JoypadButton::A);
    joypad.write(1);
    assert_eq!(joypad.read(), 0);
    assert_eq!(joypad.read(), 0); // strobe high keeps replaying button A
}

#[test]
fn test_mask_register_emphasise() {
    let mut mask = MaskRegister::new();
    mask.update(0b1110_0000);
    assert_eq!(mask.emphasise(), vec![Color::Red, Color::Green, Color::Blue]);
    mask.update(0b0100_0000);
    assert_eq!(mask.emphasise(), vec![Color::Green]);
    assert!(!mask.show_sprites());
    mask.update(0b0001_0000);
    assert!(mask.show_sprites());
}

#[test]
fn test_control_register_fields() {
    let mut ctrl = ControlRegister::new();
    assert_eq!(ctrl.vram_addr_increment(), 1);
    ctrl.update(0b0000_0100);
    assert_eq!(ctrl.vram_addr_increment(), 32);
    ctrl.update(0b0000_0011);
    assert_eq!(ctrl.nametable_addr(), 0x2c00);
    ctrl.update(0b0001_1000);
    assert_eq!(ctrl.bknd_pattern_addr(), 0x1000);
    assert_eq!(ctrl.sprite_pattern_addr(), 0x1000);
    ctrl.update(0b0010_0000);
    assert_eq!(ctrl.sprite_size(), 16);
    assert_eq!(ctrl.bknd_pattern_addr(), 0x0000);
}
