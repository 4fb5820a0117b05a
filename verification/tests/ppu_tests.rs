use nes_core::cartridge::Mirroring;
use nes_core::errors::EmuError;
use nes_core::ppu::NesPPU;

#[test]
fn test_ppu_vram_writes() {
    let mut ppu = NesPPU::new_empty_rom();
    ppu.write_to_ppu_addr(0x23);
    ppu.write_to_ppu_addr(0x05);
    ppu.write_to_data(0x66).unwrap();

    assert_eq!(ppu.vram[0x0305], 0x66);
}

#[test]
fn test_ppu_vram_reads() {
    let mut ppu = NesPPU::new_empty_rom();
    ppu.write_to_ctrl(0);
    ppu.vram[0x0305] = 0x66;

    ppu.write_to_ppu_addr(0x23);
    ppu.write_to_ppu_addr(0x05);

    ppu.read_data().unwrap(); //load_into_buffer
    assert_eq!(ppu.addr.get(), 0x2306);
    assert_eq!(ppu.read_data().unwrap(), 0x66);
}

#[test]
fn test_ppu_vram_reads_cross_page() {
    let mut ppu = NesPPU::new_empty_rom();
    ppu.write_to_ctrl(0);
    ppu.vram[0x01ff] = 0x66;
    ppu.vram[0x0200] = 0x77;

    ppu.write_to_ppu_addr(0x21);
    ppu.write_to_ppu_addr(0xff);

    ppu.read_data().unwrap(); //load_into_buffer
    assert_eq!(ppu.read_data().unwrap(), 0x66);
    assert_eq!(ppu.read_data().unwrap(), 0x77);
}

#[test]
fn test_ppu_vram_reads_step_32() {
    let mut ppu = NesPPU::new_empty_rom();
    ppu.write_to_ctrl(0b100);
    ppu.vram[0x01ff] = 0x66;
    ppu.vram[0x01ff + 32] = 0x77;
    ppu.vram[0x01ff + 64] = 0x88;

    ppu.write_to_ppu_addr(0x21);
    ppu.write_to_ppu_addr(0xff);

    ppu.read_data().unwrap(); //load_into_buffer
    assert_eq!(ppu.read_data().unwrap(), 0x66);
    assert_eq!(ppu.read_data().unwrap(), 0x77);
    assert_eq!(ppu.read_data().unwrap(), 0x88);
}

// Horizontal mirroring folds the two left nametables onto the first
// physical table and the two right ones onto the second.
#[test]
fn test_vram_horizontal_mirror() {
    let mut ppu = NesPPU::new_empty_rom();
    ppu.write_to_ppu_addr(0x24);
    ppu.write_to_ppu_addr(0x05);

    ppu.write_to_data(0x66).unwrap(); //write to a

    ppu.write_to_ppu_addr(0x28);
    ppu.write_to_ppu_addr(0x05);

    ppu.write_to_data(0x77).unwrap(); //write to B

    ppu.write_to_ppu_addr(0x20);
    ppu.write_to_ppu_addr(0x05);

    ppu.read_data().unwrap(); //load into buffer
    assert_eq!(ppu.read_data().unwrap(), 0x66); //read from A

    ppu.write_to_ppu_addr(0x2C);
    ppu.write_to_ppu_addr(0x05);

    ppu.read_data().unwrap(); //load into buffer
    assert_eq!(ppu.read_data().unwrap(), 0x77); //read from b
}

// Vertical mirroring folds the two upper nametables onto the physical
// pair, so 0x2000/0x2800 share storage, as do 0x2400/0x2C00.
#[test]
fn test_vram_vertical_mirror() {
    let mut ppu = NesPPU::new(vec![0; 2048], Mirroring::VERTICAL);

    ppu.write_to_ppu_addr(0x20);
    ppu.write_to_ppu_addr(0x05);

    ppu.write_to_data(0x66).unwrap(); //write to A

    ppu.write_to_ppu_addr(0x2C);
    ppu.write_to_ppu_addr(0x05);

    ppu.write_to_data(0x77).unwrap(); //write to b

    ppu.write_to_ppu_addr(0x28);
    ppu.write_to_ppu_addr(0x05);

    ppu.read_data().unwrap(); //load into buffer
    assert_eq!(ppu.read_data().unwrap(), 0x66); //read from a

    ppu.write_to_ppu_addr(0x24);
    ppu.write_to_ppu_addr(0x05);

    ppu.read_data().unwrap(); //load into buffer
    assert_eq!(ppu.read_data().unwrap(), 0x77); //read from B
}

#[test]
fn test_read_status_resets_latch() {
    let mut ppu = NesPPU::new_empty_rom();
    ppu.vram[0x0305] = 0x66;

    ppu.write_to_ppu_addr(0x21);
    ppu.write_to_ppu_addr(0x23);
    ppu.write_to_ppu_addr(0x05);

    ppu.read_data().unwrap(); //load_into_buffer
    assert_ne!(ppu.read_data().unwrap(), 0x66);

    ppu.read_status();

    ppu.write_to_ppu_addr(0x23);
    ppu.write_to_ppu_addr(0x05);

    ppu.read_data().unwrap(); //load_into_buffer
    assert_eq!(ppu.read_data().unwrap(), 0x66);
}

#[test]
fn test_ppu_vram_mirroring() {
    let mut ppu = NesPPU::new_empty_rom();
    ppu.write_to_ctrl(0);
    ppu.vram[0x0305] = 0x66;

    ppu.write_to_ppu_addr(0x63); //0x6305 -> 0x2305
    ppu.write_to_ppu_addr(0x05);

    ppu.read_data().unwrap(); //load into_buffer
    assert_eq!(ppu.read_data().unwrap(), 0x66);
}

#[test]
fn test_read_status_resets_vblank() {
    let mut ppu = NesPPU::new_empty_rom();
    ppu.status.set_vertical_blank(true);

    let status = ppu.read_status();

    assert_eq!(status >> 7, 1);
    assert_eq!(ppu.status.bits() >> 7, 0);
}

#[test]
fn test_oam_read_write() {
    let mut ppu = NesPPU::new_empty_rom();
    ppu.write_to_oam_addr(0x10);
    ppu.write_to_oam_data(0x66);
    ppu.write_to_oam_data(0x77);

    ppu.write_to_oam_addr(0x10);
    assert_eq!(ppu.read_oam_data(), 0x66);

    ppu.write_to_oam_addr(0x11);
    assert_eq!(ppu.read_oam_data(), 0x77);
}

#[test]
fn test_oam_dma() {
    let mut ppu = NesPPU::new_empty_rom();

    let mut data = [0x66; 256];
    data[0] = 0x77;
    data[255] = 0x88;

    ppu.write_to_oam_addr(0x10);
    ppu.write_to_oam_dma(&data);

    ppu.write_to_oam_addr(0xf); //wrap around
    assert_eq!(ppu.read_oam_data(), 0x88);

    ppu.write_to_oam_addr(0x10);
    assert_eq!(ppu.read_oam_data(), 0x77);

    ppu.write_to_oam_addr(0x11);
    assert_eq!(ppu.read_oam_data(), 0x66);
}

#[test]
fn test_unusable_window_read_is_refused() {
    let mut ppu = NesPPU::new_empty_rom();
    ppu.write_to_ppu_addr(0x30);
    ppu.write_to_ppu_addr(0x00);
    assert_eq!(ppu.read_data(), Err(EmuError::UnusableAddress(0x3000)));
    assert_eq!(ppu.write_to_data(0x11), Err(EmuError::UnusableAddress(0x3001)));
}

#[test]
fn test_palette_alias_redirects_both_ways() {
    let mut ppu = NesPPU::new_empty_rom();
    // Write through the 0x3F10 alias, read back through 0x3F00.
    ppu.write_to_ppu_addr(0x3f);
    ppu.write_to_ppu_addr(0x10);
    ppu.write_to_data(0x2a).unwrap();
    assert_eq!(ppu.palette_table[0x00], 0x2a);

    ppu.write_to_ppu_addr(0x3f);
    ppu.write_to_ppu_addr(0x10);
    assert_eq!(ppu.read_data().unwrap(), 0x2a);
}

#[test]
fn test_tick_vblank_and_frame() {
    let mut ppu = NesPPU::new_empty_rom();
    ppu.write_to_ctrl(0x80); // enable NMI generation

    // Run to the end of scanline 240: 241 * 341 dots.
    let mut frame = false;
    let mut dots: u64 = 0;
    while dots + 200 <= 241 * 341 {
        frame = ppu.tick(200);
        dots += 200;
    }
    while dots < 241 * 341 {
        frame = ppu.tick(1);
        dots += 1;
    }
    assert!(!frame);
    assert!(ppu.status.is_in_vertical_blank());
    assert_eq!(ppu.poll_nmi_interrupt(), Some(1));
    assert_eq!(ppu.poll_nmi_interrupt(), None);

    // Run the remaining scanlines: the frame boundary reports true and
    // clears vertical blank.
    while dots + 200 <= 262 * 341 {
        frame = ppu.tick(200);
        dots += 200;
    }
    while dots < 262 * 341 {
        frame = ppu.tick(1);
        dots += 1;
    }
    assert!(frame);
    assert!(!ppu.status.is_in_vertical_blank());
}

#[test]
fn test_ctrl_enable_during_vblank_raises_nmi() {
    let mut ppu = NesPPU::new_empty_rom();
    ppu.status.set_vertical_blank(true);
    assert_eq!(ppu.poll_nmi_interrupt(), None);
    ppu.write_to_ctrl(0x80);
    assert_eq!(ppu.poll_nmi_interrupt(), Some(1));
}
