use nes_core::bus::Bus;
use nes_core::cartridge::test_rom;
use nes_core::errors::EmuError;

#[test]
fn test_mem_read_write_to_ram() {
    let mut bus = Bus::new(test_rom());
    bus.mem_write(0x01, 0x55).unwrap();
    assert_eq!(bus.mem_read(0x01).unwrap(), 0x55);
}

#[test]
fn test_mem_write_to_oam() {
    let mut bus = Bus::new(test_rom());
    bus.mem_write(0x2003, 0x55).unwrap();
    assert_eq!(bus.ppu.oam_addr, 0x55);
    bus.mem_write(0x2004, 0x66).unwrap();
    assert_eq!(bus.ppu.oam_data[0x55], 0x66);
}

#[test]
fn test_ram_mirrors_every_2k() {
    let mut bus = Bus::new(test_rom());
    bus.mem_write(0x0001, 0x99).unwrap();
    assert_eq!(bus.mem_read(0x0801).unwrap(), 0x99);
    assert_eq!(bus.mem_read(0x1001).unwrap(), 0x99);
    assert_eq!(bus.mem_read(0x1801).unwrap(), 0x99);
    bus.mem_write(0x1fff, 0x42).unwrap();
    assert_eq!(bus.mem_read(0x07ff).unwrap(), 0x42);
}

#[test]
fn test_write_only_register_read_is_fatal() {
    let mut bus = Bus::new(test_rom());
    assert_eq!(bus.mem_read(0x2000), Err(EmuError::ReadWriteOnly(0x2000)));
    assert_eq!(bus.mem_read(0x2006), Err(EmuError::ReadWriteOnly(0x2006)));
    // Mirrors fold onto the same registers.
    assert_eq!(bus.mem_read(0x2008), Err(EmuError::ReadWriteOnly(0x2000)));
    assert_eq!(bus.mem_read(0x4014), Err(EmuError::ReadWriteOnly(0x4014)));
}

#[test]
fn test_read_only_register_write_is_fatal() {
    let mut bus = Bus::new(test_rom());
    assert_eq!(bus.mem_write(0x2002, 0x11), Err(EmuError::WriteReadOnly(0x2002)));
}

#[test]
fn test_rom_write_is_fatal() {
    let mut bus = Bus::new(test_rom());
    assert_eq!(bus.mem_write(0x8000, 0x11), Err(EmuError::WriteToRom(0x8000)));
    assert_eq!(bus.mem_write(0xfffc, 0x11), Err(EmuError::WriteToRom(0xfffc)));
}

#[test]
fn test_prg_rom_read_and_unmapped_io() {
    let mut bus = Bus::new(test_rom());
    // The test cartridge fills PRG with 0x01.
    assert_eq!(bus.mem_read(0x8000).unwrap(), 0x01);
    assert_eq!(bus.mem_read(0xffff).unwrap(), 0x01);
    // APU stub and unmapped I/O read zero.
    assert_eq!(bus.mem_read(0x4000).unwrap(), 0);
    assert_eq!(bus.mem_read(0x4017).unwrap(), 0);
    assert_eq!(bus.mem_read(0x5000).unwrap(), 0);
}

#[test]
fn test_oam_dma_through_bus() {
    let mut bus = Bus::new(test_rom());
    // Stage a page of RAM at 0x0200 with recognisable first and last bytes.
    bus.mem_write(0x0200, 0x77).unwrap();
    for i in 1..255u16 {
        bus.mem_write(0x0200 + i, 0x66).unwrap();
    }
    bus.mem_write(0x02ff, 0x88).unwrap();

    bus.mem_write(0x2003, 0x10).unwrap();
    bus.mem_write(0x4014, 0x02).unwrap();

    assert_eq!(bus.ppu.oam_data[0x10], 0x77);
    assert_eq!(bus.ppu.oam_data[0x0f], 0x88);
    assert_eq!(bus.ppu.oam_data[0x11], 0x66);
}

#[test]
fn test_oam_dma_from_register_page_is_fatal() {
    let mut bus = Bus::new(test_rom());
    assert_eq!(bus.mem_write(0x4014, 0x20), Err(EmuError::ReadWriteOnly(0x2000)));
    assert_eq!(bus.mem_write(0x4014, 0x40), Err(EmuError::ReadWriteOnly(0x4014)));
}

#[test]
fn test_bus_tick_drives_ppu_three_to_one() {
    let mut bus = Bus::new(test_rom());
    // 341 PPU dots = one scanline; 114 CPU cycles give 342 dots.
    bus.tick(85);
    bus.tick(29);
    assert_eq!(bus.ppu.scanline, 1);
    assert_eq!(bus.ppu.cycles, 1);
    assert_eq!(bus.cycles, 114);
}
