//! The system bus: decodes the CPU address space into RAM, PPU registers,
//! the APU stub, the joypad and PRG ROM, carries the OAM DMA channel, and
//! clocks the PPU three dots per CPU cycle.

use vstd::prelude::*;

use crate::cartridge::Rom;
use crate::errors::EmuError;
use crate::joypad::Joypad;
use crate::ppu::NesPPU;
use crate::ppu::PpuView;
use crate::ppu::spec_addr_inc;
use crate::ppu::spec_new_ppu;
use crate::ppu::spec_read_data_ppu;
use crate::ppu::spec_read_data_val;
use crate::ppu::spec_read_status_ppu;
use crate::ppu::spec_tick;
use crate::ppu::spec_vram_ok;
use crate::ppu::spec_write_ctrl_ppu;
use crate::ppu::spec_write_data_ppu;

verus! {

/// Mathematical model of the bus.
#[verifier::ext_equal]
pub struct BusView {
    pub cpu_vram: Seq<u8>,
    pub rom: Seq<u8>,
    pub ppu: PpuView,
    pub cycles: usize,
    pub joypad1: Joypad,
    pub frame_pending: bool,
}

impl BusView {
    /// 2 KiB of CPU RAM, a well-formed PPU, and a 16 KiB or 32 KiB PRG
    /// image (the only mapper-0 layouts).
    pub open spec fn wf(self) -> bool {
        &&& self.cpu_vram.len() == 2048
        &&& self.ppu.wf()
        &&& (self.rom.len() == 0x4000 || self.rom.len() == 0x8000)
    }
}

/// Fold the PPU register mirrors `0x2008..=0x3FFF` onto `0x2000..=0x2007`.
pub open spec fn spec_reg_addr(addr: u16) -> u16 {
    if 0x2008 <= addr <= 0x3fff {
        addr & 0x2007
    } else {
        addr
    }
}

/// Byte of PRG ROM behind `0x8000..=0xFFFF`; a 16 KiB image mirrors its
/// upper half onto its lower half.
pub open spec fn spec_prg_byte(b: BusView, addr: u16) -> u8 {
    let off = addr - 0x8000;
    if b.rom.len() == 0x4000 {
        b.rom[off % 0x4000]
    } else {
        b.rom[off as int]
    }
}

/// Value a joypad read shifts out.
pub open spec fn spec_joypad_read_val(j: Joypad) -> u8 {
    if j.button_index > 7 {
        1u8
    } else {
        (j.button_status >> j.button_index) & 1
    }
}

/// Joypad state after one read: the cursor advances while the strobe is low.
pub open spec fn spec_joypad_read_post(j: Joypad) -> Joypad {
    if j.button_index > 7 || j.strobe {
        j
    } else {
        Joypad { button_index: (j.button_index + 1) as u8, ..j }
    }
}

/// Joypad state after a strobe write.
pub open spec fn spec_joypad_write_post(j: Joypad, value: u8) -> Joypad {
    Joypad {
        strobe: value & 1 == 1,
        button_index: if value & 1 == 1 {
            0u8
        } else {
            j.button_index
        },
        ..j
    }
}

/// A read at `addr` succeeds: it is refused on the write-only PPU
/// registers, and a PPUDATA read needs a usable video address.
pub open spec fn spec_read_ok(b: BusView, addr: u16) -> bool {
    let m = spec_reg_addr(addr);
    if m <= 0x1fff {
        true
    } else if m == 0x2000 || m == 0x2001 || m == 0x2003 || m == 0x2005 || m == 0x2006 || m
        == 0x4014 {
        false
    } else if m == 0x2007 {
        spec_vram_ok(b.ppu, false)
    } else {
        true
    }
}

/// Value a successful read returns. Unmapped I/O and the APU stub read 0.
pub open spec fn spec_read_val(b: BusView, addr: u16) -> u8 {
    let m = spec_reg_addr(addr);
    if m <= 0x1fff {
        b.cpu_vram[(m & 0x7ff) as int]
    } else if m == 0x2002 {
        b.ppu.status
    } else if m == 0x2004 {
        b.ppu.oam_data[b.ppu.oam_addr as int]
    } else if m == 0x2007 {
        spec_read_data_val(b.ppu)
    } else if m == 0x4016 {
        spec_joypad_read_val(b.joypad1)
    } else if 0x8000 <= m {
        spec_prg_byte(b, m)
    } else {
        0u8
    }
}

/// Bus state after a successful read: only PPUSTATUS, PPUDATA and the
/// joypad port have read side effects.
pub open spec fn spec_read_bus(b: BusView, addr: u16) -> BusView {
    let m = spec_reg_addr(addr);
    if m == 0x2002 {
        BusView { ppu: spec_read_status_ppu(b.ppu), ..b }
    } else if m == 0x2007 {
        BusView { ppu: spec_read_data_ppu(b.ppu), ..b }
    } else if m == 0x4016 {
        BusView { joypad1: spec_joypad_read_post(b.joypad1), ..b }
    } else {
        b
    }
}

/// A read at `addr` leaves the bus exactly as it was.
pub open spec fn spec_read_quiet(addr: u16) -> bool {
    let m = spec_reg_addr(addr);
    m != 0x2002 && m != 0x2007 && m != 0x4016
}

/// An OAM DMA source page must be readable without side effects: CPU RAM,
/// unmapped I/O, or PRG ROM. Pages `0x20..=0x3F` start on the write-only
/// PPUCTRL mirror and page `0x40` holds the OAMDMA port itself.
pub open spec fn spec_dma_page_ok(page: u8) -> bool {
    page <= 0x1f || page >= 0x41
}

/// The 256 source bytes of an OAM DMA from page `page`.
pub open spec fn spec_dma_page(b: BusView, page: u8) -> Seq<u8> {
    Seq::new(256, |k: int| spec_read_val(b, (page * 256 + k) as u16))
}

/// OAM contents after a DMA that started writing at cursor `start`.
pub open spec fn spec_dma_oam(oam: Seq<u8>, start: u8, page_bytes: Seq<u8>) -> Seq<u8> {
    Seq::new(256, |j: int| page_bytes[(j - start) % 256])
}

/// A write at `addr` succeeds: PPUSTATUS and PRG ROM are read-only, a
/// PPUDATA write needs a usable video address, and an OAM DMA needs a
/// readable source page.
pub open spec fn spec_write_ok(b: BusView, addr: u16, value: u8) -> bool {
    let m = spec_reg_addr(addr);
    if m == 0x2002 {
        false
    } else if m == 0x2007 {
        spec_vram_ok(b.ppu, true)
    } else if m == 0x4014 {
        spec_dma_page_ok(value)
    } else if 0x8000 <= m {
        false
    } else {
        true
    }
}

/// Bus state after a successful write.
pub open spec fn spec_write_bus(b: BusView, addr: u16, value: u8) -> BusView {
    let m = spec_reg_addr(addr);
    if m <= 0x1fff {
        BusView { cpu_vram: b.cpu_vram.update((m & 0x7ff) as int, value), ..b }
    } else if m == 0x2000 {
        BusView { ppu: spec_write_ctrl_ppu(b.ppu, value), ..b }
    } else if m == 0x2001 {
        BusView { ppu: PpuView { mask: value, ..b.ppu }, ..b }
    } else if m == 0x2003 {
        BusView { ppu: PpuView { oam_addr: value, ..b.ppu }, ..b }
    } else if m == 0x2004 {
        BusView {
            ppu: PpuView {
                oam_data: b.ppu.oam_data.update(b.ppu.oam_addr as int, value),
                oam_addr: ((b.ppu.oam_addr + 1) % 256) as u8,
                ..b.ppu
            },
            ..b
        }
    } else if m == 0x2005 {
        BusView { ppu: PpuView { scroll: b.ppu.scroll.spec_write(value), ..b.ppu }, ..b }
    } else if m == 0x2006 {
        BusView { ppu: PpuView { addr: b.ppu.addr.spec_update(value), ..b.ppu }, ..b }
    } else if m == 0x2007 {
        BusView { ppu: spec_write_data_ppu(b.ppu, value), ..b }
    } else if m == 0x4014 {
        BusView {
            ppu: PpuView {
                oam_data: spec_dma_oam(
                    b.ppu.oam_data,
                    b.ppu.oam_addr,
                    spec_dma_page(b, value),
                ),
                ..b.ppu
            },
            ..b
        }
    } else if m == 0x4016 {
        BusView { joypad1: spec_joypad_write_post(b.joypad1, value), ..b }
    } else {
        b
    }
}

/// The error a refused read reports, and the bus it leaves behind: a
/// refused PPUDATA read has already advanced the address latch.
pub open spec fn spec_read_err(b: BusView, addr: u16) -> EmuError {
    let m = spec_reg_addr(addr);
    if m == 0x2007 {
        EmuError::UnusableAddress(b.ppu.addr.spec_get())
    } else {
        EmuError::ReadWriteOnly(m)
    }
}

pub open spec fn spec_read_err_bus(b: BusView, addr: u16) -> BusView {
    let m = spec_reg_addr(addr);
    if m == 0x2007 {
        BusView { ppu: spec_addr_inc(b.ppu), ..b }
    } else {
        b
    }
}

/// The error a refused write reports; a refused write leaves the bus as is.
pub open spec fn spec_write_err(b: BusView, addr: u16, value: u8) -> EmuError {
    let m = spec_reg_addr(addr);
    if m == 0x2002 {
        EmuError::WriteReadOnly(m)
    } else if m == 0x2007 {
        EmuError::UnusableAddress(b.ppu.addr.spec_get())
    } else if m == 0x4014 {
        if 0x20 <= value <= 0x3f {
            EmuError::ReadWriteOnly(0x2000)
        } else {
            EmuError::ReadWriteOnly(0x4014)
        }
    } else {
        EmuError::WriteToRom(m)
    }
}

/// Bus state after `cycles` CPU cycles: the counter advances (wrapping at
/// the machine word) and the PPU runs three dots per CPU cycle; a PPU
/// frame boundary latches `frame_pending` for the run loop.
pub open spec fn spec_bus_tick(b: BusView, cycles: u8) -> BusView {
    let c2 = if b.cycles + cycles <= usize::MAX {
        (b.cycles + cycles) as usize
    } else {
        (b.cycles + cycles - usize::MAX - 1) as usize
    };
    let t = spec_tick(b.ppu, (cycles * 3) as u8);
    BusView { cycles: c2, ppu: t.0, frame_pending: b.frame_pending || t.1, ..b }
}

/// The system bus.
pub struct Bus {
    pub cpu_vram: Vec<u8>,
    pub rom: Vec<u8>,
    pub ppu: NesPPU,
    pub cycles: usize,
    pub joypad1: Joypad,
    pub frame_pending: bool,
}

impl View for Bus {
    type V = BusView;

    open spec fn view(&self) -> BusView {
        BusView {
            cpu_vram: self.cpu_vram@,
            rom: self.rom@,
            ppu: self.ppu@,
            cycles: self.cycles,
            joypad1: self.joypad1,
            frame_pending: self.frame_pending,
        }
    }
}

impl Bus {
    /// A bus over a parsed cartridge: blank RAM, a fresh PPU holding the
    /// cartridge's CHR ROM and mirroring, and an idle joypad.
    pub fn new(rom: Rom) -> (r: Bus)
        requires
            rom.prg_rom@.len() == 0x4000 || rom.prg_rom@.len() == 0x8000,
        ensures
            r@.wf(),
            r@.cpu_vram == Seq::new(2048, |i: int| 0u8),
            r@.rom == rom.prg_rom@,
            r@.ppu == spec_new_ppu(rom.chr_rom@, rom.mirroring),
            r@.cycles == 0,
            r@.joypad1 == (Joypad { strobe: false, button_index: 0, button_status: 0 }),
            r@.frame_pending == false,
    {
        let Rom { prg_rom, chr_rom, mapper: _, mirroring } = rom;
        let ppu = NesPPU::new(chr_rom, mirroring);
        Bus {
            cpu_vram: crate::cartridge::filled_vec(0, 2048),
            rom: prg_rom,
            ppu,
            cycles: 0,
            joypad1: Joypad::new(),
            frame_pending: false,
        }
    }

    /// Byte of PRG ROM behind `0x8000..=0xFFFF`.
    pub fn read_prg_rom(&self, address: u16) -> (r: u8)
        requires
            self@.wf(),
            address >= 0x8000,
        ensures
            r == spec_prg_byte(self@, address),
    {
        let mut off = address - 0x8000;
        if self.rom.len() == 0x4000 {
            off = off % 0x4000;
        }
        self.rom[off as usize]
    }

    /// Read one byte from the CPU address space.
    pub fn mem_read(&mut self, address: u16) -> (r: Result<u8, EmuError>)
        requires
            old(self)@.wf(),
        ensures
            final(self)@.wf(),
            spec_read_ok(old(self)@, address) ==> (r matches Ok(v) && v == spec_read_val(
                old(self)@,
                address,
            ) && final(self)@ == spec_read_bus(old(self)@, address)),
            !spec_read_ok(old(self)@, address) ==> (r matches Err(e) && e == spec_read_err(
                old(self)@,
                address,
            ) && final(self)@ == spec_read_err_bus(old(self)@, address)),
    {
        let ghost pre = self@;
        let ghost a = address;
        let masked: u16 = if 0x2008 <= address && address <= 0x3fff {
            proof {
                assert(0x2008 <= a <= 0x3fff ==> 0x2000 <= (a & 0x2007) && (a & 0x2007)
                    <= 0x2007) by (bit_vector);
            }
            address & 0x2007
        } else {
            address
        };
        if masked <= 0x1fff {
            let ghost m = masked;
            proof {
                assert(m <= 0x1fff ==> (m & 0x7ff) < 2048) by (bit_vector);
            }
            let r = self.cpu_vram[(masked & 0x7ff) as usize];
            proof {
                assert(self@ =~= spec_read_bus(pre, a));
            }
            Ok(r)
        } else if masked == 0x2000 || masked == 0x2001 || masked == 0x2003 || masked == 0x2005
            || masked == 0x2006 || masked == 0x4014 {
            Err(EmuError::ReadWriteOnly(masked))
        } else if masked == 0x2002 {
            let r = self.ppu.read_status();
            proof {
                assert(self@ =~= spec_read_bus(pre, a));
            }
            Ok(r)
        } else if masked == 0x2004 {
            let r = self.ppu.read_oam_data();
            proof {
                assert(self@ =~= spec_read_bus(pre, a));
            }
            Ok(r)
        } else if masked == 0x2007 {
            let r = self.ppu.read_data();
            proof {
                if spec_vram_ok(pre.ppu, false) {
                    assert(self@ =~= spec_read_bus(pre, a));
                } else {
                    assert(self@ =~= spec_read_err_bus(pre, a));
                }
            }
            r
        } else if masked == 0x4016 {
            let r = self.joypad1.read();
            proof {
                assert(self@ =~= spec_read_bus(pre, a));
            }
            Ok(r)
        } else if masked >= 0x8000 {
            let r = self.read_prg_rom(masked);
            proof {
                assert(self@ =~= spec_read_bus(pre, a));
            }
            Ok(r)
        } else {
            // APU stub, the second joypad, and unmapped I/O all read zero.
            proof {
                assert(self@ =~= spec_read_bus(pre, a));
            }
            Ok(0)
        }
    }

    /// Write one byte into the CPU address space.
    pub fn mem_write(&mut self, address: u16, value: u8) -> (r: Result<(), EmuError>)
        requires
            old(self)@.wf(),
        ensures
            final(self)@.wf(),
            spec_write_ok(old(self)@, address, value) ==> (r matches Ok(u) && final(self)@
                == spec_write_bus(old(self)@, address, value)),
            !spec_write_ok(old(self)@, address, value) ==> (r matches Err(e) && e
                == spec_write_err(old(self)@, address, value) && final(self)@ == old(self)@),
    {
        let ghost pre = self@;
        let ghost a = address;
        let masked: u16 = if 0x2008 <= address && address <= 0x3fff {
            proof {
                assert(0x2008 <= a <= 0x3fff ==> 0x2000 <= (a & 0x2007) && (a & 0x2007)
                    <= 0x2007) by (bit_vector);
            }
            address & 0x2007
        } else {
            address
        };
        if masked <= 0x1fff {
            let ghost m = masked;
            proof {
                assert(m <= 0x1fff ==> (m & 0x7ff) < 2048) by (bit_vector);
            }
            self.cpu_vram.set((masked & 0x7ff) as usize, value);
            proof {
                assert(self@ =~= spec_write_bus(pre, a, value));
            }
            Ok(())
        } else if masked == 0x2000 {
            self.ppu.write_to_ctrl(value);
            proof {
                assert(self@ =~= spec_write_bus(pre, a, value));
            }
            Ok(())
        } else if masked == 0x2001 {
            self.ppu.write_to_mask(value);
            proof {
                assert(self@ =~= spec_write_bus(pre, a, value));
            }
            Ok(())
        } else if masked == 0x2002 {
            Err(EmuError::WriteReadOnly(masked))
        } else if masked == 0x2003 {
            self.ppu.write_to_oam_addr(value);
            proof {
                assert(self@ =~= spec_write_bus(pre, a, value));
            }
            Ok(())
        } else if masked == 0x2004 {
            self.ppu.write_to_oam_data(value);
            proof {
                assert(self@ =~= spec_write_bus(pre, a, value));
            }
            Ok(())
        } else if masked == 0x2005 {
            self.ppu.write_to_scroll(value);
            proof {
                assert(self@ =~= spec_write_bus(pre, a, value));
            }
            Ok(())
        } else if masked == 0x2006 {
            self.ppu.write_to_ppu_addr(value);
            proof {
                assert(self@ =~= spec_write_bus(pre, a, value));
            }
            Ok(())
        } else if masked == 0x2007 {
            let r = self.ppu.write_to_data(value);
            proof {
                if spec_vram_ok(pre.ppu, true) {
                    assert(self@ =~= spec_write_bus(pre, a, value));
                }
            }
            r
        } else if masked == 0x4014 {
            self.oam_dma(value)
        } else if masked == 0x4016 {
            self.joypad1.write(value);
            proof {
                assert(self@ =~= spec_write_bus(pre, a, value));
            }
            Ok(())
        } else if masked >= 0x8000 {
            Err(EmuError::WriteToRom(masked))
        } else {
            // APU stub, the second joypad, and unmapped I/O swallow writes.
            proof {
                assert(self@ =~= spec_write_bus(pre, a, value));
            }
            Ok(())
        }
    }

    /// OAM DMA: copy the 256 bytes of page `page << 8` into the PPU's OAM.
    fn oam_dma(&mut self, page: u8) -> (r: Result<(), EmuError>)
        requires
            old(self)@.wf(),
        ensures
            final(self)@.wf(),
            spec_dma_page_ok(page) ==> (r matches Ok(u) && final(self)@ == spec_write_bus(
                old(self)@,
                0x4014,
                page,
            )),
            !spec_dma_page_ok(page) ==> (r matches Err(e) && e == spec_write_err(
                old(self)@,
                0x4014,
                page,
            ) && final(self)@ == old(self)@),
    {
        if 0x20 <= page && page <= 0x3f {
            // The first source byte would be a read of the write-only
            // PPUCTRL mirror.
            return Err(EmuError::ReadWriteOnly(0x2000));
        }
        if page == 0x40 {
            // The source page would read the OAMDMA port itself.
            return Err(EmuError::ReadWriteOnly(0x4014));
        }
        let base: u16 = (page as u16) * 256;
        let mut buffer: Vec<u8> = Vec::new();
        let mut k: usize = 0;
        while k < 256
            invariant
                self@.wf(),
                self@ == old(self)@,
                k <= 256,
                base == page * 256,
                spec_dma_page_ok(page),
                buffer@.len() == k,
                forall|i: int|
                    0 <= i < k ==> buffer@[i] == spec_read_val(old(self)@, (page * 256 + i) as u16),
            decreases 256 - k,
        {
            let ghost pre = self@;
            let addr = base + k as u16;
            proof {
                lemma_dma_read_plain(pre, page, addr);
            }
            let byte = match self.mem_read(addr) {
                Ok(v) => v,
                Err(e) => {
                    proof {
                        assert(false);
                    }
                    return Err(e);
                },
            };
            buffer.push(byte);
            k = k + 1;
        }
        let ghost mid = self@;
        self.ppu.write_to_oam_dma(buffer.as_slice());
        proof {
            assert(buffer@ =~= spec_dma_page(old(self)@, page));
            assert(self@.ppu.oam_data =~= spec_dma_oam(
                old(self)@.ppu.oam_data,
                old(self)@.ppu.oam_addr,
                spec_dma_page(old(self)@, page),
            ));
            assert(self@ =~= spec_write_bus(old(self)@, 0x4014, page));
        }
        Ok(())
    }

    /// Read the 16-bit little-endian word at `address`.
    pub fn u16_mem_read(&mut self, address: u16) -> (r: Result<u16, EmuError>)
        requires
            old(self)@.wf(),
            address < 0xffff,
        ensures
            final(self)@.wf(),
            spec_read_ok(old(self)@, address) && spec_read_ok(
                spec_read_bus(old(self)@, address),
                (address + 1) as u16,
            ) ==> (r matches Ok(v) && {
                let b1 = spec_read_bus(old(self)@, address);
                &&& v == spec_read_val(old(self)@, address) + spec_read_val(
                    b1,
                    (address + 1) as u16,
                ) * 256
                &&& final(self)@ == spec_read_bus(b1, (address + 1) as u16)
            }),
            r is Err ==> !(spec_read_ok(old(self)@, address) && spec_read_ok(
                spec_read_bus(old(self)@, address),
                (address + 1) as u16,
            )),
    {
        let low = match self.mem_read(address) {
            Ok(v) => v,
            Err(e) => {
                return Err(e);
            },
        };
        let high = match self.mem_read(address + 1) {
            Ok(v) => v,
            Err(e) => {
                return Err(e);
            },
        };
        Ok((high as u16) * 256 + (low as u16))
    }

    /// Write the 16-bit word `value` at `address`, low byte first.
    pub fn u16_mem_write(&mut self, address: u16, value: u16) -> (r: Result<(), EmuError>)
        requires
            old(self)@.wf(),
            address < 0xffff,
        ensures
            final(self)@.wf(),
            spec_write_ok(old(self)@, address, (value % 256) as u8) && spec_write_ok(
                spec_write_bus(old(self)@, address, (value % 256) as u8),
                (address + 1) as u16,
                (value / 256) as u8,
            ) ==> (r matches Ok(u) && final(self)@ == spec_write_bus(
                spec_write_bus(old(self)@, address, (value % 256) as u8),
                (address + 1) as u16,
                (value / 256) as u8,
            )),
            r is Err ==> !(spec_write_ok(old(self)@, address, (value % 256) as u8)
                && spec_write_ok(
                spec_write_bus(old(self)@, address, (value % 256) as u8),
                (address + 1) as u16,
                (value / 256) as u8,
            )),
    {
        let low = (value % 256) as u8;
        let high = (value / 256) as u8;
        match self.mem_write(address, low) {
            Ok(u) => (),
            Err(e) => {
                return Err(e);
            },
        }
        match self.mem_write(address + 1, high) {
            Ok(u) => (),
            Err(e) => {
                return Err(e);
            },
        }
        Ok(())
    }

    /// Advance the whole machine by `cycles` CPU cycles.
    pub fn tick(&mut self, cycles: u8)
        requires
            old(self)@.wf(),
            cycles <= 85,
        ensures
            final(self)@.wf(),
            final(self)@ == spec_bus_tick(old(self)@, cycles),
    {
        if self.cycles <= usize::MAX - cycles as usize {
            self.cycles = self.cycles + cycles as usize;
        } else {
            self.cycles = cycles as usize - 1 - (usize::MAX - self.cycles);
        }
        let new_frame = self.ppu.tick(cycles * 3);
        if new_frame {
            self.frame_pending = true;
        }
        proof {
            assert(self@ =~= spec_bus_tick(old(self)@, cycles));
        }
    }

    /// Observe a byte without disturbing the machine: RAM, PRG ROM and
    /// the stub regions can be read from a shared borrow. Registers whose
    /// reads have side effects (PPUSTATUS, PPUDATA, the joypad port) and
    /// the write-only registers answer `None`.
    pub fn peek(&self, address: u16) -> (r: Option<u8>)
        requires
            self@.wf(),
        ensures
            spec_read_quiet(address) && spec_read_ok(self@, address) ==> r == Some(
                spec_read_val(self@, address),
            ),
            !(spec_read_quiet(address) && spec_read_ok(self@, address)) ==> r is None,
    {
        let ghost a = address;
        let masked: u16 = if 0x2008 <= address && address <= 0x3fff {
            proof {
                assert(0x2008 <= a <= 0x3fff ==> 0x2000 <= (a & 0x2007) && (a & 0x2007)
                    <= 0x2007) by (bit_vector);
            }
            address & 0x2007
        } else {
            address
        };
        if masked <= 0x1fff {
            let ghost m = masked;
            proof {
                assert(m <= 0x1fff ==> (m & 0x7ff) < 2048) by (bit_vector);
            }
            Some(self.cpu_vram[(masked & 0x7ff) as usize])
        } else if masked == 0x2004 {
            Some(self.ppu.read_oam_data())
        } else if masked <= 0x2007 || masked == 0x4014 || masked == 0x4016 {
            None
        } else if masked >= 0x8000 {
            Some(self.read_prg_rom(masked))
        } else {
            Some(0)
        }
    }

    /// Drain the PPU's pending NMI token.
    pub fn poll_nmi_status(&mut self) -> (r: Option<u8>)
        ensures
            r == old(self)@.ppu.nmi_interrupt,
            final(self)@ == (BusView {
                ppu: PpuView { nmi_interrupt: None, ..old(self)@.ppu },
                ..old(self)@
            }),
            final(self)@.wf() == old(self)@.wf(),
    {
        let r = self.ppu.poll_nmi_interrupt();
        proof {
            assert(self@ =~= (BusView {
                ppu: PpuView { nmi_interrupt: None, ..old(self)@.ppu },
                ..old(self)@
            }));
        }
        r
    }

    /// True when a PPU frame boundary passed since the last call; clears
    /// the latch. The run loop fires the host callback on this signal.
    pub fn take_frame(&mut self) -> (r: bool)
        ensures
            r == old(self)@.frame_pending,
            final(self)@ == (BusView { frame_pending: false, ..old(self)@ }),
            final(self)@.wf() == old(self)@.wf(),
    {
        let r = self.frame_pending;
        self.frame_pending = false;
        proof {
            assert(self@ =~= (BusView { frame_pending: false, ..old(self)@ }));
        }
        r
    }
}

/// Every address of a DMA-readable page reads successfully, quietly, and
/// without touching the bus.
proof fn lemma_dma_read_plain(b: BusView, page: u8, addr: u16)
    requires
        b.wf(),
        spec_dma_page_ok(page),
        page * 256 <= addr <= page * 256 + 255,
    ensures
        spec_read_ok(b, addr),
        spec_read_bus(b, addr) == b,
{
    if page <= 0x1f {
        assert(addr <= 0x1fff);
        assert(spec_reg_addr(addr) == addr);
    } else {
        assert(addr >= 0x4100);
        assert(spec_reg_addr(addr) == addr);
    }
}

/// RAM round trip: a write to `0x0000..=0x1FFF` is read back through every
/// 2 KiB mirror of the same cell, and RAM reads leave the bus untouched.
pub proof fn lemma_ram_round_trip(b: BusView, a: u16, v: u8)
    requires
        b.wf(),
        a <= 0x1fff,
    ensures
        spec_write_ok(b, a, v),
        spec_read_ok(b, a),
        spec_read_val(spec_write_bus(b, a, v), a) == v,
        spec_read_val(b, a) == spec_read_val(b, a & 0x7ff),
        spec_read_bus(b, a) == b,
{
    assert(a & 0x7ff < 2048 && (a & 0x7ff) & 0x7ff == a & 0x7ff && a & 0x7ff <= 0x1fff)
        by (bit_vector);
    assert(spec_reg_addr(a) == a);
    assert(spec_reg_addr(a & 0x7ff) == a & 0x7ff) by {
        assert(a & 0x7ff <= 0x7ff) by (bit_vector);
    }
}

} // verus!
