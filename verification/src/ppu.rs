//! The picture processing unit: video memory, registers, OAM, and the
//! scanline/cycle state machine that raises vertical blank and frame
//! boundaries.

use vstd::prelude::*;

use crate::cartridge::Mirroring;
use crate::errors::EmuError;
use crate::ppu_regs::AddrRegister;
use crate::ppu_regs::ControlRegister;
use crate::ppu_regs::MaskRegister;
use crate::ppu_regs::ScrollRegister;
use crate::ppu_regs::StatusRegister;
use crate::ppu_regs::CTRL_GENERATE_NMI;
use crate::ppu_regs::MASK_SHOW_SPRITES;
use crate::ppu_regs::STATUS_SPRITE_ZERO_HIT;
use crate::ppu_regs::STATUS_VERTICAL_BLANK;
use crate::ppu_regs::spec_generate_nmi;
use crate::ppu_regs::spec_set_mask;
use crate::ppu_regs::spec_vram_addr_increment;

verus! {

/// Mathematical model of the PPU: every field as a plain value or sequence.
#[verifier::ext_equal]
pub struct PpuView {
    pub chr_rom: Seq<u8>,
    pub palette_table: Seq<u8>,
    pub vram: Seq<u8>,
    pub oam_data: Seq<u8>,
    pub oam_addr: u8,
    pub mirroring: Mirroring,
    pub internal_data_buffer: u8,
    pub addr: AddrRegister,
    pub ctrl: u8,
    pub mask: u8,
    pub status: u8,
    pub scroll: ScrollRegister,
    pub scanline: u16,
    pub cycles: usize,
    pub nmi_interrupt: Option<u8>,
}

impl PpuView {
    /// Sizes fixed by the hardware, the address latch inside its 14-bit
    /// space, and the scanline/cycle counters inside one frame.
    pub open spec fn wf(self) -> bool {
        &&& self.palette_table.len() == 32
        &&& self.vram.len() == 2048
        &&& self.oam_data.len() == 256
        &&& self.addr.wf()
        &&& self.scanline < 262
        &&& self.cycles < 341
    }
}

/// Fold a logical nametable address into an index of the two physical
/// nametables, following the cartridge's mirroring arrangement.
pub open spec fn spec_mirror_vram_addr(m: Mirroring, addr: u16) -> int {
    let mirrored = addr & 0x2fff;
    let idx = mirrored - 0x2000;
    let nt = idx / 0x400;
    match m {
        Mirroring::VERTICAL => if nt == 2 || nt == 3 {
            idx - 0x800
        } else {
            idx
        },
        Mirroring::HORIZONTAL => if nt == 1 || nt == 2 {
            idx - 0x400
        } else if nt == 3 {
            idx - 0x800
        } else {
            idx
        },
        Mirroring::FOURSCREEN => idx,
    }
}

/// Palette RAM index for an address in `0x3F00..=0x3FFF`: the four sprite
/// background aliases are redirected onto their background slots.
pub open spec fn spec_palette_index(addr: u16) -> int {
    if addr == 0x3f10 || addr == 0x3f14 || addr == 0x3f18 || addr == 0x3f1c {
        ((addr - 0x10) as u16 & 0x1f) as int
    } else {
        (addr & 0x1f) as int
    }
}

/// The PPU with its address latch advanced by the CTRL-selected step.
pub open spec fn spec_addr_inc(p: PpuView) -> PpuView {
    PpuView { addr: p.addr.spec_increment(spec_vram_addr_increment(p.ctrl)), ..p }
}

/// A PPUDATA access at the latched address stays inside memory this core
/// holds: the pattern region must sit inside CHR ROM, the unusable
/// `0x3000..=0x3EFF` window is refused, and four-screen nametables beyond
/// the two physical ones are not allocated.
pub open spec fn spec_vram_ok(p: PpuView, writing: bool) -> bool {
    let a = p.addr.spec_get();
    if a <= 0x1fff {
        writing || a < p.chr_rom.len()
    } else if a <= 0x2fff {
        spec_mirror_vram_addr(p.mirroring, a) < 2048
    } else if a <= 0x3eff {
        false
    } else {
        true
    }
}

/// Value handed back by a PPUDATA read: the stale buffer for pattern and
/// nametable addresses, the palette byte directly for palette addresses.
pub open spec fn spec_read_data_val(p: PpuView) -> u8 {
    let a = p.addr.spec_get();
    if a <= 0x2fff {
        p.internal_data_buffer
    } else {
        p.palette_table[spec_palette_index(a)]
    }
}

/// PPU state after a PPUDATA read: the address steps forward and the
/// buffer is refilled from the byte under the pre-increment address.
pub open spec fn spec_read_data_ppu(p: PpuView) -> PpuView {
    let a = p.addr.spec_get();
    let p1 = spec_addr_inc(p);
    if a <= 0x1fff {
        PpuView { internal_data_buffer: p.chr_rom[a as int], ..p1 }
    } else if a <= 0x2fff {
        PpuView {
            internal_data_buffer: p.vram[spec_mirror_vram_addr(p.mirroring, a)],
            ..p1
        }
    } else {
        p1
    }
}

/// PPU state after a PPUDATA write: pattern writes are ignored (CHR is
/// ROM), nametable writes land in mirrored VRAM, palette writes in palette
/// RAM; the address then steps forward.
pub open spec fn spec_write_data_ppu(p: PpuView, value: u8) -> PpuView {
    let a = p.addr.spec_get();
    let p1 = spec_addr_inc(p);
    if a <= 0x1fff {
        p1
    } else if a <= 0x2fff {
        PpuView { vram: p.vram.update(spec_mirror_vram_addr(p.mirroring, a), value), ..p1 }
    } else {
        PpuView {
            palette_table: p.palette_table.update(spec_palette_index(a), value),
            ..p1
        }
    }
}

/// PPU state after a PPUSTATUS read: vertical blank cleared, both
/// double-write latches reset.
pub open spec fn spec_read_status_ppu(p: PpuView) -> PpuView {
    PpuView {
        status: p.status & !STATUS_VERTICAL_BLANK,
        addr: AddrRegister { hi_ptr: true, ..p.addr },
        scroll: ScrollRegister { latch_y: false, ..p.scroll },
        ..p
    }
}

/// PPU state after a PPUCTRL write: turning NMI generation on while the
/// vertical blank flag is already up raises the interrupt at once.
pub open spec fn spec_write_ctrl_ppu(p: PpuView, value: u8) -> PpuView {
    let fires = !spec_generate_nmi(p.ctrl) && spec_generate_nmi(value) && p.status
        & STATUS_VERTICAL_BLANK != 0;
    PpuView {
        ctrl: value,
        nmi_interrupt: if fires {
            Some(1u8)
        } else {
            p.nmi_interrupt
        },
        ..p
    }
}

/// PPU state after a write to OAMADDR.
pub open spec fn spec_write_oam_addr_ppu(p: PpuView, value: u8) -> PpuView {
    PpuView { oam_addr: value, ..p }
}

/// PPU state after a write to OAMDATA: the byte lands under the cursor
/// and the cursor advances with wraparound.
pub open spec fn spec_write_oam_data_ppu(p: PpuView, value: u8) -> PpuView {
    PpuView {
        oam_data: p.oam_data.update(p.oam_addr as int, value),
        oam_addr: ((p.oam_addr + 1) % 256) as u8,
        ..p
    }
}

/// The sprite-zero-hit approximation: sprite 0's Y equals the current
/// scanline, its X has been passed by the dot counter, and sprites are on.
pub open spec fn spec_sprite_zero_hit(p: PpuView, cycle: int) -> bool {
    &&& p.oam_data[0] == p.scanline
    &&& p.oam_data[3] <= cycle
    &&& p.mask & MASK_SHOW_SPRITES != 0
}

/// PPU state after `dots` PPU cycles, and whether a frame completed.
/// Crossing cycle 341 ends the scanline; scanline 241 opens vertical
/// blank (raising NMI when enabled); scanline 262 wraps to a new frame.
pub open spec fn spec_tick(p: PpuView, dots: u8) -> (PpuView, bool) {
    let c = p.cycles + dots;
    if c >= 341 {
        let s1 = if spec_sprite_zero_hit(p, c) {
            spec_set_mask(p.status, STATUS_SPRITE_ZERO_HIT, true)
        } else {
            p.status
        };
        let c2 = (c - 341) as usize;
        let sl = (p.scanline + 1) as u16;
        if sl == 241 {
            let s2 = spec_set_mask(
                spec_set_mask(s1, STATUS_VERTICAL_BLANK, true),
                STATUS_SPRITE_ZERO_HIT,
                false,
            );
            let nmi = if spec_generate_nmi(p.ctrl) {
                Some(1u8)
            } else {
                p.nmi_interrupt
            };
            (
                PpuView { status: s2, cycles: c2, scanline: sl, nmi_interrupt: nmi, ..p },
                false,
            )
        } else if sl >= 262 {
            let s2 = spec_set_mask(
                spec_set_mask(s1, STATUS_SPRITE_ZERO_HIT, false),
                STATUS_VERTICAL_BLANK,
                false,
            );
            (
                PpuView { status: s2, cycles: c2, scanline: 0, nmi_interrupt: None, ..p },
                true,
            )
        } else {
            (PpuView { status: s1, cycles: c2, scanline: sl, ..p }, false)
        }
    } else {
        (PpuView { cycles: c as usize, ..p }, false)
    }
}

/// The NES picture processing unit.
pub struct NesPPU {
    pub chr_rom: Vec<u8>,
    pub palette_table: Vec<u8>,
    pub vram: Vec<u8>,
    pub oam_data: Vec<u8>,
    pub oam_addr: u8,
    pub mirroring: Mirroring,
    pub internal_data_buffer: u8,
    pub addr: AddrRegister,
    pub ctrl: ControlRegister,
    pub mask: MaskRegister,
    pub scroll: ScrollRegister,
    pub status: StatusRegister,
    pub scanline: u16,
    pub cycles: usize,
    pub nmi_interrupt: Option<u8>,
}

impl View for NesPPU {
    type V = PpuView;

    open spec fn view(&self) -> PpuView {
        PpuView {
            chr_rom: self.chr_rom@,
            palette_table: self.palette_table@,
            vram: self.vram@,
            oam_data: self.oam_data@,
            oam_addr: self.oam_addr,
            mirroring: self.mirroring,
            internal_data_buffer: self.internal_data_buffer,
            addr: self.addr,
            ctrl: self.ctrl.bits,
            mask: self.mask.bits,
            status: self.status.bits,
            scroll: self.scroll,
            scanline: self.scanline,
            cycles: self.cycles,
            nmi_interrupt: self.nmi_interrupt,
        }
    }
}

impl NesPPU {
    /// A PPU over a blank 2 KiB pattern source, horizontally mirrored.
    pub fn new_empty_rom() -> (r: NesPPU)
        ensures
            r@.wf(),
            r@.chr_rom == Seq::new(2048, |i: int| 0u8),
            r@.mirroring == Mirroring::HORIZONTAL,
            r@ == spec_new_ppu(r@.chr_rom, Mirroring::HORIZONTAL),
    {
        NesPPU::new(crate::cartridge::filled_vec(0, 2048), Mirroring::HORIZONTAL)
    }

    pub fn new(chr_rom: Vec<u8>, mirroring: Mirroring) -> (r: NesPPU)
        ensures
            r@.wf(),
            r@ == spec_new_ppu(chr_rom@, mirroring),
    {
        let r = NesPPU {
            chr_rom,
            palette_table: crate::cartridge::filled_vec(0, 32),
            vram: crate::cartridge::filled_vec(0, 2048),
            oam_data: crate::cartridge::filled_vec(0, 256),
            oam_addr: 0,
            mirroring,
            addr: AddrRegister::new(),
            ctrl: ControlRegister::new(),
            mask: MaskRegister::new(),
            scroll: ScrollRegister::new(),
            status: StatusRegister::new(),
            internal_data_buffer: 0,
            scanline: 0,
            cycles: 0,
            nmi_interrupt: None,
        };
        proof {
            assert(r@ =~= spec_new_ppu(r@.chr_rom, mirroring));
        }
        r
    }

    /// Advance the PPU by `dots` cycles; true means a frame just completed.
    pub fn tick(&mut self, cycle: u8) -> (frame: bool)
        requires
            old(self)@.wf(),
        ensures
            final(self)@.wf(),
            (final(self)@, frame) == spec_tick(old(self)@, cycle),
    {
        self.cycles = self.cycles + cycle as usize;
        if self.cycles >= 341 {
            if self.is_sprite_0_hit(self.cycles) {
                self.status.set_sprite_zero_hit(true);
            }
            self.cycles = self.cycles - 341;
            self.scanline = self.scanline + 1;

            if self.scanline == 241 {
                self.status.set_vertical_blank(true);
                self.status.set_sprite_zero_hit(false);
                if self.ctrl.generate_nmi() {
                    self.nmi_interrupt = Some(1);
                }
                proof {
                    assert((self@, false) =~= spec_tick(old(self)@, cycle));
                }
                return false;
            }

            if self.scanline >= 262 {
                self.scanline = 0;
                self.nmi_interrupt = None;
                self.status.set_sprite_zero_hit(false);
                self.status.reset_vertical_blank();
                proof {
                    assert((self@, true) =~= spec_tick(old(self)@, cycle));
                }
                return true;
            }
            proof {
                assert((self@, false) =~= spec_tick(old(self)@, cycle));
            }
            return false;
        }
        proof {
            assert((self@, false) =~= spec_tick(old(self)@, cycle));
        }
        false
    }

    /// The sprite-zero-hit condition at the given dot count.
    pub fn is_sprite_0_hit(&self, cycle: usize) -> (r: bool)
        requires
            self@.oam_data.len() == 256,
        ensures
            r == spec_sprite_zero_hit(self@, cycle as int),
    {
        let y = self.oam_data[0] as usize;
        let x = self.oam_data[3] as usize;
        (y == self.scanline as usize) && x <= cycle && self.mask.show_sprites()
    }

    /// Hand the pending NMI token to the CPU, clearing it.
    pub fn poll_nmi_interrupt(&mut self) -> (r: Option<u8>)
        ensures
            r == old(self)@.nmi_interrupt,
            final(self)@ == (PpuView { nmi_interrupt: None, ..old(self)@ }),
    {
        let r = self.nmi_interrupt.take();
        proof {
            assert(self@ =~= (PpuView { nmi_interrupt: None, ..old(self)@ }));
        }
        r
    }

    fn increment_vram_addr(&mut self)
        requires
            old(self)@.wf(),
        ensures
            final(self)@.wf(),
            final(self)@ == spec_addr_inc(old(self)@),
    {
        let inc = self.ctrl.vram_addr_increment();
        self.addr.increment(inc);
        proof {
            assert(self@ =~= spec_addr_inc(old(self)@));
        }
    }

    /// Physical VRAM index for a logical nametable address.
    pub fn mirror_vram_addr(&self, addr: u16) -> (r: u16)
        requires
            0x2000 <= addr <= 0x3eff,
        ensures
            r == spec_mirror_vram_addr(self@.mirroring, addr),
            r < 0x1000,
            self@.mirroring != Mirroring::FOURSCREEN ==> r < 0x800,
    {
        let ghost a = addr;
        let mirrored = addr & 0x2fff;
        proof {
            assert(0x2000 <= a <= 0x3eff ==> 0x2000 <= (a & 0x2fff) && (a & 0x2fff) <= 0x2fff)
                by (bit_vector);
        }
        let vram_index = mirrored - 0x2000;
        let name_table = vram_index / 0x400;
        match self.mirroring {
            Mirroring::VERTICAL => {
                if name_table == 2 || name_table == 3 {
                    vram_index - 0x800
                } else {
                    vram_index
                }
            },
            Mirroring::HORIZONTAL => {
                if name_table == 1 || name_table == 2 {
                    vram_index - 0x400
                } else if name_table == 3 {
                    vram_index - 0x800
                } else {
                    vram_index
                }
            },
            Mirroring::FOURSCREEN => vram_index,
        }
    }

    /// One write to the PPUADDR double-write latch.
    pub fn write_to_ppu_addr(&mut self, value: u8)
        requires
            old(self)@.wf(),
        ensures
            final(self)@.wf(),
            final(self)@ == (PpuView { addr: old(self)@.addr.spec_update(value), ..old(self)@ }),
    {
        self.addr.update(value);
        proof {
            assert(self@ =~= (PpuView { addr: old(self)@.addr.spec_update(value), ..old(self)@ }));
        }
    }

    /// Write PPUCTRL; enabling NMI during vertical blank raises it now.
    pub fn write_to_ctrl(&mut self, value: u8)
        ensures
            final(self)@ == spec_write_ctrl_ppu(old(self)@, value),
            final(self)@.wf() == old(self)@.wf(),
    {
        let pre_nmi_status = self.ctrl.generate_nmi();
        self.ctrl.update(value);
        if !pre_nmi_status && self.ctrl.generate_nmi() && self.status.is_in_vertical_blank() {
            self.nmi_interrupt = Some(1);
        }
        proof {
            assert(self@ =~= spec_write_ctrl_ppu(old(self)@, value));
        }
    }

    /// Buffered PPUDATA read at the latched address.
    pub fn read_data(&mut self) -> (r: Result<u8, EmuError>)
        requires
            old(self)@.wf(),
        ensures
            final(self)@.wf(),
            spec_vram_ok(old(self)@, false) ==> (r matches Ok(v) && v == spec_read_data_val(
                old(self)@,
            ) && final(self)@ == spec_read_data_ppu(old(self)@)),
            !spec_vram_ok(old(self)@, false) ==> (r matches Err(e) && e
                == EmuError::UnusableAddress(old(self)@.addr.spec_get()) && final(self)@
                == spec_addr_inc(old(self)@)),
    {
        let addr = self.addr.get();
        self.increment_vram_addr();

        if addr <= 0x1fff {
            if addr as usize >= self.chr_rom.len() {
                return Err(EmuError::UnusableAddress(addr));
            }
            let result = self.internal_data_buffer;
            self.internal_data_buffer = self.chr_rom[addr as usize];
            proof {
                assert(self@ =~= spec_read_data_ppu(old(self)@));
            }
            Ok(result)
        } else if addr <= 0x2fff {
            let idx = self.mirror_vram_addr(addr);
            if idx >= 2048 {
                return Err(EmuError::UnusableAddress(addr));
            }
            let result = self.internal_data_buffer;
            self.internal_data_buffer = self.vram[idx as usize];
            proof {
                assert(self@ =~= spec_read_data_ppu(old(self)@));
            }
            Ok(result)
        } else if addr <= 0x3eff {
            Err(EmuError::UnusableAddress(addr))
        } else {
            let idx = palette_index(addr);
            let result = self.palette_table[idx as usize];
            proof {
                assert(self@ =~= spec_read_data_ppu(old(self)@));
            }
            Ok(result)
        }
    }

    /// PPUDATA write at the latched address.
    pub fn write_to_data(&mut self, value: u8) -> (r: Result<(), EmuError>)
        requires
            old(self)@.wf(),
        ensures
            final(self)@.wf(),
            spec_vram_ok(old(self)@, true) ==> (r matches Ok(u) && final(self)@
                == spec_write_data_ppu(old(self)@, value)),
            !spec_vram_ok(old(self)@, true) ==> (r matches Err(e) && e
                == EmuError::UnusableAddress(old(self)@.addr.spec_get()) && final(self)@ == old(
                self,
            )@),
    {
        let addr = self.addr.get();
        if addr <= 0x1fff {
            // CHR is read-only: the write is dropped, the address still steps.
        } else if addr <= 0x2fff {
            let idx = self.mirror_vram_addr(addr);
            if idx >= 2048 {
                return Err(EmuError::UnusableAddress(addr));
            }
            self.vram.set(idx as usize, value);
        } else if addr <= 0x3eff {
            return Err(EmuError::UnusableAddress(addr));
        } else {
            let idx = palette_index(addr);
            self.palette_table.set(idx as usize, value);
        }
        self.increment_vram_addr();
        proof {
            assert(self@ =~= spec_write_data_ppu(old(self)@, value));
        }
        Ok(())
    }

    pub fn write_to_mask(&mut self, value: u8)
        ensures
            final(self)@ == (PpuView { mask: value, ..old(self)@ }),
            final(self)@.wf() == old(self)@.wf(),
    {
        self.mask.update(value);
        proof {
            assert(self@ =~= (PpuView { mask: value, ..old(self)@ }));
        }
    }

    /// Read PPUSTATUS: returns the bits, clears vertical blank, and resets
    /// both double-write latches.
    pub fn read_status(&mut self) -> (r: u8)
        ensures
            r == old(self)@.status,
            final(self)@ == spec_read_status_ppu(old(self)@),
            final(self)@.wf() == old(self)@.wf(),
    {
        let result = self.status.bits();
        self.status.reset_vertical_blank();
        self.addr.reset_latch();
        self.scroll.reset_latch();
        proof {
            assert(self@ =~= spec_read_status_ppu(old(self)@));
        }
        result
    }

    pub fn write_to_oam_addr(&mut self, value: u8)
        ensures
            final(self)@ == spec_write_oam_addr_ppu(old(self)@, value),
            final(self)@.wf() == old(self)@.wf(),
    {
        self.oam_addr = value;
        proof {
            assert(self@ =~= spec_write_oam_addr_ppu(old(self)@, value));
        }
    }

    /// Write at the OAM cursor; the cursor advances with wraparound.
    pub fn write_to_oam_data(&mut self, value: u8)
        requires
            old(self)@.wf(),
        ensures
            final(self)@.wf(),
            final(self)@ == spec_write_oam_data_ppu(old(self)@, value),
    {
        self.oam_data.set(self.oam_addr as usize, value);
        self.oam_addr = self.oam_addr.wrapping_add(1);
        proof {
            assert(self@ =~= spec_write_oam_data_ppu(old(self)@, value));
        }
    }

    /// Read at the OAM cursor without advancing it.
    pub fn read_oam_data(&self) -> (r: u8)
        requires
            self@.wf(),
        ensures
            r == self@.oam_data[self@.oam_addr as int],
    {
        self.oam_data[self.oam_addr as usize]
    }

    /// One write to the PPUSCROLL double-write latch.
    pub fn write_to_scroll(&mut self, value: u8)
        ensures
            final(self)@ == (PpuView { scroll: old(self)@.scroll.spec_write(value), ..old(self)@ }),
            final(self)@.wf() == old(self)@.wf(),
    {
        self.scroll.write(value);
        proof {
            assert(self@ =~= (PpuView {
                scroll: old(self)@.scroll.spec_write(value),
                ..old(self)@
            }));
        }
    }

    /// Copy a 256-byte page into OAM starting at the cursor, wrapping; the
    /// cursor comes back to where it started.
    pub fn write_to_oam_dma(&mut self, data: &[u8])
        requires
            old(self)@.wf(),
            data@.len() == 256,
        ensures
            final(self)@.wf(),
            final(self)@ == (PpuView { oam_data: final(self)@.oam_data, ..old(self)@ }),
            forall|j: int|
                0 <= j < 256 ==> final(self)@.oam_data[j] == data@[
                    (j - old(self)@.oam_addr) % 256
                ],
    {
        let ghost start = self.oam_addr as int;
        let mut i: usize = 0;
        while i < 256
            invariant
                self@.wf(),
                data@.len() == 256,
                i <= 256,
                self@ == (PpuView {
                    oam_data: self@.oam_data,
                    oam_addr: self@.oam_addr,
                    ..old(self)@
                }),
                0 <= start < 256,
                self@.oam_addr == (start + i) % 256,
                forall|j: int|
                    0 <= j < 256 && (j - start) % 256 < i ==> self@.oam_data[j] == data@[
                        (j - start) % 256
                    ],
                forall|j: int|
                    0 <= j < 256 && (j - start) % 256 >= i ==> self@.oam_data[j] == old(
                        self,
                    )@.oam_data[j],
            decreases 256 - i,
        {
            let ghost prev = self@.oam_data;
            let ghost i0 = i as int;
            let ghost cur = self.oam_addr as int;
            proof {
                lemma_mod_cursor(start, i0);
            }
            self.oam_data.set(self.oam_addr as usize, data[i]);
            self.oam_addr = self.oam_addr.wrapping_add(1);
            i = i + 1;
            proof {
                assert(self@.oam_data == prev.update(cur, data@[i0]));
                assert forall|j: int|
                    0 <= j < 256 && (j - start) % 256 < i implies self@.oam_data[j] == data@[
                    (j - start) % 256
                ] by {
                    if (j - start) % 256 == i0 {
                        lemma_mod_point(start, i0, j);
                    }
                }
                assert forall|j: int|
                    0 <= j < 256 && (j - start) % 256 >= i implies self@.oam_data[j] == old(
                    self,
                )@.oam_data[j] by {
                    if j == cur {
                        lemma_mod_cursor(start, i0);
                    }
                }
            }
        }
        proof {
            assert(final(self)@ =~= (PpuView {
                oam_data: final(self)@.oam_data,
                ..old(self)@
            }));
        }
    }
}

/// Palette RAM index for an address in `0x3F00..=0x3FFF`.
fn palette_index(addr: u16) -> (r: u16)
    requires
        0x3f00 <= addr <= 0x3fff,
    ensures
        r == spec_palette_index(addr),
        r < 32,
{
    let ghost a = addr;
    if addr == 0x3f10 || addr == 0x3f14 || addr == 0x3f18 || addr == 0x3f1c {
        let r = (addr - 0x10) & 0x1f;
        proof {
            assert((a - 0x10) as u16 & 0x1f < 32) by (bit_vector);
        }
        r
    } else {
        let r = addr & 0x1f;
        proof {
            assert(a & 0x1f < 32) by (bit_vector);
        }
        r
    }
}

/// The OAM cursor after `i` wrapping steps from `start` sits `i` slots on.
proof fn lemma_mod_cursor(start: int, i: int)
    requires
        0 <= start < 256,
        0 <= i < 256,
    ensures
        (((start + i) % 256) - start) % 256 == i,
{
    if start + i < 256 {
        assert((start + i) % 256 == start + i);
        assert(i % 256 == i);
    } else {
        assert((start + i) % 256 == start + i - 256);
        assert((i - 256) % 256 == i);
    }
}

/// A step count names exactly one OAM slot of the wrapping cursor.
proof fn lemma_mod_point(start: int, i: int, j: int)
    requires
        0 <= start < 256,
        0 <= i < 256,
        0 <= j < 256,
        (j - start) % 256 == i,
    ensures
        j == (start + i) % 256,
{
    if j >= start {
        assert((j - start) % 256 == j - start);
    } else {
        assert((j - start) % 256 == j - start + 256);
    }
    if start + i < 256 {
        assert((start + i) % 256 == start + i);
    } else {
        assert((start + i) % 256 == start + i - 256);
    }
}

/// A freshly constructed PPU over the given pattern source.
pub open spec fn spec_new_ppu(chr_rom: Seq<u8>, mirroring: Mirroring) -> PpuView {
    PpuView {
        chr_rom: chr_rom,
        palette_table: Seq::new(32, |i: int| 0u8),
        vram: Seq::new(2048, |i: int| 0u8),
        oam_data: Seq::new(256, |i: int| 0u8),
        oam_addr: 0,
        mirroring: mirroring,
        internal_data_buffer: 0,
        addr: AddrRegister { hi: 0, lo: 0, hi_ptr: true },
        ctrl: 0,
        mask: 0,
        status: 0,
        scroll: ScrollRegister { scroll_x: 0, scroll_y: 0, latch_y: false },
        scanline: 0,
        cycles: 0,
        nmi_interrupt: None,
    }
}


// ---------------------------------------------------------------------------
// Laws of the register protocol.
// ---------------------------------------------------------------------------

/// Writing `OAMADDR = k` and then `OAMDATA = v` leaves `v` in OAM slot `k`
/// and the cursor one past it, wrapping at 256.
pub proof fn lemma_oam_addr_then_data(p: PpuView, k: u8, v: u8)
    requires
        p.wf(),
    ensures
        ({
            let p2 = spec_write_oam_data_ppu(spec_write_oam_addr_ppu(p, k), v);
            &&& p2.oam_data[k as int] == v
            &&& p2.oam_addr == ((k + 1) % 256) as u8
        }),
{
}

/// After a PPUSTATUS read, the next PPUADDR write is taken as the high
/// byte and the next PPUSCROLL write as the X byte, whatever the latches
/// held before.
pub proof fn lemma_status_read_resets_latches(p: PpuView, a: u8, s: u8)
    ensures
        ({
            let p1 = spec_read_status_ppu(p);
            &&& p1.addr.spec_update(a).hi == a & 0x3f
            &&& p1.addr.spec_update(a).lo == p.addr.lo
            &&& p1.addr.spec_update(a).hi_ptr == false
            &&& p1.scroll.spec_write(s).scroll_x == s
            &&& p1.scroll.spec_write(s).scroll_y == p.scroll.scroll_y
        }),
{
}

/// Two PPUADDR writes (high then low) followed by two PPUDATA reads: the
/// first read returns the stale buffer, the second the byte the address
/// points at. This holds for the buffered regions (pattern and nametable
/// space); a palette address bypasses the buffer by design.
pub proof fn lemma_addr_then_buffered_reads(p: PpuView, hi: u8, lo: u8)
    requires
        p.wf(),
        p.addr.hi_ptr,
        ({
            let a = ((hi & 0x3f) * 256 + lo) as u16;
            &&& a <= 0x2fff
            &&& (a <= 0x1fff ==> a < p.chr_rom.len())
            &&& (a >= 0x2000 ==> spec_mirror_vram_addr(p.mirroring, a) < 2048)
        }),
        ({
            let p2 = PpuView {
                addr: p.addr.spec_update(hi).spec_update(lo),
                ..p
            };
            spec_read_data_ppu(p2).addr.spec_get() <= 0x2fff
        }),
    ensures
        ({
            let a = ((hi & 0x3f) * 256 + lo) as u16;
            let p2 = PpuView {
                addr: p.addr.spec_update(hi).spec_update(lo),
                ..p
            };
            &&& p2.addr.spec_get() == a
            &&& spec_read_data_val(p2) == p.internal_data_buffer
            &&& spec_read_data_val(spec_read_data_ppu(p2)) == (if a <= 0x1fff {
                p.chr_rom[a as int]
            } else {
                p.vram[spec_mirror_vram_addr(p.mirroring, a)]
            })
        }),
{
    let a = ((hi & 0x3f) * 256 + lo) as u16;
    assert(hi & 0x3f <= 0x3f) by (bit_vector);
    let r1 = p.addr.spec_update(hi);
    assert(r1.hi == (hi & 0x3f) && r1.hi_ptr == false);
    let r2 = r1.spec_update(lo);
    assert(r2.hi == (hi & 0x3f) && r2.lo == lo);
}

} // verus!
