//! The PPU's externally visible registers: the double-write address and
//! scroll latches and the CTRL, MASK and STATUS bitfields.

use vstd::prelude::*;

verus! {

// ---------------------------------------------------------------------------
// PPUADDR: 14-bit video address assembled from two writes, high byte first.
// ---------------------------------------------------------------------------

/// The PPUADDR latch. `hi_ptr` tells whether the next write carries the
/// high byte. The assembled address is always at most `0x3FFF`.
pub struct AddrRegister {
    pub hi: u8,
    pub lo: u8,
    pub hi_ptr: bool,
}

impl AddrRegister {
    /// The high byte stays inside the 14-bit video address space.
    pub open spec fn wf(self) -> bool {
        self.hi <= 0x3f
    }

    /// The assembled 14-bit address.
    pub open spec fn spec_get(self) -> u16 {
        (self.hi * 256 + self.lo) as u16
    }

    /// One write to PPUADDR: fills the byte the latch points at, masks the
    /// result into `0x0000..=0x3FFF`, and flips the latch.
    pub open spec fn spec_update(self, data: u8) -> AddrRegister {
        if self.hi_ptr {
            AddrRegister { hi: data & 0x3f, lo: self.lo, hi_ptr: false }
        } else {
            AddrRegister { hi: self.hi, lo: data, hi_ptr: true }
        }
    }

    /// Advance the address by `inc`, wrapping inside `0x0000..=0x3FFF`.
    pub open spec fn spec_increment(self, inc: u8) -> AddrRegister {
        let lo2 = ((self.lo + inc) % 256) as u8;
        let hi2 = if lo2 < self.lo {
            ((self.hi + 1) as u8) & 0x3f
        } else {
            self.hi
        };
        AddrRegister { hi: hi2, lo: lo2, hi_ptr: self.hi_ptr }
    }

    pub fn new() -> (r: AddrRegister)
        ensures
            r == (AddrRegister { hi: 0u8, lo: 0u8, hi_ptr: true }),
            r.wf(),
    {
        AddrRegister { hi: 0, lo: 0, hi_ptr: true }
    }

    pub fn get(&self) -> (r: u16)
        requires
            self.wf(),
        ensures
            r == self.spec_get(),
            r <= 0x3fff,
    {
        (self.hi as u16) * 256 + (self.lo as u16)
    }

    pub fn update(&mut self, data: u8)
        requires
            old(self).wf(),
        ensures
            *final(self) == old(self).spec_update(data),
            final(self).wf(),
    {
        if self.hi_ptr {
            self.hi = data & 0x3f;
            self.hi_ptr = false;
            proof {
                assert(data & 0x3f <= 0x3f) by (bit_vector);
            }
        } else {
            self.lo = data;
            self.hi_ptr = true;
        }
    }

    pub fn increment(&mut self, inc: u8)
        requires
            old(self).wf(),
        ensures
            *final(self) == old(self).spec_increment(inc),
            final(self).wf(),
    {
        let lo = self.lo;
        self.lo = lo.wrapping_add(inc);
        if lo > self.lo {
            let hi = self.hi;
            self.hi = hi.wrapping_add(1) & 0x3f;
            proof {
                assert(hi <= 0x3f ==> hi.wrapping_add(1) & 0x3f == ((hi + 1) as u8) & 0x3f)
                    by (bit_vector);
                assert(hi.wrapping_add(1) & 0x3f <= 0x3f) by (bit_vector);
            }
        }
    }

    /// A PPUSTATUS read resets the latch to expect the high byte.
    pub fn reset_latch(&mut self)
        ensures
            *final(self) == (AddrRegister { hi_ptr: true, ..*old(self) }),
    {
        self.hi_ptr = true;
    }
}

// ---------------------------------------------------------------------------
// PPUSCROLL: X then Y scroll byte, sharing a latch with the same reset rule.
// ---------------------------------------------------------------------------

/// The PPUSCROLL latch. With `latch_y` clear the next write is the X byte.
pub struct ScrollRegister {
    pub scroll_x: u8,
    pub scroll_y: u8,
    pub latch_y: bool,
}

impl ScrollRegister {
    /// One write to PPUSCROLL: X byte first, then Y byte, flipping the latch.
    pub open spec fn spec_write(self, data: u8) -> ScrollRegister {
        if self.latch_y {
            ScrollRegister { scroll_x: self.scroll_x, scroll_y: data, latch_y: false }
        } else {
            ScrollRegister { scroll_x: data, scroll_y: self.scroll_y, latch_y: true }
        }
    }

    pub fn new() -> (r: ScrollRegister)
        ensures
            r == (ScrollRegister { scroll_x: 0u8, scroll_y: 0u8, latch_y: false }),
    {
        ScrollRegister { scroll_x: 0, scroll_y: 0, latch_y: false }
    }

    pub fn write(&mut self, data: u8)
        ensures
            *final(self) == old(self).spec_write(data),
    {
        if self.latch_y {
            self.scroll_y = data;
        } else {
            self.scroll_x = data;
        }
        self.latch_y = !self.latch_y;
    }

    /// A PPUSTATUS read resets the latch to expect the X byte.
    pub fn reset_latch(&mut self)
        ensures
            *final(self) == (ScrollRegister { latch_y: false, ..*old(self) }),
    {
        self.latch_y = false;
    }
}

// ---------------------------------------------------------------------------
// Bitfield helpers shared by CTRL, MASK and STATUS.
// ---------------------------------------------------------------------------

/// True when every bit of `mask` is set in `bits`.
pub open spec fn flag_set(bits: u8, mask: u8) -> bool {
    bits & mask == mask
}

/// `bits` with the bits of `mask` forced to `value`.
pub open spec fn spec_set_mask(bits: u8, mask: u8, value: bool) -> u8 {
    if value {
        bits | mask
    } else {
        bits & !mask
    }
}

// ---------------------------------------------------------------------------
// PPUCTRL (write-only).
// ---------------------------------------------------------------------------

/// The PPUCTRL bitfield.
pub struct ControlRegister {
    pub bits: u8,
}

/// Bit masks of PPUCTRL.
pub const CTRL_NAMETABLE1: u8 = 0b0000_0001;
pub const CTRL_NAMETABLE2: u8 = 0b0000_0010;
pub const CTRL_VRAM_ADD_INC: u8 = 0b0000_0100;
pub const CTRL_SPRITE_PATTERN_ADDR: u8 = 0b0000_1000;
pub const CTRL_BG_PATTERN_ADDR: u8 = 0b0001_0000;
pub const CTRL_SPRITE_SIZE: u8 = 0b0010_0000;
pub const CTRL_MASTER_SLAVE_SELECT: u8 = 0b0100_0000;
pub const CTRL_GENERATE_NMI: u8 = 0b1000_0000;

/// Address step applied to PPUADDR after each PPUDATA access.
pub open spec fn spec_vram_addr_increment(bits: u8) -> u8 {
    if bits & CTRL_VRAM_ADD_INC == 0 {
        1u8
    } else {
        32u8
    }
}

/// NMI generation is enabled by bit 7.
pub open spec fn spec_generate_nmi(bits: u8) -> bool {
    bits & CTRL_GENERATE_NMI != 0
}

impl ControlRegister {
    pub fn new() -> (r: ControlRegister)
        ensures
            r.bits == 0,
    {
        ControlRegister { bits: 0 }
    }

    pub fn vram_addr_increment(&self) -> (r: u8)
        ensures
            r == spec_vram_addr_increment(self.bits),
    {
        if self.bits & CTRL_VRAM_ADD_INC == 0 {
            1
        } else {
            32
        }
    }

    pub fn update(&mut self, data: u8)
        ensures
            final(self).bits == data,
    {
        self.bits = data;
    }

    pub fn generate_nmi(&self) -> (r: bool)
        ensures
            r == spec_generate_nmi(self.bits),
    {
        self.bits & CTRL_GENERATE_NMI != 0
    }

    /// Pattern-table base for the background: bit 4 selects `0x1000`.
    pub fn bknd_pattern_addr(&self) -> (r: u16)
        ensures
            r == if self.bits & CTRL_BG_PATTERN_ADDR == 0 {
                0x0000u16
            } else {
                0x1000u16
            },
    {
        if self.bits & CTRL_BG_PATTERN_ADDR == 0 {
            0x0000
        } else {
            0x1000
        }
    }

    /// Pattern-table base for sprites: bit 3 selects `0x1000`.
    pub fn sprite_pattern_addr(&self) -> (r: u16)
        ensures
            r == if self.bits & CTRL_SPRITE_PATTERN_ADDR == 0 {
                0x0000u16
            } else {
                0x1000u16
            },
    {
        if self.bits & CTRL_SPRITE_PATTERN_ADDR == 0 {
            0x0000
        } else {
            0x1000
        }
    }

    /// Sprite height in pixels: bit 5 selects 8x16 sprites.
    pub fn sprite_size(&self) -> (r: u8)
        ensures
            r == if self.bits & CTRL_SPRITE_SIZE == 0 {
                8u8
            } else {
                16u8
            },
    {
        if self.bits & CTRL_SPRITE_SIZE == 0 {
            8
        } else {
            16
        }
    }

    /// Base address of the nametable selected by bits 0..1.
    pub fn nametable_addr(&self) -> (r: u16)
        ensures
            r == spec_nametable_addr(self.bits),
    {
        let ghost b = self.bits;
        let sel = self.bits & 0b11;
        proof {
            assert(b & 0b11 <= 3) by (bit_vector);
        }
        if sel == 0 {
            0x2000
        } else if sel == 1 {
            0x2400
        } else if sel == 2 {
            0x2800
        } else {
            0x2c00
        }
    }

    pub fn master_slave_select(&self) -> (r: bool)
        ensures
            r == (self.bits & CTRL_MASTER_SLAVE_SELECT != 0),
    {
        self.bits & CTRL_MASTER_SLAVE_SELECT != 0
    }
}

/// Base address of the nametable selected by PPUCTRL bits 0..1.
pub open spec fn spec_nametable_addr(bits: u8) -> u16 {
    if bits & 3 == 0 {
        0x2000u16
    } else if bits & 3 == 1 {
        0x2400u16
    } else if bits & 3 == 2 {
        0x2800u16
    } else {
        0x2c00u16
    }
}

// ---------------------------------------------------------------------------
// PPUMASK (write-only).
// ---------------------------------------------------------------------------

/// The PPUMASK bitfield.
pub struct MaskRegister {
    pub bits: u8,
}

/// Bit masks of PPUMASK.
pub const MASK_GREYSCALE: u8 = 0b0000_0001;
pub const MASK_LEFTMOST_8PXL_BG: u8 = 0b0000_0010;
pub const MASK_LEFTMOST_8PXL_SPRITE: u8 = 0b0000_0100;
pub const MASK_SHOW_BACKGROUND: u8 = 0b0000_1000;
pub const MASK_SHOW_SPRITES: u8 = 0b0001_0000;
pub const MASK_EMPHASISE_RED: u8 = 0b0010_0000;
pub const MASK_EMPHASISE_GREEN: u8 = 0b0100_0000;
pub const MASK_EMPHASISE_BLUE: u8 = 0b1000_0000;

/// A colour channel the MASK register can emphasise.
#[derive(Debug, PartialEq, Eq, Structural, Clone, Copy)]
pub enum Color {
    Red,
    Green,
    Blue,
}

/// The emphasised channels, in red, green, blue order.
pub open spec fn spec_emphasise(bits: u8) -> Seq<Color> {
    (if bits & MASK_EMPHASISE_RED != 0 {
        seq![Color::Red]
    } else {
        Seq::empty()
    }) + (if bits & MASK_EMPHASISE_GREEN != 0 {
        seq![Color::Green]
    } else {
        Seq::empty()
    }) + (if bits & MASK_EMPHASISE_BLUE != 0 {
        seq![Color::Blue]
    } else {
        Seq::empty()
    })
}

impl MaskRegister {
    pub fn new() -> (r: MaskRegister)
        ensures
            r.bits == 0,
    {
        MaskRegister { bits: 0 }
    }

    pub fn is_greyscale(&self) -> (r: bool)
        ensures
            r == (self.bits & MASK_GREYSCALE != 0),
    {
        self.bits & MASK_GREYSCALE != 0
    }

    pub fn leftmost_8pxl_bg(&self) -> (r: bool)
        ensures
            r == (self.bits & MASK_LEFTMOST_8PXL_BG != 0),
    {
        self.bits & MASK_LEFTMOST_8PXL_BG != 0
    }

    pub fn leftmost_8pxl_sprite(&self) -> (r: bool)
        ensures
            r == (self.bits & MASK_LEFTMOST_8PXL_SPRITE != 0),
    {
        self.bits & MASK_LEFTMOST_8PXL_SPRITE != 0
    }

    pub fn show_background(&self) -> (r: bool)
        ensures
            r == (self.bits & MASK_SHOW_BACKGROUND != 0),
    {
        self.bits & MASK_SHOW_BACKGROUND != 0
    }

    pub fn show_sprites(&self) -> (r: bool)
        ensures
            r == (self.bits & MASK_SHOW_SPRITES != 0),
    {
        self.bits & MASK_SHOW_SPRITES != 0
    }

    pub fn emphasise(&self) -> (r: Vec<Color>)
        ensures
            r@ == spec_emphasise(self.bits),
    {
        let mut result: Vec<Color> = Vec::new();
        if self.bits & MASK_EMPHASISE_RED != 0 {
            result.push(Color::Red);
        }
        if self.bits & MASK_EMPHASISE_GREEN != 0 {
            result.push(Color::Green);
        }
        if self.bits & MASK_EMPHASISE_BLUE != 0 {
            result.push(Color::Blue);
        }
        proof {
            assert(result@ =~= spec_emphasise(self.bits));
        }
        result
    }

    pub fn update(&mut self, data: u8)
        ensures
            final(self).bits == data,
    {
        self.bits = data;
    }
}

// ---------------------------------------------------------------------------
// PPUSTATUS (read-only).
// ---------------------------------------------------------------------------

/// The PPUSTATUS bitfield.
pub struct StatusRegister {
    pub bits: u8,
}

/// Bit masks of PPUSTATUS.
pub const STATUS_SPRITE_OVERFLOW: u8 = 0b0010_0000;
pub const STATUS_SPRITE_ZERO_HIT: u8 = 0b0100_0000;
pub const STATUS_VERTICAL_BLANK: u8 = 0b1000_0000;

impl StatusRegister {
    pub fn new() -> (r: StatusRegister)
        ensures
            r.bits == 0,
    {
        StatusRegister { bits: 0 }
    }

    pub fn set_sprite_overflow(&mut self, overflow: bool)
        ensures
            final(self).bits == spec_set_mask(old(self).bits, STATUS_SPRITE_OVERFLOW, overflow),
    {
        if overflow {
            self.bits = self.bits | STATUS_SPRITE_OVERFLOW;
        } else {
            self.bits = self.bits & !STATUS_SPRITE_OVERFLOW;
        }
    }

    pub fn set_sprite_zero_hit(&mut self, hit: bool)
        ensures
            final(self).bits == spec_set_mask(old(self).bits, STATUS_SPRITE_ZERO_HIT, hit),
    {
        if hit {
            self.bits = self.bits | STATUS_SPRITE_ZERO_HIT;
        } else {
            self.bits = self.bits & !STATUS_SPRITE_ZERO_HIT;
        }
    }

    pub fn set_vertical_blank(&mut self, blank: bool)
        ensures
            final(self).bits == spec_set_mask(old(self).bits, STATUS_VERTICAL_BLANK, blank),
    {
        if blank {
            self.bits = self.bits | STATUS_VERTICAL_BLANK;
        } else {
            self.bits = self.bits & !STATUS_VERTICAL_BLANK;
        }
    }

    pub fn reset_vertical_blank(&mut self)
        ensures
            final(self).bits == old(self).bits & !STATUS_VERTICAL_BLANK,
    {
        self.bits = self.bits & !STATUS_VERTICAL_BLANK;
    }

    pub fn is_in_sprite_overflow(&self) -> (r: bool)
        ensures
            r == (self.bits & STATUS_SPRITE_OVERFLOW != 0),
    {
        self.bits & STATUS_SPRITE_OVERFLOW != 0
    }

    pub fn is_in_sprite_zero_hit(&self) -> (r: bool)
        ensures
            r == (self.bits & STATUS_SPRITE_ZERO_HIT != 0),
    {
        self.bits & STATUS_SPRITE_ZERO_HIT != 0
    }

    pub fn is_in_vertical_blank(&self) -> (r: bool)
        ensures
            r == (self.bits & STATUS_VERTICAL_BLANK != 0),
    {
        self.bits & STATUS_VERTICAL_BLANK != 0
    }

    /// The raw byte handed back by a PPUSTATUS read.
    pub fn bits(&self) -> (r: u8)
        ensures
            r == self.bits,
    {
        self.bits
    }
}

} // verus!
