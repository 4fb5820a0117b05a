//! The 6502 execution engine: registers, status flags, stack discipline,
//! operand addressing with page-cross accounting, the full instruction set
//! (official and unofficial), NMI delivery and the run loop.

use vstd::prelude::*;

use crate::bus::Bus;
use crate::bus::BusView;
use crate::bus::spec_bus_tick;
use crate::bus::spec_read_bus;
use crate::bus::spec_read_err_bus;
use crate::bus::spec_read_ok;
use crate::bus::spec_read_val;
use crate::bus::spec_reg_addr;
use crate::bus::spec_write_bus;
use crate::bus::spec_write_ok;
use crate::errors::EmuError;
use crate::joypad::Joypad;
use crate::ppu::NesPPU;
use crate::ppu_regs::spec_set_mask;

verus! {

// ---------------------------------------------------------------------------
// Status flags, fixed addresses.
// ---------------------------------------------------------------------------

/// Bit masks of the processor status register P.
pub const CARRY: u8 = 0b0000_0001;
pub const ZERO: u8 = 0b0000_0010;
pub const INTERRUPT_DISABLE: u8 = 0b0000_0100;
pub const DECIMAL: u8 = 0b0000_1000;
pub const BREAK: u8 = 0b0001_0000;
pub const BREAK2: u8 = 0b0010_0000;
pub const OVERFLOW: u8 = 0b0100_0000;
pub const NEGATIVE: u8 = 0b1000_0000;

/// The stack lives in page 1: `0x0100 + S`.
pub const STACK: u16 = 0x0100;
/// Stack pointer value installed by a reset.
pub const STACK_START: u8 = 0xfd;
/// Where `load` places a program image.
pub const PROGRAM_START: u16 = 0x0600;

/// True when every bit of `mask` is set in the status byte `p`.
pub open spec fn flag(p: u8, mask: u8) -> bool {
    p & mask != 0
}

// ---------------------------------------------------------------------------
// Wrapping arithmetic used by the address and register spec model.
// ---------------------------------------------------------------------------

pub open spec fn wrap_add8(a: u8, b: u8) -> u8 {
    if a + b > 255 {
        (a + b - 256) as u8
    } else {
        (a + b) as u8
    }
}

pub open spec fn wrap_inc8(a: u8) -> u8 {
    wrap_add8(a, 1)
}

pub open spec fn wrap_dec8(a: u8) -> u8 {
    if a == 0 {
        255u8
    } else {
        (a - 1) as u8
    }
}

pub open spec fn wrap_sub8(a: u8, b: u8) -> u8 {
    if a >= b {
        (a - b) as u8
    } else {
        (a - b + 256) as u8
    }
}

pub open spec fn wrap_add16(a: u16, b: u16) -> u16 {
    if a + b > 0xffff {
        (a + b - 0x10000) as u16
    } else {
        (a + b) as u16
    }
}

pub open spec fn wrap_inc16(a: u16) -> u16 {
    wrap_add16(a, 1)
}

// ---------------------------------------------------------------------------
// Addressing modes and interrupts.
// ---------------------------------------------------------------------------

/// How an instruction finds its operand.
#[derive(Debug, PartialEq, Eq, Structural, Clone, Copy)]
pub enum AddressingMode {
    Accumulator,
    Immediate,
    ZeroPage,
    ZeroPageX,
    ZeroPageY,
    Absolute,
    AbsoluteX,
    AbsoluteY,
    IndirectX,
    IndirectY,
    NoneAddressing,
}

/// Modes for which `get_operand_address` yields an address.
pub open spec fn mode_reads(m: AddressingMode) -> bool {
    !(m is Accumulator) && !(m is NoneAddressing)
}

/// Modes for which `get_actual_address` computes an effective address.
pub open spec fn mode_actual(m: AddressingMode) -> bool {
    !(m is Accumulator) && !(m is NoneAddressing) && !(m is Immediate)
}

/// The interrupt sources this core delivers.
#[derive(Debug, PartialEq, Eq, Structural, Clone, Copy)]
pub enum InterruptType {
    NMI,
}

/// Descriptor of one interrupt: its vector, how the B flags are pushed,
/// and its cycle cost.
pub struct Interrupt {
    pub itype: InterruptType,
    pub vector_addr: u16,
    pub b_flag_mask: u8,
    pub cpu_cycles: u8,
}

/// The non-maskable interrupt: vector `0xFFFA`, BREAK2 pushed set, 2 cycles.
pub fn nmi_interrupt() -> (r: Interrupt)
    ensures
        r.itype == InterruptType::NMI,
        r.vector_addr == 0xfffa,
        r.b_flag_mask == 0b0010_0000,
        r.cpu_cycles == 2,
{
    Interrupt {
        itype: InterruptType::NMI,
        vector_addr: 0xfffa,
        b_flag_mask: 0b0010_0000,
        cpu_cycles: 2,
    }
}

// ---------------------------------------------------------------------------
// The CPU.
// ---------------------------------------------------------------------------

/// The 6502: three 8-bit registers, status, stack pointer, program counter,
/// and exclusive ownership of the bus.
pub struct CPU {
    pub register_a: u8,
    pub register_x: u8,
    pub register_y: u8,
    pub status: u8,
    pub stack_pointer: u8,
    pub program_counter: u16,
    pub bus: Bus,
}

impl CPU {
    pub open spec fn wf(&self) -> bool {
        self.bus@.wf()
    }
}

/// All six register fields of `post` at once.
pub open spec fn cpu_regs(post: CPU, a: u8, x: u8, y: u8, sp: u8, status: u8, pc: u16) -> bool {
    &&& post.register_a == a
    &&& post.register_x == x
    &&& post.register_y == y
    &&& post.stack_pointer == sp
    &&& post.status == status
    &&& post.program_counter == pc
}

/// `post` keeps every register of `pre`.
pub open spec fn same_regs(pre: CPU, post: CPU) -> bool {
    cpu_regs(
        post,
        pre.register_a,
        pre.register_x,
        pre.register_y,
        pre.stack_pointer,
        pre.status,
        pre.program_counter,
    )
}

// ---------------------------------------------------------------------------
// Spec model: 16-bit bus reads/writes, operand fetch, flag arithmetic.
// ---------------------------------------------------------------------------

pub open spec fn spec_read16_ok(b: BusView, a: u16) -> bool {
    spec_read_ok(b, a) && spec_read_ok(spec_read_bus(b, a), wrap_inc16(a))
}

pub open spec fn spec_read16_val(b: BusView, a: u16) -> u16 {
    (spec_read_val(b, a) + spec_read_val(spec_read_bus(b, a), wrap_inc16(a)) * 256) as u16
}

pub open spec fn spec_read16_bus(b: BusView, a: u16) -> BusView {
    spec_read_bus(spec_read_bus(b, a), wrap_inc16(a))
}

/// Did adding an index step over a 256-byte page boundary?
pub open spec fn spec_page_crossed(a: u16, b: u16) -> bool {
    a & 0xff00 != b & 0xff00
}

/// Outcome of resolving an operand address: the effective address, whether
/// a page was crossed, the bus after the fetch reads, and whether every
/// read succeeded.
pub struct Fetch {
    pub addr: u16,
    pub cross: bool,
    pub bus: BusView,
    pub ok: bool,
}

/// Effective-address computation of `get_actual_address`, reading from
/// `base`: zero-page pointers wrap inside page zero, absolute indexing
/// records the page crossing.
pub open spec fn spec_operand(b: BusView, x: u8, y: u8, mode: AddressingMode, base: u16) -> Fetch {
    match mode {
        AddressingMode::ZeroPage => Fetch {
            addr: spec_read_val(b, base) as u16,
            cross: false,
            bus: spec_read_bus(b, base),
            ok: spec_read_ok(b, base),
        },
        AddressingMode::ZeroPageX => Fetch {
            addr: wrap_add8(spec_read_val(b, base), x) as u16,
            cross: false,
            bus: spec_read_bus(b, base),
            ok: spec_read_ok(b, base),
        },
        AddressingMode::ZeroPageY => Fetch {
            addr: wrap_add8(spec_read_val(b, base), y) as u16,
            cross: false,
            bus: spec_read_bus(b, base),
            ok: spec_read_ok(b, base),
        },
        AddressingMode::Absolute => Fetch {
            addr: spec_read16_val(b, base),
            cross: false,
            bus: spec_read16_bus(b, base),
            ok: spec_read16_ok(b, base),
        },
        AddressingMode::AbsoluteX => {
            let abs = spec_read16_val(b, base);
            let a2 = wrap_add16(abs, x as u16);
            Fetch {
                addr: a2,
                cross: spec_page_crossed(abs, a2),
                bus: spec_read16_bus(b, base),
                ok: spec_read16_ok(b, base),
            }
        },
        AddressingMode::AbsoluteY => {
            let abs = spec_read16_val(b, base);
            let a2 = wrap_add16(abs, y as u16);
            Fetch {
                addr: a2,
                cross: spec_page_crossed(abs, a2),
                bus: spec_read16_bus(b, base),
                ok: spec_read16_ok(b, base),
            }
        },
        AddressingMode::IndirectX => {
            let bv = spec_read_val(b, base);
            let b1 = spec_read_bus(b, base);
            let ptr = wrap_add8(bv, x);
            let lo = spec_read_val(b1, ptr as u16);
            let b2 = spec_read_bus(b1, ptr as u16);
            let hi = spec_read_val(b2, wrap_inc8(ptr) as u16);
            let b3 = spec_read_bus(b2, wrap_inc8(ptr) as u16);
            Fetch {
                addr: (hi * 256 + lo) as u16,
                cross: false,
                bus: b3,
                ok: spec_read_ok(b, base) && spec_read_ok(b1, ptr as u16) && spec_read_ok(
                    b2,
                    wrap_inc8(ptr) as u16,
                ),
            }
        },
        AddressingMode::IndirectY => {
            let bv = spec_read_val(b, base);
            let b1 = spec_read_bus(b, base);
            let lo = spec_read_val(b1, bv as u16);
            let b2 = spec_read_bus(b1, bv as u16);
            let hi = spec_read_val(b2, wrap_inc8(bv) as u16);
            let b3 = spec_read_bus(b2, wrap_inc8(bv) as u16);
            let deref = (hi * 256 + lo) as u16;
            let a2 = wrap_add16(deref, y as u16);
            Fetch {
                addr: a2,
                cross: spec_page_crossed(deref, a2),
                bus: b3,
                ok: spec_read_ok(b, base) && spec_read_ok(b1, bv as u16) && spec_read_ok(
                    b2,
                    wrap_inc8(bv) as u16,
                ),
            }
        },
        _ => Fetch { addr: 0, cross: false, bus: b, ok: false },
    }
}

/// Operand address as `get_operand_address` sees it: an immediate operand
/// is the byte under the program counter itself.
pub open spec fn spec_fetch(b: BusView, x: u8, y: u8, mode: AddressingMode, pc: u16) -> Fetch {
    if mode is Immediate {
        Fetch { addr: pc, cross: false, bus: b, ok: true }
    } else {
        spec_operand(b, x, y, mode, pc)
    }
}

/// An operand fetch followed by the read of the operand byte itself.
pub struct OperandRead {
    pub addr: u16,
    pub cross: bool,
    pub value: u8,
    pub bus: BusView,
    pub ok: bool,
}

pub open spec fn spec_operand_value(
    b: BusView,
    x: u8,
    y: u8,
    mode: AddressingMode,
    pc: u16,
) -> OperandRead {
    let f = spec_fetch(b, x, y, mode, pc);
    OperandRead {
        addr: f.addr,
        cross: f.cross,
        value: spec_read_val(f.bus, f.addr),
        bus: spec_read_bus(f.bus, f.addr),
        ok: f.ok && spec_read_ok(f.bus, f.addr),
    }
}

/// One extra bus cycle when the operand fetch crossed a page.
pub open spec fn spec_tick_if(b: BusView, cross: bool) -> BusView {
    if cross {
        spec_bus_tick(b, 1)
    } else {
        b
    }
}

/// Status after `update_zero_and_negative_flags(v)`.
pub open spec fn spec_zn(p: u8, v: u8) -> u8 {
    spec_set_mask(spec_set_mask(p, ZERO, v == 0), NEGATIVE, v & 0x80 != 0)
}

/// Accumulator after `A + M + C`, truncated to 8 bits.
pub open spec fn spec_add_result(a: u8, m: u8, c: bool) -> u8 {
    ((a + m + if c {
        1int
    } else {
        0int
    }) % 256) as u8
}

/// The addition left its 8-bit range.
pub open spec fn spec_add_carry(a: u8, m: u8, c: bool) -> bool {
    a + m + (if c {
        1int
    } else {
        0int
    }) > 0xff
}

/// Signed overflow of `A + M + C`: the operands agree in sign and the
/// result does not.
pub open spec fn spec_add_overflow(a: u8, m: u8, c: bool) -> bool {
    (m ^ spec_add_result(a, m, c)) & (spec_add_result(a, m, c) ^ a) & 0x80 != 0
}

/// Status after `add_to_reg_a`: carry, overflow, then zero/negative.
pub open spec fn spec_adc_status(p: u8, a: u8, m: u8) -> u8 {
    let c = flag(p, CARRY);
    spec_zn(
        spec_set_mask(
            spec_set_mask(p, CARRY, spec_add_carry(a, m, c)),
            OVERFLOW,
            spec_add_overflow(a, m, c),
        ),
        spec_add_result(a, m, c),
    )
}

/// Status after a compare of `reg` against `m`: carry when `reg >= m`,
/// zero/negative from the wrapped difference.
pub open spec fn spec_compare_status(p: u8, reg: u8, m: u8) -> u8 {
    spec_zn(spec_set_mask(p, CARRY, reg >= m), wrap_sub8(reg, m))
}

// ---------------------------------------------------------------------------
// Stack spec model.
// ---------------------------------------------------------------------------

/// Bus after pushing the 16-bit word `v`: high byte at `0x0100 + sp`, low
/// byte one slot below.
pub open spec fn spec_push16_bus(b: BusView, sp: u8, v: u16) -> BusView {
    spec_write_bus(
        spec_write_bus(b, (0x100 + sp) as u16, (v / 256) as u8),
        (0x100 + wrap_dec8(sp)) as u16,
        (v % 256) as u8,
    )
}

/// The 16-bit word a pop reads with the stack pointer at `sp`.
pub open spec fn spec_pop16_val(b: BusView, sp: u8) -> u16 {
    (spec_read_val(b, (0x100 + wrap_inc8(sp)) as u16) + spec_read_val(
        b,
        (0x100 + wrap_inc8(wrap_inc8(sp))) as u16,
    ) * 256) as u16
}

impl CPU {
    /// A CPU owning `bus`, in the post-reset register state.
    pub fn new(bus: Bus) -> (r: CPU)
        ensures
            cpu_regs(r, 0, 0, 0, STACK_START, 0b10_0100, 0),
            r.bus == bus,
    {
        CPU {
            register_a: 0,
            register_x: 0,
            register_y: 0,
            status: 0b10_0100,
            stack_pointer: STACK_START,
            program_counter: 0,
            bus,
        }
    }

    // -----------------------------------------------------------------------
    // Memory access through the bus.
    // -----------------------------------------------------------------------

    pub fn mem_read(&mut self, address: u16) -> (r: Result<u8, EmuError>)
        requires
            old(self).wf(),
        ensures
            final(self).wf(),
            same_regs(*old(self), *final(self)),
            spec_read_ok(old(self).bus@, address) ==> r == Ok::<u8, EmuError>(
                spec_read_val(old(self).bus@, address),
            ) && final(self).bus@ == spec_read_bus(old(self).bus@, address),
            !spec_read_ok(old(self).bus@, address) ==> r == Err::<u8, EmuError>(
                crate::bus::spec_read_err(old(self).bus@, address),
            ) && final(self).bus@ == spec_read_err_bus(old(self).bus@, address),
    {
        self.bus.mem_read(address)
    }

    pub fn mem_write(&mut self, address: u16, value: u8) -> (r: Result<(), EmuError>)
        requires
            old(self).wf(),
        ensures
            final(self).wf(),
            same_regs(*old(self), *final(self)),
            spec_write_ok(old(self).bus@, address, value) ==> r is Ok && final(self).bus@
                == spec_write_bus(old(self).bus@, address, value),
            !spec_write_ok(old(self).bus@, address, value) ==> r == Err::<(), EmuError>(
                crate::bus::spec_write_err(old(self).bus@, address, value),
            ) && final(self).bus@ == old(self).bus@,
    {
        self.bus.mem_write(address, value)
    }

    /// Little-endian 16-bit read; the high byte's address wraps at the top
    /// of the address space as the hardware's adder does.
    pub fn u16_mem_read(&mut self, address: u16) -> (r: Result<u16, EmuError>)
        requires
            old(self).wf(),
        ensures
            final(self).wf(),
            same_regs(*old(self), *final(self)),
            spec_read16_ok(old(self).bus@, address) ==> r == Ok::<u16, EmuError>(
                spec_read16_val(old(self).bus@, address),
            ) && final(self).bus@ == spec_read16_bus(old(self).bus@, address),
            !spec_read16_ok(old(self).bus@, address) ==> r is Err,
    {
        let low = match self.mem_read(address) {
            Ok(v) => v,
            Err(e) => {
                return Err(e);
            },
        };
        let high = match self.mem_read(address.wrapping_add(1)) {
            Ok(v) => v,
            Err(e) => {
                return Err(e);
            },
        };
        Ok((high as u16) * 256 + (low as u16))
    }

    /// Little-endian 16-bit write, low byte first, wrapping likewise.
    pub fn u16_mem_write(&mut self, address: u16, value: u16) -> (r: Result<(), EmuError>)
        requires
            old(self).wf(),
        ensures
            final(self).wf(),
            same_regs(*old(self), *final(self)),
            ({
                let lo = (value % 256) as u8;
                let hi = (value / 256) as u8;
                let ok1 = spec_write_ok(old(self).bus@, address, lo);
                let b1 = spec_write_bus(old(self).bus@, address, lo);
                &&& (ok1 && spec_write_ok(b1, wrap_inc16(address), hi)) ==> r is Ok && final(self).bus@ == spec_write_bus(b1, wrap_inc16(address), hi)
                &&& !ok1 ==> r == Err::<(), EmuError>(
                    crate::bus::spec_write_err(old(self).bus@, address, lo),
                ) && final(self).bus@ == old(self).bus@
                &&& (ok1 && !spec_write_ok(b1, wrap_inc16(address), hi)) ==> r == Err::<
                    (),
                    EmuError,
                >(crate::bus::spec_write_err(b1, wrap_inc16(address), hi)) && final(self).bus@
                    == b1
            }),
    {
        let low = (value % 256) as u8;
        let high = (value / 256) as u8;
        match self.mem_write(address, low) {
            Ok(u) => (),
            Err(e) => {
                return Err(e);
            },
        }
        match self.mem_write(address.wrapping_add(1), high) {
            Ok(u) => (),
            Err(e) => {
                return Err(e);
            },
        }
        Ok(())
    }

    // -----------------------------------------------------------------------
    // Stack discipline. Page 1 is always RAM, so these cannot fail.
    // -----------------------------------------------------------------------

    fn stack_push_u8(&mut self, value: u8)
        requires
            old(self).wf(),
        ensures
            final(self).wf(),
            final(self).bus@ == spec_write_bus(
                old(self).bus@,
                (0x100 + old(self).stack_pointer) as u16,
                value,
            ),
            cpu_regs(
                *final(self),
                old(self).register_a,
                old(self).register_x,
                old(self).register_y,
                wrap_dec8(old(self).stack_pointer),
                old(self).status,
                old(self).program_counter,
            ),
    {
        let addr = STACK + self.stack_pointer as u16;
        proof {
            let a = (0x100 + old(self).stack_pointer) as u16;
            assert(spec_reg_addr(a) == a);
        }
        let r = self.mem_write(addr, value);
        proof {
            assert(r is Ok);
        }
        self.stack_pointer = self.stack_pointer.wrapping_sub(1);
    }

    fn stack_pop_u8(&mut self) -> (r: u8)
        requires
            old(self).wf(),
        ensures
            final(self).wf(),
            final(self).bus@ == old(self).bus@,
            r == spec_read_val(
                old(self).bus@,
                (0x100 + wrap_inc8(old(self).stack_pointer)) as u16,
            ),
            cpu_regs(
                *final(self),
                old(self).register_a,
                old(self).register_x,
                old(self).register_y,
                wrap_inc8(old(self).stack_pointer),
                old(self).status,
                old(self).program_counter,
            ),
    {
        self.stack_pointer = self.stack_pointer.wrapping_add(1);
        let addr = STACK + self.stack_pointer as u16;
        proof {
            let a = (0x100 + wrap_inc8(old(self).stack_pointer)) as u16;
            assert(spec_reg_addr(a) == a);
        }
        let r = match self.mem_read(addr) {
            Ok(v) => v,
            Err(e) => {
                proof {
                    assert(false);
                }
                0
            },
        };
        r
    }

    fn stack_push_u16(&mut self, value: u16)
        requires
            old(self).wf(),
        ensures
            final(self).wf(),
            final(self).bus@ == spec_push16_bus(old(self).bus@, old(self).stack_pointer, value),
            cpu_regs(
                *final(self),
                old(self).register_a,
                old(self).register_x,
                old(self).register_y,
                wrap_dec8(wrap_dec8(old(self).stack_pointer)),
                old(self).status,
                old(self).program_counter,
            ),
    {
        let lo = (value % 256) as u8;
        let hi = (value / 256) as u8;
        self.stack_push_u8(hi);
        self.stack_push_u8(lo);
    }

    fn stack_pop_u16(&mut self) -> (r: u16)
        requires
            old(self).wf(),
        ensures
            final(self).wf(),
            final(self).bus@ == old(self).bus@,
            r == spec_pop16_val(old(self).bus@, old(self).stack_pointer),
            cpu_regs(
                *final(self),
                old(self).register_a,
                old(self).register_x,
                old(self).register_y,
                wrap_inc8(wrap_inc8(old(self).stack_pointer)),
                old(self).status,
                old(self).program_counter,
            ),
    {
        let lo = self.stack_pop_u8() as u16;
        let hi = self.stack_pop_u8() as u16;
        hi * 256 + lo
    }

    // -----------------------------------------------------------------------
    // Flag arithmetic.
    // -----------------------------------------------------------------------

    fn update_zero_and_negative_flags(&mut self, register_value: u8)
        ensures
            cpu_regs(
                *final(self),
                old(self).register_a,
                old(self).register_x,
                old(self).register_y,
                old(self).stack_pointer,
                spec_zn(old(self).status, register_value),
                old(self).program_counter,
            ),
            final(self).bus == old(self).bus,
    {
        if register_value == 0 {
            self.status = self.status | ZERO;
        } else {
            self.status = self.status & !ZERO;
        }
        if register_value & 0b1000_0000 != 0 {
            self.status = self.status | NEGATIVE;
        } else {
            self.status = self.status & !NEGATIVE;
        }
    }

    /// `A <- A + value + C`, updating carry, overflow, zero and negative.
    fn add_to_reg_a(&mut self, value: u8)
        ensures
            cpu_regs(
                *final(self),
                spec_add_result(old(self).register_a, value, flag(old(self).status, CARRY)),
                old(self).register_x,
                old(self).register_y,
                old(self).stack_pointer,
                spec_adc_status(old(self).status, old(self).register_a, value),
                old(self).program_counter,
            ),
            final(self).bus == old(self).bus,
    {
        let carry_in: u16 = if self.status & CARRY != 0 {
            1
        } else {
            0
        };
        let sum: u16 = self.register_a as u16 + value as u16 + carry_in;
        if sum > 0xff {
            self.status = self.status | CARRY;
        } else {
            self.status = self.status & !CARRY;
        }
        let result = (sum % 256) as u8;
        if (value ^ result) & (result ^ self.register_a) & 0x80 != 0 {
            self.status = self.status | OVERFLOW;
        } else {
            self.status = self.status & !OVERFLOW;
        }
        self.register_a = result;
        self.update_zero_and_negative_flags(result);
    }

    /// `A <- A - value - (1 - C)`, which is `A + !value + C` in two's
    /// complement.
    fn sub_from_reg_a(&mut self, value: u8)
        ensures
            cpu_regs(
                *final(self),
                spec_add_result(old(self).register_a, !value, flag(old(self).status, CARRY)),
                old(self).register_x,
                old(self).register_y,
                old(self).stack_pointer,
                spec_adc_status(old(self).status, old(self).register_a, !value),
                old(self).program_counter,
            ),
            final(self).bus == old(self).bus,
    {
        self.add_to_reg_a(!value);
    }

    // -----------------------------------------------------------------------
    // Operand addressing.
    // -----------------------------------------------------------------------

    /// Effective address for `mode`, reading the operand bytes at `addr`,
    /// with the page-cross flag for the modes that pay a penalty cycle.
    pub fn get_actual_address(&mut self, mode: &AddressingMode, addr: u16) -> (r: Result<
        (u16, bool),
        EmuError,
    >)
        requires
            old(self).wf(),
            mode_actual(*mode),
        ensures
            final(self).wf(),
            same_regs(*old(self), *final(self)),
            ({
                let f = spec_operand(
                    old(self).bus@,
                    old(self).register_x,
                    old(self).register_y,
                    *mode,
                    addr,
                );
                &&& f.ok ==> r == Ok::<(u16, bool), EmuError>((f.addr, f.cross)) && final(self).bus@ == f.bus
                &&& !f.ok ==> r is Err
            }),
    {
        match mode {
            AddressingMode::ZeroPage => {
                let v = match self.mem_read(addr) {
                    Ok(v) => v,
                    Err(e) => {
                        return Err(e);
                    },
                };
                Ok((v as u16, false))
            },
            AddressingMode::Absolute => {
                let v = match self.u16_mem_read(addr) {
                    Ok(v) => v,
                    Err(e) => {
                        return Err(e);
                    },
                };
                Ok((v, false))
            },
            AddressingMode::ZeroPageX => {
                let zero_page_address = match self.mem_read(addr) {
                    Ok(v) => v,
                    Err(e) => {
                        return Err(e);
                    },
                };
                Ok((zero_page_address.wrapping_add(self.register_x) as u16, false))
            },
            AddressingMode::ZeroPageY => {
                let zero_page_address = match self.mem_read(addr) {
                    Ok(v) => v,
                    Err(e) => {
                        return Err(e);
                    },
                };
                Ok((zero_page_address.wrapping_add(self.register_y) as u16, false))
            },
            AddressingMode::AbsoluteX => {
                let absolute_address = match self.u16_mem_read(addr) {
                    Ok(v) => v,
                    Err(e) => {
                        return Err(e);
                    },
                };
                let effective = absolute_address.wrapping_add(self.register_x as u16);
                Ok((effective, page_crossed(absolute_address, effective)))
            },
            AddressingMode::AbsoluteY => {
                let absolute_address = match self.u16_mem_read(addr) {
                    Ok(v) => v,
                    Err(e) => {
                        return Err(e);
                    },
                };
                let effective = absolute_address.wrapping_add(self.register_y as u16);
                Ok((effective, page_crossed(absolute_address, effective)))
            },
            AddressingMode::IndirectX => {
                let base = match self.mem_read(addr) {
                    Ok(v) => v,
                    Err(e) => {
                        return Err(e);
                    },
                };
                let ptr = base.wrapping_add(self.register_x);
                let lo = match self.mem_read(ptr as u16) {
                    Ok(v) => v,
                    Err(e) => {
                        return Err(e);
                    },
                };
                let hi = match self.mem_read(ptr.wrapping_add(1) as u16) {
                    Ok(v) => v,
                    Err(e) => {
                        return Err(e);
                    },
                };
                Ok(((hi as u16) * 256 + (lo as u16), false))
            },
            AddressingMode::IndirectY => {
                let base = match self.mem_read(addr) {
                    Ok(v) => v,
                    Err(e) => {
                        return Err(e);
                    },
                };
                let lo = match self.mem_read(base as u16) {
                    Ok(v) => v,
                    Err(e) => {
                        return Err(e);
                    },
                };
                let hi = match self.mem_read(base.wrapping_add(1) as u16) {
                    Ok(v) => v,
                    Err(e) => {
                        return Err(e);
                    },
                };
                let deref_base = (hi as u16) * 256 + (lo as u16);
                let effective = deref_base.wrapping_add(self.register_y as u16);
                Ok((effective, page_crossed(deref_base, effective)))
            },
            _ => {
                proof {
                    assert(false);
                }
                Err(EmuError::CycleLimit)
            },
        }
    }

    /// Operand address for the instruction at the program counter: an
    /// immediate operand is the program counter itself.
    pub fn get_operand_address(&mut self, mode: &AddressingMode) -> (r: Result<
        (u16, bool),
        EmuError,
    >)
        requires
            old(self).wf(),
            mode_reads(*mode),
        ensures
            final(self).wf(),
            same_regs(*old(self), *final(self)),
            ({
                let f = spec_fetch(
                    old(self).bus@,
                    old(self).register_x,
                    old(self).register_y,
                    *mode,
                    old(self).program_counter,
                );
                &&& f.ok ==> r == Ok::<(u16, bool), EmuError>((f.addr, f.cross)) && final(self).bus@ == f.bus
                &&& !f.ok ==> r is Err
            }),
    {
        match mode {
            AddressingMode::Immediate => Ok((self.program_counter, false)),
            _ => {
                let pc = self.program_counter;
                self.get_actual_address(mode, pc)
            },
        }
    }
}

/// The two addresses sit on different 256-byte pages.
fn page_crossed(addr1: u16, addr2: u16) -> (r: bool)
    ensures
        r == spec_page_crossed(addr1, addr2),
{
    addr1 & 0xff00 != addr2 & 0xff00
}


// ---------------------------------------------------------------------------
// Instruction handlers: loads, logic, arithmetic.
// ---------------------------------------------------------------------------

impl CPU {
    fn lda(&mut self, mode: &AddressingMode) -> (r: Result<(), EmuError>)
        requires
            old(self).wf(),
            mode_reads(*mode),
        ensures
            final(self).wf(),
            rel_lda(*old(self), *final(self), *mode, r),

    {
        if let AddressingMode::Immediate = mode {
            let pc = self.program_counter;
            let value = match self.mem_read(pc) {
                Ok(v) => v,
                Err(e) => {
                    return Err(e);
                },
            };
            self.register_a = value;
            self.program_counter = self.program_counter.wrapping_add(1);
            self.update_zero_and_negative_flags(value);
            return Ok(());
        }
        let (address, crossed) = match self.get_operand_address(mode) {
            Ok(t) => t,
            Err(e) => {
                return Err(e);
            },
        };
        let value = match self.mem_read(address) {
            Ok(v) => v,
            Err(e) => {
                return Err(e);
            },
        };
        self.register_a = value;
        self.update_zero_and_negative_flags(value);
        if crossed {
            self.bus.tick(1);
        }
        Ok(())
    }

    fn ldx(&mut self, mode: &AddressingMode) -> (r: Result<(), EmuError>)
        requires
            old(self).wf(),
            mode_reads(*mode),
        ensures
            final(self).wf(),
            rel_ldx(*old(self), *final(self), *mode, r),

    {
        let (address, crossed) = match self.get_operand_address(mode) {
            Ok(t) => t,
            Err(e) => {
                return Err(e);
            },
        };
        let value = match self.mem_read(address) {
            Ok(v) => v,
            Err(e) => {
                return Err(e);
            },
        };
        self.register_x = value;
        self.update_zero_and_negative_flags(value);
        if crossed {
            self.bus.tick(1);
        }
        Ok(())
    }

    fn ldy(&mut self, mode: &AddressingMode) -> (r: Result<(), EmuError>)
        requires
            old(self).wf(),
            mode_reads(*mode),
        ensures
            final(self).wf(),
            rel_ldy(*old(self), *final(self), *mode, r),

    {
        let (address, crossed) = match self.get_operand_address(mode) {
            Ok(t) => t,
            Err(e) => {
                return Err(e);
            },
        };
        let value = match self.mem_read(address) {
            Ok(v) => v,
            Err(e) => {
                return Err(e);
            },
        };
        self.register_y = value;
        self.update_zero_and_negative_flags(value);
        if crossed {
            self.bus.tick(1);
        }
        Ok(())
    }

    fn and(&mut self, mode: &AddressingMode) -> (r: Result<(), EmuError>)
        requires
            old(self).wf(),
            mode_reads(*mode),
        ensures
            final(self).wf(),
            rel_and(*old(self), *final(self), *mode, r),

    {
        let (address, crossed) = match self.get_operand_address(mode) {
            Ok(t) => t,
            Err(e) => {
                return Err(e);
            },
        };
        let value = match self.mem_read(address) {
            Ok(v) => v,
            Err(e) => {
                return Err(e);
            },
        };
        self.register_a = self.register_a & value;
        let a = self.register_a;
        self.update_zero_and_negative_flags(a);
        if crossed {
            self.bus.tick(1);
        }
        Ok(())
    }

    fn eor(&mut self, mode: &AddressingMode) -> (r: Result<(), EmuError>)
        requires
            old(self).wf(),
            mode_reads(*mode),
        ensures
            final(self).wf(),
            rel_eor(*old(self), *final(self), *mode, r),

    {
        let (address, crossed) = match self.get_operand_address(mode) {
            Ok(t) => t,
            Err(e) => {
                return Err(e);
            },
        };
        let value = match self.mem_read(address) {
            Ok(v) => v,
            Err(e) => {
                return Err(e);
            },
        };
        self.register_a = self.register_a ^ value;
        let a = self.register_a;
        self.update_zero_and_negative_flags(a);
        if crossed {
            self.bus.tick(1);
        }
        Ok(())
    }

    fn ora(&mut self, mode: &AddressingMode) -> (r: Result<(), EmuError>)
        requires
            old(self).wf(),
            mode_reads(*mode),
        ensures
            final(self).wf(),
            rel_ora(*old(self), *final(self), *mode, r),

    {
        let (address, crossed) = match self.get_operand_address(mode) {
            Ok(t) => t,
            Err(e) => {
                return Err(e);
            },
        };
        let value = match self.mem_read(address) {
            Ok(v) => v,
            Err(e) => {
                return Err(e);
            },
        };
        self.register_a = self.register_a | value;
        let a = self.register_a;
        self.update_zero_and_negative_flags(a);
        if crossed {
            self.bus.tick(1);
        }
        Ok(())
    }

    fn adc(&mut self, mode: &AddressingMode) -> (r: Result<(), EmuError>)
        requires
            old(self).wf(),
            mode_reads(*mode),
        ensures
            final(self).wf(),
            rel_adc(*old(self), *final(self), *mode, r),

    {
        let (address, crossed) = match self.get_operand_address(mode) {
            Ok(t) => t,
            Err(e) => {
                return Err(e);
            },
        };
        let value = match self.mem_read(address) {
            Ok(v) => v,
            Err(e) => {
                return Err(e);
            },
        };
        self.add_to_reg_a(value);
        let a = self.register_a;
        self.update_zero_and_negative_flags(a);
        if crossed {
            self.bus.tick(1);
        }
        Ok(())
    }

    fn sbc(&mut self, mode: &AddressingMode) -> (r: Result<(), EmuError>)
        requires
            old(self).wf(),
            mode_reads(*mode),
        ensures
            final(self).wf(),
            rel_sbc(*old(self), *final(self), *mode, r),

    {
        let (address, crossed) = match self.get_operand_address(mode) {
            Ok(t) => t,
            Err(e) => {
                return Err(e);
            },
        };
        let value = match self.mem_read(address) {
            Ok(v) => v,
            Err(e) => {
                return Err(e);
            },
        };
        self.sub_from_reg_a(value);
        if crossed {
            self.bus.tick(1);
        }
        Ok(())
    }

    fn cmp(&mut self, mode: &AddressingMode) -> (r: Result<(), EmuError>)
        requires
            old(self).wf(),
            mode_reads(*mode),
        ensures
            final(self).wf(),
            rel_cmp(*old(self), *final(self), *mode, r),

    {
        let (address, crossed) = match self.get_operand_address(mode) {
            Ok(t) => t,
            Err(e) => {
                return Err(e);
            },
        };
        let value = match self.mem_read(address) {
            Ok(v) => v,
            Err(e) => {
                return Err(e);
            },
        };
        let result = self.register_a.wrapping_sub(value);
        if self.register_a >= value {
            self.status = self.status | CARRY;
        } else {
            self.status = self.status & !CARRY;
        }
        self.update_zero_and_negative_flags(result);
        if crossed {
            self.bus.tick(1);
        }
        Ok(())
    }

    fn cpx(&mut self, mode: &AddressingMode) -> (r: Result<(), EmuError>)
        requires
            old(self).wf(),
            mode_reads(*mode),
        ensures
            final(self).wf(),
            rel_cpx(*old(self), *final(self), *mode, r),

    {
        let (address, crossed) = match self.get_operand_address(mode) {
            Ok(t) => t,
            Err(e) => {
                return Err(e);
            },
        };
        let value = match self.mem_read(address) {
            Ok(v) => v,
            Err(e) => {
                return Err(e);
            },
        };
        let result = self.register_x.wrapping_sub(value);
        if self.register_x >= value {
            self.status = self.status | CARRY;
        } else {
            self.status = self.status & !CARRY;
        }
        self.update_zero_and_negative_flags(result);
        if crossed {
            self.bus.tick(1);
        }
        Ok(())
    }

    fn cpy(&mut self, mode: &AddressingMode) -> (r: Result<(), EmuError>)
        requires
            old(self).wf(),
            mode_reads(*mode),
        ensures
            final(self).wf(),
            rel_cpy(*old(self), *final(self), *mode, r),

    {
        let (address, crossed) = match self.get_operand_address(mode) {
            Ok(t) => t,
            Err(e) => {
                return Err(e);
            },
        };
        let value = match self.mem_read(address) {
            Ok(v) => v,
            Err(e) => {
                return Err(e);
            },
        };
        let result = self.register_y.wrapping_sub(value);
        if self.register_y >= value {
            self.status = self.status | CARRY;
        } else {
            self.status = self.status & !CARRY;
        }
        self.update_zero_and_negative_flags(result);
        if crossed {
            self.bus.tick(1);
        }
        Ok(())
    }

    fn bit(&mut self, mode: &AddressingMode) -> (r: Result<(), EmuError>)
        requires
            old(self).wf(),
            mode_reads(*mode),
        ensures
            final(self).wf(),
            rel_bit(*old(self), *final(self), *mode, r),

    {
        let (address, _crossed) = match self.get_operand_address(mode) {
            Ok(t) => t,
            Err(e) => {
                return Err(e);
            },
        };
        let value = match self.mem_read(address) {
            Ok(v) => v,
            Err(e) => {
                return Err(e);
            },
        };
        let result = self.register_a & value;
        if result == 0 {
            self.status = self.status | ZERO;
        } else {
            self.status = self.status & !ZERO;
        }
        if value & 0x40 > 0 {
            self.status = self.status | OVERFLOW;
        } else {
            self.status = self.status & !OVERFLOW;
        }
        if value & 0x80 > 0 {
            self.status = self.status | NEGATIVE;
        } else {
            self.status = self.status & !NEGATIVE;
        }
        Ok(())
    }

    // -----------------------------------------------------------------------
    // Stores.
    // -----------------------------------------------------------------------

    fn sta(&mut self, mode: &AddressingMode) -> (r: Result<(), EmuError>)
        requires
            old(self).wf(),
            mode_reads(*mode),
        ensures
            final(self).wf(),
            rel_sta(*old(self), *final(self), *mode, r),

    {
        let (address, _crossed) = match self.get_operand_address(mode) {
            Ok(t) => t,
            Err(e) => {
                return Err(e);
            },
        };
        let a = self.register_a;
        self.mem_write(address, a)
    }

    fn stx(&mut self, mode: &AddressingMode) -> (r: Result<(), EmuError>)
        requires
            old(self).wf(),
            mode_reads(*mode),
        ensures
            final(self).wf(),
            rel_stx(*old(self), *final(self), *mode, r),

    {
        let (address, _crossed) = match self.get_operand_address(mode) {
            Ok(t) => t,
            Err(e) => {
                return Err(e);
            },
        };
        let x = self.register_x;
        self.mem_write(address, x)
    }

    fn sty(&mut self, mode: &AddressingMode) -> (r: Result<(), EmuError>)
        requires
            old(self).wf(),
            mode_reads(*mode),
        ensures
            final(self).wf(),
            rel_sty(*old(self), *final(self), *mode, r),

    {
        let (address, _crossed) = match self.get_operand_address(mode) {
            Ok(t) => t,
            Err(e) => {
                return Err(e);
            },
        };
        let y = self.register_y;
        self.mem_write(address, y)
    }

    // -----------------------------------------------------------------------
    // Shifts and rotates.
    // -----------------------------------------------------------------------

    fn asl_accumulator(&mut self)
        ensures
            cpu_regs(
                *final(self),
                old(self).register_a << 1u8,
                old(self).register_x,
                old(self).register_y,
                old(self).stack_pointer,
                spec_zn(
                    spec_set_mask(old(self).status, CARRY, old(self).register_a & 0x80 != 0),
                    old(self).register_a << 1u8,
                ),
                old(self).program_counter,
            ),
            final(self).bus == old(self).bus,
    {
        let value = self.register_a;
        if value & 0x80 != 0 {
            self.status = self.status | CARRY;
        } else {
            self.status = self.status & !CARRY;
        }
        self.register_a = value << 1u8;
        let a = self.register_a;
        self.update_zero_and_negative_flags(a);
    }

    fn asl_memory(&mut self, address: u16) -> (r: Result<(), EmuError>)
        requires
            old(self).wf(),
        ensures
            final(self).wf(),
            ({
                let v = spec_read_val(old(self).bus@, address);
                let b1 = spec_read_bus(old(self).bus@, address);
                let res = v << 1u8;
                let ok = spec_read_ok(old(self).bus@, address) && spec_write_ok(b1, address, res);
                &&& ok ==> r is Ok && cpu_regs(
                    *final(self),
                    old(self).register_a,
                    old(self).register_x,
                    old(self).register_y,
                    old(self).stack_pointer,
                    spec_zn(spec_set_mask(old(self).status, CARRY, v & 0x80 != 0), res),
                    old(self).program_counter,
                ) && final(self).bus@ == spec_write_bus(b1, address, res)
                &&& !ok ==> r is Err
            }),
    {
        let value = match self.mem_read(address) {
            Ok(v) => v,
            Err(e) => {
                return Err(e);
            },
        };
        if value & 0x80 != 0 {
            self.status = self.status | CARRY;
        } else {
            self.status = self.status & !CARRY;
        }
        let result = value << 1u8;
        match self.mem_write(address, result) {
            Ok(u) => (),
            Err(e) => {
                return Err(e);
            },
        }
        self.update_zero_and_negative_flags(result);
        Ok(())
    }

    fn asl(&mut self, mode: &AddressingMode) -> (r: Result<(), EmuError>)
        requires
            old(self).wf(),
            (*mode is Accumulator) || mode_reads(*mode),
        ensures
            final(self).wf(),
            rel_asl(*old(self), *final(self), *mode, r),

    {
        if let AddressingMode::Accumulator = mode {
            self.asl_accumulator();
            return Ok(());
        }
        let (address, _crossed) = match self.get_operand_address(mode) {
            Ok(t) => t,
            Err(e) => {
                return Err(e);
            },
        };
        self.asl_memory(address)
    }

    fn lsr(&mut self, mode: &AddressingMode) -> (r: Result<(), EmuError>)
        requires
            old(self).wf(),
            (*mode is Accumulator) || mode_reads(*mode),
        ensures
            final(self).wf(),
            rel_lsr(*old(self), *final(self), *mode, r),

    {
        if let AddressingMode::Accumulator = mode {
            let value = self.register_a;
            if value & 0x01 == 0x01 {
                self.status = self.status | CARRY;
            } else {
                self.status = self.status & !CARRY;
            }
            let value = value >> 1u8;
            self.update_zero_and_negative_flags(value);
            self.register_a = value;
            return Ok(());
        }
        let (address, _crossed) = match self.get_operand_address(mode) {
            Ok(t) => t,
            Err(e) => {
                return Err(e);
            },
        };
        let mut value = match self.mem_read(address) {
            Ok(v) => v,
            Err(e) => {
                return Err(e);
            },
        };
        if value & 0x01 == 0x01 {
            self.status = self.status | CARRY;
        } else {
            self.status = self.status & !CARRY;
        }
        value = value >> 1u8;
        self.update_zero_and_negative_flags(value);
        match self.mem_write(address, value) {
            Ok(u) => (),
            Err(e) => {
                return Err(e);
            },
        }
        Ok(())
    }

    fn rol_accumulator(&mut self)
        ensures
            cpu_regs(
                *final(self),
                (old(self).register_a << 1u8) | (if flag(old(self).status, CARRY) {
                    1u8
                } else {
                    0u8
                }),
                old(self).register_x,
                old(self).register_y,
                old(self).stack_pointer,
                spec_zn(
                    spec_set_mask(old(self).status, CARRY, old(self).register_a & 0x80 == 0x80),
                    (old(self).register_a << 1u8) | (if flag(old(self).status, CARRY) {
                        1u8
                    } else {
                        0u8
                    }),
                ),
                old(self).program_counter,
            ),
            final(self).bus == old(self).bus,
    {
        let mut value = self.register_a;
        let carry = self.status & CARRY != 0;
        if value & 0x80 == 0x80 {
            self.status = self.status | CARRY;
        } else {
            self.status = self.status & !CARRY;
        }
        value = value << 1u8;
        proof {
            let v = value;
            assert(v | 0u8 == v) by (bit_vector);
        }
        if carry {
            value = value | 1;
        }
        self.update_zero_and_negative_flags(value);
        self.register_a = value;
    }

    fn rol(&mut self, mode: &AddressingMode) -> (r: Result<(), EmuError>)
        requires
            old(self).wf(),
            (*mode is Accumulator) || mode_reads(*mode),
        ensures
            final(self).wf(),
            rel_rol(*old(self), *final(self), *mode, r),

    {
        if let AddressingMode::Accumulator = mode {
            self.rol_accumulator();
            return Ok(());
        }
        let (address, _crossed) = match self.get_operand_address(mode) {
            Ok(t) => t,
            Err(e) => {
                return Err(e);
            },
        };
        let mut value = match self.mem_read(address) {
            Ok(v) => v,
            Err(e) => {
                return Err(e);
            },
        };
        let carry = self.status & CARRY != 0;
        if value & 0x80 == 0x80 {
            self.status = self.status | CARRY;
        } else {
            self.status = self.status & !CARRY;
        }
        value = value << 1u8;
        proof {
            let v = value;
            assert(v | 0u8 == v) by (bit_vector);
        }
        if carry {
            value = value | 1;
        }
        self.update_zero_and_negative_flags(value);
        match self.mem_write(address, value) {
            Ok(u) => (),
            Err(e) => {
                return Err(e);
            },
        }
        Ok(())
    }

    fn ror_accumulator(&mut self)
        ensures
            cpu_regs(
                *final(self),
                (old(self).register_a >> 1u8) | (if flag(old(self).status, CARRY) {
                    0x80u8
                } else {
                    0u8
                }),
                old(self).register_x,
                old(self).register_y,
                old(self).stack_pointer,
                spec_zn(
                    spec_set_mask(old(self).status, CARRY, old(self).register_a & 1 == 1),
                    (old(self).register_a >> 1u8) | (if flag(old(self).status, CARRY) {
                        0x80u8
                    } else {
                        0u8
                    }),
                ),
                old(self).program_counter,
            ),
            final(self).bus == old(self).bus,
    {
        let mut value = self.register_a;
        let carry = self.status & CARRY != 0;
        if value & 0x01 == 0x01 {
            self.status = self.status | CARRY;
        } else {
            self.status = self.status & !CARRY;
        }
        value = value >> 1u8;
        proof {
            let v = value;
            assert(v | 0u8 == v) by (bit_vector);
        }
        if carry {
            value = value | 0x80;
        }
        self.update_zero_and_negative_flags(value);
        self.register_a = value;
    }

    fn ror(&mut self, mode: &AddressingMode) -> (r: Result<(), EmuError>)
        requires
            old(self).wf(),
            (*mode is Accumulator) || mode_reads(*mode),
        ensures
            final(self).wf(),
            rel_ror(*old(self), *final(self), *mode, r),

    {
        if let AddressingMode::Accumulator = mode {
            self.ror_accumulator();
            return Ok(());
        }
        let (address, _crossed) = match self.get_operand_address(mode) {
            Ok(t) => t,
            Err(e) => {
                return Err(e);
            },
        };
        let mut value = match self.mem_read(address) {
            Ok(v) => v,
            Err(e) => {
                return Err(e);
            },
        };
        let carry = self.status & CARRY != 0;
        if value & 0x01 == 0x01 {
            self.status = self.status | CARRY;
        } else {
            self.status = self.status & !CARRY;
        }
        value = value >> 1u8;
        proof {
            let v = value;
            assert(v | 0u8 == v) by (bit_vector);
        }
        if carry {
            value = value | 0x80;
        }
        self.update_zero_and_negative_flags(value);
        match self.mem_write(address, value) {
            Ok(u) => (),
            Err(e) => {
                return Err(e);
            },
        }
        Ok(())
    }

    fn inc(&mut self, mode: &AddressingMode) -> (r: Result<(), EmuError>)
        requires
            old(self).wf(),
            mode_reads(*mode),
        ensures
            final(self).wf(),
            rel_inc(*old(self), *final(self), *mode, r),

    {
        let (address, _crossed) = match self.get_operand_address(mode) {
            Ok(t) => t,
            Err(e) => {
                return Err(e);
            },
        };
        let value = match self.mem_read(address) {
            Ok(v) => v,
            Err(e) => {
                return Err(e);
            },
        };
        let result = value.wrapping_add(1);
        match self.mem_write(address, result) {
            Ok(u) => (),
            Err(e) => {
                return Err(e);
            },
        }
        self.update_zero_and_negative_flags(result);
        Ok(())
    }

    fn dec(&mut self, mode: &AddressingMode) -> (r: Result<(), EmuError>)
        requires
            old(self).wf(),
            mode_reads(*mode),
        ensures
            final(self).wf(),
            rel_dec(*old(self), *final(self), *mode, r),

    {
        let (address, _crossed) = match self.get_operand_address(mode) {
            Ok(t) => t,
            Err(e) => {
                return Err(e);
            },
        };
        let value = match self.mem_read(address) {
            Ok(v) => v,
            Err(e) => {
                return Err(e);
            },
        };
        let result = value.wrapping_sub(1);
        match self.mem_write(address, result) {
            Ok(u) => (),
            Err(e) => {
                return Err(e);
            },
        }
        self.update_zero_and_negative_flags(result);
        Ok(())
    }
}


// ---------------------------------------------------------------------------
// Branches, jumps, stack instructions, flag and transfer instructions.
// ---------------------------------------------------------------------------

/// What a conditional branch does: nothing when the condition is false;
/// otherwise one penalty cycle, the signed offset read at the program
/// counter, a second penalty cycle if the target crosses a page, and the
/// jump itself.
pub open spec fn spec_branch_rel(pre: CPU, post: CPU, cond: bool, r: Result<(), EmuError>) -> bool {
    if !cond {
        r is Ok && same_regs(pre, post) && post.bus@ == pre.bus@
    } else {
        let b1 = spec_bus_tick(pre.bus@, 1);
        let off = spec_read_val(b1, pre.program_counter);
        let b2 = spec_read_bus(b1, pre.program_counter);
        let target = wrap_add16(
            wrap_inc16(pre.program_counter),
            if off >= 0x80 {
                (off + 0xff00) as u16
            } else {
                off as u16
            },
        );
        let b3 = spec_tick_if(b2, spec_page_crossed(wrap_inc16(pre.program_counter), target));
        if spec_read_ok(b1, pre.program_counter) {
            r is Ok && cpu_regs(
                post,
                pre.register_a,
                pre.register_x,
                pre.register_y,
                pre.stack_pointer,
                pre.status,
                target,
            ) && post.bus@ == b3
        } else {
            r is Err
        }
    }
}

impl CPU {
    fn branch(&mut self, condition: bool) -> (r: Result<(), EmuError>)
        requires
            old(self).wf(),
        ensures
            final(self).wf(),
            spec_branch_rel(*old(self), *final(self), condition, r),
    {
        if condition {
            self.bus.tick(1);
            let pc = self.program_counter;
            let offset = match self.mem_read(pc) {
                Ok(v) => v,
                Err(e) => {
                    return Err(e);
                },
            };
            let base = self.program_counter.wrapping_add(1);
            let delta: u16 = if offset >= 0x80 {
                offset as u16 + 0xff00
            } else {
                offset as u16
            };
            let jump_addr = base.wrapping_add(delta);
            if base & 0xff00 != jump_addr & 0xff00 {
                self.bus.tick(1);
            }
            self.program_counter = jump_addr;
        }
        Ok(())
    }

    fn bcc(&mut self) -> (r: Result<(), EmuError>)
        requires
            old(self).wf(),
        ensures
            final(self).wf(),
            rel_bcc(*old(self), *final(self), r),

    {
        let c = self.status & CARRY != 0;
        self.branch(!c)
    }

    fn bcs(&mut self) -> (r: Result<(), EmuError>)
        requires
            old(self).wf(),
        ensures
            final(self).wf(),
            rel_bcs(*old(self), *final(self), r),

    {
        let c = self.status & CARRY != 0;
        self.branch(c)
    }

    fn beq(&mut self) -> (r: Result<(), EmuError>)
        requires
            old(self).wf(),
        ensures
            final(self).wf(),
            rel_beq(*old(self), *final(self), r),

    {
        let z = self.status & ZERO != 0;
        self.branch(z)
    }

    fn bne(&mut self) -> (r: Result<(), EmuError>)
        requires
            old(self).wf(),
        ensures
            final(self).wf(),
            rel_bne(*old(self), *final(self), r),

    {
        let z = self.status & ZERO != 0;
        self.branch(!z)
    }

    fn bmi(&mut self) -> (r: Result<(), EmuError>)
        requires
            old(self).wf(),
        ensures
            final(self).wf(),
            rel_bmi(*old(self), *final(self), r),

    {
        let n = self.status & NEGATIVE != 0;
        self.branch(n)
    }

    fn bpl(&mut self) -> (r: Result<(), EmuError>)
        requires
            old(self).wf(),
        ensures
            final(self).wf(),
            rel_bpl(*old(self), *final(self), r),

    {
        let n = self.status & NEGATIVE != 0;
        self.branch(!n)
    }

    fn bvs(&mut self) -> (r: Result<(), EmuError>)
        requires
            old(self).wf(),
        ensures
            final(self).wf(),
            rel_bvs(*old(self), *final(self), r),

    {
        let v = self.status & OVERFLOW != 0;
        self.branch(v)
    }

    fn bvc(&mut self) -> (r: Result<(), EmuError>)
        requires
            old(self).wf(),
        ensures
            final(self).wf(),
            rel_bvc(*old(self), *final(self), r),

    {
        let v = self.status & OVERFLOW != 0;
        self.branch(!v)
    }

    /// BRK halts the run loop by raising the BREAK flag. This core does not
    /// perform the vectored interrupt of the real chip; the loop observes
    /// the flag and exits.
    fn brk(&mut self)
        ensures
            rel_brk(*old(self), *final(self)),

    {
        self.status = self.status | BREAK;
    }

    fn jmp(&mut self, mode: &AddressingMode) -> (r: Result<(), EmuError>)
        requires
            old(self).wf(),
        ensures
            final(self).wf(),
            rel_jmp(*old(self), *final(self), *mode, r),

    {
        let pc = self.program_counter;
        let address = match self.u16_mem_read(pc) {
            Ok(v) => v,
            Err(e) => {
                return Err(e);
            },
        };
        if let AddressingMode::Absolute = mode {
            self.program_counter = address;
            return Ok(());
        }
        // Indirect jump, with the hardware's page-boundary wrap bug: when
        // the pointer sits on the last byte of a page, the high byte comes
        // from the start of the same page.
        let indirect_ref = if address & 0x00ff == 0x00ff {
            let lo = match self.mem_read(address) {
                Ok(v) => v,
                Err(e) => {
                    return Err(e);
                },
            };
            let hi = match self.mem_read(address & 0xff00) {
                Ok(v) => v,
                Err(e) => {
                    return Err(e);
                },
            };
            (hi as u16) * 256 + (lo as u16)
        } else {
            match self.u16_mem_read(address) {
                Ok(v) => v,
                Err(e) => {
                    return Err(e);
                },
            }
        };
        self.program_counter = indirect_ref;
        Ok(())
    }

    fn jsr(&mut self) -> (r: Result<(), EmuError>)
        requires
            old(self).wf(),
        ensures
            final(self).wf(),
            rel_jsr(*old(self), *final(self), r),

    {
        let pc = self.program_counter;
        let address = match self.u16_mem_read(pc) {
            Ok(v) => v,
            Err(e) => {
                return Err(e);
            },
        };
        // The pushed value is the address of the JSR's last byte: PC + 2 - 1.
        let return_address = self.program_counter.wrapping_add(1);
        self.stack_push_u16(return_address);
        self.program_counter = address;
        Ok(())
    }

    fn rts(&mut self)
        requires
            old(self).wf(),
        ensures
            final(self).wf(),
            rel_rts(*old(self), *final(self)),

    {
        let address = self.stack_pop_u16();
        self.program_counter = address.wrapping_add(1);
    }

    fn rti(&mut self)
        requires
            old(self).wf(),
        ensures
            final(self).wf(),
            rel_rti(*old(self), *final(self)),

    {
        let popped = self.stack_pop_u8();
        self.status = (popped & !BREAK) | BREAK2;
        self.program_counter = self.stack_pop_u16();
    }

    fn pha(&mut self)
        requires
            old(self).wf(),
        ensures
            final(self).wf(),
            rel_pha(*old(self), *final(self)),

    {
        let a = self.register_a;
        self.stack_push_u8(a);
    }

    /// PHP pushes the status with both B flags forced set.
    fn php(&mut self)
        requires
            old(self).wf(),
        ensures
            final(self).wf(),
            rel_php(*old(self), *final(self)),

    {
        let flags = self.status | BREAK | BREAK2;
        self.stack_push_u8(flags);
    }

    fn pla(&mut self)
        requires
            old(self).wf(),
        ensures
            final(self).wf(),
            rel_pla(*old(self), *final(self)),

    {
        let v = self.stack_pop_u8();
        self.register_a = v;
        self.update_zero_and_negative_flags(v);
    }

    /// PLP pops the status, clears BREAK and forces BREAK2.
    fn plp(&mut self)
        requires
            old(self).wf(),
        ensures
            final(self).wf(),
            rel_plp(*old(self), *final(self)),

    {
        let popped = self.stack_pop_u8();
        self.status = (popped & !BREAK) | BREAK2;
    }
}

// ---------------------------------------------------------------------------
// Flag and transfer instructions.
// ---------------------------------------------------------------------------

impl CPU {
    fn clc(&mut self)
        ensures
            rel_clc(*old(self), *final(self)),

    {
        self.status = self.status & !CARRY;
    }

    fn cld(&mut self)
        ensures
            rel_cld(*old(self), *final(self)),

    {
        self.status = self.status & !DECIMAL;
    }

    fn cli(&mut self)
        ensures
            rel_cli(*old(self), *final(self)),

    {
        self.status = self.status & !INTERRUPT_DISABLE;
    }

    fn clv(&mut self)
        ensures
            rel_clv(*old(self), *final(self)),

    {
        self.status = self.status & !OVERFLOW;
    }

    fn sec(&mut self)
        ensures
            rel_sec(*old(self), *final(self)),

    {
        self.status = self.status | CARRY;
    }

    fn sed(&mut self)
        ensures
            rel_sed(*old(self), *final(self)),

    {
        self.status = self.status | DECIMAL;
    }

    fn sei(&mut self)
        ensures
            rel_sei(*old(self), *final(self)),

    {
        self.status = self.status | INTERRUPT_DISABLE;
    }

    fn tax(&mut self)
        ensures
            rel_tax(*old(self), *final(self)),

    {
        self.register_x = self.register_a;
        let x = self.register_x;
        self.update_zero_and_negative_flags(x);
    }

    fn tay(&mut self)
        ensures
            rel_tay(*old(self), *final(self)),

    {
        self.register_y = self.register_a;
        let y = self.register_y;
        self.update_zero_and_negative_flags(y);
    }

    fn tsx(&mut self)
        ensures
            rel_tsx(*old(self), *final(self)),

    {
        self.register_x = self.stack_pointer;
        let x = self.register_x;
        self.update_zero_and_negative_flags(x);
    }

    fn txa(&mut self)
        ensures
            rel_txa(*old(self), *final(self)),

    {
        self.register_a = self.register_x;
        let a = self.register_a;
        self.update_zero_and_negative_flags(a);
    }

    fn txs(&mut self)
        ensures
            rel_txs(*old(self), *final(self)),

    {
        self.stack_pointer = self.register_x;
    }

    fn tya(&mut self)
        ensures
            rel_tya(*old(self), *final(self)),

    {
        self.register_a = self.register_y;
        let a = self.register_a;
        self.update_zero_and_negative_flags(a);
    }

    fn inx(&mut self)
        ensures
            rel_inx(*old(self), *final(self)),

    {
        self.register_x = self.register_x.wrapping_add(1);
        let x = self.register_x;
        self.update_zero_and_negative_flags(x);
    }

    fn iny(&mut self)
        ensures
            rel_iny(*old(self), *final(self)),

    {
        self.register_y = self.register_y.wrapping_add(1);
        let y = self.register_y;
        self.update_zero_and_negative_flags(y);
    }

    fn dex(&mut self)
        ensures
            rel_dex(*old(self), *final(self)),

    {
        self.register_x = self.register_x.wrapping_sub(1);
        let x = self.register_x;
        self.update_zero_and_negative_flags(x);
    }

    fn dey(&mut self)
        ensures
            rel_dey(*old(self), *final(self)),

    {
        self.register_y = self.register_y.wrapping_sub(1);
        let y = self.register_y;
        self.update_zero_and_negative_flags(y);
    }

    fn nop(&mut self)
        ensures
            rel_nop(*old(self), *final(self)),

    {
    }

    /// The multi-byte unofficial NOPs still resolve their operand and pay
    /// the page-cross penalty, without reading the operand byte.
    fn nop_read(&mut self, mode: &AddressingMode) -> (r: Result<(), EmuError>)
        requires
            old(self).wf(),
            mode_reads(*mode),
        ensures
            final(self).wf(),
            rel_nop_read(*old(self), *final(self), *mode, r),

    {
        let (_address, crossed) = match self.get_operand_address(mode) {
            Ok(t) => t,
            Err(e) => {
                return Err(e);
            },
        };
        if crossed {
            self.bus.tick(1);
        }
        Ok(())
    }
}


// ---------------------------------------------------------------------------
// Unofficial opcodes.
// ---------------------------------------------------------------------------

impl CPU {
    /// ANC: AND, then copy the result's sign into the carry.
    fn anc(&mut self, mode: &AddressingMode) -> (r: Result<(), EmuError>)
        requires
            old(self).wf(),
            mode_reads(*mode),
        ensures
            final(self).wf(),
            rel_anc(*old(self), *final(self), *mode, r),

    {
        let (address, _crossed) = match self.get_operand_address(mode) {
            Ok(t) => t,
            Err(e) => {
                return Err(e);
            },
        };
        let value = match self.mem_read(address) {
            Ok(v) => v,
            Err(e) => {
                return Err(e);
            },
        };
        self.register_a = self.register_a & value;
        let a = self.register_a;
        if a & 0x80 == 0x80 {
            self.status = self.status | CARRY;
        } else {
            self.status = self.status & !CARRY;
        }
        self.update_zero_and_negative_flags(a);
        Ok(())
    }

    /// SAX: store `A & X`.
    fn sax(&mut self, mode: &AddressingMode) -> (r: Result<(), EmuError>)
        requires
            old(self).wf(),
            mode_reads(*mode),
        ensures
            final(self).wf(),
            rel_sax(*old(self), *final(self), *mode, r),

    {
        let (address, _crossed) = match self.get_operand_address(mode) {
            Ok(t) => t,
            Err(e) => {
                return Err(e);
            },
        };
        let value = self.register_a & self.register_x;
        self.mem_write(address, value)
    }

    /// ARR: AND then rotate right, with carry and overflow drawn from bits
    /// 6 and 5 of the result.
    fn arr(&mut self, mode: &AddressingMode) -> (r: Result<(), EmuError>)
        requires
            old(self).wf(),
            mode_reads(*mode),
        ensures
            final(self).wf(),
            rel_arr(*old(self), *final(self), *mode, r),

    {
        let (address, _crossed) = match self.get_operand_address(mode) {
            Ok(t) => t,
            Err(e) => {
                return Err(e);
            },
        };
        let value = match self.mem_read(address) {
            Ok(v) => v,
            Err(e) => {
                return Err(e);
            },
        };
        let result = (self.register_a & value) >> 1u8;
        self.register_a = result;
        self.update_zero_and_negative_flags(result);
        if result & 0x40 == 0x40 {
            self.status = self.status | CARRY;
        } else {
            self.status = self.status & !CARRY;
        }
        if (result & 0x40 == 0x40) ^ (result & 0x20 == 0x20) {
            self.status = self.status | OVERFLOW;
        } else {
            self.status = self.status & !OVERFLOW;
        }
        Ok(())
    }

    /// ALR: the carry comes from bit 0 of A, then A is ANDed and shifted.
    fn alr(&mut self, mode: &AddressingMode) -> (r: Result<(), EmuError>)
        requires
            old(self).wf(),
            mode_reads(*mode),
        ensures
            final(self).wf(),
            rel_alr(*old(self), *final(self), *mode, r),

    {
        let (address, _crossed) = match self.get_operand_address(mode) {
            Ok(t) => t,
            Err(e) => {
                return Err(e);
            },
        };
        let value = match self.mem_read(address) {
            Ok(v) => v,
            Err(e) => {
                return Err(e);
            },
        };
        if self.register_a & 0x01 == 0x01 {
            self.status = self.status | CARRY;
        } else {
            self.status = self.status & !CARRY;
        }
        self.register_a = self.register_a & value;
        self.register_a = self.register_a >> 1u8;
        let a = self.register_a;
        self.update_zero_and_negative_flags(a);
        Ok(())
    }

    /// LXA: load the operand into both A and X.
    fn lxa(&mut self, mode: &AddressingMode) -> (r: Result<(), EmuError>)
        requires
            old(self).wf(),
            mode_reads(*mode),
        ensures
            final(self).wf(),
            rel_lxa(*old(self), *final(self), *mode, r),

    {
        let (address, _crossed) = match self.get_operand_address(mode) {
            Ok(t) => t,
            Err(e) => {
                return Err(e);
            },
        };
        let value = match self.mem_read(address) {
            Ok(v) => v,
            Err(e) => {
                return Err(e);
            },
        };
        self.register_a = value;
        self.register_x = value;
        self.update_zero_and_negative_flags(value);
        Ok(())
    }

    /// AHX: store `A & X & (high byte of the address)`.
    fn ahx(&mut self, mode: &AddressingMode) -> (r: Result<(), EmuError>)
        requires
            old(self).wf(),
            mode_reads(*mode),
        ensures
            final(self).wf(),
            rel_ahx(*old(self), *final(self), *mode, r),

    {
        let (address, _crossed) = match self.get_operand_address(mode) {
            Ok(t) => t,
            Err(e) => {
                return Err(e);
            },
        };
        let value = self.register_a & self.register_x & (address >> 8u16) as u8;
        self.mem_write(address, value)
    }

    /// AXS: `X <- (A & X) - operand`, carry from the result's sign.
    fn axs(&mut self, mode: &AddressingMode) -> (r: Result<(), EmuError>)
        requires
            old(self).wf(),
            mode_reads(*mode),
        ensures
            final(self).wf(),
            rel_axs(*old(self), *final(self), *mode, r),

    {
        let (address, _crossed) = match self.get_operand_address(mode) {
            Ok(t) => t,
            Err(e) => {
                return Err(e);
            },
        };
        let value = match self.mem_read(address) {
            Ok(v) => v,
            Err(e) => {
                return Err(e);
            },
        };
        let result = (self.register_a & self.register_x).wrapping_sub(value);
        self.register_x = result;
        self.update_zero_and_negative_flags(result);
        if result & 0x80 == 0x80 {
            self.status = self.status | CARRY;
        } else {
            self.status = self.status & !CARRY;
        }
        Ok(())
    }

    /// DCP: decrement memory, then compare-like flags against A.
    fn dcp(&mut self, mode: &AddressingMode) -> (r: Result<(), EmuError>)
        requires
            old(self).wf(),
            mode_reads(*mode),
        ensures
            final(self).wf(),
            rel_dcp(*old(self), *final(self), *mode, r),

    {
        let (address, _crossed) = match self.get_operand_address(mode) {
            Ok(t) => t,
            Err(e) => {
                return Err(e);
            },
        };
        let value = match self.mem_read(address) {
            Ok(v) => v,
            Err(e) => {
                return Err(e);
            },
        };
        let result = value.wrapping_sub(1);
        match self.mem_write(address, result) {
            Ok(u) => (),
            Err(e) => {
                return Err(e);
            },
        }
        let diff = self.register_a.wrapping_sub(result);
        self.update_zero_and_negative_flags(diff);
        if self.register_a >= result {
            self.status = self.status | CARRY;
        } else {
            self.status = self.status & !CARRY;
        }
        Ok(())
    }

    /// LAS: load `SP & operand` into A, X and SP.
    fn las(&mut self, mode: &AddressingMode) -> (r: Result<(), EmuError>)
        requires
            old(self).wf(),
            mode_reads(*mode),
        ensures
            final(self).wf(),
            rel_las(*old(self), *final(self), *mode, r),

    {
        let (address, _crossed) = match self.get_operand_address(mode) {
            Ok(t) => t,
            Err(e) => {
                return Err(e);
            },
        };
        let value = match self.mem_read(address) {
            Ok(v) => v,
            Err(e) => {
                return Err(e);
            },
        };
        let result = self.stack_pointer & value;
        self.register_a = result;
        self.register_x = result;
        self.stack_pointer = result;
        self.update_zero_and_negative_flags(result);
        Ok(())
    }

    /// LAX: load the operand into A, then copy A into X.
    fn lax(&mut self, mode: &AddressingMode) -> (r: Result<(), EmuError>)
        requires
            old(self).wf(),
            mode_reads(*mode),
        ensures
            final(self).wf(),
            rel_lax(*old(self), *final(self), *mode, r),

    {
        match self.lda(mode) {
            Ok(u) => (),
            Err(e) => {
                return Err(e);
            },
        }
        self.tax();
        proof {
            let p = old(self).status;
            let v = self.register_a;
            assert(spec_zn(spec_zn(p, v), v) == spec_zn(p, v)) by (bit_vector);
        }
        Ok(())
    }

    /// SHX: store `X & (high byte of the address + 1)`.
    fn shx(&mut self, mode: &AddressingMode) -> (r: Result<(), EmuError>)
        requires
            old(self).wf(),
            mode_reads(*mode),
        ensures
            final(self).wf(),
            rel_shx(*old(self), *final(self), *mode, r),

    {
        let (address, _crossed) = match self.get_operand_address(mode) {
            Ok(t) => t,
            Err(e) => {
                return Err(e);
            },
        };
        let value = self.register_x & ((address >> 8u16) as u8).wrapping_add(1);
        self.mem_write(address, value)
    }

    /// SHY: store `Y & (high byte of the address + 1)`.
    fn shy(&mut self, mode: &AddressingMode) -> (r: Result<(), EmuError>)
        requires
            old(self).wf(),
            mode_reads(*mode),
        ensures
            final(self).wf(),
            rel_shy(*old(self), *final(self), *mode, r),

    {
        let (address, _crossed) = match self.get_operand_address(mode) {
            Ok(t) => t,
            Err(e) => {
                return Err(e);
            },
        };
        let value = self.register_y & ((address >> 8u16) as u8).wrapping_add(1);
        self.mem_write(address, value)
    }

    /// TAS: `SP <- A & X`, then store `SP & (high byte + 1)`.
    fn tas(&mut self, mode: &AddressingMode) -> (r: Result<(), EmuError>)
        requires
            old(self).wf(),
            mode_reads(*mode),
        ensures
            final(self).wf(),
            rel_tas(*old(self), *final(self), *mode, r),

    {
        let (address, _crossed) = match self.get_operand_address(mode) {
            Ok(t) => t,
            Err(e) => {
                return Err(e);
            },
        };
        let value = self.register_a & self.register_x;
        self.stack_pointer = value;
        let result = value & ((address >> 8u16) as u8).wrapping_add(1);
        self.mem_write(address, result)
    }

    /// XAA is too unstable on hardware to model: always refused.
    fn xaa(&mut self, _mode: &AddressingMode) -> (r: Result<(), EmuError>)
        ensures
            rel_xaa(*old(self), *final(self), *_mode, r),

    {
        Err(EmuError::UnstableOpcode(0x8b))
    }

    /// ISB: increment memory, set compare-style carry, then subtract.
    fn isb(&mut self, mode: &AddressingMode) -> (r: Result<(), EmuError>)
        requires
            old(self).wf(),
            mode_reads(*mode),
        ensures
            final(self).wf(),
            rel_isb(*old(self), *final(self), *mode, r),

    {
        let (address, _crossed) = match self.get_operand_address(mode) {
            Ok(t) => t,
            Err(e) => {
                return Err(e);
            },
        };
        let value = match self.mem_read(address) {
            Ok(v) => v,
            Err(e) => {
                return Err(e);
            },
        };
        let result = value.wrapping_add(1);
        match self.mem_write(address, result) {
            Ok(u) => (),
            Err(e) => {
                return Err(e);
            },
        }
        self.update_zero_and_negative_flags(result);
        if self.register_a >= result {
            self.status = self.status | CARRY;
        } else {
            self.status = self.status & !CARRY;
        }
        self.sbc(mode)
    }

    /// RLA: rotate memory left, then AND it into A.
    fn rla(&mut self, mode: &AddressingMode) -> (r: Result<(), EmuError>)
        requires
            old(self).wf(),
            mode_reads(*mode),
        ensures
            final(self).wf(),
            rel_rla(*old(self), *final(self), *mode, r),

    {
        match self.rol(mode) {
            Ok(u) => (),
            Err(e) => {
                return Err(e);
            },
        }
        self.and(mode)
    }

    /// RRA: rotate memory right, then add it into A.
    fn rra(&mut self, mode: &AddressingMode) -> (r: Result<(), EmuError>)
        requires
            old(self).wf(),
            mode_reads(*mode),
        ensures
            final(self).wf(),
            rel_rra(*old(self), *final(self), *mode, r),

    {
        match self.ror(mode) {
            Ok(u) => (),
            Err(e) => {
                return Err(e);
            },
        }
        self.adc(mode)
    }

    /// SLO: shift memory left, then OR it into A.
    fn slo(&mut self, mode: &AddressingMode) -> (r: Result<(), EmuError>)
        requires
            old(self).wf(),
            mode_reads(*mode),
        ensures
            final(self).wf(),
            rel_slo(*old(self), *final(self), *mode, r),

    {
        match self.asl(mode) {
            Ok(u) => (),
            Err(e) => {
                return Err(e);
            },
        }
        self.ora(mode)
    }

    /// SRE: shift memory right, then XOR it into A.
    fn sre(&mut self, mode: &AddressingMode) -> (r: Result<(), EmuError>)
        requires
            old(self).wf(),
            mode_reads(*mode),
        ensures
            final(self).wf(),
            rel_sre(*old(self), *final(self), *mode, r),

    {
        match self.lsr(mode) {
            Ok(u) => (),
            Err(e) => {
                return Err(e);
            },
        }
        self.eor(mode)
    }
}

// ---------------------------------------------------------------------------
// The run loop's contract: one iteration as a relation, and a whole run as
// a bounded chain of iterations.
// ---------------------------------------------------------------------------

/// The machine after the top-of-loop NMI service: with a token pending,
/// the pending flag is drained and the interrupt is delivered (program
/// counter and status pushed with BREAK clear and BREAK2 set, the
/// interrupt-disable flag raised, two cycles paid, the vector at `0xFFFA`
/// followed); otherwise nothing changes.
pub open spec fn spec_nmi_rel(pre: CPU, c1: CPU) -> bool {
    if pre.bus@.ppu.nmi_interrupt is Some {
        let b0 = BusView {
            ppu: crate::ppu::PpuView { nmi_interrupt: None, ..pre.bus@.ppu },
            ..pre.bus@
        };
        let b1 = spec_push16_bus(b0, pre.stack_pointer, pre.program_counter);
        let pushed = spec_set_mask(spec_set_mask(pre.status, BREAK, false), BREAK2, true);
        let sp2 = wrap_dec8(wrap_dec8(pre.stack_pointer));
        let b2 = spec_write_bus(b1, (0x100 + sp2) as u16, pushed);
        let b3 = spec_bus_tick(b2, 2);
        cpu_regs(
            c1,
            pre.register_a,
            pre.register_x,
            pre.register_y,
            wrap_dec8(sp2),
            pre.status | INTERRUPT_DISABLE,
            spec_read16_val(b3, 0xfffa),
        ) && c1.bus@ == spec_read16_bus(b3, 0xfffa)
    } else {
        same_regs(pre, c1) && c1.bus@ == pre.bus@
    }
}

/// The loop's tail for a continuing instruction: the bus is clocked by the
/// opcode's base cycles; a handler that left the program counter at the
/// fetch position has it advanced past the operand bytes; a frame boundary
/// hands the joypad to the host (its new value is unconstrained) and the
/// frame latch is cleared.
pub open spec fn spec_tail_rel(original_pc: u16, op: crate::opcodes::OpCode, c3: CPU, post: CPU) -> bool {
    let b4 = spec_bus_tick(c3.bus@, op.cycles);
    let pc5 = if c3.program_counter == original_pc {
        wrap_add16(c3.program_counter, (op.len - 1) as u16)
    } else {
        c3.program_counter
    };
    &&& cpu_regs(
        post,
        c3.register_a,
        c3.register_x,
        c3.register_y,
        c3.stack_pointer,
        c3.status,
        pc5,
    )
    &&& post.bus@ == (BusView { joypad1: post.bus@.joypad1, frame_pending: false, ..b4 })
    &&& !b4.frame_pending ==> post.bus@.joypad1 == b4.joypad1
}

/// Dispatch and the loop tail: the instruction aborts with its error,
/// halts the loop by leaving BREAK set, or continues through the tail.
pub open spec fn spec_dispatch_post(
    c2: CPU,
    post: CPU,
    code: u8,
    outcome: Result<bool, EmuError>,
) -> bool {
    ||| (exists|e: EmuError|
        #[trigger] spec_dispatch_rel(c2, post, code, Err(e)) && outcome == Err::<bool, EmuError>(
            e,
        ))
    ||| (exists|rr: Result<(), EmuError>|
        #[trigger] spec_dispatch_rel(c2, post, code, rr) && rr is Ok && flag(post.status, BREAK)
            && outcome == Ok::<bool, EmuError>(true))
    ||| (exists|c3: CPU, rr: Result<(), EmuError>|
        #[trigger] spec_dispatch_rel(c2, c3, code, rr) && rr is Ok && !flag(c3.status, BREAK)
            && spec_tail_rel(c2.program_counter, crate::opcodes::spec_opcode_entry(code), c3, post)
            && outcome == Ok::<bool, EmuError>(false))
}

/// One instruction after the NMI service: the opcode byte is fetched at
/// the program counter (a refused fetch aborts), the program counter steps
/// past it, and the byte is dispatched.
pub open spec fn spec_exec_rel(c1: CPU, post: CPU, outcome: Result<bool, EmuError>) -> bool {
    let pc0 = c1.program_counter;
    if !spec_read_ok(c1.bus@, pc0) {
        &&& outcome == Err::<bool, EmuError>(crate::bus::spec_read_err(c1.bus@, pc0))
        &&& same_regs(c1, post)
        &&& post.bus@ == spec_read_err_bus(c1.bus@, pc0)
    } else {
        let code = spec_read_val(c1.bus@, pc0);
        let b1 = spec_read_bus(c1.bus@, pc0);
        exists|c2: CPU|
            {
                &&& cpu_regs(
                    c2,
                    c1.register_a,
                    c1.register_x,
                    c1.register_y,
                    c1.stack_pointer,
                    c1.status,
                    wrap_inc16(pc0),
                )
                &&& c2.bus@ == b1
                &&& #[trigger] spec_dispatch_post(c2, post, code, outcome)
            }
    }
}

/// One full run-loop iteration. Opaque: the run relation treats an
/// iteration as a unit; the loop body reveals it to establish it.
#[verifier::opaque]
pub open spec fn spec_iter_rel(pre: CPU, post: CPU, outcome: Result<bool, EmuError>) -> bool {
    exists|c1: CPU| #[trigger] spec_nmi_rel(pre, c1) && spec_exec_rel(c1, post, outcome)
}

/// A run with `fuel` iterations of budget left: it halts cleanly when an
/// iteration reports BRK, aborts with an iteration's error, or — only
/// with the budget exhausted — stops untouched with `CycleLimit`.
pub open spec fn spec_run_rel(pre: CPU, post: CPU, fuel: nat, r: Result<(), EmuError>) -> bool
    decreases fuel,
{
    if fuel == 0 {
        post == pre && r == Err::<(), EmuError>(EmuError::CycleLimit)
    } else {
        ||| (spec_iter_rel(pre, post, Ok(true)) && r == Ok::<(), EmuError>(()))
        ||| (exists|e: EmuError|
            #[trigger] spec_iter_rel(pre, post, Err(e)) && r == Err::<(), EmuError>(e))
        ||| (exists|mid: CPU|
            #[trigger] spec_iter_rel(pre, mid, Ok(false)) && spec_run_rel(
                mid,
                post,
                (fuel - 1) as nat,
                r,
            ))
    }
}

/// A run that ends cleanly ends on BRK: an `Ok` outcome of the run
/// relation forces the final status to carry the BREAK flag. The loop
/// never returns cleanly any other way — an aborted instruction and an
/// exhausted budget both report an error.
pub proof fn lemma_run_ok_means_break(pre: CPU, post: CPU, fuel: nat, r: Result<(), EmuError>)
    requires
        spec_run_rel(pre, post, fuel, r),
        r is Ok,
    ensures
        flag(post.status, BREAK),
    decreases fuel,
{
    if fuel == 0 {
        // excluded: the exhausted budget reports an error, not a clean halt
    } else if exists|mid: CPU|
        #[trigger] spec_iter_rel(pre, mid, Ok(false)) && spec_run_rel(
            mid,
            post,
            (fuel - 1) as nat,
            r,
        ) {
        let mid = choose|mid: CPU|
            #[trigger] spec_iter_rel(pre, mid, Ok(false)) && spec_run_rel(
                mid,
                post,
                (fuel - 1) as nat,
                r,
            );
        lemma_run_ok_means_break(mid, post, (fuel - 1) as nat, r);
    } else {
        // the iteration itself reported BRK
        reveal(spec_iter_rel);
        assert(spec_iter_rel(pre, post, Ok(true)));
        let c1 = choose|c1: CPU|
            #[trigger] spec_nmi_rel(pre, c1) && spec_exec_rel(c1, post, Ok(true));
        let pc0 = c1.program_counter;
        // a refused opcode fetch reports an error, so the fetch succeeded
        assert(spec_read_ok(c1.bus@, pc0));
        let code = spec_read_val(c1.bus@, pc0);
        let b1 = spec_read_bus(c1.bus@, pc0);
        let c2 = choose|c2: CPU|
            {
                &&& cpu_regs(
                    c2,
                    c1.register_a,
                    c1.register_x,
                    c1.register_y,
                    c1.stack_pointer,
                    c1.status,
                    wrap_inc16(pc0),
                )
                &&& c2.bus@ == b1
                &&& #[trigger] spec_dispatch_post(c2, post, code, Ok(true))
            };
        // of the three dispatch outcomes only the BREAK one yields `Ok(true)`
        assert(spec_dispatch_post(c2, post, code, Ok(true)));
    }
}

/// What executing the instruction for one opcode byte does: the relation
/// of the handler the byte dispatches to, at the addressing mode the
/// opcode matrix assigns it. Opaque so that the run loop's relations can
/// carry it without unfolding all 256 cases; `dispatch_opcode` reveals it.
#[verifier::opaque]
pub open spec fn spec_dispatch_rel(pre: CPU, post: CPU, code: u8, r: Result<(), EmuError>) -> bool {
    match code {
        0x00 => rel_brk(pre, post) && r is Ok,
        0x01 => rel_ora(pre, post, AddressingMode::IndirectX, r),
        0x02 | 0x12 | 0x1a | 0x22 | 0x32 | 0x3a | 0x42 | 0x52 | 0x5a | 0x62 | 0x72 | 0x7a | 0x80 | 0x82 | 0x89 | 0x92 | 0xb2 | 0xc2 | 0xd2 | 0xda | 0xe2 | 0xea | 0xf2 | 0xfa => rel_nop(pre, post) && r is Ok,
        0x03 => rel_slo(pre, post, AddressingMode::IndirectX, r),
        0x04 | 0x44 | 0x64 => rel_nop_read(pre, post, AddressingMode::ZeroPage, r),
        0x05 => rel_ora(pre, post, AddressingMode::ZeroPage, r),
        0x06 => rel_asl(pre, post, AddressingMode::ZeroPage, r),
        0x07 => rel_slo(pre, post, AddressingMode::ZeroPage, r),
        0x08 => rel_php(pre, post) && r is Ok,
        0x09 => rel_ora(pre, post, AddressingMode::Immediate, r),
        0x0a => rel_asl(pre, post, AddressingMode::Accumulator, r),
        0x0b | 0x2b => rel_anc(pre, post, AddressingMode::Immediate, r),
        0x0c => rel_nop_read(pre, post, AddressingMode::Absolute, r),
        0x0d => rel_ora(pre, post, AddressingMode::Absolute, r),
        0x0e => rel_asl(pre, post, AddressingMode::Absolute, r),
        0x0f => rel_slo(pre, post, AddressingMode::Absolute, r),
        0x10 => rel_bpl(pre, post, r),
        0x11 => rel_ora(pre, post, AddressingMode::IndirectY, r),
        0x13 => rel_slo(pre, post, AddressingMode::IndirectY, r),
        0x14 | 0x34 | 0x54 | 0x74 | 0xd4 | 0xf4 => rel_nop_read(pre, post, AddressingMode::ZeroPageX, r),
        0x15 => rel_ora(pre, post, AddressingMode::ZeroPageX, r),
        0x16 => rel_asl(pre, post, AddressingMode::ZeroPageX, r),
        0x17 => rel_slo(pre, post, AddressingMode::ZeroPageX, r),
        0x18 => rel_clc(pre, post) && r is Ok,
        0x19 => rel_ora(pre, post, AddressingMode::AbsoluteY, r),
        0x1b => rel_slo(pre, post, AddressingMode::AbsoluteY, r),
        0x1c | 0x3c | 0x5c | 0x7c | 0xdc | 0xfc => rel_nop_read(pre, post, AddressingMode::AbsoluteX, r),
        0x1d => rel_ora(pre, post, AddressingMode::AbsoluteX, r),
        0x1e => rel_asl(pre, post, AddressingMode::AbsoluteX, r),
        0x1f => rel_slo(pre, post, AddressingMode::AbsoluteX, r),
        0x20 => rel_jsr(pre, post, r),
        0x21 => rel_and(pre, post, AddressingMode::IndirectX, r),
        0x23 => rel_rla(pre, post, AddressingMode::IndirectX, r),
        0x24 => rel_bit(pre, post, AddressingMode::ZeroPage, r),
        0x25 => rel_and(pre, post, AddressingMode::ZeroPage, r),
        0x26 => rel_rol(pre, post, AddressingMode::ZeroPage, r),
        0x27 => rel_rla(pre, post, AddressingMode::ZeroPage, r),
        0x28 => rel_plp(pre, post) && r is Ok,
        0x29 => rel_and(pre, post, AddressingMode::Immediate, r),
        0x2a => rel_rol(pre, post, AddressingMode::Accumulator, r),
        0x2c => rel_bit(pre, post, AddressingMode::Absolute, r),
        0x2d => rel_and(pre, post, AddressingMode::Absolute, r),
        0x2e => rel_rol(pre, post, AddressingMode::Absolute, r),
        0x2f => rel_rla(pre, post, AddressingMode::Absolute, r),
        0x30 => rel_bmi(pre, post, r),
        0x31 => rel_and(pre, post, AddressingMode::IndirectY, r),
        0x33 => rel_rla(pre, post, AddressingMode::IndirectY, r),
        0x35 => rel_and(pre, post, AddressingMode::ZeroPageX, r),
        0x36 => rel_rol(pre, post, AddressingMode::ZeroPageX, r),
        0x37 => rel_rla(pre, post, AddressingMode::ZeroPageX, r),
        0x38 => rel_sec(pre, post) && r is Ok,
        0x39 => rel_and(pre, post, AddressingMode::AbsoluteY, r),
        0x3b => rel_rla(pre, post, AddressingMode::AbsoluteY, r),
        0x3d => rel_and(pre, post, AddressingMode::AbsoluteX, r),
        0x3e => rel_rol(pre, post, AddressingMode::AbsoluteX, r),
        0x3f => rel_rla(pre, post, AddressingMode::AbsoluteX, r),
        0x40 => rel_rti(pre, post) && r is Ok,
        0x41 => rel_eor(pre, post, AddressingMode::IndirectX, r),
        0x43 => rel_sre(pre, post, AddressingMode::IndirectX, r),
        0x45 => rel_eor(pre, post, AddressingMode::ZeroPage, r),
        0x46 => rel_lsr(pre, post, AddressingMode::ZeroPage, r),
        0x47 => rel_sre(pre, post, AddressingMode::ZeroPage, r),
        0x48 => rel_pha(pre, post) && r is Ok,
        0x49 => rel_eor(pre, post, AddressingMode::Immediate, r),
        0x4a => rel_lsr(pre, post, AddressingMode::Accumulator, r),
        0x4b => rel_alr(pre, post, AddressingMode::Immediate, r),
        0x4c => rel_jmp(pre, post, AddressingMode::Absolute, r),
        0x4d => rel_eor(pre, post, AddressingMode::Absolute, r),
        0x4e => rel_lsr(pre, post, AddressingMode::Absolute, r),
        0x4f => rel_sre(pre, post, AddressingMode::Absolute, r),
        0x50 => rel_bvc(pre, post, r),
        0x51 => rel_eor(pre, post, AddressingMode::IndirectY, r),
        0x53 => rel_sre(pre, post, AddressingMode::IndirectY, r),
        0x55 => rel_eor(pre, post, AddressingMode::ZeroPageX, r),
        0x56 => rel_lsr(pre, post, AddressingMode::ZeroPageX, r),
        0x57 => rel_sre(pre, post, AddressingMode::ZeroPageX, r),
        0x58 => rel_cli(pre, post) && r is Ok,
        0x59 => rel_eor(pre, post, AddressingMode::AbsoluteY, r),
        0x5b => rel_sre(pre, post, AddressingMode::AbsoluteY, r),
        0x5d => rel_eor(pre, post, AddressingMode::AbsoluteX, r),
        0x5e => rel_lsr(pre, post, AddressingMode::AbsoluteX, r),
        0x5f => rel_sre(pre, post, AddressingMode::AbsoluteX, r),
        0x60 => rel_rts(pre, post) && r is Ok,
        0x61 => rel_adc(pre, post, AddressingMode::IndirectX, r),
        0x63 => rel_rra(pre, post, AddressingMode::IndirectX, r),
        0x65 => rel_adc(pre, post, AddressingMode::ZeroPage, r),
        0x66 => rel_ror(pre, post, AddressingMode::ZeroPage, r),
        0x67 => rel_rra(pre, post, AddressingMode::ZeroPage, r),
        0x68 => rel_pla(pre, post) && r is Ok,
        0x69 => rel_adc(pre, post, AddressingMode::Immediate, r),
        0x6a => rel_ror(pre, post, AddressingMode::Accumulator, r),
        0x6b => rel_arr(pre, post, AddressingMode::Immediate, r),
        0x6c => rel_jmp(pre, post, AddressingMode::NoneAddressing, r),
        0x6d => rel_adc(pre, post, AddressingMode::Absolute, r),
        0x6e => rel_ror(pre, post, AddressingMode::Absolute, r),
        0x6f => rel_rra(pre, post, AddressingMode::Absolute, r),
        0x70 => rel_bvs(pre, post, r),
        0x71 => rel_adc(pre, post, AddressingMode::IndirectY, r),
        0x73 => rel_rra(pre, post, AddressingMode::IndirectY, r),
        0x75 => rel_adc(pre, post, AddressingMode::ZeroPageX, r),
        0x76 => rel_ror(pre, post, AddressingMode::ZeroPageX, r),
        0x77 => rel_rra(pre, post, AddressingMode::ZeroPageX, r),
        0x78 => rel_sei(pre, post) && r is Ok,
        0x79 => rel_adc(pre, post, AddressingMode::AbsoluteY, r),
        0x7b => rel_rra(pre, post, AddressingMode::AbsoluteY, r),
        0x7d => rel_adc(pre, post, AddressingMode::AbsoluteX, r),
        0x7e => rel_ror(pre, post, AddressingMode::AbsoluteX, r),
        0x7f => rel_rra(pre, post, AddressingMode::AbsoluteX, r),
        0x81 => rel_sta(pre, post, AddressingMode::IndirectX, r),
        0x83 => rel_sax(pre, post, AddressingMode::IndirectX, r),
        0x84 => rel_sty(pre, post, AddressingMode::ZeroPage, r),
        0x85 => rel_sta(pre, post, AddressingMode::ZeroPage, r),
        0x86 => rel_stx(pre, post, AddressingMode::ZeroPage, r),
        0x87 => rel_sax(pre, post, AddressingMode::ZeroPage, r),
        0x88 => rel_dey(pre, post) && r is Ok,
        0x8a => rel_txa(pre, post) && r is Ok,
        0x8b => rel_xaa(pre, post, AddressingMode::Immediate, r),
        0x8c => rel_sty(pre, post, AddressingMode::Absolute, r),
        0x8d => rel_sta(pre, post, AddressingMode::Absolute, r),
        0x8e => rel_stx(pre, post, AddressingMode::Absolute, r),
        0x8f => rel_sax(pre, post, AddressingMode::Absolute, r),
        0x90 => rel_bcc(pre, post, r),
        0x91 => rel_sta(pre, post, AddressingMode::IndirectY, r),
        0x93 => rel_ahx(pre, post, AddressingMode::IndirectY, r),
        0x94 => rel_sty(pre, post, AddressingMode::ZeroPageX, r),
        0x95 => rel_sta(pre, post, AddressingMode::ZeroPageX, r),
        0x96 => rel_stx(pre, post, AddressingMode::ZeroPageY, r),
        0x97 => rel_sax(pre, post, AddressingMode::ZeroPageY, r),
        0x98 => rel_tya(pre, post) && r is Ok,
        0x99 => rel_sta(pre, post, AddressingMode::AbsoluteY, r),
        0x9a => rel_txs(pre, post) && r is Ok,
        0x9b => rel_tas(pre, post, AddressingMode::AbsoluteY, r),
        0x9c => rel_shy(pre, post, AddressingMode::AbsoluteX, r),
        0x9d => rel_sta(pre, post, AddressingMode::AbsoluteX, r),
        0x9e => rel_shx(pre, post, AddressingMode::AbsoluteY, r),
        0x9f => rel_ahx(pre, post, AddressingMode::AbsoluteY, r),
        0xa0 => rel_ldy(pre, post, AddressingMode::Immediate, r),
        0xa1 => rel_lda(pre, post, AddressingMode::IndirectX, r),
        0xa2 => rel_ldx(pre, post, AddressingMode::Immediate, r),
        0xa3 => rel_lax(pre, post, AddressingMode::IndirectX, r),
        0xa4 => rel_ldy(pre, post, AddressingMode::ZeroPage, r),
        0xa5 => rel_lda(pre, post, AddressingMode::ZeroPage, r),
        0xa6 => rel_ldx(pre, post, AddressingMode::ZeroPage, r),
        0xa7 => rel_lax(pre, post, AddressingMode::ZeroPage, r),
        0xa8 => rel_tay(pre, post) && r is Ok,
        0xa9 => rel_lda(pre, post, AddressingMode::Immediate, r),
        0xaa => rel_tax(pre, post) && r is Ok,
        0xab => rel_lxa(pre, post, AddressingMode::Immediate, r),
        0xac => rel_ldy(pre, post, AddressingMode::Absolute, r),
        0xad => rel_lda(pre, post, AddressingMode::Absolute, r),
        0xae => rel_ldx(pre, post, AddressingMode::Absolute, r),
        0xaf => rel_lax(pre, post, AddressingMode::Absolute, r),
        0xb0 => rel_bcs(pre, post, r),
        0xb1 => rel_lda(pre, post, AddressingMode::IndirectY, r),
        0xb3 => rel_lax(pre, post, AddressingMode::IndirectY, r),
        0xb4 => rel_ldy(pre, post, AddressingMode::ZeroPageX, r),
        0xb5 => rel_lda(pre, post, AddressingMode::ZeroPageX, r),
        0xb6 => rel_ldx(pre, post, AddressingMode::ZeroPageY, r),
        0xb7 => rel_lax(pre, post, AddressingMode::ZeroPageY, r),
        0xb8 => rel_clv(pre, post) && r is Ok,
        0xb9 => rel_lda(pre, post, AddressingMode::AbsoluteY, r),
        0xba => rel_tsx(pre, post) && r is Ok,
        0xbb => rel_las(pre, post, AddressingMode::AbsoluteY, r),
        0xbc => rel_ldy(pre, post, AddressingMode::AbsoluteX, r),
        0xbd => rel_lda(pre, post, AddressingMode::AbsoluteX, r),
        0xbe => rel_ldx(pre, post, AddressingMode::AbsoluteY, r),
        0xbf => rel_lax(pre, post, AddressingMode::AbsoluteY, r),
        0xc0 => rel_cpy(pre, post, AddressingMode::Immediate, r),
        0xc1 => rel_cmp(pre, post, AddressingMode::IndirectX, r),
        0xc3 => rel_dcp(pre, post, AddressingMode::IndirectX, r),
        0xc4 => rel_cpy(pre, post, AddressingMode::ZeroPage, r),
        0xc5 => rel_cmp(pre, post, AddressingMode::ZeroPage, r),
        0xc6 => rel_dec(pre, post, AddressingMode::ZeroPage, r),
        0xc7 => rel_dcp(pre, post, AddressingMode::ZeroPage, r),
        0xc8 => rel_iny(pre, post) && r is Ok,
        0xc9 => rel_cmp(pre, post, AddressingMode::Immediate, r),
        0xca => rel_dex(pre, post) && r is Ok,
        0xcb => rel_axs(pre, post, AddressingMode::Immediate, r),
        0xcc => rel_cpy(pre, post, AddressingMode::Absolute, r),
        0xcd => rel_cmp(pre, post, AddressingMode::Absolute, r),
        0xce => rel_dec(pre, post, AddressingMode::Absolute, r),
        0xcf => rel_dcp(pre, post, AddressingMode::Absolute, r),
        0xd0 => rel_bne(pre, post, r),
        0xd1 => rel_cmp(pre, post, AddressingMode::IndirectY, r),
        0xd3 => rel_dcp(pre, post, AddressingMode::IndirectY, r),
        0xd5 => rel_cmp(pre, post, AddressingMode::ZeroPageX, r),
        0xd6 => rel_dec(pre, post, AddressingMode::ZeroPageX, r),
        0xd7 => rel_dcp(pre, post, AddressingMode::ZeroPageX, r),
        0xd8 => rel_cld(pre, post) && r is Ok,
        0xd9 => rel_cmp(pre, post, AddressingMode::AbsoluteY, r),
        0xdb => rel_dcp(pre, post, AddressingMode::AbsoluteY, r),
        0xdd => rel_cmp(pre, post, AddressingMode::AbsoluteX, r),
        0xde => rel_dec(pre, post, AddressingMode::AbsoluteX, r),
        0xdf => rel_dcp(pre, post, AddressingMode::AbsoluteX, r),
        0xe0 => rel_cpx(pre, post, AddressingMode::Immediate, r),
        0xe1 => rel_sbc(pre, post, AddressingMode::IndirectX, r),
        0xe3 => rel_isb(pre, post, AddressingMode::IndirectX, r),
        0xe4 => rel_cpx(pre, post, AddressingMode::ZeroPage, r),
        0xe5 => rel_sbc(pre, post, AddressingMode::ZeroPage, r),
        0xe6 => rel_inc(pre, post, AddressingMode::ZeroPage, r),
        0xe7 => rel_isb(pre, post, AddressingMode::ZeroPage, r),
        0xe8 => rel_inx(pre, post) && r is Ok,
        0xe9 | 0xeb => rel_sbc(pre, post, AddressingMode::Immediate, r),
        0xec => rel_cpx(pre, post, AddressingMode::Absolute, r),
        0xed => rel_sbc(pre, post, AddressingMode::Absolute, r),
        0xee => rel_inc(pre, post, AddressingMode::Absolute, r),
        0xef => rel_isb(pre, post, AddressingMode::Absolute, r),
        0xf0 => rel_beq(pre, post, r),
        0xf1 => rel_sbc(pre, post, AddressingMode::IndirectY, r),
        0xf3 => rel_isb(pre, post, AddressingMode::IndirectY, r),
        0xf5 => rel_sbc(pre, post, AddressingMode::ZeroPageX, r),
        0xf6 => rel_inc(pre, post, AddressingMode::ZeroPageX, r),
        0xf7 => rel_isb(pre, post, AddressingMode::ZeroPageX, r),
        0xf8 => rel_sed(pre, post) && r is Ok,
        0xf9 => rel_sbc(pre, post, AddressingMode::AbsoluteY, r),
        0xfb => rel_isb(pre, post, AddressingMode::AbsoluteY, r),
        0xfd => rel_sbc(pre, post, AddressingMode::AbsoluteX, r),
        0xfe => rel_inc(pre, post, AddressingMode::AbsoluteX, r),
        _ => rel_isb(pre, post, AddressingMode::AbsoluteX, r),
    }
}

// ---------------------------------------------------------------------------
// Interrupts, reset, load, and the run loop.
// ---------------------------------------------------------------------------

impl CPU {
    /// Deliver an interrupt: push the program counter and the status (with
    /// the B flags as the descriptor says), set the interrupt-disable flag,
    /// pay the cycles, and jump through the vector.
    fn interrupt(&mut self, interrupt: Interrupt)
        requires
            old(self).wf(),
            0x8000 <= interrupt.vector_addr < 0xffff,
            interrupt.cpu_cycles <= 85,
        ensures
            final(self).wf(),
            ({
                let b1 = spec_push16_bus(
                    old(self).bus@,
                    old(self).stack_pointer,
                    old(self).program_counter,
                );
                let pushed = spec_set_mask(
                    spec_set_mask(old(self).status, BREAK, interrupt.b_flag_mask & 0x10 != 0),
                    BREAK2,
                    interrupt.b_flag_mask & 0x20 != 0,
                );
                let sp2 = wrap_dec8(wrap_dec8(old(self).stack_pointer));
                let b2 = spec_write_bus(b1, (0x100 + sp2) as u16, pushed);
                let b3 = spec_bus_tick(b2, interrupt.cpu_cycles);
                &&& final(self).bus@ == spec_read16_bus(b3, interrupt.vector_addr)
                &&& cpu_regs(
                    *final(self),
                    old(self).register_a,
                    old(self).register_x,
                    old(self).register_y,
                    wrap_dec8(sp2),
                    old(self).status | INTERRUPT_DISABLE,
                    spec_read16_val(b3, interrupt.vector_addr),
                )
            }),
    {
        let pc = self.program_counter;
        self.stack_push_u16(pc);

        let mut pushed = self.status;
        if interrupt.b_flag_mask & 0x10 != 0 {
            pushed = pushed | BREAK;
        } else {
            pushed = pushed & !BREAK;
        }
        if interrupt.b_flag_mask & 0x20 != 0 {
            pushed = pushed | BREAK2;
        } else {
            pushed = pushed & !BREAK2;
        }
        self.stack_push_u8(pushed);
        self.status = self.status | INTERRUPT_DISABLE;

        self.bus.tick(interrupt.cpu_cycles);
        let vector = interrupt.vector_addr;
        let target = match self.u16_mem_read(vector) {
            Ok(v) => v,
            Err(e) => {
                proof {
                    assert(false);
                }
                0
            },
        };
        self.program_counter = target;
    }

    /// Clear the registers, restore the power-on status, and jump through
    /// the reset vector at `0xFFFC`.
    pub fn reset(&mut self)
        requires
            old(self).wf(),
        ensures
            final(self).wf(),
            final(self).bus@ == old(self).bus@,
            cpu_regs(
                *final(self),
                0,
                0,
                0,
                STACK_START,
                0b10_0100,
                spec_read16_val(old(self).bus@, 0xfffc),
            ),
    {
        self.register_a = 0;
        self.register_x = 0;
        self.register_y = 0;
        self.status = 0b10_0100;
        self.stack_pointer = STACK_START;
        let target = match self.u16_mem_read(0xfffc) {
            Ok(v) => v,
            Err(e) => {
                proof {
                    assert(false);
                }
                0
            },
        };
        self.program_counter = target;
    }

    /// Copy a program image into RAM starting at `PROGRAM_START`, then try
    /// to install the reset vector. On this bus the vector lives in PRG
    /// ROM, so that final write is refused and reported; the image itself
    /// is in place.
    pub fn load(&mut self, program: Vec<u8>) -> (r: Result<(), EmuError>)
        requires
            old(self).wf(),
            program@.len() <= 0x1a00,
        ensures
            final(self).wf(),
            same_regs(*old(self), *final(self)),
            r == Err::<(), EmuError>(EmuError::WriteToRom(0xfffc)),
            final(self).bus@ == spec_load_writes(
                old(self).bus@,
                program@,
                program@.len() as int,
            ),
    {
        let ghost pre = old(self).bus@;
        let mut i: usize = 0;
        while i < program.len()
            invariant
                self.wf(),
                same_regs(*old(self), *self),
                program@.len() <= 0x1a00,
                i <= program@.len(),
                self.bus@ == spec_load_writes(pre, program@, i as int),
            decreases program@.len() - i,
        {
            let addr = PROGRAM_START + i as u16;
            let r = self.mem_write(addr, program[i]);
            proof {
                assert(spec_reg_addr((0x600 + i) as u16) == (0x600 + i) as u16);
                assert(r is Ok);
            }
            i = i + 1;
        }
        match self.u16_mem_write(0xfffc, PROGRAM_START) {
            Ok(u) => {
                proof {
                    assert(false);
                }
                Ok(())
            },
            Err(e) => Err(e),
        }
    }

    /// Copy the image into RAM and try to start it. On this bus the reset
    /// vector lives in PRG ROM, so `load` reports the refused vector write
    /// and the run never begins; the image itself is in RAM.
    pub fn load_and_run(&mut self, program: Vec<u8>) -> (r: Result<(), EmuError>)
        requires
            old(self).wf(),
            program@.len() <= 0x1a00,
        ensures
            final(self).wf(),
            r == Err::<(), EmuError>(EmuError::WriteToRom(0xfffc)),
            same_regs(*old(self), *final(self)),
            final(self).bus@ == spec_load_writes(old(self).bus@, program@, program@.len() as int),
    {
        match self.load(program) {
            Ok(u) => (),
            Err(e) => {
                return Err(e);
            },
        }
        self.reset();
        self.run()
    }

    #[allow(dead_code)]
    fn load_and_run_no_reset(&mut self, program: Vec<u8>) -> (r: Result<(), EmuError>)
        requires
            old(self).wf(),
            program@.len() <= 0x1a00,
        ensures
            final(self).wf(),
            r == Err::<(), EmuError>(EmuError::WriteToRom(0xfffc)),
            same_regs(*old(self), *final(self)),
            final(self).bus@ == spec_load_writes(old(self).bus@, program@, program@.len() as int),
    {
        match self.load(program) {
            Ok(u) => (),
            Err(e) => {
                return Err(e);
            },
        }
        self.program_counter = PROGRAM_START;
        self.run()
    }

    /// Execute the instruction for one opcode byte.
    #[verifier::rlimit(100)]
    fn dispatch_opcode(&mut self, code: u8) -> (r: Result<(), EmuError>)
        requires
            old(self).wf(),
        ensures
            final(self).wf(),
            spec_dispatch_rel(*old(self), *final(self), code, r),
    {
        proof {
            reveal(spec_dispatch_rel);
        }
        match code {
            0x00 => {
                self.brk();
                Ok(())
            },
            0x01 => self.ora(&AddressingMode::IndirectX),
            0x02 | 0x12 | 0x1a | 0x22 | 0x32 | 0x3a | 0x42 | 0x52 | 0x5a | 0x62 | 0x72 | 0x7a | 0x80 | 0x82 | 0x89 | 0x92 | 0xb2 | 0xc2 | 0xd2 | 0xda | 0xe2 | 0xea | 0xf2 | 0xfa => {
                self.nop();
                Ok(())
            },
            0x03 => self.slo(&AddressingMode::IndirectX),
            0x04 | 0x44 | 0x64 => self.nop_read(&AddressingMode::ZeroPage),
            0x05 => self.ora(&AddressingMode::ZeroPage),
            0x06 => self.asl(&AddressingMode::ZeroPage),
            0x07 => self.slo(&AddressingMode::ZeroPage),
            0x08 => {
                self.php();
                Ok(())
            },
            0x09 => self.ora(&AddressingMode::Immediate),
            0x0a => self.asl(&AddressingMode::Accumulator),
            0x0b | 0x2b => self.anc(&AddressingMode::Immediate),
            0x0c => self.nop_read(&AddressingMode::Absolute),
            0x0d => self.ora(&AddressingMode::Absolute),
            0x0e => self.asl(&AddressingMode::Absolute),
            0x0f => self.slo(&AddressingMode::Absolute),
            0x10 => self.bpl(),
            0x11 => self.ora(&AddressingMode::IndirectY),
            0x13 => self.slo(&AddressingMode::IndirectY),
            0x14 | 0x34 | 0x54 | 0x74 | 0xd4 | 0xf4 => self.nop_read(&AddressingMode::ZeroPageX),
            0x15 => self.ora(&AddressingMode::ZeroPageX),
            0x16 => self.asl(&AddressingMode::ZeroPageX),
            0x17 => self.slo(&AddressingMode::ZeroPageX),
            0x18 => {
                self.clc();
                Ok(())
            },
            0x19 => self.ora(&AddressingMode::AbsoluteY),
            0x1b => self.slo(&AddressingMode::AbsoluteY),
            0x1c | 0x3c | 0x5c | 0x7c | 0xdc | 0xfc => self.nop_read(&AddressingMode::AbsoluteX),
            0x1d => self.ora(&AddressingMode::AbsoluteX),
            0x1e => self.asl(&AddressingMode::AbsoluteX),
            0x1f => self.slo(&AddressingMode::AbsoluteX),
            0x20 => self.jsr(),
            0x21 => self.and(&AddressingMode::IndirectX),
            0x23 => self.rla(&AddressingMode::IndirectX),
            0x24 => self.bit(&AddressingMode::ZeroPage),
            0x25 => self.and(&AddressingMode::ZeroPage),
            0x26 => self.rol(&AddressingMode::ZeroPage),
            0x27 => self.rla(&AddressingMode::ZeroPage),
            0x28 => {
                self.plp();
                Ok(())
            },
            0x29 => self.and(&AddressingMode::Immediate),
            0x2a => self.rol(&AddressingMode::Accumulator),
            0x2c => self.bit(&AddressingMode::Absolute),
            0x2d => self.and(&AddressingMode::Absolute),
            0x2e => self.rol(&AddressingMode::Absolute),
            0x2f => self.rla(&AddressingMode::Absolute),
            0x30 => self.bmi(),
            0x31 => self.and(&AddressingMode::IndirectY),
            0x33 => self.rla(&AddressingMode::IndirectY),
            0x35 => self.and(&AddressingMode::ZeroPageX),
            0x36 => self.rol(&AddressingMode::ZeroPageX),
            0x37 => self.rla(&AddressingMode::ZeroPageX),
            0x38 => {
                self.sec();
                Ok(())
            },
            0x39 => self.and(&AddressingMode::AbsoluteY),
            0x3b => self.rla(&AddressingMode::AbsoluteY),
            0x3d => self.and(&AddressingMode::AbsoluteX),
            0x3e => self.rol(&AddressingMode::AbsoluteX),
            0x3f => self.rla(&AddressingMode::AbsoluteX),
            0x40 => {
                self.rti();
                Ok(())
            },
            0x41 => self.eor(&AddressingMode::IndirectX),
            0x43 => self.sre(&AddressingMode::IndirectX),
            0x45 => self.eor(&AddressingMode::ZeroPage),
            0x46 => self.lsr(&AddressingMode::ZeroPage),
            0x47 => self.sre(&AddressingMode::ZeroPage),
            0x48 => {
                self.pha();
                Ok(())
            },
            0x49 => self.eor(&AddressingMode::Immediate),
            0x4a => self.lsr(&AddressingMode::Accumulator),
            0x4b => self.alr(&AddressingMode::Immediate),
            0x4c => self.jmp(&AddressingMode::Absolute),
            0x4d => self.eor(&AddressingMode::Absolute),
            0x4e => self.lsr(&AddressingMode::Absolute),
            0x4f => self.sre(&AddressingMode::Absolute),
            0x50 => self.bvc(),
            0x51 => self.eor(&AddressingMode::IndirectY),
            0x53 => self.sre(&AddressingMode::IndirectY),
            0x55 => self.eor(&AddressingMode::ZeroPageX),
            0x56 => self.lsr(&AddressingMode::ZeroPageX),
            0x57 => self.sre(&AddressingMode::ZeroPageX),
            0x58 => {
                self.cli();
                Ok(())
            },
            0x59 => self.eor(&AddressingMode::AbsoluteY),
            0x5b => self.sre(&AddressingMode::AbsoluteY),
            0x5d => self.eor(&AddressingMode::AbsoluteX),
            0x5e => self.lsr(&AddressingMode::AbsoluteX),
            0x5f => self.sre(&AddressingMode::AbsoluteX),
            0x60 => {
                self.rts();
                Ok(())
            },
            0x61 => self.adc(&AddressingMode::IndirectX),
            0x63 => self.rra(&AddressingMode::IndirectX),
            0x65 => self.adc(&AddressingMode::ZeroPage),
            0x66 => self.ror(&AddressingMode::ZeroPage),
            0x67 => self.rra(&AddressingMode::ZeroPage),
            0x68 => {
                self.pla();
                Ok(())
            },
            0x69 => self.adc(&AddressingMode::Immediate),
            0x6a => self.ror(&AddressingMode::Accumulator),
            0x6b => self.arr(&AddressingMode::Immediate),
            0x6c => self.jmp(&AddressingMode::NoneAddressing),
            0x6d => self.adc(&AddressingMode::Absolute),
            0x6e => self.ror(&AddressingMode::Absolute),
            0x6f => self.rra(&AddressingMode::Absolute),
            0x70 => self.bvs(),
            0x71 => self.adc(&AddressingMode::IndirectY),
            0x73 => self.rra(&AddressingMode::IndirectY),
            0x75 => self.adc(&AddressingMode::ZeroPageX),
            0x76 => self.ror(&AddressingMode::ZeroPageX),
            0x77 => self.rra(&AddressingMode::ZeroPageX),
            0x78 => {
                self.sei();
                Ok(())
            },
            0x79 => self.adc(&AddressingMode::AbsoluteY),
            0x7b => self.rra(&AddressingMode::AbsoluteY),
            0x7d => self.adc(&AddressingMode::AbsoluteX),
            0x7e => self.ror(&AddressingMode::AbsoluteX),
            0x7f => self.rra(&AddressingMode::AbsoluteX),
            0x81 => self.sta(&AddressingMode::IndirectX),
            0x83 => self.sax(&AddressingMode::IndirectX),
            0x84 => self.sty(&AddressingMode::ZeroPage),
            0x85 => self.sta(&AddressingMode::ZeroPage),
            0x86 => self.stx(&AddressingMode::ZeroPage),
            0x87 => self.sax(&AddressingMode::ZeroPage),
            0x88 => {
                self.dey();
                Ok(())
            },
            0x8a => {
                self.txa();
                Ok(())
            },
            0x8b => self.xaa(&AddressingMode::Immediate),
            0x8c => self.sty(&AddressingMode::Absolute),
            0x8d => self.sta(&AddressingMode::Absolute),
            0x8e => self.stx(&AddressingMode::Absolute),
            0x8f => self.sax(&AddressingMode::Absolute),
            0x90 => self.bcc(),
            0x91 => self.sta(&AddressingMode::IndirectY),
            0x93 => self.ahx(&AddressingMode::IndirectY),
            0x94 => self.sty(&AddressingMode::ZeroPageX),
            0x95 => self.sta(&AddressingMode::ZeroPageX),
            0x96 => self.stx(&AddressingMode::ZeroPageY),
            0x97 => self.sax(&AddressingMode::ZeroPageY),
            0x98 => {
                self.tya();
                Ok(())
            },
            0x99 => self.sta(&AddressingMode::AbsoluteY),
            0x9a => {
                self.txs();
                Ok(())
            },
            0x9b => self.tas(&AddressingMode::AbsoluteY),
            0x9c => self.shy(&AddressingMode::AbsoluteX),
            0x9d => self.sta(&AddressingMode::AbsoluteX),
            0x9e => self.shx(&AddressingMode::AbsoluteY),
            0x9f => self.ahx(&AddressingMode::AbsoluteY),
            0xa0 => self.ldy(&AddressingMode::Immediate),
            0xa1 => self.lda(&AddressingMode::IndirectX),
            0xa2 => self.ldx(&AddressingMode::Immediate),
            0xa3 => self.lax(&AddressingMode::IndirectX),
            0xa4 => self.ldy(&AddressingMode::ZeroPage),
            0xa5 => self.lda(&AddressingMode::ZeroPage),
            0xa6 => self.ldx(&AddressingMode::ZeroPage),
            0xa7 => self.lax(&AddressingMode::ZeroPage),
            0xa8 => {
                self.tay();
                Ok(())
            },
            0xa9 => self.lda(&AddressingMode::Immediate),
            0xaa => {
                self.tax();
                Ok(())
            },
            0xab => self.lxa(&AddressingMode::Immediate),
            0xac => self.ldy(&AddressingMode::Absolute),
            0xad => self.lda(&AddressingMode::Absolute),
            0xae => self.ldx(&AddressingMode::Absolute),
            0xaf => self.lax(&AddressingMode::Absolute),
            0xb0 => self.bcs(),
            0xb1 => self.lda(&AddressingMode::IndirectY),
            0xb3 => self.lax(&AddressingMode::IndirectY),
            0xb4 => self.ldy(&AddressingMode::ZeroPageX),
            0xb5 => self.lda(&AddressingMode::ZeroPageX),
            0xb6 => self.ldx(&AddressingMode::ZeroPageY),
            0xb7 => self.lax(&AddressingMode::ZeroPageY),
            0xb8 => {
                self.clv();
                Ok(())
            },
            0xb9 => self.lda(&AddressingMode::AbsoluteY),
            0xba => {
                self.tsx();
                Ok(())
            },
            0xbb => self.las(&AddressingMode::AbsoluteY),
            0xbc => self.ldy(&AddressingMode::AbsoluteX),
            0xbd => self.lda(&AddressingMode::AbsoluteX),
            0xbe => self.ldx(&AddressingMode::AbsoluteY),
            0xbf => self.lax(&AddressingMode::AbsoluteY),
            0xc0 => self.cpy(&AddressingMode::Immediate),
            0xc1 => self.cmp(&AddressingMode::IndirectX),
            0xc3 => self.dcp(&AddressingMode::IndirectX),
            0xc4 => self.cpy(&AddressingMode::ZeroPage),
            0xc5 => self.cmp(&AddressingMode::ZeroPage),
            0xc6 => self.dec(&AddressingMode::ZeroPage),
            0xc7 => self.dcp(&AddressingMode::ZeroPage),
            0xc8 => {
                self.iny();
                Ok(())
            },
            0xc9 => self.cmp(&AddressingMode::Immediate),
            0xca => {
                self.dex();
                Ok(())
            },
            0xcb => self.axs(&AddressingMode::Immediate),
            0xcc => self.cpy(&AddressingMode::Absolute),
            0xcd => self.cmp(&AddressingMode::Absolute),
            0xce => self.dec(&AddressingMode::Absolute),
            0xcf => self.dcp(&AddressingMode::Absolute),
            0xd0 => self.bne(),
            0xd1 => self.cmp(&AddressingMode::IndirectY),
            0xd3 => self.dcp(&AddressingMode::IndirectY),
            0xd5 => self.cmp(&AddressingMode::ZeroPageX),
            0xd6 => self.dec(&AddressingMode::ZeroPageX),
            0xd7 => self.dcp(&AddressingMode::ZeroPageX),
            0xd8 => {
                self.cld();
                Ok(())
            },
            0xd9 => self.cmp(&AddressingMode::AbsoluteY),
            0xdb => self.dcp(&AddressingMode::AbsoluteY),
            0xdd => self.cmp(&AddressingMode::AbsoluteX),
            0xde => self.dec(&AddressingMode::AbsoluteX),
            0xdf => self.dcp(&AddressingMode::AbsoluteX),
            0xe0 => self.cpx(&AddressingMode::Immediate),
            0xe1 => self.sbc(&AddressingMode::IndirectX),
            0xe3 => self.isb(&AddressingMode::IndirectX),
            0xe4 => self.cpx(&AddressingMode::ZeroPage),
            0xe5 => self.sbc(&AddressingMode::ZeroPage),
            0xe6 => self.inc(&AddressingMode::ZeroPage),
            0xe7 => self.isb(&AddressingMode::ZeroPage),
            0xe8 => {
                self.inx();
                Ok(())
            },
            0xe9 | 0xeb => self.sbc(&AddressingMode::Immediate),
            0xec => self.cpx(&AddressingMode::Absolute),
            0xed => self.sbc(&AddressingMode::Absolute),
            0xee => self.inc(&AddressingMode::Absolute),
            0xef => self.isb(&AddressingMode::Absolute),
            0xf0 => self.beq(),
            0xf1 => self.sbc(&AddressingMode::IndirectY),
            0xf3 => self.isb(&AddressingMode::IndirectY),
            0xf5 => self.sbc(&AddressingMode::ZeroPageX),
            0xf6 => self.inc(&AddressingMode::ZeroPageX),
            0xf7 => self.isb(&AddressingMode::ZeroPageX),
            0xf8 => {
                self.sed();
                Ok(())
            },
            0xf9 => self.sbc(&AddressingMode::AbsoluteY),
            0xfb => self.isb(&AddressingMode::AbsoluteY),
            0xfd => self.sbc(&AddressingMode::AbsoluteX),
            0xfe => self.inc(&AddressingMode::AbsoluteX),
            0xff => self.isb(&AddressingMode::AbsoluteX),
        }
    }

    /// Run until BRK raises the BREAK flag, an address-space error aborts
    /// execution, or the instruction budget runs out. The whole run is an
    /// instance of [`spec_run_rel`]: each iteration drains and services a
    /// pending NMI, calls the hook's step method, fetches and dispatches
    /// the opcode at the program counter, clocks the bus by the opcode's
    /// base cycles, advances past the operand, and fires the hook's frame
    /// method exactly when the clocking crossed a frame boundary (the one
    /// point where the joypad may change). The loop returns `Ok` exactly
    /// when a dispatched handler leaves BREAK set
    /// ([`lemma_run_ok_means_break`] states the converse direction).
    #[verifier::rlimit(100)]
    pub fn run_with_callback<H: RunHook>(&mut self, hook: &mut H) -> (r: Result<(), EmuError>)
        requires
            old(self).wf(),
        ensures
            final(self).wf(),
            exists|fuel: nat| #[trigger] spec_run_rel(*old(self), *final(self), fuel, r),
            r is Ok ==> flag(final(self).status, BREAK),
    {
        let ghost orig: CPU = *self;
        let mut fuel: u64 = u64::MAX;
        loop
            invariant
                self.wf(),
                orig == *old(self),
                forall|post: CPU, r2: Result<(), EmuError>|
                    #[trigger] spec_run_rel(*self, post, fuel as nat, r2) ==> spec_run_rel(
                        orig,
                        post,
                        u64::MAX as nat,
                        r2,
                    ),
            decreases fuel,
        {
            let ghost iter_pre: CPU = *self;
            let ghost f0: nat = fuel as nat;
            if fuel == 0 {
                proof {
                    assert(spec_run_rel(iter_pre, *self, f0, Err(EmuError::CycleLimit)));
                    assert(spec_run_rel(orig, *self, u64::MAX as nat, Err(EmuError::CycleLimit)));
                }
                return Err(EmuError::CycleLimit);
            }
            fuel = fuel - 1;

            match self.bus.poll_nmi_status() {
                Some(_nmi) => {
                    let descriptor = nmi_interrupt();
                    self.interrupt(descriptor);
                    proof {
                        assert(0b0010_0000u8 & 0x10u8 == 0u8) by (bit_vector);
                        assert(0b0010_0000u8 & 0x20u8 == 0x20u8) by (bit_vector);
                    }
                },
                None => {
                    proof {
                        assert(self.bus@.ppu =~= iter_pre.bus@.ppu);
                        assert(self.bus@ =~= iter_pre.bus@);
                    }
                },
            }
            let ghost c1: CPU = *self;
            proof {
                assert(spec_nmi_rel(iter_pre, c1));
            }

            hook.on_step(self);

            let pc = self.program_counter;
            let code = match self.mem_read(pc) {
                Ok(v) => v,
                Err(e) => {
                    proof {
                        reveal(spec_iter_rel);
                        assert(spec_exec_rel(c1, *self, Err(e)));
                        assert(spec_iter_rel(iter_pre, *self, Err(e)));
                        assert(spec_run_rel(iter_pre, *self, f0, Err(e)));
                        assert(spec_run_rel(orig, *self, u64::MAX as nat, Err(e)));
                    }
                    return Err(e);
                },
            };
            self.program_counter = self.program_counter.wrapping_add(1);
            let original_pc = self.program_counter;
            let ghost c2: CPU = *self;

            let op = crate::opcodes::opcode_entry(code);

            match self.dispatch_opcode(code) {
                Ok(u) => (),
                Err(e) => {
                    proof {
                        reveal(spec_iter_rel);
                        assert(spec_dispatch_post(c2, *self, code, Err(e)));
                        assert(spec_exec_rel(c1, *self, Err(e)));
                        assert(spec_iter_rel(iter_pre, *self, Err(e)));
                        assert(spec_run_rel(iter_pre, *self, f0, Err(e)));
                        assert(spec_run_rel(orig, *self, u64::MAX as nat, Err(e)));
                    }
                    return Err(e);
                },
            }

            if self.status & BREAK != 0 {
                proof {
                    reveal(spec_iter_rel);
                    assert(flag(self.status, BREAK));
                    assert(spec_dispatch_post(c2, *self, code, Ok(true)));
                    assert(spec_exec_rel(c1, *self, Ok(true)));
                    assert(spec_iter_rel(iter_pre, *self, Ok(true)));
                    assert(spec_run_rel(iter_pre, *self, f0, Ok(())));
                    assert(spec_run_rel(orig, *self, u64::MAX as nat, Ok(())));
                }
                return Ok(());
            }
            let ghost c3: CPU = *self;

            self.bus.tick(op.cycles);

            if original_pc == self.program_counter {
                self.program_counter = self.program_counter.wrapping_add((op.len - 1) as u16);
            }

            if self.bus.take_frame() {
                hook.on_frame(&self.bus.ppu, &mut self.bus.joypad1);
            }

            proof {
                reveal(spec_iter_rel);
                assert(self.bus@ =~= (BusView {
                    joypad1: self.bus@.joypad1,
                    frame_pending: false,
                    ..spec_bus_tick(c3.bus@, op.cycles)
                }));
                assert(!flag(c3.status, BREAK));
                assert(op == crate::opcodes::spec_opcode_entry(code));
                assert(spec_tail_rel(c2.program_counter, crate::opcodes::spec_opcode_entry(code), c3, *self));
                assert(spec_dispatch_post(c2, *self, code, Ok(false)));
                assert(spec_exec_rel(c1, *self, Ok(false)));
                assert(spec_iter_rel(iter_pre, *self, Ok(false)));
                assert forall|post: CPU, r2: Result<(), EmuError>|
                    #[trigger] spec_run_rel(*self, post, fuel as nat, r2) implies spec_run_rel(
                    orig,
                    post,
                    u64::MAX as nat,
                    r2,
                ) by {
                    assert(spec_run_rel(iter_pre, post, f0, r2));
                };
            }
        }
    }

    /// Run without a hook: `run_with_callback` over a hook whose methods
    /// do nothing, under the same contract.
    pub fn run(&mut self) -> (r: Result<(), EmuError>)
        requires
            old(self).wf(),
        ensures
            final(self).wf(),
            exists|fuel: nat| #[trigger] spec_run_rel(*old(self), *final(self), fuel, r),
            r is Ok ==> flag(final(self).status, BREAK),
    {
        let mut hook = NullHook {  };
        self.run_with_callback(&mut hook)
    }
}

/// RAM contents after the first `n` program bytes are written at
/// `PROGRAM_START`.
pub open spec fn spec_load_writes(b: BusView, data: Seq<u8>, n: int) -> BusView
    decreases n,
{
    if n <= 0 {
        b
    } else {
        spec_write_bus(spec_load_writes(b, data, n - 1), (0x600 + n - 1) as u16, data[n - 1])
    }
}

/// What the run loop tells its host: one call before each instruction with
/// a read-only view of the CPU, and one call at each frame boundary with
/// the finished PPU state and the joypad to refill.
pub trait RunHook {
    fn on_step(&mut self, cpu: &CPU);

    fn on_frame(&mut self, ppu: &NesPPU, joypad: &mut Joypad);
}

/// A hook that does nothing, for headless runs.
pub struct NullHook {}

impl RunHook for NullHook {
    fn on_step(&mut self, _cpu: &CPU) {
    }

    fn on_frame(&mut self, _ppu: &NesPPU, _joypad: &mut Joypad) {
    }
}


// ---------------------------------------------------------------------------
// Per-instruction relations: what each handler does, stated over the
// plain-value machine model. The dispatch contract is assembled from these.
// ---------------------------------------------------------------------------

pub open spec fn rel_lda(pre: CPU, post: CPU, mode: AddressingMode, r: Result<(), EmuError>) -> bool {
    ({
                let o = spec_operand_value(
                    pre.bus@,
                    pre.register_x,
                    pre.register_y,
                    mode,
                    pre.program_counter,
                );
                &&& o.ok ==> r is Ok && cpu_regs(
                    post,
                    o.value,
                    pre.register_x,
                    pre.register_y,
                    pre.stack_pointer,
                    spec_zn(pre.status, o.value),
                    if mode is Immediate {
                        wrap_inc16(pre.program_counter)
                    } else {
                        pre.program_counter
                    },
                ) && post.bus@ == (if mode is Immediate {
                    o.bus
                } else {
                    spec_tick_if(o.bus, o.cross)
                })
                &&& !o.ok ==> r is Err
            })
}

pub open spec fn rel_ldx(pre: CPU, post: CPU, mode: AddressingMode, r: Result<(), EmuError>) -> bool {
    ({
                let o = spec_operand_value(
                    pre.bus@,
                    pre.register_x,
                    pre.register_y,
                    mode,
                    pre.program_counter,
                );
                &&& o.ok ==> r is Ok && cpu_regs(
                    post,
                    pre.register_a,
                    o.value,
                    pre.register_y,
                    pre.stack_pointer,
                    spec_zn(pre.status, o.value),
                    pre.program_counter,
                ) && post.bus@ == spec_tick_if(o.bus, o.cross)
                &&& !o.ok ==> r is Err
            })
}

pub open spec fn rel_ldy(pre: CPU, post: CPU, mode: AddressingMode, r: Result<(), EmuError>) -> bool {
    ({
                let o = spec_operand_value(
                    pre.bus@,
                    pre.register_x,
                    pre.register_y,
                    mode,
                    pre.program_counter,
                );
                &&& o.ok ==> r is Ok && cpu_regs(
                    post,
                    pre.register_a,
                    pre.register_x,
                    o.value,
                    pre.stack_pointer,
                    spec_zn(pre.status, o.value),
                    pre.program_counter,
                ) && post.bus@ == spec_tick_if(o.bus, o.cross)
                &&& !o.ok ==> r is Err
            })
}

pub open spec fn rel_and(pre: CPU, post: CPU, mode: AddressingMode, r: Result<(), EmuError>) -> bool {
    ({
                let o = spec_operand_value(
                    pre.bus@,
                    pre.register_x,
                    pre.register_y,
                    mode,
                    pre.program_counter,
                );
                &&& o.ok ==> r is Ok && cpu_regs(
                    post,
                    pre.register_a & o.value,
                    pre.register_x,
                    pre.register_y,
                    pre.stack_pointer,
                    spec_zn(pre.status, pre.register_a & o.value),
                    pre.program_counter,
                ) && post.bus@ == spec_tick_if(o.bus, o.cross)
                &&& !o.ok ==> r is Err
            })
}

pub open spec fn rel_eor(pre: CPU, post: CPU, mode: AddressingMode, r: Result<(), EmuError>) -> bool {
    ({
                let o = spec_operand_value(
                    pre.bus@,
                    pre.register_x,
                    pre.register_y,
                    mode,
                    pre.program_counter,
                );
                &&& o.ok ==> r is Ok && cpu_regs(
                    post,
                    pre.register_a ^ o.value,
                    pre.register_x,
                    pre.register_y,
                    pre.stack_pointer,
                    spec_zn(pre.status, pre.register_a ^ o.value),
                    pre.program_counter,
                ) && post.bus@ == spec_tick_if(o.bus, o.cross)
                &&& !o.ok ==> r is Err
            })
}

pub open spec fn rel_ora(pre: CPU, post: CPU, mode: AddressingMode, r: Result<(), EmuError>) -> bool {
    ({
                let o = spec_operand_value(
                    pre.bus@,
                    pre.register_x,
                    pre.register_y,
                    mode,
                    pre.program_counter,
                );
                &&& o.ok ==> r is Ok && cpu_regs(
                    post,
                    pre.register_a | o.value,
                    pre.register_x,
                    pre.register_y,
                    pre.stack_pointer,
                    spec_zn(pre.status, pre.register_a | o.value),
                    pre.program_counter,
                ) && post.bus@ == spec_tick_if(o.bus, o.cross)
                &&& !o.ok ==> r is Err
            })
}

pub open spec fn rel_adc(pre: CPU, post: CPU, mode: AddressingMode, r: Result<(), EmuError>) -> bool {
    ({
                let o = spec_operand_value(
                    pre.bus@,
                    pre.register_x,
                    pre.register_y,
                    mode,
                    pre.program_counter,
                );
                let res = spec_add_result(
                    pre.register_a,
                    o.value,
                    flag(pre.status, CARRY),
                );
                &&& o.ok ==> r is Ok && cpu_regs(
                    post,
                    res,
                    pre.register_x,
                    pre.register_y,
                    pre.stack_pointer,
                    spec_zn(spec_adc_status(pre.status, pre.register_a, o.value), res),
                    pre.program_counter,
                ) && post.bus@ == spec_tick_if(o.bus, o.cross)
                &&& !o.ok ==> r is Err
            })
}

pub open spec fn rel_sbc(pre: CPU, post: CPU, mode: AddressingMode, r: Result<(), EmuError>) -> bool {
    ({
                let o = spec_operand_value(
                    pre.bus@,
                    pre.register_x,
                    pre.register_y,
                    mode,
                    pre.program_counter,
                );
                &&& o.ok ==> r is Ok && cpu_regs(
                    post,
                    spec_add_result(pre.register_a, !o.value, flag(pre.status, CARRY)),
                    pre.register_x,
                    pre.register_y,
                    pre.stack_pointer,
                    spec_adc_status(pre.status, pre.register_a, !o.value),
                    pre.program_counter,
                ) && post.bus@ == spec_tick_if(o.bus, o.cross)
                &&& !o.ok ==> r is Err
            })
}

pub open spec fn rel_cmp(pre: CPU, post: CPU, mode: AddressingMode, r: Result<(), EmuError>) -> bool {
    ({
                let o = spec_operand_value(
                    pre.bus@,
                    pre.register_x,
                    pre.register_y,
                    mode,
                    pre.program_counter,
                );
                &&& o.ok ==> r is Ok && cpu_regs(
                    post,
                    pre.register_a,
                    pre.register_x,
                    pre.register_y,
                    pre.stack_pointer,
                    spec_compare_status(pre.status, pre.register_a, o.value),
                    pre.program_counter,
                ) && post.bus@ == spec_tick_if(o.bus, o.cross)
                &&& !o.ok ==> r is Err
            })
}

pub open spec fn rel_cpx(pre: CPU, post: CPU, mode: AddressingMode, r: Result<(), EmuError>) -> bool {
    ({
                let o = spec_operand_value(
                    pre.bus@,
                    pre.register_x,
                    pre.register_y,
                    mode,
                    pre.program_counter,
                );
                &&& o.ok ==> r is Ok && cpu_regs(
                    post,
                    pre.register_a,
                    pre.register_x,
                    pre.register_y,
                    pre.stack_pointer,
                    spec_compare_status(pre.status, pre.register_x, o.value),
                    pre.program_counter,
                ) && post.bus@ == spec_tick_if(o.bus, o.cross)
                &&& !o.ok ==> r is Err
            })
}

pub open spec fn rel_cpy(pre: CPU, post: CPU, mode: AddressingMode, r: Result<(), EmuError>) -> bool {
    ({
                let o = spec_operand_value(
                    pre.bus@,
                    pre.register_x,
                    pre.register_y,
                    mode,
                    pre.program_counter,
                );
                &&& o.ok ==> r is Ok && cpu_regs(
                    post,
                    pre.register_a,
                    pre.register_x,
                    pre.register_y,
                    pre.stack_pointer,
                    spec_compare_status(pre.status, pre.register_y, o.value),
                    pre.program_counter,
                ) && post.bus@ == spec_tick_if(o.bus, o.cross)
                &&& !o.ok ==> r is Err
            })
}

pub open spec fn rel_bit(pre: CPU, post: CPU, mode: AddressingMode, r: Result<(), EmuError>) -> bool {
    ({
                let o = spec_operand_value(
                    pre.bus@,
                    pre.register_x,
                    pre.register_y,
                    mode,
                    pre.program_counter,
                );
                &&& o.ok ==> r is Ok && cpu_regs(
                    post,
                    pre.register_a,
                    pre.register_x,
                    pre.register_y,
                    pre.stack_pointer,
                    spec_set_mask(
                        spec_set_mask(
                            spec_set_mask(
                                pre.status,
                                ZERO,
                                pre.register_a & o.value == 0,
                            ),
                            OVERFLOW,
                            o.value & 0x40 > 0,
                        ),
                        NEGATIVE,
                        o.value & 0x80 > 0,
                    ),
                    pre.program_counter,
                ) && post.bus@ == o.bus
                &&& !o.ok ==> r is Err
            })
}

pub open spec fn rel_sta(pre: CPU, post: CPU, mode: AddressingMode, r: Result<(), EmuError>) -> bool {
    ({
                let f = spec_fetch(
                    pre.bus@,
                    pre.register_x,
                    pre.register_y,
                    mode,
                    pre.program_counter,
                );
                let wok = f.ok && spec_write_ok(f.bus, f.addr, pre.register_a);
                &&& wok ==> r is Ok && same_regs(pre, post) && post.bus@
                    == spec_write_bus(f.bus, f.addr, pre.register_a)
                &&& !wok ==> r is Err
            })
}

pub open spec fn rel_stx(pre: CPU, post: CPU, mode: AddressingMode, r: Result<(), EmuError>) -> bool {
    ({
                let f = spec_fetch(
                    pre.bus@,
                    pre.register_x,
                    pre.register_y,
                    mode,
                    pre.program_counter,
                );
                let wok = f.ok && spec_write_ok(f.bus, f.addr, pre.register_x);
                &&& wok ==> r is Ok && same_regs(pre, post) && post.bus@
                    == spec_write_bus(f.bus, f.addr, pre.register_x)
                &&& !wok ==> r is Err
            })
}

pub open spec fn rel_sty(pre: CPU, post: CPU, mode: AddressingMode, r: Result<(), EmuError>) -> bool {
    ({
                let f = spec_fetch(
                    pre.bus@,
                    pre.register_x,
                    pre.register_y,
                    mode,
                    pre.program_counter,
                );
                let wok = f.ok && spec_write_ok(f.bus, f.addr, pre.register_y);
                &&& wok ==> r is Ok && same_regs(pre, post) && post.bus@
                    == spec_write_bus(f.bus, f.addr, pre.register_y)
                &&& !wok ==> r is Err
            })
}

pub open spec fn rel_inc(pre: CPU, post: CPU, mode: AddressingMode, r: Result<(), EmuError>) -> bool {
    ({
                let o = spec_operand_value(
                    pre.bus@,
                    pre.register_x,
                    pre.register_y,
                    mode,
                    pre.program_counter,
                );
                let res = wrap_inc8(o.value);
                let ok = o.ok && spec_write_ok(o.bus, o.addr, res);
                &&& ok ==> r is Ok && cpu_regs(
                    post,
                    pre.register_a,
                    pre.register_x,
                    pre.register_y,
                    pre.stack_pointer,
                    spec_zn(pre.status, res),
                    pre.program_counter,
                ) && post.bus@ == spec_write_bus(o.bus, o.addr, res)
                &&& !ok ==> r is Err
            })
}

pub open spec fn rel_dec(pre: CPU, post: CPU, mode: AddressingMode, r: Result<(), EmuError>) -> bool {
    ({
                let o = spec_operand_value(
                    pre.bus@,
                    pre.register_x,
                    pre.register_y,
                    mode,
                    pre.program_counter,
                );
                let res = wrap_dec8(o.value);
                let ok = o.ok && spec_write_ok(o.bus, o.addr, res);
                &&& ok ==> r is Ok && cpu_regs(
                    post,
                    pre.register_a,
                    pre.register_x,
                    pre.register_y,
                    pre.stack_pointer,
                    spec_zn(pre.status, res),
                    pre.program_counter,
                ) && post.bus@ == spec_write_bus(o.bus, o.addr, res)
                &&& !ok ==> r is Err
            })
}

pub open spec fn rel_nop_read(pre: CPU, post: CPU, mode: AddressingMode, r: Result<(), EmuError>) -> bool {
    ({
                let f = spec_fetch(
                    pre.bus@,
                    pre.register_x,
                    pre.register_y,
                    mode,
                    pre.program_counter,
                );
                &&& f.ok ==> r is Ok && same_regs(pre, post) && post.bus@
                    == spec_tick_if(f.bus, f.cross)
                &&& !f.ok ==> r is Err
            })
}

pub open spec fn rel_anc(pre: CPU, post: CPU, mode: AddressingMode, r: Result<(), EmuError>) -> bool {
    ({
                let o = spec_operand_value(
                    pre.bus@,
                    pre.register_x,
                    pre.register_y,
                    mode,
                    pre.program_counter,
                );
                let res = pre.register_a & o.value;
                &&& o.ok ==> r is Ok && cpu_regs(
                    post,
                    res,
                    pre.register_x,
                    pre.register_y,
                    pre.stack_pointer,
                    spec_zn(spec_set_mask(pre.status, CARRY, res & 0x80 == 0x80), res),
                    pre.program_counter,
                ) && post.bus@ == o.bus
                &&& !o.ok ==> r is Err
            })
}

pub open spec fn rel_sax(pre: CPU, post: CPU, mode: AddressingMode, r: Result<(), EmuError>) -> bool {
    ({
                let f = spec_fetch(
                    pre.bus@,
                    pre.register_x,
                    pre.register_y,
                    mode,
                    pre.program_counter,
                );
                let v = pre.register_a & pre.register_x;
                let wok = f.ok && spec_write_ok(f.bus, f.addr, v);
                &&& wok ==> r is Ok && same_regs(pre, post) && post.bus@
                    == spec_write_bus(f.bus, f.addr, v)
                &&& !wok ==> r is Err
            })
}

pub open spec fn rel_arr(pre: CPU, post: CPU, mode: AddressingMode, r: Result<(), EmuError>) -> bool {
    ({
                let o = spec_operand_value(
                    pre.bus@,
                    pre.register_x,
                    pre.register_y,
                    mode,
                    pre.program_counter,
                );
                let res = (pre.register_a & o.value) >> 1u8;
                &&& o.ok ==> r is Ok && cpu_regs(
                    post,
                    res,
                    pre.register_x,
                    pre.register_y,
                    pre.stack_pointer,
                    spec_set_mask(
                        spec_set_mask(
                            spec_zn(pre.status, res),
                            CARRY,
                            res & 0x40 == 0x40,
                        ),
                        OVERFLOW,
                        (res & 0x40 == 0x40) != (res & 0x20 == 0x20),
                    ),
                    pre.program_counter,
                ) && post.bus@ == o.bus
                &&& !o.ok ==> r is Err
            })
}

pub open spec fn rel_alr(pre: CPU, post: CPU, mode: AddressingMode, r: Result<(), EmuError>) -> bool {
    ({
                let o = spec_operand_value(
                    pre.bus@,
                    pre.register_x,
                    pre.register_y,
                    mode,
                    pre.program_counter,
                );
                let res = (pre.register_a & o.value) >> 1u8;
                &&& o.ok ==> r is Ok && cpu_regs(
                    post,
                    res,
                    pre.register_x,
                    pre.register_y,
                    pre.stack_pointer,
                    spec_zn(
                        spec_set_mask(pre.status, CARRY, pre.register_a & 1 == 1),
                        res,
                    ),
                    pre.program_counter,
                ) && post.bus@ == o.bus
                &&& !o.ok ==> r is Err
            })
}

pub open spec fn rel_lxa(pre: CPU, post: CPU, mode: AddressingMode, r: Result<(), EmuError>) -> bool {
    ({
                let o = spec_operand_value(
                    pre.bus@,
                    pre.register_x,
                    pre.register_y,
                    mode,
                    pre.program_counter,
                );
                &&& o.ok ==> r is Ok && cpu_regs(
                    post,
                    o.value,
                    o.value,
                    pre.register_y,
                    pre.stack_pointer,
                    spec_zn(pre.status, o.value),
                    pre.program_counter,
                ) && post.bus@ == o.bus
                &&& !o.ok ==> r is Err
            })
}

pub open spec fn rel_ahx(pre: CPU, post: CPU, mode: AddressingMode, r: Result<(), EmuError>) -> bool {
    ({
                let f = spec_fetch(
                    pre.bus@,
                    pre.register_x,
                    pre.register_y,
                    mode,
                    pre.program_counter,
                );
                let v = pre.register_a & pre.register_x & (f.addr >> 8u16) as u8;
                let wok = f.ok && spec_write_ok(f.bus, f.addr, v);
                &&& wok ==> r is Ok && same_regs(pre, post) && post.bus@
                    == spec_write_bus(f.bus, f.addr, v)
                &&& !wok ==> r is Err
            })
}

pub open spec fn rel_axs(pre: CPU, post: CPU, mode: AddressingMode, r: Result<(), EmuError>) -> bool {
    ({
                let o = spec_operand_value(
                    pre.bus@,
                    pre.register_x,
                    pre.register_y,
                    mode,
                    pre.program_counter,
                );
                let res = wrap_sub8(pre.register_a & pre.register_x, o.value);
                &&& o.ok ==> r is Ok && cpu_regs(
                    post,
                    pre.register_a,
                    res,
                    pre.register_y,
                    pre.stack_pointer,
                    spec_set_mask(spec_zn(pre.status, res), CARRY, res & 0x80 == 0x80),
                    pre.program_counter,
                ) && post.bus@ == o.bus
                &&& !o.ok ==> r is Err
            })
}

pub open spec fn rel_dcp(pre: CPU, post: CPU, mode: AddressingMode, r: Result<(), EmuError>) -> bool {
    ({
                let o = spec_operand_value(
                    pre.bus@,
                    pre.register_x,
                    pre.register_y,
                    mode,
                    pre.program_counter,
                );
                let res = wrap_dec8(o.value);
                let ok = o.ok && spec_write_ok(o.bus, o.addr, res);
                &&& ok ==> r is Ok && cpu_regs(
                    post,
                    pre.register_a,
                    pre.register_x,
                    pre.register_y,
                    pre.stack_pointer,
                    spec_set_mask(
                        spec_zn(pre.status, wrap_sub8(pre.register_a, res)),
                        CARRY,
                        pre.register_a >= res,
                    ),
                    pre.program_counter,
                ) && post.bus@ == spec_write_bus(o.bus, o.addr, res)
                &&& !ok ==> r is Err
            })
}

pub open spec fn rel_las(pre: CPU, post: CPU, mode: AddressingMode, r: Result<(), EmuError>) -> bool {
    ({
                let o = spec_operand_value(
                    pre.bus@,
                    pre.register_x,
                    pre.register_y,
                    mode,
                    pre.program_counter,
                );
                let res = pre.stack_pointer & o.value;
                &&& o.ok ==> r is Ok && cpu_regs(
                    post,
                    res,
                    res,
                    pre.register_y,
                    res,
                    spec_zn(pre.status, res),
                    pre.program_counter,
                ) && post.bus@ == o.bus
                &&& !o.ok ==> r is Err
            })
}

pub open spec fn rel_shx(pre: CPU, post: CPU, mode: AddressingMode, r: Result<(), EmuError>) -> bool {
    ({
                let f = spec_fetch(
                    pre.bus@,
                    pre.register_x,
                    pre.register_y,
                    mode,
                    pre.program_counter,
                );
                let v = pre.register_x & wrap_inc8((f.addr >> 8u16) as u8);
                let wok = f.ok && spec_write_ok(f.bus, f.addr, v);
                &&& wok ==> r is Ok && same_regs(pre, post) && post.bus@
                    == spec_write_bus(f.bus, f.addr, v)
                &&& !wok ==> r is Err
            })
}

pub open spec fn rel_shy(pre: CPU, post: CPU, mode: AddressingMode, r: Result<(), EmuError>) -> bool {
    ({
                let f = spec_fetch(
                    pre.bus@,
                    pre.register_x,
                    pre.register_y,
                    mode,
                    pre.program_counter,
                );
                let v = pre.register_y & wrap_inc8((f.addr >> 8u16) as u8);
                let wok = f.ok && spec_write_ok(f.bus, f.addr, v);
                &&& wok ==> r is Ok && same_regs(pre, post) && post.bus@
                    == spec_write_bus(f.bus, f.addr, v)
                &&& !wok ==> r is Err
            })
}

pub open spec fn rel_xaa(pre: CPU, post: CPU, mode: AddressingMode, r: Result<(), EmuError>) -> bool {
    &&& r == Err::<(), EmuError>(EmuError::UnstableOpcode(0x8b))
    &&& post == pre
}

pub open spec fn rel_bcc(pre: CPU, post: CPU, r: Result<(), EmuError>) -> bool {
    spec_branch_rel(pre, post, !flag(pre.status, CARRY), r)
}

pub open spec fn rel_bcs(pre: CPU, post: CPU, r: Result<(), EmuError>) -> bool {
    spec_branch_rel(pre, post, flag(pre.status, CARRY), r)
}

pub open spec fn rel_beq(pre: CPU, post: CPU, r: Result<(), EmuError>) -> bool {
    spec_branch_rel(pre, post, flag(pre.status, ZERO), r)
}

pub open spec fn rel_bne(pre: CPU, post: CPU, r: Result<(), EmuError>) -> bool {
    spec_branch_rel(pre, post, !flag(pre.status, ZERO), r)
}

pub open spec fn rel_bmi(pre: CPU, post: CPU, r: Result<(), EmuError>) -> bool {
    spec_branch_rel(pre, post, flag(pre.status, NEGATIVE), r)
}

pub open spec fn rel_bpl(pre: CPU, post: CPU, r: Result<(), EmuError>) -> bool {
    spec_branch_rel(pre, post, !flag(pre.status, NEGATIVE), r)
}

pub open spec fn rel_bvs(pre: CPU, post: CPU, r: Result<(), EmuError>) -> bool {
    spec_branch_rel(pre, post, flag(pre.status, OVERFLOW), r)
}

pub open spec fn rel_bvc(pre: CPU, post: CPU, r: Result<(), EmuError>) -> bool {
    spec_branch_rel(pre, post, !flag(pre.status, OVERFLOW), r)
}

pub open spec fn rel_jsr(pre: CPU, post: CPU, r: Result<(), EmuError>) -> bool {
    ({
                let b = pre.bus@;
                let pc = pre.program_counter;
                &&& spec_read16_ok(b, pc) ==> r is Ok && cpu_regs(
                    post,
                    pre.register_a,
                    pre.register_x,
                    pre.register_y,
                    wrap_dec8(wrap_dec8(pre.stack_pointer)),
                    pre.status,
                    spec_read16_val(b, pc),
                ) && post.bus@ == spec_push16_bus(
                    spec_read16_bus(b, pc),
                    pre.stack_pointer,
                    wrap_inc16(pc),
                )
                &&& !spec_read16_ok(b, pc) ==> r is Err
            })
}

pub open spec fn rel_brk(pre: CPU, post: CPU) -> bool {
    &&& cpu_regs(
    post,
    pre.register_a,
    pre.register_x,
    pre.register_y,
    pre.stack_pointer,
    pre.status | BREAK,
    pre.program_counter,
    )
    &&& post.bus == pre.bus
}

pub open spec fn rel_rts(pre: CPU, post: CPU) -> bool {
    &&& post.bus@ == pre.bus@
    &&& cpu_regs(
    post,
    pre.register_a,
    pre.register_x,
    pre.register_y,
    wrap_inc8(wrap_inc8(pre.stack_pointer)),
    pre.status,
    wrap_inc16(spec_pop16_val(pre.bus@, pre.stack_pointer)),
    )
}

pub open spec fn rel_rti(pre: CPU, post: CPU) -> bool {
    &&& post.bus@ == pre.bus@
    &&& cpu_regs(
    post,
    pre.register_a,
    pre.register_x,
    pre.register_y,
    wrap_inc8(wrap_inc8(wrap_inc8(pre.stack_pointer))),
    (spec_read_val(
        pre.bus@,
        (0x100 + wrap_inc8(pre.stack_pointer)) as u16,
    ) & !BREAK) | BREAK2,
    spec_pop16_val(pre.bus@, wrap_inc8(pre.stack_pointer)),
    )
}

pub open spec fn rel_pha(pre: CPU, post: CPU) -> bool {
    &&& post.bus@ == spec_write_bus(
    pre.bus@,
    (0x100 + pre.stack_pointer) as u16,
    pre.register_a,
    )
    &&& cpu_regs(
    post,
    pre.register_a,
    pre.register_x,
    pre.register_y,
    wrap_dec8(pre.stack_pointer),
    pre.status,
    pre.program_counter,
    )
}

pub open spec fn rel_php(pre: CPU, post: CPU) -> bool {
    &&& post.bus@ == spec_write_bus(
    pre.bus@,
    (0x100 + pre.stack_pointer) as u16,
    pre.status | BREAK | BREAK2,
    )
    &&& cpu_regs(
    post,
    pre.register_a,
    pre.register_x,
    pre.register_y,
    wrap_dec8(pre.stack_pointer),
    pre.status,
    pre.program_counter,
    )
}

pub open spec fn rel_pla(pre: CPU, post: CPU) -> bool {
    &&& post.bus@ == pre.bus@
    &&& ({
    let v = spec_read_val(
        pre.bus@,
        (0x100 + wrap_inc8(pre.stack_pointer)) as u16,
    );
    cpu_regs(
        post,
        v,
        pre.register_x,
        pre.register_y,
        wrap_inc8(pre.stack_pointer),
        spec_zn(pre.status, v),
        pre.program_counter,
    )
    })
}

pub open spec fn rel_plp(pre: CPU, post: CPU) -> bool {
    &&& post.bus@ == pre.bus@
    &&& cpu_regs(
    post,
    pre.register_a,
    pre.register_x,
    pre.register_y,
    wrap_inc8(pre.stack_pointer),
    (spec_read_val(
        pre.bus@,
        (0x100 + wrap_inc8(pre.stack_pointer)) as u16,
    ) & !BREAK) | BREAK2,
    pre.program_counter,
    )
}

pub open spec fn rel_clc(pre: CPU, post: CPU) -> bool {
    post == (CPU { status: pre.status & !CARRY, ..pre })
}

pub open spec fn rel_cld(pre: CPU, post: CPU) -> bool {
    post == (CPU { status: pre.status & !DECIMAL, ..pre })
}

pub open spec fn rel_cli(pre: CPU, post: CPU) -> bool {
    post == (CPU { status: pre.status & !INTERRUPT_DISABLE, ..pre })
}

pub open spec fn rel_clv(pre: CPU, post: CPU) -> bool {
    post == (CPU { status: pre.status & !OVERFLOW, ..pre })
}

pub open spec fn rel_sec(pre: CPU, post: CPU) -> bool {
    post == (CPU { status: pre.status | CARRY, ..pre })
}

pub open spec fn rel_sed(pre: CPU, post: CPU) -> bool {
    post == (CPU { status: pre.status | DECIMAL, ..pre })
}

pub open spec fn rel_sei(pre: CPU, post: CPU) -> bool {
    post == (CPU { status: pre.status | INTERRUPT_DISABLE, ..pre })
}

pub open spec fn rel_tax(pre: CPU, post: CPU) -> bool {
    &&& cpu_regs(
    post,
    pre.register_a,
    pre.register_a,
    pre.register_y,
    pre.stack_pointer,
    spec_zn(pre.status, pre.register_a),
    pre.program_counter,
    )
    &&& post.bus == pre.bus
}

pub open spec fn rel_tay(pre: CPU, post: CPU) -> bool {
    &&& cpu_regs(
    post,
    pre.register_a,
    pre.register_x,
    pre.register_a,
    pre.stack_pointer,
    spec_zn(pre.status, pre.register_a),
    pre.program_counter,
    )
    &&& post.bus == pre.bus
}

pub open spec fn rel_tsx(pre: CPU, post: CPU) -> bool {
    &&& cpu_regs(
    post,
    pre.register_a,
    pre.stack_pointer,
    pre.register_y,
    pre.stack_pointer,
    spec_zn(pre.status, pre.stack_pointer),
    pre.program_counter,
    )
    &&& post.bus == pre.bus
}

pub open spec fn rel_txa(pre: CPU, post: CPU) -> bool {
    &&& cpu_regs(
    post,
    pre.register_x,
    pre.register_x,
    pre.register_y,
    pre.stack_pointer,
    spec_zn(pre.status, pre.register_x),
    pre.program_counter,
    )
    &&& post.bus == pre.bus
}

pub open spec fn rel_txs(pre: CPU, post: CPU) -> bool {
    post == (CPU { stack_pointer: pre.register_x, ..pre })
}

pub open spec fn rel_tya(pre: CPU, post: CPU) -> bool {
    &&& cpu_regs(
    post,
    pre.register_y,
    pre.register_x,
    pre.register_y,
    pre.stack_pointer,
    spec_zn(pre.status, pre.register_y),
    pre.program_counter,
    )
    &&& post.bus == pre.bus
}

pub open spec fn rel_inx(pre: CPU, post: CPU) -> bool {
    &&& cpu_regs(
    post,
    pre.register_a,
    wrap_inc8(pre.register_x),
    pre.register_y,
    pre.stack_pointer,
    spec_zn(pre.status, wrap_inc8(pre.register_x)),
    pre.program_counter,
    )
    &&& post.bus == pre.bus
}

pub open spec fn rel_iny(pre: CPU, post: CPU) -> bool {
    &&& cpu_regs(
    post,
    pre.register_a,
    pre.register_x,
    wrap_inc8(pre.register_y),
    pre.stack_pointer,
    spec_zn(pre.status, wrap_inc8(pre.register_y)),
    pre.program_counter,
    )
    &&& post.bus == pre.bus
}

pub open spec fn rel_dex(pre: CPU, post: CPU) -> bool {
    &&& cpu_regs(
    post,
    pre.register_a,
    wrap_dec8(pre.register_x),
    pre.register_y,
    pre.stack_pointer,
    spec_zn(pre.status, wrap_dec8(pre.register_x)),
    pre.program_counter,
    )
    &&& post.bus == pre.bus
}

pub open spec fn rel_dey(pre: CPU, post: CPU) -> bool {
    &&& cpu_regs(
    post,
    pre.register_a,
    pre.register_x,
    wrap_dec8(pre.register_y),
    pre.stack_pointer,
    spec_zn(pre.status, wrap_dec8(pre.register_y)),
    pre.program_counter,
    )
    &&& post.bus == pre.bus
}

pub open spec fn rel_nop(pre: CPU, post: CPU) -> bool {
    post == pre
}

/// ASL: the accumulator form shifts A left; the memory form shifts the
/// operand byte in place. The carry takes the bit shifted out.
pub open spec fn rel_asl(pre: CPU, post: CPU, mode: AddressingMode, r: Result<(), EmuError>) -> bool {
    if mode is Accumulator {
        r is Ok && cpu_regs(
            post,
            pre.register_a << 1u8,
            pre.register_x,
            pre.register_y,
            pre.stack_pointer,
            spec_zn(
                spec_set_mask(pre.status, CARRY, pre.register_a & 0x80 != 0),
                pre.register_a << 1u8,
            ),
            pre.program_counter,
        ) && post.bus@ == pre.bus@
    } else {
        let f = spec_fetch(pre.bus@, pre.register_x, pre.register_y, mode, pre.program_counter);
        let v = spec_read_val(f.bus, f.addr);
        let b1 = spec_read_bus(f.bus, f.addr);
        let res = v << 1u8;
        let ok = f.ok && spec_read_ok(f.bus, f.addr) && spec_write_ok(b1, f.addr, res);
        &&& ok ==> r is Ok && cpu_regs(
            post,
            pre.register_a,
            pre.register_x,
            pre.register_y,
            pre.stack_pointer,
            spec_zn(spec_set_mask(pre.status, CARRY, v & 0x80 != 0), res),
            pre.program_counter,
        ) && post.bus@ == spec_write_bus(b1, f.addr, res)
        &&& !ok ==> r is Err
    }
}

/// LSR: shift right; the carry takes bit 0.
pub open spec fn rel_lsr(pre: CPU, post: CPU, mode: AddressingMode, r: Result<(), EmuError>) -> bool {
    if mode is Accumulator {
        r is Ok && cpu_regs(
            post,
            pre.register_a >> 1u8,
            pre.register_x,
            pre.register_y,
            pre.stack_pointer,
            spec_zn(
                spec_set_mask(pre.status, CARRY, pre.register_a & 1 == 1),
                pre.register_a >> 1u8,
            ),
            pre.program_counter,
        ) && post.bus@ == pre.bus@
    } else {
        let f = spec_fetch(pre.bus@, pre.register_x, pre.register_y, mode, pre.program_counter);
        let v = spec_read_val(f.bus, f.addr);
        let b1 = spec_read_bus(f.bus, f.addr);
        let res = v >> 1u8;
        let ok = f.ok && spec_read_ok(f.bus, f.addr) && spec_write_ok(b1, f.addr, res);
        &&& ok ==> r is Ok && cpu_regs(
            post,
            pre.register_a,
            pre.register_x,
            pre.register_y,
            pre.stack_pointer,
            spec_zn(spec_set_mask(pre.status, CARRY, v & 1 == 1), res),
            pre.program_counter,
        ) && post.bus@ == spec_write_bus(b1, f.addr, res)
        &&& !ok ==> r is Err
    }
}

/// ROL: rotate left through the carry.
pub open spec fn rel_rol(pre: CPU, post: CPU, mode: AddressingMode, r: Result<(), EmuError>) -> bool {
    let cin: u8 = if flag(pre.status, CARRY) {
        1u8
    } else {
        0u8
    };
    if mode is Accumulator {
        r is Ok && cpu_regs(
            post,
            (pre.register_a << 1u8) | cin,
            pre.register_x,
            pre.register_y,
            pre.stack_pointer,
            spec_zn(
                spec_set_mask(pre.status, CARRY, pre.register_a & 0x80 == 0x80),
                (pre.register_a << 1u8) | cin,
            ),
            pre.program_counter,
        ) && post.bus@ == pre.bus@
    } else {
        let f = spec_fetch(pre.bus@, pre.register_x, pre.register_y, mode, pre.program_counter);
        let v = spec_read_val(f.bus, f.addr);
        let b1 = spec_read_bus(f.bus, f.addr);
        let res = (v << 1u8) | cin;
        let ok = f.ok && spec_read_ok(f.bus, f.addr) && spec_write_ok(b1, f.addr, res);
        &&& ok ==> r is Ok && cpu_regs(
            post,
            pre.register_a,
            pre.register_x,
            pre.register_y,
            pre.stack_pointer,
            spec_zn(spec_set_mask(pre.status, CARRY, v & 0x80 == 0x80), res),
            pre.program_counter,
        ) && post.bus@ == spec_write_bus(b1, f.addr, res)
        &&& !ok ==> r is Err
    }
}

/// ROR: rotate right through the carry.
pub open spec fn rel_ror(pre: CPU, post: CPU, mode: AddressingMode, r: Result<(), EmuError>) -> bool {
    let cin: u8 = if flag(pre.status, CARRY) {
        0x80u8
    } else {
        0u8
    };
    if mode is Accumulator {
        r is Ok && cpu_regs(
            post,
            (pre.register_a >> 1u8) | cin,
            pre.register_x,
            pre.register_y,
            pre.stack_pointer,
            spec_zn(
                spec_set_mask(pre.status, CARRY, pre.register_a & 1 == 1),
                (pre.register_a >> 1u8) | cin,
            ),
            pre.program_counter,
        ) && post.bus@ == pre.bus@
    } else {
        let f = spec_fetch(pre.bus@, pre.register_x, pre.register_y, mode, pre.program_counter);
        let v = spec_read_val(f.bus, f.addr);
        let b1 = spec_read_bus(f.bus, f.addr);
        let res = (v >> 1u8) | cin;
        let ok = f.ok && spec_read_ok(f.bus, f.addr) && spec_write_ok(b1, f.addr, res);
        &&& ok ==> r is Ok && cpu_regs(
            post,
            pre.register_a,
            pre.register_x,
            pre.register_y,
            pre.stack_pointer,
            spec_zn(spec_set_mask(pre.status, CARRY, v & 1 == 1), res),
            pre.program_counter,
        ) && post.bus@ == spec_write_bus(b1, f.addr, res)
        &&& !ok ==> r is Err
    }
}

/// JMP: absolute jumps to the operand word; the indirect form follows the
/// pointer, with the 6502 page-boundary bug when the pointer sits on the
/// last byte of a page.
pub open spec fn rel_jmp(pre: CPU, post: CPU, mode: AddressingMode, r: Result<(), EmuError>) -> bool {
    let b = pre.bus@;
    let pc0 = pre.program_counter;
    let adr = spec_read16_val(b, pc0);
    let b1 = spec_read16_bus(b, pc0);
    &&& !spec_read16_ok(b, pc0) ==> r is Err
    &&& (spec_read16_ok(b, pc0) && mode is Absolute) ==> r is Ok && cpu_regs(
        post,
        pre.register_a,
        pre.register_x,
        pre.register_y,
        pre.stack_pointer,
        pre.status,
        adr,
    ) && post.bus@ == b1
    &&& (spec_read16_ok(b, pc0) && !(mode is Absolute)) ==> ({
        if adr & 0x00ff == 0x00ff {
            let lo = spec_read_val(b1, adr);
            let b2 = spec_read_bus(b1, adr);
            let hi = spec_read_val(b2, adr & 0xff00);
            let b3 = spec_read_bus(b2, adr & 0xff00);
            let ok2 = spec_read_ok(b1, adr) && spec_read_ok(b2, adr & 0xff00);
            &&& ok2 ==> r is Ok && cpu_regs(
                post,
                pre.register_a,
                pre.register_x,
                pre.register_y,
                pre.stack_pointer,
                pre.status,
                (hi * 256 + lo) as u16,
            ) && post.bus@ == b3
            &&& !ok2 ==> r is Err
        } else {
            let ok2 = spec_read16_ok(b1, adr);
            &&& ok2 ==> r is Ok && cpu_regs(
                post,
                pre.register_a,
                pre.register_x,
                pre.register_y,
                pre.stack_pointer,
                pre.status,
                spec_read16_val(b1, adr),
            ) && post.bus@ == spec_read16_bus(b1, adr)
            &&& !ok2 ==> r is Err
        }
    })
}

/// LAX: load the operand into both A and X.
pub open spec fn rel_lax(pre: CPU, post: CPU, mode: AddressingMode, r: Result<(), EmuError>) -> bool {
    let o = spec_operand_value(pre.bus@, pre.register_x, pre.register_y, mode, pre.program_counter);
    &&& o.ok ==> r is Ok && cpu_regs(
        post,
        o.value,
        o.value,
        pre.register_y,
        pre.stack_pointer,
        spec_zn(pre.status, o.value),
        if mode is Immediate {
            wrap_inc16(pre.program_counter)
        } else {
            pre.program_counter
        },
    ) && post.bus@ == (if mode is Immediate {
        o.bus
    } else {
        spec_tick_if(o.bus, o.cross)
    })
    &&& !o.ok ==> r is Err
}

/// TAS: `SP <- A & X`, then store `SP & (high byte of the address + 1)`.
pub open spec fn rel_tas(pre: CPU, post: CPU, mode: AddressingMode, r: Result<(), EmuError>) -> bool {
    let f = spec_fetch(pre.bus@, pre.register_x, pre.register_y, mode, pre.program_counter);
    let sp2 = pre.register_a & pre.register_x;
    let res = sp2 & wrap_inc8((f.addr >> 8u16) as u8);
    let wok = f.ok && spec_write_ok(f.bus, f.addr, res);
    &&& wok ==> r is Ok && cpu_regs(
        post,
        pre.register_a,
        pre.register_x,
        pre.register_y,
        sp2,
        pre.status,
        pre.program_counter,
    ) && post.bus@ == spec_write_bus(f.bus, f.addr, res)
    &&& !wok ==> r is Err
}

/// SLO: shift the operand left in place, then OR it into A.
pub open spec fn rel_slo(pre: CPU, post: CPU, mode: AddressingMode, r: Result<(), EmuError>) -> bool {
    let f = spec_fetch(pre.bus@, pre.register_x, pre.register_y, mode, pre.program_counter);
    let v = spec_read_val(f.bus, f.addr);
    let b1 = spec_read_bus(f.bus, f.addr);
    let res = v << 1u8;
    let ok1 = f.ok && spec_read_ok(f.bus, f.addr) && spec_write_ok(b1, f.addr, res);
    let p1 = spec_zn(spec_set_mask(pre.status, CARRY, v & 0x80 != 0), res);
    let b2 = spec_write_bus(b1, f.addr, res);
    let o = spec_operand_value(b2, pre.register_x, pre.register_y, mode, pre.program_counter);
    &&& (ok1 && o.ok) ==> r is Ok && cpu_regs(
        post,
        pre.register_a | o.value,
        pre.register_x,
        pre.register_y,
        pre.stack_pointer,
        spec_zn(p1, pre.register_a | o.value),
        pre.program_counter,
    ) && post.bus@ == spec_tick_if(o.bus, o.cross)
    &&& !(ok1 && o.ok) ==> r is Err
}

/// SRE: shift the operand right in place, then XOR it into A.
pub open spec fn rel_sre(pre: CPU, post: CPU, mode: AddressingMode, r: Result<(), EmuError>) -> bool {
    let f = spec_fetch(pre.bus@, pre.register_x, pre.register_y, mode, pre.program_counter);
    let v = spec_read_val(f.bus, f.addr);
    let b1 = spec_read_bus(f.bus, f.addr);
    let res = v >> 1u8;
    let ok1 = f.ok && spec_read_ok(f.bus, f.addr) && spec_write_ok(b1, f.addr, res);
    let p1 = spec_zn(spec_set_mask(pre.status, CARRY, v & 1 == 1), res);
    let b2 = spec_write_bus(b1, f.addr, res);
    let o = spec_operand_value(b2, pre.register_x, pre.register_y, mode, pre.program_counter);
    &&& (ok1 && o.ok) ==> r is Ok && cpu_regs(
        post,
        pre.register_a ^ o.value,
        pre.register_x,
        pre.register_y,
        pre.stack_pointer,
        spec_zn(p1, pre.register_a ^ o.value),
        pre.program_counter,
    ) && post.bus@ == spec_tick_if(o.bus, o.cross)
    &&& !(ok1 && o.ok) ==> r is Err
}

/// RLA: rotate the operand left in place, then AND it into A.
pub open spec fn rel_rla(pre: CPU, post: CPU, mode: AddressingMode, r: Result<(), EmuError>) -> bool {
    let cin: u8 = if flag(pre.status, CARRY) {
        1u8
    } else {
        0u8
    };
    let f = spec_fetch(pre.bus@, pre.register_x, pre.register_y, mode, pre.program_counter);
    let v = spec_read_val(f.bus, f.addr);
    let b1 = spec_read_bus(f.bus, f.addr);
    let res = (v << 1u8) | cin;
    let ok1 = f.ok && spec_read_ok(f.bus, f.addr) && spec_write_ok(b1, f.addr, res);
    let p1 = spec_zn(spec_set_mask(pre.status, CARRY, v & 0x80 == 0x80), res);
    let b2 = spec_write_bus(b1, f.addr, res);
    let o = spec_operand_value(b2, pre.register_x, pre.register_y, mode, pre.program_counter);
    &&& (ok1 && o.ok) ==> r is Ok && cpu_regs(
        post,
        pre.register_a & o.value,
        pre.register_x,
        pre.register_y,
        pre.stack_pointer,
        spec_zn(p1, pre.register_a & o.value),
        pre.program_counter,
    ) && post.bus@ == spec_tick_if(o.bus, o.cross)
    &&& !(ok1 && o.ok) ==> r is Err
}

/// RRA: rotate the operand right in place, then add it into A with the
/// carry the rotation produced.
pub open spec fn rel_rra(pre: CPU, post: CPU, mode: AddressingMode, r: Result<(), EmuError>) -> bool {
    let cin: u8 = if flag(pre.status, CARRY) {
        0x80u8
    } else {
        0u8
    };
    let f = spec_fetch(pre.bus@, pre.register_x, pre.register_y, mode, pre.program_counter);
    let v = spec_read_val(f.bus, f.addr);
    let b1 = spec_read_bus(f.bus, f.addr);
    let res = (v >> 1u8) | cin;
    let ok1 = f.ok && spec_read_ok(f.bus, f.addr) && spec_write_ok(b1, f.addr, res);
    let p1 = spec_zn(spec_set_mask(pre.status, CARRY, v & 1 == 1), res);
    let b2 = spec_write_bus(b1, f.addr, res);
    let o = spec_operand_value(b2, pre.register_x, pre.register_y, mode, pre.program_counter);
    let sum = spec_add_result(pre.register_a, o.value, flag(p1, CARRY));
    &&& (ok1 && o.ok) ==> r is Ok && cpu_regs(
        post,
        sum,
        pre.register_x,
        pre.register_y,
        pre.stack_pointer,
        spec_zn(spec_adc_status(p1, pre.register_a, o.value), sum),
        pre.program_counter,
    ) && post.bus@ == spec_tick_if(o.bus, o.cross)
    &&& !(ok1 && o.ok) ==> r is Err
}

/// ISB: increment the operand in place, set compare-style flags, then
/// subtract the re-read operand from A.
pub open spec fn rel_isb(pre: CPU, post: CPU, mode: AddressingMode, r: Result<(), EmuError>) -> bool {
    let o1 = spec_operand_value(pre.bus@, pre.register_x, pre.register_y, mode, pre.program_counter);
    let res = wrap_inc8(o1.value);
    let ok1 = o1.ok && spec_write_ok(o1.bus, o1.addr, res);
    let p1 = spec_set_mask(spec_zn(pre.status, res), CARRY, pre.register_a >= res);
    let b2 = spec_write_bus(o1.bus, o1.addr, res);
    let o2 = spec_operand_value(b2, pre.register_x, pre.register_y, mode, pre.program_counter);
    &&& (ok1 && o2.ok) ==> r is Ok && cpu_regs(
        post,
        spec_add_result(pre.register_a, !o2.value, flag(p1, CARRY)),
        pre.register_x,
        pre.register_y,
        pre.stack_pointer,
        spec_adc_status(p1, pre.register_a, !o2.value),
        pre.program_counter,
    ) && post.bus@ == spec_tick_if(o2.bus, o2.cross)
    &&& !(ok1 && o2.ok) ==> r is Err
}

// ---------------------------------------------------------------------------
// Laws of the arithmetic flags and the stack.
// ---------------------------------------------------------------------------

/// After ADC the overflow flag holds exactly when the operands agree in
/// sign and the result's sign differs from theirs.
pub proof fn lemma_adc_overflow_flag(p: u8, a: u8, m: u8)
    ensures
        flag(spec_adc_status(p, a, m), OVERFLOW) == ({
            let r = spec_add_result(a, m, flag(p, CARRY));
            (a & 0x80) == (m & 0x80) && (a & 0x80) != (r & 0x80)
        }),
{
    let c = flag(p, CARRY);
    let ci: u8 = if c { 1u8 } else { 0u8 };
    let r = spec_add_result(a, m, c);
    assert(r == ((a + m + ci) % 256) as u8);
    let q = spec_set_mask(
        spec_set_mask(p, CARRY, spec_add_carry(a, m, c)),
        OVERFLOW,
        spec_add_overflow(a, m, c),
    );
    // The zero/negative update keeps bit 6.
    assert(spec_zn(q, r) & 0x40 == q & 0x40) by (bit_vector);
    // Setting or clearing bit 6 makes the flag hold exactly the argument.
    if spec_add_overflow(a, m, c) {
        let q0 = spec_set_mask(p, CARRY, spec_add_carry(a, m, c));
        assert((q0 | 0x40) & 0x40 != 0) by (bit_vector);
    } else {
        let q0 = spec_set_mask(p, CARRY, spec_add_carry(a, m, c));
        assert((q0 & !0x40) & 0x40 == 0) by (bit_vector);
    }
    // The overflow formula agrees with the sign characterisation.
    assert(((m ^ (((a + m + ci) % 256) as u8)) & ((((a + m + ci) % 256) as u8) ^ a) & 0x80 != 0)
        == ((a & 0x80) == (m & 0x80) && (a & 0x80) != ((((a + m + ci) % 256) as u8) & 0x80)))
        by (bit_vector)
        requires
            ci <= 1,
    ;
}

/// With the carry set, SBC of `m` is ADC of the bitwise complement `!m`,
/// and computes `A - M` modulo 256, with the carry reporting `A >= M`.
pub proof fn lemma_sbc_is_adc_complement(a: u8, m: u8)
    ensures
        spec_add_result(a, !m, true) == wrap_sub8(a, m),
        spec_add_carry(a, !m, true) == (a >= m),
{
    assert(!m == 255 - m) by (bit_vector);
}

/// Pushing a 16-bit word and popping it straight back returns the word
/// and restores the stack pointer, for every pointer, wraparound included.
pub proof fn lemma_stack_round_trip(b: BusView, sp: u8, v: u16)
    requires
        b.wf(),
    ensures
        spec_pop16_val(spec_push16_bus(b, sp, v), wrap_dec8(wrap_dec8(sp))) == v,
        wrap_inc8(wrap_inc8(wrap_dec8(wrap_dec8(sp)))) == sp,
{
    let hi_addr = (0x100 + sp) as u16;
    let lo_addr = (0x100 + wrap_dec8(sp)) as u16;
    let sp2 = wrap_dec8(wrap_dec8(sp));
    assert(wrap_inc8(sp2) == wrap_dec8(sp));
    assert(wrap_inc8(wrap_inc8(sp2)) == sp);
    let b2 = spec_push16_bus(b, sp, v);
    assert(spec_reg_addr(hi_addr) == hi_addr);
    assert(spec_reg_addr(lo_addr) == lo_addr);
    assert(hi_addr & 0x7ff == hi_addr && hi_addr & 0x7ff < 2048) by (bit_vector)
        requires
            0x100 <= hi_addr < 0x200,
    ;
    assert(lo_addr & 0x7ff == lo_addr && lo_addr & 0x7ff < 2048) by (bit_vector)
        requires
            0x100 <= lo_addr < 0x200,
    ;
    assert(b2.cpu_vram[lo_addr as int] == (v % 256) as u8);
    assert(b2.cpu_vram[hi_addr as int] == (v / 256) as u8);
    assert(spec_read_val(b2, lo_addr) == (v % 256) as u8);
    assert(spec_read_val(b2, hi_addr) == (v / 256) as u8);
    assert((v % 256) + (v / 256) * 256 == v);
}

} // verus!
