use nes_core::bus::Bus;
use nes_core::cartridge::{Mirroring, Rom};
use nes_core::cpu::{BREAK, CARRY, CPU, NEGATIVE, OVERFLOW, ZERO};
use nes_core::errors::EmuError;

// A mapper-0 cartridge whose PRG holds `program` at 0x8000 and whose reset
// vector points there.
fn program_rom(program: &[u8]) -> Rom {
    let mut prg = vec![0u8; 0x8000];
    prg[..program.len()].copy_from_slice(program);
    prg[0x7ffc] = 0x00;
    prg[0x7ffd] = 0x80;
    Rom {
        prg_rom: prg,
        chr_rom: vec![0u8; 0x2000],
        mapper: 0,
        mirroring: Mirroring::HORIZONTAL,
    }
}

fn run_program(program: &[u8]) -> CPU {
    let bus = Bus::new(program_rom(program));
    let mut cpu = CPU::new(bus);
    cpu.reset();
    cpu.run().unwrap();
    cpu
}

#[test]
fn test_adc_overflow_scenario() {
    // A = 0x50, M = 0x50, C = 0: the result 0xA0 flips the sign, so the
    // overflow and negative flags rise while carry and zero stay clear.
    let cpu = run_program(&[0xa9, 0x50, 0x69, 0x50, 0x00]);
    assert_eq!(cpu.register_a, 0xa0);
    assert_eq!(cpu.status & CARRY, 0);
    assert_ne!(cpu.status & OVERFLOW, 0);
    assert_ne!(cpu.status & NEGATIVE, 0);
    assert_eq!(cpu.status & ZERO, 0);
}

#[test]
fn test_adc_carry_and_zero() {
    // 0xFF + 0x01 wraps to zero with carry out and no signed overflow.
    let cpu = run_program(&[0xa9, 0xff, 0x69, 0x01, 0x00]);
    assert_eq!(cpu.register_a, 0x00);
    assert_ne!(cpu.status & CARRY, 0);
    assert_eq!(cpu.status & OVERFLOW, 0);
    assert_ne!(cpu.status & ZERO, 0);
}

#[test]
fn test_sbc_equals_adc_of_complement() {
    // SEC; LDA #$30; SBC #$10 must leave the same accumulator and flags
    // as SEC; LDA #$30; ADC #$EF, because !0x10 == 0xEF.
    let sbc = run_program(&[0x38, 0xa9, 0x30, 0xe9, 0x10, 0x00]);
    let adc = run_program(&[0x38, 0xa9, 0x30, 0x69, 0xef, 0x00]);
    assert_eq!(sbc.register_a, 0x20);
    assert_eq!(adc.register_a, sbc.register_a);
    assert_eq!(adc.status, sbc.status);
}

#[test]
fn test_jsr_rts_round_trip() {
    // JSR into a subroutine that loads X and returns; RTS lands on the BRK
    // right after the JSR.
    let cpu = run_program(&[0x20, 0x04, 0x80, 0x00, 0xa2, 0x42, 0x60]);
    assert_eq!(cpu.register_x, 0x42);
    assert_eq!(cpu.stack_pointer, 0xfd);
    assert_ne!(cpu.status & BREAK, 0);
}

#[test]
fn test_stack_push_pop_through_pha_pla() {
    // PHA twice, change A, then PLA twice: last pushed comes back first.
    let cpu = run_program(&[
        0xa9, 0x11, 0x48, 0xa9, 0x22, 0x48, 0xa9, 0x00, 0x68, 0xaa, 0x68, 0x00,
    ]);
    assert_eq!(cpu.register_x, 0x22);
    assert_eq!(cpu.register_a, 0x11);
    assert_eq!(cpu.stack_pointer, 0xfd);
}

#[test]
fn test_lda_sta_ram_round_trip() {
    // Store to RAM and load it back through a different mirror.
    let mut cpu = run_program(&[0xa9, 0x5a, 0x8d, 0x34, 0x02, 0x00]);
    assert_eq!(cpu.bus.mem_read(0x0234).unwrap(), 0x5a);
    assert_eq!(cpu.bus.mem_read(0x0a34).unwrap(), 0x5a);
}

#[test]
fn test_compare_sets_carry_and_zero() {
    // CMP with an equal operand: carry and zero set, negative clear.
    let cpu = run_program(&[0xa9, 0x40, 0xc9, 0x40, 0x00]);
    assert_ne!(cpu.status & CARRY, 0);
    assert_ne!(cpu.status & ZERO, 0);
    assert_eq!(cpu.status & NEGATIVE, 0);
}

#[test]
fn test_branch_taken_skips_instruction() {
    // LDX #$01; BNE +2 skips the LDA #$FF; BRK leaves A untouched.
    let cpu = run_program(&[0xa2, 0x01, 0xd0, 0x02, 0xa9, 0xff, 0x00]);
    assert_eq!(cpu.register_a, 0x00);
    assert_eq!(cpu.register_x, 0x01);
}

#[test]
fn test_indexed_addressing_with_wraparound() {
    // Zero-page,X pointer arithmetic wraps inside page zero.
    let cpu = run_program(&[
        0xa9, 0x77, // LDA #$77
        0x85, 0x05, // STA $05
        0xa2, 0x06, // LDX #$06
        0xb5, 0xff, // LDA $FF,X  -> wraps to $05
        0xaa, // TAX
        0x00,
    ]);
    assert_eq!(cpu.register_x, 0x77);
}

#[test]
fn test_xaa_is_refused() {
    let bus = Bus::new(program_rom(&[0x8b, 0x00]));
    let mut cpu = CPU::new(bus);
    cpu.reset();
    assert_eq!(cpu.run(), Err(EmuError::UnstableOpcode(0x8b)));
}

#[test]
fn test_fatal_read_aborts_run() {
    // LDA $2000 reads a write-only PPU register: the run reports it.
    let bus = Bus::new(program_rom(&[0xad, 0x00, 0x20, 0x00]));
    let mut cpu = CPU::new(bus);
    cpu.reset();
    assert_eq!(cpu.run(), Err(EmuError::ReadWriteOnly(0x2000)));
}

#[test]
fn test_reset_state() {
    let bus = Bus::new(program_rom(&[0x00]));
    let mut cpu = CPU::new(bus);
    cpu.register_a = 9;
    cpu.register_x = 9;
    cpu.register_y = 9;
    cpu.reset();
    assert_eq!(cpu.register_a, 0);
    assert_eq!(cpu.register_x, 0);
    assert_eq!(cpu.register_y, 0);
    assert_eq!(cpu.status, 0b10_0100);
    assert_eq!(cpu.stack_pointer, 0xfd);
    assert_eq!(cpu.program_counter, 0x8000);
}

#[test]
fn test_load_reports_rom_backed_vector() {
    // The program image lands in RAM, but installing the reset vector hits
    // PRG ROM and is refused.
    let bus = Bus::new(program_rom(&[0x00]));
    let mut cpu = CPU::new(bus);
    let r = cpu.load(vec![0xa9, 0x01, 0x00]);
    assert_eq!(r, Err(EmuError::WriteToRom(0xfffc)));
    assert_eq!(cpu.bus.mem_read(0x0600).unwrap(), 0xa9);
    assert_eq!(cpu.bus.mem_read(0x0601).unwrap(), 0x01);
}

#[test]
fn test_unofficial_lax_loads_both_registers() {
    // LAX $0010 loads A and X from the same byte.
    let cpu = run_program(&[0xa9, 0x3c, 0x85, 0x10, 0xa9, 0x00, 0xa7, 0x10, 0x00]);
    assert_eq!(cpu.register_a, 0x3c);
    assert_eq!(cpu.register_x, 0x3c);
}

#[test]
fn test_opcode_table_entries() {
    let lda_imm = nes_core::opcodes::opcode_entry(0xa9);
    assert_eq!(lda_imm.len, 2);
    assert_eq!(lda_imm.cycles, 2);
    let jmp_abs = nes_core::opcodes::opcode_entry(0x4c);
    assert_eq!(jmp_abs.len, 3);
    assert_eq!(jmp_abs.cycles, 3);
    let brk = nes_core::opcodes::opcode_entry(0x00);
    assert_eq!(brk.len, 1);
    assert_eq!(brk.cycles, 7);
}
