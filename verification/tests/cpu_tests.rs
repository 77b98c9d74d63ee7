use nes_core::bus::Bus;
use nes_core::cart::Rom;
use nes_core::cpu::{AddressingMode, CPU, FLAG_CARRY, FLAG_NEGATIVE, FLAG_OVERFLOW, FLAG_ZERO};
use nes_core::opcodes::opcode_entry;
use nes_core::EmuError;

/// An NROM image whose reset vector points at $0600, where `CPU::load`
/// places programs.
fn nrom_image() -> Vec<u8> {
    let mut image = vec![0u8; 16 + 0x8000 + 0x2000];
    image[0] = 0x4E;
    image[1] = 0x45;
    image[2] = 0x53;
    image[3] = 0x1A;
    image[4] = 0x02;
    image[5] = 0x01;
    // reset vector at $FFFC -> $0600
    image[16 + 0x7FFC] = 0x00;
    image[16 + 0x7FFD] = 0x06;
    image
}

fn cpu_with_program(program: Vec<u8>) -> CPU {
    let rom = Rom::new(&nrom_image()).unwrap();
    let bus = Bus::new(rom).unwrap();
    let mut cpu = CPU::new(bus);
    cpu.load(program);
    cpu.reset();
    cpu
}

#[test]
fn lda_immediate_loads_and_clears_flags() {
    let mut cpu = cpu_with_program(vec![0xa9, 0x05, 0x00]);
    cpu.step().unwrap();
    assert_eq!(cpu.register_a, 5);
    assert_eq!(cpu.status & FLAG_ZERO, 0);
    assert_eq!(cpu.status & FLAG_NEGATIVE, 0);
}

#[test]
fn lda_immediate_zero_sets_zero_flag() {
    let mut cpu = cpu_with_program(vec![0xa9, 0x00, 0x00]);
    cpu.step().unwrap();
    assert_ne!(cpu.status & FLAG_ZERO, 0);
}

#[test]
fn lda_tax_inx_work_together() {
    let mut cpu = cpu_with_program(vec![0xa9, 0xc0, 0xaa, 0xe8, 0x00]);
    cpu.step().unwrap();
    cpu.step().unwrap();
    cpu.step().unwrap();
    assert_eq!(cpu.register_x, 0xc1);
    assert_ne!(cpu.status & FLAG_NEGATIVE, 0);
    assert_eq!(cpu.status & FLAG_ZERO, 0);
}

#[test]
fn inx_wraps_past_0xff() {
    let mut cpu = cpu_with_program(vec![0xa9, 0xff, 0xaa, 0xe8, 0xe8, 0x00]);
    for _ in 0..4 {
        cpu.step().unwrap();
    }
    assert_eq!(cpu.register_x, 1);
}

#[test]
fn lda_from_zero_page_memory() {
    let mut cpu = cpu_with_program(vec![0xa5, 0x10, 0x00]);
    cpu.bus.mem_write(0x10, 0x55).unwrap();
    cpu.step().unwrap();
    assert_eq!(cpu.register_a, 0x55);
}

#[test]
fn pha_pla_round_trip_restores_a_and_sp() {
    let mut cpu = cpu_with_program(vec![0xa9, 0x42, 0x48, 0xa9, 0x00, 0x68, 0x00]);
    let sp0 = cpu.stack_pointer;
    for _ in 0..4 {
        cpu.step().unwrap();
    }
    assert_eq!(cpu.register_a, 0x42);
    assert_eq!(cpu.stack_pointer, sp0);
}

#[test]
fn jsr_rts_round_trip() {
    // JSR $0610; ...; at $0610: LDA #$07; RTS
    let mut program = vec![0x20, 0x10, 0x06, 0xa9, 0x01, 0x00];
    while program.len() < 0x10 {
        program.push(0xea);
    }
    program.push(0xa9); // $0610
    program.push(0x07);
    program.push(0x60);
    let mut cpu = cpu_with_program(program);
    cpu.step().unwrap(); // JSR
    assert_eq!(cpu.program_counter, 0x0610);
    cpu.step().unwrap(); // LDA #$07
    cpu.step().unwrap(); // RTS
    assert_eq!(cpu.program_counter, 0x0603);
    cpu.step().unwrap(); // LDA #$01
    assert_eq!(cpu.register_a, 0x01);
}

#[test]
fn adc_sets_overflow_and_negative() {
    let mut cpu = cpu_with_program(vec![0xa9, 0x50, 0x69, 0x50, 0x00]);
    cpu.step().unwrap();
    cpu.step().unwrap();
    assert_eq!(cpu.register_a, 0xa0);
    assert_ne!(cpu.status & FLAG_OVERFLOW, 0);
    assert_ne!(cpu.status & FLAG_NEGATIVE, 0);
    assert_eq!(cpu.status & FLAG_CARRY, 0);
}

#[test]
fn sbc_computes_two_complement_difference() {
    // SEC; LDA #$10; SBC #$08 -> A = 8, carry still set
    let mut cpu = cpu_with_program(vec![0x38, 0xa9, 0x10, 0xe9, 0x08, 0x00]);
    for _ in 0..3 {
        cpu.step().unwrap();
    }
    assert_eq!(cpu.register_a, 0x08);
    assert_ne!(cpu.status & FLAG_CARRY, 0);
}

#[test]
fn branch_taken_moves_pc_and_costs_a_cycle() {
    // LDA #$00; BEQ +2 (skip the LDA #$01); LDA #$02
    let mut cpu = cpu_with_program(vec![0xa9, 0x00, 0xf0, 0x02, 0xa9, 0x01, 0xa9, 0x02, 0x00]);
    cpu.step().unwrap();
    let cycles_before = cpu.bus.cycles;
    cpu.step().unwrap(); // BEQ, taken, no page cross: 2 + 1 cycles
    assert_eq!(cpu.bus.cycles - cycles_before, 3);
    assert_eq!(cpu.program_counter, 0x0606);
    cpu.step().unwrap();
    assert_eq!(cpu.register_a, 0x02);
}

#[test]
fn branch_not_taken_falls_through() {
    let mut cpu = cpu_with_program(vec![0xa9, 0x01, 0xf0, 0x02, 0xa9, 0x07, 0x00]);
    cpu.step().unwrap();
    let cycles_before = cpu.bus.cycles;
    cpu.step().unwrap(); // BEQ, not taken: 2 cycles
    assert_eq!(cpu.bus.cycles - cycles_before, 2);
    cpu.step().unwrap();
    assert_eq!(cpu.register_a, 0x07);
}

#[test]
fn documented_opcode_advances_pc_by_table_length() {
    let mut cpu = cpu_with_program(vec![0xa9, 0x05, 0xad, 0x34, 0x12, 0xea, 0x00]);
    let pc0 = cpu.program_counter;
    cpu.step().unwrap();
    assert_eq!(cpu.program_counter, pc0 + 2); // LDA # is 2 bytes
    cpu.step().unwrap();
    assert_eq!(cpu.program_counter, pc0 + 5); // LDA abs is 3 bytes
    cpu.step().unwrap();
    assert_eq!(cpu.program_counter, pc0 + 6); // NOP is 1 byte
}

#[test]
fn illegal_opcode_aborts_the_fetch_loop() {
    let mut cpu = cpu_with_program(vec![0x80, 0x00]);
    assert_eq!(cpu.step(), Err(EmuError::IllegalOpcode(0x80)));
}

#[test]
fn store_into_rom_is_a_hard_error() {
    // STA $8000
    let mut cpu = cpu_with_program(vec![0x8d, 0x00, 0x80]);
    assert_eq!(cpu.step(), Err(EmuError::RomWrite(0x8000)));
}

#[test]
fn run_reports_the_fatal_error() {
    let mut cpu = cpu_with_program(vec![0xa9, 0x05, 0x80]);
    let r = cpu.run(100);
    assert_eq!(r, Some(EmuError::IllegalOpcode(0x80)));
    assert_eq!(cpu.register_a, 5);
}

#[test]
fn lax_loads_a_and_x() {
    // LAX $10
    let mut cpu = cpu_with_program(vec![0xa7, 0x10, 0x00]);
    cpu.bus.mem_write(0x10, 0x77).unwrap();
    cpu.step().unwrap();
    assert_eq!(cpu.register_a, 0x77);
    assert_eq!(cpu.register_x, 0x77);
}

#[test]
fn dcp_decrements_then_compares() {
    // LDA #$40; DCP $10 with [$10] = $41 -> memory $40, Z set, carry set
    let mut cpu = cpu_with_program(vec![0xa9, 0x40, 0xc7, 0x10, 0x00]);
    cpu.bus.mem_write(0x10, 0x41).unwrap();
    cpu.step().unwrap();
    cpu.step().unwrap();
    assert_eq!(cpu.bus.mem_read(0x10).unwrap(), 0x40);
    assert_ne!(cpu.status & FLAG_ZERO, 0);
    assert_ne!(cpu.status & FLAG_CARRY, 0);
}

#[test]
fn absolute_x_page_cross_costs_one_extra_cycle() {
    // LDX #$01; LDA $12FF,X (crosses into $1300)
    let mut cpu = cpu_with_program(vec![0xa2, 0x01, 0xbd, 0xff, 0x12, 0x00]);
    cpu.step().unwrap();
    let before = cpu.bus.cycles;
    cpu.step().unwrap();
    assert_eq!(cpu.bus.cycles - before, 5); // 4 base + 1 page-cross
}

#[test]
fn opcode_table_holds_documented_entries() {
    let lda_imm = opcode_entry(0xa9).unwrap();
    assert_eq!(lda_imm.len, 2);
    assert_eq!(lda_imm.cycles, 2);
    assert_eq!(lda_imm.mode, AddressingMode::Immediate);
    assert!(!lda_imm.page_penalty);

    let lda_absx = opcode_entry(0xbd).unwrap();
    assert_eq!(lda_absx.len, 3);
    assert_eq!(lda_absx.cycles, 4);
    assert_eq!(lda_absx.mode, AddressingMode::Absolute_X);
    assert!(lda_absx.page_penalty);

    let jmp_ind = opcode_entry(0x6c).unwrap();
    assert_eq!(jmp_ind.len, 3);
    assert_eq!(jmp_ind.cycles, 5);

    assert!(opcode_entry(0x80).is_none());
    assert!(opcode_entry(0x9b).is_none());
}

#[test]
fn jmp_indirect_honors_the_page_boundary_quirk() {
    // pointer $02FF: low byte from $02FF, high byte from $0200
    let mut cpu = cpu_with_program(vec![0x6c, 0xff, 0x02]);
    cpu.bus.mem_write(0x02ff, 0x34).unwrap();
    cpu.bus.mem_write(0x0300, 0x99).unwrap(); // would be used without the quirk
    cpu.bus.mem_write(0x0200, 0x12).unwrap();
    cpu.step().unwrap();
    assert_eq!(cpu.program_counter, 0x1234);
}

#[test]
fn countdown_loop_accumulates_through_branches() {
    // LDX #5; LDA #0; loop: CLC; ADC #3; DEX; BNE loop -> A = 15
    let mut cpu = cpu_with_program(vec![
        0xa2, 0x05, 0xa9, 0x00, 0x18, 0x69, 0x03, 0xca, 0xd0, 0xfa, 0x00,
    ]);
    for _ in 0..22 {
        cpu.step().unwrap();
    }
    assert_eq!(cpu.register_a, 15);
    assert_eq!(cpu.register_x, 0);
    assert_eq!(cpu.program_counter, 0x060a);
}

#[test]
fn brk_pushes_state_and_jumps_through_the_vector() {
    let mut cpu = cpu_with_program(vec![0x00]);
    let sp0 = cpu.stack_pointer;
    cpu.step().unwrap();
    // the vector bytes at $FFFE/$FFFF are zero in this image
    assert_eq!(cpu.program_counter, 0x0000);
    assert_eq!(cpu.stack_pointer, sp0.wrapping_sub(3));
}
