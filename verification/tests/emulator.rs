//! The execution engine: flag laws on concrete values, the stack
//! round trip, cycle bookkeeping, and end-to-end stepping scenarios.

use rgb_emu::new;
use rgb_emu::version;
use rgb_emu::Instruction;
use rgb_emu::Register;
use rgb_emu::RgbError;
use rgb_emu::CPU;
use rgb_emu::MMU;

/// A cartridge image of `len` bytes: zeroed, with a valid ROM-ONLY type
/// byte in the header, and `program` placed at the 0x0100 entry point.
fn cart_with_entry(len: usize, program: &[u8]) -> Vec<u8> {
    let mut v = vec![0u8; len];
    v[0x147] = 0x00;
    v[0x100..0x100 + program.len()].copy_from_slice(program);
    v
}

#[test]
fn version_number() {
    assert_eq!(version(), 42);
}

/// Power-on state: zeroed registers, stack pointer at 0xFFFE, overlay
/// active, no cycles counted.
#[test]
fn fresh_session() {
    let ctx = new();
    assert_eq!(ctx.program_counter(), 0);
    assert_eq!(ctx.cycles(), 0);
    assert_eq!(ctx.cpu().get_sp(), 0xFFFE);
    assert_eq!(ctx.cpu().get_a(), 0);
    assert!(ctx.mmu().get_in_bios());
}

/// Flag law: XOR A zeroes the accumulator and sets exactly the zero
/// flag, whatever A held before.
#[test]
fn xor_a_flags() {
    for prior in [0x00u8, 0x01, 0x5A, 0xFF] {
        let mut cpu = CPU::new();
        let mut mmu = MMU::new();
        cpu.ld_r_n(Register::A, prior);
        // Scramble the flags first so the law is visible.
        cpu.scf();
        cpu.xor_r(&mut mmu, Register::A).unwrap();
        assert_eq!(cpu.get_a(), 0);
        assert!(cpu.get_zero_flag());
        assert!(!cpu.get_sub_flag());
        assert!(!cpu.get_half_carry_flag());
        assert!(!cpu.get_carry_flag());
    }
}

/// Flag law: ADD A, 0x01 with A at 0xFF wraps to 0x00 with zero, carry
/// and half-carry set and subtract clear.
#[test]
fn add_overflow_flags() {
    let mut cpu = CPU::new();
    cpu.ld_r_n(Register::A, 0xFF);
    cpu.add_a(0x01);
    assert_eq!(cpu.get_a(), 0x00);
    assert!(cpu.get_zero_flag());
    assert!(cpu.get_carry_flag());
    assert!(cpu.get_half_carry_flag());
    assert!(!cpu.get_sub_flag());
}

/// The same law through the full fetch-decode-execute cycle:
/// LD A,0xFF then ADD A,0x01 as cartridge bytes.
#[test]
fn add_overflow_through_step() {
    let mut ctx = new();
    let rom = cart_with_entry(0x200, &[0x3E, 0xFF, 0xC6, 0x01]);
    ctx.load_bytes(&rom).unwrap();
    ctx.set_pc(0x0100);
    ctx.step().unwrap();
    ctx.step().unwrap();
    assert_eq!(ctx.cpu().get_a(), 0x00);
    assert!(ctx.cpu().get_zero_flag());
    assert!(ctx.cpu().get_carry_flag());
    assert!(ctx.cpu().get_half_carry_flag());
    assert!(!ctx.cpu().get_sub_flag());
    assert_eq!(ctx.cycles(), 8 + 8);
}

/// Round trip: PUSH AF then POP AF restores the exact byte values,
/// with the packed flag byte's low nibble forced to zero.
#[test]
fn push_pop_af_roundtrip() {
    let mut cpu = CPU::new();
    let mut mmu = MMU::new();
    // Loading AF discards the low nibble of the flag byte.
    cpu.ld_r_w(Register::AF, 0x12BF);
    assert_eq!(cpu.get_r16(Register::AF), 0x12B0);
    cpu.ld_r_w(Register::SP, 0xD000);
    cpu.execute(&mut mmu, Instruction::PUSH(Register::AF), 0).unwrap();
    assert_eq!(cpu.get_sp(), 0xCFFE);
    // Scramble AF, then pop it back.
    cpu.ld_r_w(Register::AF, 0x0000);
    cpu.execute(&mut mmu, Instruction::POP(Register::AF), 0).unwrap();
    assert_eq!(cpu.get_r16(Register::AF), 0x12B0);
    assert_eq!(cpu.get_sp(), 0xD000);
    assert_eq!(cpu.get_a(), 0x12);
    assert!(cpu.get_zero_flag());
    assert!(!cpu.get_sub_flag());
    assert!(cpu.get_half_carry_flag());
    assert!(cpu.get_carry_flag());
}

/// The cartridge entry-point scenario: NOP, NOP, JP 0x0150 placed at
/// the 0x0100 entry point. Three steps land the program counter at
/// 0x0150 with a cumulative cost of 4+4+16 clock cycles. The first
/// fetch is made with the program counter at 0x0100, so it is also the
/// moment the boot overlay goes off.
#[test]
fn entry_point_scenario() {
    let mut ctx = new();
    let rom = cart_with_entry(0x200, &[0x00, 0x00, 0xC3, 0x50, 0x01]);
    ctx.load_bytes(&rom).unwrap();
    ctx.set_pc(0x0100);
    assert!(ctx.mmu().get_in_bios());

    let s1 = ctx.step().unwrap();
    assert_eq!(s1.inst, Instruction::NOP);
    assert_eq!(s1.cycles, 4);
    assert!(!ctx.mmu().get_in_bios());

    let s2 = ctx.step().unwrap();
    assert_eq!(s2.inst, Instruction::NOP);

    let s3 = ctx.step().unwrap();
    assert_eq!(s3.inst, Instruction::JP(Register::WORD));
    assert_eq!(s3.data, 0x0150);
    assert_eq!(s3.cycles, 16);

    assert_eq!(ctx.program_counter(), 0x0150);
    assert_eq!(ctx.cycles(), 4 + 4 + 16);
}

/// The first three boot-ROM instructions execute under the overlay:
/// LD SP,0xFFFE; XOR A; LD HL,0x9FFF. The fourth writes to video RAM,
/// which this core reports as an explicit fault rather than skipping.
#[test]
fn boot_rom_prefix() {
    let mut ctx = new();
    let rom = cart_with_entry(0x200, &[]);
    ctx.load_bytes(&rom).unwrap();

    let s1 = ctx.step().unwrap();
    assert_eq!(s1.inst, Instruction::LD(Register::SP, Register::WORD));
    assert_eq!(s1.data, 0xFFFE);
    assert_eq!(s1.cycles, 12);

    let s2 = ctx.step().unwrap();
    assert_eq!(s2.inst, Instruction::XOR(Register::A));
    assert_eq!(s2.cycles, 4);
    assert!(ctx.cpu().get_zero_flag());

    let s3 = ctx.step().unwrap();
    assert_eq!(s3.inst, Instruction::LD(Register::HL, Register::WORD));
    assert_eq!(s3.data, 0x9FFF);

    assert_eq!(ctx.program_counter(), 7);
    assert_eq!(ctx.cycles(), 12 + 4 + 12);
    assert!(ctx.mmu().get_in_bios());

    // LDD (HL),A targets 0x9FFF: video RAM, unimplemented, a fault.
    assert_eq!(ctx.step(), Err(RgbError::UnmappedRegion(0x9FFF)));
}

/// A dispatched instruction without a handler is a fatal, diagnosable
/// error carrying the instruction, never a silent skip. The decoder
/// only produces handled instructions, so the fault is reached through
/// a register-tag combination the tables never emit.
#[test]
fn unimplemented_handler_faults() {
    let mut cpu = CPU::new();
    let mut mmu = MMU::new();
    let odd = Instruction::LD(Register::WORD, Register::WORD);
    assert_eq!(cpu.execute(&mut mmu, odd, 0), Err(RgbError::Unimplemented(odd)));
    let odd2 = Instruction::INC(Register::AF);
    assert_eq!(cpu.execute(&mut mmu, odd2, 0), Err(RgbError::Unimplemented(odd2)));
}

/// Decimal adjust: 0x15 + 0x27 in packed BCD is 0x42, reached by the
/// nibble correction step.
#[test]
fn daa_after_addition() {
    let mut cpu = CPU::new();
    cpu.ld_r_n(Register::A, 0x15);
    cpu.add_a(0x27);
    assert_eq!(cpu.get_a(), 0x3C);
    cpu.daa();
    assert_eq!(cpu.get_a(), 0x42);
    assert!(!cpu.get_carry_flag());
    assert!(!cpu.get_zero_flag());
    assert!(!cpu.get_half_carry_flag());
    // 0x90 + 0x90 in packed BCD is 0x80 carry 1.
    cpu.ld_r_n(Register::A, 0x90);
    cpu.add_a(0x90);
    cpu.daa();
    assert_eq!(cpu.get_a(), 0x80);
    assert!(cpu.get_carry_flag());
}

/// ADD SP,n sign-extends its offset, wraps the stack pointer, and
/// takes its flags from the low-byte addition; zero stays clear even
/// when the result is zero.
#[test]
fn add_sp_signed_offset() {
    let mut cpu = CPU::new();
    let mut mmu = MMU::new();
    cpu.ld_r_w(Register::SP, 0xFFF8);
    assert_eq!(
        cpu.execute(&mut mmu, Instruction::ADD(Register::SP, Register::BYTE), 0x08),
        Ok(16)
    );
    assert_eq!(cpu.get_sp(), 0x0000);
    assert!(!cpu.get_zero_flag());
    assert!(cpu.get_carry_flag());
    assert!(cpu.get_half_carry_flag());
}

/// LDHL SP,n places the adjusted stack pointer in HL; a negative
/// offset walks downward.
#[test]
fn ldhl_sp_offset() {
    let mut cpu = CPU::new();
    let mut mmu = MMU::new();
    cpu.ld_r_w(Register::SP, 0xFFF8);
    assert_eq!(
        cpu.execute(&mut mmu, Instruction::LDHL(Register::SP, Register::BYTE), 0xFD),
        Ok(12)
    );
    assert_eq!(cpu.get_hl(), 0xFFF5);
    assert_eq!(cpu.get_sp(), 0xFFF8);
    assert!(!cpu.get_sub_flag());
}

/// Conditional relative jumps: cost 12 cycles when taken, 8 when not,
/// and the offset is signed.
#[test]
fn relative_jump_cycles() {
    let mut ctx = new();
    // LD A,0x00; CP 0x00 (sets zero); JRZ +2; then from 0x0108: JRNZ -4.
    let rom = cart_with_entry(0x200, &[0x3E, 0x00, 0xFE, 0x00, 0x28, 0x02, 0x00, 0x00, 0x20, 0xFC]);
    ctx.load_bytes(&rom).unwrap();
    ctx.set_pc(0x0100);
    assert_eq!(ctx.step().unwrap().cycles, 8); // LD A,0x00
    assert_eq!(ctx.step().unwrap().cycles, 8); // CP 0x00
    assert!(ctx.cpu().get_zero_flag());
    assert_eq!(ctx.step().unwrap().cycles, 12); // JRZ taken
    assert_eq!(ctx.program_counter(), 0x0108);
    assert_eq!(ctx.step().unwrap().cycles, 8); // JRNZ not taken
    assert_eq!(ctx.program_counter(), 0x010A);
}

/// An unconditional relative jump with a negative offset walks
/// backward from the address after the operand.
#[test]
fn relative_jump_backward() {
    let mut ctx = new();
    let rom = cart_with_entry(0x200, &[0x18, 0xFE]);
    ctx.load_bytes(&rom).unwrap();
    ctx.set_pc(0x0100);
    let s = ctx.step().unwrap();
    assert_eq!(s.inst, Instruction::JR(Register::BYTE));
    assert_eq!(s.cycles, 12);
    assert_eq!(ctx.program_counter(), 0x0100);
}

/// INC (HL) is a read-modify-write against working RAM: LD HL,0xC050;
/// LD (HL),0x41; INC (HL); LD A,(HL) leaves 0x42 in the accumulator.
#[test]
fn inc_memory_through_step() {
    let mut ctx = new();
    let rom = cart_with_entry(0x200, &[0x21, 0x50, 0xC0, 0x36, 0x41, 0x34, 0x7E]);
    ctx.load_bytes(&rom).unwrap();
    ctx.set_pc(0x0100);
    ctx.step().unwrap(); // LD HL,0xC050
    let st = ctx.step().unwrap(); // LD (HL),0x41
    assert_eq!(st.cycles, 12);
    let inc = ctx.step().unwrap(); // INC (HL)
    assert_eq!(inc.inst, Instruction::INC(Register::HLM));
    assert_eq!(inc.cycles, 12);
    let ld = ctx.step().unwrap(); // LD A,(HL)
    assert_eq!(ld.inst, Instruction::LD(Register::A, Register::HL));
    assert_eq!(ld.cycles, 8);
    assert_eq!(ctx.cpu().get_a(), 0x42);
    assert_eq!(ctx.cpu().get_hl(), 0xC050);
}

/// CALL pushes the return address and RET pops it; the default stack
/// sits in zero-page RAM.
#[test]
fn call_and_return() {
    let mut ctx = new();
    let mut rom = cart_with_entry(0x200, &[0xCD, 0x10, 0x01]);
    rom[0x110] = 0xC9;
    ctx.load_bytes(&rom).unwrap();
    ctx.set_pc(0x0100);

    let s1 = ctx.step().unwrap();
    assert_eq!(s1.inst, Instruction::CALL(Register::WORD));
    assert_eq!(s1.cycles, 24);
    assert_eq!(ctx.program_counter(), 0x0110);
    assert_eq!(ctx.cpu().get_sp(), 0xFFFC);

    let s2 = ctx.step().unwrap();
    assert_eq!(s2.inst, Instruction::RET);
    assert_eq!(s2.cycles, 16);
    assert_eq!(ctx.program_counter(), 0x0103);
    assert_eq!(ctx.cpu().get_sp(), 0xFFFE);
}

/// The extended set through the 0xCB marker: BIT drives the zero flag
/// from the tested bit, SWAP exchanges nibbles, RLC rotates through
/// the top bit.
#[test]
fn extended_instructions_through_step() {
    let mut ctx = new();
    // LD H,0x80; BIT 7,H (0xCB 0x7C); SWAP A on A=0xF0 (LD A,0xF0 first).
    let rom = cart_with_entry(
        0x200,
        &[0x26, 0x80, 0xCB, 0x7C, 0x3E, 0xF0, 0xCB, 0x37, 0xCB, 0x07],
    );
    ctx.load_bytes(&rom).unwrap();
    ctx.set_pc(0x0100);
    ctx.step().unwrap(); // LD H,0x80
    let bit = ctx.step().unwrap();
    assert_eq!(bit.inst, Instruction::BIT(7, Register::H));
    assert_eq!(bit.cycles, 8);
    assert!(!ctx.cpu().get_zero_flag()); // bit 7 is set
    assert!(ctx.cpu().get_half_carry_flag());
    ctx.step().unwrap(); // LD A,0xF0
    let swap = ctx.step().unwrap();
    assert_eq!(swap.inst, Instruction::SWAP(Register::A));
    assert_eq!(ctx.cpu().get_a(), 0x0F);
    let rlc = ctx.step().unwrap();
    assert_eq!(rlc.inst, Instruction::RLC(Register::A));
    // 0x0F rotated left is 0x1E with no carry out.
    assert_eq!(ctx.cpu().get_a(), 0x1E);
    assert!(!ctx.cpu().get_carry_flag());
}

/// LDD writes through (HL) and decrements the pair.
#[test]
fn ldd_store_and_decrement() {
    let mut cpu = CPU::new();
    let mut mmu = MMU::new();
    cpu.ld_r_w(Register::HL, 0xC000);
    cpu.ld_r_n(Register::A, 0x77);
    cpu.ldd_r_r(&mut mmu, Register::HL, Register::A).unwrap();
    assert_eq!(cpu.get_hl(), 0xBFFF);
    assert_eq!(mmu.rb(0, 0xC000), Ok(0x77));
}

/// BIT against a register and against memory at (HL).
#[test]
fn bit_test_flags() {
    let mut cpu = CPU::new();
    let mut mmu = MMU::new();
    cpu.ld_r_n(Register::H, 0x00);
    cpu.bit_b_r(&mut mmu, 7, Register::H).unwrap();
    assert!(cpu.get_zero_flag());
    mmu.wb(0xC020, 0x08).unwrap();
    cpu.ld_r_w(Register::HL, 0xC020);
    cpu.bit_b_r(&mut mmu, 3, Register::HL).unwrap();
    assert!(!cpu.get_zero_flag());
}

/// 16-bit increments and decrements wrap and cost 8 cycles.
#[test]
fn wide_inc_dec() {
    let mut cpu = CPU::new();
    let mut mmu = MMU::new();
    assert_eq!(cpu.execute(&mut mmu, Instruction::INC(Register::BC), 0), Ok(8));
    assert_eq!(cpu.get_bc(), 1);
    assert_eq!(cpu.execute(&mut mmu, Instruction::DEC(Register::DE), 0), Ok(8));
    assert_eq!(cpu.get_de(), 0xFFFF);
}

/// 8-bit increment drives the half-carry at the nibble boundary and
/// leaves the carry flag alone.
#[test]
fn inc_half_carry() {
    let mut cpu = CPU::new();
    let mut mmu = MMU::new();
    cpu.ld_r_n(Register::B, 0x0F);
    cpu.scf();
    assert_eq!(cpu.execute(&mut mmu, Instruction::INC(Register::B), 0), Ok(4));
    assert_eq!(cpu.get_r8(Register::B), 0x10);
    assert!(cpu.get_half_carry_flag());
    assert!(cpu.get_carry_flag()); // unaffected
    assert!(!cpu.get_zero_flag());
}

/// Subtraction flags: borrow sets carry, equal operands set zero, and
/// subtract is always set.
#[test]
fn sub_and_compare_flags() {
    let mut cpu = CPU::new();
    cpu.ld_r_n(Register::A, 0x10);
    cpu.sub_a(0x20);
    assert_eq!(cpu.get_a(), 0xF0);
    assert!(cpu.get_carry_flag());
    assert!(cpu.get_sub_flag());
    assert!(!cpu.get_zero_flag());

    cpu.ld_r_n(Register::A, 0x3C);
    cpu.cp_a(0x3C);
    assert_eq!(cpu.get_a(), 0x3C);
    assert!(cpu.get_zero_flag());
    assert!(cpu.get_sub_flag());
}

/// ADD HL,rr: carry from bit 15, half-carry from bit 11, zero
/// untouched.
#[test]
fn add_hl_flags() {
    let mut cpu = CPU::new();
    let mut mmu = MMU::new();
    cpu.ld_r_w(Register::HL, 0x8A23);
    cpu.ld_r_w(Register::BC, 0x8A23);
    assert_eq!(cpu.execute(&mut mmu, Instruction::ADD(Register::HL, Register::BC), 0), Ok(8));
    assert_eq!(cpu.get_hl(), 0x1446);
    assert!(cpu.get_carry_flag());
    assert!(cpu.get_half_carry_flag());
    assert!(!cpu.get_sub_flag());
}

/// The 0xFF00-page loads: LDH writes into zero-page RAM and reads it
/// back; an LDH aimed at an unwired display register faults.
#[test]
fn ldh_page_loads() {
    let mut cpu = CPU::new();
    let mut mmu = MMU::new();
    cpu.ld_r_n(Register::A, 0x5C);
    assert_eq!(
        cpu.execute(&mut mmu, Instruction::LDH(Register::BYTE, Register::A), 0x80),
        Ok(12)
    );
    cpu.ld_r_n(Register::A, 0x00);
    assert_eq!(
        cpu.execute(&mut mmu, Instruction::LDH(Register::A, Register::BYTE), 0x80),
        Ok(12)
    );
    assert_eq!(cpu.get_a(), 0x5C);
    assert_eq!(
        cpu.execute(&mut mmu, Instruction::LDH(Register::BYTE, Register::A), 0x40),
        Err(RgbError::UnmappedRegion(0xFF40))
    );
}

/// HALT, STOP, DI and EI drive the run-state and interrupt bits.
#[test]
fn run_state_bits() {
    let mut cpu = CPU::new();
    let mut mmu = MMU::new();
    assert!(!cpu.get_halt());
    cpu.execute(&mut mmu, Instruction::HALT, 0).unwrap();
    assert!(cpu.get_halt());
    cpu.execute(&mut mmu, Instruction::STOP, 0).unwrap();
    assert!(cpu.get_stop());
    cpu.execute(&mut mmu, Instruction::EI, 0).unwrap();
    assert!(cpu.get_ime());
    cpu.execute(&mut mmu, Instruction::DI, 0).unwrap();
    assert!(!cpu.get_ime());
}

/// The reset handler restores the power-on state: zeroed registers
/// and flags, the stack pointer back at 0xFFFE.
#[test]
fn reset_state() {
    let mut cpu = CPU::new();
    cpu.ld_r_n(Register::A, 0x55);
    cpu.ld_r_w(Register::SP, 0xD000);
    cpu.scf();
    cpu.reset();
    assert_eq!(cpu.get_a(), 0);
    assert_eq!(cpu.get_sp(), 0xFFFE);
    assert_eq!(cpu.get_pc(), 0);
    assert!(!cpu.get_carry_flag());
}
