//! The decoder: totality over both opcode spaces and spot checks of the
//! table entries.

use rgb_emu::Instruction;
use rgb_emu::Register;
use rgb_emu::CPU;

/// Every one of the 256 opcode bytes decodes to some instruction;
/// unassigned opcodes decode to NOP rather than failing.
#[test]
fn decode_is_total() {
    for b in 0u16..=255 {
        let _inst = CPU::decode(b as u8);
    }
    // The unassigned opcodes of the base table all map to NOP.
    for b in [0xD3u8, 0xDB, 0xDD, 0xE3, 0xE4, 0xEB, 0xEC, 0xED, 0xF4, 0xFC, 0xFD] {
        assert_eq!(CPU::decode(b), Instruction::NOP);
    }
}

/// 0xCB always decodes to the extended-instruction marker.
#[test]
fn decode_ext_marker() {
    assert_eq!(CPU::decode(0xCB), Instruction::ExtInstr);
}

/// Every one of the 256 extended opcode bytes decodes to some
/// instruction.
#[test]
fn decode_extended_is_total() {
    for b in 0u16..=255 {
        let _inst = CPU::decode_extended(b as u8);
    }
}

#[test]
fn decode_base_table_entries() {
    assert_eq!(CPU::decode(0x00), Instruction::NOP);
    assert_eq!(CPU::decode(0x76), Instruction::HALT);
    assert_eq!(CPU::decode(0x10), Instruction::STOP);
    assert_eq!(CPU::decode(0xF3), Instruction::DI);
    assert_eq!(CPU::decode(0xFB), Instruction::EI);
    assert_eq!(CPU::decode(0x3E), Instruction::LD(Register::A, Register::BYTE));
    assert_eq!(CPU::decode(0x31), Instruction::LD(Register::SP, Register::WORD));
    assert_eq!(CPU::decode(0x32), Instruction::LDD(Register::HL, Register::A));
    assert_eq!(CPU::decode(0x2A), Instruction::LDI(Register::A, Register::HL));
    assert_eq!(CPU::decode(0xE0), Instruction::LDH(Register::BYTE, Register::A));
    assert_eq!(CPU::decode(0xC3), Instruction::JP(Register::WORD));
    assert_eq!(CPU::decode(0x20), Instruction::JRNZ(Register::BYTE));
    assert_eq!(CPU::decode(0xE9), Instruction::JPHL);
    assert_eq!(CPU::decode(0xCD), Instruction::CALL(Register::WORD));
    assert_eq!(CPU::decode(0xC9), Instruction::RET);
    assert_eq!(CPU::decode(0xD9), Instruction::RETI);
    assert_eq!(CPU::decode(0xC7), Instruction::RST(0x00));
    assert_eq!(CPU::decode(0xFF), Instruction::RST(0x38));
    assert_eq!(CPU::decode(0xF5), Instruction::PUSH(Register::AF));
    assert_eq!(CPU::decode(0xF1), Instruction::POP(Register::AF));
    assert_eq!(CPU::decode(0x27), Instruction::DAA);
    assert_eq!(CPU::decode(0x2F), Instruction::CPL);
    assert_eq!(CPU::decode(0x37), Instruction::SCF);
    assert_eq!(CPU::decode(0x3F), Instruction::CCF);
}

/// The regular load block: the destination sits in bits 3-5, the
/// source in bits 0-2, with 0x76 carved out for HALT.
#[test]
fn decode_load_matrix() {
    assert_eq!(CPU::decode(0x40), Instruction::LD(Register::B, Register::B));
    assert_eq!(CPU::decode(0x41), Instruction::LD(Register::B, Register::C));
    assert_eq!(CPU::decode(0x46), Instruction::LD(Register::B, Register::HL));
    // The H-destination row must map to H, not to any other register.
    assert_eq!(CPU::decode(0x60), Instruction::LD(Register::H, Register::B));
    assert_eq!(CPU::decode(0x67), Instruction::LD(Register::H, Register::A));
    assert_eq!(CPU::decode(0x70), Instruction::LD(Register::HL, Register::B));
    assert_eq!(CPU::decode(0x7F), Instruction::LD(Register::A, Register::A));
}

/// The regular arithmetic/logic block: the operation sits in bits 3-5,
/// the operand selector in bits 0-2.
#[test]
fn decode_alu_block() {
    assert_eq!(CPU::decode(0x80), Instruction::ADD(Register::A, Register::B));
    assert_eq!(CPU::decode(0x86), Instruction::ADD(Register::A, Register::HL));
    assert_eq!(CPU::decode(0x88), Instruction::ADC(Register::A, Register::B));
    assert_eq!(CPU::decode(0x97), Instruction::SUB(Register::A, Register::A));
    assert_eq!(CPU::decode(0x9E), Instruction::SBC(Register::A, Register::HL));
    assert_eq!(CPU::decode(0xA7), Instruction::AND(Register::A));
    assert_eq!(CPU::decode(0xAF), Instruction::XOR(Register::A));
    assert_eq!(CPU::decode(0xB0), Instruction::OR(Register::B));
    assert_eq!(CPU::decode(0xBE), Instruction::CP(Register::HL));
    assert_eq!(CPU::decode(0xDE), Instruction::SBC(Register::A, Register::BYTE));
}

/// The increment/decrement entries distinguish the 16-bit pair HL from
/// the byte in memory at (HL).
#[test]
fn decode_inc_dec() {
    assert_eq!(CPU::decode(0x3C), Instruction::INC(Register::A));
    assert_eq!(CPU::decode(0x23), Instruction::INC(Register::HL));
    assert_eq!(CPU::decode(0x34), Instruction::INC(Register::HLM));
    assert_eq!(CPU::decode(0x35), Instruction::DEC(Register::HLM));
    assert_eq!(CPU::decode(0x3B), Instruction::DEC(Register::SP));
}

/// The extended table is bit-indexed: BIT/RES/SET carry the bit index
/// from bits 3-5, 0 through 7, and the register selector from bits 0-2.
#[test]
fn decode_extended_entries() {
    assert_eq!(CPU::decode_extended(0x37), Instruction::SWAP(Register::A));
    assert_eq!(CPU::decode_extended(0x30), Instruction::SWAP(Register::B));
    assert_eq!(CPU::decode_extended(0x00), Instruction::RLC(Register::B));
    assert_eq!(CPU::decode_extended(0x11), Instruction::RL(Register::C));
    assert_eq!(CPU::decode_extended(0x0F), Instruction::RRC(Register::A));
    assert_eq!(CPU::decode_extended(0x1E), Instruction::RR(Register::HL));
    assert_eq!(CPU::decode_extended(0x27), Instruction::SLA(Register::A));
    assert_eq!(CPU::decode_extended(0x2B), Instruction::SRA(Register::E));
    assert_eq!(CPU::decode_extended(0x3F), Instruction::SRL(Register::A));
    assert_eq!(CPU::decode_extended(0x40), Instruction::BIT(0, Register::B));
    assert_eq!(CPU::decode_extended(0x4F), Instruction::BIT(1, Register::A));
    assert_eq!(CPU::decode_extended(0x7C), Instruction::BIT(7, Register::H));
    assert_eq!(CPU::decode_extended(0x7E), Instruction::BIT(7, Register::HL));
    assert_eq!(CPU::decode_extended(0x87), Instruction::RES(0, Register::A));
    assert_eq!(CPU::decode_extended(0xBE), Instruction::RES(7, Register::HL));
    assert_eq!(CPU::decode_extended(0xC0), Instruction::SET(0, Register::B));
    assert_eq!(CPU::decode_extended(0xFF), Instruction::SET(7, Register::A));
}
