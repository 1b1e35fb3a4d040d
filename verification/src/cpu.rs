//! Register vocabulary, instruction set and the CPU register file.

use vstd::prelude::*;

use crate::mmu::MMU;
use crate::mmu::MmuView;
use crate::RgbError;

verus! {

/// Register and operand-placeholder tags.
///
/// `C0` stands for the pseudo-register `(0xFF00 + C)`. `HLM` stands for
/// the byte in memory at address HL where the plain `HL` tag would be
/// ambiguous: `INC`/`DEC` carry `HL` for the 16-bit register pair and
/// `HLM` for the byte at `(HL)`; the 8-bit slots of every other
/// instruction follow the opcode table's own convention and carry `HL`
/// for the byte at `(HL)`. `BYTE` and `WORD` are sentinel placeholders
/// meaning that an immediate 8-bit or 16-bit value follows in the
/// instruction stream; they are resolved to concrete values during
/// operand fetch, never left unresolved into execute.
#[derive(Clone, Copy, Debug, PartialEq, Eq, Structural)]
pub enum Register {
    A,
    B,
    D,
    H,
    F,
    C,
    C0,
    HLM,
    E,
    L,
    AF,
    BC,
    DE,
    HL,
    SP,
    BYTE,
    WORD,
}

/// The closed instruction set: one tag per operation, parameterized by
/// register tags, a literal restart target, or a literal bit index.
#[derive(Clone, Copy, Debug, PartialEq, Eq, Structural)]
pub enum Instruction {
    ExtInstr,
    LD(Register, Register),
    LDD(Register, Register),
    LDI(Register, Register),
    LDH(Register, Register),
    LDHL(Register, Register),
    PUSH(Register),
    POP(Register),
    ADD(Register, Register),
    ADC(Register, Register),
    SUB(Register, Register),
    SBC(Register, Register),
    AND(Register),
    OR(Register),
    XOR(Register),
    CP(Register),
    INC(Register),
    DEC(Register),
    DAA,
    CPL,
    CCF,
    SCF,
    NOP,
    HALT,
    STOP,
    DI,
    EI,
    RLCA,
    RLA,
    RRCA,
    RRA,
    JP(Register),
    JPNZ(Register),
    JPZ(Register),
    JPNC(Register),
    JPC(Register),
    JPHL,
    JR(Register),
    JRNZ(Register),
    JRZ(Register),
    JRNC(Register),
    JRC(Register),
    CALL(Register),
    CALLNZ(Register),
    CALLZ(Register),
    CALLNC(Register),
    CALLC(Register),
    RST(u8),
    RET,
    RETNZ,
    RETZ,
    RETNC,
    RETC,
    RETI,
    SWAP(Register),
    RLC(Register),
    RL(Register),
    RRC(Register),
    RR(Register),
    SLA(Register),
    SRA(Register),
    SRL(Register),
    BIT(u8, Register),
    SET(u8, Register),
    RES(u8, Register),
}

/// The register file, flags and run state as plain values, for
/// contracts.
pub ghost struct CpuView {
    pub a: u8,
    pub b: u8,
    pub c: u8,
    pub d: u8,
    pub e: u8,
    pub h: u8,
    pub l: u8,
    pub pc: u16,
    pub sp: u16,
    pub zero: bool,
    pub sub: bool,
    pub half: bool,
    pub carry: bool,
    pub halt: bool,
    pub stop: bool,
    pub ime: bool,
}

/// The 16-bit value with high byte `h` and low byte `l`.
pub open spec fn spec_word(h: u8, l: u8) -> u16 {
    (h * 256 + l) as u16
}

impl CpuView {
    /// The register pair HL, high byte first.
    pub open spec fn hl(self) -> u16 {
        spec_word(self.h, self.l)
    }

    /// The register pair BC, high byte first.
    pub open spec fn bc(self) -> u16 {
        spec_word(self.b, self.c)
    }

    /// The register pair DE, high byte first.
    pub open spec fn de(self) -> u16 {
        spec_word(self.d, self.e)
    }

    /// The flags register packed into a byte: bit 7 zero, bit 6
    /// subtract, bit 5 half-carry, bit 4 carry, low nibble always zero.
    pub open spec fn flags_byte(self) -> u8 {
        ((if self.zero {
            0x80int
        } else {
            0int
        }) + (if self.sub {
            0x40int
        } else {
            0int
        }) + (if self.half {
            0x20int
        } else {
            0int
        }) + (if self.carry {
            0x10int
        } else {
            0int
        })) as u8
    }

    /// The register pair AF: the accumulator, then the packed flag byte.
    pub open spec fn af(self) -> u16 {
        spec_word(self.a, self.flags_byte())
    }

    /// The value of the 8-bit register `r`.
    pub open spec fn r8(self, r: Register) -> u8 {
        match r {
            Register::A => self.a,
            Register::B => self.b,
            Register::C => self.c,
            Register::D => self.d,
            Register::E => self.e,
            Register::H => self.h,
            Register::L => self.l,
            _ => 0,
        }
    }

    /// This view with the 8-bit register `r` set to `v`.
    pub open spec fn with_r8(self, r: Register, v: u8) -> CpuView {
        match r {
            Register::A => CpuView { a: v, ..self },
            Register::B => CpuView { b: v, ..self },
            Register::C => CpuView { c: v, ..self },
            Register::D => CpuView { d: v, ..self },
            Register::E => CpuView { e: v, ..self },
            Register::H => CpuView { h: v, ..self },
            Register::L => CpuView { l: v, ..self },
            _ => self,
        }
    }

    /// This view with all four flags replaced.
    pub open spec fn with_flags(self, zero: bool, sub: bool, half: bool, carry: bool) -> CpuView {
        CpuView { zero, sub, half, carry, ..self }
    }
}

impl CpuView {
    /// The value of the 16-bit register pair `r` (`AF` packs the flag
    /// byte into the low half; `SP` is the stack pointer itself).
    pub open spec fn r16(self, r: Register) -> u16 {
        match r {
            Register::AF => self.af(),
            Register::BC => self.bc(),
            Register::DE => self.de(),
            Register::HL => self.hl(),
            Register::SP => self.sp,
            _ => 0,
        }
    }

    /// This view with the 16-bit register pair `r` set to `w`. Loading
    /// AF unpacks the four flags from the low byte's high nibble; the
    /// low nibble is discarded, so the stored flag byte always has a
    /// zero low nibble.
    pub open spec fn with_r16(self, r: Register, w: u16) -> CpuView {
        let hi = (w / 256) as u8;
        let lo = (w % 256) as u8;
        match r {
            Register::AF => CpuView {
                a: hi,
                zero: (lo / 128) % 2 == 1,
                sub: (lo / 64) % 2 == 1,
                half: (lo / 32) % 2 == 1,
                carry: (lo / 16) % 2 == 1,
                ..self
            },
            Register::BC => CpuView { b: hi, c: lo, ..self },
            Register::DE => CpuView { d: hi, e: lo, ..self },
            Register::HL => CpuView { h: hi, l: lo, ..self },
            Register::SP => CpuView { sp: w, ..self },
            _ => self,
        }
    }
}

/// 8-bit addition into the accumulator with a carry-in: the new view
/// after `A <- A + v + cin`, with the exact flag rules. The zero flag is
/// set iff the masked result is zero; the half-carry flag is set iff the
/// low-nibble sum crosses the bit 3 to 4 boundary; the carry flag is set
/// iff the sum overflows 8 bits. Computed with a wider accumulator, never
/// by a post-hoc test of the masked value.
pub open spec fn spec_alu_add(c: CpuView, v: u8, cin: u8) -> CpuView {
    let s = c.a + v + cin;
    CpuView {
        a: (s % 256) as u8,
        zero: s % 256 == 0,
        sub: false,
        half: c.a % 16 + v % 16 + cin > 15,
        carry: s > 255,
        ..c
    }
}

/// 8-bit subtraction from the accumulator with a borrow-in: the new view
/// after `A <- A - v - cin`. The carry flag is the full borrow, the
/// half-carry flag the borrow out of the low nibble.
pub open spec fn spec_alu_sub(c: CpuView, v: u8, cin: u8) -> CpuView {
    let d = (c.a + 256 - v - cin) % 256;
    CpuView {
        a: d as u8,
        zero: d == 0,
        sub: true,
        half: c.a % 16 < v % 16 + cin,
        carry: c.a < v + cin,
        ..c
    }
}

/// Comparison: the flags of `A - v`, the accumulator unchanged.
pub open spec fn spec_alu_cp(c: CpuView, v: u8) -> CpuView {
    CpuView { a: c.a, ..spec_alu_sub(c, v, 0) }
}

/// Logical AND into the accumulator: zero by the result, subtract and
/// carry clear, half-carry set.
pub open spec fn spec_alu_and(c: CpuView, v: u8) -> CpuView {
    CpuView { a: c.a & v, zero: (c.a & v) == 0, sub: false, half: true, carry: false, ..c }
}

/// Logical OR into the accumulator: zero by the result, the other flags
/// clear.
pub open spec fn spec_alu_or(c: CpuView, v: u8) -> CpuView {
    CpuView { a: c.a | v, zero: (c.a | v) == 0, sub: false, half: false, carry: false, ..c }
}

/// Logical exclusive OR into the accumulator: zero by the result, the
/// other flags clear.
pub open spec fn spec_alu_xor(c: CpuView, v: u8) -> CpuView {
    CpuView { a: c.a ^ v, zero: (c.a ^ v) == 0, sub: false, half: false, carry: false, ..c }
}

/// 16-bit addition into HL: carry out of bit 15, half-carry out of bit
/// 11, subtract clear, zero unaffected.
pub open spec fn spec_add_hl(c: CpuView, v: u16) -> CpuView {
    let s = c.hl() + v;
    CpuView {
        h: ((s % 0x10000) / 256) as u8,
        l: (s % 256) as u8,
        sub: false,
        half: c.hl() % 0x1000 + v % 0x1000 > 0xFFF,
        carry: s > 0xFFFF,
        ..c
    }
}

/// 8-bit increment: the result and the view with its flags (zero by the
/// result, subtract clear, half-carry iff the low nibble was 0xF); the
/// carry flag is not affected.
pub open spec fn spec_inc8(c: CpuView, v: u8) -> (CpuView, u8) {
    let res = ((v + 1) % 256) as u8;
    (c.with_flags(res == 0, false, v % 16 == 15, c.carry), res)
}

/// 8-bit decrement: zero by the result, subtract set, half-carry iff the
/// low nibble borrows; the carry flag is not affected.
pub open spec fn spec_dec8(c: CpuView, v: u8) -> (CpuView, u8) {
    let res = ((v + 255) % 256) as u8;
    (c.with_flags(res == 0, true, v % 16 == 0, c.carry), res)
}

/// Nibble swap: zero by the result, the other flags clear.
pub open spec fn spec_swap8(c: CpuView, v: u8) -> (CpuView, u8) {
    let res = ((v % 16) * 16 + v / 16) as u8;
    (c.with_flags(res == 0, false, false, false), res)
}

/// Rotate left; old bit 7 into the carry flag and into bit 0.
pub open spec fn spec_rlc8(c: CpuView, v: u8) -> (CpuView, u8) {
    let res = ((v * 2 + v / 128) % 256) as u8;
    (c.with_flags(res == 0, false, false, v >= 0x80), res)
}

/// Rotate left through the carry flag; old bit 7 into carry.
pub open spec fn spec_rl8(c: CpuView, v: u8) -> (CpuView, u8) {
    let res = ((v * 2 + (if c.carry {
        1int
    } else {
        0int
    })) % 256) as u8;
    (c.with_flags(res == 0, false, false, v >= 0x80), res)
}

/// Rotate right; old bit 0 into the carry flag and into bit 7.
pub open spec fn spec_rrc8(c: CpuView, v: u8) -> (CpuView, u8) {
    let res = ((v / 2) + (v % 2) * 128) as u8;
    (c.with_flags(res == 0, false, false, v % 2 == 1), res)
}

/// Rotate right through the carry flag; old bit 0 into carry.
pub open spec fn spec_rr8(c: CpuView, v: u8) -> (CpuView, u8) {
    let res = ((v / 2) + (if c.carry {
        128int
    } else {
        0int
    })) as u8;
    (c.with_flags(res == 0, false, false, v % 2 == 1), res)
}

/// Shift left into the carry flag; bit 0 becomes zero.
pub open spec fn spec_sla8(c: CpuView, v: u8) -> (CpuView, u8) {
    let res = ((v * 2) % 256) as u8;
    (c.with_flags(res == 0, false, false, v >= 0x80), res)
}

/// Arithmetic shift right into the carry flag; bit 7 keeps its value.
pub open spec fn spec_sra8(c: CpuView, v: u8) -> (CpuView, u8) {
    let res = ((v / 2) + (if v >= 0x80 {
        128int
    } else {
        0int
    })) as u8;
    (c.with_flags(res == 0, false, false, v % 2 == 1), res)
}

/// Logical shift right into the carry flag; bit 7 becomes zero.
pub open spec fn spec_srl8(c: CpuView, v: u8) -> (CpuView, u8) {
    let res = v / 2;
    (c.with_flags(res == 0, false, false, v % 2 == 1), res)
}

/// Bit test: zero iff bit `b` of `v` is clear, subtract cleared,
/// half-carry set, carry unaffected.
pub open spec fn spec_bit_test(c: CpuView, b: u8, v: u8) -> CpuView {
    c.with_flags((v >> b) % 2 == 0, false, true, c.carry)
}

/// Decimal adjust after an addition or subtraction: brings the
/// accumulator back to packed binary-coded decimal, one 0x60 step for
/// the full carry and one 0x06 step for the nibble, both wrapping.
/// After an addition the steps are also taken when the digit ranges
/// overflow and the carry flag is set by the high step; after a
/// subtraction only the recorded borrows are undone. Zero follows the
/// result, half-carry is always cleared.
pub open spec fn spec_daa(c: CpuView) -> CpuView {
    if !c.sub {
        let cy = c.carry || c.a > 0x99;
        let a1 = if cy {
            ((c.a + 0x60) % 256) as u8
        } else {
            c.a
        };
        let a2 = if c.half || a1 % 16 > 9 {
            ((a1 + 0x06) % 256) as u8
        } else {
            a1
        };
        CpuView { a: a2, zero: a2 == 0, half: false, carry: cy, ..c }
    } else {
        let a1 = if c.carry {
            ((c.a + 256 - 0x60) % 256) as u8
        } else {
            c.a
        };
        let a2 = if c.half {
            ((a1 + 256 - 0x06) % 256) as u8
        } else {
            a1
        };
        CpuView { a: a2, zero: a2 == 0, half: false, ..c }
    }
}

/// The stack pointer plus a sign-extended offset byte, with the flags
/// of the low-byte unsigned addition: half-carry out of bit 3, carry
/// out of bit 7, zero and subtract always clear. Shared by ADD SP,n
/// and LDHL SP,n.
pub open spec fn spec_sp_plus(c: CpuView, n: u8) -> (u16, bool, bool) {
    (spec_jr_target(c.sp, n), c.sp % 16 + n % 16 > 15, c.sp % 256 + n > 255)
}

/// The jump target of a relative jump: the program counter plus the
/// sign-extended offset byte, modulo 2^16.
pub open spec fn spec_jr_target(pc: u16, offset: u8) -> u16 {
    pc.wrapping_add(
        if offset < 128 {
            offset as u16
        } else {
            (offset + 0xFF00) as u16
        },
    )
}

/// Pushing a word: the stack pointer moves down twice, the high byte is
/// written first (at the higher address), then the low byte. A write
/// fault leaves the registers unchanged and the memory as far as the
/// fault got.
pub open spec fn spec_push(c: CpuView, m: MmuView, w: u16) -> (CpuView, MmuView, Result<
    (),
    RgbError,
>) {
    let sp1 = c.sp.wrapping_sub(1);
    let sp2 = c.sp.wrapping_sub(2);
    match m.write(sp1, (w / 256) as u8) {
        Ok(m1) => match m1.write(sp2, (w % 256) as u8) {
            Ok(m2) => (CpuView { sp: sp2, ..c }, m2, Ok(())),
            Err(e) => (c, m1, Err(e)),
        },
        Err(e) => (c, m, Err(e)),
    }
}

/// Popping a word: the low byte is read at the stack pointer, the high
/// byte above it, and the stack pointer moves up twice. The boot-overlay
/// check applies to the reads.
pub open spec fn spec_pop(c: CpuView, m: MmuView) -> (CpuView, MmuView, Result<u16, RgbError>) {
    let m1 = m.bios_checked(c.pc);
    match m1.read(c.sp) {
        Ok(lo) => match m1.read(c.sp.wrapping_add(1)) {
            Ok(hi) => (CpuView { sp: c.sp.wrapping_add(2), ..c }, m1, Ok(spec_word(hi, lo))),
            Err(e) => (c, m1, Err(e)),
        },
        Err(e) => (c, m1, Err(e)),
    }
}

/// Is `r` one of the seven plain 8-bit registers?
pub open spec fn spec_is_r8(r: Register) -> bool {
    r == Register::A || r == Register::B || r == Register::C || r == Register::D || r == Register::E
        || r == Register::H || r == Register::L
}

/// Can `r` stand in the operand slot of an 8-bit arithmetic or logic
/// instruction? A plain register, an immediate byte, or the byte at
/// (HL).
pub open spec fn spec_alu_src_ok(r: Register) -> bool {
    spec_is_r8(r) || r == Register::BYTE || r == Register::HL
}

/// `v` with bit `b` set.
pub open spec fn spec_set_bit(v: u8, b: u8) -> u8 {
    v | (1u8 << b)
}

/// `v` with bit `b` cleared.
pub open spec fn spec_res_bit(v: u8, b: u8) -> u8 {
    v & (0xFFu8 ^ (1u8 << b))
}

/// How many immediate operand bytes follow an instruction in the
/// instruction stream: none, one (a BYTE slot), or two (a WORD slot,
/// little-endian).
#[derive(Clone, Copy, Debug, PartialEq, Eq, Structural)]
pub enum OperandKind {
    Plain,
    Imm8,
    Imm16,
}

/// The operand bytes an instruction needs, read off its placeholder
/// slots.
pub open spec fn spec_operand_kind(inst: Instruction) -> OperandKind {
    match inst {
        Instruction::LD(a, b) | Instruction::LDD(a, b) | Instruction::LDI(a, b)
            | Instruction::LDH(a, b) | Instruction::LDHL(a, b) | Instruction::ADD(a, b)
            | Instruction::ADC(a, b) | Instruction::SUB(a, b) | Instruction::SBC(a, b) => if a
            == Register::WORD || b == Register::WORD {
            OperandKind::Imm16
        } else if a == Register::BYTE || b == Register::BYTE {
            OperandKind::Imm8
        } else {
            OperandKind::Plain
        },
        Instruction::AND(r) | Instruction::OR(r) | Instruction::XOR(r) | Instruction::CP(r)
            | Instruction::INC(r) | Instruction::DEC(r) | Instruction::PUSH(r)
            | Instruction::POP(r) | Instruction::JP(r) | Instruction::JPNZ(r)
            | Instruction::JPZ(r) | Instruction::JPNC(r) | Instruction::JPC(r)
            | Instruction::JR(r) | Instruction::JRNZ(r) | Instruction::JRZ(r)
            | Instruction::JRNC(r) | Instruction::JRC(r) | Instruction::CALL(r)
            | Instruction::CALLNZ(r) | Instruction::CALLZ(r) | Instruction::CALLNC(r)
            | Instruction::CALLC(r) => if r == Register::WORD {
            OperandKind::Imm16
        } else if r == Register::BYTE {
            OperandKind::Imm8
        } else {
            OperandKind::Plain
        },
        _ => OperandKind::Plain,
    }
}

/// Resolves the 8-bit operand of an arithmetic or logic instruction:
/// the named register's value, the immediate byte, or the byte at (HL)
/// (read under the boot-overlay check), together with the instruction's
/// clock-cycle cost.
pub open spec fn spec_alu_operand(c: CpuView, m: MmuView, src: Register, data: u16) -> (
    MmuView,
    Result<(u8, u64), RgbError>,
) {
    if spec_is_r8(src) {
        (m, Ok((c.r8(src), 4)))
    } else if src == Register::BYTE {
        (m, Ok(((data % 256) as u8, 8)))
    } else {
        let m1 = m.bios_checked(c.pc);
        match m1.read(c.hl()) {
            Ok(v) => (m1, Ok((v, 8))),
            Err(e) => (m1, Err(e)),
        }
    }
}

/// The rotate/shift/swap family applied to one byte, selected by the
/// instruction tag; `None` for any other tag.
pub open spec fn spec_rot_result(inst: Instruction, c: CpuView, v: u8) -> Option<(CpuView, u8)> {
    match inst {
        Instruction::SWAP(_) => Some(spec_swap8(c, v)),
        Instruction::RLC(_) => Some(spec_rlc8(c, v)),
        Instruction::RL(_) => Some(spec_rl8(c, v)),
        Instruction::RRC(_) => Some(spec_rrc8(c, v)),
        Instruction::RR(_) => Some(spec_rr8(c, v)),
        Instruction::SLA(_) => Some(spec_sla8(c, v)),
        Instruction::SRA(_) => Some(spec_sra8(c, v)),
        Instruction::SRL(_) => Some(spec_srl8(c, v)),
        _ => None,
    }
}

/// Executing a load between the places its two register tags name:
/// plain registers, immediate values, and the memory bytes the pair
/// tags stand for. The result is the machine after the load, or the
/// fault the memory routing raised.
pub open spec fn spec_exec_ld(c: CpuView, m: MmuView, dst: Register, src: Register, data: u16) -> (
    CpuView,
    MmuView,
    Result<u64, RgbError>,
) {
    if spec_is_r8(dst) {
        if spec_is_r8(src) {
            (c.with_r8(dst, c.r8(src)), m, Ok(4))
        } else if src == Register::BYTE {
            (c.with_r8(dst, (data % 256) as u8), m, Ok(8))
        } else if src == Register::HL || src == Register::BC || src == Register::DE {
            let m1 = m.bios_checked(c.pc);
            match m1.read(c.r16(src)) {
                Ok(v) => (c.with_r8(dst, v), m1, Ok(8)),
                Err(e) => (c, m1, Err(e)),
            }
        } else if src == Register::WORD && dst == Register::A {
            let m1 = m.bios_checked(c.pc);
            match m1.read(data) {
                Ok(v) => (c.with_r8(dst, v), m1, Ok(16)),
                Err(e) => (c, m1, Err(e)),
            }
        } else if src == Register::C0 && dst == Register::A {
            let m1 = m.bios_checked(c.pc);
            match m1.read((0xFF00 + c.c) as u16) {
                Ok(v) => (c.with_r8(dst, v), m1, Ok(8)),
                Err(e) => (c, m1, Err(e)),
            }
        } else {
            (c, m, Err(RgbError::Unimplemented(Instruction::LD(dst, src))))
        }
    } else if dst == Register::HL && spec_is_r8(src) {
        match m.write(c.hl(), c.r8(src)) {
            Ok(m2) => (c, m2, Ok(8)),
            Err(e) => (c, m, Err(e)),
        }
    } else if dst == Register::HL && src == Register::BYTE {
        match m.write(c.hl(), (data % 256) as u8) {
            Ok(m2) => (c, m2, Ok(12)),
            Err(e) => (c, m, Err(e)),
        }
    } else if (dst == Register::BC || dst == Register::DE) && src == Register::A {
        match m.write(c.r16(dst), c.a) {
            Ok(m2) => (c, m2, Ok(8)),
            Err(e) => (c, m, Err(e)),
        }
    } else if dst == Register::C0 && src == Register::A {
        match m.write((0xFF00 + c.c) as u16, c.a) {
            Ok(m2) => (c, m2, Ok(8)),
            Err(e) => (c, m, Err(e)),
        }
    } else if dst == Register::WORD && src == Register::A {
        match m.write(data, c.a) {
            Ok(m2) => (c, m2, Ok(16)),
            Err(e) => (c, m, Err(e)),
        }
    } else if dst == Register::WORD && src == Register::SP {
        match m.write(data, (c.sp % 256) as u8) {
            Ok(m1) => match m1.write(data.wrapping_add(1), (c.sp / 256) as u8) {
                Ok(m2) => (c, m2, Ok(20)),
                Err(e) => (c, m1, Err(e)),
            },
            Err(e) => (c, m, Err(e)),
        }
    } else if (dst == Register::BC || dst == Register::DE || dst == Register::HL || dst
        == Register::SP) && src == Register::WORD {
        (c.with_r16(dst, data), m, Ok(12))
    } else if dst == Register::SP && src == Register::HL {
        (c.with_r16(Register::SP, c.hl()), m, Ok(8))
    } else {
        (c, m, Err(RgbError::Unimplemented(Instruction::LD(dst, src))))
    }
}

/// The rotate/shift/swap family executed against a register or the
/// byte at (HL).
pub open spec fn spec_exec_rot(c: CpuView, m: MmuView, inst: Instruction, r: Register) -> (
    CpuView,
    MmuView,
    Result<u64, RgbError>,
) {
    if spec_is_r8(r) {
        match spec_rot_result(inst, c, c.r8(r)) {
            Some(t) => (t.0.with_r8(r, t.1), m, Ok(8)),
            None => (c, m, Err(RgbError::Unimplemented(inst))),
        }
    } else if r == Register::HL {
        let m1 = m.bios_checked(c.pc);
        match m1.read(c.hl()) {
            Ok(v) => match spec_rot_result(inst, c, v) {
                Some(t) => match m1.write(c.hl(), t.1) {
                    Ok(m2) => (t.0, m2, Ok(16)),
                    Err(e) => (t.0, m1, Err(e)),
                },
                None => (c, m1, Err(RgbError::Unimplemented(inst))),
            },
            Err(e) => (c, m1, Err(e)),
        }
    } else {
        (c, m, Err(RgbError::Unimplemented(inst)))
    }
}

/// The no-operand instructions executed against the machine: the
/// control and flag operations, the accumulator rotates, the decimal
/// adjust, and the jump to the address in HL.
pub open spec fn spec_exec_misc(c: CpuView, m: MmuView, inst: Instruction, data: u16) -> (
    CpuView,
    MmuView,
    Result<u64, RgbError>,
) {
    match inst {
        Instruction::NOP => (c, m, Ok(4)),
        Instruction::HALT => (CpuView { halt: true, ..c }, m, Ok(4)),
        Instruction::STOP => (CpuView { stop: true, ..c }, m, Ok(4)),
        Instruction::DI => (CpuView { ime: false, ..c }, m, Ok(4)),
        Instruction::EI => (CpuView { ime: true, ..c }, m, Ok(4)),
        Instruction::CPL => (
            CpuView { a: (255 - c.a) as u8, sub: true, half: true, ..c },
            m,
            Ok(4),
        ),
        Instruction::SCF => (CpuView { carry: true, sub: false, half: false, ..c }, m, Ok(4)),
        Instruction::CCF => (
            CpuView { carry: !c.carry, sub: false, half: false, ..c },
            m,
            Ok(4),
        ),
        Instruction::DAA => (spec_daa(c), m, Ok(4)),
        Instruction::RLCA => {
            let t = spec_rlc8(c, c.a);
            (CpuView { zero: false, ..t.0.with_r8(Register::A, t.1) }, m, Ok(4))
        },
        Instruction::RLA => {
            let t = spec_rl8(c, c.a);
            (CpuView { zero: false, ..t.0.with_r8(Register::A, t.1) }, m, Ok(4))
        },
        Instruction::RRCA => {
            let t = spec_rrc8(c, c.a);
            (CpuView { zero: false, ..t.0.with_r8(Register::A, t.1) }, m, Ok(4))
        },
        Instruction::RRA => {
            let t = spec_rr8(c, c.a);
            (CpuView { zero: false, ..t.0.with_r8(Register::A, t.1) }, m, Ok(4))
        },
        Instruction::JPHL => (CpuView { pc: c.hl(), ..c }, m, Ok(4)),
        _ => (c, m, Err(RgbError::Unimplemented(inst))),
    }
}

/// The post-decrement/increment loads, the 0xFF00-page loads and the
/// stack-relative HL load executed against the machine.
pub open spec fn spec_exec_mem_ld(c: CpuView, m: MmuView, inst: Instruction, data: u16) -> (
    CpuView,
    MmuView,
    Result<u64, RgbError>,
) {
    match inst {
        Instruction::LDD(ra, rb) => if ra == Register::HL && rb == Register::A {
            match m.write(c.hl(), c.a) {
                Ok(m2) => (c.with_r16(Register::HL, c.hl().wrapping_sub(1)), m2, Ok(8)),
                Err(e) => (c, m, Err(e)),
            }
        } else if ra == Register::A && rb == Register::HL {
            let m1 = m.bios_checked(c.pc);
            match m1.read(c.hl()) {
                Ok(v) => (
                    c.with_r8(Register::A, v).with_r16(Register::HL, c.hl().wrapping_sub(1)),
                    m1,
                    Ok(8),
                ),
                Err(e) => (c, m1, Err(e)),
            }
        } else {
            (c, m, Err(RgbError::Unimplemented(inst)))
        },
        Instruction::LDI(ra, rb) => if ra == Register::HL && rb == Register::A {
            match m.write(c.hl(), c.a) {
                Ok(m2) => (c.with_r16(Register::HL, c.hl().wrapping_add(1)), m2, Ok(8)),
                Err(e) => (c, m, Err(e)),
            }
        } else if ra == Register::A && rb == Register::HL {
            let m1 = m.bios_checked(c.pc);
            match m1.read(c.hl()) {
                Ok(v) => (
                    c.with_r8(Register::A, v).with_r16(Register::HL, c.hl().wrapping_add(1)),
                    m1,
                    Ok(8),
                ),
                Err(e) => (c, m1, Err(e)),
            }
        } else {
            (c, m, Err(RgbError::Unimplemented(inst)))
        },
        Instruction::LDH(ra, rb) => if ra == Register::BYTE && rb == Register::A {
            match m.write((0xFF00 + data % 256) as u16, c.a) {
                Ok(m2) => (c, m2, Ok(12)),
                Err(e) => (c, m, Err(e)),
            }
        } else if ra == Register::A && rb == Register::BYTE {
            let m1 = m.bios_checked(c.pc);
            match m1.read((0xFF00 + data % 256) as u16) {
                Ok(v) => (c.with_r8(Register::A, v), m1, Ok(12)),
                Err(e) => (c, m1, Err(e)),
            }
        } else {
            (c, m, Err(RgbError::Unimplemented(inst)))
        },
        Instruction::LDHL(ra, rb) => if ra == Register::SP && rb == Register::BYTE {
            let t = spec_sp_plus(c, (data % 256) as u8);
            (c.with_flags(false, false, t.1, t.2).with_r16(Register::HL, t.0), m, Ok(12))
        } else {
            (c, m, Err(RgbError::Unimplemented(inst)))
        },
        _ => (c, m, Err(RgbError::Unimplemented(inst))),
    }
}

/// The stack instructions (push, pop, calls, restarts, returns)
/// executed against the machine.
pub open spec fn spec_exec_stack(c: CpuView, m: MmuView, inst: Instruction, data: u16) -> (
    CpuView,
    MmuView,
    Result<u64, RgbError>,
) {
    match inst {
        Instruction::PUSH(rr) => if rr == Register::AF || rr == Register::BC || rr == Register::DE
            || rr == Register::HL {
            let t = spec_push(c, m, c.r16(rr));
            (
                t.0,
                t.1,
                match t.2 {
                    Ok(_) => Ok(16),
                    Err(e) => Err(e),
                },
            )
        } else {
            (c, m, Err(RgbError::Unimplemented(inst)))
        },
        Instruction::POP(rr) => if rr == Register::AF || rr == Register::BC || rr == Register::DE
            || rr == Register::HL {
            let t = spec_pop(c, m);
            match t.2 {
                Ok(w) => (t.0.with_r16(rr, w), t.1, Ok(12)),
                Err(e) => (t.0, t.1, Err(e)),
            }
        } else {
            (c, m, Err(RgbError::Unimplemented(inst)))
        },
        Instruction::CALL(r) => if r == Register::WORD {
            let t = spec_push(c, m, c.pc);
            match t.2 {
                Ok(_) => (CpuView { pc: data, ..t.0 }, t.1, Ok(24)),
                Err(e) => (t.0, t.1, Err(e)),
            }
        } else {
            (c, m, Err(RgbError::Unimplemented(inst)))
        },
        Instruction::CALLNZ(r) => if r == Register::WORD {
            if !c.zero {
                let t = spec_push(c, m, c.pc);
                match t.2 {
                    Ok(_) => (CpuView { pc: data, ..t.0 }, t.1, Ok(24)),
                    Err(e) => (t.0, t.1, Err(e)),
                }
            } else {
                (c, m, Ok(12))
            }
        } else {
            (c, m, Err(RgbError::Unimplemented(inst)))
        },
        Instruction::CALLZ(r) => if r == Register::WORD {
            if c.zero {
                let t = spec_push(c, m, c.pc);
                match t.2 {
                    Ok(_) => (CpuView { pc: data, ..t.0 }, t.1, Ok(24)),
                    Err(e) => (t.0, t.1, Err(e)),
                }
            } else {
                (c, m, Ok(12))
            }
        } else {
            (c, m, Err(RgbError::Unimplemented(inst)))
        },
        Instruction::CALLNC(r) => if r == Register::WORD {
            if !c.carry {
                let t = spec_push(c, m, c.pc);
                match t.2 {
                    Ok(_) => (CpuView { pc: data, ..t.0 }, t.1, Ok(24)),
                    Err(e) => (t.0, t.1, Err(e)),
                }
            } else {
                (c, m, Ok(12))
            }
        } else {
            (c, m, Err(RgbError::Unimplemented(inst)))
        },
        Instruction::CALLC(r) => if r == Register::WORD {
            if c.carry {
                let t = spec_push(c, m, c.pc);
                match t.2 {
                    Ok(_) => (CpuView { pc: data, ..t.0 }, t.1, Ok(24)),
                    Err(e) => (t.0, t.1, Err(e)),
                }
            } else {
                (c, m, Ok(12))
            }
        } else {
            (c, m, Err(RgbError::Unimplemented(inst)))
        },
        Instruction::RST(target) => {
            let t = spec_push(c, m, c.pc);
            match t.2 {
                Ok(_) => (CpuView { pc: target as u16, ..t.0 }, t.1, Ok(16)),
                Err(e) => (t.0, t.1, Err(e)),
            }
        },
        Instruction::RET => {
            let t = spec_pop(c, m);
            match t.2 {
                Ok(w) => (CpuView { pc: w, ..t.0 }, t.1, Ok(16)),
                Err(e) => (t.0, t.1, Err(e)),
            }
        },
        Instruction::RETI => {
            let t = spec_pop(c, m);
            match t.2 {
                Ok(w) => (CpuView { pc: w, ime: true, ..t.0 }, t.1, Ok(16)),
                Err(e) => (t.0, t.1, Err(e)),
            }
        },
        Instruction::RETNZ => if !c.zero {
            let t = spec_pop(c, m);
            match t.2 {
                Ok(w) => (CpuView { pc: w, ..t.0 }, t.1, Ok(20)),
                Err(e) => (t.0, t.1, Err(e)),
            }
        } else {
            (c, m, Ok(8))
        },
        Instruction::RETZ => if c.zero {
            let t = spec_pop(c, m);
            match t.2 {
                Ok(w) => (CpuView { pc: w, ..t.0 }, t.1, Ok(20)),
                Err(e) => (t.0, t.1, Err(e)),
            }
        } else {
            (c, m, Ok(8))
        },
        Instruction::RETNC => if !c.carry {
            let t = spec_pop(c, m);
            match t.2 {
                Ok(w) => (CpuView { pc: w, ..t.0 }, t.1, Ok(20)),
                Err(e) => (t.0, t.1, Err(e)),
            }
        } else {
            (c, m, Ok(8))
        },
        Instruction::RETC => if c.carry {
            let t = spec_pop(c, m);
            match t.2 {
                Ok(w) => (CpuView { pc: w, ..t.0 }, t.1, Ok(20)),
                Err(e) => (t.0, t.1, Err(e)),
            }
        } else {
            (c, m, Ok(8))
        },
        _ => (c, m, Err(RgbError::Unimplemented(inst))),
    }
}

/// The 8-bit and 16-bit add/subtract/logic/compare instructions
/// executed against the machine.
pub open spec fn spec_exec_alu8(c: CpuView, m: MmuView, inst: Instruction, data: u16) -> (
    CpuView,
    MmuView,
    Result<u64, RgbError>,
) {
    match inst {
        Instruction::ADD(x, y) => if x == Register::A && spec_alu_src_ok(y) {
            let t = spec_alu_operand(c, m, y, data);
            match t.1 {
                Ok(vc) => (spec_alu_add(c, vc.0, 0), t.0, Ok(vc.1)),
                Err(e) => (c, t.0, Err(e)),
            }
        } else if x == Register::HL && (y == Register::BC || y == Register::DE || y == Register::HL
            || y == Register::SP) {
            (spec_add_hl(c, c.r16(y)), m, Ok(8))
        } else if x == Register::SP && y == Register::BYTE {
            let t = spec_sp_plus(c, (data % 256) as u8);
            (c.with_flags(false, false, t.1, t.2).with_r16(Register::SP, t.0), m, Ok(16))
        } else {
            (c, m, Err(RgbError::Unimplemented(inst)))
        },
        Instruction::ADC(x, y) => if x == Register::A && spec_alu_src_ok(y) {
            let t = spec_alu_operand(c, m, y, data);
            match t.1 {
                Ok(vc) => (
                    spec_alu_add(
                        c,
                        vc.0,
                        if c.carry {
                            1u8
                        } else {
                            0u8
                        },
                    ),
                    t.0,
                    Ok(vc.1),
                ),
                Err(e) => (c, t.0, Err(e)),
            }
        } else {
            (c, m, Err(RgbError::Unimplemented(inst)))
        },
        Instruction::SUB(x, y) => if x == Register::A && spec_alu_src_ok(y) {
            let t = spec_alu_operand(c, m, y, data);
            match t.1 {
                Ok(vc) => (spec_alu_sub(c, vc.0, 0), t.0, Ok(vc.1)),
                Err(e) => (c, t.0, Err(e)),
            }
        } else {
            (c, m, Err(RgbError::Unimplemented(inst)))
        },
        Instruction::SBC(x, y) => if x == Register::A && spec_alu_src_ok(y) {
            let t = spec_alu_operand(c, m, y, data);
            match t.1 {
                Ok(vc) => (
                    spec_alu_sub(
                        c,
                        vc.0,
                        if c.carry {
                            1u8
                        } else {
                            0u8
                        },
                    ),
                    t.0,
                    Ok(vc.1),
                ),
                Err(e) => (c, t.0, Err(e)),
            }
        } else {
            (c, m, Err(RgbError::Unimplemented(inst)))
        },
        Instruction::AND(y) => if spec_alu_src_ok(y) {
            let t = spec_alu_operand(c, m, y, data);
            match t.1 {
                Ok(vc) => (spec_alu_and(c, vc.0), t.0, Ok(vc.1)),
                Err(e) => (c, t.0, Err(e)),
            }
        } else {
            (c, m, Err(RgbError::Unimplemented(inst)))
        },
        Instruction::OR(y) => if spec_alu_src_ok(y) {
            let t = spec_alu_operand(c, m, y, data);
            match t.1 {
                Ok(vc) => (spec_alu_or(c, vc.0), t.0, Ok(vc.1)),
                Err(e) => (c, t.0, Err(e)),
            }
        } else {
            (c, m, Err(RgbError::Unimplemented(inst)))
        },
        Instruction::XOR(y) => if spec_alu_src_ok(y) {
            let t = spec_alu_operand(c, m, y, data);
            match t.1 {
                Ok(vc) => (spec_alu_xor(c, vc.0), t.0, Ok(vc.1)),
                Err(e) => (c, t.0, Err(e)),
            }
        } else {
            (c, m, Err(RgbError::Unimplemented(inst)))
        },
        Instruction::CP(y) => if spec_alu_src_ok(y) {
            let t = spec_alu_operand(c, m, y, data);
            match t.1 {
                Ok(vc) => (spec_alu_cp(c, vc.0), t.0, Ok(vc.1)),
                Err(e) => (c, t.0, Err(e)),
            }
        } else {
            (c, m, Err(RgbError::Unimplemented(inst)))
        },
        _ => (c, m, Err(RgbError::Unimplemented(inst))),
    }
}

/// The increment and decrement instructions executed against the
/// machine.
pub open spec fn spec_exec_incdec(c: CpuView, m: MmuView, inst: Instruction, data: u16) -> (
    CpuView,
    MmuView,
    Result<u64, RgbError>,
) {
    match inst {
        Instruction::INC(r) => if spec_is_r8(r) {
            let t = spec_inc8(c, c.r8(r));
            (t.0.with_r8(r, t.1), m, Ok(4))
        } else if r == Register::BC || r == Register::DE || r == Register::HL || r
            == Register::SP {
            (c.with_r16(r, c.r16(r).wrapping_add(1)), m, Ok(8))
        } else if r == Register::HLM {
            let m1 = m.bios_checked(c.pc);
            match m1.read(c.hl()) {
                Ok(v) => {
                    let t = spec_inc8(c, v);
                    match m1.write(c.hl(), t.1) {
                        Ok(m2) => (t.0, m2, Ok(12)),
                        Err(e) => (t.0, m1, Err(e)),
                    }
                },
                Err(e) => (c, m1, Err(e)),
            }
        } else {
            (c, m, Err(RgbError::Unimplemented(inst)))
        },
        Instruction::DEC(r) => if spec_is_r8(r) {
            let t = spec_dec8(c, c.r8(r));
            (t.0.with_r8(r, t.1), m, Ok(4))
        } else if r == Register::BC || r == Register::DE || r == Register::HL || r
            == Register::SP {
            (c.with_r16(r, c.r16(r).wrapping_sub(1)), m, Ok(8))
        } else if r == Register::HLM {
            let m1 = m.bios_checked(c.pc);
            match m1.read(c.hl()) {
                Ok(v) => {
                    let t = spec_dec8(c, v);
                    match m1.write(c.hl(), t.1) {
                        Ok(m2) => (t.0, m2, Ok(12)),
                        Err(e) => (t.0, m1, Err(e)),
                    }
                },
                Err(e) => (c, m1, Err(e)),
            }
        } else {
            (c, m, Err(RgbError::Unimplemented(inst)))
        },
        _ => (c, m, Err(RgbError::Unimplemented(inst))),
    }
}

/// The 8-bit and 16-bit arithmetic and logic instructions executed
/// against the machine.
pub open spec fn spec_exec_alu(c: CpuView, m: MmuView, inst: Instruction, data: u16) -> (
    CpuView,
    MmuView,
    Result<u64, RgbError>,
) {
    match inst {
        Instruction::INC(_) | Instruction::DEC(_) => spec_exec_incdec(c, m, inst, data),
        _ => spec_exec_alu8(c, m, inst, data),
    }
}


/// The absolute and relative jumps executed against the machine.
pub open spec fn spec_exec_jump(c: CpuView, m: MmuView, inst: Instruction, data: u16) -> (
    CpuView,
    MmuView,
    Result<u64, RgbError>,
) {
    match inst {
        Instruction::JP(r) => if r == Register::WORD {
            (CpuView { pc: data, ..c }, m, Ok(16))
        } else {
            (c, m, Err(RgbError::Unimplemented(inst)))
        },
        Instruction::JPNZ(r) => if r == Register::WORD {
            if !c.zero {
                (CpuView { pc: data, ..c }, m, Ok(16))
            } else {
                (c, m, Ok(12))
            }
        } else {
            (c, m, Err(RgbError::Unimplemented(inst)))
        },
        Instruction::JPZ(r) => if r == Register::WORD {
            if c.zero {
                (CpuView { pc: data, ..c }, m, Ok(16))
            } else {
                (c, m, Ok(12))
            }
        } else {
            (c, m, Err(RgbError::Unimplemented(inst)))
        },
        Instruction::JPNC(r) => if r == Register::WORD {
            if !c.carry {
                (CpuView { pc: data, ..c }, m, Ok(16))
            } else {
                (c, m, Ok(12))
            }
        } else {
            (c, m, Err(RgbError::Unimplemented(inst)))
        },
        Instruction::JPC(r) => if r == Register::WORD {
            if c.carry {
                (CpuView { pc: data, ..c }, m, Ok(16))
            } else {
                (c, m, Ok(12))
            }
        } else {
            (c, m, Err(RgbError::Unimplemented(inst)))
        },
        Instruction::JR(r) => if r == Register::BYTE {
            (CpuView { pc: spec_jr_target(c.pc, (data % 256) as u8), ..c }, m, Ok(12))
        } else {
            (c, m, Err(RgbError::Unimplemented(inst)))
        },
        Instruction::JRNZ(r) => if r == Register::BYTE {
            if !c.zero {
                (CpuView { pc: spec_jr_target(c.pc, (data % 256) as u8), ..c }, m, Ok(12))
            } else {
                (c, m, Ok(8))
            }
        } else {
            (c, m, Err(RgbError::Unimplemented(inst)))
        },
        Instruction::JRZ(r) => if r == Register::BYTE {
            if c.zero {
                (CpuView { pc: spec_jr_target(c.pc, (data % 256) as u8), ..c }, m, Ok(12))
            } else {
                (c, m, Ok(8))
            }
        } else {
            (c, m, Err(RgbError::Unimplemented(inst)))
        },
        Instruction::JRNC(r) => if r == Register::BYTE {
            if !c.carry {
                (CpuView { pc: spec_jr_target(c.pc, (data % 256) as u8), ..c }, m, Ok(12))
            } else {
                (c, m, Ok(8))
            }
        } else {
            (c, m, Err(RgbError::Unimplemented(inst)))
        },
        Instruction::JRC(r) => if r == Register::BYTE {
            if c.carry {
                (CpuView { pc: spec_jr_target(c.pc, (data % 256) as u8), ..c }, m, Ok(12))
            } else {
                (c, m, Ok(8))
            }
        } else {
            (c, m, Err(RgbError::Unimplemented(inst)))
        },
        _ => (c, m, Err(RgbError::Unimplemented(inst))),
    }
}

/// The extended set (shifts, rotates, nibble swap, bit operations)
/// executed against the machine.
pub open spec fn spec_exec_cb(c: CpuView, m: MmuView, inst: Instruction, data: u16) -> (
    CpuView,
    MmuView,
    Result<u64, RgbError>,
) {
    match inst {
        Instruction::SWAP(r) | Instruction::RLC(r) | Instruction::RL(r) | Instruction::RRC(r)
            | Instruction::RR(r) | Instruction::SLA(r) | Instruction::SRA(r)
            | Instruction::SRL(r) => spec_exec_rot(c, m, inst, r),
        Instruction::BIT(b, r) => if b < 8 && spec_is_r8(r) {
            (spec_bit_test(c, b, c.r8(r)), m, Ok(8))
        } else if b < 8 && r == Register::HL {
            let m1 = m.bios_checked(c.pc);
            match m1.read(c.hl()) {
                Ok(v) => (spec_bit_test(c, b, v), m1, Ok(12)),
                Err(e) => (c, m1, Err(e)),
            }
        } else {
            (c, m, Err(RgbError::Unimplemented(inst)))
        },
        Instruction::SET(b, r) => if b < 8 && spec_is_r8(r) {
            (c.with_r8(r, spec_set_bit(c.r8(r), b)), m, Ok(8))
        } else if b < 8 && r == Register::HL {
            let m1 = m.bios_checked(c.pc);
            match m1.read(c.hl()) {
                Ok(v) => match m1.write(c.hl(), spec_set_bit(v, b)) {
                    Ok(m2) => (c, m2, Ok(16)),
                    Err(e) => (c, m1, Err(e)),
                },
                Err(e) => (c, m1, Err(e)),
            }
        } else {
            (c, m, Err(RgbError::Unimplemented(inst)))
        },
        Instruction::RES(b, r) => if b < 8 && spec_is_r8(r) {
            (c.with_r8(r, spec_res_bit(c.r8(r), b)), m, Ok(8))
        } else if b < 8 && r == Register::HL {
            let m1 = m.bios_checked(c.pc);
            match m1.read(c.hl()) {
                Ok(v) => match m1.write(c.hl(), spec_res_bit(v, b)) {
                    Ok(m2) => (c, m2, Ok(16)),
                    Err(e) => (c, m1, Err(e)),
                },
                Err(e) => (c, m1, Err(e)),
            }
        } else {
            (c, m, Err(RgbError::Unimplemented(inst)))
        },
        _ => (c, m, Err(RgbError::Unimplemented(inst))),
    }
}

/// One instruction executed against the machine: the register file and
/// memory after the instruction, and its clock-cycle cost or the fault
/// it raised. `data` holds the immediate operand the fetch phase
/// resolved for a BYTE or WORD placeholder slot, zero otherwise. A
/// decoded instruction whose handler this core does not implement is a
/// fatal, diagnosable error, never a silent no-operation.
pub open spec fn spec_exec(c: CpuView, m: MmuView, inst: Instruction, data: u16) -> (
    CpuView,
    MmuView,
    Result<u64, RgbError>,
) {
    match inst {
        Instruction::NOP | Instruction::HALT | Instruction::STOP | Instruction::DI
            | Instruction::EI | Instruction::CPL | Instruction::SCF | Instruction::CCF
            | Instruction::RLCA | Instruction::RLA | Instruction::RRCA | Instruction::RRA
            | Instruction::JPHL | Instruction::DAA => spec_exec_misc(c, m, inst, data),
        Instruction::LD(dst, src) => spec_exec_ld(c, m, dst, src, data),
        Instruction::LDD(_, _) | Instruction::LDI(_, _) | Instruction::LDH(_, _)
            | Instruction::LDHL(_, _) => spec_exec_mem_ld(
            c,
            m,
            inst,
            data,
        ),
        Instruction::PUSH(_) | Instruction::POP(_) | Instruction::CALL(_) | Instruction::CALLNZ(_)
            | Instruction::CALLZ(_) | Instruction::CALLNC(_) | Instruction::CALLC(_)
            | Instruction::RST(_) | Instruction::RET | Instruction::RETI | Instruction::RETNZ
            | Instruction::RETZ | Instruction::RETNC | Instruction::RETC => spec_exec_stack(
            c,
            m,
            inst,
            data,
        ),
        Instruction::ADD(_, _) | Instruction::ADC(_, _) | Instruction::SUB(_, _)
            | Instruction::SBC(_, _) | Instruction::AND(_) | Instruction::OR(_)
            | Instruction::XOR(_) | Instruction::CP(_) | Instruction::INC(_)
            | Instruction::DEC(_) => spec_exec_alu(c, m, inst, data),
        Instruction::JP(_) | Instruction::JPNZ(_) | Instruction::JPZ(_) | Instruction::JPNC(_)
            | Instruction::JPC(_) | Instruction::JR(_) | Instruction::JRNZ(_)
            | Instruction::JRZ(_) | Instruction::JRNC(_) | Instruction::JRC(_) => spec_exec_jump(
            c,
            m,
            inst,
            data,
        ),
        Instruction::SWAP(_) | Instruction::RLC(_) | Instruction::RL(_) | Instruction::RRC(_)
            | Instruction::RR(_) | Instruction::SLA(_) | Instruction::SRA(_)
            | Instruction::SRL(_) | Instruction::BIT(_, _) | Instruction::SET(_, _)
            | Instruction::RES(_, _) => spec_exec_cb(c, m, inst, data),
        _ => (c, m, Err(RgbError::Unimplemented(inst))),
    }
}

/// The register file at power-on: zeroed registers and flags, the stack
/// pointer at its reset value 0xFFFE.
pub open spec fn spec_initial_cpu() -> CpuView {
    CpuView {
        a: 0,
        b: 0,
        c: 0,
        d: 0,
        e: 0,
        h: 0,
        l: 0,
        pc: 0,
        sp: 0xFFFE,
        zero: false,
        sub: false,
        half: false,
        carry: false,
        halt: false,
        stop: false,
        ime: false,
    }
}

/// The CPU register file: eight 8-bit registers, the 16-bit program
/// counter and stack pointer, the four flags, and the run/interrupt
/// state bits.
#[derive(Debug)]
pub struct CPU {
    halt: bool,
    stop: bool,
    ime: bool,
    reg_a: u8,
    reg_b: u8,
    reg_c: u8,
    reg_d: u8,
    reg_e: u8,
    reg_h: u8,
    reg_l: u8,
    reg_pc: u16,
    reg_sp: u16,
    sub_flag: bool,
    zero_flag: bool,
    carry_flag: bool,
    half_carry_flag: bool,
}

impl View for CPU {
    type V = CpuView;

    closed spec fn view(&self) -> CpuView {
        CpuView {
            a: self.reg_a,
            b: self.reg_b,
            c: self.reg_c,
            d: self.reg_d,
            e: self.reg_e,
            h: self.reg_h,
            l: self.reg_l,
            pc: self.reg_pc,
            sp: self.reg_sp,
            zero: self.zero_flag,
            sub: self.sub_flag,
            half: self.half_carry_flag,
            carry: self.carry_flag,
            halt: self.halt,
            stop: self.stop,
            ime: self.ime,
        }
    }
}

/// The 8-bit operand that the low three opcode bits select, shared by the
/// regular load/arithmetic block of the base table and by the whole
/// extended table. `HL` here stands for the byte in memory at address HL.
pub open spec fn spec_reg_sel(sel: u8) -> Register {
    match sel % 8 {
        0u8 => Register::B,
        1u8 => Register::C,
        2u8 => Register::D,
        3u8 => Register::E,
        4u8 => Register::H,
        5u8 => Register::L,
        6u8 => Register::HL,
        _ => Register::A,
    }
}

fn reg_sel(sel: u8) -> (r: Register)
    ensures
        r == spec_reg_sel(sel),
{
    match sel % 8 {
        0u8 => Register::B,
        1u8 => Register::C,
        2u8 => Register::D,
        3u8 => Register::E,
        4u8 => Register::H,
        5u8 => Register::L,
        6u8 => Register::HL,
        _ => Register::A,
    }
}


/// The base opcode table as a specification: a total mapping from each
/// of the 256 opcode bytes to its instruction. The regular load block
/// (0x40-0x7F) and arithmetic/logic block (0x80-0xBF) are generated
/// from the operand selector in the low three bits; unassigned opcodes
/// map to NOP, never to a failure.
pub open spec fn spec_decode(byte: u8) -> Instruction {
    if 0x40 <= byte && byte <= 0x7F {
        if byte == 0x76 {
            Instruction::HALT
        } else {
            Instruction::LD(spec_reg_sel(byte / 8), spec_reg_sel(byte % 8))
        }
    } else if 0x80 <= byte && byte <= 0xBF {
        let src = spec_reg_sel(byte % 8);
        match (byte / 8) % 8 {
            0u8 => Instruction::ADD(Register::A, src),
            1u8 => Instruction::ADC(Register::A, src),
            2u8 => Instruction::SUB(Register::A, src),
            3u8 => Instruction::SBC(Register::A, src),
            4u8 => Instruction::AND(src),
            5u8 => Instruction::XOR(src),
            6u8 => Instruction::OR(src),
            _ => Instruction::CP(src),
        }
    } else {
        match byte {
            0x00u8 => Instruction::NOP,
            0x01u8 => Instruction::LD(Register::BC, Register::WORD),
            0x02u8 => Instruction::LD(Register::BC, Register::A),
            0x03u8 => Instruction::INC(Register::BC),
            0x04u8 => Instruction::INC(Register::B),
            0x05u8 => Instruction::DEC(Register::B),
            0x06u8 => Instruction::LD(Register::B, Register::BYTE),
            0x07u8 => Instruction::RLCA,
            0x08u8 => Instruction::LD(Register::WORD, Register::SP),
            0x09u8 => Instruction::ADD(Register::HL, Register::BC),
            0x0Au8 => Instruction::LD(Register::A, Register::BC),
            0x0Bu8 => Instruction::DEC(Register::BC),
            0x0Cu8 => Instruction::INC(Register::C),
            0x0Du8 => Instruction::DEC(Register::C),
            0x0Eu8 => Instruction::LD(Register::C, Register::BYTE),
            0x0Fu8 => Instruction::RRCA,
            0x10u8 => Instruction::STOP,
            0x11u8 => Instruction::LD(Register::DE, Register::WORD),
            0x12u8 => Instruction::LD(Register::DE, Register::A),
            0x13u8 => Instruction::INC(Register::DE),
            0x14u8 => Instruction::INC(Register::D),
            0x15u8 => Instruction::DEC(Register::D),
            0x16u8 => Instruction::LD(Register::D, Register::BYTE),
            0x17u8 => Instruction::RLA,
            0x18u8 => Instruction::JR(Register::BYTE),
            0x19u8 => Instruction::ADD(Register::HL, Register::DE),
            0x1Au8 => Instruction::LD(Register::A, Register::DE),
            0x1Bu8 => Instruction::DEC(Register::DE),
            0x1Cu8 => Instruction::INC(Register::E),
            0x1Du8 => Instruction::DEC(Register::E),
            0x1Eu8 => Instruction::LD(Register::E, Register::BYTE),
            0x1Fu8 => Instruction::RRA,
            0x20u8 => Instruction::JRNZ(Register::BYTE),
            0x21u8 => Instruction::LD(Register::HL, Register::WORD),
            0x22u8 => Instruction::LDI(Register::HL, Register::A),
            0x23u8 => Instruction::INC(Register::HL),
            0x24u8 => Instruction::INC(Register::H),
            0x25u8 => Instruction::DEC(Register::H),
            0x26u8 => Instruction::LD(Register::H, Register::BYTE),
            0x27u8 => Instruction::DAA,
            0x28u8 => Instruction::JRZ(Register::BYTE),
            0x29u8 => Instruction::ADD(Register::HL, Register::HL),
            0x2Au8 => Instruction::LDI(Register::A, Register::HL),
            0x2Bu8 => Instruction::DEC(Register::HL),
            0x2Cu8 => Instruction::INC(Register::L),
            0x2Du8 => Instruction::DEC(Register::L),
            0x2Eu8 => Instruction::LD(Register::L, Register::BYTE),
            0x2Fu8 => Instruction::CPL,
            0x30u8 => Instruction::JRNC(Register::BYTE),
            0x31u8 => Instruction::LD(Register::SP, Register::WORD),
            0x32u8 => Instruction::LDD(Register::HL, Register::A),
            0x33u8 => Instruction::INC(Register::SP),
            0x34u8 => Instruction::INC(Register::HLM),
            0x35u8 => Instruction::DEC(Register::HLM),
            0x36u8 => Instruction::LD(Register::HL, Register::BYTE),
            0x37u8 => Instruction::SCF,
            0x38u8 => Instruction::JRC(Register::BYTE),
            0x39u8 => Instruction::ADD(Register::HL, Register::SP),
            0x3Au8 => Instruction::LDD(Register::A, Register::HL),
            0x3Bu8 => Instruction::DEC(Register::SP),
            0x3Cu8 => Instruction::INC(Register::A),
            0x3Du8 => Instruction::DEC(Register::A),
            0x3Eu8 => Instruction::LD(Register::A, Register::BYTE),
            0x3Fu8 => Instruction::CCF,
            0xC0u8 => Instruction::RETNZ,
            0xC1u8 => Instruction::POP(Register::BC),
            0xC2u8 => Instruction::JPNZ(Register::WORD),
            0xC3u8 => Instruction::JP(Register::WORD),
            0xC4u8 => Instruction::CALLNZ(Register::WORD),
            0xC5u8 => Instruction::PUSH(Register::BC),
            0xC6u8 => Instruction::ADD(Register::A, Register::BYTE),
            0xC7u8 => Instruction::RST(0x00),
            0xC8u8 => Instruction::RETZ,
            0xC9u8 => Instruction::RET,
            0xCAu8 => Instruction::JPZ(Register::WORD),
            0xCBu8 => Instruction::ExtInstr,
            0xCCu8 => Instruction::CALLZ(Register::WORD),
            0xCDu8 => Instruction::CALL(Register::WORD),
            0xCEu8 => Instruction::ADC(Register::A, Register::BYTE),
            0xCFu8 => Instruction::RST(0x08),
            0xD0u8 => Instruction::RETNC,
            0xD1u8 => Instruction::POP(Register::DE),
            0xD2u8 => Instruction::JPNC(Register::WORD),
            0xD4u8 => Instruction::CALLNC(Register::WORD),
            0xD5u8 => Instruction::PUSH(Register::DE),
            0xD6u8 => Instruction::SUB(Register::A, Register::BYTE),
            0xD7u8 => Instruction::RST(0x10),
            0xD8u8 => Instruction::RETC,
            0xD9u8 => Instruction::RETI,
            0xDAu8 => Instruction::JPC(Register::WORD),
            0xDCu8 => Instruction::CALLC(Register::WORD),
            0xDEu8 => Instruction::SBC(Register::A, Register::BYTE),
            0xDFu8 => Instruction::RST(0x18),
            0xE0u8 => Instruction::LDH(Register::BYTE, Register::A),
            0xE1u8 => Instruction::POP(Register::HL),
            0xE2u8 => Instruction::LD(Register::C0, Register::A),
            0xE5u8 => Instruction::PUSH(Register::HL),
            0xE6u8 => Instruction::AND(Register::BYTE),
            0xE7u8 => Instruction::RST(0x20),
            0xE8u8 => Instruction::ADD(Register::SP, Register::BYTE),
            0xE9u8 => Instruction::JPHL,
            0xEAu8 => Instruction::LD(Register::WORD, Register::A),
            0xEEu8 => Instruction::XOR(Register::BYTE),
            0xEFu8 => Instruction::RST(0x28),
            0xF0u8 => Instruction::LDH(Register::A, Register::BYTE),
            0xF1u8 => Instruction::POP(Register::AF),
            0xF2u8 => Instruction::LD(Register::A, Register::C0),
            0xF3u8 => Instruction::DI,
            0xF5u8 => Instruction::PUSH(Register::AF),
            0xF6u8 => Instruction::OR(Register::BYTE),
            0xF7u8 => Instruction::RST(0x30),
            0xF8u8 => Instruction::LDHL(Register::SP, Register::BYTE),
            0xF9u8 => Instruction::LD(Register::SP, Register::HL),
            0xFAu8 => Instruction::LD(Register::A, Register::WORD),
            0xFBu8 => Instruction::EI,
            0xFEu8 => Instruction::CP(Register::BYTE),
            0xFFu8 => Instruction::RST(0x38),
            _ => Instruction::NOP,
        }
    }
}

impl CPU {

/// A register file at power-on.
pub fn new() -> (cpu: CPU)
    ensures
        cpu@ == spec_initial_cpu(),
{
    CPU {
        halt: false,
        stop: false,
        ime: false,
        reg_a: 0,
        reg_b: 0,
        reg_c: 0,
        reg_d: 0,
        reg_e: 0,
        reg_h: 0,
        reg_l: 0,
        reg_pc: 0,
        reg_sp: 0xFFFE,
        sub_flag: false,
        zero_flag: false,
        carry_flag: false,
        half_carry_flag: false,
    }
}

/// Resets the whole processor state to power-on: zeroed registers and
/// flags, the stack pointer back at its reset value 0xFFFE.
pub fn reset(&mut self)
    ensures
        final(self)@ == spec_initial_cpu(),
{
    self.reg_a = 0;
    self.reg_b = 0;
    self.reg_c = 0;
    self.reg_d = 0;
    self.reg_e = 0;
    self.reg_h = 0;
    self.reg_l = 0;
    self.reg_pc = 0;
    self.reg_sp = 0xFFFE;
    self.halt = false;
    self.stop = false;
    self.ime = false;
    self.zero_flag = false;
    self.sub_flag = false;
    self.carry_flag = false;
    self.half_carry_flag = false;
}

/// The current program counter.
pub fn get_pc(&self) -> (pc: u16)
    ensures
        pc == self@.pc,
{
    self.reg_pc
}

/// Sets the program counter, for external tooling (debuggers,
/// disassemblers, test drivers).
pub fn set_pc(&mut self, pc: u16)
    ensures
        final(self)@ == (CpuView { pc, ..old(self)@ }),
{
    self.reg_pc = pc;
}

/// The current stack pointer.
pub fn get_sp(&self) -> (sp: u16)
    ensures
        sp == self@.sp,
{
    self.reg_sp
}

/// The accumulator.
pub fn get_a(&self) -> (a: u8)
    ensures
        a == self@.a,
{
    self.reg_a
}

/// The register pair HL.
pub fn get_hl(&self) -> (hl: u16)
    ensures
        hl == self@.hl(),
{
    (self.reg_h as u16) * 256 + (self.reg_l as u16)
}

/// The register pair BC.
pub fn get_bc(&self) -> (bc: u16)
    ensures
        bc == self@.bc(),
{
    (self.reg_b as u16) * 256 + (self.reg_c as u16)
}

/// The register pair DE.
pub fn get_de(&self) -> (de: u16)
    ensures
        de == self@.de(),
{
    (self.reg_d as u16) * 256 + (self.reg_e as u16)
}

/// The zero flag.
pub fn get_zero_flag(&self) -> (f: bool)
    ensures
        f == self@.zero,
{
    self.zero_flag
}

/// The subtract flag.
pub fn get_sub_flag(&self) -> (f: bool)
    ensures
        f == self@.sub,
{
    self.sub_flag
}

/// The half-carry flag.
pub fn get_half_carry_flag(&self) -> (f: bool)
    ensures
        f == self@.half,
{
    self.half_carry_flag
}

/// The carry flag.
pub fn get_carry_flag(&self) -> (f: bool)
    ensures
        f == self@.carry,
{
    self.carry_flag
}

/// Is the processor halted?
pub fn get_halt(&self) -> (f: bool)
    ensures
        f == self@.halt,
{
    self.halt
}

/// Is the processor stopped?
pub fn get_stop(&self) -> (f: bool)
    ensures
        f == self@.stop,
{
    self.stop
}

/// Is the interrupt-master-enable flag set?
pub fn get_ime(&self) -> (f: bool)
    ensures
        f == self@.ime,
{
    self.ime
}

/// The flags register packed into a byte: bit 7 zero, bit 6 subtract,
/// bit 5 half-carry, bit 4 carry, low nibble always zero.
pub fn flags_byte(&self) -> (f: u8)
    ensures
        f == self@.flags_byte(),
{
    (if self.zero_flag {
        0x80u8
    } else {
        0u8
    }) + (if self.sub_flag {
        0x40u8
    } else {
        0u8
    }) + (if self.half_carry_flag {
        0x20u8
    } else {
        0u8
    }) + (if self.carry_flag {
        0x10u8
    } else {
        0u8
    })
}

/// The value of the 8-bit register `reg`.
pub fn get_r8(&self, reg: Register) -> (v: u8)
    requires
        spec_is_r8(reg),
    ensures
        v == self@.r8(reg),
{
    match reg {
        Register::A => self.reg_a,
        Register::B => self.reg_b,
        Register::C => self.reg_c,
        Register::D => self.reg_d,
        Register::E => self.reg_e,
        Register::H => self.reg_h,
        _ => self.reg_l,
    }
}

/// Load( Register, byte ): puts the 8-bit value into the register.
pub fn ld_r_n(&mut self, reg: Register, data: u8)
    requires
        spec_is_r8(reg),
    ensures
        final(self)@ == old(self)@.with_r8(reg, data),
{
    match reg {
        Register::A => self.reg_a = data,
        Register::B => self.reg_b = data,
        Register::C => self.reg_c = data,
        Register::D => self.reg_d = data,
        Register::E => self.reg_e = data,
        Register::H => self.reg_h = data,
        _ => self.reg_l = data,
    }
}

/// The value of the 16-bit register pair `reg`.
pub fn get_r16(&self, reg: Register) -> (w: u16)
    requires
        reg == Register::AF || reg == Register::BC || reg == Register::DE || reg == Register::HL
            || reg == Register::SP,
    ensures
        w == self@.r16(reg),
{
    match reg {
        Register::AF => (self.reg_a as u16) * 256 + (self.flags_byte() as u16),
        Register::BC => (self.reg_b as u16) * 256 + (self.reg_c as u16),
        Register::DE => (self.reg_d as u16) * 256 + (self.reg_e as u16),
        Register::HL => (self.reg_h as u16) * 256 + (self.reg_l as u16),
        _ => self.reg_sp,
    }
}

/// Load( Register, word ): puts the 16-bit value into the double-sized
/// register. Loading AF unpacks the flags from the low byte; its low
/// nibble is discarded.
pub fn ld_r_w(&mut self, reg: Register, data: u16)
    requires
        reg == Register::AF || reg == Register::BC || reg == Register::DE || reg == Register::HL
            || reg == Register::SP,
    ensures
        final(self)@ == old(self)@.with_r16(reg, data),
{
    let hi = (data / 256) as u8;
    let lo = (data % 256) as u8;
    match reg {
        Register::AF => {
            self.reg_a = hi;
            self.zero_flag = (lo / 128) % 2 == 1;
            self.sub_flag = (lo / 64) % 2 == 1;
            self.half_carry_flag = (lo / 32) % 2 == 1;
            self.carry_flag = (lo / 16) % 2 == 1;
        },
        Register::BC => {
            self.reg_b = hi;
            self.reg_c = lo;
        },
        Register::DE => {
            self.reg_d = hi;
            self.reg_e = lo;
        },
        Register::HL => {
            self.reg_h = hi;
            self.reg_l = lo;
        },
        _ => {
            self.reg_sp = data;
        },
    }
}

/// ADD( A, v ): adds `v` to the accumulator, computing the carry in a
/// 16-bit intermediate and the half-carry from the low nibbles.
pub fn add_a(&mut self, v: u8)
    ensures
        final(self)@ == spec_alu_add(old(self)@, v, 0),
{
    let s: u16 = self.reg_a as u16 + v as u16;
    self.half_carry_flag = self.reg_a % 16 + v % 16 > 15;
    self.carry_flag = s > 255;
    self.reg_a = (s % 256) as u8;
    self.zero_flag = self.reg_a == 0;
    self.sub_flag = false;
}

/// ADC( A, v ): adds `v` and the carry flag to the accumulator.
pub fn adc_a(&mut self, v: u8)
    ensures
        final(self)@ == spec_alu_add(old(self)@, v, if old(self)@.carry {
            1u8
        } else {
            0u8
        }),
{
    let cin: u8 = if self.carry_flag {
        1
    } else {
        0
    };
    let s: u16 = self.reg_a as u16 + v as u16 + cin as u16;
    self.half_carry_flag = self.reg_a % 16 + v % 16 + cin > 15;
    self.carry_flag = s > 255;
    self.reg_a = (s % 256) as u8;
    self.zero_flag = self.reg_a == 0;
    self.sub_flag = false;
}

/// SUB( A, v ): subtracts `v` from the accumulator; the carry flag is
/// the full borrow, the half-carry the low-nibble borrow.
pub fn sub_a(&mut self, v: u8)
    ensures
        final(self)@ == spec_alu_sub(old(self)@, v, 0),
{
    self.carry_flag = (self.reg_a as u16) < (v as u16);
    self.half_carry_flag = self.reg_a % 16 < v % 16;
    self.reg_a = ((self.reg_a as u16 + 256 - v as u16) % 256) as u8;
    self.zero_flag = self.reg_a == 0;
    self.sub_flag = true;
}

/// SBC( A, v ): subtracts `v` and the carry flag from the accumulator.
pub fn sbc_a(&mut self, v: u8)
    ensures
        final(self)@ == spec_alu_sub(old(self)@, v, if old(self)@.carry {
            1u8
        } else {
            0u8
        }),
{
    let cin: u8 = if self.carry_flag {
        1
    } else {
        0
    };
    self.carry_flag = (self.reg_a as u16) < v as u16 + cin as u16;
    self.half_carry_flag = self.reg_a % 16 < v % 16 + cin;
    self.reg_a = ((self.reg_a as u16 + 256 - v as u16 - cin as u16) % 256) as u8;
    self.zero_flag = self.reg_a == 0;
    self.sub_flag = true;
}

/// CP( v ): the flags of `A - v`, the accumulator left unchanged.
pub fn cp_a(&mut self, v: u8)
    ensures
        final(self)@ == spec_alu_cp(old(self)@, v),
{
    self.carry_flag = (self.reg_a as u16) < (v as u16);
    self.half_carry_flag = self.reg_a % 16 < v % 16;
    self.zero_flag = ((self.reg_a as u16 + 256 - v as u16) % 256) as u8 == 0;
    self.sub_flag = true;
}

/// AND( v ): ANDs `v` into the accumulator.
pub fn and_a(&mut self, v: u8)
    ensures
        final(self)@ == spec_alu_and(old(self)@, v),
{
    self.reg_a = self.reg_a & v;
    self.zero_flag = self.reg_a == 0;
    self.sub_flag = false;
    self.half_carry_flag = true;
    self.carry_flag = false;
}

/// OR( v ): ORs `v` into the accumulator.
pub fn or_a(&mut self, v: u8)
    ensures
        final(self)@ == spec_alu_or(old(self)@, v),
{
    self.reg_a = self.reg_a | v;
    self.zero_flag = self.reg_a == 0;
    self.sub_flag = false;
    self.half_carry_flag = false;
    self.carry_flag = false;
}

/// XOR( v ): exclusive-ORs `v` into the accumulator.
pub fn xor_a(&mut self, v: u8)
    ensures
        final(self)@ == spec_alu_xor(old(self)@, v),
{
    self.reg_a = self.reg_a ^ v;
    self.zero_flag = self.reg_a == 0;
    self.sub_flag = false;
    self.half_carry_flag = false;
    self.carry_flag = false;
}

/// ADD( HL, v ): 16-bit add into HL; the zero flag is not affected.
pub fn add_hl(&mut self, v: u16)
    ensures
        final(self)@ == spec_add_hl(old(self)@, v),
{
    let hl: u16 = self.get_hl();
    let s: u32 = hl as u32 + v as u32;
    self.half_carry_flag = hl % 0x1000 + v % 0x1000 > 0xFFF;
    self.carry_flag = s > 0xFFFF;
    self.reg_h = ((s % 0x10000) / 256) as u8;
    self.reg_l = (s % 256) as u8;
    self.sub_flag = false;
}

/// INC( v ): the incremented byte, with its flags set; the carry flag
/// is not affected. The result is handed back for the caller to place
/// in a register or in memory.
pub fn inc_val(&mut self, v: u8) -> (res: u8)
    ensures
        (final(self)@, res) == spec_inc8(old(self)@, v),
{
    let res: u8 = ((v as u16 + 1) % 256) as u8;
    self.zero_flag = res == 0;
    self.sub_flag = false;
    self.half_carry_flag = v % 16 == 15;
    res
}

/// DEC( v ): the decremented byte, with its flags set; the carry flag
/// is not affected.
pub fn dec_val(&mut self, v: u8) -> (res: u8)
    ensures
        (final(self)@, res) == spec_dec8(old(self)@, v),
{
    let res: u8 = ((v as u16 + 255) % 256) as u8;
    self.zero_flag = res == 0;
    self.sub_flag = true;
    self.half_carry_flag = v % 16 == 0;
    res
}

/// SWAP( v ): upper and lower nibbles exchanged, with its flags set.
pub fn swap_val(&mut self, v: u8) -> (res: u8)
    ensures
        (final(self)@, res) == spec_swap8(old(self)@, v),
{
    let res: u8 = (v % 16) * 16 + v / 16;
    self.zero_flag = res == 0;
    self.sub_flag = false;
    self.half_carry_flag = false;
    self.carry_flag = false;
    res
}

/// RLC( v ): rotate left, with its flags set.
pub fn rlc_val(&mut self, v: u8) -> (res: u8)
    ensures
        (final(self)@, res) == spec_rlc8(old(self)@, v),
{
    let res: u8 = ((v as u16 * 2 + v as u16 / 128) % 256) as u8;
    self.zero_flag = res == 0;
    self.sub_flag = false;
    self.half_carry_flag = false;
    self.carry_flag = v >= 0x80;
    res
}

/// RL( v ): rotate left through the carry flag, with its flags set.
pub fn rl_val(&mut self, v: u8) -> (res: u8)
    ensures
        (final(self)@, res) == spec_rl8(old(self)@, v),
{
    let cin: u16 = if self.carry_flag {
        1
    } else {
        0
    };
    let res: u8 = ((v as u16 * 2 + cin) % 256) as u8;
    self.zero_flag = res == 0;
    self.sub_flag = false;
    self.half_carry_flag = false;
    self.carry_flag = v >= 0x80;
    res
}

/// RRC( v ): rotate right, with its flags set.
pub fn rrc_val(&mut self, v: u8) -> (res: u8)
    ensures
        (final(self)@, res) == spec_rrc8(old(self)@, v),
{
    let res: u8 = v / 2 + (v % 2) * 128;
    self.zero_flag = res == 0;
    self.sub_flag = false;
    self.half_carry_flag = false;
    self.carry_flag = v % 2 == 1;
    res
}

/// RR( v ): rotate right through the carry flag, with its flags set.
pub fn rr_val(&mut self, v: u8) -> (res: u8)
    ensures
        (final(self)@, res) == spec_rr8(old(self)@, v),
{
    let cin: u8 = if self.carry_flag {
        128
    } else {
        0
    };
    let res: u8 = v / 2 + cin;
    self.zero_flag = res == 0;
    self.sub_flag = false;
    self.half_carry_flag = false;
    self.carry_flag = v % 2 == 1;
    res
}

/// SLA( v ): shift left into the carry flag, with its flags set.
pub fn sla_val(&mut self, v: u8) -> (res: u8)
    ensures
        (final(self)@, res) == spec_sla8(old(self)@, v),
{
    let res: u8 = ((v as u16 * 2) % 256) as u8;
    self.zero_flag = res == 0;
    self.sub_flag = false;
    self.half_carry_flag = false;
    self.carry_flag = v >= 0x80;
    res
}

/// SRA( v ): arithmetic shift right, bit 7 kept, with its flags set.
pub fn sra_val(&mut self, v: u8) -> (res: u8)
    ensures
        (final(self)@, res) == spec_sra8(old(self)@, v),
{
    let msb: u8 = if v >= 0x80 {
        128
    } else {
        0
    };
    let res: u8 = v / 2 + msb;
    self.zero_flag = res == 0;
    self.sub_flag = false;
    self.half_carry_flag = false;
    self.carry_flag = v % 2 == 1;
    res
}

/// SRL( v ): logical shift right, bit 7 cleared, with its flags set.
pub fn srl_val(&mut self, v: u8) -> (res: u8)
    ensures
        (final(self)@, res) == spec_srl8(old(self)@, v),
{
    let res: u8 = v / 2;
    self.zero_flag = res == 0;
    self.sub_flag = false;
    self.half_carry_flag = false;
    self.carry_flag = v % 2 == 1;
    res
}

/// Sets the flags of a bit test of bit `bit` in the byte `v`.
pub fn bit_flags(&mut self, bit: u8, v: u8)
    requires
        bit < 8,
    ensures
        final(self)@ == spec_bit_test(old(self)@, bit, v),
{
    self.zero_flag = (v >> bit) % 2 == 0;
    self.sub_flag = false;
    self.half_carry_flag = true;
}

/// RLCA: rotate the accumulator left; unlike the extended RLC, the zero
/// flag is always cleared.
pub fn rlca(&mut self)
    ensures
        final(self)@ == (CpuView { zero: false, ..spec_rlc8(old(self)@, old(self)@.a).0.with_r8(
            Register::A,
            spec_rlc8(old(self)@, old(self)@.a).1,
        ) }),
{
    let v = self.reg_a;
    let res = self.rlc_val(v);
    self.reg_a = res;
    self.zero_flag = false;
}

/// RLA: rotate the accumulator left through carry; zero always cleared.
pub fn rla(&mut self)
    ensures
        final(self)@ == (CpuView { zero: false, ..spec_rl8(old(self)@, old(self)@.a).0.with_r8(
            Register::A,
            spec_rl8(old(self)@, old(self)@.a).1,
        ) }),
{
    let v = self.reg_a;
    let res = self.rl_val(v);
    self.reg_a = res;
    self.zero_flag = false;
}

/// RRCA: rotate the accumulator right; zero always cleared.
pub fn rrca(&mut self)
    ensures
        final(self)@ == (CpuView { zero: false, ..spec_rrc8(old(self)@, old(self)@.a).0.with_r8(
            Register::A,
            spec_rrc8(old(self)@, old(self)@.a).1,
        ) }),
{
    let v = self.reg_a;
    let res = self.rrc_val(v);
    self.reg_a = res;
    self.zero_flag = false;
}

/// RRA: rotate the accumulator right through carry; zero always cleared.
pub fn rra(&mut self)
    ensures
        final(self)@ == (CpuView { zero: false, ..spec_rr8(old(self)@, old(self)@.a).0.with_r8(
            Register::A,
            spec_rr8(old(self)@, old(self)@.a).1,
        ) }),
{
    let v = self.reg_a;
    let res = self.rr_val(v);
    self.reg_a = res;
    self.zero_flag = false;
}

/// CPL: complement the accumulator; subtract and half-carry set.
pub fn cpl(&mut self)
    ensures
        final(self)@ == (CpuView { a: (255 - old(self)@.a) as u8, sub: true, half: true, ..old(self)@ }),
{
    self.reg_a = 255 - self.reg_a;
    self.sub_flag = true;
    self.half_carry_flag = true;
}

/// DAA: decimal adjust the accumulator back to packed binary-coded
/// decimal after an addition or subtraction.
pub fn daa(&mut self)
    ensures
        final(self)@ == spec_daa(old(self)@),
{
    if !self.sub_flag {
        if self.carry_flag || self.reg_a > 0x99 {
            self.reg_a = ((self.reg_a as u16 + 0x60) % 256) as u8;
            self.carry_flag = true;
        }
        if self.half_carry_flag || self.reg_a % 16 > 9 {
            self.reg_a = ((self.reg_a as u16 + 0x06) % 256) as u8;
        }
    } else {
        if self.carry_flag {
            self.reg_a = ((self.reg_a as u16 + 256 - 0x60) % 256) as u8;
        }
        if self.half_carry_flag {
            self.reg_a = ((self.reg_a as u16 + 256 - 0x06) % 256) as u8;
        }
    }
    self.zero_flag = self.reg_a == 0;
    self.half_carry_flag = false;
}

/// The stack pointer plus a sign-extended offset byte, with the flags
/// of the low-byte addition set; the sum is handed back for ADD SP,n
/// to place in SP and LDHL SP,n to place in HL.
pub fn sp_plus_e(&mut self, n: u8) -> (res: u16)
    ensures
        res == spec_sp_plus(old(self)@, n).0,
        final(self)@ == old(self)@.with_flags(
            false,
            false,
            spec_sp_plus(old(self)@, n).1,
            spec_sp_plus(old(self)@, n).2,
        ),
{
    let ext: u16 = if n < 128 {
        n as u16
    } else {
        n as u16 + 0xFF00
    };
    let res = self.reg_sp.wrapping_add(ext);
    self.half_carry_flag = self.reg_sp % 16 + (n % 16) as u16 > 15;
    self.carry_flag = self.reg_sp % 256 + n as u16 > 255;
    self.zero_flag = false;
    self.sub_flag = false;
    res
}

/// SCF: set the carry flag; subtract and half-carry cleared.
pub fn scf(&mut self)
    ensures
        final(self)@ == (CpuView { carry: true, sub: false, half: false, ..old(self)@ }),
{
    self.carry_flag = true;
    self.sub_flag = false;
    self.half_carry_flag = false;
}

/// CCF: complement the carry flag; subtract and half-carry cleared.
pub fn ccf(&mut self)
    ensures
        final(self)@ == (CpuView {
            carry: !old(self)@.carry,
            sub: false,
            half: false,
            ..old(self)@
        }),
{
    self.carry_flag = !self.carry_flag;
    self.sub_flag = false;
    self.half_carry_flag = false;
}

/// (NOP): does nothing but take its processor cycles.
pub fn nop(&mut self)
    ensures
        final(self)@ == old(self)@,
{
}

/// (HALT): stops the processor until an interrupt, once interrupts are
/// modeled; a terminal state for the instruction loop.
pub fn halt(&mut self)
    ensures
        final(self)@ == (CpuView { halt: true, ..old(self)@ }),
{
    self.halt = true;
}

/// (STOP): halts processor and timing until an external button event.
pub fn stop(&mut self)
    ensures
        final(self)@ == (CpuView { stop: true, ..old(self)@ }),
{
    self.stop = true;
}

/// (DI): clears the interrupt-master-enable flag.
pub fn di(&mut self)
    ensures
        final(self)@ == (CpuView { ime: false, ..old(self)@ }),
{
    self.ime = false;
}

/// (EI): sets the interrupt-master-enable flag.
pub fn ei(&mut self)
    ensures
        final(self)@ == (CpuView { ime: true, ..old(self)@ }),
{
    self.ime = true;
}

/// Is `reg` one of the seven plain 8-bit registers?
pub fn is_r8(reg: Register) -> (b: bool)
    ensures
        b == spec_is_r8(reg),
{
    match reg {
        Register::A | Register::B | Register::C | Register::D | Register::E | Register::H
            | Register::L => true,
        _ => false,
    }
}

/// The operand bytes `inst` needs, read off its placeholder slots.
pub fn operand_kind(inst: Instruction) -> (k: OperandKind)
    ensures
        k == spec_operand_kind(inst),
{
    match inst {
        Instruction::LD(a, b) | Instruction::LDD(a, b) | Instruction::LDI(a, b)
            | Instruction::LDH(a, b) | Instruction::LDHL(a, b) | Instruction::ADD(a, b)
            | Instruction::ADC(a, b) | Instruction::SUB(a, b) | Instruction::SBC(a, b) => if a
            == Register::WORD || b == Register::WORD {
            OperandKind::Imm16
        } else if a == Register::BYTE || b == Register::BYTE {
            OperandKind::Imm8
        } else {
            OperandKind::Plain
        },
        Instruction::AND(r) | Instruction::OR(r) | Instruction::XOR(r) | Instruction::CP(r)
            | Instruction::INC(r) | Instruction::DEC(r) | Instruction::PUSH(r)
            | Instruction::POP(r) | Instruction::JP(r) | Instruction::JPNZ(r)
            | Instruction::JPZ(r) | Instruction::JPNC(r) | Instruction::JPC(r)
            | Instruction::JR(r) | Instruction::JRNZ(r) | Instruction::JRZ(r)
            | Instruction::JRNC(r) | Instruction::JRC(r) | Instruction::CALL(r)
            | Instruction::CALLNZ(r) | Instruction::CALLZ(r) | Instruction::CALLNC(r)
            | Instruction::CALLC(r) => if r == Register::WORD {
            OperandKind::Imm16
        } else if r == Register::BYTE {
            OperandKind::Imm8
        } else {
            OperandKind::Plain
        },
        _ => OperandKind::Plain,
    }
}

/// Applies the rotate/shift/swap operation that `inst` names to `v`,
/// setting the flags; `None` when `inst` is not of that family.
fn rot_val(&mut self, inst: Instruction, v: u8) -> (res: Option<u8>)
    ensures
        match spec_rot_result(inst, old(self)@, v) {
            Some(t) => res == Some(t.1) && final(self)@ == t.0,
            None => res == None::<u8> && final(self)@ == old(self)@,
        },
{
    match inst {
        Instruction::SWAP(_) => Some(self.swap_val(v)),
        Instruction::RLC(_) => Some(self.rlc_val(v)),
        Instruction::RL(_) => Some(self.rl_val(v)),
        Instruction::RRC(_) => Some(self.rrc_val(v)),
        Instruction::RR(_) => Some(self.rr_val(v)),
        Instruction::SLA(_) => Some(self.sla_val(v)),
        Instruction::SRA(_) => Some(self.sra_val(v)),
        Instruction::SRL(_) => Some(self.srl_val(v)),
        _ => None,
    }
}

/// Resolves the 8-bit operand of an arithmetic or logic instruction,
/// together with the instruction's clock-cycle cost.
fn alu_operand(&self, mmu: &mut MMU, src: Register, data: u16) -> (r: Result<(u8, u64), RgbError>)
    requires
        old(mmu)@.wf(),
        spec_alu_src_ok(src),
    ensures
        (final(mmu)@, r) == spec_alu_operand(self@, old(mmu)@, src, data),
{
    match src {
        Register::BYTE => Ok(((data % 256) as u8, 8)),
        Register::HL => {
            let addr = self.get_hl();
            let v = mmu.rb(self.reg_pc, addr)?;
            Ok((v, 8))
        },
        _ => Ok((self.get_r8(src), 4)),
    }
}

/// Returns the next instruction byte and increments the program
/// counter, wrapping at the top of the address space.
pub fn p_fetch(&mut self, mmu: &mut MMU) -> (r: Result<u8, RgbError>)
    requires
        old(mmu)@.wf(),
    ensures
        final(mmu)@ == old(mmu)@.bios_checked(old(self)@.pc),
        match old(mmu)@.bios_checked(old(self)@.pc).read(old(self)@.pc) {
            Ok(b) => r == Ok::<u8, RgbError>(b) && final(self)@ == (CpuView {
                pc: old(self)@.pc.wrapping_add(1),
                ..old(self)@
            }),
            Err(e) => r == Err::<u8, RgbError>(e) && final(self)@ == old(self)@,
        },
{
    let byte = mmu.rb(self.reg_pc, self.reg_pc)?;
    self.reg_pc = self.reg_pc.wrapping_add(1);
    Ok(byte)
}

/// XOR( Register ): exclusive-ORs the named register, or the byte at
/// (HL), into the accumulator.
pub fn xor_r(&mut self, mmu: &mut MMU, reg: Register) -> (r: Result<(), RgbError>)
    requires
        old(mmu)@.wf(),
        spec_is_r8(reg) || reg == Register::HL,
    ensures
        spec_is_r8(reg) ==> final(mmu)@ == old(mmu)@ && r == Ok::<(), RgbError>(()) && final(self)@
            == spec_alu_xor(old(self)@, old(self)@.r8(reg)),
        reg == Register::HL ==> final(mmu)@ == old(mmu)@.bios_checked(old(self)@.pc) && (match old(
            mmu,
        )@.bios_checked(old(self)@.pc).read(old(self)@.hl()) {
            Ok(v) => r == Ok::<(), RgbError>(()) && final(self)@ == spec_alu_xor(old(self)@, v),
            Err(e) => r == Err::<(), RgbError>(e) && final(self)@ == old(self)@,
        }),
{
    let v: u8 = match reg {
        Register::HL => {
            let addr = self.get_hl();
            mmu.rb(self.reg_pc, addr)?
        },
        _ => self.get_r8(reg),
    };
    self.xor_a(v);
    Ok(())
}

/// BIT( bit, Register ): tests bit `bit` of the named register, or of
/// the byte at (HL); the carry flag is not affected.
pub fn bit_b_r(&mut self, mmu: &mut MMU, bit: u8, reg: Register) -> (r: Result<(), RgbError>)
    requires
        old(mmu)@.wf(),
        bit < 8,
        spec_is_r8(reg) || reg == Register::HL,
    ensures
        spec_is_r8(reg) ==> final(mmu)@ == old(mmu)@ && r == Ok::<(), RgbError>(()) && final(self)@
            == spec_bit_test(old(self)@, bit, old(self)@.r8(reg)),
        reg == Register::HL ==> final(mmu)@ == old(mmu)@.bios_checked(old(self)@.pc) && (match old(
            mmu,
        )@.bios_checked(old(self)@.pc).read(old(self)@.hl()) {
            Ok(v) => r == Ok::<(), RgbError>(()) && final(self)@ == spec_bit_test(old(self)@, bit, v),
            Err(e) => r == Err::<(), RgbError>(e) && final(self)@ == old(self)@,
        }),
{
    let v: u8 = match reg {
        Register::HL => {
            let addr = self.get_hl();
            mmu.rb(self.reg_pc, addr)?
        },
        _ => self.get_r8(reg),
    };
    self.bit_flags(bit, v);
    Ok(())
}

/// LoadDecrement: `(HL, A)` puts A into memory at (HL); `(A, HL)` puts
/// the byte at (HL) into A. Either way HL is then decremented, wrapping
/// at zero.
pub fn ldd_r_r(&mut self, mmu: &mut MMU, r_a: Register, r_b: Register) -> (r: Result<
    (),
    RgbError,
>)
    requires
        old(mmu)@.wf(),
        (r_a == Register::HL && r_b == Register::A) || (r_a == Register::A && r_b
            == Register::HL),
    ensures
        r_a == Register::HL ==> (match old(mmu)@.write(old(self)@.hl(), old(self)@.a) {
            Ok(m2) => r == Ok::<(), RgbError>(()) && final(mmu)@ == m2 && final(self)@ == old(
                self,
            )@.with_r16(Register::HL, old(self)@.hl().wrapping_sub(1)),
            Err(e) => r == Err::<(), RgbError>(e) && final(mmu)@ == old(mmu)@ && final(self)@ == old(
                self,
            )@,
        }),
        r_a == Register::A ==> final(mmu)@ == old(mmu)@.bios_checked(old(self)@.pc) && (match old(
            mmu,
        )@.bios_checked(old(self)@.pc).read(old(self)@.hl()) {
            Ok(v) => r == Ok::<(), RgbError>(()) && final(self)@ == old(self)@.with_r8(
                Register::A,
                v,
            ).with_r16(Register::HL, old(self)@.hl().wrapping_sub(1)),
            Err(e) => r == Err::<(), RgbError>(e) && final(self)@ == old(self)@,
        }),
{
    let addr = self.get_hl();
    match r_a {
        Register::HL => {
            mmu.wb(addr, self.reg_a)?;
        },
        _ => {
            let v = mmu.rb(self.reg_pc, addr)?;
            self.reg_a = v;
        },
    }
    self.ld_r_w(Register::HL, addr.wrapping_sub(1));
    Ok(())
}

/// LoadIncrement: as LoadDecrement, but HL is incremented afterwards,
/// wrapping at the top.
pub fn ldi_r_r(&mut self, mmu: &mut MMU, r_a: Register, r_b: Register) -> (r: Result<
    (),
    RgbError,
>)
    requires
        old(mmu)@.wf(),
        (r_a == Register::HL && r_b == Register::A) || (r_a == Register::A && r_b
            == Register::HL),
    ensures
        r_a == Register::HL ==> (match old(mmu)@.write(old(self)@.hl(), old(self)@.a) {
            Ok(m2) => r == Ok::<(), RgbError>(()) && final(mmu)@ == m2 && final(self)@ == old(
                self,
            )@.with_r16(Register::HL, old(self)@.hl().wrapping_add(1)),
            Err(e) => r == Err::<(), RgbError>(e) && final(mmu)@ == old(mmu)@ && final(self)@ == old(
                self,
            )@,
        }),
        r_a == Register::A ==> final(mmu)@ == old(mmu)@.bios_checked(old(self)@.pc) && (match old(
            mmu,
        )@.bios_checked(old(self)@.pc).read(old(self)@.hl()) {
            Ok(v) => r == Ok::<(), RgbError>(()) && final(self)@ == old(self)@.with_r8(
                Register::A,
                v,
            ).with_r16(Register::HL, old(self)@.hl().wrapping_add(1)),
            Err(e) => r == Err::<(), RgbError>(e) && final(self)@ == old(self)@,
        }),
{
    let addr = self.get_hl();
    match r_a {
        Register::HL => {
            mmu.wb(addr, self.reg_a)?;
        },
        _ => {
            let v = mmu.rb(self.reg_pc, addr)?;
            self.reg_a = v;
        },
    }
    self.ld_r_w(Register::HL, addr.wrapping_add(1));
    Ok(())
}

/// JR: adds the sign-extended offset byte to the program counter.
pub fn jr(&mut self, offset: u8)
    ensures
        final(self)@ == (CpuView { pc: spec_jr_target(old(self)@.pc, offset), ..old(self)@ }),
{
    let ext: u16 = if offset < 128 {
        offset as u16
    } else {
        offset as u16 + 0xFF00
    };
    self.reg_pc = self.reg_pc.wrapping_add(ext);
}

/// JRNZ: the relative jump, taken when the zero flag is clear.
pub fn jpnz(&mut self, offset: u8) -> (taken: bool)
    ensures
        taken == !old(self)@.zero,
        final(self)@ == (if !old(self)@.zero {
            CpuView { pc: spec_jr_target(old(self)@.pc, offset), ..old(self)@ }
        } else {
            old(self)@
        }),
{
    if !self.zero_flag {
        self.jr(offset);
        true
    } else {
        false
    }
}

/// JRZ: the relative jump, taken when the zero flag is set.
pub fn jpz(&mut self, offset: u8) -> (taken: bool)
    ensures
        taken == old(self)@.zero,
        final(self)@ == (if old(self)@.zero {
            CpuView { pc: spec_jr_target(old(self)@.pc, offset), ..old(self)@ }
        } else {
            old(self)@
        }),
{
    if self.zero_flag {
        self.jr(offset);
        true
    } else {
        false
    }
}

/// JRC: the relative jump, taken when the carry flag is set.
pub fn jpc(&mut self, offset: u8) -> (taken: bool)
    ensures
        taken == old(self)@.carry,
        final(self)@ == (if old(self)@.carry {
            CpuView { pc: spec_jr_target(old(self)@.pc, offset), ..old(self)@ }
        } else {
            old(self)@
        }),
{
    if self.carry_flag {
        self.jr(offset);
        true
    } else {
        false
    }
}

/// JRNC: the relative jump, taken when the carry flag is clear.
pub fn jpnc(&mut self, offset: u8) -> (taken: bool)
    ensures
        taken == !old(self)@.carry,
        final(self)@ == (if !old(self)@.carry {
            CpuView { pc: spec_jr_target(old(self)@.pc, offset), ..old(self)@ }
        } else {
            old(self)@
        }),
{
    if !self.carry_flag {
        self.jr(offset);
        true
    } else {
        false
    }
}

/// Pushes a word onto the stack: stack pointer down twice, high byte
/// first.
pub fn push_word(&mut self, mmu: &mut MMU, w: u16) -> (r: Result<(), RgbError>)
    requires
        old(mmu)@.wf(),
    ensures
        (final(self)@, final(mmu)@, r) == spec_push(old(self)@, old(mmu)@, w),
{
    let sp1 = self.reg_sp.wrapping_sub(1);
    let sp2 = self.reg_sp.wrapping_sub(2);
    mmu.wb(sp1, (w / 256) as u8)?;
    mmu.wb(sp2, (w % 256) as u8)?;
    self.reg_sp = sp2;
    Ok(())
}

/// Pops a word from the stack: low byte at the stack pointer, high byte
/// above it, stack pointer up twice.
pub fn pop_word(&mut self, mmu: &mut MMU) -> (r: Result<u16, RgbError>)
    requires
        old(mmu)@.wf(),
    ensures
        (final(self)@, final(mmu)@) == (spec_pop(old(self)@, old(mmu)@).0, spec_pop(
            old(self)@,
            old(mmu)@,
        ).1),
        r == spec_pop(old(self)@, old(mmu)@).2,
{
    let lo = mmu.rb(self.reg_pc, self.reg_sp)?;
    let hi = mmu.rb(self.reg_pc, self.reg_sp.wrapping_add(1))?;
    self.reg_sp = self.reg_sp.wrapping_add(2);
    Ok((hi as u16) * 256 + (lo as u16))
}

/// Executes a load between the places its two register tags name.
fn ld_exec(&mut self, mmu: &mut MMU, dst: Register, src: Register, data: u16) -> (r: Result<
    u64,
    RgbError,
>)
    requires
        old(mmu)@.wf(),
    ensures
        (final(self)@, final(mmu)@, r) == spec_exec_ld(old(self)@, old(mmu)@, dst, src, data),
{
    if Self::is_r8(dst) {
        if Self::is_r8(src) {
            let v = self.get_r8(src);
            self.ld_r_n(dst, v);
            Ok(4)
        } else if matches!(src, Register::BYTE) {
            self.ld_r_n(dst, (data % 256) as u8);
            Ok(8)
        } else if matches!(src, Register::HL | Register::BC | Register::DE) {
            let addr = self.get_r16(src);
            let v = mmu.rb(self.reg_pc, addr)?;
            self.ld_r_n(dst, v);
            Ok(8)
        } else if matches!(src, Register::WORD) && matches!(dst, Register::A) {
            let v = mmu.rb(self.reg_pc, data)?;
            self.ld_r_n(dst, v);
            Ok(16)
        } else if matches!(src, Register::C0) && matches!(dst, Register::A) {
            let addr: u16 = 0xFF00 + self.reg_c as u16;
            let v = mmu.rb(self.reg_pc, addr)?;
            self.ld_r_n(dst, v);
            Ok(8)
        } else {
            Err(RgbError::Unimplemented(Instruction::LD(dst, src)))
        }
    } else if matches!(dst, Register::HL) && Self::is_r8(src) {
        let addr = self.get_hl();
        let v = self.get_r8(src);
        mmu.wb(addr, v)?;
        Ok(8)
    } else if matches!(dst, Register::HL) && matches!(src, Register::BYTE) {
        let addr = self.get_hl();
        mmu.wb(addr, (data % 256) as u8)?;
        Ok(12)
    } else if matches!(dst, Register::BC | Register::DE) && matches!(src, Register::A) {
        let addr = self.get_r16(dst);
        mmu.wb(addr, self.reg_a)?;
        Ok(8)
    } else if matches!(dst, Register::C0) && matches!(src, Register::A) {
        let addr: u16 = 0xFF00 + self.reg_c as u16;
        mmu.wb(addr, self.reg_a)?;
        Ok(8)
    } else if matches!(dst, Register::WORD) && matches!(src, Register::A) {
        mmu.wb(data, self.reg_a)?;
        Ok(16)
    } else if matches!(dst, Register::WORD) && matches!(src, Register::SP) {
        mmu.ww(data, self.reg_sp)?;
        Ok(20)
    } else if matches!(dst, Register::BC | Register::DE | Register::HL | Register::SP) && matches!(
        src,
        Register::WORD,
    ) {
        self.ld_r_w(dst, data);
        Ok(12)
    } else if matches!(dst, Register::SP) && matches!(src, Register::HL) {
        let hl = self.get_hl();
        self.reg_sp = hl;
        Ok(8)
    } else {
        Err(RgbError::Unimplemented(Instruction::LD(dst, src)))
    }
}

/// Executes the no-operand instructions: control and flag operations,
/// accumulator rotates, decimal adjust, and the jump to HL.
fn exec_misc(&mut self, mmu: &mut MMU, inst: Instruction, data: u16) -> (r: Result<
    u64,
    RgbError,
>)
    requires
        old(mmu)@.wf(),
    ensures
        (final(self)@, final(mmu)@, r) == spec_exec_misc(old(self)@, old(mmu)@, inst, data),
        final(mmu)@.wf(),
{
    match inst {
        Instruction::NOP => {
            self.nop();
            Ok(4)
        },
        Instruction::HALT => {
            self.halt();
            Ok(4)
        },
        Instruction::STOP => {
            self.stop();
            Ok(4)
        },
        Instruction::DI => {
            self.di();
            Ok(4)
        },
        Instruction::EI => {
            self.ei();
            Ok(4)
        },
        Instruction::CPL => {
            self.cpl();
            Ok(4)
        },
        Instruction::SCF => {
            self.scf();
            Ok(4)
        },
        Instruction::CCF => {
            self.ccf();
            Ok(4)
        },
        Instruction::DAA => {
            self.daa();
            Ok(4)
        },
        Instruction::RLCA => {
            self.rlca();
            Ok(4)
        },
        Instruction::RLA => {
            self.rla();
            Ok(4)
        },
        Instruction::RRCA => {
            self.rrca();
            Ok(4)
        },
        Instruction::RRA => {
            self.rra();
            Ok(4)
        },
        Instruction::JPHL => {
            let hl = self.get_hl();
            self.reg_pc = hl;
            Ok(4)
        },
        _ => Err(RgbError::Unimplemented(inst)),
    }
}

/// Executes the post-decrement/increment loads, the 0xFF00-page loads
/// and the stack-relative HL load.
fn exec_mem_ld(&mut self, mmu: &mut MMU, inst: Instruction, data: u16) -> (r: Result<
    u64,
    RgbError,
>)
    requires
        old(mmu)@.wf(),
    ensures
        (final(self)@, final(mmu)@, r) == spec_exec_mem_ld(old(self)@, old(mmu)@, inst, data),
        final(mmu)@.wf(),
{
    match inst {
        Instruction::LDD(ra, rb) => {
            if (matches!(ra, Register::HL) && matches!(rb, Register::A)) || (matches!(
                ra,
                Register::A,
            ) && matches!(rb, Register::HL)) {
                self.ldd_r_r(mmu, ra, rb)?;
                Ok(8)
            } else {
                Err(RgbError::Unimplemented(inst))
            }
        },
        Instruction::LDI(ra, rb) => {
            if (matches!(ra, Register::HL) && matches!(rb, Register::A)) || (matches!(
                ra,
                Register::A,
            ) && matches!(rb, Register::HL)) {
                self.ldi_r_r(mmu, ra, rb)?;
                Ok(8)
            } else {
                Err(RgbError::Unimplemented(inst))
            }
        },
        Instruction::LDH(ra, rb) => {
            if matches!(ra, Register::BYTE) && matches!(rb, Register::A) {
                let addr: u16 = 0xFF00 + data % 256;
                mmu.wb(addr, self.reg_a)?;
                Ok(12)
            } else if matches!(ra, Register::A) && matches!(rb, Register::BYTE) {
                let addr: u16 = 0xFF00 + data % 256;
                let v = mmu.rb(self.reg_pc, addr)?;
                self.reg_a = v;
                Ok(12)
            } else {
                Err(RgbError::Unimplemented(inst))
            }
        },
        Instruction::LDHL(ra, rb) => {
            if matches!(ra, Register::SP) && matches!(rb, Register::BYTE) {
                let res = self.sp_plus_e((data % 256) as u8);
                self.ld_r_w(Register::HL, res);
                Ok(12)
            } else {
                Err(RgbError::Unimplemented(inst))
            }
        },
        _ => Err(RgbError::Unimplemented(inst)),
    }
}

/// Executes the stack instructions: push, pop, calls, restarts and
/// returns.
#[verifier::rlimit(100)]
#[verifier::spinoff_prover]
fn exec_stack(&mut self, mmu: &mut MMU, inst: Instruction, data: u16) -> (r: Result<
    u64,
    RgbError,
>)
    requires
        old(mmu)@.wf(),
    ensures
        (final(self)@, final(mmu)@, r) == spec_exec_stack(old(self)@, old(mmu)@, inst, data),
        final(mmu)@.wf(),
{
    match inst {
        Instruction::PUSH(rr) => {
            if matches!(rr, Register::AF | Register::BC | Register::DE | Register::HL) {
                let w = self.get_r16(rr);
                self.push_word(mmu, w)?;
                Ok(16)
            } else {
                Err(RgbError::Unimplemented(inst))
            }
        },
        Instruction::POP(rr) => {
            if matches!(rr, Register::AF | Register::BC | Register::DE | Register::HL) {
                let w = self.pop_word(mmu)?;
                self.ld_r_w(rr, w);
                Ok(12)
            } else {
                Err(RgbError::Unimplemented(inst))
            }
        },
        Instruction::CALL(r) => {
            if matches!(r, Register::WORD) {
                let pc = self.reg_pc;
                self.push_word(mmu, pc)?;
                self.reg_pc = data;
                Ok(24)
            } else {
                Err(RgbError::Unimplemented(inst))
            }
        },
        Instruction::CALLNZ(r) => {
            if matches!(r, Register::WORD) {
                if !self.zero_flag {
                    let pc = self.reg_pc;
                    self.push_word(mmu, pc)?;
                    self.reg_pc = data;
                    Ok(24)
                } else {
                    Ok(12)
                }
            } else {
                Err(RgbError::Unimplemented(inst))
            }
        },
        Instruction::CALLZ(r) => {
            if matches!(r, Register::WORD) {
                if self.zero_flag {
                    let pc = self.reg_pc;
                    self.push_word(mmu, pc)?;
                    self.reg_pc = data;
                    Ok(24)
                } else {
                    Ok(12)
                }
            } else {
                Err(RgbError::Unimplemented(inst))
            }
        },
        Instruction::CALLNC(r) => {
            if matches!(r, Register::WORD) {
                if !self.carry_flag {
                    let pc = self.reg_pc;
                    self.push_word(mmu, pc)?;
                    self.reg_pc = data;
                    Ok(24)
                } else {
                    Ok(12)
                }
            } else {
                Err(RgbError::Unimplemented(inst))
            }
        },
        Instruction::CALLC(r) => {
            if matches!(r, Register::WORD) {
                if self.carry_flag {
                    let pc = self.reg_pc;
                    self.push_word(mmu, pc)?;
                    self.reg_pc = data;
                    Ok(24)
                } else {
                    Ok(12)
                }
            } else {
                Err(RgbError::Unimplemented(inst))
            }
        },
        Instruction::RST(target) => {
            let pc = self.reg_pc;
            self.push_word(mmu, pc)?;
            self.reg_pc = target as u16;
            Ok(16)
        },
        Instruction::RET => {
            let w = self.pop_word(mmu)?;
            self.reg_pc = w;
            Ok(16)
        },
        Instruction::RETI => {
            let w = self.pop_word(mmu)?;
            self.reg_pc = w;
            self.ime = true;
            Ok(16)
        },
        Instruction::RETNZ => {
            if !self.zero_flag {
                let w = self.pop_word(mmu)?;
                self.reg_pc = w;
                Ok(20)
            } else {
                Ok(8)
            }
        },
        Instruction::RETZ => {
            if self.zero_flag {
                let w = self.pop_word(mmu)?;
                self.reg_pc = w;
                Ok(20)
            } else {
                Ok(8)
            }
        },
        Instruction::RETNC => {
            if !self.carry_flag {
                let w = self.pop_word(mmu)?;
                self.reg_pc = w;
                Ok(20)
            } else {
                Ok(8)
            }
        },
        Instruction::RETC => {
            if self.carry_flag {
                let w = self.pop_word(mmu)?;
                self.reg_pc = w;
                Ok(20)
            } else {
                Ok(8)
            }
        },
        _ => Err(RgbError::Unimplemented(inst)),
    }
}

/// Executes the 8-bit and 16-bit arithmetic and logic instructions.
#[verifier::rlimit(100)]
#[verifier::spinoff_prover]
fn exec_alu8(&mut self, mmu: &mut MMU, inst: Instruction, data: u16) -> (r: Result<
    u64,
    RgbError,
>)
    requires
        old(mmu)@.wf(),
    ensures
        (final(self)@, final(mmu)@, r) == spec_exec_alu8(old(self)@, old(mmu)@, inst, data),
        final(mmu)@.wf(),
{
    match inst {
        Instruction::ADD(x, y) => {
            if matches!(x, Register::A) && (Self::is_r8(y) || matches!(
                y,
                Register::BYTE | Register::HL,
            )) {
                let (v, cy) = self.alu_operand(mmu, y, data)?;
                self.add_a(v);
                Ok(cy)
            } else if matches!(x, Register::HL) && matches!(
                y,
                Register::BC | Register::DE | Register::HL | Register::SP,
            ) {
                let w = self.get_r16(y);
                self.add_hl(w);
                Ok(8)
            } else if matches!(x, Register::SP) && matches!(y, Register::BYTE) {
                let res = self.sp_plus_e((data % 256) as u8);
                self.reg_sp = res;
                Ok(16)
            } else {
                Err(RgbError::Unimplemented(inst))
            }
        },
        Instruction::ADC(x, y) => {
            if matches!(x, Register::A) && (Self::is_r8(y) || matches!(
                y,
                Register::BYTE | Register::HL,
            )) {
                let (v, cy) = self.alu_operand(mmu, y, data)?;
                self.adc_a(v);
                Ok(cy)
            } else {
                Err(RgbError::Unimplemented(inst))
            }
        },
        Instruction::SUB(x, y) => {
            if matches!(x, Register::A) && (Self::is_r8(y) || matches!(
                y,
                Register::BYTE | Register::HL,
            )) {
                let (v, cy) = self.alu_operand(mmu, y, data)?;
                self.sub_a(v);
                Ok(cy)
            } else {
                Err(RgbError::Unimplemented(inst))
            }
        },
        Instruction::SBC(x, y) => {
            if matches!(x, Register::A) && (Self::is_r8(y) || matches!(
                y,
                Register::BYTE | Register::HL,
            )) {
                let (v, cy) = self.alu_operand(mmu, y, data)?;
                self.sbc_a(v);
                Ok(cy)
            } else {
                Err(RgbError::Unimplemented(inst))
            }
        },
        Instruction::AND(y) => {
            if Self::is_r8(y) || matches!(y, Register::BYTE | Register::HL) {
                let (v, cy) = self.alu_operand(mmu, y, data)?;
                self.and_a(v);
                Ok(cy)
            } else {
                Err(RgbError::Unimplemented(inst))
            }
        },
        Instruction::OR(y) => {
            if Self::is_r8(y) || matches!(y, Register::BYTE | Register::HL) {
                let (v, cy) = self.alu_operand(mmu, y, data)?;
                self.or_a(v);
                Ok(cy)
            } else {
                Err(RgbError::Unimplemented(inst))
            }
        },
        Instruction::XOR(y) => {
            if Self::is_r8(y) || matches!(y, Register::BYTE | Register::HL) {
                let (v, cy) = self.alu_operand(mmu, y, data)?;
                self.xor_a(v);
                Ok(cy)
            } else {
                Err(RgbError::Unimplemented(inst))
            }
        },
        Instruction::CP(y) => {
            if Self::is_r8(y) || matches!(y, Register::BYTE | Register::HL) {
                let (v, cy) = self.alu_operand(mmu, y, data)?;
                self.cp_a(v);
                Ok(cy)
            } else {
                Err(RgbError::Unimplemented(inst))
            }
        },
        _ => Err(RgbError::Unimplemented(inst)),
    }
}

#[verifier::rlimit(100)]
#[verifier::spinoff_prover]
fn exec_incdec(&mut self, mmu: &mut MMU, inst: Instruction, data: u16) -> (r: Result<
    u64,
    RgbError,
>)
    requires
        old(mmu)@.wf(),
    ensures
        (final(self)@, final(mmu)@, r) == spec_exec_incdec(old(self)@, old(mmu)@, inst, data),
        final(mmu)@.wf(),
{
    match inst {
        Instruction::INC(r) => {
            if Self::is_r8(r) {
                let v = self.get_r8(r);
                let res = self.inc_val(v);
                self.ld_r_n(r, res);
                Ok(4)
            } else if matches!(r, Register::BC | Register::DE | Register::HL | Register::SP) {
                let w = self.get_r16(r);
                self.ld_r_w(r, w.wrapping_add(1));
                Ok(8)
            } else if matches!(r, Register::HLM) {
                let addr = self.get_hl();
                let v = mmu.rb(self.reg_pc, addr)?;
                let res = self.inc_val(v);
                mmu.wb(addr, res)?;
                Ok(12)
            } else {
                Err(RgbError::Unimplemented(inst))
            }
        },
        Instruction::DEC(r) => {
            if Self::is_r8(r) {
                let v = self.get_r8(r);
                let res = self.dec_val(v);
                self.ld_r_n(r, res);
                Ok(4)
            } else if matches!(r, Register::BC | Register::DE | Register::HL | Register::SP) {
                let w = self.get_r16(r);
                self.ld_r_w(r, w.wrapping_sub(1));
                Ok(8)
            } else if matches!(r, Register::HLM) {
                let addr = self.get_hl();
                let v = mmu.rb(self.reg_pc, addr)?;
                let res = self.dec_val(v);
                mmu.wb(addr, res)?;
                Ok(12)
            } else {
                Err(RgbError::Unimplemented(inst))
            }
        },
        _ => Err(RgbError::Unimplemented(inst)),
    }
}

/// Executes the 8-bit and 16-bit arithmetic and logic instructions.
fn exec_alu(&mut self, mmu: &mut MMU, inst: Instruction, data: u16) -> (r: Result<
    u64,
    RgbError,
>)
    requires
        old(mmu)@.wf(),
    ensures
        (final(self)@, final(mmu)@, r) == spec_exec_alu(old(self)@, old(mmu)@, inst, data),
        final(mmu)@.wf(),
{
    match inst {
        Instruction::INC(_) | Instruction::DEC(_) => self.exec_incdec(mmu, inst, data),
        _ => self.exec_alu8(mmu, inst, data),
    }
}


/// Executes the absolute and relative jumps.
fn exec_jump(&mut self, mmu: &mut MMU, inst: Instruction, data: u16) -> (r: Result<
    u64,
    RgbError,
>)
    requires
        old(mmu)@.wf(),
    ensures
        (final(self)@, final(mmu)@, r) == spec_exec_jump(old(self)@, old(mmu)@, inst, data),
        final(mmu)@.wf(),
{
    match inst {
        Instruction::JP(r) => {
            if matches!(r, Register::WORD) {
                self.reg_pc = data;
                Ok(16)
            } else {
                Err(RgbError::Unimplemented(inst))
            }
        },
        Instruction::JPNZ(r) => {
            if matches!(r, Register::WORD) {
                if !self.zero_flag {
                    self.reg_pc = data;
                    Ok(16)
                } else {
                    Ok(12)
                }
            } else {
                Err(RgbError::Unimplemented(inst))
            }
        },
        Instruction::JPZ(r) => {
            if matches!(r, Register::WORD) {
                if self.zero_flag {
                    self.reg_pc = data;
                    Ok(16)
                } else {
                    Ok(12)
                }
            } else {
                Err(RgbError::Unimplemented(inst))
            }
        },
        Instruction::JPNC(r) => {
            if matches!(r, Register::WORD) {
                if !self.carry_flag {
                    self.reg_pc = data;
                    Ok(16)
                } else {
                    Ok(12)
                }
            } else {
                Err(RgbError::Unimplemented(inst))
            }
        },
        Instruction::JPC(r) => {
            if matches!(r, Register::WORD) {
                if self.carry_flag {
                    self.reg_pc = data;
                    Ok(16)
                } else {
                    Ok(12)
                }
            } else {
                Err(RgbError::Unimplemented(inst))
            }
        },
        Instruction::JR(r) => {
            if matches!(r, Register::BYTE) {
                self.jr((data % 256) as u8);
                Ok(12)
            } else {
                Err(RgbError::Unimplemented(inst))
            }
        },
        Instruction::JRNZ(r) => {
            if matches!(r, Register::BYTE) {
                if self.jpnz((data % 256) as u8) {
                    Ok(12)
                } else {
                    Ok(8)
                }
            } else {
                Err(RgbError::Unimplemented(inst))
            }
        },
        Instruction::JRZ(r) => {
            if matches!(r, Register::BYTE) {
                if self.jpz((data % 256) as u8) {
                    Ok(12)
                } else {
                    Ok(8)
                }
            } else {
                Err(RgbError::Unimplemented(inst))
            }
        },
        Instruction::JRNC(r) => {
            if matches!(r, Register::BYTE) {
                if self.jpnc((data % 256) as u8) {
                    Ok(12)
                } else {
                    Ok(8)
                }
            } else {
                Err(RgbError::Unimplemented(inst))
            }
        },
        Instruction::JRC(r) => {
            if matches!(r, Register::BYTE) {
                if self.jpc((data % 256) as u8) {
                    Ok(12)
                } else {
                    Ok(8)
                }
            } else {
                Err(RgbError::Unimplemented(inst))
            }
        },
        _ => Err(RgbError::Unimplemented(inst)),
    }
}

/// Executes the extended set: shifts, rotates, nibble swap and the
/// bit test/set/reset operations.
fn exec_cb(&mut self, mmu: &mut MMU, inst: Instruction, data: u16) -> (r: Result<
    u64,
    RgbError,
>)
    requires
        old(mmu)@.wf(),
    ensures
        (final(self)@, final(mmu)@, r) == spec_exec_cb(old(self)@, old(mmu)@, inst, data),
        final(mmu)@.wf(),
{
    match inst {
        Instruction::SWAP(r) | Instruction::RLC(r) | Instruction::RL(r) | Instruction::RRC(r)
            | Instruction::RR(r) | Instruction::SLA(r) | Instruction::SRA(r)
            | Instruction::SRL(r) => {
            if Self::is_r8(r) {
                let v = self.get_r8(r);
                match self.rot_val(inst, v) {
                    Some(res) => {
                        self.ld_r_n(r, res);
                        Ok(8)
                    },
                    None => Err(RgbError::Unimplemented(inst)),
                }
            } else if matches!(r, Register::HL) {
                let addr = self.get_hl();
                let v = mmu.rb(self.reg_pc, addr)?;
                match self.rot_val(inst, v) {
                    Some(res) => {
                        mmu.wb(addr, res)?;
                        Ok(16)
                    },
                    None => Err(RgbError::Unimplemented(inst)),
                }
            } else {
                Err(RgbError::Unimplemented(inst))
            }
        },
        Instruction::BIT(b, r) => {
            if b < 8 && Self::is_r8(r) {
                let v = self.get_r8(r);
                self.bit_flags(b, v);
                Ok(8)
            } else if b < 8 && matches!(r, Register::HL) {
                let addr = self.get_hl();
                let v = mmu.rb(self.reg_pc, addr)?;
                self.bit_flags(b, v);
                Ok(12)
            } else {
                Err(RgbError::Unimplemented(inst))
            }
        },
        Instruction::SET(b, r) => {
            if b < 8 && Self::is_r8(r) {
                let v = self.get_r8(r);
                self.ld_r_n(r, v | (1u8 << b));
                Ok(8)
            } else if b < 8 && matches!(r, Register::HL) {
                let addr = self.get_hl();
                let v = mmu.rb(self.reg_pc, addr)?;
                mmu.wb(addr, v | (1u8 << b))?;
                Ok(16)
            } else {
                Err(RgbError::Unimplemented(inst))
            }
        },
        Instruction::RES(b, r) => {
            if b < 8 && Self::is_r8(r) {
                let v = self.get_r8(r);
                self.ld_r_n(r, v & (0xFFu8 ^ (1u8 << b)));
                Ok(8)
            } else if b < 8 && matches!(r, Register::HL) {
                let addr = self.get_hl();
                let v = mmu.rb(self.reg_pc, addr)?;
                mmu.wb(addr, v & (0xFFu8 ^ (1u8 << b)))?;
                Ok(16)
            } else {
                Err(RgbError::Unimplemented(inst))
            }
        },
        _ => Err(RgbError::Unimplemented(inst)),
    }
}

/// Executes one decoded instruction against the register file and the
/// memory, returning its clock-cycle cost. `data` is the immediate
/// operand resolved during operand fetch, zero for instructions without
/// one. A decoded instruction whose handler this core does not
/// implement returns a fatal, diagnosable error rather than silently
/// skipping, since a skip would corrupt the program-counter alignment
/// of everything after it.
pub fn execute(&mut self, mmu: &mut MMU, inst: Instruction, data: u16) -> (r: Result<
    u64,
    RgbError,
>)
    requires
        old(mmu)@.wf(),
    ensures
        (final(self)@, final(mmu)@, r) == spec_exec(old(self)@, old(mmu)@, inst, data),
        final(mmu)@.wf(),
{
    match inst {
        Instruction::NOP | Instruction::HALT | Instruction::STOP | Instruction::DI
            | Instruction::EI | Instruction::CPL | Instruction::SCF | Instruction::CCF
            | Instruction::RLCA | Instruction::RLA | Instruction::RRCA | Instruction::RRA
            | Instruction::JPHL | Instruction::DAA => self.exec_misc(mmu, inst, data),
        Instruction::LD(dst, src) => self.ld_exec(mmu, dst, src, data),
        Instruction::LDD(_, _) | Instruction::LDI(_, _) | Instruction::LDH(_, _)
            | Instruction::LDHL(_, _) => self.exec_mem_ld(
            mmu,
            inst,
            data,
        ),
        Instruction::PUSH(_) | Instruction::POP(_) | Instruction::CALL(_) | Instruction::CALLNZ(_)
            | Instruction::CALLZ(_) | Instruction::CALLNC(_) | Instruction::CALLC(_)
            | Instruction::RST(_) | Instruction::RET | Instruction::RETI | Instruction::RETNZ
            | Instruction::RETZ | Instruction::RETNC | Instruction::RETC => self.exec_stack(
            mmu,
            inst,
            data,
        ),
        Instruction::ADD(_, _) | Instruction::ADC(_, _) | Instruction::SUB(_, _)
            | Instruction::SBC(_, _) | Instruction::AND(_) | Instruction::OR(_)
            | Instruction::XOR(_) | Instruction::CP(_) | Instruction::INC(_)
            | Instruction::DEC(_) => self.exec_alu(mmu, inst, data),
        Instruction::JP(_) | Instruction::JPNZ(_) | Instruction::JPZ(_) | Instruction::JPNC(_)
            | Instruction::JPC(_) | Instruction::JR(_) | Instruction::JRNZ(_)
            | Instruction::JRZ(_) | Instruction::JRNC(_) | Instruction::JRC(_) => self.exec_jump(
            mmu,
            inst,
            data,
        ),
        Instruction::SWAP(_) | Instruction::RLC(_) | Instruction::RL(_) | Instruction::RRC(_)
            | Instruction::RR(_) | Instruction::SLA(_) | Instruction::SRA(_)
            | Instruction::SRL(_) | Instruction::BIT(_, _) | Instruction::SET(_, _)
            | Instruction::RES(_, _) => self.exec_cb(mmu, inst, data),
        _ => Err(RgbError::Unimplemented(inst)),
    }
}

/// Decodes one opcode byte. Total: every byte, including unassigned
/// opcodes, yields a well-defined instruction (unassigned ones decode
/// to NOP), since the processor must not trap on undefined opcodes in
/// malformed cartridge images.
pub fn decode(byte: u8) -> (inst: Instruction)
    ensures
        inst == spec_decode(byte),
{
    if 0x40 <= byte && byte <= 0x7F {
        if byte == 0x76 {
            Instruction::HALT
        } else {
            Instruction::LD(reg_sel(byte / 8), reg_sel(byte % 8))
        }
    } else if 0x80 <= byte && byte <= 0xBF {
        let src = reg_sel(byte % 8);
        match (byte / 8) % 8 {
            0u8 => Instruction::ADD(Register::A, src),
            1u8 => Instruction::ADC(Register::A, src),
            2u8 => Instruction::SUB(Register::A, src),
            3u8 => Instruction::SBC(Register::A, src),
            4u8 => Instruction::AND(src),
            5u8 => Instruction::XOR(src),
            6u8 => Instruction::OR(src),
            _ => Instruction::CP(src),
        }
    } else {
        match byte {
            0x00u8 => Instruction::NOP,
            0x01u8 => Instruction::LD(Register::BC, Register::WORD),
            0x02u8 => Instruction::LD(Register::BC, Register::A),
            0x03u8 => Instruction::INC(Register::BC),
            0x04u8 => Instruction::INC(Register::B),
            0x05u8 => Instruction::DEC(Register::B),
            0x06u8 => Instruction::LD(Register::B, Register::BYTE),
            0x07u8 => Instruction::RLCA,
            0x08u8 => Instruction::LD(Register::WORD, Register::SP),
            0x09u8 => Instruction::ADD(Register::HL, Register::BC),
            0x0Au8 => Instruction::LD(Register::A, Register::BC),
            0x0Bu8 => Instruction::DEC(Register::BC),
            0x0Cu8 => Instruction::INC(Register::C),
            0x0Du8 => Instruction::DEC(Register::C),
            0x0Eu8 => Instruction::LD(Register::C, Register::BYTE),
            0x0Fu8 => Instruction::RRCA,
            0x10u8 => Instruction::STOP,
            0x11u8 => Instruction::LD(Register::DE, Register::WORD),
            0x12u8 => Instruction::LD(Register::DE, Register::A),
            0x13u8 => Instruction::INC(Register::DE),
            0x14u8 => Instruction::INC(Register::D),
            0x15u8 => Instruction::DEC(Register::D),
            0x16u8 => Instruction::LD(Register::D, Register::BYTE),
            0x17u8 => Instruction::RLA,
            0x18u8 => Instruction::JR(Register::BYTE),
            0x19u8 => Instruction::ADD(Register::HL, Register::DE),
            0x1Au8 => Instruction::LD(Register::A, Register::DE),
            0x1Bu8 => Instruction::DEC(Register::DE),
            0x1Cu8 => Instruction::INC(Register::E),
            0x1Du8 => Instruction::DEC(Register::E),
            0x1Eu8 => Instruction::LD(Register::E, Register::BYTE),
            0x1Fu8 => Instruction::RRA,
            0x20u8 => Instruction::JRNZ(Register::BYTE),
            0x21u8 => Instruction::LD(Register::HL, Register::WORD),
            0x22u8 => Instruction::LDI(Register::HL, Register::A),
            0x23u8 => Instruction::INC(Register::HL),
            0x24u8 => Instruction::INC(Register::H),
            0x25u8 => Instruction::DEC(Register::H),
            0x26u8 => Instruction::LD(Register::H, Register::BYTE),
            0x27u8 => Instruction::DAA,
            0x28u8 => Instruction::JRZ(Register::BYTE),
            0x29u8 => Instruction::ADD(Register::HL, Register::HL),
            0x2Au8 => Instruction::LDI(Register::A, Register::HL),
            0x2Bu8 => Instruction::DEC(Register::HL),
            0x2Cu8 => Instruction::INC(Register::L),
            0x2Du8 => Instruction::DEC(Register::L),
            0x2Eu8 => Instruction::LD(Register::L, Register::BYTE),
            0x2Fu8 => Instruction::CPL,
            0x30u8 => Instruction::JRNC(Register::BYTE),
            0x31u8 => Instruction::LD(Register::SP, Register::WORD),
            0x32u8 => Instruction::LDD(Register::HL, Register::A),
            0x33u8 => Instruction::INC(Register::SP),
            0x34u8 => Instruction::INC(Register::HLM),
            0x35u8 => Instruction::DEC(Register::HLM),
            0x36u8 => Instruction::LD(Register::HL, Register::BYTE),
            0x37u8 => Instruction::SCF,
            0x38u8 => Instruction::JRC(Register::BYTE),
            0x39u8 => Instruction::ADD(Register::HL, Register::SP),
            0x3Au8 => Instruction::LDD(Register::A, Register::HL),
            0x3Bu8 => Instruction::DEC(Register::SP),
            0x3Cu8 => Instruction::INC(Register::A),
            0x3Du8 => Instruction::DEC(Register::A),
            0x3Eu8 => Instruction::LD(Register::A, Register::BYTE),
            0x3Fu8 => Instruction::CCF,
            0xC0u8 => Instruction::RETNZ,
            0xC1u8 => Instruction::POP(Register::BC),
            0xC2u8 => Instruction::JPNZ(Register::WORD),
            0xC3u8 => Instruction::JP(Register::WORD),
            0xC4u8 => Instruction::CALLNZ(Register::WORD),
            0xC5u8 => Instruction::PUSH(Register::BC),
            0xC6u8 => Instruction::ADD(Register::A, Register::BYTE),
            0xC7u8 => Instruction::RST(0x00),
            0xC8u8 => Instruction::RETZ,
            0xC9u8 => Instruction::RET,
            0xCAu8 => Instruction::JPZ(Register::WORD),
            0xCBu8 => Instruction::ExtInstr,
            0xCCu8 => Instruction::CALLZ(Register::WORD),
            0xCDu8 => Instruction::CALL(Register::WORD),
            0xCEu8 => Instruction::ADC(Register::A, Register::BYTE),
            0xCFu8 => Instruction::RST(0x08),
            0xD0u8 => Instruction::RETNC,
            0xD1u8 => Instruction::POP(Register::DE),
            0xD2u8 => Instruction::JPNC(Register::WORD),
            0xD4u8 => Instruction::CALLNC(Register::WORD),
            0xD5u8 => Instruction::PUSH(Register::DE),
            0xD6u8 => Instruction::SUB(Register::A, Register::BYTE),
            0xD7u8 => Instruction::RST(0x10),
            0xD8u8 => Instruction::RETC,
            0xD9u8 => Instruction::RETI,
            0xDAu8 => Instruction::JPC(Register::WORD),
            0xDCu8 => Instruction::CALLC(Register::WORD),
            0xDEu8 => Instruction::SBC(Register::A, Register::BYTE),
            0xDFu8 => Instruction::RST(0x18),
            0xE0u8 => Instruction::LDH(Register::BYTE, Register::A),
            0xE1u8 => Instruction::POP(Register::HL),
            0xE2u8 => Instruction::LD(Register::C0, Register::A),
            0xE5u8 => Instruction::PUSH(Register::HL),
            0xE6u8 => Instruction::AND(Register::BYTE),
            0xE7u8 => Instruction::RST(0x20),
            0xE8u8 => Instruction::ADD(Register::SP, Register::BYTE),
            0xE9u8 => Instruction::JPHL,
            0xEAu8 => Instruction::LD(Register::WORD, Register::A),
            0xEEu8 => Instruction::XOR(Register::BYTE),
            0xEFu8 => Instruction::RST(0x28),
            0xF0u8 => Instruction::LDH(Register::A, Register::BYTE),
            0xF1u8 => Instruction::POP(Register::AF),
            0xF2u8 => Instruction::LD(Register::A, Register::C0),
            0xF3u8 => Instruction::DI,
            0xF5u8 => Instruction::PUSH(Register::AF),
            0xF6u8 => Instruction::OR(Register::BYTE),
            0xF7u8 => Instruction::RST(0x30),
            0xF8u8 => Instruction::LDHL(Register::SP, Register::BYTE),
            0xF9u8 => Instruction::LD(Register::SP, Register::HL),
            0xFAu8 => Instruction::LD(Register::A, Register::WORD),
            0xFBu8 => Instruction::EI,
            0xFEu8 => Instruction::CP(Register::BYTE),
            0xFFu8 => Instruction::RST(0x38),
            _ => Instruction::NOP,
        }
    }
}

/// Decodes the byte that follows the 0xCB marker. The extended table is
/// fully regular, so it is generated from its (operation, bit index,
/// register selector) structure rather than enumerated case by case.
pub fn decode_extended(byte: u8) -> (inst: Instruction)
    ensures
        inst == spec_decode_extended(byte),
{
    let reg = reg_sel(byte % 8);
    let op: u8 = byte / 8;
    if op < 8 {
        match op {
            0u8 => Instruction::RLC(reg),
            1u8 => Instruction::RRC(reg),
            2u8 => Instruction::RL(reg),
            3u8 => Instruction::RR(reg),
            4u8 => Instruction::SLA(reg),
            5u8 => Instruction::SRA(reg),
            6u8 => Instruction::SWAP(reg),
            _ => Instruction::SRL(reg),
        }
    } else if op < 16 {
        Instruction::BIT(op - 8, reg)
    } else if op < 24 {
        Instruction::RES(op - 16, reg)
    } else {
        Instruction::SET(op - 24, reg)
    }
}

}

/// The extended (0xCB-prefixed) opcode table as a specification: shift,
/// rotate and nibble-swap operations in the first quarter, then BIT, RES
/// and SET parameterized by the bit index in bits 3-5 and the register
/// selector in bits 0-2. Total over all 256 second bytes.
pub open spec fn spec_decode_extended(byte: u8) -> Instruction {
    let reg = spec_reg_sel(byte % 8);
    let op = byte / 8;
    if op < 8 {
        match op {
            0u8 => Instruction::RLC(reg),
            1u8 => Instruction::RRC(reg),
            2u8 => Instruction::RL(reg),
            3u8 => Instruction::RR(reg),
            4u8 => Instruction::SLA(reg),
            5u8 => Instruction::SRA(reg),
            6u8 => Instruction::SWAP(reg),
            _ => Instruction::SRL(reg),
        }
    } else if op < 16 {
        Instruction::BIT((op - 8) as u8, reg)
    } else if op < 24 {
        Instruction::RES((op - 16) as u8, reg)
    } else {
        Instruction::SET((op - 24) as u8, reg)
    }
}

} // verus!
