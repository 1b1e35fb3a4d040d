//! Laws of the instruction set and the address routing, stated over the
//! same specifications the executable contracts use.

use vstd::prelude::*;

use crate::cpu::spec_alu_add;
use crate::cpu::spec_alu_xor;
use crate::cpu::spec_decode;
use crate::cpu::spec_pop;
use crate::cpu::spec_push;
use crate::cpu::CpuView;
use crate::mmu::MmuView;
use crate::Instruction;
use crate::Register;
use crate::RgbError;

verus! {

/// Flag law: XOR of the accumulator with itself zeroes it and leaves
/// exactly the zero flag set — subtract, half-carry and carry clear —
/// whatever value the accumulator held before.
pub proof fn lemma_xor_a_self(c: CpuView)
    ensures
        spec_alu_xor(c, c.a).a == 0,
        spec_alu_xor(c, c.a).zero,
        !spec_alu_xor(c, c.a).sub,
        !spec_alu_xor(c, c.a).half,
        !spec_alu_xor(c, c.a).carry,
{
    assert(c.a ^ c.a == 0) by (bit_vector);
}

/// Flag law: adding 0x01 to an accumulator holding 0xFF wraps to 0x00
/// and sets zero, carry and half-carry, with subtract clear.
pub proof fn lemma_add_overflow(c: CpuView)
    requires
        c.a == 0xFF,
    ensures
        spec_alu_add(c, 0x01, 0).a == 0,
        spec_alu_add(c, 0x01, 0).zero,
        spec_alu_add(c, 0x01, 0).carry,
        spec_alu_add(c, 0x01, 0).half,
        !spec_alu_add(c, 0x01, 0).sub,
{
}

/// The extended-set marker: opcode 0xCB always decodes to it.
pub proof fn lemma_ext_marker()
    ensures
        spec_decode(0xCB) == Instruction::ExtInstr,
{
}

/// Boot-overlay law: while the overlay is active and the program
/// counter has not reached 0x0100, a read below 0x0100 returns the boot
/// ROM byte, whatever cartridge bytes are loaded; a read made with the
/// program counter at 0x0100 switches the overlay off, after which
/// reads below 0x0100 return cartridge ROM bytes.
pub proof fn lemma_boot_overlay(m: MmuView, pc: u16, addr: u16)
    requires
        m.wf(),
        m.in_bios,
        addr < 0x0100,
    ensures
        pc != 0x0100 ==> m.bios_checked(pc).read(addr) == Ok::<u8, RgbError>(m.bios[addr as int]),
        pc == 0x0100 ==> !m.bios_checked(pc).in_bios,
        pc == 0x0100 && addr < m.rom.len() ==> m.bios_checked(pc).read(addr) == Ok::<u8, RgbError>(
            m.rom[addr as int],
        ),
{
}

/// Boot-overlay law, the one-way half: once the overlay is off, no
/// overlay check and no write ever turns it back on.
pub proof fn lemma_overlay_one_way(m: MmuView, pc: u16, addr: u16, v: u8)
    requires
        !m.in_bios,
    ensures
        !m.bios_checked(pc).in_bios,
        m.write(addr, v) matches Ok(m2) ==> !m2.in_bios,
{
}

/// The executed-instruction half of the one-way law, class by class.
#[verifier::rlimit(100)]
#[verifier::spinoff_prover]
proof fn lemma_exec_misc_overlay(c: CpuView, m: MmuView, inst: Instruction, data: u16)
    requires
        !m.in_bios,
    ensures
        !crate::cpu::spec_exec_misc(c, m, inst, data).1.in_bios,
{
}

#[verifier::rlimit(100)]
#[verifier::spinoff_prover]
proof fn lemma_exec_ld_overlay(c: CpuView, m: MmuView, dst: Register, src: Register, data: u16)
    requires
        !m.in_bios,
    ensures
        !crate::cpu::spec_exec_ld(c, m, dst, src, data).1.in_bios,
{
}

#[verifier::rlimit(100)]
#[verifier::spinoff_prover]
proof fn lemma_exec_mem_ld_overlay(c: CpuView, m: MmuView, inst: Instruction, data: u16)
    requires
        !m.in_bios,
    ensures
        !crate::cpu::spec_exec_mem_ld(c, m, inst, data).1.in_bios,
{
}

#[verifier::rlimit(100)]
#[verifier::spinoff_prover]
proof fn lemma_exec_stack_overlay(c: CpuView, m: MmuView, inst: Instruction, data: u16)
    requires
        !m.in_bios,
    ensures
        !crate::cpu::spec_exec_stack(c, m, inst, data).1.in_bios,
{
}

#[verifier::rlimit(100)]
#[verifier::spinoff_prover]
proof fn lemma_exec_alu_overlay(c: CpuView, m: MmuView, inst: Instruction, data: u16)
    requires
        !m.in_bios,
    ensures
        !crate::cpu::spec_exec_alu(c, m, inst, data).1.in_bios,
{
}

#[verifier::rlimit(100)]
#[verifier::spinoff_prover]
proof fn lemma_exec_jump_overlay(c: CpuView, m: MmuView, inst: Instruction, data: u16)
    requires
        !m.in_bios,
    ensures
        !crate::cpu::spec_exec_jump(c, m, inst, data).1.in_bios,
{
}

#[verifier::rlimit(100)]
#[verifier::spinoff_prover]
proof fn lemma_exec_cb_overlay(c: CpuView, m: MmuView, inst: Instruction, data: u16)
    requires
        !m.in_bios,
    ensures
        !crate::cpu::spec_exec_cb(c, m, inst, data).1.in_bios,
{
}

/// No executed instruction turns the overlay back on.
proof fn lemma_exec_overlay(c: CpuView, m: MmuView, inst: Instruction, data: u16)
    requires
        !m.in_bios,
    ensures
        !crate::cpu::spec_exec(c, m, inst, data).1.in_bios,
{
    lemma_exec_misc_overlay(c, m, inst, data);
    lemma_exec_mem_ld_overlay(c, m, inst, data);
    lemma_exec_stack_overlay(c, m, inst, data);
    lemma_exec_alu_overlay(c, m, inst, data);
    lemma_exec_jump_overlay(c, m, inst, data);
    lemma_exec_cb_overlay(c, m, inst, data);
    match inst {
        Instruction::LD(dst, src) => lemma_exec_ld_overlay(c, m, dst, src, data),
        _ => (),
    }
}

/// Boot-overlay law at the machine level: a full instruction step —
/// fetch, decode, operand fetch, execute — never turns the overlay
/// back on once it is off. Boot is one-way for the life of the
/// session.
#[verifier::rlimit(100)]
#[verifier::spinoff_prover]
pub proof fn lemma_overlay_one_way_step(v: crate::MachineView)
    requires
        !v.mmu.in_bios,
    ensures
        !crate::spec_step(v).0.mmu.in_bios,
{
    let f = crate::spec_fetch(v.cpu, v.mmu);
    assert(!f.1.in_bios);
    match f.2 {
        Ok(id) => lemma_exec_overlay(f.0, f.1, id.0, id.1),
        Err(_) => (),
    }
}

/// Timing law: one machine cycle is four clock cycles, so the clock
/// cost of every instruction the engine executes is a multiple of
/// four.
#[verifier::rlimit(100)]
#[verifier::spinoff_prover]
pub proof fn lemma_clock_is_four_machine_cycles(
    c: CpuView,
    m: MmuView,
    inst: Instruction,
    data: u16,
)
    ensures
        crate::cpu::spec_exec(c, m, inst, data).2 matches Ok(cy) ==> cy % 4 == 0,
{
}

/// Address-routing law: the working RAM is mirrored across the echo
/// range. A value written at one address of 0xC000..0xFDFF is read back
/// at every address of that range with the same offset into the 8 KiB
/// region — 0xC010 and 0xE010 in particular.
pub proof fn lemma_echo_ram(m: MmuView, a1: u16, a2: u16, v: u8)
    requires
        m.wf(),
        0xC000 <= a1 < 0xFE00,
        0xC000 <= a2 < 0xFE00,
        a1 % 0x2000 == a2 % 0x2000,
    ensures
        m.write(a1, v) is Ok,
        m.write(a1, v) matches Ok(m2) ==> m2.read(a2) == Ok::<u8, RgbError>(v),
{
}

/// Round-trip law: pushing the register pair AF and popping it back
/// restores the accumulator, all four flags and the stack pointer
/// exactly, and the packed flag byte — whose low nibble is always zero
/// — byte for byte. The stack pointer must point into working RAM so
/// that the two writes land.
pub proof fn lemma_push_pop_af(c: CpuView, m: MmuView)
    requires
        m.wf(),
        0xC000 <= c.sp.wrapping_sub(1) < 0xFE00,
        0xC000 <= c.sp.wrapping_sub(2) < 0xFE00,
    ensures
        c.flags_byte() % 16 == 0,
        spec_push(c, m, c.r16(Register::AF)).2 is Ok,
        ({
            let p = spec_push(c, m, c.r16(Register::AF));
            let q = spec_pop(p.0, p.1);
            &&& q.2 is Ok
            &&& q.2 matches Ok(w) ==> {
                let restored = q.0.with_r16(Register::AF, w);
                &&& restored.a == c.a
                &&& restored.zero == c.zero
                &&& restored.sub == c.sub
                &&& restored.half == c.half
                &&& restored.carry == c.carry
                &&& restored.sp == c.sp
                &&& restored.flags_byte() == c.flags_byte()
            }
        }),
{
}

} // verus!
