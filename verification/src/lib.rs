//! Core of an 8-bit handheld game console emulator: a Z80-derived CPU,
//! an instruction decoder for the base and extended opcode spaces, and the
//! memory-management unit that routes the 16-bit address space across boot
//! ROM, cartridge ROM, RAM regions and memory-mapped I/O.

use vstd::prelude::*;

pub mod cpu;
pub mod laws;
pub mod mmu;

pub use cpu::Instruction;
pub use cpu::Register;
pub use cpu::CPU;
pub use mmu::MMU;

verus! {

/// Errors of the emulator core. Decoding never fails; these report
/// malformed cartridges at load time and, at execution time, the
/// fail-fast conditions: a dispatch into a part of the machine that
/// this core does not model.
#[derive(Clone, Copy, Debug, PartialEq, Eq, Structural)]
pub enum RgbError {
    /// The boot ROM image has the wrong length.
    BootRomLength,
    /// The boot ROM image holds a byte it must not.
    BootRomBad,
    /// A cartridge image too short to hold the header type byte.
    CartridgeMissing,
    /// The cartridge-type header byte is not a documented value.
    CartridgeUnknownType(u8),
    /// A cartridge ROM access past the end of the loaded image.
    RomBounds(u16),
    /// An external-RAM access past the end of the region at the current
    /// bank offset.
    RamBounds(u16),
    /// A read or write routed to a region this core does not implement
    /// (video RAM, sprite attribute table, most I/O registers).
    UnmappedRegion(u16),
    /// A decoded instruction whose handler is not implemented.
    Unimplemented(Instruction),
}

/// Returns the current version number as a `u32`.
pub fn version() -> (v: u32)
    ensures
        v == 42u32,
{
    42
}

/// What one step executed, for tracing and tests: the decoded
/// instruction, its immediate operand (zero if it has none), and its
/// clock-cycle cost.
#[derive(Clone, Copy, Debug, PartialEq, Eq, Structural)]
pub struct ExecutedInstruction {
    pub inst: Instruction,
    pub data: u16,
    pub cycles: u64,
}

/// The whole machine as plain values, for contracts.
pub ghost struct MachineView {
    pub cycles: u64,
    pub cpu: cpu::CpuView,
    pub mmu: mmu::MmuView,
}

/// The fetch phase of one instruction cycle: the opcode byte is read at
/// the program counter (advancing it), the extended-set marker pulls
/// one more byte for the extended table, and a BYTE or WORD placeholder
/// slot pulls one or two further operand bytes (a WORD little-endian,
/// low byte first). Every read is made under the boot-overlay check
/// against the program counter at the time of that read.
pub open spec fn spec_fetch(c: cpu::CpuView, m: mmu::MmuView) -> (
    cpu::CpuView,
    mmu::MmuView,
    Result<(Instruction, u16), RgbError>,
) {
    let m0 = m.bios_checked(c.pc);
    match m0.read(c.pc) {
        Err(e) => (c, m0, Err(e)),
        Ok(b) => {
            let c1 = cpu::CpuView { pc: c.pc.wrapping_add(1), ..c };
            let t = spec_fetch_ext(c1, m0, cpu::spec_decode(b));
            match t.2 {
                Err(e) => (t.0, t.1, Err(e)),
                Ok(inst) => {
                    let u = spec_fetch_operand(t.0, t.1, cpu::spec_operand_kind(inst));
                    match u.2 {
                        Err(e) => (u.0, u.1, Err(e)),
                        Ok(data) => (u.0, u.1, Ok((inst, data))),
                    }
                },
            }
        },
    }
}

/// The extended-set marker resolved: for ExtInstr one more byte is
/// fetched and decoded through the extended table; any other
/// instruction passes through.
pub open spec fn spec_fetch_ext(c: cpu::CpuView, m: mmu::MmuView, inst: Instruction) -> (
    cpu::CpuView,
    mmu::MmuView,
    Result<Instruction, RgbError>,
) {
    if inst == Instruction::ExtInstr {
        let m1 = m.bios_checked(c.pc);
        match m1.read(c.pc) {
            Ok(b2) => (
                cpu::CpuView { pc: c.pc.wrapping_add(1), ..c },
                m1,
                Ok(cpu::spec_decode_extended(b2)),
            ),
            Err(e) => (c, m1, Err(e)),
        }
    } else {
        (c, m, Ok(inst))
    }
}

/// The operand bytes an instruction's placeholder slots call for,
/// fetched at the program counter: none, one byte, or a little-endian
/// word.
pub open spec fn spec_fetch_operand(c: cpu::CpuView, m: mmu::MmuView, k: cpu::OperandKind) -> (
    cpu::CpuView,
    mmu::MmuView,
    Result<u16, RgbError>,
) {
    match k {
        cpu::OperandKind::Plain => (c, m, Ok(0)),
        cpu::OperandKind::Imm8 => {
            let m1 = m.bios_checked(c.pc);
            match m1.read(c.pc) {
                Ok(v) => (cpu::CpuView { pc: c.pc.wrapping_add(1), ..c }, m1, Ok(v as u16)),
                Err(e) => (c, m1, Err(e)),
            }
        },
        cpu::OperandKind::Imm16 => {
            let m1 = m.bios_checked(c.pc);
            match m1.read(c.pc) {
                Ok(l) => {
                    let c1 = cpu::CpuView { pc: c.pc.wrapping_add(1), ..c };
                    let m2 = m1.bios_checked(c1.pc);
                    match m2.read(c1.pc) {
                        Ok(h) => (
                            cpu::CpuView { pc: c1.pc.wrapping_add(1), ..c1 },
                            m2,
                            Ok(cpu::spec_word(h, l)),
                        ),
                        Err(e) => (c1, m2, Err(e)),
                    }
                },
                Err(e) => (c, m1, Err(e)),
            }
        },
    }
}

/// One full instruction cycle against the whole machine: fetch, decode,
/// operand fetch, execute, and the cycle bookkeeping. On success the
/// cumulative clock-cycle count grows by the instruction's cost; a
/// fault leaves the machine exactly as far as it got.
pub open spec fn spec_step(v: MachineView) -> (MachineView, Result<
    ExecutedInstruction,
    RgbError,
>) {
    let f = spec_fetch(v.cpu, v.mmu);
    match f.2 {
        Err(e) => (MachineView { cpu: f.0, mmu: f.1, ..v }, Err(e)),
        Ok(id) => {
            let x = cpu::spec_exec(f.0, f.1, id.0, id.1);
            match x.2 {
                Err(e) => (MachineView { cpu: x.0, mmu: x.1, ..v }, Err(e)),
                Ok(cy) => (
                    MachineView { cycles: v.cycles.wrapping_add(cy), cpu: x.0, mmu: x.1 },
                    Ok(ExecutedInstruction { inst: id.0, data: id.1, cycles: cy }),
                ),
            }
        },
    }
}

/// The emulator session: exactly one CPU register file, one MMU, and
/// the cumulative clock-cycle count. The MMU is exclusively owned here
/// and handed to the CPU as a short-lived borrow per call.
pub struct EmulatorContext {
    cycles: u64,
    cpu: CPU,
    mmu: MMU,
}

impl View for EmulatorContext {
    type V = MachineView;

    closed spec fn view(&self) -> MachineView {
        MachineView { cycles: self.cycles, cpu: self.cpu@, mmu: self.mmu@ }
    }
}

/// A fresh emulator session: zeroed registers with the stack pointer at
/// 0xFFFE, the fixed boot ROM with the overlay active, no cartridge,
/// zeroed RAM, and a zero cycle count.
pub fn new() -> (ctx: EmulatorContext)
    ensures
        ctx@.cycles == 0,
        ctx@.cpu == cpu::spec_initial_cpu(),
        ctx@.mmu == (mmu::MmuView {
            bios: mmu::spec_boot_rom(),
            rom: Seq::<u8>::empty(),
            cartridge_type: None,
            rom_offset: 0,
            ram_offset: 0,
            eram: Seq::new(0x2000, |i: int| 0u8),
            wram: Seq::new(0x2000, |i: int| 0u8),
            zram: Seq::new(0x80, |i: int| 0u8),
            in_bios: true,
            in_e: false,
            int_flag: false,
        }),
        ctx@.mmu.wf(),
{
    EmulatorContext { cycles: 0, cpu: CPU::new(), mmu: MMU::new() }
}

impl EmulatorContext {
    /// Loads a cartridge image into the MMU; a malformed one is
    /// rejected at load time and nothing changes.
    pub fn load_bytes(&mut self, bytes: &[u8]) -> (r: Result<(), RgbError>)
        ensures
            final(self)@.cpu == old(self)@.cpu,
            final(self)@.cycles == old(self)@.cycles,
            bytes@.len() < 0x148 ==> r == Err::<(), RgbError>(RgbError::CartridgeMissing)
                && final(self)@ == old(self)@,
            bytes@.len() >= 0x148 && !mmu::spec_known_cartridge_type(bytes@[0x147]) ==> r == Err::<
                (),
                RgbError,
            >(RgbError::CartridgeUnknownType(bytes@[0x147])) && final(self)@ == old(self)@,
            bytes@.len() >= 0x148 && mmu::spec_known_cartridge_type(bytes@[0x147]) ==> r == Ok::<
                (),
                RgbError,
            >(()) && final(self)@.mmu == (mmu::MmuView {
                rom: bytes@,
                cartridge_type: Some(bytes@[0x147]),
                ..old(self)@.mmu
            }),
    {
        self.mmu.load_bytes(bytes)
    }

    /// Advances the emulator by exactly one instruction: fetch at the
    /// program counter, decode (through the extended table after the
    /// 0xCB marker), fetch the operand bytes the instruction calls for,
    /// execute, and add the instruction's clock-cycle cost to the
    /// cumulative count. Observable effects are register and flag
    /// mutation and zero or more memory writes; a fault is returned as
    /// a fatal, diagnosable error.
    #[verifier::rlimit(100)]
    #[verifier::spinoff_prover]
    pub fn step(&mut self) -> (r: Result<ExecutedInstruction, RgbError>)
        requires
            old(self)@.mmu.wf(),
        ensures
            final(self)@ == spec_step(old(self)@).0,
            r == spec_step(old(self)@).1,
            final(self)@.mmu.wf(),
    {
        let byte = match self.cpu.p_fetch(&mut self.mmu) {
            Ok(b) => b,
            Err(e) => return Err(e),
        };
        let first = CPU::decode(byte);
        let inst = match first {
            Instruction::ExtInstr => {
                let b2 = match self.cpu.p_fetch(&mut self.mmu) {
                    Ok(b) => b,
                    Err(e) => return Err(e),
                };
                CPU::decode_extended(b2)
            },
            other => other,
        };
        let data: u16 = match CPU::operand_kind(inst) {
            cpu::OperandKind::Plain => 0,
            cpu::OperandKind::Imm8 => {
                let b = match self.cpu.p_fetch(&mut self.mmu) {
                    Ok(b) => b,
                    Err(e) => return Err(e),
                };
                b as u16
            },
            cpu::OperandKind::Imm16 => {
                let l = match self.cpu.p_fetch(&mut self.mmu) {
                    Ok(b) => b,
                    Err(e) => return Err(e),
                };
                let h = match self.cpu.p_fetch(&mut self.mmu) {
                    Ok(b) => b,
                    Err(e) => return Err(e),
                };
                (h as u16) * 256 + (l as u16)
            },
        };
        let cycles = match self.cpu.execute(&mut self.mmu, inst, data) {
            Ok(cy) => cy,
            Err(e) => return Err(e),
        };
        self.cycles = self.cycles.wrapping_add(cycles);
        Ok(ExecutedInstruction { inst, data, cycles })
    }

    /// The current program counter, for the boot-overlay check and for
    /// external tooling.
    pub fn program_counter(&self) -> (pc: u16)
        ensures
            pc == self@.cpu.pc,
    {
        self.cpu.get_pc()
    }

    /// Sets the program counter, for external tooling and test drivers.
    pub fn set_pc(&mut self, pc: u16)
        ensures
            final(self)@ == (MachineView {
                cpu: cpu::CpuView { pc, ..old(self)@.cpu },
                ..old(self)@
            }),
    {
        self.cpu.set_pc(pc);
    }

    /// The cumulative clock-cycle count.
    pub fn cycles(&self) -> (n: u64)
        ensures
            n == self@.cycles,
    {
        self.cycles
    }

    /// A read-only borrow of the register file, for tracing and tests.
    pub fn cpu(&self) -> (c: &CPU)
        ensures
            c@ == self@.cpu,
    {
        &self.cpu
    }

    /// A read-only borrow of the memory unit, for tracing and tests.
    pub fn mmu(&self) -> (m: &MMU)
        ensures
            m@ == self@.mmu,
    {
        &self.mmu
    }
}

} // verus!
