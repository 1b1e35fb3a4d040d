//! Memory-management unit: owns the backing byte arrays (boot ROM,
//! cartridge ROM, external/working/zero-page RAM) and routes every 16-bit
//! address to the correct one, applying the boot-ROM overlay and the
//! bank-offset rules.

use vstd::prelude::*;

use crate::RgbError;

verus! {

/// The memory image as mathematical sequences, for contracts.
pub ghost struct MmuView {
    pub bios: Seq<u8>,
    pub rom: Seq<u8>,
    pub cartridge_type: Option<u8>,
    pub rom_offset: u16,
    pub ram_offset: u16,
    pub eram: Seq<u8>,
    pub wram: Seq<u8>,
    pub zram: Seq<u8>,
    pub in_bios: bool,
    pub in_e: bool,
    pub int_flag: bool,
}

impl MmuView {
    /// The sizes every MMU holds for the life of the session: a 256-byte
    /// boot ROM, 8 KiB of external and working RAM, 128 bytes of
    /// zero-page RAM.
    pub open spec fn wf(self) -> bool {
        &&& self.bios.len() == 256
        &&& self.eram.len() == 0x2000
        &&& self.wram.len() == 0x2000
        &&& self.zram.len() == 0x80
    }

    /// The boot-overlay check made on every read: the overlay is
    /// permanently disabled the first time the program counter reaches
    /// 0x0100.
    pub open spec fn bios_checked(self, pc: u16) -> MmuView {
        if self.in_bios && pc == 0x0100 {
            MmuView { in_bios: false, ..self }
        } else {
            self
        }
    }

    /// Address routing for reads. Total over the 16-bit address space:
    /// every address yields either the byte of its backing store or an
    /// explicit error for the regions this core does not implement
    /// (video RAM, sprite attribute table, most I/O registers) and for
    /// cartridge accesses past the end of the loaded image.
    pub open spec fn read(self, addr: u16) -> Result<u8, RgbError> {
        if addr < 0x0100 {
            if self.in_bios {
                Ok(self.bios[addr as int])
            } else if addr < self.rom.len() {
                Ok(self.rom[addr as int])
            } else {
                Err(RgbError::RomBounds(addr))
            }
        } else if addr < 0x4000 {
            if addr < self.rom.len() {
                Ok(self.rom[addr as int])
            } else {
                Err(RgbError::RomBounds(addr))
            }
        } else if addr < 0x8000 {
            if self.rom_offset + (addr % 0x4000) < self.rom.len() {
                Ok(self.rom[self.rom_offset + (addr % 0x4000) as int])
            } else {
                Err(RgbError::RomBounds(addr))
            }
        } else if addr < 0xA000 {
            Err(RgbError::UnmappedRegion(addr))
        } else if addr < 0xC000 {
            if self.ram_offset + (addr % 0x2000) < self.eram.len() {
                Ok(self.eram[self.ram_offset + (addr % 0x2000) as int])
            } else {
                Err(RgbError::RamBounds(addr))
            }
        } else if addr < 0xFE00 {
            Ok(self.wram[(addr % 0x2000) as int])
        } else if addr < 0xFF00 {
            Err(RgbError::UnmappedRegion(addr))
        } else if addr == 0xFFFF {
            Ok(if self.in_e { 1 } else { 0 })
        } else if addr >= 0xFF80 {
            Ok(self.zram[(addr % 0x80) as int])
        } else if addr == 0xFF0F {
            Ok(if self.int_flag { 1 } else { 0 })
        } else if addr == 0xFF00 || (0xFF04 <= addr && addr <= 0xFF07) {
            Err(RgbError::UnmappedRegion(addr))
        } else if addr < 0xFF20 {
            Ok(0)
        } else {
            Err(RgbError::UnmappedRegion(addr))
        }
    }

    /// Address routing for writes, over the same ranges as `read`.
    /// Cartridge-ROM ranges fault: bank-switch control writes are not
    /// modeled by this core. I/O registers that read as constant zero
    /// accept and discard writes; the interrupt-flag and
    /// interrupt-enable registers are wired.
    pub open spec fn write(self, addr: u16, val: u8) -> Result<MmuView, RgbError> {
        if addr < 0x8000 {
            Err(RgbError::UnmappedRegion(addr))
        } else if addr < 0xA000 {
            Err(RgbError::UnmappedRegion(addr))
        } else if addr < 0xC000 {
            if self.ram_offset + (addr % 0x2000) < self.eram.len() {
                Ok(MmuView { eram: self.eram.update(self.ram_offset + (addr % 0x2000) as int, val), ..self })
            } else {
                Err(RgbError::RamBounds(addr))
            }
        } else if addr < 0xFE00 {
            Ok(MmuView { wram: self.wram.update((addr % 0x2000) as int, val), ..self })
        } else if addr < 0xFF00 {
            Err(RgbError::UnmappedRegion(addr))
        } else if addr == 0xFFFF {
            Ok(MmuView { in_e: val != 0, ..self })
        } else if addr >= 0xFF80 {
            Ok(MmuView { zram: self.zram.update((addr % 0x80) as int, val), ..self })
        } else if addr == 0xFF0F {
            Ok(MmuView { int_flag: val != 0, ..self })
        } else if addr == 0xFF00 || (0xFF04 <= addr && addr <= 0xFF07) {
            Err(RgbError::UnmappedRegion(addr))
        } else if addr < 0xFF20 {
            Ok(self)
        } else {
            Err(RgbError::UnmappedRegion(addr))
        }
    }

    /// A little-endian 16-bit read: low byte at `addr`, high byte at the
    /// following address, wrapping at the top of the address space.
    pub open spec fn read_word(self, addr: u16) -> Result<u16, RgbError> {
        match self.read(addr) {
            Ok(l) => match self.read(addr.wrapping_add(1)) {
                Ok(h) => Ok((h * 256 + l) as u16),
                Err(e) => Err(e),
            },
            Err(e) => Err(e),
        }
    }
}

/// The fixed 256-byte boot ROM as a specification constant,
/// reproduced bit-exactly for boot-sequence compatibility.
pub open spec fn spec_boot_rom() -> Seq<u8> {
    seq![
        0x31u8, 0xFEu8, 0xFFu8, 0xAFu8, 0x21u8, 0xFFu8, 0x9Fu8, 0x32u8,
        0xCBu8, 0x7Cu8, 0x20u8, 0xFBu8, 0x21u8, 0x26u8, 0xFFu8, 0x0Eu8,
        0x11u8, 0x3Eu8, 0x80u8, 0x32u8, 0xE2u8, 0x0Cu8, 0x3Eu8, 0xF3u8,
        0xE2u8, 0x32u8, 0x3Eu8, 0x77u8, 0x77u8, 0x3Eu8, 0xFCu8, 0xE0u8,
        0x47u8, 0x11u8, 0x04u8, 0x01u8, 0x21u8, 0x10u8, 0x80u8, 0x1Au8,
        0xCDu8, 0x95u8, 0x00u8, 0xCDu8, 0x96u8, 0x00u8, 0x13u8, 0x7Bu8,
        0xFEu8, 0x34u8, 0x20u8, 0xF3u8, 0x11u8, 0xD8u8, 0x00u8, 0x06u8,
        0x08u8, 0x1Au8, 0x13u8, 0x22u8, 0x23u8, 0x05u8, 0x20u8, 0xF9u8,
        0x3Eu8, 0x19u8, 0xEAu8, 0x10u8, 0x99u8, 0x21u8, 0x2Fu8, 0x99u8,
        0x0Eu8, 0x0Cu8, 0x3Du8, 0x28u8, 0x08u8, 0x32u8, 0x0Du8, 0x20u8,
        0xF9u8, 0x2Eu8, 0x0Fu8, 0x18u8, 0xF3u8, 0x67u8, 0x3Eu8, 0x64u8,
        0x57u8, 0xE0u8, 0x42u8, 0x3Eu8, 0x91u8, 0xE0u8, 0x40u8, 0x04u8,
        0x1Eu8, 0x02u8, 0x0Eu8, 0x0Cu8, 0xF0u8, 0x44u8, 0xFEu8, 0x90u8,
        0x20u8, 0xFAu8, 0x0Du8, 0x20u8, 0xF7u8, 0x1Du8, 0x20u8, 0xF2u8,
        0x0Eu8, 0x13u8, 0x24u8, 0x7Cu8, 0x1Eu8, 0x83u8, 0xFEu8, 0x62u8,
        0x28u8, 0x06u8, 0x1Eu8, 0xC1u8, 0xFEu8, 0x64u8, 0x20u8, 0x06u8,
        0x7Bu8, 0xE2u8, 0x0Cu8, 0x3Eu8, 0x87u8, 0xF2u8, 0xF0u8, 0x42u8,
        0x90u8, 0xE0u8, 0x42u8, 0x15u8, 0x20u8, 0xD2u8, 0x05u8, 0x20u8,
        0x4Fu8, 0x16u8, 0x20u8, 0x18u8, 0xCBu8, 0x4Fu8, 0x06u8, 0x04u8,
        0xC5u8, 0xCBu8, 0x11u8, 0x17u8, 0xC1u8, 0xCBu8, 0x11u8, 0x17u8,
        0x05u8, 0x20u8, 0xF5u8, 0x22u8, 0x23u8, 0x22u8, 0x23u8, 0xC9u8,
        0xCEu8, 0xEDu8, 0x66u8, 0x66u8, 0xCCu8, 0x0Du8, 0x00u8, 0x0Bu8,
        0x03u8, 0x73u8, 0x00u8, 0x83u8, 0x00u8, 0x0Cu8, 0x00u8, 0x0Du8,
        0x00u8, 0x08u8, 0x11u8, 0x1Fu8, 0x88u8, 0x89u8, 0x00u8, 0x0Eu8,
        0xDCu8, 0xCCu8, 0x6Eu8, 0xE6u8, 0xDDu8, 0xDDu8, 0xD9u8, 0x99u8,
        0xBBu8, 0xBBu8, 0x67u8, 0x63u8, 0x6Eu8, 0x0Eu8, 0xECu8, 0xCCu8,
        0xDDu8, 0xDCu8, 0x99u8, 0x9Fu8, 0xBBu8, 0xB9u8, 0x33u8, 0x3Eu8,
        0x3Cu8, 0x42u8, 0xB9u8, 0xA5u8, 0xB9u8, 0xA5u8, 0x42u8, 0x4Cu8,
        0x21u8, 0x04u8, 0x01u8, 0x11u8, 0xA8u8, 0x00u8, 0x1Au8, 0x13u8,
        0xBEu8, 0x20u8, 0xFEu8, 0x23u8, 0x7Du8, 0xFEu8, 0x34u8, 0x20u8,
        0xF5u8, 0x06u8, 0x19u8, 0x78u8, 0x86u8, 0x23u8, 0x05u8, 0x20u8,
        0xFBu8, 0x86u8, 0x20u8, 0xFEu8, 0x3Eu8, 0x01u8, 0xE0u8, 0x50u8,
    ]
}

/// Is `t` one of the documented cartridge-type header bytes?
pub open spec fn spec_known_cartridge_type(t: u8) -> bool {
    ||| t <= 0x03
    ||| t == 0x05
    ||| t == 0x06
    ||| t == 0x08
    ||| t == 0x09
    ||| (0x0B <= t && t <= 0x0D)
    ||| (0x0F <= t && t <= 0x13)
    ||| (0x19 <= t && t <= 0x1F)
    ||| t >= 0xFD
}

/// The cartridge-header fields this core reads, as plain values.
#[derive(Debug)]
pub struct CartridgeHeader {
    pub title: Vec<u8>,
    pub cartridge_type: u8,
    pub rom_size: u8,
    pub ram_size: u8,
}

pub struct MMU {
    bios: Vec<u8>,
    rom: Vec<u8>,
    cartridge_type: Option<u8>,
    rom_offset: u16,
    ram_offset: u16,
    eram: Vec<u8>,
    wram: Vec<u8>,
    zram: Vec<u8>,
    in_bios: bool,
    in_e: bool,
    int_flag: bool,
}

impl View for MMU {
    type V = MmuView;

    closed spec fn view(&self) -> MmuView {
        MmuView {
            bios: self.bios@,
            rom: self.rom@,
            cartridge_type: self.cartridge_type,
            rom_offset: self.rom_offset,
            ram_offset: self.ram_offset,
            eram: self.eram@,
            wram: self.wram@,
            zram: self.zram@,
            in_bios: self.in_bios,
            in_e: self.in_e,
            int_flag: self.int_flag,
        }
    }
}

/// A vector holding a copy of the given bytes.
fn copied_bytes(s: &[u8]) -> (v: Vec<u8>)
    ensures
        v@ == s@,
{
    let mut v: Vec<u8> = Vec::new();
    let mut k: usize = 0;
    while k < s.len()
        invariant
            k <= s@.len(),
            v@ == s@.subrange(0, k as int),
        decreases s@.len() - k,
    {
        v.push(s[k]);
        k += 1;
        proof {
            assert(v@ =~= s@.subrange(0, k as int));
        }
    }
    proof {
        assert(v@ =~= s@);
    }
    v
}

/// A zero-filled byte vector of the given length.
fn zeroed_bytes(n: usize) -> (v: Vec<u8>)
    ensures
        v@ == Seq::new(n as nat, |i: int| 0u8),
{
    let mut v: Vec<u8> = Vec::new();
    let mut k: usize = 0;
    while k < n
        invariant
            k <= n,
            v@ == Seq::new(k as nat, |i: int| 0u8),
        decreases n - k,
    {
        v.push(0);
        k += 1;
        proof {
            assert(v@ =~= Seq::new(k as nat, |i: int| 0u8));
        }
    }
    v
}

impl MMU {
    /// A fresh memory image: the fixed boot ROM, no cartridge, zeroed
    /// RAM regions, the boot overlay active.
    pub fn new() -> (mmu: MMU)
        ensures
            mmu@ == (MmuView {
                bios: spec_boot_rom(),
                rom: Seq::<u8>::empty(),
                cartridge_type: None,
                rom_offset: 0,
                ram_offset: 0,
                eram: Seq::new(0x2000, |i: int| 0u8),
                wram: Seq::new(0x2000, |i: int| 0u8),
                zram: Seq::new(0x80, |i: int| 0u8),
                in_bios: true,
                in_e: false,
                int_flag: false,
            }),
            mmu@.wf(),
    {
        let bios: Vec<u8> = boot_rom_bytes();
        let mmu = MMU {
            bios,
            rom: Vec::new(),
            cartridge_type: None,
            rom_offset: 0x0,
            ram_offset: 0x0,
            eram: zeroed_bytes(0x2000),
            wram: zeroed_bytes(0x2000),
            zram: zeroed_bytes(0x80),
            in_bios: true,
            in_e: false,
            int_flag: false,
        };
        mmu
    }

    /// Replaces the cartridge ROM wholesale and records the
    /// cartridge-type byte from header offset 0x0147. A malformed
    /// cartridge is rejected at load time: one too short to hold the
    /// header, or one whose type byte is not a documented value.
    pub fn load_bytes(&mut self, rom: &[u8]) -> (r: Result<(), RgbError>)
        ensures
            rom@.len() < 0x148 ==> r == Err::<(), RgbError>(RgbError::CartridgeMissing) && final(self)@ == old(self)@,
            rom@.len() >= 0x148 && !spec_known_cartridge_type(rom@[0x147]) ==> r
                == Err::<(), RgbError>(RgbError::CartridgeUnknownType(rom@[0x147])) && final(self)@ == old(self)@,
            rom@.len() >= 0x148 && spec_known_cartridge_type(rom@[0x147]) ==> r == Ok::<(), RgbError>(())
                && final(self)@ == (MmuView { rom: rom@, cartridge_type: Some(rom@[0x147]), ..old(self)@ }),
    {
        if rom.len() < 0x148 {
            return Err(RgbError::CartridgeMissing);
        }
        let t = rom[0x147];
        if !known_cartridge_type(t) {
            return Err(RgbError::CartridgeUnknownType(t));
        }
        self.rom = copied_bytes(rom);
        self.cartridge_type = Some(t);
        Ok(())
    }

    /// Is the boot-ROM overlay still active?
    pub fn get_in_bios(&self) -> (b: bool)
        ensures
            b == self@.in_bios,
    {
        self.in_bios
    }

    /// The cartridge-type byte recorded at load time, if a cartridge
    /// has been loaded.
    pub fn get_cartridge_type(&self) -> (t: Option<u8>)
        ensures
            t == self@.cartridge_type,
    {
        self.cartridge_type
    }

    /// The fixed cartridge-header fields, parsed read-only from the
    /// loaded image: the title at 0x0134-0x0143 (zero-padded), the
    /// cartridge type at 0x0147, and the ROM and RAM size codes at
    /// 0x0148 and 0x0149. `None` when the image is too short to hold
    /// them.
    pub fn header(&self) -> (h: Option<CartridgeHeader>)
        ensures
            self@.rom.len() < 0x14A ==> h is None,
            self@.rom.len() >= 0x14A ==> (h matches Some(hd) && hd.title@ == self@.rom.subrange(
                0x134,
                0x144,
            ) && hd.cartridge_type == self@.rom[0x147] && hd.rom_size == self@.rom[0x148]
                && hd.ram_size == self@.rom[0x149]),
    {
        if self.rom.len() < 0x14A {
            return None;
        }
        let mut title: Vec<u8> = Vec::new();
        let mut k: usize = 0x134;
        while k < 0x144
            invariant
                0x134 <= k <= 0x144,
                self@.rom.len() >= 0x14A,
                title@ == self@.rom.subrange(0x134, k as int),
            decreases 0x144 - k,
        {
            title.push(self.rom[k]);
            k += 1;
            proof {
                assert(title@ =~= self@.rom.subrange(0x134, k as int));
            }
        }
        Some(
            CartridgeHeader {
                title,
                cartridge_type: self.rom[0x147],
                rom_size: self.rom[0x148],
                ram_size: self.rom[0x149],
            },
        )
    }

    /// The cartridge byte at the current bank offset.
    pub fn get_byte_at_offset(&self) -> (b: u8)
        requires
            self@.rom_offset < self@.rom.len(),
        ensures
            b == self@.rom[self@.rom_offset as int],
    {
        self.rom[self.rom_offset as usize]
    }

    /// Advances the bank offset by one byte.
    pub fn incr_rom(&mut self)
        requires
            old(self)@.rom_offset < 0xFFFF,
        ensures
            final(self)@ == (MmuView { rom_offset: (old(self)@.rom_offset + 1) as u16, ..old(self)@ }),
    {
        self.rom_offset = self.rom_offset + 1;
    }

    /// Reads the byte at `addr`. `pc` is the current program counter,
    /// against which the boot-overlay check is evaluated on every read.
    pub fn rb(&mut self, pc: u16, addr: u16) -> (r: Result<u8, RgbError>)
        requires
            old(self)@.wf(),
        ensures
            final(self)@ == old(self)@.bios_checked(pc),
            r == old(self)@.bios_checked(pc).read(addr),
    {
        if self.in_bios && pc == 0x0100 {
            self.in_bios = false;
        }
        if addr < 0x0100 {
            if self.in_bios {
                Ok(self.bios[addr as usize])
            } else if (addr as usize) < self.rom.len() {
                Ok(self.rom[addr as usize])
            } else {
                Err(RgbError::RomBounds(addr))
            }
        } else if addr < 0x4000 {
            if (addr as usize) < self.rom.len() {
                Ok(self.rom[addr as usize])
            } else {
                Err(RgbError::RomBounds(addr))
            }
        } else if addr < 0x8000 {
            let off: usize = self.rom_offset as usize + (addr % 0x4000) as usize;
            if off < self.rom.len() {
                Ok(self.rom[off])
            } else {
                Err(RgbError::RomBounds(addr))
            }
        } else if addr < 0xA000 {
            Err(RgbError::UnmappedRegion(addr))
        } else if addr < 0xC000 {
            let off: usize = self.ram_offset as usize + (addr % 0x2000) as usize;
            if off < self.eram.len() {
                Ok(self.eram[off])
            } else {
                Err(RgbError::RamBounds(addr))
            }
        } else if addr < 0xFE00 {
            Ok(self.wram[(addr % 0x2000) as usize])
        } else if addr < 0xFF00 {
            Err(RgbError::UnmappedRegion(addr))
        } else if addr == 0xFFFF {
            Ok(if self.in_e { 1 } else { 0 })
        } else if addr >= 0xFF80 {
            Ok(self.zram[(addr % 0x80) as usize])
        } else if addr == 0xFF0F {
            Ok(if self.int_flag { 1 } else { 0 })
        } else if addr == 0xFF00 || (0xFF04 <= addr && addr <= 0xFF07) {
            Err(RgbError::UnmappedRegion(addr))
        } else if addr < 0xFF20 {
            Ok(0)
        } else {
            Err(RgbError::UnmappedRegion(addr))
        }
    }

    /// Reads a little-endian word (2 bytes) starting at `addr`.
    pub fn rw(&mut self, pc: u16, addr: u16) -> (r: Result<u16, RgbError>)
        requires
            old(self)@.wf(),
        ensures
            final(self)@ == old(self)@.bios_checked(pc),
            r == old(self)@.bios_checked(pc).read_word(addr),
    {
        let l = self.rb(pc, addr)?;
        let h = self.rb(pc, addr.wrapping_add(1))?;
        Ok((h as u16) * 256 + (l as u16))
    }

    /// Writes a byte to the given address.
    pub fn wb(&mut self, addr: u16, val: u8) -> (r: Result<(), RgbError>)
        requires
            old(self)@.wf(),
        ensures
            old(self)@.write(addr, val) matches Ok(m) ==> r == Ok::<(), RgbError>(()) && final(self)@ == m,
            old(self)@.write(addr, val) matches Err(e) ==> r == Err::<(), RgbError>(e) && final(self)@ == old(self)@,
    {
        if addr < 0xA000 {
            Err(RgbError::UnmappedRegion(addr))
        } else if addr < 0xC000 {
            let off: usize = self.ram_offset as usize + (addr % 0x2000) as usize;
            if off < self.eram.len() {
                self.eram[off] = val;
                Ok(())
            } else {
                Err(RgbError::RamBounds(addr))
            }
        } else if addr < 0xFE00 {
            self.wram[(addr % 0x2000) as usize] = val;
            Ok(())
        } else if addr < 0xFF00 {
            Err(RgbError::UnmappedRegion(addr))
        } else if addr == 0xFFFF {
            self.in_e = val != 0;
            Ok(())
        } else if addr >= 0xFF80 {
            self.zram[(addr % 0x80) as usize] = val;
            Ok(())
        } else if addr == 0xFF0F {
            self.int_flag = val != 0;
            Ok(())
        } else if addr == 0xFF00 || (0xFF04 <= addr && addr <= 0xFF07) {
            Err(RgbError::UnmappedRegion(addr))
        } else if addr < 0xFF20 {
            Ok(())
        } else {
            Err(RgbError::UnmappedRegion(addr))
        }
    }

    /// Writes a little-endian word (2 bytes) starting at `addr`. A fault
    /// on the second byte leaves the first byte written.
    pub fn ww(&mut self, addr: u16, val: u16) -> (r: Result<(), RgbError>)
        requires
            old(self)@.wf(),
        ensures
            ({
                match old(self)@.write(addr, (val % 256) as u8) {
                    Err(e) => r == Err::<(), RgbError>(e) && final(self)@ == old(self)@,
                    Ok(m1) => match m1.write(addr.wrapping_add(1), (val / 256) as u8) {
                        Err(e) => r == Err::<(), RgbError>(e) && final(self)@ == m1,
                        Ok(m2) => r == Ok::<(), RgbError>(()) && final(self)@ == m2,
                    },
                }
            }),
    {
        self.wb(addr, (val % 256) as u8)?;
        self.wb(addr.wrapping_add(1), (val / 256) as u8)?;
        Ok(())
    }
}

/// Is `t` one of the documented cartridge-type header bytes?
fn known_cartridge_type(t: u8) -> (r: bool)
    ensures
        r == spec_known_cartridge_type(t),
{
    t <= 0x03 || t == 0x05 || t == 0x06 || t == 0x08 || t == 0x09 || (0x0B <= t && t <= 0x0D) || (
    0x0F <= t && t <= 0x13) || (0x19 <= t && t <= 0x1F) || t >= 0xFD
}

/// The fixed 256-byte boot ROM, reproduced bit-exactly.
fn boot_rom_bytes() -> (v: Vec<u8>)
    ensures
        v@ == spec_boot_rom(),
{
    let v: Vec<u8> = vec![
        0x31, 0xFE, 0xFF, 0xAF, 0x21, 0xFF, 0x9F, 0x32,
        0xCB, 0x7C, 0x20, 0xFB, 0x21, 0x26, 0xFF, 0x0E,
        0x11, 0x3E, 0x80, 0x32, 0xE2, 0x0C, 0x3E, 0xF3,
        0xE2, 0x32, 0x3E, 0x77, 0x77, 0x3E, 0xFC, 0xE0,
        0x47, 0x11, 0x04, 0x01, 0x21, 0x10, 0x80, 0x1A,
        0xCD, 0x95, 0x00, 0xCD, 0x96, 0x00, 0x13, 0x7B,
        0xFE, 0x34, 0x20, 0xF3, 0x11, 0xD8, 0x00, 0x06,
        0x08, 0x1A, 0x13, 0x22, 0x23, 0x05, 0x20, 0xF9,
        0x3E, 0x19, 0xEA, 0x10, 0x99, 0x21, 0x2F, 0x99,
        0x0E, 0x0C, 0x3D, 0x28, 0x08, 0x32, 0x0D, 0x20,
        0xF9, 0x2E, 0x0F, 0x18, 0xF3, 0x67, 0x3E, 0x64,
        0x57, 0xE0, 0x42, 0x3E, 0x91, 0xE0, 0x40, 0x04,
        0x1E, 0x02, 0x0E, 0x0C, 0xF0, 0x44, 0xFE, 0x90,
        0x20, 0xFA, 0x0D, 0x20, 0xF7, 0x1D, 0x20, 0xF2,
        0x0E, 0x13, 0x24, 0x7C, 0x1E, 0x83, 0xFE, 0x62,
        0x28, 0x06, 0x1E, 0xC1, 0xFE, 0x64, 0x20, 0x06,
        0x7B, 0xE2, 0x0C, 0x3E, 0x87, 0xF2, 0xF0, 0x42,
        0x90, 0xE0, 0x42, 0x15, 0x20, 0xD2, 0x05, 0x20,
        0x4F, 0x16, 0x20, 0x18, 0xCB, 0x4F, 0x06, 0x04,
        0xC5, 0xCB, 0x11, 0x17, 0xC1, 0xCB, 0x11, 0x17,
        0x05, 0x20, 0xF5, 0x22, 0x23, 0x22, 0x23, 0xC9,
        0xCE, 0xED, 0x66, 0x66, 0xCC, 0x0D, 0x00, 0x0B,
        0x03, 0x73, 0x00, 0x83, 0x00, 0x0C, 0x00, 0x0D,
        0x00, 0x08, 0x11, 0x1F, 0x88, 0x89, 0x00, 0x0E,
        0xDC, 0xCC, 0x6E, 0xE6, 0xDD, 0xDD, 0xD9, 0x99,
        0xBB, 0xBB, 0x67, 0x63, 0x6E, 0x0E, 0xEC, 0xCC,
        0xDD, 0xDC, 0x99, 0x9F, 0xBB, 0xB9, 0x33, 0x3E,
        0x3C, 0x42, 0xB9, 0xA5, 0xB9, 0xA5, 0x42, 0x4C,
        0x21, 0x04, 0x01, 0x11, 0xA8, 0x00, 0x1A, 0x13,
        0xBE, 0x20, 0xFE, 0x23, 0x7D, 0xFE, 0x34, 0x20,
        0xF5, 0x06, 0x19, 0x78, 0x86, 0x23, 0x05, 0x20,
        0xFB, 0x86, 0x20, 0xFE, 0x3E, 0x01, 0xE0, 0x50,
    ];
    proof {
        assert(v@ =~= spec_boot_rom());
    }
    v
}

} // verus!
