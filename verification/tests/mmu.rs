//! The memory-management unit: boot overlay, address routing, the echo
//! mirror, the header check, and the explicit faults.

use rgb_emu::RgbError;
use rgb_emu::MMU;

/// A cartridge image of `len` bytes: zeroed, with a valid ROM-ONLY type
/// byte in the header.
fn cart(len: usize) -> Vec<u8> {
    let mut v = vec![0u8; len];
    v[0x147] = 0x00;
    v
}

/// While the overlay is active and the program counter has not reached
/// 0x0100, reads below 0x0100 return boot ROM bytes even though
/// cartridge bytes are loaded; after one read made with the program
/// counter at 0x0100 the overlay is off for good and the same address
/// returns the cartridge byte.
#[test]
fn boot_overlay() {
    let mut mmu = MMU::new();
    let mut rom = cart(0x400);
    rom[0x50] = 0xAA;
    mmu.load_bytes(&rom).unwrap();

    // The boot ROM byte at offset 0x50, not the cartridge's 0xAA.
    assert_eq!(mmu.rb(0x0000, 0x0050), Ok(0xF9));
    assert!(mmu.get_in_bios());

    // A read with the program counter at 0x0100 disables the overlay.
    assert_eq!(mmu.rb(0x0100, 0x0100), Ok(0x00));
    assert!(!mmu.get_in_bios());

    // Below-0x0100 reads now come from the cartridge, permanently.
    assert_eq!(mmu.rb(0x0000, 0x0050), Ok(0xAA));
    assert!(!mmu.get_in_bios());
}

/// Writing to working RAM is read back through the echo range and the
/// other way round: both map to the same offset into the 8 KiB region.
#[test]
fn echo_ram_mirror() {
    let mut mmu = MMU::new();
    mmu.wb(0xC010, 0xAB).unwrap();
    assert_eq!(mmu.rb(0, 0xE010), Ok(0xAB));
    mmu.wb(0xE123, 0x42).unwrap();
    assert_eq!(mmu.rb(0, 0xC123), Ok(0x42));
}

/// Words are little-endian: the low byte sits at the lower address.
#[test]
fn word_read_write() {
    let mut mmu = MMU::new();
    mmu.ww(0xC100, 0x1234).unwrap();
    assert_eq!(mmu.rb(0, 0xC100), Ok(0x34));
    assert_eq!(mmu.rb(0, 0xC101), Ok(0x12));
    assert_eq!(mmu.rw(0, 0xC100), Ok(0x1234));
}

/// Zero-page RAM and the two wired interrupt registers.
#[test]
fn zram_and_interrupt_registers() {
    let mut mmu = MMU::new();
    mmu.wb(0xFF80, 0x5A).unwrap();
    assert_eq!(mmu.rb(0, 0xFF80), Ok(0x5A));
    mmu.wb(0xFFFE, 0x99).unwrap();
    assert_eq!(mmu.rb(0, 0xFFFE), Ok(0x99));
    // Interrupt enable at 0xFFFF and interrupt flag at 0xFF0F.
    assert_eq!(mmu.rb(0, 0xFFFF), Ok(0));
    mmu.wb(0xFFFF, 1).unwrap();
    assert_eq!(mmu.rb(0, 0xFFFF), Ok(1));
    assert_eq!(mmu.rb(0, 0xFF0F), Ok(0));
    mmu.wb(0xFF0F, 1).unwrap();
    assert_eq!(mmu.rb(0, 0xFF0F), Ok(1));
}

/// External RAM is writable and banked at offset zero.
#[test]
fn external_ram() {
    let mut mmu = MMU::new();
    mmu.wb(0xA000, 0x77).unwrap();
    assert_eq!(mmu.rb(0, 0xA000), Ok(0x77));
    assert_eq!(mmu.rb(0, 0xB000), Ok(0));
}

/// The regions this core does not implement fault explicitly instead of
/// returning garbage: video RAM, the sprite attribute table, the
/// joypad, timer and display I/O registers, and every ROM-range write.
#[test]
fn unmapped_regions_fault() {
    let mut mmu = MMU::new();
    assert_eq!(mmu.rb(0, 0x8000), Err(RgbError::UnmappedRegion(0x8000)));
    assert_eq!(mmu.rb(0, 0xFE00), Err(RgbError::UnmappedRegion(0xFE00)));
    assert_eq!(mmu.rb(0, 0xFF00), Err(RgbError::UnmappedRegion(0xFF00)));
    assert_eq!(mmu.rb(0, 0xFF04), Err(RgbError::UnmappedRegion(0xFF04)));
    assert_eq!(mmu.rb(0, 0xFF40), Err(RgbError::UnmappedRegion(0xFF40)));
    assert_eq!(mmu.wb(0x0000, 1), Err(RgbError::UnmappedRegion(0x0000)));
    assert_eq!(mmu.wb(0x8000, 1), Err(RgbError::UnmappedRegion(0x8000)));
    // The sound-register rows read as zero and discard writes.
    assert_eq!(mmu.rb(0, 0xFF10), Ok(0));
    mmu.wb(0xFF10, 0xFF).unwrap();
    assert_eq!(mmu.rb(0, 0xFF10), Ok(0));
}

/// A cartridge read past the end of the loaded image is a structured
/// error, not a crash.
#[test]
fn rom_bounds_fault() {
    let mut mmu = MMU::new();
    // No cartridge at all: a bank-0 read faults.
    assert_eq!(mmu.rb(0, 0x0200), Err(RgbError::RomBounds(0x0200)));
    let rom = cart(0x400);
    mmu.load_bytes(&rom).unwrap();
    assert_eq!(mmu.rb(0, 0x0200), Ok(0));
    // The switched bank window reaches past a 1 KiB image.
    assert_eq!(mmu.rb(0, 0x4400), Err(RgbError::RomBounds(0x4400)));
}

/// Cartridge malformation is reported at load time: an image too short
/// for the header, or an undocumented cartridge-type byte, is rejected
/// and nothing changes.
#[test]
fn cartridge_header_check() {
    let mut mmu = MMU::new();
    assert_eq!(mmu.load_bytes(&[0u8; 0x100]), Err(RgbError::CartridgeMissing));
    assert_eq!(mmu.get_cartridge_type(), None);

    let mut bad = cart(0x200);
    bad[0x147] = 0x42;
    assert_eq!(mmu.load_bytes(&bad), Err(RgbError::CartridgeUnknownType(0x42)));
    assert_eq!(mmu.get_cartridge_type(), None);

    let mut good = cart(0x200);
    good[0x147] = 0x01;
    mmu.load_bytes(&good).unwrap();
    assert_eq!(mmu.get_cartridge_type(), Some(0x01));
}

/// The header fields are parsed read-only from their fixed offsets:
/// the zero-padded title, the cartridge type, and the size codes.
#[test]
fn cartridge_header_fields() {
    let mut mmu = MMU::new();
    assert!(mmu.header().is_none());

    let mut rom = cart(0x200);
    rom[0x134..0x134 + 4].copy_from_slice(b"TEST");
    rom[0x147] = 0x01;
    rom[0x148] = 0x02;
    rom[0x149] = 0x03;
    mmu.load_bytes(&rom).unwrap();

    let h = mmu.header().unwrap();
    assert_eq!(&h.title[..4], b"TEST");
    assert!(h.title[4..].iter().all(|&b| b == 0));
    assert_eq!(h.title.len(), 16);
    assert_eq!(h.cartridge_type, 0x01);
    assert_eq!(h.rom_size, 0x02);
    assert_eq!(h.ram_size, 0x03);
}

/// The bank-offset bookkeeping walks the cartridge byte by byte.
#[test]
fn rom_offset_walk() {
    let mut mmu = MMU::new();
    let mut rom = cart(0x200);
    rom[0] = 0x11;
    rom[1] = 0x22;
    mmu.load_bytes(&rom).unwrap();
    assert_eq!(mmu.get_byte_at_offset(), 0x11);
    mmu.incr_rom();
    assert_eq!(mmu.get_byte_at_offset(), 0x22);
}
