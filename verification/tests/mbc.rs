use wataboy::interpreter::dma::Dma;
use wataboy::interpreter::mbc::dispatcher::MbcDispatcher;
use wataboy::interpreter::mbc::mbc1::Mbc1;
use wataboy::interpreter::mbc::mbc2::Mbc2;
use wataboy::interpreter::mbc::mbc3::{Mbc3, Rtc};
use wataboy::interpreter::mbc::mbc5::Mbc5;

/// A ROM of `banks` 16 KiB banks whose first byte holds the bank number.
fn banked_rom(banks: usize, mbc_type: u8, ram_size: u8) -> Vec<u8> {
    let mut rom = vec![0u8; banks * 0x4000];
    for bank in 0..banks {
        rom[bank * 0x4000] = bank as u8;
        rom[bank * 0x4000 + 1] = 0xB0 | bank as u8;
    }
    rom[0x0147] = mbc_type;
    rom[0x0149] = ram_size;
    rom
}

#[test]
fn mbc1_switches_rom_banks() {
    let mut mbc = Mbc1::from_rom(&banked_rom(4, 0x01, 0));
    assert_eq!(mbc.read_byte(0x4000), 1);
    mbc.write_byte(0x2000, 3);
    assert_eq!(mbc.read_byte(0x4000), 3);
    assert_eq!(mbc.read_byte(0x4001), 0xB3);
    // Bank 0 selects bank 1.
    mbc.write_byte(0x2000, 0);
    assert_eq!(mbc.current_rom_bank, 1);
    assert_eq!(mbc.read_byte(0x4000), 1);
    // Bank 0 stays mapped at 0x0000.
    assert_eq!(mbc.read_byte(0x0001), 0xB0);
}

#[test]
fn mbc1_sram_needs_enabling() {
    let mut mbc = Mbc1::from_rom(&banked_rom(2, 0x03, 2));
    assert_eq!(mbc.read_byte(0xA000), 0xFF);
    mbc.write_byte(0xA000, 0x55);
    mbc.write_byte(0x0000, 0x0A);
    assert_eq!(mbc.read_byte(0xA000), 0x00);
    mbc.write_byte(0xA000, 0x55);
    assert_eq!(mbc.read_byte(0xA000), 0x55);
    mbc.write_byte(0x0000, 0x00);
    assert_eq!(mbc.read_byte(0xA000), 0xFF);
}

#[test]
fn mbc2_sram_is_half_bytes() {
    let mut mbc = Mbc2::from_rom(&banked_rom(4, 0x06, 0));
    // Address bit 8 set: ROM bank number.
    mbc.write_byte(0x2100, 2);
    assert_eq!(mbc.read_byte(0x4000), 2);
    // Address bit 8 clear: RAM enable.
    mbc.write_byte(0x0000, 0x0A);
    mbc.write_byte(0xA001, 0x3C);
    assert_eq!(mbc.read_byte(0xA001), 0xFC);
    // The 512 half-bytes repeat through the SRAM area.
    assert_eq!(mbc.read_byte(0xA201), 0xFC);
}

#[test]
fn mbc3_rtc_registers() {
    let mut mbc = Mbc3::from_rom(&banked_rom(4, 0x10, 0));
    mbc.write_byte(0x0000, 0x0A);
    mbc.write_byte(0x4000, 0x08);
    mbc.write_byte(0xA000, 30);
    assert_eq!(mbc.read_byte(0xA000), 30);
    mbc.write_byte(0x4000, 0x0A);
    mbc.write_byte(0xA000, 12);
    assert_eq!(mbc.read_byte(0xA000), 12);
    mbc.write_byte(0x4000, 0x08);
    assert_eq!(mbc.read_byte(0xA000), 30);
    mbc.write_byte(0x2000, 0x83);
    assert_eq!(mbc.current_rom_bank, 3);
    assert_eq!(mbc.read_byte(0x4000), 3);
}

#[test]
fn mbc5_bank_number_wraps_to_the_rom() {
    let mut mbc = Mbc5::from_rom(&banked_rom(4, 0x19, 0));
    mbc.write_byte(0x2000, 6);
    assert_eq!(mbc.current_rom_bank, 2);
    assert_eq!(mbc.read_byte(0x4000), 2);
    // MBC5 can map bank 0 into the switchable area.
    mbc.write_byte(0x2000, 0);
    assert_eq!(mbc.read_byte(0x4000), 0);
}

#[test]
fn dispatcher_mounts_and_unmounts_the_boot_rom() {
    let rom = banked_rom(4, 0x01, 0);
    let mut dispatcher = MbcDispatcher::from_rom(&rom);
    assert!(dispatcher.boot_rom_mounted);
    // The boot program starts with LD SP, 0xFFFE.
    assert_eq!(dispatcher.read_byte(0x0000), 0x31);
    assert_eq!(dispatcher.read_byte(0x0001), 0xFE);
    assert_eq!(dispatcher.read_byte(0x00FE), 0xE0);
    assert_eq!(dispatcher.read_byte(0x0100), 0x00);
    assert_eq!(dispatcher.current_rom_bank(), 1);
    dispatcher.write_byte(0xFF50, 1);
    assert!(!dispatcher.boot_rom_mounted);
    assert_eq!(dispatcher.read_byte(0x0001), 0xB0);
    dispatcher.write_byte(0x2000, 2);
    assert_eq!(dispatcher.current_rom_bank(), 2);
    assert_eq!(dispatcher.read_byte(0x4000), 2);
}

#[test]
fn dma_takes_162_m_cycles() {
    let mut dma = Dma::default();
    dma.start();
    assert!(!dma.is_active());
    assert!(!dma.catch_up(4));
    assert!(!dma.is_active());
    assert!(dma.catch_up(8));
    assert!(dma.is_active());
    assert!(!dma.catch_up(4 * 161));
    assert!(dma.is_active());
    dma.catch_up(4 * 162);
    assert!(!dma.is_active());
}

#[test]
fn rtc_count_carries_nanoseconds() {
    let mut rtc = Rtc::default();
    assert!(rtc.advance(1, 600_000_000));
    assert!(rtc.advance(2, 500_000_000));
    assert_eq!(rtc.secs, 4);
    assert_eq!(rtc.nanos, 100_000_000);
}

#[test]
fn rtc_count_refuses_overflow() {
    let mut rtc = Rtc::default();
    assert!(rtc.advance(u64::MAX, 999_999_999));
    assert!(!rtc.advance(0, 1));
    assert_eq!(rtc.secs, u64::MAX);
    assert_eq!(rtc.nanos, 999_999_999);
}

#[test]
fn rtc_update_shows_elapsed_time() {
    let mut rtc = Rtc::default();
    let now = std::time::SystemTime::now();
    rtc.update_with(Some((3661, 0)), now);
    assert_eq!(rtc.regs.seconds, 1);
    assert_eq!(rtc.regs.minutes, 1);
    assert_eq!(rtc.regs.hours, 1);
    assert_eq!(rtc.last_ticked, now);
    // A clock that went backwards adds nothing.
    rtc.update_with(None, now);
    assert_eq!(rtc.secs, 3661);
    // While halted the registers keep their value.
    rtc.regs.days_hi = 0b0100_0000;
    rtc.update_with(Some((100, 0)), now);
    assert_eq!(rtc.secs, 3761);
    assert_eq!(rtc.regs.seconds, 1);
    // The real clock never makes the count go back.
    let before = rtc.secs;
    rtc.update();
    assert!(rtc.secs >= before);
}
