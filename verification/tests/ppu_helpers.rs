use wataboy::hw_constants::{post_boot_hwio, PostBoot};
use wataboy::interpreter::mbc::mbc3::RtcRegs;
use wataboy::io_regs;
use wataboy::ppu::lcd_status::{ppu_mode, set_ppu_mode};
use wataboy::ppu::oam::{oam_scan, Obj};
use wataboy::ppu::palette::{map_to_palette, Color};
use wataboy::ppu::ppu::Ppu;
use wataboy::ppu::tiles::tile_to_palette_indices;

#[test]
fn palette_maps_each_colour_index() {
    // 0b11_10_01_00: index 0 white, 1 light grey, 2 dark grey, 3 black.
    assert!(matches!(map_to_palette(0xE4, 0), Color::White));
    assert!(matches!(map_to_palette(0xE4, 1), Color::LightGrey));
    assert!(matches!(map_to_palette(0xE4, 2), Color::DarkGrey));
    assert!(matches!(map_to_palette(0xE4, 3), Color::Black));
    // An inverted palette.
    assert!(matches!(map_to_palette(0x1B, 0), Color::Black));
    assert_eq!(Color::DarkGrey.into_bits(), 2);
}

#[test]
fn stat_mode_bits() {
    let mut memory = vec![0u8; 0x10000];
    memory[io_regs::STAT as usize] = 0b0100_0101;
    set_ppu_mode(&mut memory, 3);
    assert_eq!(ppu_mode(&memory), 3);
    assert_eq!(memory[io_regs::STAT as usize], 0b0100_0111);
}

#[test]
fn tile_row_decoding() {
    // A row whose colour indices are 0, 2, 3, 3, 3, 3, 2, 0.
    let mut tile = [0u8; 16];
    tile[0] = 0x3C;
    tile[1] = 0x7E;
    let indices = tile_to_palette_indices(&tile);
    assert_eq!(indices.len(), 64);
    assert_eq!(&indices[0..8], &[0, 2, 3, 3, 3, 3, 2, 0]);
    assert!(indices[8..].iter().all(|&i| i == 0));
}

#[test]
fn oam_scan_selects_covering_objects_in_order() {
    let mut memory = vec![0u8; 0x10000];
    // Object 0 covers lines 0..=7, object 1 lines 8..=15, object 2 lines 4..=11.
    memory[0xFE00..0xFE04].copy_from_slice(&[16, 8, 1, 0]);
    memory[0xFE04..0xFE08].copy_from_slice(&[24, 16, 2, 0]);
    memory[0xFE08..0xFE0C].copy_from_slice(&[20, 24, 3, 0]);
    let line_5 = oam_scan(&memory, 5);
    assert_eq!(line_5.len(), 2);
    assert_eq!(line_5[0].tile_index, 1);
    assert_eq!(line_5[1].tile_index, 3);
    let line_9 = oam_scan(&memory, 9);
    assert_eq!(line_9.len(), 2);
    assert_eq!(line_9[0].tile_index, 2);
    assert!(Obj::from_bytes(&[16, 8, 1, 0]).intersects_y(7));
    assert!(!Obj::from_bytes(&[16, 8, 1, 0]).intersects_y(8));
}

#[test]
fn at_most_ten_objects_per_line() {
    let mut memory = vec![0u8; 0x10000];
    for i in 0..40 {
        let base = 0xFE00 + 4 * i;
        memory[base..base + 4].copy_from_slice(&[16, 8, i as u8, 0]);
    }
    let selected = oam_scan(&memory, 0);
    assert_eq!(selected.len(), 10);
    assert_eq!(selected[9].tile_index, 9);
}

#[test]
fn ppu_only_touches_stat_ly_and_if() {
    let mut ppu = Ppu::post_boot_dmg();
    let mut memory = post_boot_hwio();
    memory[io_regs::IF as usize] = 0;
    let before = memory.clone();
    let mut seen_vblank_request = false;
    for _ in 0..70224 {
        let if_before = memory[io_regs::IF as usize];
        ppu.tick(&mut memory);
        let if_after = memory[io_regs::IF as usize];
        // Request bits are only ever set.
        assert_eq!(if_after & if_before, if_before);
        if if_after & 1 == 1 {
            seen_vblank_request = true;
        }
    }
    for i in 0..0x10000usize {
        if i != io_regs::STAT as usize && i != io_regs::LY as usize && i != io_regs::IF as usize {
            assert_eq!(memory[i], before[i], "address {i:#06x}");
        }
    }
    assert!(seen_vblank_request);
}

#[test]
fn rtc_registers_count_elapsed_seconds() {
    let mut regs = RtcRegs::default();
    // One day, one hour, one minute and one second.
    regs.update(86400 + 3600 + 60 + 1);
    assert_eq!(
        (regs.seconds, regs.minutes, regs.hours, regs.days_lo, regs.days_hi),
        (1, 1, 1, 1, 0)
    );
    // Day 256 sets the ninth day bit in the high register.
    regs.update(256 * 86400);
    assert_eq!((regs.days_lo, regs.days_hi & 1), (0, 1));
    assert!(!regs.halt());
}
