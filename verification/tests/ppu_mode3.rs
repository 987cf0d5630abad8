use wataboy::hw_constants::{post_boot_hwio, PostBoot};
use wataboy::io_regs;
use wataboy::io_regs::LCDC;
use wataboy::ppu::ppu::{Ppu, PpuMode, OAM_SCAN_DOTS};

fn run_until_hblank(ppu: &mut Ppu, memory: &mut Vec<u8>) -> usize {
    while !matches!(ppu.mode(), PpuMode::HBlank) {
        ppu.tick(memory);
    }
    ppu.dot_counter - OAM_SCAN_DOTS
}

// Minimum Mode 3 length (172) with unscrolled background tiles, no window and
// no objects.
#[test]
fn test_minimum_bg_mode_3_dots() {
    let mut ppu = Ppu::post_boot_dmg();
    let mut memory = post_boot_hwio();
    assert_eq!(run_until_hblank(&mut ppu, &mut memory), 172);
}

// Scrolled background tiles (SCX % 8 = 7), no window, no objects: 179 dots.
#[test]
fn test_scrolled_bg_mode_3_dots() {
    let mut ppu = Ppu::post_boot_dmg();
    let mut memory = post_boot_hwio();
    memory[io_regs::SCX as usize] = 7;
    assert_eq!(run_until_hblank(&mut ppu, &mut memory), 179);
}

// Unscrolled background, a window at x=50, no objects: 178 dots.
#[test]
fn test_minimum_bg_window_mode_3_dots() {
    let mut ppu = Ppu::post_boot_dmg();
    let mut memory = post_boot_hwio();
    memory[io_regs::LCDC as usize] |= 0b0010_0000;
    memory[io_regs::WX as usize] = 50 + 7;
    assert_eq!(run_until_hblank(&mut ppu, &mut memory), 178);
}

// Scrolled background (SCX % 8 = 7), a window at x=50, no objects: 185 dots.
#[test]
fn test_scrolled_bg_window_mode_3_dots() {
    let mut ppu = Ppu::post_boot_dmg();
    let mut memory = post_boot_hwio();
    memory[io_regs::SCX as usize] = 7;
    memory[io_regs::LCDC as usize] |= 0b0010_0000;
    memory[io_regs::WX as usize] = 50 + 7;
    assert_eq!(run_until_hblank(&mut ppu, &mut memory), 185);
}

// Unscrolled background, no window, 1 object at x=0: 183 dots.
#[test]
fn test_bg_obj_x_0_mode_3_dots() {
    let mut ppu = Ppu::post_boot_dmg();
    let mut memory = post_boot_hwio();
    memory[0xFE00] = 16;
    memory[0xFE01] = 0;
    memory[LCDC as usize] = 0x93;
    assert_eq!(run_until_hblank(&mut ppu, &mut memory), 183);
}

// Unscrolled background, no window, 2 objects at x=0: 189 dots.
#[test]
fn test_bg_2_obj_x_0_mode_3_dots() {
    let mut ppu = Ppu::post_boot_dmg();
    let mut memory = post_boot_hwio();
    memory[0xFE00] = 16;
    memory[0xFE01] = 0;
    memory[0xFE04] = 16;
    memory[0xFE05] = 0;
    memory[LCDC as usize] = 0x93;
    assert_eq!(run_until_hblank(&mut ppu, &mut memory), 189);
}

// Unscrolled background, no window, 10 objects at x=1: 236 dots.
#[test]
fn test_bg_10_obj_x_1_mode_3_dots() {
    let mut ppu = Ppu::post_boot_dmg();
    let mut memory = post_boot_hwio();
    for i in 0..10 {
        let obj_idx = 0xFE00 + (i * 4);
        memory[obj_idx] = 16;
        memory[obj_idx + 1] = 1;
    }
    memory[LCDC as usize] = 0x93;
    assert_eq!(run_until_hblank(&mut ppu, &mut memory), 236);
}

// Unscrolled background, no window, 1 object at x=2: 181 dots.
#[test]
fn test_bg_obj_x_2_mode_3_dots() {
    let mut ppu = Ppu::post_boot_dmg();
    let mut memory = post_boot_hwio();
    memory[0xFE00] = 16;
    memory[0xFE01] = 2;
    memory[LCDC as usize] = 0x93;
    assert_eq!(run_until_hblank(&mut ppu, &mut memory), 181);
}

// Unscrolled background, no window, 1 object at x=8: 183 dots.
#[test]
fn test_bg_obj_x_8_mode_3_dots() {
    let mut ppu = Ppu::post_boot_dmg();
    let mut memory = post_boot_hwio();
    memory[0xFE00] = 16;
    memory[0xFE01] = 8;
    memory[LCDC as usize] = 0x93;
    assert_eq!(run_until_hblank(&mut ppu, &mut memory), 183);
}

// Unscrolled background, no window, 1 object at x=9: 182 dots.
#[test]
fn test_bg_obj_x_9_mode_3_dots() {
    let mut ppu = Ppu::post_boot_dmg();
    let mut memory = post_boot_hwio();
    memory[0xFE00] = 16;
    memory[0xFE01] = 9;
    memory[LCDC as usize] = 0x93;
    assert_eq!(run_until_hblank(&mut ppu, &mut memory), 182);
}

// Each pixel of the line is drawn in the shade that BGP gives its colour:
// with every colour mapped to black, the whole line is black.
#[test]
fn drawn_line_takes_its_shade_from_bgp() {
    let mut ppu = Ppu::post_boot_dmg();
    let mut memory = post_boot_hwio();
    memory[io_regs::BGP as usize] = 0xFF;
    run_until_hblank(&mut ppu, &mut memory);
    assert!(ppu.lcd_buffer[0..160].iter().all(|&shade| shade == 63));
    assert_eq!(ppu.lcd_buffer[160], 0);
}

// With the background off, it shows colour 0 whatever its tiles hold.
#[test]
fn background_off_draws_colour_0() {
    let mut ppu = Ppu::post_boot_dmg();
    let mut memory = post_boot_hwio();
    memory[io_regs::BGP as usize] = 0b0001_1011;
    for i in 0x8000..0x8010 {
        memory[i] = 0xFF;
    }
    memory[LCDC as usize] &= !1;
    run_until_hblank(&mut ppu, &mut memory);
    assert!(ppu.lcd_buffer[0..160].iter().all(|&shade| shade == 255 - 3 * 64));
}

// Drawing starts with the fine scroll plus one tile to drop, and the line's
// objects found by the OAM scan.
#[test]
fn drawing_starts_with_scroll_and_scanned_objects() {
    let mut ppu = Ppu::post_boot_dmg();
    let mut memory = post_boot_hwio();
    memory[io_regs::SCX as usize] = 5;
    memory[0xFE00] = 16;
    memory[0xFE01] = 40;
    memory[LCDC as usize] = 0x93;
    while !matches!(ppu.mode(), PpuMode::Drawing) {
        ppu.tick(&mut memory);
    }
    assert_eq!(ppu.pixels_to_drop, 5 + 8);
    assert_eq!(ppu.x, 0);
    assert_eq!(ppu.obj_buffer.len(), 1);
}

// During the OAM scan STAT shows mode 2 from the line's dot 3 on.
#[test]
fn stat_shows_mode_2_during_oam_scan() {
    let mut ppu = Ppu::post_boot_dmg();
    let mut memory = post_boot_hwio();
    while !matches!(ppu.mode(), PpuMode::OamScan) {
        ppu.tick(&mut memory);
    }
    for _ in 0..10 {
        ppu.tick(&mut memory);
    }
    assert_eq!(memory[io_regs::STAT as usize] & 0b11, 2);
    run_until_hblank(&mut ppu, &mut memory);
    for _ in 0..4 {
        ppu.tick(&mut memory);
    }
    assert_eq!(memory[io_regs::STAT as usize] & 0b11, 0);
}
