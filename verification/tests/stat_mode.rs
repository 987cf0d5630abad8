use wataboy::ppu::stat_mode::{Mode, StatMachine, DOTS_PER_SCANLINE};

#[test]
fn test_line_1_mode_0() {
    let mut stat_machine = StatMachine::default();
    for _ in 0..DOTS_PER_SCANLINE + 4 {
        stat_machine.tick();
    }
    stat_machine.tick();
    assert!(matches!(stat_machine.mode(), Mode::OamScan));
}
