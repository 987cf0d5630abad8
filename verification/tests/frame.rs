use wataboy::app_state::AppState;
use wataboy::interpreter::cpu::Cpu;

#[test]
fn draw_spreads_each_greyscale_value_over_rgb() {
    let state = AppState { mgb_state: Cpu::default(), lcd_buffer: vec![0, 63, 255], next_vblank: 0 };
    let mut frame = vec![7u8; 14];
    state.draw(&mut frame);
    assert_eq!(&frame[0..12], &[0, 0, 0, 255, 63, 63, 63, 255, 255, 255, 255, 255]);
    // Bytes past the last whole pixel are left alone.
    assert_eq!(&frame[12..14], &[7, 7]);
}
