use wataboy::interpreter::ppu::bg_fetcher::{BackgroundFetcher, ColorIndex, FetcherState, Pixel};
use wataboy::interpreter::ppu::registers::{LcdControl, PaletteSelect};

fn vram_with_tile() -> Vec<u8> {
    let mut vram = vec![0u8; 0x2000];
    // Tile map 0, first entry: tile 2; tile 2's first row.
    vram[0x1800] = 2;
    vram[0x20] = 0xF0;
    vram[0x21] = 0x0F;
    vram
}

#[test]
fn first_fetch_warms_up_then_pushes_a_row() {
    let vram = vram_with_tile();
    let lcdc = LcdControl::from_bits(0x91);
    let mut fetcher = BackgroundFetcher::default();
    for _ in 0..5 {
        fetcher.tick(&vram, lcdc, 0, 0, 0, 0);
    }
    assert_eq!(fetcher.state, FetcherState::BeforeGetTile);
    assert!(!fetcher.warmup);
    let blank = Pixel {
        priority: false,
        palette: PaletteSelect::Bgp,
        color_index: ColorIndex { high: false, low: false },
    };
    for _ in 0..8 {
        assert_eq!(fetcher.shift_out(), Some(blank));
    }
    assert_eq!(fetcher.shift_out(), None);
    for _ in 0..7 {
        fetcher.tick(&vram, lcdc, 0, 0, 0, 0);
    }
    assert_eq!(fetcher.state, FetcherState::BeforeGetTile);
    assert_eq!(fetcher.bg_fifo.len(), 8);
    // The leftmost pixel is bit 7 of both bytes.
    let first = fetcher.shift_out().unwrap();
    assert_eq!(first.color_index, ColorIndex { high: false, low: true });
    for _ in 0..3 {
        fetcher.shift_out();
    }
    let fifth = fetcher.shift_out().unwrap();
    assert_eq!(fifth.color_index, ColorIndex { high: true, low: false });
    assert_eq!(fetcher.tile_x, 1);
}

#[test]
fn reset_starts_a_new_line() {
    let vram = vram_with_tile();
    let mut fetcher = BackgroundFetcher::default();
    for _ in 0..5 {
        fetcher.tick(&vram, LcdControl::from_bits(0x91), 0, 0, 0, 0);
    }
    fetcher.reset();
    assert_eq!(fetcher.state, FetcherState::BeforeGetTile);
    assert!(fetcher.warmup);
    assert!(fetcher.bg_fifo.is_empty());
    assert_eq!(fetcher.tile_x, 0);
}
