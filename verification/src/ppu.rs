//! The pixel processing unit: LCD registers, palettes, tiles, objects and the
//! fetchers that feed the LCD one dot at a time.

pub mod lcd;
pub mod lcd_control;
pub mod lcd_status;
pub mod palette;
pub mod tiles;
pub mod oam;
pub mod bg_fetcher;
pub mod obj_fetcher;
pub mod stat_mode;
pub mod pixel_fetcher;
pub mod ppu;
