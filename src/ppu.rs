pub mod attributes;
pub mod color;
pub mod vram;
pub mod fifo;
pub mod gb_ppu;
pub mod ppu_register_updater;
