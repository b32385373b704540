pub mod carts;
pub mod external_memory_bus;
pub mod interrupts_handler;
pub mod vram_dma_controller;
pub mod io_bus;
pub mod memory;
pub mod gb_mmu;
