pub mod gameboy;
