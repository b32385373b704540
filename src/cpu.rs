pub mod gb_cpu;
pub mod opcodes_utils;
