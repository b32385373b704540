use vstd::prelude::*;

pub mod fixed_size_queue;
pub mod machine;
pub mod mmu;
pub mod vec2;
pub mod apu;
pub mod cpu;
pub mod ppu;

verus! {

} // verus!
