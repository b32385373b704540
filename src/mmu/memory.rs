use vstd::prelude::*;
use super::gb_mmu::GbMmu;

verus! {

/// A byte-addressed 16-bit memory as the CPU sees it.
pub trait Memory {
    spec fn ready(&self) -> bool;

    fn read(&self, address: u16) -> (r: u8)
        requires
            self.ready(),
    ;

    fn write(&mut self, address: u16, value: u8)
        requires
            old(self).ready(),
        ensures
            final(self).ready(),
    ;
}

impl Memory for GbMmu {
    open spec fn ready(&self) -> bool {
        self.wf()
    }

    fn read(&self, address: u16) -> (r: u8) {
        GbMmu::read(self, address)
    }

    fn write(&mut self, address: u16, value: u8) {
        GbMmu::write(self, address, value)
    }
}

} // verus!
