use vstd::prelude::*;

verus! {

pub const VRAM_BANK_SIZE: usize = 0x2000;

/// Video RAM: two banks of 8 KiB; the second is reachable only on GBC.
pub struct VRam {
    data: Vec<u8>,
    current_bank: u8,
}

impl VRam {
    pub closed spec fn wf(&self) -> bool {
        self.data@.len() == 2 * VRAM_BANK_SIZE && self.current_bank < 2
    }

    /// The byte at `address` of `bank`.
    pub closed spec fn byte(&self, bank: int, address: int) -> u8 {
        self.data@[bank * VRAM_BANK_SIZE + address]
    }

    pub closed spec fn bank(&self) -> int {
        self.current_bank as int
    }

    pub proof fn lemma_bank_range(&self)
        requires
            self.wf(),
        ensures
            0 <= self.bank() < 2,
    {
    }

    pub fn new() -> (v: Self)
        ensures
            v.wf(),
            v.bank() == 0,
            forall|b: int, a: int| 0 <= b < 2 && 0 <= a < VRAM_BANK_SIZE ==> v.byte(b, a) == 0,
    {
        let v = VRam { data: vec![0u8; 2 * VRAM_BANK_SIZE], current_bank: 0 };
        assert forall|b: int, a: int| 0 <= b < 2 && 0 <= a < VRAM_BANK_SIZE implies v.byte(b, a) == 0 by {
            assert(0 <= b * VRAM_BANK_SIZE + a < 2 * VRAM_BANK_SIZE) by (nonlinear_arith)
                requires 0 <= b < 2, 0 <= a < VRAM_BANK_SIZE;
        }
        v
    }

    pub fn read_bank(&self, address: u16, bank: u8) -> (r: u8)
        requires
            self.wf(),
            address < VRAM_BANK_SIZE,
            bank < 2,
        ensures
            r == self.byte(bank as int, address as int),
    {
        self.data[bank as usize * VRAM_BANK_SIZE + address as usize]
    }

    pub fn read_current_bank(&self, address: u16) -> (r: u8)
        requires
            self.wf(),
            address < VRAM_BANK_SIZE,
        ensures
            r == self.byte(self.bank(), address as int),
    {
        self.read_bank(address, self.current_bank)
    }

    pub fn write_current_bank(&mut self, address: u16, value: u8)
        requires
            old(self).wf(),
            address < VRAM_BANK_SIZE,
        ensures
            final(self).wf(),
            final(self).bank() == old(self).bank(),
            final(self).byte(old(self).bank(), address as int) == value,
            forall|b: int, a: int|
                0 <= b < 2 && 0 <= a < VRAM_BANK_SIZE && !(b == old(self).bank() && a == address)
                    ==> final(self).byte(b, a) == old(self).byte(b, a),
    {
        let ghost ob = self.bank();
        let i = self.current_bank as usize * VRAM_BANK_SIZE + address as usize;
        self.data.set(i, value);
        assert forall|b: int, a: int|
            0 <= b < 2 && 0 <= a < VRAM_BANK_SIZE && !(b == old(self).bank() && a == address)
                implies self.byte(b, a) == old(self).byte(b, a) by {
            assert(b * VRAM_BANK_SIZE + a != i) by (nonlinear_arith)
                requires 0 <= b < 2, 0 <= a < VRAM_BANK_SIZE, !(b == ob && a == address),
                    i == ob * VRAM_BANK_SIZE + address, 0 <= ob < 2, address < VRAM_BANK_SIZE;
        }
    }

    /// Selects the bank that the CPU sees (VBK, 0xFF4F); only bit 0 counts.
    pub fn set_bank(&mut self, value: u8)
        requires
            old(self).wf(),
        ensures
            final(self).wf(),
            final(self).bank() == value % 2,
            forall|b: int, a: int| final(self).byte(b, a) == old(self).byte(b, a),
    {
        self.current_bank = value % 2;
    }

    pub fn get_bank(&self) -> (r: u8)
        requires
            self.wf(),
        ensures
            r == self.bank(),
    {
        self.current_bank
    }
}

} // verus!
