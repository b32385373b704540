use vstd::prelude::*;
use super::carts::{mbc1_bank, rom_at, Mbc};

verus! {

pub const BOOT_ROM_SIZE: usize = 0x100;
pub const GBC_BOOT_ROM_SIZE: usize = 0x900;
pub const WRAM_BANK_SIZE: usize = 0x1000;
pub const BOOT_REGISTER_ADDRESS: u16 = 0xFF50;
pub const WRAM_BANK_REGISTER_ADDRESS: u16 = 0xFF70;

/// Offset in work RAM of a CPU address in 0xC000-0xFDFF (0xE000-0xFDFF
/// mirrors 0xC000-0xDDFF); `bank` is the bank switched in at 0xD000.
pub open spec fn wram_index(bank: u8, address: u16) -> int {
    let a = if address >= 0xE000 { address - 0x2000 } else { address as int };
    if a < 0xD000 { a - 0xC000 } else { bank * WRAM_BANK_SIZE + (a - 0xD000) }
}

/// The cartridge, work RAM and the boot ROM overlay.
pub struct ExternalMemoryBus {
    pub mbc: Mbc,
    pub boot_rom: Option<Vec<u8>>,
    /// BOOT (0xFF50): 0 while the boot ROM is mapped.
    pub boot_register: u8,
    pub wram: Vec<u8>,
    pub wram_bank: u8,
}

impl ExternalMemoryBus {
    pub open spec fn wf(&self) -> bool {
        &&& self.wram@.len() == 8 * WRAM_BANK_SIZE
        &&& 1 <= self.wram_bank < 8
        &&& match self.boot_rom {
            Some(b) => b@.len() == BOOT_ROM_SIZE || b@.len() == GBC_BOOT_ROM_SIZE,
            None => true,
        }
    }

    /// Whether the boot ROM answers a read of `address`.
    pub open spec fn boot_rom_maps(&self, address: u16) -> bool {
        &&& self.boot_register == 0
        &&& self.boot_rom.is_some()
        &&& (address < 0x100 || (self.boot_rom.unwrap()@.len() == GBC_BOOT_ROM_SIZE && 0x200 <= address < 0x900))
    }

    /// What a read of `address` (0x0000-0x7FFF, 0xA000-0xFDFF, BOOT, SVBK)
    /// returns.
    pub open spec fn value(&self, address: u16) -> u8 {
        if address < 0x8000 && self.boot_rom_maps(address) {
            self.boot_rom.unwrap()@[address as int]
        } else if address < 0x4000 {
            rom_at(self.mbc.program()@, address as int)
        } else if address < 0x8000 {
            rom_at(self.mbc.program()@, self.mbc.rom_bank() * 0x4000 + (address - 0x4000))
        } else if address < 0xC000 {
            self.mbc.external_ram_value(address - 0xA000)
        } else if address < 0xFE00 {
            self.wram@[wram_index(self.wram_bank, address)]
        } else if address == BOOT_REGISTER_ADDRESS {
            self.boot_register
        } else {
            self.wram_bank | 0xF8
        }
    }

    pub fn new(mbc: Mbc, boot_rom: Option<Vec<u8>>) -> (b: Self)
        requires
            match boot_rom {
                Some(r) => r@.len() == BOOT_ROM_SIZE || r@.len() == GBC_BOOT_ROM_SIZE,
                None => true,
            },
        ensures
            b.wf(),
            b.boot_register == 0,
            b.mbc == mbc,
            b.boot_rom == boot_rom,
            forall|i: int| 0 <= i < 8 * WRAM_BANK_SIZE ==> b.wram@[i] == 0,
    {
        ExternalMemoryBus { mbc, boot_rom, boot_register: 0, wram: vec![0u8; 8 * WRAM_BANK_SIZE], wram_bank: 1 }
    }

    /// A read of 0x0000-0x7FFF, 0xA000-0xFDFF, BOOT or SVBK.
    pub fn read(&self, address: u16) -> (r: u8)
        requires
            self.wf(),
            address < 0x8000 || (0xA000 <= address < 0xFE00) || address == BOOT_REGISTER_ADDRESS
                || address == WRAM_BANK_REGISTER_ADDRESS,
        ensures
            r == self.value(address),
            address < 0x8000 && self.boot_rom_maps(address) ==> r == self.boot_rom.unwrap()@[address as int],
            address < 0x4000 && !self.boot_rom_maps(address) ==> r == rom_at(self.mbc.program()@, address as int),
            0x4000 <= address < 0x8000 && !self.boot_rom_maps(address) ==> r == rom_at(
                self.mbc.program()@, self.mbc.rom_bank() * 0x4000 + (address - 0x4000)),
            0xA000 <= address < 0xC000 ==> r == self.mbc.external_ram_value(address - 0xA000),
            0xC000 <= address < 0xFE00 ==> r == self.wram@[wram_index(self.wram_bank, address)],
            address == BOOT_REGISTER_ADDRESS ==> r == self.boot_register,
            address == WRAM_BANK_REGISTER_ADDRESS ==> r == self.wram_bank | 0xF8,
    {
        if address < 0x8000 {
            match &self.boot_rom {
                Some(b) => {
                    if self.boot_register == 0 && (address < 0x100 || (b.len() == GBC_BOOT_ROM_SIZE && 0x200 <= address
                        && address < 0x900)) {
                        return b[address as usize];
                    }
                },
                None => {},
            }
            self.mbc.read_rom(address)
        } else if address < 0xC000 {
            self.mbc.read_external_ram(address)
        } else if address < 0xFE00 {
            self.wram[self.wram_offset(address)]
        } else if address == BOOT_REGISTER_ADDRESS {
            self.boot_register
        } else {
            self.wram_bank | 0xF8
        }
    }

    pub fn wram_offset(&self, address: u16) -> (i: usize)
        requires
            self.wf(),
            0xC000 <= address < 0xFE00,
        ensures
            i == wram_index(self.wram_bank, address),
            i < 8 * WRAM_BANK_SIZE,
    {
        let a = if address >= 0xE000 { address - 0x2000 } else { address };
        if a < 0xD000 {
            (a - 0xC000) as usize
        } else {
            self.wram_bank as usize * WRAM_BANK_SIZE + (a - 0xD000) as usize
        }
    }

    /// A write to 0x0000-0x7FFF, 0xA000-0xFDFF, BOOT or SVBK.
    pub fn write(&mut self, address: u16, value: u8)
        requires
            old(self).wf(),
            address < 0x8000 || (0xA000 <= address < 0xFE00) || address == BOOT_REGISTER_ADDRESS
                || address == WRAM_BANK_REGISTER_ADDRESS,
        ensures
            final(self).wf(),
            final(self).boot_rom == old(self).boot_rom,
            0xC000 <= address < 0xFE00 ==> final(self).wram@ == old(self).wram@.update(
                wram_index(old(self).wram_bank, address), value),
            0xC000 <= address < 0xFE00 ==> final(self).wram_bank == old(self).wram_bank,
            !(0xC000 <= address < 0xFE00) ==> final(self).wram@ == old(self).wram@,
            address == BOOT_REGISTER_ADDRESS ==> final(self).boot_register == if old(self).boot_register != 0 {
                old(self).boot_register
            } else {
                value
            },
            address != BOOT_REGISTER_ADDRESS ==> final(self).boot_register == old(self).boot_register,
            address == WRAM_BANK_REGISTER_ADDRESS ==> final(self).wram_bank == if value % 8 == 0 { 1 } else { value % 8 },
            address != WRAM_BANK_REGISTER_ADDRESS ==> final(self).wram_bank == old(self).wram_bank,
            final(self).mbc.program() == old(self).mbc.program(),
            old(self).mbc is Mbc1 && 0x2000 <= address < 0x4000 ==> final(self).mbc.rom_bank() == mbc1_bank(
                value, old(self).mbc->Mbc1_0.bank_hi2, old(self).mbc->Mbc1_0.ram_mode),
            old(self).mbc is Mbc3 && 0x2000 <= address < 0x4000 ==> final(self).mbc.rom_bank() == if value % 128 == 0 {
                1
            } else {
                (value % 128) as int
            },
            !(address < 0x8000 || (0xA000 <= address < 0xC000)) ==> final(self).mbc == old(self).mbc,
            address < 0x8000 ==> old(self).mbc.rom_write_effect(final(self).mbc, address, value),
    {
        if address < 0x8000 {
            self.mbc.write_rom(address, value);
        } else if address < 0xC000 {
            self.mbc.write_external_ram(address, value);
        } else if address < 0xFE00 {
            let i = self.wram_offset(address);
            self.wram.set(i, value);
        } else if address == BOOT_REGISTER_ADDRESS {
            // once unmapped, the boot ROM stays unmapped
            if self.boot_register == 0 {
                self.boot_register = value;
            }
        } else {
            self.wram_bank = if value % 8 == 0 { 1 } else { value % 8 };
        }
    }

    pub open spec fn source_value(&self, address: u16) -> u8 {
        if address < 0x8000 || (0xA000 <= address < 0xFE00) { self.value(address) } else { 0xFF }
    }

    /// A byte read by a DMA engine; 0xFF outside ROM, cartridge RAM and WRAM.
    pub fn read_source(&self, address: u16) -> (r: u8)
        requires
            self.wf(),
        ensures
            0xC000 <= address < 0xFE00 ==> r == self.wram@[wram_index(self.wram_bank, address)],
            r == self.source_value(address),
    {
        if address < 0x8000 || (0xA000 <= address && address < 0xFE00) {
            self.read(address)
        } else {
            0xFF
        }
    }
}

} // verus!
