use vstd::prelude::*;
use crate::ppu::gb_ppu::PpuState;
use crate::ppu::ppu_register_updater::{handle_bg_pallet_register, handle_lcdcontrol_register};
use super::carts::{mbc1_bank, rom_at, Mbc};
use super::external_memory_bus::{wram_index, ExternalMemoryBus, BOOT_REGISTER_ADDRESS, BOOT_ROM_SIZE, GBC_BOOT_ROM_SIZE};
use super::interrupts_handler::InterruptRequest;
use super::io_bus::{IoBus, OAM_DMA_LENGTH};
use super::vram_dma_controller::TransferMode;

verus! {

pub const HRAM_SIZE: usize = 0x7F;
pub const BAD_READ_VALUE: u8 = 0xFF;

/// The bus that a DMA engine holds.
#[derive(Clone, Copy, PartialEq, Eq, Structural, Debug)]
pub enum AccessBus {
    /// Cartridge and work RAM.
    External,
    /// VRAM.
    Video,
}

/// Whether a CPU access to `address` is cut off while `bus` is held: the held
/// bus and OAM are; HRAM, IE and the I/O ports never are.
pub open spec fn locked(bus: AccessBus, address: u16) -> bool {
    match bus {
        AccessBus::External => address < 0x8000 || (0xA000 <= address < 0xFEA0),
        AccessBus::Video => 0x8000 <= address < 0xA000 || (0xFE00 <= address < 0xFEA0),
    }
}

/// One bus step as `GbMmu::cycle` runs it: `m_cycles` m-cycles from `m0`
/// to `m1`, the devices at half rate in double-speed mode.
pub open spec fn bus_advanced(m0: GbMmu, m1: GbMmu, m_cycles: u8, double_speed_mode: bool) -> bool {
    let device = if double_speed_mode { m_cycles / 2 } else { m_cycles };
    &&& m1.wf()
    &&& m1.total_m_cycles == (m0.total_m_cycles + m_cycles) % 0x1_0000_0000_0000_0000
    &&& m1.m_cycle_counter == (m0.m_cycle_counter + m_cycles) % 0x1_0000_0000
    &&& m1.io_bus.ppu.lcd_control == m0.io_bus.ppu.lcd_control
    &&& m1.io_bus.joypad_buttons == m0.io_bus.joypad_buttons
    &&& m1.io_bus.apu.samples_produced == (m0.io_bus.apu.samples_produced + 4 * device) % 0x1_0000_0000_0000_0000
    &&& m0.io_bus.ppu.lcd_on() ==> m1.io_bus.ppu.frame_pos() == (m0.io_bus.ppu.frame_pos() + device) % 17556
    &&& m0.io_bus.oam_dma_remaining <= m_cycles ==> m1.occupied_access_bus.is_none()
    &&& m0.io_bus.oam_dma_remaining > m_cycles ==> m1.occupied_access_bus == m0.occupied_access_bus
    &&& m1.io_bus.oam_dma_remaining == if m0.io_bus.oam_dma_remaining <= m_cycles { 0 } else {
        m0.io_bus.oam_dma_remaining - m_cycles
    }
    &&& m0.oam_dma_copied(&m1)
    &&& m1.external_memory_bus.wram@ == m0.external_memory_bus.wram@
    &&& m1.hram == m0.hram
}

/// The CPU's view of memory.
pub struct GbMmu {
    pub io_bus: IoBus,
    pub external_memory_bus: ExternalMemoryBus,
    pub occupied_access_bus: Option<AccessBus>,
    pub hram: Vec<u8>,
    /// m-cycles since the current frame began.
    pub m_cycle_counter: u32,
    /// m-cycles ticked since power-on.
    pub total_m_cycles: u64,
}

impl GbMmu {
    pub open spec fn wf(&self) -> bool {
        &&& self.io_bus.wf()
        &&& self.external_memory_bus.wf()
        &&& self.hram@.len() == HRAM_SIZE
        &&& (self.io_bus.oam_dma_remaining == 0 <==> self.occupied_access_bus.is_none())
    }

    /// The whole machine state except the boot ROM is untouched by the CPU's
    /// access: used for dropped writes.
    pub open spec fn same_memory(&self, other: &GbMmu) -> bool {
        &&& self.external_memory_bus.wram == other.external_memory_bus.wram
        &&& self.external_memory_bus.mbc == other.external_memory_bus.mbc
        &&& self.io_bus.ppu.vram == other.io_bus.ppu.vram
        &&& self.io_bus.ppu.oam == other.io_bus.ppu.oam
        &&& self.hram == other.hram
    }

    /// What a read of `address` returns with no bus held and no PPU gating.
    pub open spec fn unprotected_value(&self, address: u16) -> u8 {
        if address < 0x8000 {
            self.external_memory_bus.value(address)
        } else if address < 0xA000 {
            self.io_bus.ppu.vram.byte(self.io_bus.ppu.vram.bank(), address - 0x8000)
        } else if address < 0xFE00 {
            self.external_memory_bus.value(address)
        } else if address < 0xFEA0 {
            self.io_bus.ppu.oam@[address - 0xFE00]
        } else if address < 0xFF00 {
            0
        } else if address == 0xFF50 || address == 0xFF70 {
            self.external_memory_bus.value(address)
        } else if address < 0xFF80 {
            self.io_bus.port_value((address - 0xFF00) as u16)
        } else if address < 0xFFFF {
            self.hram@[address - 0xFF80]
        } else {
            self.io_bus.interrupt_handler.interrupt_enable_flag
        }
    }

    /// The byte OAM DMA copies from `address`: VRAM, cartridge or WRAM, else
    /// 0xFF.
    pub open spec fn dma_source_value(&self, address: u16) -> u8 {
        if 0x8000 <= address < 0xA000 {
            self.io_bus.ppu.vram.byte(self.io_bus.ppu.vram.bank(), address - 0x8000)
        } else {
            self.external_memory_bus.source_value(address)
        }
    }

    /// OAM after DMA went from `remaining` to `new_remaining` bytes left:
    /// the bytes in between were copied from their source.
    pub open spec fn oam_dma_copied(&self, after: &GbMmu) -> bool {
        let start = OAM_DMA_LENGTH - self.io_bus.oam_dma_remaining;
        let end = OAM_DMA_LENGTH - after.io_bus.oam_dma_remaining;
        &&& after.io_bus.ppu.oam@.len() == self.io_bus.ppu.oam@.len()
        &&& forall|i: int| start <= i < end ==> #[trigger] after.io_bus.ppu.oam@[i] == self.dma_source_value(
            ((self.io_bus.oam_dma_source + i) % 0x10000) as u16)
        &&& forall|i: int| 0 <= i < 160 && !(start <= i < end) ==> #[trigger] after.io_bus.ppu.oam@[i]
            == self.io_bus.ppu.oam@[i]
    }

    /// What a CPU read of `address` returns: 0xFF where a DMA holds the bus
    /// or the PPU holds VRAM or OAM, else the memory behind it.
    pub open spec fn peek(&self, address: u16) -> u8 {
        match self.occupied_access_bus {
            Some(bus) => if locked(bus, address) { BAD_READ_VALUE } else { self.unprotected_value(address) },
            None => if 0x8000 <= address < 0xA000 && self.io_bus.ppu.state == PpuState::PixelTransfer {
                BAD_READ_VALUE
            } else if 0xFE00 <= address < 0xFEA0 && (self.io_bus.ppu.state == PpuState::PixelTransfer
                || self.io_bus.ppu.state == PpuState::OamSearch) {
                BAD_READ_VALUE
            } else {
                self.unprotected_value(address)
            },
        }
    }

    pub fn new_with_bootrom(mbc: Mbc, boot_rom: Vec<u8>) -> (m: Self)
        requires
            boot_rom@.len() == BOOT_ROM_SIZE || boot_rom@.len() == GBC_BOOT_ROM_SIZE,
        ensures
            m.wf(),
            m.external_memory_bus.boot_register == 0,
            m.external_memory_bus.boot_rom == Some(boot_rom),
            m.occupied_access_bus.is_none(),
            m.io_bus.oam_dma_remaining == 0,
            m.external_memory_bus.mbc == mbc,
            m.total_m_cycles == 0,
            m.m_cycle_counter == 0,
    {
        let cgb_mode = mbc.is_cgb_mode();
        GbMmu {
            io_bus: IoBus::new(cgb_mode),
            external_memory_bus: ExternalMemoryBus::new(mbc, Some(boot_rom)),
            occupied_access_bus: None,
            hram: vec![0u8; HRAM_SIZE],
            m_cycle_counter: 0,
            total_m_cycles: 0,
        }
    }

    /// A machine without boot ROM, in the state the boot ROM leaves: BOOT
    /// set, LCD on with the usual palette.
    pub fn new(mbc: Mbc) -> (m: Self)
        ensures
            m.wf(),
            m.external_memory_bus.boot_register == 1,
            m.external_memory_bus.boot_rom.is_none(),
            m.occupied_access_bus.is_none(),
            m.io_bus.oam_dma_remaining == 0,
            m.external_memory_bus.mbc == mbc,
            m.io_bus.ppu.lcd_on(),
            m.io_bus.ppu.frame_pos() == 0,
            m.total_m_cycles == 0,
            m.m_cycle_counter == 0,
    {
        let cgb_mode = mbc.is_cgb_mode();
        let mut mmu = GbMmu {
            io_bus: IoBus::new(cgb_mode),
            external_memory_bus: ExternalMemoryBus::new(mbc, None),
            occupied_access_bus: None,
            hram: vec![0u8; HRAM_SIZE],
            m_cycle_counter: 0,
            total_m_cycles: 0,
        };
        mmu.external_memory_bus.write(BOOT_REGISTER_ADDRESS, 1);
        handle_bg_pallet_register(0xFC, &mut mmu.io_bus.ppu.bg_color_mapping, &mut mmu.io_bus.ppu.bg_palette_register);
        assert(0x91u8 & (1u8 << 7u8) != 0 && 0u8 & (1u8 << 7u8) == 0) by (bit_vector);
        handle_lcdcontrol_register(0x91, &mut mmu.io_bus.ppu);
        mmu
    }

    /// A CPU read. While a DMA holds a bus, its addresses read 0xFF; VRAM
    /// reads 0xFF during pixel transfer and OAM during OAM search and pixel
    /// transfer; 0xFEA0-0xFEFF reads 0.
    pub fn read(&self, address: u16) -> (r: u8)
        requires
            self.wf(),
        ensures
            r == self.peek(address),
            !(self.occupied_access_bus.is_some() && locked(self.occupied_access_bus.unwrap(), address))
                && 0xFF00 <= address < 0xFF80 && address != BOOT_REGISTER_ADDRESS && address != 0xFF70
                ==> r == self.io_bus.port_value((address - 0xFF00) as u16),
            !(self.occupied_access_bus.is_some() && locked(self.occupied_access_bus.unwrap(), address))
                && address == BOOT_REGISTER_ADDRESS ==> r == self.external_memory_bus.boot_register,
            self.occupied_access_bus.is_some() && locked(self.occupied_access_bus.unwrap(), address) ==> r == BAD_READ_VALUE,
            self.occupied_access_bus.is_none() && 0x8000 <= address < 0xA000
                && self.io_bus.ppu.state == PpuState::PixelTransfer ==> r == BAD_READ_VALUE,
            self.occupied_access_bus.is_none() && 0xFE00 <= address < 0xFEA0 && (self.io_bus.ppu.state
                == PpuState::PixelTransfer || self.io_bus.ppu.state == PpuState::OamSearch) ==> r == BAD_READ_VALUE,
            !(self.occupied_access_bus.is_some() && locked(self.occupied_access_bus.unwrap(), address)) ==> {
                &&& address < 0x8000 && self.external_memory_bus.boot_rom_maps(address)
                    ==> r == self.external_memory_bus.boot_rom.unwrap()@[address as int]
                &&& address < 0x4000 && !self.external_memory_bus.boot_rom_maps(address)
                    ==> r == rom_at(self.external_memory_bus.mbc.program()@, address as int)
                &&& 0x4000 <= address < 0x8000 && !self.external_memory_bus.boot_rom_maps(address) ==> r == rom_at(
                    self.external_memory_bus.mbc.program()@, self.external_memory_bus.mbc.rom_bank() * 0x4000 + (address - 0x4000))
                &&& 0x8000 <= address < 0xA000 && self.io_bus.ppu.state != PpuState::PixelTransfer
                    ==> r == self.io_bus.ppu.vram.byte(self.io_bus.ppu.vram.bank(), address - 0x8000)
                &&& 0xFE00 <= address < 0xFEA0 && self.io_bus.ppu.state != PpuState::PixelTransfer
                    && self.io_bus.ppu.state != PpuState::OamSearch ==> r == self.io_bus.ppu.oam@[address - 0xFE00]
                &&& 0xA000 <= address < 0xC000 ==> r == self.external_memory_bus.mbc.external_ram_value(address - 0xA000)
                &&& 0xC000 <= address < 0xFE00 ==> r == self.external_memory_bus.wram@[wram_index(
                    self.external_memory_bus.wram_bank, address)]
                &&& 0xFEA0 <= address < 0xFF00 ==> r == 0
                &&& 0xFF80 <= address < 0xFFFF ==> r == self.hram@[address - 0xFF80]
                &&& address == 0xFFFF ==> r == self.io_bus.interrupt_handler.interrupt_enable_flag
            },
    {
        match self.occupied_access_bus {
            Some(bus) => {
                if Self::is_locked(bus, address) {
                    return Self::bad_dma_read(address);
                }
                self.read_unprotected(address)
            },
            None => {
                if 0x8000 <= address && address < 0xA000 {
                    if self.is_vram_ready_for_io() {
                        self.read_unprotected(address)
                    } else {
                        BAD_READ_VALUE
                    }
                } else if 0xFE00 <= address && address < 0xFEA0 {
                    if self.is_oam_ready_for_io() {
                        self.read_unprotected(address)
                    } else {
                        BAD_READ_VALUE
                    }
                } else {
                    self.read_unprotected(address)
                }
            },
        }
    }

    /// A CPU write, dropped where a read would be cut off.
    pub fn write(&mut self, address: u16, value: u8)
        requires
            old(self).wf(),
        ensures
            final(self).wf(),
            final(self).io_bus.joypad_buttons == old(self).io_bus.joypad_buttons,
            final(self).total_m_cycles == old(self).total_m_cycles,
            final(self).m_cycle_counter == old(self).m_cycle_counter,
            old(self).occupied_access_bus.is_some() && locked(old(self).occupied_access_bus.unwrap(), address)
                ==> final(self).same_memory(old(self)),
            old(self).occupied_access_bus.is_none() && 0x8000 <= address < 0xA000
                && old(self).io_bus.ppu.state == PpuState::PixelTransfer ==> final(self).same_memory(old(self)),
            !(old(self).occupied_access_bus.is_some() && locked(old(self).occupied_access_bus.unwrap(), address)) ==> {
                &&& 0xC000 <= address < 0xFE00 ==> final(self).external_memory_bus.wram@ == old(
                    self,
                ).external_memory_bus.wram@.update(wram_index(old(self).external_memory_bus.wram_bank, address), value)
                &&& 0xFF80 <= address < 0xFFFF ==> final(self).hram@ == old(self).hram@.update(address - 0xFF80, value)
                &&& address == 0xFFFF ==> final(self).io_bus.interrupt_handler.interrupt_enable_flag == value
            },
            address == BOOT_REGISTER_ADDRESS && old(self).external_memory_bus.boot_register != 0
                ==> final(self).external_memory_bus.boot_register == old(self).external_memory_bus.boot_register,
            address == BOOT_REGISTER_ADDRESS && old(self).external_memory_bus.boot_register == 0
                && !(old(self).occupied_access_bus.is_some() && locked(old(self).occupied_access_bus.unwrap(), address))
                ==> final(self).external_memory_bus.boot_register == value,
            !(old(self).occupied_access_bus.is_some() && locked(old(self).occupied_access_bus.unwrap(), address))
                && 0x8000 <= address < 0xA000 && (old(self).occupied_access_bus.is_some() || old(self).io_bus.ppu.state
                != PpuState::PixelTransfer) ==> final(self).io_bus.ppu.vram.byte(old(self).io_bus.ppu.vram.bank(), address - 0x8000)
                == value,
            !(old(self).occupied_access_bus.is_some() && locked(old(self).occupied_access_bus.unwrap(), address))
                && 0xFE00 <= address < 0xFEA0 && (old(self).occupied_access_bus.is_some() || (old(self).io_bus.ppu.state
                != PpuState::PixelTransfer && old(self).io_bus.ppu.state != PpuState::OamSearch)) ==> final(self).io_bus.ppu.oam@ == old(self).io_bus.ppu.oam@.update(address - 0xFE00, value),
            0xFEA0 <= address < 0xFF00 ==> *final(self) == *old(self),
            address < 0x8000 ==> final(self).external_memory_bus.mbc.program() == old(self).external_memory_bus.mbc.program(),
            !(old(self).occupied_access_bus.is_some() && locked(old(self).occupied_access_bus.unwrap(), address))
                && address < 0x8000 ==> old(self).external_memory_bus.mbc.rom_write_effect(
                final(self).external_memory_bus.mbc, address, value),
            !(old(self).occupied_access_bus.is_some() && locked(old(self).occupied_access_bus.unwrap(), address))
                && address < 0x8000 && old(self).external_memory_bus.mbc is Mbc1 && 0x2000 <= address < 0x4000
                ==> final(self).external_memory_bus.mbc.rom_bank() == mbc1_bank(value,
                old(self).external_memory_bus.mbc->Mbc1_0.bank_hi2, old(self).external_memory_bus.mbc->Mbc1_0.ram_mode),
            0xFF00 <= address < 0xFF80 ==> final(self).external_memory_bus.wram@ == old(self).external_memory_bus.wram@
                && final(self).hram == old(self).hram,
            address != 0xFF46 ==> final(self).occupied_access_bus == old(self).occupied_access_bus
                && final(self).io_bus.oam_dma_remaining == old(self).io_bus.oam_dma_remaining,
            address == 0xFF46 ==> final(self).io_bus.oam_dma_remaining == 160 && final(self).io_bus.oam_dma_source
                == value as int * 256 && final(self).occupied_access_bus == Some(if 0x80 <= value < 0xA0 {
                AccessBus::Video
            } else {
                AccessBus::External
            }),
    {
        match self.occupied_access_bus {
            Some(bus) => {
                if Self::is_locked(bus, address) {
                    Self::bad_dma_write(address);
                } else {
                    self.write_unprotected(address, value);
                }
            },
            None => {
                if 0x8000 <= address && address < 0xA000 {
                    if self.is_vram_ready_for_io() {
                        self.write_unprotected(address, value);
                    }
                } else if 0xFE00 <= address && address < 0xFEA0 {
                    if self.is_oam_ready_for_io() {
                        self.write_unprotected(address, value);
                    }
                } else {
                    self.write_unprotected(address, value);
                }
            },
        }
    }

    fn is_locked(bus: AccessBus, address: u16) -> (r: bool)
        ensures
            r == locked(bus, address),
    {
        match bus {
            AccessBus::External => address < 0x8000 || (0xA000 <= address && address < 0xFEA0),
            AccessBus::Video => (0x8000 <= address && address < 0xA000) || (0xFE00 <= address && address < 0xFEA0),
        }
    }

    pub fn read_unprotected(&self, address: u16) -> (r: u8)
        requires
            self.wf(),
        ensures
            r == self.unprotected_value(address),
            address < 0x8000 && self.external_memory_bus.boot_rom_maps(address)
                ==> r == self.external_memory_bus.boot_rom.unwrap()@[address as int],
            address < 0x4000 && !self.external_memory_bus.boot_rom_maps(address)
                ==> r == rom_at(self.external_memory_bus.mbc.program()@, address as int),
            0x4000 <= address < 0x8000 && !self.external_memory_bus.boot_rom_maps(address) ==> r == rom_at(
                self.external_memory_bus.mbc.program()@, self.external_memory_bus.mbc.rom_bank() * 0x4000 + (address - 0x4000)),
            0x8000 <= address < 0xA000 ==> r == self.io_bus.ppu.vram.byte(self.io_bus.ppu.vram.bank(), address - 0x8000),
            0xFE00 <= address < 0xFEA0 ==> r == self.io_bus.ppu.oam@[address - 0xFE00],
            0xA000 <= address < 0xC000 ==> r == self.external_memory_bus.mbc.external_ram_value(address - 0xA000),
            0xC000 <= address < 0xFE00 ==> r == self.external_memory_bus.wram@[wram_index(
                self.external_memory_bus.wram_bank, address)],
            0xFEA0 <= address < 0xFF00 ==> r == 0,
            0xFF80 <= address < 0xFFFF ==> r == self.hram@[address - 0xFF80],
            address == 0xFFFF ==> r == self.io_bus.interrupt_handler.interrupt_enable_flag,
            address == BOOT_REGISTER_ADDRESS ==> r == self.external_memory_bus.boot_register,
    {
        if address < 0x8000 {
            self.external_memory_bus.read(address)
        } else if address < 0xA000 {
            self.io_bus.ppu.vram.read_current_bank(address - 0x8000)
        } else if address < 0xFE00 {
            self.external_memory_bus.read(address)
        } else if address < 0xFEA0 {
            self.io_bus.ppu.oam[(address - 0xFE00) as usize]
        } else if address < 0xFF00 {
            0
        } else if address == 0xFF50 || address == 0xFF70 {
            self.external_memory_bus.read(address)
        } else if address < 0xFF80 {
            self.io_bus.read(address - 0xFF00)
        } else if address < 0xFFFF {
            self.hram[(address - 0xFF80) as usize]
        } else {
            self.io_bus.interrupt_handler.interrupt_enable_flag
        }
    }

    pub fn write_unprotected(&mut self, address: u16, value: u8)
        requires
            old(self).wf(),
        ensures
            final(self).wf(),
            final(self).io_bus.joypad_buttons == old(self).io_bus.joypad_buttons,
            final(self).total_m_cycles == old(self).total_m_cycles,
            final(self).m_cycle_counter == old(self).m_cycle_counter,
            0xC000 <= address < 0xFE00 ==> final(self).external_memory_bus.wram@ == old(
                self,
            ).external_memory_bus.wram@.update(wram_index(old(self).external_memory_bus.wram_bank, address), value),
            0xFF80 <= address < 0xFFFF ==> final(self).hram@ == old(self).hram@.update(address - 0xFF80, value),
            address == 0xFFFF ==> final(self).io_bus.interrupt_handler.interrupt_enable_flag == value,
            address == BOOT_REGISTER_ADDRESS ==> final(self).external_memory_bus.boot_register == if old(
                self,
            ).external_memory_bus.boot_register != 0 {
                old(self).external_memory_bus.boot_register
            } else {
                value
            },
            address != BOOT_REGISTER_ADDRESS ==> final(self).external_memory_bus.boot_register
                == old(self).external_memory_bus.boot_register,
            0x8000 <= address < 0xA000 ==> final(self).io_bus.ppu.vram.byte(old(self).io_bus.ppu.vram.bank(), address - 0x8000)
                == value,
            0xFE00 <= address < 0xFEA0 ==> final(self).io_bus.ppu.oam@ == old(self).io_bus.ppu.oam@.update(address - 0xFE00, value),
            0xFEA0 <= address < 0xFF00 ==> *final(self) == *old(self),
            address < 0x8000 ==> final(self).external_memory_bus.mbc.program() == old(self).external_memory_bus.mbc.program(),
            address < 0x8000 ==> old(self).external_memory_bus.mbc.rom_write_effect(final(self).external_memory_bus.mbc,
                address, value),
            address < 0x8000 && old(self).external_memory_bus.mbc is Mbc1 && 0x2000 <= address < 0x4000
                ==> final(self).external_memory_bus.mbc.rom_bank() == mbc1_bank(value,
                old(self).external_memory_bus.mbc->Mbc1_0.bank_hi2, old(self).external_memory_bus.mbc->Mbc1_0.ram_mode),
            0xFF00 <= address < 0xFF80 ==> final(self).external_memory_bus.wram@ == old(self).external_memory_bus.wram@
                && final(self).hram == old(self).hram,
            address != 0xFF46 ==> final(self).occupied_access_bus == old(self).occupied_access_bus
                && final(self).io_bus.oam_dma_remaining == old(self).io_bus.oam_dma_remaining,
            address == 0xFF46 ==> final(self).io_bus.oam_dma_remaining == 160 && final(self).io_bus.oam_dma_source
                == value as int * 256 && final(self).occupied_access_bus == Some(if 0x80 <= value < 0xA0 {
                AccessBus::Video
            } else {
                AccessBus::External
            }),
    {
        if address < 0x8000 {
            self.external_memory_bus.write(address, value);
        } else if address < 0xA000 {
            self.io_bus.ppu.vram.write_current_bank(address - 0x8000, value);
        } else if address < 0xFE00 {
            self.external_memory_bus.write(address, value);
        } else if address < 0xFEA0 {
            self.io_bus.ppu.oam.set((address - 0xFE00) as usize, value);
        } else if address < 0xFF00 {
        } else if address == 0xFF50 || address == 0xFF70 {
            self.external_memory_bus.write(address, value);
        } else if address < 0xFF80 {
            self.io_bus.write(address - 0xFF00, value);
            if address == 0xFF46 {
                self.occupied_access_bus = Some(if 0x80 <= value && value < 0xA0 {
                    AccessBus::Video
                } else {
                    AccessBus::External
                });
            }
        } else if address < 0xFFFF {
            self.hram.set((address - 0xFF80) as usize, value);
        } else {
            self.io_bus.interrupt_handler.interrupt_enable_flag = value;
        }
    }

    /// Advances DMA, then the PPU, APU and timer by `m_cycles` m-cycles.
    pub fn cycle(&mut self, m_cycles: u8, double_speed_mode: bool)
        requires
            old(self).wf(),
        ensures
            bus_advanced(*old(self), *final(self), m_cycles, double_speed_mode),
            final(self).wf(),
            final(self).total_m_cycles == (old(self).total_m_cycles + m_cycles) % 0x1_0000_0000_0000_0000,
            final(self).m_cycle_counter == (old(self).m_cycle_counter + m_cycles) % 0x1_0000_0000,
            final(self).io_bus.ppu.lcd_control == old(self).io_bus.ppu.lcd_control,
            final(self).io_bus.joypad_buttons == old(self).io_bus.joypad_buttons,
            final(self).io_bus.apu.samples_produced == (old(self).io_bus.apu.samples_produced + 4 * (if double_speed_mode {
                m_cycles / 2
            } else {
                m_cycles
            })) % 0x1_0000_0000_0000_0000,
            old(self).io_bus.ppu.lcd_on() ==> final(self).io_bus.ppu.frame_pos() == (old(self).io_bus.ppu.frame_pos()
                + if double_speed_mode { (m_cycles / 2) as int } else { m_cycles as int }) % 17556,
            old(self).io_bus.oam_dma_remaining <= m_cycles ==> final(self).occupied_access_bus.is_none(),
            old(self).io_bus.oam_dma_remaining > m_cycles ==> final(self).occupied_access_bus
                == old(self).occupied_access_bus,
            // OAM DMA copied one byte per m-cycle
            final(self).io_bus.oam_dma_remaining == if old(self).io_bus.oam_dma_remaining <= m_cycles { 0 } else {
                old(self).io_bus.oam_dma_remaining - m_cycles
            },
            old(self).oam_dma_copied(final(self)),
            final(self).external_memory_bus.wram@ == old(self).external_memory_bus.wram@,
            final(self).hram == old(self).hram,
    {
        let key1 = self.io_bus.speed_switch_register;
        self.io_bus.speed_switch_register = if double_speed_mode { key1 | 0x80 } else { key1 & 0x7F };
        self.cycle_oam_dma(m_cycles as u32);
        let ghost ppu_before = self.io_bus.ppu;
        self.io_bus.vram_dma.cycle(m_cycles as u32, &self.external_memory_bus, &mut self.io_bus.ppu);
        self.io_bus.cycle(m_cycles as u32, double_speed_mode);
        self.m_cycle_counter = self.m_cycle_counter.wrapping_add(m_cycles as u32);
        self.total_m_cycles = self.total_m_cycles.wrapping_add(m_cycles as u64);
    }

    /// OAM DMA: one byte per m-cycle from the source page into OAM; the bus
    /// is released after the 160th.
    fn cycle_oam_dma(&mut self, m_cycles: u32)
        requires
            old(self).wf(),
            m_cycles <= 0xFF,
        ensures
            final(self).wf(),
            final(self).total_m_cycles == old(self).total_m_cycles,
            final(self).m_cycle_counter == old(self).m_cycle_counter,
            final(self).io_bus.ppu.lcd_control == old(self).io_bus.ppu.lcd_control,
            final(self).io_bus.ppu.frame_pos() == old(self).io_bus.ppu.frame_pos(),
            final(self).io_bus.ppu.state == old(self).io_bus.ppu.state,
            final(self).io_bus.ppu.cgb_mode == old(self).io_bus.ppu.cgb_mode,
            final(self).io_bus.speed_switch_register == old(self).io_bus.speed_switch_register,
            final(self).io_bus.joypad_buttons == old(self).io_bus.joypad_buttons,
            final(self).io_bus.apu == old(self).io_bus.apu,
            old(self).io_bus.oam_dma_remaining <= m_cycles ==> final(self).occupied_access_bus.is_none(),
            old(self).io_bus.oam_dma_remaining > m_cycles ==> final(self).occupied_access_bus
                == old(self).occupied_access_bus,
            final(self).io_bus.oam_dma_remaining == if old(self).io_bus.oam_dma_remaining <= m_cycles { 0 } else {
                old(self).io_bus.oam_dma_remaining - m_cycles
            },
            old(self).oam_dma_copied(final(self)),
            final(self).external_memory_bus == old(self).external_memory_bus,
            final(self).hram == old(self).hram,
            final(self).io_bus.ppu.vram == old(self).io_bus.ppu.vram,
            final(self).io_bus.oam_dma_source == old(self).io_bus.oam_dma_source,
    {
        let mut i: u32 = 0;
        while i < m_cycles && self.io_bus.oam_dma_remaining > 0
            invariant
                self.io_bus.wf(),
                self.external_memory_bus.wf(),
                self.hram@.len() == HRAM_SIZE,
                self.io_bus.oam_dma_remaining > 0 ==> self.occupied_access_bus.is_some(),
                i <= m_cycles,
                old(self).io_bus.oam_dma_remaining <= m_cycles ==> self.io_bus.oam_dma_remaining
                    + i <= old(self).io_bus.oam_dma_remaining || self.io_bus.oam_dma_remaining == 0,
                self.total_m_cycles == old(self).total_m_cycles,
                self.m_cycle_counter == old(self).m_cycle_counter,
                self.io_bus.ppu.lcd_control == old(self).io_bus.ppu.lcd_control,
                self.io_bus.ppu.frame_pos() == old(self).io_bus.ppu.frame_pos(),
                self.io_bus.ppu.state == old(self).io_bus.ppu.state,
                self.io_bus.ppu.cgb_mode == old(self).io_bus.ppu.cgb_mode,
                self.io_bus.speed_switch_register == old(self).io_bus.speed_switch_register,
                self.io_bus.joypad_buttons == old(self).io_bus.joypad_buttons,
                self.io_bus.apu == old(self).io_bus.apu,
                self.io_bus.oam_dma_remaining == if old(self).io_bus.oam_dma_remaining <= i { 0 } else {
                    old(self).io_bus.oam_dma_remaining - i
                },
                self.io_bus.oam_dma_remaining > 0 ==> i == old(self).io_bus.oam_dma_remaining - self.io_bus.oam_dma_remaining,
                old(self).oam_dma_copied(self),
                old(self).io_bus.oam_dma_remaining <= OAM_DMA_LENGTH,
                self.occupied_access_bus == old(self).occupied_access_bus,
                self.external_memory_bus == old(self).external_memory_bus,
                self.hram == old(self).hram,
                self.io_bus.ppu.vram == old(self).io_bus.ppu.vram,
                self.io_bus.oam_dma_source == old(self).io_bus.oam_dma_source,
            decreases m_cycles - i,
        {
            let index = OAM_DMA_LENGTH - self.io_bus.oam_dma_remaining;
            let source = self.io_bus.oam_dma_source.wrapping_add(index);
            let value = if 0x8000 <= source && source < 0xA000 {
                self.io_bus.ppu.vram.read_current_bank(source - 0x8000)
            } else {
                self.external_memory_bus.read_source(source)
            };
            let ghost before = *self;
            assert(source == ((old(self).io_bus.oam_dma_source + index) % 0x10000) as u16);
            assert(value == old(self).dma_source_value(source));
            self.io_bus.ppu.oam.set(index as usize, value);
            self.io_bus.oam_dma_remaining = self.io_bus.oam_dma_remaining - 1;
            i = i + 1;
            proof {
                assert(before.io_bus.ppu.oam@.len() == 160);
                assert(self.io_bus.ppu.oam@ == before.io_bus.ppu.oam@.update(index as int, value));
                let start = OAM_DMA_LENGTH - old(self).io_bus.oam_dma_remaining;
                assert forall|k: int| start <= k < index + 1 implies #[trigger] self.io_bus.ppu.oam@[k]
                    == old(self).dma_source_value(((old(self).io_bus.oam_dma_source + k) % 0x10000) as u16) by {
                    if k < index {
                        assert(self.io_bus.ppu.oam@[k] == before.io_bus.ppu.oam@[k]);
                        assert(before.io_bus.ppu.oam@[k] == old(self).dma_source_value(
                            ((old(self).io_bus.oam_dma_source + k) % 0x10000) as u16));
                    } else {
                        assert(k == index);
                        assert(self.io_bus.ppu.oam@[k] == value);
                    }
                }
                assert forall|k: int| 0 <= k < 160 && !(start <= k < index + 1) implies #[trigger] self.io_bus.ppu.oam@[k]
                    == old(self).io_bus.ppu.oam@[k] by {
                    assert(self.io_bus.ppu.oam@[k] == before.io_bus.ppu.oam@[k]);
                    assert(before.io_bus.ppu.oam@[k] == old(self).io_bus.ppu.oam@[k]);
                }
            }
        }
        if self.io_bus.oam_dma_remaining == 0 {
            self.occupied_access_bus = None;
        }
    }

    pub fn handle_interrupts(&self, master_interrupt_enable: bool) -> (r: InterruptRequest)
        requires
            self.wf(),
        ensures
            r == super::interrupts_handler::request_of(self.io_bus.interrupt_handler, master_interrupt_enable),
            ({
                let h = self.io_bus.interrupt_handler;
                &&& h.interrupt_flag & h.interrupt_enable_flag == 0 ==> r == InterruptRequest::NoRequest
                &&& h.interrupt_flag & h.interrupt_enable_flag != 0 && !master_interrupt_enable ==> r
                    == InterruptRequest::Unhalt
            }),
            ({
                let h = self.io_bus.interrupt_handler;
                let pending = h.interrupt_flag & h.interrupt_enable_flag & 0x1F;
                &&& pending == 0 ==> r == InterruptRequest::NoRequest
                &&& pending != 0 && master_interrupt_enable ==> r == InterruptRequest::Interrupt(
                    super::interrupts_handler::highest_priority(pending))
                &&& pending != 0 && !master_interrupt_enable ==> r == InterruptRequest::Unhalt
            }),
    {
        self.io_bus.interrupt_handler.handle_interrupts(master_interrupt_enable)
    }

    pub fn poll_joypad_state(&mut self, buttons: u8)
        requires
            old(self).wf(),
        ensures
            final(self).wf(),
            *final(self) == (GbMmu {
                io_bus: IoBus {
                    joypad_buttons: buttons,
                    interrupt_handler: final(self).io_bus.interrupt_handler,
                    ..old(self).io_bus
                },
                ..*old(self)
            }),
            final(self).io_bus.joypad_buttons == buttons,
            final(self).total_m_cycles == old(self).total_m_cycles,
            final(self).m_cycle_counter == old(self).m_cycle_counter,
            final(self).io_bus.ppu == old(self).io_bus.ppu,
    {
        self.io_bus.poll_joypad_state(buttons);
    }

    pub fn is_oam_ready_for_io(&self) -> (r: bool)
        ensures
            r == (self.io_bus.ppu.state != PpuState::OamSearch && self.io_bus.ppu.state != PpuState::PixelTransfer),
    {
        self.io_bus.ppu.state != PpuState::OamSearch && self.io_bus.ppu.state != PpuState::PixelTransfer
    }

    pub fn is_vram_ready_for_io(&self) -> (r: bool)
        ensures
            r == (self.io_bus.ppu.state != PpuState::PixelTransfer),
    {
        self.io_bus.ppu.state != PpuState::PixelTransfer
    }

    /// An access cut off by DMA reads as open bus.
    pub fn bad_dma_read(address: u16) -> (r: u8)
        ensures
            r == BAD_READ_VALUE,
    {
        BAD_READ_VALUE
    }

    /// A write cut off by DMA is dropped.
    pub fn bad_dma_write(address: u16) {
    }
}

} // verus!
