use vstd::prelude::*;
use crate::ppu::gb_ppu::{GbPpu, PpuState};
use super::external_memory_bus::ExternalMemoryBus;

verus! {

pub const TRANSFER_CHUNK_SIZE: u16 = 0x10;

#[derive(Clone, Copy, PartialEq, Eq, Structural)]
pub enum TransferMode {
    GeneralPurpose,
    Hblank,
    Terminated,
}

/// The GBC VRAM DMA (HDMA1-HDMA5, 0xFF51-0xFF55).
pub struct VramDmaController {
    pub source_address: u16,
    pub dest_address: u16,
    pub mode: TransferMode,
    /// 16-byte chunks left to copy.
    pub remaining_length: u8,
    pub last_ly: u8,
    pub m_cycle_counter: u32,
}

impl VramDmaController {
    pub open spec fn wf(&self) -> bool {
        self.dest_address < 0x2000 && self.m_cycle_counter <= TRANSFER_CHUNK_SIZE
            && (self.mode != TransferMode::Terminated ==> self.remaining_length > 0)
    }

    pub fn new() -> (c: Self)
        ensures
            c.wf(),
            c.mode == TransferMode::Terminated,
    {
        VramDmaController {
            source_address: 0,
            dest_address: 0,
            mode: TransferMode::Terminated,
            remaining_length: 0,
            last_ly: 0,
            m_cycle_counter: 0,
        }
    }

    pub fn set_source_high(&mut self, value: u8)
        ensures
            final(self).source_address == value as int * 256 + old(self).source_address % 256,
            final(self).dest_address == old(self).dest_address,
            final(self).mode == old(self).mode,
            final(self).remaining_length == old(self).remaining_length,
            final(self).m_cycle_counter == old(self).m_cycle_counter,
    {
        self.source_address = (value as u16) * 256 + self.source_address % 256;
    }

    /// The low four bits of the source are ignored.
    pub fn set_source_low(&mut self, value: u8)
        ensures
            final(self).source_address == (old(self).source_address / 256) * 256 + (value / 16) * 16,
            final(self).dest_address == old(self).dest_address,
            final(self).mode == old(self).mode,
            final(self).remaining_length == old(self).remaining_length,
            final(self).m_cycle_counter == old(self).m_cycle_counter,
    {
        self.source_address = (self.source_address / 256) * 256 + ((value / 16) * 16) as u16;
    }

    /// The destination always lies in VRAM: the upper three bits are ignored.
    pub fn set_dest_high(&mut self, value: u8)
        ensures
            final(self).dest_address == (value % 32) as int * 256 + old(self).dest_address % 256,
            final(self).source_address == old(self).source_address,
            final(self).mode == old(self).mode,
            final(self).remaining_length == old(self).remaining_length,
            final(self).m_cycle_counter == old(self).m_cycle_counter,
    {
        self.dest_address = ((value % 32) as u16) * 256 + self.dest_address % 256;
    }

    pub fn set_dest_low(&mut self, value: u8)
        requires
            old(self).dest_address < 0x2000,
        ensures
            final(self).dest_address == (old(self).dest_address / 256) * 256 + (value / 16) * 16,
            final(self).source_address == old(self).source_address,
            final(self).mode == old(self).mode,
            final(self).remaining_length == old(self).remaining_length,
            final(self).m_cycle_counter == old(self).m_cycle_counter,
    {
        self.dest_address = (self.dest_address / 256) * 256 + ((value / 16) * 16) as u16;
    }

    /// HDMA5: starts a transfer of `(value & 0x7F) + 1` chunks, general
    /// purpose when bit 7 is clear, else one chunk per H-Blank; a write while
    /// a transfer runs stops it.
    pub fn set_mode_length(&mut self, value: u8)
        requires
            old(self).wf(),
        ensures
            final(self).wf(),
            old(self).mode != TransferMode::Terminated ==> final(self).mode == TransferMode::Terminated,
            old(self).mode == TransferMode::Terminated ==> {
                &&& final(self).mode == if value < 0x80 { TransferMode::GeneralPurpose } else { TransferMode::Hblank }
                &&& final(self).remaining_length == value % 128 + 1
            },
    {
        match self.mode {
            TransferMode::Hblank | TransferMode::GeneralPurpose => self.mode = TransferMode::Terminated,
            TransferMode::Terminated => {
                self.mode = if value < 0x80 { TransferMode::GeneralPurpose } else { TransferMode::Hblank };
                self.remaining_length = value % 128 + 1;
                self.m_cycle_counter = 0;
            },
        }
    }

    /// HDMA5 as read: chunks left minus one, 0xFF once none is left.
    pub open spec fn mode_length_value(&self) -> u8 {
        if self.remaining_length == 0 { 0xFF } else { (self.remaining_length - 1) as u8 }
    }

    pub fn get_mode_length(&self) -> (r: u8)
        ensures
            r == self.mode_length_value(),
    {
        if self.remaining_length == 0 {
            0xFF
        } else {
            self.remaining_length - 1
        }
    }

    pub fn cycle(&mut self, m_cycles: u32, external_memory_bus: &ExternalMemoryBus, ppu: &mut GbPpu)
        requires
            old(self).wf(),
            old(ppu).wf(),
            external_memory_bus.wf(),
        ensures
            final(self).wf(),
            final(ppu).wf(),
            final(ppu).oam == old(ppu).oam,
            final(ppu).frame_pos() == old(ppu).frame_pos(),
            final(ppu).lcd_control == old(ppu).lcd_control,
            final(ppu).state == old(ppu).state,
            final(ppu).cgb_mode == old(ppu).cgb_mode,
            final(ppu).frames_completed == old(ppu).frames_completed,
            old(self).mode == TransferMode::GeneralPurpose ==> final(self).mode == TransferMode::Terminated
                && final(self).remaining_length == 0,
            old(self).mode == TransferMode::GeneralPurpose ==> forall|i: int| 0 <= i < old(self).remaining_length * 16
                ==> #[trigger] final(ppu).vram.byte(old(ppu).vram.bank(), (old(self).dest_address + i) % 0x2000)
                == external_memory_bus.source_value(((old(self).source_address + i) % 0x10000) as u16),
            old(self).mode == TransferMode::Terminated ==> *final(self) == *old(self) && *final(ppu) == *old(ppu),
    {
        match self.mode {
            TransferMode::Hblank => self.handle_hblank_transfer(ppu, m_cycles, external_memory_bus),
            TransferMode::GeneralPurpose => self.handle_general_purpose_transfer(external_memory_bus, ppu),
            TransferMode::Terminated => {},
        }
    }

    fn copy_byte(&mut self, external_memory_bus: &ExternalMemoryBus, ppu: &mut GbPpu)
        requires
            old(self).wf(),
            old(ppu).wf(),
            external_memory_bus.wf(),
        ensures
            final(self).wf(),
            final(ppu).wf(),
            final(ppu).oam == old(ppu).oam,
            final(ppu).frame_pos() == old(ppu).frame_pos(),
            final(ppu).lcd_control == old(ppu).lcd_control,
            final(ppu).state == old(ppu).state,
            final(ppu).ly_register == old(ppu).ly_register,
            final(ppu).cgb_mode == old(ppu).cgb_mode,
            final(ppu).frames_completed == old(ppu).frames_completed,
            final(self).mode == old(self).mode,
            final(self).remaining_length == old(self).remaining_length,
            final(self).m_cycle_counter == old(self).m_cycle_counter,
            final(self).last_ly == old(self).last_ly,
            final(self).dest_address == (old(self).dest_address + 1) % 0x2000,
            final(self).source_address == (old(self).source_address + 1) % 0x10000,
            final(ppu).vram.bank() == old(ppu).vram.bank(),
            final(ppu).vram.byte(old(ppu).vram.bank(), old(self).dest_address as int) == external_memory_bus.source_value(
                old(self).source_address),
            forall|a: int| 0 <= a < 0x2000 && a != old(self).dest_address ==> #[trigger] final(ppu).vram.byte(
                old(ppu).vram.bank(), a) == old(ppu).vram.byte(old(ppu).vram.bank(), a),
    {
        let value = external_memory_bus.read_source(self.source_address);
        let ghost before = ppu.vram;
        let ghost b0 = ppu.vram.bank();
        ppu.vram.write_current_bank(self.dest_address, value);
        proof {
            assert forall|a: int| 0 <= a < 0x2000 && a != self.dest_address implies #[trigger] ppu.vram.byte(b0, a)
                == before.byte(b0, a) by {
                before.lemma_bank_range();
                assert(!(b0 == before.bank() && a == self.dest_address));
            }
        }
        self.source_address = self.source_address.wrapping_add(1);
        self.dest_address = (self.dest_address + 1) % 0x2000;
    }

    fn handle_general_purpose_transfer(&mut self, external_memory_bus: &ExternalMemoryBus, ppu: &mut GbPpu)
        requires
            old(self).wf(),
            old(ppu).wf(),
            external_memory_bus.wf(),
        ensures
            final(self).wf(),
            final(ppu).wf(),
            final(ppu).oam == old(ppu).oam,
            final(ppu).frame_pos() == old(ppu).frame_pos(),
            final(ppu).lcd_control == old(ppu).lcd_control,
            final(ppu).state == old(ppu).state,
            final(ppu).cgb_mode == old(ppu).cgb_mode,
            final(ppu).frames_completed == old(ppu).frames_completed,
            final(self).mode == TransferMode::Terminated,
            final(self).remaining_length == 0,
            // (len + 1) chunks of 16 bytes land in VRAM, in order
            forall|i: int| 0 <= i < old(self).remaining_length * 16 ==> #[trigger] final(ppu).vram.byte(
                old(ppu).vram.bank(), (old(self).dest_address + i) % 0x2000) == external_memory_bus.source_value(
                ((old(self).source_address + i) % 0x10000) as u16),
    {
        let ghost d0 = self.dest_address as int;
        let ghost s0 = self.source_address as int;
        let ghost bank = ppu.vram.bank();
        while self.remaining_length != 0
            invariant
                self.wf() || self.remaining_length == 0,
                self.dest_address < 0x2000,
                self.m_cycle_counter <= TRANSFER_CHUNK_SIZE,
                ppu.wf(),
                ppu.oam == old(ppu).oam,
                external_memory_bus.wf(),
                ppu.frame_pos() == old(ppu).frame_pos(),
                ppu.lcd_control == old(ppu).lcd_control,
                ppu.state == old(ppu).state,
                ppu.cgb_mode == old(ppu).cgb_mode,
                ppu.frames_completed == old(ppu).frames_completed,
                self.remaining_length <= old(self).remaining_length,
                old(self).remaining_length <= 255,
                ppu.vram.bank() == bank,
                d0 == old(self).dest_address, s0 == old(self).source_address, d0 < 0x2000,
                self.dest_address == (d0 + (old(self).remaining_length - self.remaining_length) * 16) % 0x2000,
                self.source_address == (s0 + (old(self).remaining_length - self.remaining_length) * 16) % 0x10000,
                forall|i: int| 0 <= i < (old(self).remaining_length - self.remaining_length) * 16 ==> #[trigger] ppu.vram.byte(
                    bank, (d0 + i) % 0x2000) == external_memory_bus.source_value(((s0 + i) % 0x10000) as u16),
            decreases self.remaining_length,
        {
            let ghost rl = self.remaining_length;
            let mut i: u16 = 0;
            while i < TRANSFER_CHUNK_SIZE
                invariant
                    self.remaining_length == rl,
                    self.dest_address < 0x2000,
                    self.m_cycle_counter <= TRANSFER_CHUNK_SIZE,
                    self.remaining_length != 0,
                    ppu.wf(),
                    ppu.oam == old(ppu).oam,
                ppu.oam == old(ppu).oam,
                    external_memory_bus.wf(),
                    ppu.frame_pos() == old(ppu).frame_pos(),
                    ppu.lcd_control == old(ppu).lcd_control,
                    ppu.state == old(ppu).state,
                    ppu.cgb_mode == old(ppu).cgb_mode,
                    ppu.frames_completed == old(ppu).frames_completed,
                    i <= TRANSFER_CHUNK_SIZE,
                    rl <= old(self).remaining_length <= 255,
                    ppu.vram.bank() == bank,
                    d0 == old(self).dest_address, s0 == old(self).source_address, d0 < 0x2000,
                    self.dest_address == (d0 + (old(self).remaining_length - rl) * 16 + i) % 0x2000,
                    self.source_address == (s0 + (old(self).remaining_length - rl) * 16 + i) % 0x10000,
                    forall|j: int| 0 <= j < (old(self).remaining_length - rl) * 16 + i ==> #[trigger] ppu.vram.byte(
                        bank, (d0 + j) % 0x2000) == external_memory_bus.source_value(((s0 + j) % 0x10000) as u16),
                decreases TRANSFER_CHUNK_SIZE - i,
            {
                let ghost c = (old(self).remaining_length - rl) * 16 + i;
                let ghost before = ppu.vram;
                self.copy_byte(external_memory_bus, ppu);
                proof {
                    assert forall|j: int| 0 <= j < c + 1 implies #[trigger] ppu.vram.byte(bank, (d0 + j) % 0x2000)
                        == external_memory_bus.source_value(((s0 + j) % 0x10000) as u16) by {
                        if j < c {
                            assert((d0 + j) % 0x2000 != (d0 + c) % 0x2000);
                            assert(before.byte(bank, (d0 + j) % 0x2000) == external_memory_bus.source_value(
                                ((s0 + j) % 0x10000) as u16));
                        }
                    }
                }
                i = i + 1;
            }
            self.remaining_length = self.remaining_length - 1;
        }
        self.mode = TransferMode::Terminated;
    }

    fn handle_hblank_transfer(&mut self, ppu: &mut GbPpu, m_cycles: u32, external_memory_bus: &ExternalMemoryBus)
        requires
            old(self).wf(),
            old(self).mode == TransferMode::Hblank,
            old(ppu).wf(),
            external_memory_bus.wf(),
        ensures
            final(self).wf(),
            final(ppu).wf(),
            final(ppu).oam == old(ppu).oam,
            final(ppu).frame_pos() == old(ppu).frame_pos(),
            final(ppu).lcd_control == old(ppu).lcd_control,
            final(ppu).state == old(ppu).state,
            final(ppu).cgb_mode == old(ppu).cgb_mode,
            final(ppu).frames_completed == old(ppu).frames_completed,
    {
        if ppu.ly_register != self.last_ly && ppu.state == PpuState::Hblank {
            while self.m_cycle_counter < m_cycles && self.m_cycle_counter < TRANSFER_CHUNK_SIZE as u32
                invariant
                    self.wf(),
                    self.mode == TransferMode::Hblank,
                    ppu.wf(),
                    ppu.oam == old(ppu).oam,
                ppu.oam == old(ppu).oam,
                    external_memory_bus.wf(),
                    ppu.frame_pos() == old(ppu).frame_pos(),
                    ppu.lcd_control == old(ppu).lcd_control,
                    ppu.state == old(ppu).state,
                    ppu.ly_register == old(ppu).ly_register,
                    ppu.cgb_mode == old(ppu).cgb_mode,
                    ppu.frames_completed == old(ppu).frames_completed,
                decreases TRANSFER_CHUNK_SIZE - self.m_cycle_counter,
            {
                self.copy_byte(external_memory_bus, ppu);
                self.m_cycle_counter = self.m_cycle_counter + 1;
            }
            if self.m_cycle_counter == TRANSFER_CHUNK_SIZE as u32 {
                self.m_cycle_counter = 0;
                self.last_ly = ppu.ly_register;
                self.remaining_length = self.remaining_length - 1;
                if self.remaining_length == 0 {
                    self.mode = TransferMode::Terminated;
                }
            }
        }
    }
}

} // verus!
