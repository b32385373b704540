use vstd::prelude::*;
use crate::apu::gb_apu::GbApu;
use crate::apu::registers::{io_wf, update_apu_registers, NR52};
use crate::ppu::gb_ppu::GbPpu;
use crate::ppu::ppu_register_updater::{
    get_stat, get_wx_register, handle_bg_pallet_register, handle_lcdcontrol_register, handle_obp_pallet_register,
    handle_wx_register, handle_wy_register, set_lyc, set_scx, set_scy, update_stat_register,
};
use super::interrupts_handler::InterruptsHandler;
use super::vram_dma_controller::VramDmaController;

verus! {

pub const IO_PORTS_SIZE: usize = 0x80;
pub const OAM_DMA_LENGTH: u16 = 160;

/// The joypad's P1 low nibble (active low) for the rows selected by `select`
/// (bit 4 low: directions, bit 5 low: actions); `buttons` has A, B, Start,
/// Select, Up, Down, Left, Right in bits 0-7, set when pressed.
pub open spec fn joypad_nibble(select: u8, buttons: u8) -> u8 {
    let directions = (if buttons & 0x80 != 0 { 1u8 } else { 0 }) | (if buttons & 0x40 != 0 { 2u8 } else { 0 })
        | (if buttons & 0x10 != 0 { 4u8 } else { 0 }) | (if buttons & 0x20 != 0 { 8u8 } else { 0 });
    let actions = (if buttons & 0x01 != 0 { 1u8 } else { 0 }) | (if buttons & 0x02 != 0 { 2u8 } else { 0 })
        | (if buttons & 0x08 != 0 { 4u8 } else { 0 }) | (if buttons & 0x04 != 0 { 8u8 } else { 0 });
    let pressed = (if select & 0x10 == 0 { directions } else { 0u8 }) | (if select & 0x20 == 0 { actions } else { 0u8 });
    (!pressed) & 0x0F
}

pub fn get_joypad_nibble(select: u8, buttons: u8) -> (r: u8)
    ensures
        r == joypad_nibble(select, buttons),
        r < 16,
{
    let directions: u8 = (if buttons & 0x80 != 0 { 1u8 } else { 0 }) | (if buttons & 0x40 != 0 { 2u8 } else { 0 })
        | (if buttons & 0x10 != 0 { 4u8 } else { 0 }) | (if buttons & 0x20 != 0 { 8u8 } else { 0 });
    let actions: u8 = (if buttons & 0x01 != 0 { 1u8 } else { 0 }) | (if buttons & 0x02 != 0 { 2u8 } else { 0 })
        | (if buttons & 0x08 != 0 { 4u8 } else { 0 }) | (if buttons & 0x04 != 0 { 8u8 } else { 0 });
    let pressed: u8 = (if select & 0x10 == 0 { directions } else { 0u8 }) | (if select & 0x20 == 0 { actions } else { 0u8 });
    let r = (!pressed) & 0x0F;
    assert((!pressed) & 0x0F < 16) by (bit_vector);
    r
}

/// The memory-mapped devices of 0xFF00-0xFF7F.
pub struct IoBus {
    pub ppu: GbPpu,
    pub apu: GbApu,
    pub interrupt_handler: InterruptsHandler,
    pub vram_dma: VramDmaController,
    /// Last value written to each port.
    pub ports: Vec<u8>,
    /// Ports written since the APU last read them.
    pub triggers: Vec<bool>,
    pub oam_dma_source: u16,
    pub oam_dma_remaining: u16,
    pub joypad_select: u8,
    pub joypad_buttons: u8,
    pub div_counter: u16,
    pub tima_counter: u16,
    pub tima: u8,
    pub tma: u8,
    pub tac: u8,
    pub speed_switch_register: u8,
}

impl IoBus {
    pub open spec fn wf(&self) -> bool {
        &&& self.ppu.wf()
        &&& self.apu.wf()
        &&& self.vram_dma.wf()
        &&& io_wf(&self.ports, &self.triggers)
        &&& self.oam_dma_remaining <= OAM_DMA_LENGTH
        &&& self.interrupt_handler.wf()
    }

    pub fn new(cgb_mode: bool) -> (b: Self)
        ensures
            b.wf(),
            b.oam_dma_remaining == 0,
            b.ppu.lcd_control == 0,
            b.ppu.frames_completed == 0,
            b.apu.samples_produced == 0,
            b.interrupt_handler.interrupt_flag == 0,
    {
        IoBus {
            ppu: GbPpu::new(cgb_mode),
            apu: GbApu::new(),
            interrupt_handler: InterruptsHandler::new(),
            vram_dma: VramDmaController::new(),
            ports: vec![0u8; IO_PORTS_SIZE],
            triggers: vec![false; IO_PORTS_SIZE],
            oam_dma_source: 0,
            oam_dma_remaining: 0,
            joypad_select: 0x30,
            joypad_buttons: 0,
            div_counter: 0,
            tima_counter: 0,
            tima: 0,
            tma: 0,
            tac: 0,
            speed_switch_register: 0,
        }
    }

    /// What a read of port `offset` (0xFF00 + offset) returns: the device
    /// register behind it, else the last value written.
    pub open spec fn port_value(&self, offset: u16) -> u8 {
        if offset == 0x00 {
            0xC0 | (self.joypad_select & 0x30) | joypad_nibble(self.joypad_select, self.joypad_buttons)
        } else if offset == 0x04 {
            (self.div_counter / 256) as u8
        } else if offset == 0x05 {
            self.tima
        } else if offset == 0x06 {
            self.tma
        } else if offset == 0x07 {
            self.tac | 0xF8
        } else if offset == 0x0F {
            self.interrupt_handler.interrupt_flag | 0xE0
        } else if offset == 0x26 {
            self.apu.nr52_value()
        } else if offset == 0x40 {
            self.ppu.lcd_control
        } else if offset == 0x41 {
            self.ppu.stat_register | 0x80
        } else if offset == 0x42 {
            self.ppu.bg_pos.y
        } else if offset == 0x43 {
            self.ppu.bg_pos.x
        } else if offset == 0x44 {
            self.ppu.ly_register
        } else if offset == 0x45 {
            self.ppu.lyc_register
        } else if offset == 0x46 {
            (self.oam_dma_source / 256) as u8
        } else if offset == 0x47 {
            self.ppu.bg_palette_register
        } else if offset == 0x48 {
            self.ppu.obj_pallete_0_register
        } else if offset == 0x49 {
            self.ppu.obj_pallete_1_register
        } else if offset == 0x4A {
            self.ppu.window_pos.y
        } else if offset == 0x4B {
            ((self.ppu.window_pos.x + 7) % 256) as u8
        } else if offset == 0x4D {
            self.speed_switch_register
        } else if offset == 0x4F {
            (self.ppu.vram.bank() as u8) | 0xFE
        } else if offset == 0x55 {
            self.vram_dma.mode_length_value()
        } else if offset == 0x68 {
            self.ppu.bg_color_pallete_index
        } else if offset == 0x69 {
            self.ppu.bg_color_ram@[(self.ppu.bg_color_pallete_index % 64) as int]
        } else if offset == 0x6A {
            self.ppu.obj_color_pallete_index
        } else if offset == 0x6B {
            self.ppu.obj_color_ram@[(self.ppu.obj_color_pallete_index % 64) as int]
        } else {
            self.ports@[offset as int]
        }
    }

    /// A read of port `offset` (0xFF00 + offset).
    pub fn read(&self, offset: u16) -> (r: u8)
        requires
            self.wf(),
            offset < 0x80,
        ensures
            r == self.port_value(offset),
    {
        match offset {
            0x00 => 0xC0 | (self.joypad_select & 0x30) | get_joypad_nibble(self.joypad_select, self.joypad_buttons),
            0x04 => (self.div_counter / 256) as u8,
            0x05 => self.tima,
            0x06 => self.tma,
            0x07 => self.tac | 0xF8,
            0x0F => self.interrupt_handler.interrupt_flag | 0xE0,
            0x26 => self.apu.read_nr52(),
            0x40 => self.ppu.lcd_control,
            0x41 => get_stat(&self.ppu) | 0x80,
            0x42 => self.ppu.bg_pos.y,
            0x43 => self.ppu.bg_pos.x,
            0x44 => self.ppu.ly_register,
            0x45 => self.ppu.lyc_register,
            0x46 => (self.oam_dma_source / 256) as u8,
            0x47 => self.ppu.bg_palette_register,
            0x48 => self.ppu.obj_pallete_0_register,
            0x49 => self.ppu.obj_pallete_1_register,
            0x4A => self.ppu.window_pos.y,
            0x4B => get_wx_register(&self.ppu),
            0x4D => self.speed_switch_register,
            0x4F => self.ppu.vram.get_bank() | 0xFE,
            0x55 => self.vram_dma.get_mode_length(),
            0x68 => self.ppu.bg_color_pallete_index,
            0x69 => self.ppu.bg_color_ram[(self.ppu.bg_color_pallete_index % 64) as usize],
            0x6A => self.ppu.obj_color_pallete_index,
            0x6B => self.ppu.obj_color_ram[(self.ppu.obj_color_pallete_index % 64) as usize],
            _ => self.ports[offset as usize],
        }
    }

    /// A write to port `offset` (0xFF00 + offset).
    pub fn write(&mut self, offset: u16, value: u8)
        requires
            old(self).wf(),
            offset < 0x80,
        ensures
            final(self).wf(),
            final(self).ports@[offset as int] == value,
            final(self).triggers@[offset as int],
            offset == 0x46 ==> final(self).oam_dma_remaining == OAM_DMA_LENGTH
                && final(self).oam_dma_source == value as int * 256,
            offset != 0x46 ==> final(self).oam_dma_remaining == old(self).oam_dma_remaining
                && final(self).oam_dma_source == old(self).oam_dma_source,
            offset == 0x0F ==> final(self).interrupt_handler.interrupt_flag == value & 0x1F,
            offset != 0x0F ==> final(self).interrupt_handler.interrupt_flag == old(self).interrupt_handler.interrupt_flag,
            final(self).interrupt_handler.interrupt_enable_flag == old(self).interrupt_handler.interrupt_enable_flag,
            final(self).apu.samples_produced == old(self).apu.samples_produced,
            final(self).joypad_buttons == old(self).joypad_buttons,
    {
        self.ports.set(offset as usize, value);
        self.triggers.set(offset as usize, true);
        match offset {
            0x00 => self.joypad_select = value & 0x30,
            0x04 => self.div_counter = 0,
            0x05 => self.tima = value,
            0x06 => self.tma = value,
            0x07 => self.tac = value & 7,
            0x0F => {
                assert(value & 0x1F < 0x20) by (bit_vector);
                self.interrupt_handler.interrupt_flag = value & 0x1F;
            },
            0x40 => handle_lcdcontrol_register(value, &mut self.ppu),
            0x41 => update_stat_register(value, &mut self.ppu),
            0x42 => set_scy(&mut self.ppu, value),
            0x43 => set_scx(&mut self.ppu, value),
            0x45 => set_lyc(&mut self.ppu, value),
            0x46 => {
                self.oam_dma_source = value as u16 * 256;
                self.oam_dma_remaining = OAM_DMA_LENGTH;
            },
            0x47 => handle_bg_pallet_register(value, &mut self.ppu.bg_color_mapping, &mut self.ppu.bg_palette_register),
            0x48 => handle_obp_pallet_register(value, &mut self.ppu.obj_color_mapping0, &mut self.ppu.obj_pallete_0_register),
            0x49 => handle_obp_pallet_register(value, &mut self.ppu.obj_color_mapping1, &mut self.ppu.obj_pallete_1_register),
            0x4A => handle_wy_register(value, &mut self.ppu),
            0x4B => handle_wx_register(value, &mut self.ppu),
            0x4D => self.speed_switch_register = (self.speed_switch_register & 0x80) | (value & 1),
            0x4F => self.ppu.vram.set_bank(value),
            0x51 => self.vram_dma.set_source_high(value),
            0x52 => self.vram_dma.set_source_low(value),
            0x53 => self.vram_dma.set_dest_high(value),
            0x54 => self.vram_dma.set_dest_low(value),
            0x55 => self.vram_dma.set_mode_length(value),
            0x68 => self.ppu.bg_color_pallete_index = value,
            0x69 => {
                let index = self.ppu.bg_color_pallete_index;
                self.ppu.bg_color_ram.set((index % 64) as usize, value);
                if index >= 0x80 {
                    self.ppu.bg_color_pallete_index = 0x80 | ((index % 64 + 1) % 64);
                }
            },
            0x6A => self.ppu.obj_color_pallete_index = value,
            0x6B => {
                let index = self.ppu.obj_color_pallete_index;
                self.ppu.obj_color_ram.set((index % 64) as usize, value);
                if index >= 0x80 {
                    self.ppu.obj_color_pallete_index = 0x80 | ((index % 64 + 1) % 64);
                }
            },
            _ => {},
        }
    }

    /// Advances the timer by `m_cycles` m-cycles at the CPU's rate; a TIMA
    /// overflow reloads TMA and raises the Timer request (IF bit 2).
    pub fn cycle_timer(&mut self, m_cycles: u32)
        requires
            old(self).wf(),
            m_cycles <= 0x10000,
        ensures
            final(self).wf(),
            final(self).interrupt_handler.interrupt_flag & !4u8 == old(self).interrupt_handler.interrupt_flag & !4u8,
            final(self).ppu == old(self).ppu,
            final(self).apu == old(self).apu,
            final(self).oam_dma_remaining == old(self).oam_dma_remaining,
            final(self).div_counter == (old(self).div_counter + 4 * m_cycles) % 0x10000,
            final(self).joypad_buttons == old(self).joypad_buttons,
            final(self).oam_dma_source == old(self).oam_dma_source,
            final(self).interrupt_handler.interrupt_enable_flag == old(self).interrupt_handler.interrupt_enable_flag,
    {
        let mut i: u32 = 0;
        while i < m_cycles
            invariant
                self.wf(),
                i <= m_cycles,
                self.interrupt_handler.interrupt_flag & !4u8 == old(self).interrupt_handler.interrupt_flag & !4u8,
                self.ppu == old(self).ppu,
                self.apu == old(self).apu,
                self.oam_dma_remaining == old(self).oam_dma_remaining,
                self.div_counter == (old(self).div_counter + 4 * i) % 0x10000,
                self.joypad_buttons == old(self).joypad_buttons,
                self.oam_dma_source == old(self).oam_dma_source,
                self.interrupt_handler.interrupt_enable_flag == old(self).interrupt_handler.interrupt_enable_flag,
            decreases m_cycles - i,
        {
            self.tick_timer();
            i = i + 1;
        }
    }

    /// One m-cycle of the timer: DIV counts 4 T-cycles; while TAC bit 2 is
    /// set TIMA counts at the TAC rate, and on overflow it reloads TMA and
    /// raises the Timer request (IF bit 2).
    pub fn tick_timer(&mut self)
        requires
            old(self).wf(),
        ensures
            final(self).wf(),
            final(self).div_counter == (old(self).div_counter + 4) % 0x10000,
            final(self).interrupt_handler.interrupt_flag & !4u8 == old(self).interrupt_handler.interrupt_flag & !4u8,
            final(self).ppu == old(self).ppu,
            final(self).apu == old(self).apu,
            final(self).oam_dma_remaining == old(self).oam_dma_remaining,
            final(self).joypad_buttons == old(self).joypad_buttons,
            final(self).oam_dma_source == old(self).oam_dma_source,
            final(self).interrupt_handler.interrupt_enable_flag == old(self).interrupt_handler.interrupt_enable_flag,
            final(self).tma == old(self).tma && final(self).tac == old(self).tac,
            ({
                let period = if old(self).tac % 4 == 0 { 1024int } else if old(self).tac % 4 == 1 { 16 } else if old(
                    self,
                ).tac % 4 == 2 { 64 } else { 256 };
                let count = old(self).tima_counter + 4;
                if old(self).tac & 4 == 0 {
                    final(self).tima == old(self).tima && final(self).tima_counter == old(self).tima_counter
                        && final(self).interrupt_handler.interrupt_flag == old(self).interrupt_handler.interrupt_flag
                } else if count < period {
                    final(self).tima == old(self).tima && final(self).tima_counter == count
                        && final(self).interrupt_handler.interrupt_flag == old(self).interrupt_handler.interrupt_flag
                } else if old(self).tima == 0xFF {
                    final(self).tima == old(self).tma && final(self).tima_counter == 0
                        && final(self).interrupt_handler.interrupt_flag == old(self).interrupt_handler.interrupt_flag | 4
                } else {
                    final(self).tima == old(self).tima + 1 && final(self).tima_counter == 0
                        && final(self).interrupt_handler.interrupt_flag == old(self).interrupt_handler.interrupt_flag
                }
            }),
    {
        self.div_counter = self.div_counter.wrapping_add(4);
        if self.tac & 4 != 0 {
            let period: u16 = if self.tac % 4 == 0 { 1024 } else if self.tac % 4 == 1 { 16 } else if self.tac % 4 == 2 {
                64
            } else {
                256
            };
            let count: u32 = self.tima_counter as u32 + 4;
            if count >= period as u32 {
                self.tima_counter = 0;
                if self.tima == 0xFF {
                    self.tima = self.tma;
                    let f = self.interrupt_handler.interrupt_flag;
                    self.interrupt_handler.interrupt_flag = f | 4;
                    assert((f | 4) & !4u8 == f & !4u8 && (f < 0x20 ==> (f | 4) < 0x20)) by (bit_vector);
                } else {
                    self.tima = self.tima + 1;
                }
            } else {
                self.tima_counter = count as u16;
            }
        }
    }

    /// Sets the pressed buttons; a button that goes down on a selected row
    /// raises the Joypad request (IF bit 4).
    pub fn poll_joypad_state(&mut self, buttons: u8)
        requires
            old(self).wf(),
        ensures
            final(self).wf(),
            *final(self) == (IoBus { joypad_buttons: buttons, interrupt_handler: final(self).interrupt_handler, ..*old(self) }),
            final(self).joypad_buttons == buttons,
            final(self).ppu == old(self).ppu,
            final(self).apu == old(self).apu,
            final(self).oam_dma_remaining == old(self).oam_dma_remaining,
            final(self).interrupt_handler.interrupt_flag & !0x10u8 == old(self).interrupt_handler.interrupt_flag & !0x10u8,
            ({
                let before = joypad_nibble(old(self).joypad_select, old(self).joypad_buttons);
                let after = joypad_nibble(old(self).joypad_select, buttons);
                before & !after != 0 ==> final(self).interrupt_handler.interrupt_flag & 0x10 != 0
            }),
    {
        let before = get_joypad_nibble(self.joypad_select, self.joypad_buttons);
        let after = get_joypad_nibble(self.joypad_select, buttons);
        self.joypad_buttons = buttons;
        if before & !after != 0 {
            let f = self.interrupt_handler.interrupt_flag;
            self.interrupt_handler.interrupt_flag = f | 0x10;
            assert((f | 0x10) & !0x10u8 == f & !0x10u8 && (f | 0x10) & 0x10 != 0 && (f < 0x20 ==> (f | 0x10) < 0x20))
                by (bit_vector);
        }
    }

    /// One MMU step for the devices: sound registers, APU, PPU, timer.
    pub fn cycle(&mut self, m_cycles: u32, double_speed_mode: bool)
        requires
            old(self).wf(),
            m_cycles <= 0x8000,
        ensures
            final(self).wf(),
            final(self).oam_dma_remaining == old(self).oam_dma_remaining,
            final(self).ppu.lcd_control == old(self).ppu.lcd_control,
            final(self).ppu.cgb_mode == old(self).ppu.cgb_mode,
            final(self).joypad_buttons == old(self).joypad_buttons,
            final(self).ppu.oam == old(self).ppu.oam,
            final(self).oam_dma_source == old(self).oam_dma_source,
            final(self).interrupt_handler.interrupt_enable_flag == old(self).interrupt_handler.interrupt_enable_flag,
            final(self).apu.samples_produced == (old(self).apu.samples_produced + 4 * (if double_speed_mode {
                m_cycles / 2
            } else {
                m_cycles
            })) % 0x1_0000_0000_0000_0000,
            old(self).ppu.lcd_on() ==> final(self).ppu.frame_pos() == (old(self).ppu.frame_pos() + if double_speed_mode {
                (m_cycles / 2) as int
            } else {
                m_cycles as int
            }) % 17556,
    {
        update_apu_registers(&mut self.apu, &self.ports, &self.triggers);
        let mut i: usize = 0;
        while i < IO_PORTS_SIZE
            invariant
                self.wf(),
                i <= IO_PORTS_SIZE,
                self.oam_dma_remaining == old(self).oam_dma_remaining,
                self.ppu == old(self).ppu,
                self.joypad_buttons == old(self).joypad_buttons,
                self.oam_dma_source == old(self).oam_dma_source,
                self.interrupt_handler == old(self).interrupt_handler,
                self.apu.samples_produced == old(self).apu.samples_produced,
            decreases IO_PORTS_SIZE - i,
        {
            self.triggers.set(i, false);
            i = i + 1;
        }
        // the PPU and APU keep the base rate in double-speed mode
        let device_cycles: u32 = if double_speed_mode { m_cycles / 2 } else { m_cycles };
        self.apu.cycle(device_cycles);
        let mut if_register = self.interrupt_handler.interrupt_flag;
        let ghost before = if_register;
        let _ = self.ppu.cycle(device_cycles, &mut if_register);
        proof {
            let after = if_register;
            assert(before < 0x20 && (after == before || (after & 0xFC == before & 0xFC)) ==> after < 0x20) by (bit_vector);
        }
        self.interrupt_handler.interrupt_flag = if_register;
        self.cycle_timer(m_cycles);
    }
}

} // verus!
