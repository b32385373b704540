use vstd::prelude::*;
use crate::fixed_size_queue::FixedSizeQueue;
use crate::vec2::Vec2;
use super::attributes::{bit_set, is_bit_set, BackgroundAttributes, Pallete};
use super::color::{pixel_of, rgb555, shade, Color, Pixel};
use super::fifo::background_fetcher::BackgroundFetcher;
use super::fifo::fetcher_state_machine::FIFO_SIZE;
use super::fifo::sprite_fetcher::{selected, sorted, sprite_entry, sprite_height, SpriteFetcher, OAM_ENTRIES};
use super::vram::VRam;

verus! {

pub const SCREEN_HEIGHT: usize = 144;
pub const SCREEN_WIDTH: usize = 160;
pub const BUFFERS_NUMBER: usize = 2;
pub const SCREEN_PIXELS: usize = 23040;
pub const OAM_MEMORY_SIZE: usize = 0xA0;

pub const OAM_SEARCH_M_CYCLES_LENGTH: u16 = 20;
pub const HBLANK_M_CYCLES_LENGTH: u16 = 114;
pub const VBLANK_M_CYCLES_LENGTH: u16 = 1140;
/// Pixel transfer lasts at least 172 dots: it ends no earlier than m-cycle
/// 20 + 43 of the line.
pub const PIXEL_TRANSFER_MIN_END: u16 = 63;
/// m-cycles in one frame: 154 lines of 114 m-cycles (456 dots) each.
pub const FRAME_M_CYCLES: u32 = 17556;

#[derive(Clone, Copy, PartialEq, Eq, Structural)]
pub enum PpuState {
    Hblank,
    Vblank,
    OamSearch,
    PixelTransfer,
}

/// The mode number that STAT bits 0-1 report.
pub open spec fn mode_bits(s: PpuState) -> u8 {
    match s {
        PpuState::Hblank => 0,
        PpuState::Vblank => 1,
        PpuState::OamSearch => 2,
        PpuState::PixelTransfer => 3,
    }
}

pub fn state_to_u8(s: PpuState) -> (r: u8)
    ensures
        r == mode_bits(s),
{
    match s {
        PpuState::Hblank => 0,
        PpuState::Vblank => 1,
        PpuState::OamSearch => 2,
        PpuState::PixelTransfer => 3,
    }
}

/// Whether the sprite pixel is drawn over the background pixel. `bg_priority`
/// is the background's own GBC priority attribute, `sprite_behind` the
/// sprite's bg-priority flag.
pub open spec fn sprite_wins(
    cgb_mode: bool,
    lcd_control: u8,
    bg_priority: bool,
    bg_color_num: u8,
    sprite_color_num: u8,
    sprite_behind: bool,
) -> bool {
    &&& !(cgb_mode && bg_priority && bit_set(lcd_control, 0))
    &&& sprite_color_num != 0
    &&& (!sprite_behind || bg_color_num == 0)
}

/// On DMG the screen shows the sprite pixel exactly when its color is not 0
/// and it is either in front of the background or the background pixel has
/// color 0.
pub proof fn lemma_dmg_sprite_priority(lcd_control: u8, bg_color_num: u8, sprite_color_num: u8, sprite_behind: bool)
    ensures
        sprite_wins(false, lcd_control, false, bg_color_num, sprite_color_num, sprite_behind)
            == (sprite_color_num != 0 && (!sprite_behind || bg_color_num == 0)),
        forall|bg_priority: bool| sprite_wins(false, lcd_control, bg_priority, bg_color_num, sprite_color_num, sprite_behind)
            == (sprite_color_num != 0 && (!sprite_behind || bg_color_num == 0)),
{
}

pub fn is_sprite_pixel_visible(
    cgb_mode: bool,
    lcd_control: u8,
    bg_priority: bool,
    bg_color_num: u8,
    sprite_color_num: u8,
    sprite_behind: bool,
) -> (r: bool)
    ensures
        r == sprite_wins(cgb_mode, lcd_control, bg_priority, bg_color_num, sprite_color_num, sprite_behind),
{
    if cgb_mode && bg_priority && is_bit_set(lcd_control, 0) {
        return false;
    }
    sprite_color_num != 0 && (!sprite_behind || bg_color_num == 0)
}

/// The color `pixel` of palette `pallete` in a GBC color RAM.
pub open spec fn color_ram_color(color_ram: Seq<u8>, pallete: u8, pixel: u8) -> Color {
    let i = pallete * 8 + pixel * 2;
    rgb555((color_ram[i] + color_ram[i + 1] * 256) as u16)
}

pub struct GbPpu {
    pub vram: VRam,
    pub oam: Vec<u8>,
    pub state: PpuState,
    pub lcd_control: u8,
    pub stat_register: u8,
    pub lyc_register: u8,
    pub ly_register: u8,
    pub window_pos: Vec2<u8>,
    pub bg_pos: Vec2<u8>,
    pub bg_palette_register: u8,
    pub bg_color_mapping: [Color; 4],
    pub obj_pallete_0_register: u8,
    pub obj_color_mapping0: [Option<Color>; 4],
    pub obj_pallete_1_register: u8,
    pub obj_color_mapping1: [Option<Color>; 4],
    pub bg_color_ram: Vec<u8>,
    pub bg_color_pallete_index: u8,
    pub obj_color_ram: Vec<u8>,
    pub obj_color_pallete_index: u8,
    pub v_blank_interrupt_request: bool,
    pub h_blank_interrupt_request: bool,
    pub oam_search_interrupt_request: bool,
    pub coincidence_interrupt_request: bool,
    pub m_cycles_passed: u16,
    /// Both screen buffers, one after the other.
    pub screen_buffers: Vec<Pixel>,
    pub current_screen_buffer_index: usize,
    /// How many finished frames were handed over.
    pub frames_completed: u64,
    pub pixel_x_pos: u8,
    pub scanline_started: bool,
    pub bg_fetcher: BackgroundFetcher,
    pub sprite_fetcher: SpriteFetcher,
    pub stat_triggered: bool,
    pub trigger_stat_interrupt: bool,
    pub cgb_mode: bool,
}

impl GbPpu {
    /// The state's own invariant, the LCD being on or off.
    pub open spec fn wf(&self) -> bool {
        self.core_wf() && self.timing_wf()
    }

    /// The invariant of the buffers and fetchers.
    pub open spec fn core_wf(&self) -> bool {
        &&& self.vram.wf()
        &&& self.oam@.len() == OAM_MEMORY_SIZE
        &&& self.bg_color_ram@.len() == 64
        &&& self.obj_color_ram@.len() == 64
        &&& self.screen_buffers@.len() == BUFFERS_NUMBER * SCREEN_PIXELS
        &&& self.current_screen_buffer_index < BUFFERS_NUMBER
        &&& self.bg_fetcher.wf()
        &&& self.sprite_fetcher.wf()
        &&& self.bg_fetcher.cgb_mode == self.cgb_mode
        &&& self.sprite_fetcher.cgb_mode == self.cgb_mode
    }

    /// Where in the line the state machine stands.
    pub open spec fn timing_wf(&self) -> bool {
        match self.state {
            PpuState::OamSearch => self.m_cycles_passed < OAM_SEARCH_M_CYCLES_LENGTH && self.ly_register < 144,
            PpuState::PixelTransfer => OAM_SEARCH_M_CYCLES_LENGTH <= self.m_cycles_passed < HBLANK_M_CYCLES_LENGTH - 1
                && self.ly_register < 144 && self.pixel_x_pos <= SCREEN_WIDTH,
            PpuState::Hblank => self.m_cycles_passed < HBLANK_M_CYCLES_LENGTH && self.ly_register < 144
                // with the LCD on, H-Blank only follows a pixel transfer
                && (self.m_cycles_passed >= PIXEL_TRANSFER_MIN_END || !self.lcd_on()),
            PpuState::Vblank => self.m_cycles_passed < VBLANK_M_CYCLES_LENGTH
                && self.ly_register == 144 + self.m_cycles_passed / HBLANK_M_CYCLES_LENGTH,
        }
    }

    /// The color of sprite pixel `pixel` in palette `pallete` (DMG: OBP0 or
    /// OBP1; GBC: object color RAM); `fallback` where a DMG palette maps none.
    pub open spec fn sprite_color(&self, pallete: Pallete, pixel: u8, fallback: Color) -> Color {
        match pallete {
            Pallete::GbPallete(second) => {
                let mapped = if second { self.obj_color_mapping1[pixel as int] } else { self.obj_color_mapping0[pixel as int] };
                match mapped {
                    Some(c) => c,
                    None => fallback,
                }
            },
            Pallete::GbcPallete(p) => color_ram_color(self.obj_color_ram@, p, pixel),
        }
    }

    /// The color shown for background pixel `bg` (color number, GBC
    /// attributes) with the sprite fifo's next pixel, if any, over it.
    pub open spec fn resolved_color(&self, bg: (u8, BackgroundAttributes)) -> Color {
        let num = bg.0 % 4;
        let attr = bg.1;
        let bg_color = if self.cgb_mode {
            color_ram_color(self.bg_color_ram@, attr.cgb_pallete_number, num)
        } else {
            self.bg_color_mapping[num as int]
        };
        if self.sprite_fetcher.fifo@.len() == 0 {
            bg_color
        } else {
            let (sprite_pixel, entry) = self.sprite_fetcher.fifo@[0];
            let sprite = self.sprite_fetcher.oam_entries@[entry as int];
            if sprite_wins(self.cgb_mode, self.lcd_control, attr.attribute.priority, num, sprite_pixel,
                sprite.attribute.priority) {
                self.sprite_color(sprite.palette_number, sprite_pixel, bg_color)
            } else {
                bg_color
            }
        }
    }

    /// The sprite list holds the line's sprites as the OAM scan picks them:
    /// the first ten in OAM order covering the line, sorted by x.
    pub open spec fn sprites_of_line(&self) -> bool {
        let chosen = selected(self.oam@, self.ly_register, sprite_height(self.lcd_control), OAM_ENTRIES as int);
        let e = self.sprite_fetcher.oam_entries@;
        &&& e.len() == chosen.len()
        &&& sorted(e)
        &&& forall|k: int| 0 <= k < e.len() ==> chosen.contains((#[trigger] e[k]).oam_index as int)
            && e[k] == sprite_entry(self.oam@, e[k].oam_index as int, self.cgb_mode)
    }

    /// The line's OAM scan has been done.
    pub open spec fn scanned(&self) -> bool {
        (self.state == PpuState::OamSearch && self.m_cycles_passed > 0) || self.state == PpuState::PixelTransfer
    }

    pub open spec fn lcd_on(&self) -> bool {
        bit_set(self.lcd_control, 7)
    }

    /// m-cycles since the start of the frame (line 0, OAM search).
    pub open spec fn frame_pos(&self) -> int {
        match self.state {
            PpuState::Vblank => 144 * 114 + self.m_cycles_passed,
            _ => self.ly_register * 114 + self.m_cycles_passed,
        }
    }

    pub fn new(cgb_mode: bool) -> (p: Self)
        ensures
            p.wf(),
            p.cgb_mode == cgb_mode,
            p.state == PpuState::Hblank,
            p.ly_register == 0,
            p.m_cycles_passed == 0,
            p.lcd_control == 0,
            p.frames_completed == 0,
            p.stat_register == 0,
            p.lyc_register == 0,
            forall|i: int| 0 <= i < OAM_MEMORY_SIZE ==> p.oam@[i] == 0,
            p.bg_color_mapping@ == seq![shade(0), shade(1), shade(2), shade(3)],
            p.obj_color_mapping0@ == seq![None, Some(shade(1)), Some(shade(2)), Some(shade(3))],
            p.obj_color_mapping1@ == seq![None, Some(shade(1)), Some(shade(2)), Some(shade(3))],
    {
        let p = GbPpu {
            vram: VRam::new(),
            oam: vec![0u8; OAM_MEMORY_SIZE],
            stat_register: 0,
            lyc_register: 0,
            lcd_control: 0,
            bg_pos: Vec2 { x: 0, y: 0 },
            window_pos: Vec2 { x: 0, y: 0 },
            screen_buffers: vec![0u32; BUFFERS_NUMBER * SCREEN_PIXELS],
            current_screen_buffer_index: 0,
            bg_palette_register: 0,
            bg_color_mapping: [
                Color { r: 255, g: 255, b: 255 },
                Color { r: 160, g: 160, b: 160 },
                Color { r: 64, g: 64, b: 64 },
                Color { r: 0, g: 0, b: 0 },
            ],
            obj_pallete_0_register: 0,
            obj_color_mapping0: [
                None,
                Some(Color { r: 160, g: 160, b: 160 }),
                Some(Color { r: 64, g: 64, b: 64 }),
                Some(Color { r: 0, g: 0, b: 0 }),
            ],
            obj_pallete_1_register: 0,
            obj_color_mapping1: [
                None,
                Some(Color { r: 160, g: 160, b: 160 }),
                Some(Color { r: 64, g: 64, b: 64 }),
                Some(Color { r: 0, g: 0, b: 0 }),
            ],
            ly_register: 0,
            state: PpuState::Hblank,
            bg_color_ram: vec![0u8; 64],
            bg_color_pallete_index: 0,
            obj_color_ram: vec![0u8; 64],
            obj_color_pallete_index: 0,
            v_blank_interrupt_request: false,
            h_blank_interrupt_request: false,
            oam_search_interrupt_request: false,
            coincidence_interrupt_request: false,
            frames_completed: 0,
            m_cycles_passed: 0,
            stat_triggered: false,
            trigger_stat_interrupt: false,
            bg_fetcher: BackgroundFetcher::new(cgb_mode),
            sprite_fetcher: SpriteFetcher::new(cgb_mode),
            pixel_x_pos: 0,
            scanline_started: false,
            cgb_mode,
        };
        assert(0u8 & (1u8 << 7u8) == 0) by (bit_vector);
        assert(p.bg_color_mapping@ =~= seq![shade(0), shade(1), shade(2), shade(3)]);
        assert(p.obj_color_mapping0@ =~= seq![None, Some(shade(1)), Some(shade(2)), Some(shade(3))]);
        assert(p.obj_color_mapping1@ =~= seq![None, Some(shade(1)), Some(shade(2)), Some(shade(3))]);
        p
    }

    /// The LCD was switched off: a white frame is handed over and the state
    /// machine goes back to line 0.
    pub fn turn_off(&mut self)
        requires
            old(self).wf(),
        ensures
            final(self).wf(),
            final(self).oam == old(self).oam,
            final(self).state == PpuState::Hblank,
            final(self).ly_register == 0,
            final(self).m_cycles_passed == 0,
            final(self).lcd_control == old(self).lcd_control & 0x7F,
            !final(self).lcd_on(),
            final(self).cgb_mode == old(self).cgb_mode,
            final(self).frames_completed == (old(self).frames_completed + 1) % 0x1_0000_0000_0000_0000,
            // the frame handed over is white
            forall|i: int| 0 <= i < SCREEN_PIXELS ==> #[trigger] final(self).screen_buffers@[
                old(self).current_screen_buffer_index * SCREEN_PIXELS + i] == 0xFFFF_FFFFu32,
            final(self).current_screen_buffer_index == (old(self).current_screen_buffer_index + 1) % 2,
    {
        let base = self.current_screen_buffer_index * SCREEN_PIXELS;
        let mut i: usize = 0;
        while i < SCREEN_PIXELS
            invariant
                self.wf(),
                self.oam == old(self).oam,
                base == self.current_screen_buffer_index * SCREEN_PIXELS,
                self.lcd_control == old(self).lcd_control,
                self.cgb_mode == old(self).cgb_mode,
                self.frames_completed == old(self).frames_completed,
                self.state == old(self).state,
                self.ly_register == old(self).ly_register,
                self.pixel_x_pos == old(self).pixel_x_pos,
                self.current_screen_buffer_index == old(self).current_screen_buffer_index,
                i <= SCREEN_PIXELS,
                forall|k: int| 0 <= k < i ==> #[trigger] self.screen_buffers@[base + k] == 0xFFFF_FFFFu32,
            decreases SCREEN_PIXELS - i,
        {
            assert(base + i < BUFFERS_NUMBER * SCREEN_PIXELS) by (nonlinear_arith)
                requires base == self.current_screen_buffer_index * SCREEN_PIXELS, self.current_screen_buffer_index < 2, i < SCREEN_PIXELS;
            self.screen_buffers.set(base + i, 0xFFFF_FFFF);
            i = i + 1;
        }
        self.swap_buffer();
        let lcd = self.lcd_control;
        assert(!((lcd & 0x7F) & (1u8 << 7u8) != 0)) by (bit_vector);
        self.lcd_control = lcd & 0x7F;
        self.state = PpuState::Hblank;
        self.m_cycles_passed = 0;
        self.ly_register = 0;
        self.stat_triggered = false;
        self.trigger_stat_interrupt = false;
        self.bg_fetcher.has_wy_reached_ly = false;
        self.bg_fetcher.window_line_counter = 0;
        self.bg_fetcher.reset();
        self.sprite_fetcher.reset();
        self.pixel_x_pos = 0;
    }

    pub fn turn_on(&mut self)
        requires
            old(self).wf(),
        ensures
            final(self).wf(),
            final(self).oam == old(self).oam,
            final(self).state == PpuState::OamSearch,
            final(self).m_cycles_passed == 0,
            final(self).ly_register == 0,
            final(self).frame_pos() == 0,
            final(self).lcd_control == old(self).lcd_control,
            final(self).cgb_mode == old(self).cgb_mode,
            final(self).frames_completed == old(self).frames_completed,
    {
        self.state = PpuState::OamSearch;
        self.m_cycles_passed = 0;
        self.ly_register = 0;
        self.pixel_x_pos = 0;
        self.bg_fetcher.reset();
        self.sprite_fetcher.reset();
    }

    /// Advances the PPU by `m_cycles` m-cycles, raising the V-Blank (bit 0) and
    /// LCD-STAT (bit 1) requests in `if_register`. With the LCD off nothing
    /// moves and `None` comes back; else a hint of how many m-cycles remain
    /// until the next mode change or STAT event.
    pub fn cycle(&mut self, m_cycles: u32, if_register: &mut u8) -> (r: Option<u32>)
        requires
            old(self).wf(),
            m_cycles <= 0x10000,
        ensures
            final(self).wf(),
            final(self).oam == old(self).oam,
            final(self).lcd_control == old(self).lcd_control,
            final(self).cgb_mode == old(self).cgb_mode,
            !old(self).lcd_on() ==> r.is_none() && *final(if_register) == *old(if_register) && *final(self) == *old(self),
            old(self).lcd_on() ==> r.is_some() && final(self).frame_pos() == (old(self).frame_pos() + m_cycles) % (FRAME_M_CYCLES as int),
            old(self).lcd_on() ==> *final(if_register) & 0xFC == *old(if_register) & 0xFC,
            old(self).lcd_on() ==> *final(if_register) & *old(if_register) == *old(if_register),
            old(self).lcd_on() && old(self).frame_pos() < 144 * 114 <= old(self).frame_pos() + m_cycles
                ==> *final(if_register) & 1 == 1,
            // STAT shows the mode and the LY=LYC coincidence reached
            old(self).lcd_on() ==> final(self).stat_register & 3 == mode_bits(final(self).state),
            old(self).lcd_on() ==> bit_set(final(self).stat_register, 2) == (final(self).ly_register
                == final(self).lyc_register),
            old(self).lcd_on() ==> !final(self).trigger_stat_interrupt,
            // a line scanned during the call has its sprites picked
            old(self).lcd_on() && final(self).scanned() && final(self).m_cycles_passed <= m_cycles
                ==> final(self).sprites_of_line(),
            // V-Blank is requested only on entering line 144
            *old(if_register) & 1 == 0 && *final(if_register) & 1 == 1 ==> exists|j: int|
                0 < j <= m_cycles && #[trigger] ((old(self).frame_pos() + j) % (FRAME_M_CYCLES as int)) == 144 * 114,
    {
        if !is_bit_set(self.lcd_control, 7) {
            return None;
        }
        let ghost if0 = *if_register;
        let fetcher_hint = self.cycle_fetcher(m_cycles, if_register);
        let ghost if1 = *if_register;
        let stat_hint = self.update_stat_register(if_register);
        proof {
            let if2 = *if_register;
            assert(if1 & 0xFC == if0 & 0xFC && if1 & if0 == if0 && (if2 == if1 || if2 == if1 | 2)
                ==> if2 & 0xFC == if0 & 0xFC && if2 & if0 == if0 && (if1 & 1 == 1 ==> if2 & 1 == 1)
                && (if2 & 1 == if1 & 1)) by (bit_vector);
        }
        Some(if fetcher_hint < stat_hint { fetcher_hint } else { stat_hint })
    }

    fn swap_buffer(&mut self)
        requires
            old(self).core_wf(),
        ensures
            final(self).core_wf(),
            final(self).oam == old(self).oam,
            final(self).frames_completed == (old(self).frames_completed + 1) % 0x1_0000_0000_0000_0000,
            final(self).current_screen_buffer_index == (old(self).current_screen_buffer_index + 1) % 2,
            final(self).screen_buffers == old(self).screen_buffers,
            final(self).state == old(self).state,
            final(self).ly_register == old(self).ly_register,
            final(self).m_cycles_passed == old(self).m_cycles_passed,
            final(self).pixel_x_pos == old(self).pixel_x_pos,
            final(self).lcd_control == old(self).lcd_control,
            final(self).bg_fetcher == old(self).bg_fetcher,
            final(self).sprite_fetcher == old(self).sprite_fetcher,
            final(self).scanline_started == old(self).scanline_started,
            final(self).cgb_mode == old(self).cgb_mode,
            final(self).trigger_stat_interrupt == old(self).trigger_stat_interrupt,
    {
        self.frames_completed = self.frames_completed.wrapping_add(1);
        self.current_screen_buffer_index = (self.current_screen_buffer_index + 1) % BUFFERS_NUMBER;
    }

    /// The buffer most recently handed over, as a copy.
    pub fn completed_frame(&self) -> (f: Vec<Pixel>)
        requires
            self.wf(),
        ensures
            f@ == self.screen_buffers@.subrange(
                ((self.current_screen_buffer_index + 1) % 2) * SCREEN_PIXELS,
                ((self.current_screen_buffer_index + 1) % 2) * SCREEN_PIXELS + SCREEN_PIXELS,
            ),
    {
        let base = ((self.current_screen_buffer_index + 1) % BUFFERS_NUMBER) * SCREEN_PIXELS;
        let mut f: Vec<Pixel> = Vec::new();
        let mut i: usize = 0;
        while i < SCREEN_PIXELS
            invariant
                self.wf(),
                base == ((self.current_screen_buffer_index + 1) % 2) * SCREEN_PIXELS,
                i <= SCREEN_PIXELS,
                f@ == self.screen_buffers@.subrange(base as int, base + i),
            decreases SCREEN_PIXELS - i,
        {
            assert(base + i < BUFFERS_NUMBER * SCREEN_PIXELS) by (nonlinear_arith)
                requires base == ((self.current_screen_buffer_index + 1) % 2) * SCREEN_PIXELS, i < SCREEN_PIXELS;
            f.push(self.screen_buffers[base + i]);
            i = i + 1;
            assert(f@ =~= self.screen_buffers@.subrange(base as int, base + i));
        }
        f
    }

    /// Refreshes STAT's mode and coincidence bits and raises the LCD-STAT
    /// request on a rising edge of the STAT line.
    fn update_stat_register(&mut self, if_register: &mut u8) -> (hint: u32)
        requires
            old(self).wf(),
        ensures
            final(self).lyc_register == old(self).lyc_register,
            final(self).sprite_fetcher.oam_entries == old(self).sprite_fetcher.oam_entries,
            final(self).wf(),
            final(self).oam == old(self).oam,
            final(self).stat_register & 3 == mode_bits(old(self).state),
            bit_set(final(self).stat_register, 2) == (old(self).ly_register == old(self).lyc_register),
            final(self).stat_register & 0xF8 == old(self).stat_register & 0xF8,
            final(self).state == old(self).state,
            final(self).ly_register == old(self).ly_register,
            final(self).m_cycles_passed == old(self).m_cycles_passed,
            final(self).lcd_control == old(self).lcd_control,
            final(self).cgb_mode == old(self).cgb_mode,
            final(self).frames_completed == old(self).frames_completed,
            !final(self).trigger_stat_interrupt,
            // the STAT line as last seen, for edge detection
            final(self).stat_triggered == (old(self).trigger_stat_interrupt || (old(self).ly_register
                == old(self).lyc_register && old(self).coincidence_interrupt_request)),
            *final(if_register) == if (old(self).trigger_stat_interrupt || (old(self).ly_register == old(self).lyc_register
                && old(self).coincidence_interrupt_request)) && !old(self).stat_triggered {
                *old(if_register) | 2
            } else {
                *old(if_register)
            },
            hint >= 1,
    {
        let mode = state_to_u8(self.state);
        let stat = self.stat_register;
        let coincidence = self.ly_register == self.lyc_register;
        if coincidence && self.coincidence_interrupt_request {
            self.trigger_stat_interrupt = true;
        }
        let new_stat: u8 = (stat & 0xF8) | (if coincidence { 4u8 } else { 0u8 }) | mode;
        proof {
            assert(mode < 4);
            assert(((stat & 0xF8) | 4u8 | mode) & 3 == mode && ((stat & 0xF8) | 4u8 | mode) & 0xF8 == stat & 0xF8
                && ((stat & 0xF8) | 4u8 | mode) & (1u8 << 2u8) != 0) by (bit_vector)
                requires mode < 4;
            assert(((stat & 0xF8) | 0u8 | mode) & 3 == mode && ((stat & 0xF8) | 0u8 | mode) & 0xF8 == stat & 0xF8
                && ((stat & 0xF8) | 0u8 | mode) & (1u8 << 2u8) == 0) by (bit_vector)
                requires mode < 4;
        }
        self.stat_register = new_stat;
        if self.trigger_stat_interrupt {
            if !self.stat_triggered {
                *if_register = *if_register | 2;
                self.stat_triggered = true;
            }
        } else {
            self.stat_triggered = false;
        }
        self.trigger_stat_interrupt = false;

        let passed = self.m_cycles_passed as u32;
        let lines: u32 = if self.lyc_register < self.ly_register {
            (self.ly_register - self.lyc_register) as u32
        } else if self.lyc_register == self.ly_register {
            154
        } else {
            (self.lyc_register - self.ly_register) as u32
        };
        let until = lines * HBLANK_M_CYCLES_LENGTH as u32;
        if until > passed { until - passed } else { 1 }
    }

    /// Steps the mode state machine; see `cycle`.
    fn cycle_fetcher(&mut self, m_cycles: u32, if_register: &mut u8) -> (hint: u32)
        requires
            old(self).wf(),
            m_cycles <= 0x10000,
        ensures
            final(self).wf(),
            final(self).oam == old(self).oam,
            final(self).lcd_control == old(self).lcd_control,
            final(self).cgb_mode == old(self).cgb_mode,
            final(self).frame_pos() == (old(self).frame_pos() + m_cycles) % (FRAME_M_CYCLES as int),
            *final(if_register) & 0xFC == *old(if_register) & 0xFC,
            *final(if_register) & *old(if_register) == *old(if_register),
            old(self).frame_pos() < 144 * 114 <= old(self).frame_pos() + m_cycles ==> *final(if_register) & 1 == 1,
            *old(if_register) & 1 == 0 && *final(if_register) & 1 == 1 ==> exists|j: int|
                0 < j <= m_cycles && #[trigger] ((old(self).frame_pos() + j) % (FRAME_M_CYCLES as int)) == 144 * 114,
            final(self).scanned() && final(self).m_cycles_passed <= m_cycles ==> final(self).sprites_of_line(),
    {
        let ghost start = self.frame_pos();
        let ghost start_if = *if_register;
        proof {
            lemma_frame_pos_bound(*self);
            assert(start % (FRAME_M_CYCLES as int) == start);
            assert(start_if & 0xFC == start_if & 0xFC && start_if & start_if == start_if) by (bit_vector);
        }
        let mut counter: u32 = 0;
        while counter < m_cycles
            invariant
                self.wf(),
                self.oam == old(self).oam,
                counter <= m_cycles,
                m_cycles <= 0x10000,
                self.lcd_control == old(self).lcd_control,
                self.cgb_mode == old(self).cgb_mode,
                0 <= start < FRAME_M_CYCLES,
                self.frame_pos() == (start + counter) % (FRAME_M_CYCLES as int),
                *if_register & 0xFC == start_if & 0xFC,
                *if_register & start_if == start_if,
                start < 144 * 114 <= start + counter ==> *if_register & 1 == 1,
                start_if & 1 == 0 && *if_register & 1 == 1 ==> exists|j: int|
                    0 < j <= counter && #[trigger] ((start + j) % (FRAME_M_CYCLES as int)) == 144 * 114,
                self.oam == old(self).oam,
                self.scanned() && self.m_cycles_passed <= counter ==> self.sprites_of_line(),
            decreases m_cycles - counter,
        {
            let ghost pos = self.frame_pos();
            let ghost before_if = *if_register;
            let budget = m_cycles - counter;
            let ghost prev = *self;
            let used = match self.state {
                PpuState::OamSearch => self.step_oam_search(budget, if_register),
                PpuState::PixelTransfer => self.step_pixel_transfer(budget, if_register),
                PpuState::Hblank => self.step_hblank(budget, if_register),
                PpuState::Vblank => self.step_vblank(budget, if_register),
            };
            counter = counter + used;
            proof {
                if self.scanned() && self.m_cycles_passed <= counter {
                    if !(prev.state == PpuState::OamSearch && prev.m_cycles_passed == 0) {
                        assert(prev.scanned());
                        assert(prev.m_cycles_passed <= counter - used);
                        assert(prev.sprites_of_line());
                        assert(self.sprite_fetcher.oam_entries == prev.sprite_fetcher.oam_entries);
                        assert(self.ly_register == prev.ly_register);
                    }
                }
                lemma_advance(start + counter - used, used as int);
                let a = *if_register;
                assert(a & 0xFC == before_if & 0xFC && a & before_if == before_if && before_if & 0xFC == start_if & 0xFC
                    && before_if & start_if == start_if ==> a & 0xFC == start_if & 0xFC && a & start_if == start_if)
                    by (bit_vector);
                assert(a & before_if == before_if && before_if & 1 == 1 ==> a & 1 == 1) by (bit_vector);
                assert(a == before_if || (a == before_if | 1 && pos + used == 144 * 114));
                assert(a == before_if | 1 ==> a & 1 == 1) by (bit_vector);
                if start_if & 1 == 0 && a & 1 == 1 {
                    if before_if & 1 == 1 {
                        let j = choose|j: int| 0 < j <= counter - used && #[trigger] ((start + j) % (FRAME_M_CYCLES as int))
                            == 144 * 114;
                        assert(0 < j <= counter);
                    } else {
                        assert(a != before_if);
                        assert(pos + used == 144 * 114);
                        assert((start + counter) % (FRAME_M_CYCLES as int) == 144 * 114);
                    }
                }
                if start < 144 * 114 && start + counter - used < 144 * 114 && 144 * 114 <= start + counter {
                    assert(start + counter - used < FRAME_M_CYCLES);
                    assert(pos == start + counter - used);
                }
            }
        }
        let passed = self.m_cycles_passed;
        let hint: u16 = match self.state {
            PpuState::Vblank => (passed / HBLANK_M_CYCLES_LENGTH + 1) * HBLANK_M_CYCLES_LENGTH - passed,
            PpuState::Hblank => HBLANK_M_CYCLES_LENGTH - passed,
            PpuState::OamSearch => OAM_SEARCH_M_CYCLES_LENGTH - passed,
            PpuState::PixelTransfer => ((SCREEN_WIDTH as u16 - self.pixel_x_pos as u16) / 4),
        };
        hint as u32
    }

    /// OAM search: the sprites of the line are picked on its first m-cycle.
    fn step_oam_search(&mut self, budget: u32, if_register: &mut u8) -> (used: u32)
        requires
            old(self).wf(),
            old(self).state == PpuState::OamSearch,
            1 <= budget,
        ensures
            final(self).ly_register == old(self).ly_register,
            old(self).m_cycles_passed > 0 ==> final(self).sprite_fetcher.oam_entries == old(self).sprite_fetcher.oam_entries,
            old(self).m_cycles_passed == 0 ==> final(self).sprites_of_line(),
            final(self).scanned(),
            final(self).m_cycles_passed == old(self).m_cycles_passed + used,
            *final(if_register) == *old(if_register),
            final(self).wf(),
            final(self).oam == old(self).oam,
            final(self).lcd_control == old(self).lcd_control,
            final(self).cgb_mode == old(self).cgb_mode,
            1 <= used <= budget,
            final(self).frame_pos() == if old(self).frame_pos() + used == FRAME_M_CYCLES {
                0
            } else {
                old(self).frame_pos() + used
            },
            old(self).frame_pos() + used <= FRAME_M_CYCLES,
            *final(if_register) & 0xFC == *old(if_register) & 0xFC,
            *final(if_register) & *old(if_register) == *old(if_register),
            old(self).frame_pos() < 144 * 114 <= old(self).frame_pos() + used ==> *final(if_register) & 1 == 1,
            // on the line's first m-cycle the sprites of the line are picked
            old(self).m_cycles_passed == 0 ==> ({
                let chosen = selected(old(self).oam@, old(self).ly_register, sprite_height(old(self).lcd_control),
                    OAM_ENTRIES as int);
                let e = final(self).sprite_fetcher.oam_entries@;
                &&& e.len() == chosen.len()
                &&& sorted(e)
                &&& forall|k: int| 0 <= k < e.len() ==> chosen.contains((#[trigger] e[k]).oam_index as int)
                    && e[k] == sprite_entry(old(self).oam@, e[k].oam_index as int, old(self).cgb_mode)
            }),
    {
        proof {
            lemma_frame_pos_bound(*self);
            let v = *if_register;
            assert(v & 0xFC == v & 0xFC && v & v == v) by (bit_vector);
        }
        if self.m_cycles_passed == 0 {
            self.sprite_fetcher.reset();
            self.sprite_fetcher.select_sprites(&self.oam, self.ly_register, self.lcd_control);
        }
        let left = (OAM_SEARCH_M_CYCLES_LENGTH - self.m_cycles_passed) as u32;
        let step: u32 = if budget < left { budget } else { left };
        self.m_cycles_passed = self.m_cycles_passed + step as u16;
        if self.m_cycles_passed == OAM_SEARCH_M_CYCLES_LENGTH {
            self.state = PpuState::PixelTransfer;
            self.scanline_started = false;
            self.pixel_x_pos = 0;
        }
        step
    }

    /// H-Blank until the line's 114 m-cycles are up, then the next line, or
    /// V-Blank after line 143 (raising the V-Blank request).
    fn step_hblank(&mut self, budget: u32, if_register: &mut u8) -> (used: u32)
        requires
            old(self).wf(),
            old(self).state == PpuState::Hblank,
            1 <= budget,
        ensures
            !final(self).scanned(),
            *final(if_register) == *old(if_register) || (*final(if_register) == *old(if_register) | 1
                && old(self).frame_pos() + used == 144 * 114),
            final(self).wf(),
            final(self).oam == old(self).oam,
            final(self).lcd_control == old(self).lcd_control,
            final(self).cgb_mode == old(self).cgb_mode,
            1 <= used <= budget,
            final(self).frame_pos() == if old(self).frame_pos() + used == FRAME_M_CYCLES {
                0
            } else {
                old(self).frame_pos() + used
            },
            old(self).frame_pos() + used <= FRAME_M_CYCLES,
            *final(if_register) & 0xFC == *old(if_register) & 0xFC,
            *final(if_register) & *old(if_register) == *old(if_register),
            old(self).frame_pos() < 144 * 114 <= old(self).frame_pos() + used ==> *final(if_register) & 1 == 1,
    {
        proof {
            lemma_frame_pos_bound(*self);
            let v = *if_register;
            assert(v & 0xFC == v & 0xFC && v & v == v) by (bit_vector);
        }
        let left = (HBLANK_M_CYCLES_LENGTH - self.m_cycles_passed) as u32;
        let step: u32 = if budget < left { budget } else { left };
        self.m_cycles_passed = self.m_cycles_passed + step as u16;
        if self.m_cycles_passed == HBLANK_M_CYCLES_LENGTH {
            self.pixel_x_pos = 0;
            self.m_cycles_passed = 0;
            self.ly_register = self.ly_register + 1;
            if self.ly_register == SCREEN_HEIGHT as u8 {
                self.state = PpuState::Vblank;
                self.bg_fetcher.window_line_counter = 0;
                self.bg_fetcher.has_wy_reached_ly = false;
                let v = *if_register;
                *if_register = v | 1;
                proof {
                    assert((v | 1) & 0xFC == v & 0xFC && (v | 1) & 1 == 1 && (v | 1) & v == v) by (bit_vector);
                }
                if self.v_blank_interrupt_request {
                    self.trigger_stat_interrupt = true;
                }
            } else {
                self.state = PpuState::OamSearch;
                if self.oam_search_interrupt_request {
                    self.trigger_stat_interrupt = true;
                }
            }
        }
        step
    }

    /// V-Blank: ten lines without drawing, then line 0 of the next frame.
    fn step_vblank(&mut self, budget: u32, if_register: &mut u8) -> (used: u32)
        requires
            old(self).wf(),
            old(self).state == PpuState::Vblank,
            1 <= budget,
        ensures
            !final(self).scanned(),
            *final(if_register) == *old(if_register),
            final(self).wf(),
            final(self).oam == old(self).oam,
            final(self).lcd_control == old(self).lcd_control,
            final(self).cgb_mode == old(self).cgb_mode,
            1 <= used <= budget,
            final(self).frame_pos() == if old(self).frame_pos() + used == FRAME_M_CYCLES {
                0
            } else {
                old(self).frame_pos() + used
            },
            old(self).frame_pos() + used <= FRAME_M_CYCLES,
            *final(if_register) & 0xFC == *old(if_register) & 0xFC,
            *final(if_register) & *old(if_register) == *old(if_register),
            old(self).frame_pos() < 144 * 114 <= old(self).frame_pos() + used ==> *final(if_register) & 1 == 1,
    {
        proof {
            lemma_frame_pos_bound(*self);
            let v = *if_register;
            assert(v & 0xFC == v & 0xFC && v & v == v) by (bit_vector);
        }
        let left = (VBLANK_M_CYCLES_LENGTH - self.m_cycles_passed) as u32;
        let step: u32 = if budget < left { budget } else { left };
        self.m_cycles_passed = self.m_cycles_passed + step as u16;
        if self.m_cycles_passed == VBLANK_M_CYCLES_LENGTH {
            self.state = PpuState::OamSearch;
            if self.oam_search_interrupt_request {
                self.trigger_stat_interrupt = true;
            }
            self.pixel_x_pos = 0;
            self.m_cycles_passed = 0;
            self.ly_register = 0;
        } else {
            self.ly_register = SCREEN_HEIGHT as u8 + (self.m_cycles_passed / HBLANK_M_CYCLES_LENGTH) as u8;
        }
        step
    }

    /// One m-cycle (four dots) of pixel transfer. The transfer ends when the
    /// line's 160 pixels are out, and at the latest one m-cycle before the
    /// line's time is up.
    fn step_pixel_transfer(&mut self, budget: u32, if_register: &mut u8) -> (used: u32)
        requires
            old(self).wf(),
            old(self).state == PpuState::PixelTransfer,
            1 <= budget,
        ensures
            used == 1,
            final(self).state == PpuState::PixelTransfer ==> final(self).sprite_fetcher.oam_entries
                == old(self).sprite_fetcher.oam_entries && final(self).ly_register == old(self).ly_register
                && final(self).m_cycles_passed == old(self).m_cycles_passed + 1,
            *final(if_register) == *old(if_register),
            final(self).wf(),
            final(self).oam == old(self).oam,
            final(self).lcd_control == old(self).lcd_control,
            final(self).cgb_mode == old(self).cgb_mode,
            1 <= used <= budget,
            final(self).frame_pos() == if old(self).frame_pos() + used == FRAME_M_CYCLES {
                0
            } else {
                old(self).frame_pos() + used
            },
            old(self).frame_pos() + used <= FRAME_M_CYCLES,
            *final(if_register) & 0xFC == *old(if_register) & 0xFC,
            *final(if_register) & *old(if_register) == *old(if_register),
            old(self).frame_pos() < 144 * 114 <= old(self).frame_pos() + used ==> *final(if_register) & 1 == 1,
    {
        proof {
            lemma_frame_pos_bound(*self);
            let v = *if_register;
            assert(v & 0xFC == v & 0xFC && v & v == v) by (bit_vector);
        }
        let ghost ly = self.ly_register;
        let ghost passed = self.m_cycles_passed;
        let mut dot: u8 = 0;
        while dot < 4 && self.pixel_x_pos < SCREEN_WIDTH as u8
            invariant
                self.wf(),
                self.oam == old(self).oam,
                self.state == PpuState::PixelTransfer,
                self.pixel_x_pos <= SCREEN_WIDTH,
                self.sprite_fetcher.oam_entries == old(self).sprite_fetcher.oam_entries,
                self.m_cycles_passed == passed,
                self.ly_register == ly,
                OAM_SEARCH_M_CYCLES_LENGTH <= passed < HBLANK_M_CYCLES_LENGTH - 1,
                self.lcd_control == old(self).lcd_control,
                self.cgb_mode == old(self).cgb_mode,
            decreases 4 - dot,
        {
            if is_bit_set(self.lcd_control, 1) {
                self.sprite_fetcher.fetch_pixels(&self.vram, self.lcd_control, self.ly_register, self.pixel_x_pos);
            }
            if self.sprite_fetcher.rendering {
                self.bg_fetcher.pause();
            } else {
                let window_pos = self.window_pos;
                let bg_pos = self.bg_pos;
                self.bg_fetcher.fetch_pixels(&self.vram, self.lcd_control, self.ly_register, &window_pos, &bg_pos);
                self.try_push_to_lcd();
            }
            dot = dot + 1;
        }
        self.m_cycles_passed = self.m_cycles_passed + 1;
        // the transfer ends once the line's 160 pixels are out and at least
        // 172 dots have passed, or when the line's time is up
        if (self.pixel_x_pos == SCREEN_WIDTH as u8 && self.m_cycles_passed >= PIXEL_TRANSFER_MIN_END)
            || self.m_cycles_passed == HBLANK_M_CYCLES_LENGTH - 1 {
            self.end_pixel_transfer();
        }
        1
    }

    /// Pixel transfer is over for this line: H-Blank begins.
    fn end_pixel_transfer(&mut self)
        requires
            old(self).core_wf(),
            old(self).state == PpuState::PixelTransfer || old(self).state == PpuState::Hblank,
            PIXEL_TRANSFER_MIN_END <= old(self).m_cycles_passed < HBLANK_M_CYCLES_LENGTH,
            old(self).ly_register < 144,
        ensures
            final(self).wf(),
            final(self).oam == old(self).oam,
            final(self).state == PpuState::Hblank,
            final(self).m_cycles_passed == old(self).m_cycles_passed,
            final(self).ly_register == old(self).ly_register,
            final(self).lcd_control == old(self).lcd_control,
            final(self).cgb_mode == old(self).cgb_mode,
    {
        self.state = PpuState::Hblank;
        if self.h_blank_interrupt_request {
            self.trigger_stat_interrupt = true;
        }
        self.bg_fetcher.try_increment_window_counter(self.ly_register, self.window_pos.y);
        self.bg_fetcher.reset();
        self.sprite_fetcher.reset();
    }

    /// Moves one pixel from the fifos to the screen, dropping the first
    /// `SCX mod 8` background pixels of each line.
    fn try_push_to_lcd(&mut self)
        requires
            old(self).core_wf(),
            old(self).state == PpuState::PixelTransfer,
            old(self).pixel_x_pos < SCREEN_WIDTH,
            old(self).ly_register < 144,
        ensures
            // a pixel that comes out is stored at its row and column
            final(self).pixel_x_pos == old(self).pixel_x_pos + 1 ==> final(self).screen_buffers@ == old(
                self,
            ).screen_buffers@.update(
                old(self).current_screen_buffer_index * SCREEN_PIXELS + old(self).ly_register * 160 + old(self).pixel_x_pos,
                pixel_of(old(self).resolved_color(old(self).bg_fetcher.fifo@[0])),
            ),
            final(self).pixel_x_pos == old(self).pixel_x_pos ==> final(self).screen_buffers == old(self).screen_buffers,
            final(self).sprite_fetcher.oam_entries == old(self).sprite_fetcher.oam_entries,
            final(self).core_wf(),
            final(self).oam == old(self).oam,
            final(self).state == old(self).state,
            final(self).m_cycles_passed == old(self).m_cycles_passed,
            final(self).ly_register == old(self).ly_register,
            final(self).lcd_control == old(self).lcd_control,
            final(self).cgb_mode == old(self).cgb_mode,
            final(self).pixel_x_pos == old(self).pixel_x_pos || final(self).pixel_x_pos == old(self).pixel_x_pos + 1,
            final(self).bg_fetcher.window_line_counter == old(self).bg_fetcher.window_line_counter,
    {
        if self.bg_fetcher.fifo.len() == 0 {
            return;
        }
        if !self.scanline_started {
            if FIFO_SIZE - self.bg_fetcher.fifo.len() >= self.bg_pos.x as usize % FIFO_SIZE {
                self.scanline_started = true;
            } else {
                let _ = self.bg_fetcher.fifo.remove();
                return;
            }
        }
        let (bg_pixel_color_num, bg_cgb_attributes) = self.bg_fetcher.fifo.remove();
        let pixel = self.get_correct_pixel(bg_cgb_attributes, bg_pixel_color_num % 4);
        self.push_pixel(pixel.into_pixel());
        self.pixel_x_pos = self.pixel_x_pos + 1;
    }

    /// The color of the next screen pixel, taking the sprite fifo's next
    /// pixel, if any, and resolving priority between it and the background.
    fn get_correct_pixel(&mut self, bg_cgb_attribute: BackgroundAttributes, bg_pixel_color_num: u8) -> (c: Color)
        requires
            old(self).core_wf(),
            bg_pixel_color_num < 4,
            bg_cgb_attribute.cgb_pallete_number < 8,
        ensures
            c == old(self).resolved_color((bg_pixel_color_num, bg_cgb_attribute)),
            final(self).screen_buffers == old(self).screen_buffers,
            final(self).current_screen_buffer_index == old(self).current_screen_buffer_index,
            final(self).sprite_fetcher.oam_entries == old(self).sprite_fetcher.oam_entries,
            final(self).core_wf(),
            final(self).oam == old(self).oam,
            final(self).state == old(self).state,
            final(self).m_cycles_passed == old(self).m_cycles_passed,
            final(self).ly_register == old(self).ly_register,
            final(self).pixel_x_pos == old(self).pixel_x_pos,
            final(self).lcd_control == old(self).lcd_control,
            final(self).cgb_mode == old(self).cgb_mode,
            final(self).bg_fetcher == old(self).bg_fetcher,
            ({
                let bg = if old(self).cgb_mode {
                    color_ram_color(old(self).bg_color_ram@, bg_cgb_attribute.cgb_pallete_number, bg_pixel_color_num)
                } else {
                    old(self).bg_color_mapping[bg_pixel_color_num as int]
                };
                let sprites = old(self).sprite_fetcher.fifo@;
                if sprites.len() == 0 {
                    c == bg
                } else {
                    let (sprite_pixel, entry) = sprites[0];
                    let sprite = old(self).sprite_fetcher.oam_entries@[entry as int];
                    &&& final(self).sprite_fetcher.fifo@ == sprites.drop_first()
                    &&& !sprite_wins(old(self).cgb_mode, old(self).lcd_control, bg_cgb_attribute.attribute.priority,
                        bg_pixel_color_num, sprite_pixel, sprite.attribute.priority) ==> c == bg
                    &&& sprite_wins(old(self).cgb_mode, old(self).lcd_control, bg_cgb_attribute.attribute.priority,
                        bg_pixel_color_num, sprite_pixel, sprite.attribute.priority) ==> c == old(self).sprite_color(
                        sprite.palette_number, sprite_pixel, bg)
                }
            }),
    {
        let bg = if self.cgb_mode {
            Self::get_color_from_color_ram(&self.bg_color_ram, bg_cgb_attribute.cgb_pallete_number, bg_pixel_color_num)
        } else {
            self.bg_color_mapping[bg_pixel_color_num as usize]
        };
        if self.sprite_fetcher.fifo.len() == 0 {
            return bg;
        }
        let (oam_pixel, oam_attribute_index) = self.sprite_fetcher.fifo.remove();
        let sprite = self.sprite_fetcher.oam_entries[oam_attribute_index as usize];
        if !is_sprite_pixel_visible(self.cgb_mode, self.lcd_control, bg_cgb_attribute.attribute.priority,
            bg_pixel_color_num, oam_pixel, sprite.attribute.priority) {
            return bg;
        }
        let mapped = match sprite.palette_number {
            Pallete::GbPallete(second) => {
                if second {
                    self.obj_color_mapping1[oam_pixel as usize]
                } else {
                    self.obj_color_mapping0[oam_pixel as usize]
                }
            },
            Pallete::GbcPallete(pallete) => Some(Self::get_color_from_color_ram(&self.obj_color_ram, pallete, oam_pixel)),
        };
        match mapped {
            Some(c) => c,
            None => bg,
        }
    }

    /// Stores `pixel` at row `ly`, column `x` of the buffer being drawn; the
    /// last pixel of line 143 completes the frame, which is handed over.
    fn push_pixel(&mut self, pixel: Pixel)
        requires
            old(self).core_wf(),
            old(self).ly_register < 144,
            old(self).pixel_x_pos < SCREEN_WIDTH,
        ensures
            final(self).core_wf(),
            final(self).oam == old(self).oam,
            final(self).screen_buffers@ == old(self).screen_buffers@.update(
                old(self).current_screen_buffer_index * SCREEN_PIXELS + old(self).ly_register * 160 + old(self).pixel_x_pos,
                pixel),
            final(self).state == old(self).state,
            final(self).m_cycles_passed == old(self).m_cycles_passed,
            final(self).ly_register == old(self).ly_register,
            final(self).pixel_x_pos == old(self).pixel_x_pos,
            final(self).lcd_control == old(self).lcd_control,
            final(self).cgb_mode == old(self).cgb_mode,
            final(self).bg_fetcher == old(self).bg_fetcher,
            final(self).sprite_fetcher == old(self).sprite_fetcher,
            final(self).scanline_started == old(self).scanline_started,
            final(self).trigger_stat_interrupt == old(self).trigger_stat_interrupt,
    {
        let i = self.current_screen_buffer_index * SCREEN_PIXELS + self.ly_register as usize * SCREEN_WIDTH
            + self.pixel_x_pos as usize;
        proof {
            assert(i < BUFFERS_NUMBER * SCREEN_PIXELS) by (nonlinear_arith)
                requires i == self.current_screen_buffer_index * SCREEN_PIXELS + self.ly_register * 160 + self.pixel_x_pos,
                    self.current_screen_buffer_index < 2, self.ly_register < 144, self.pixel_x_pos < 160;
        }
        self.screen_buffers.set(i, pixel);
        if self.ly_register as usize == SCREEN_HEIGHT - 1 && self.pixel_x_pos as usize == SCREEN_WIDTH - 1 {
            self.swap_buffer();
        }
    }

    pub fn get_color_from_color_ram(color_ram: &Vec<u8>, pallete: u8, pixel: u8) -> (c: Color)
        requires
            color_ram@.len() == 64,
            pallete < 8,
            pixel < 4,
        ensures
            c == color_ram_color(color_ram@, pallete, pixel),
    {
        let i = (pallete * 8 + pixel * 2) as usize;
        let color: u16 = color_ram[i] as u16 + (color_ram[i + 1] as u16) * 256;
        Color::from_rgb555(color)
    }
}

/// The line that a frame position falls on.
pub open spec fn ly_of(pos: int) -> int {
    pos / 114
}

pub open spec fn old_passed(pos: int, ly: u8) -> int {
    pos - ly * 114
}

pub proof fn lemma_frame_pos_bound(p: GbPpu)
    requires
        p.timing_wf(),
    ensures
        0 <= p.frame_pos() < FRAME_M_CYCLES,
        p.ly_register == ly_of(p.frame_pos()),
        p.state != PpuState::Vblank ==> p.m_cycles_passed == old_passed(p.frame_pos(), p.ly_register),
{
    if p.state == PpuState::Vblank {
        assert(p.m_cycles_passed / 114 < 10);
        assert((144 * 114 + p.m_cycles_passed) / 114 == 144 + p.m_cycles_passed / 114);
    } else {
        assert((p.ly_register * 114 + p.m_cycles_passed) / 114 == p.ly_register as int);
    }
}

proof fn lemma_advance(x: int, k: int)
    requires
        x >= 0,
        k >= 0,
        x % (FRAME_M_CYCLES as int) + k <= FRAME_M_CYCLES,
    ensures
        (x + k) % (FRAME_M_CYCLES as int) == if x % (FRAME_M_CYCLES as int) + k == FRAME_M_CYCLES {
            0
        } else {
            x % (FRAME_M_CYCLES as int) + k
        },
{
    vstd::arithmetic::div_mod::lemma_fundamental_div_mod(x, FRAME_M_CYCLES as int);
    vstd::arithmetic::div_mod::lemma_fundamental_div_mod(x + k, FRAME_M_CYCLES as int);
    vstd::arithmetic::div_mod::lemma_mod_bound(x + k, FRAME_M_CYCLES as int);
    vstd::arithmetic::div_mod::lemma_mod_bound(x, FRAME_M_CYCLES as int);
    let q = x / (FRAME_M_CYCLES as int);
    let r = x % (FRAME_M_CYCLES as int);
    if r + k == FRAME_M_CYCLES {
        vstd::arithmetic::div_mod::lemma_fundamental_div_mod_converse_mod(x + k, FRAME_M_CYCLES as int, q + 1, 0);
    } else {
        vstd::arithmetic::div_mod::lemma_fundamental_div_mod_converse_mod(x + k, FRAME_M_CYCLES as int, q, r + k);
    }
}

/// Every line lasts 456 dots (114 m-cycles): 114 m-cycles after any point
/// of line `ly` the PPU stands at the same point of line `ly + 1`, and line
/// 153, the last of the ten V-Blank lines after the 144 visible ones, is
/// followed by line 0.
pub proof fn lemma_line_timing(p: GbPpu, q: GbPpu)
    requires
        p.timing_wf(),
        q.timing_wf(),
        q.frame_pos() == (p.frame_pos() + 114) % (FRAME_M_CYCLES as int),
    ensures
        q.ly_register == (p.ly_register + 1) % 154,
        q.frame_pos() % 114 == p.frame_pos() % 114,
        (q.state == PpuState::Vblank) == (q.ly_register >= 144),
{
    lemma_frame_pos_bound(p);
    lemma_frame_pos_bound(q);
    let a = p.frame_pos();
    if a + 114 < FRAME_M_CYCLES {
        assert((a + 114) % (FRAME_M_CYCLES as int) == a + 114);
        assert((a + 114) / 114 == a / 114 + 1);
        assert((a + 114) % 114 == a % 114);
    } else {
        assert((a + 114) % (FRAME_M_CYCLES as int) == a + 114 - 17556);
        assert(a / 114 == 153);
        assert((a + 114 - 17556) / 114 == 0);
    }
}

/// The order of modes within each of the lines 0-143 with the LCD on:
/// OAM search for m-cycles 0-19, pixel transfer at least until m-cycle 62
/// (172 dots), H-Blank in the line's last m-cycle.
pub proof fn lemma_line_mode_order(p: GbPpu)
    requires
        p.timing_wf(),
        p.lcd_on(),
        p.ly_register < 144,
    ensures
        p.frame_pos() % 114 < OAM_SEARCH_M_CYCLES_LENGTH ==> p.state == PpuState::OamSearch,
        OAM_SEARCH_M_CYCLES_LENGTH <= p.frame_pos() % 114 < PIXEL_TRANSFER_MIN_END ==> p.state
            == PpuState::PixelTransfer,
        p.frame_pos() % 114 == 113 ==> p.state == PpuState::Hblank,
{
    lemma_frame_pos_bound(p);
    if p.state != PpuState::Vblank {
        assert((p.ly_register * 114 + p.m_cycles_passed) % 114 == p.m_cycles_passed as int);
    }
}

} // verus!
