use vstd::prelude::*;
use crate::fixed_size_queue::FixedSizeQueue;
use crate::ppu::attributes::{bg_attributes, bit_set, is_bit_set, BackgroundAttributes};
use crate::ppu::vram::VRam;
use crate::vec2::Vec2;
use super::sprite_fetcher::SpriteFetcher;
use super::fetcher_state_machine::{FetcherStateMachine, FetchingState, FIFO_SIZE, SPRITE_WIDTH};

verus! {

/// The two-bit color number of bit `i` of a tile row (`low` holds bit 0 of
/// each color number, `high` bit 1).
pub open spec fn pixel_at(low: u8, high: u8, i: u8) -> u8 {
    ((low >> i) & 1u8) | (((high >> i) & 1u8) << 1u8)
}

pub open spec fn map_base(lcd_control: u8, bit: u8) -> int {
    if bit_set(lcd_control, bit) { 0x1C00 } else { 0x1800 }
}

/// VRAM offset of the background tile number under screen column `x`.
pub open spec fn bg_map_address(lcd_control: u8, ly: u8, bg_pos: Vec2<u8>, x: u8) -> int {
    map_base(lcd_control, 3) + 32 * (((bg_pos.y + ly) % 256) / 8) + ((bg_pos.x + x) / 8) % 32
}

/// VRAM offset of the window tile number under screen column `x`.
pub open spec fn window_map_address(lcd_control: u8, window_line: u8, window_pos: Vec2<u8>, x: u8) -> int {
    map_base(lcd_control, 6) + 32 * (window_line / 8) + (x - window_pos.x) / 8
}

/// VRAM offset of the row `row` of a tile: unsigned addressing from 0x0000
/// when LCDC bit 4 is set, else signed addressing around 0x1000.
pub open spec fn tile_row_address(lcd_control: u8, tile: u8, row: int) -> int {
    (if !bit_set(lcd_control, 4) && tile < 128 { 0x1000int } else { 0 }) + tile * 16 + 2 * row
}

/// The eight pixels of one tile row, left to right.
pub open spec fn tile_row_pixels(low: u8, high: u8, flip_x: bool) -> Seq<u8> {
    Seq::new(8, |j: int| pixel_at(low, high, if flip_x { j as u8 } else { (7 - j) as u8 }))
}

pub struct BackgroundFetcher {
    pub fifo: FixedSizeQueue<(u8, BackgroundAttributes), FIFO_SIZE>,
    pub window_line_counter: u8,
    pub has_wy_reached_ly: bool,
    pub current_x_pos: u8,
    pub rendering_window: bool,
    pub fetcher_state_machine: FetcherStateMachine,
    pub cgb_mode: bool,
    pub cgb_attributes: BackgroundAttributes,
}

impl BackgroundFetcher {
    pub open spec fn wf(&self) -> bool {
        &&& self.fifo.wf()
        &&& self.fifo@.len() <= FIFO_SIZE
        &&& self.fetcher_state_machine.wf()
        &&& self.fetcher_state_machine.states@ == seq![
            FetchingState::Sleep, FetchingState::FetchTileNumber, FetchingState::Sleep, FetchingState::FetchLowTile,
            FetchingState::Sleep, FetchingState::FetchHighTile, FetchingState::Sleep, FetchingState::Push,
        ]
        &&& self.cgb_attributes.cgb_pallete_number < 8
        &&& forall|k: int| 0 <= k < self.fifo@.len() ==> (#[trigger] self.fifo@[k]).1.cgb_pallete_number < 8
        &&& (!self.cgb_mode ==> !self.cgb_attributes.attribute.bank)
    }

    /// The VRAM bank that tile data is read from.
    pub open spec fn data_bank(&self) -> int {
        if self.cgb_attributes.attribute.bank { 1 } else { 0 }
    }

    /// The row of the current tile that this line shows.
    pub open spec fn tile_row(&self, ly: u8, bg_pos: Vec2<u8>) -> int {
        let row = if self.rendering_window { self.window_line_counter % 8 } else { ((bg_pos.y + ly) % 8) as u8 };
        if self.cgb_mode && self.cgb_attributes.attribute.flip_y { 7 - row } else { row as int }
    }

    pub fn new(cgb_mode: bool) -> (f: Self)
        ensures
            f.wf(),
            f.cgb_mode == cgb_mode,
            f.fifo@.len() == 0,
            f.current_x_pos == 0,
            f.window_line_counter == 0,
            !f.rendering_window,
            !f.has_wy_reached_ly,
            f.fetcher_state_machine.index == 0,
    {
        let states = [
            FetchingState::Sleep, FetchingState::FetchTileNumber, FetchingState::Sleep, FetchingState::FetchLowTile,
            FetchingState::Sleep, FetchingState::FetchHighTile, FetchingState::Sleep, FetchingState::Push,
        ];
        let f = BackgroundFetcher {
            fetcher_state_machine: FetcherStateMachine::new(states),
            current_x_pos: 0,
            fifo: FixedSizeQueue::new(),
            window_line_counter: 0,
            rendering_window: false,
            has_wy_reached_ly: false,
            cgb_mode,
            cgb_attributes: BackgroundAttributes::new(0),
        };
        assert(f.fetcher_state_machine.states@ =~= seq![
            FetchingState::Sleep, FetchingState::FetchTileNumber, FetchingState::Sleep, FetchingState::FetchLowTile,
            FetchingState::Sleep, FetchingState::FetchHighTile, FetchingState::Sleep, FetchingState::Push,
        ]);
        assert(0u8 & (1u8 << 3u8) == 0) by (bit_vector);
        f
    }

    /// Starts a new line: empty fifo, column 0, first stage, background.
    pub fn reset(&mut self)
        requires
            old(self).wf(),
        ensures
            final(self).wf(),
            final(self).fifo@.len() == 0,
            final(self).current_x_pos == 0,
            final(self).fetcher_state_machine.index == 0,
            !final(self).rendering_window,
            final(self).window_line_counter == old(self).window_line_counter,
            final(self).has_wy_reached_ly == old(self).has_wy_reached_ly,
            final(self).cgb_mode == old(self).cgb_mode,
    {
        self.fifo.clear();
        self.current_x_pos = 0;
        self.fetcher_state_machine.reset();
        self.rendering_window = false;
    }

    /// Restarts the stage cycle, keeping the fifo (a sprite fetch took the bus).
    pub fn pause(&mut self)
        requires
            old(self).wf(),
        ensures
            final(self).wf(),
            final(self).fetcher_state_machine.index == 0,
            final(self).fifo@ == old(self).fifo@,
            final(self).current_x_pos == old(self).current_x_pos,
            final(self).rendering_window == old(self).rendering_window,
            final(self).window_line_counter == old(self).window_line_counter,
            final(self).has_wy_reached_ly == old(self).has_wy_reached_ly,
            final(self).cgb_mode == old(self).cgb_mode,
    {
        self.fetcher_state_machine.reset();
    }

    /// At the end of a line: the window line counter counts the lines on
    /// which the window was drawn.
    pub fn try_increment_window_counter(&mut self, ly_register: u8, wy_register: u8)
        requires
            old(self).wf(),
        ensures
            final(self).wf(),
            final(self).window_line_counter == if old(self).rendering_window && ly_register >= wy_register {
                ((old(self).window_line_counter + 1) % 256) as u8
            } else {
                old(self).window_line_counter
            },
            final(self).fifo@ == old(self).fifo@,
            final(self).current_x_pos == old(self).current_x_pos,
            final(self).rendering_window == old(self).rendering_window,
            final(self).has_wy_reached_ly == old(self).has_wy_reached_ly,
            final(self).cgb_mode == old(self).cgb_mode,
            final(self).fetcher_state_machine == old(self).fetcher_state_machine,
    {
        if self.rendering_window && ly_register >= wy_register {
            self.window_line_counter = self.window_line_counter.wrapping_add(1);
        }
    }

    /// One dot of the background/window fetcher.
    pub fn fetch_pixels(&mut self, vram: &VRam, lcd_control: u8, ly_register: u8, window_pos: &Vec2<u8>, bg_pos: &Vec2<u8>)
        requires
            old(self).wf(),
            vram.wf(),
        ensures
            final(self).wf(),
            final(self).cgb_mode == old(self).cgb_mode,
            final(self).window_line_counter == old(self).window_line_counter,
            final(self).has_wy_reached_ly == (old(self).has_wy_reached_ly || ly_register == window_pos.y),
            final(self).rendering_window == (window_pos.x <= old(self).current_x_pos
                && final(self).has_wy_reached_ly && bit_set(lcd_control, 5)),
            ({
                // the window starting restarts the stage cycle
                let index = if final(self).rendering_window && !old(self).rendering_window { 0 } else {
                    old(self).fetcher_state_machine.index as int
                };
                let stage = old(self).fetcher_state_machine.states@[index];
                let s = *final(self);
                &&& s.fetcher_state_machine.index == (index + 1) % 8
                &&& stage == FetchingState::FetchTileNumber ==> {
                    let address = if s.rendering_window {
                        window_map_address(lcd_control, s.window_line_counter, *window_pos, old(self).current_x_pos)
                    } else {
                        bg_map_address(lcd_control, ly_register, *bg_pos, old(self).current_x_pos)
                    };
                    &&& s.fetcher_state_machine.data.tile_data == vram.byte(0, address)
                    &&& s.cgb_mode ==> s.cgb_attributes == bg_attributes(vram.byte(1, address))
                }
                &&& stage == FetchingState::FetchLowTile ==> s.fetcher_state_machine.data.low_tile_data == vram.byte(
                    s.data_bank(),
                    tile_row_address(lcd_control, s.fetcher_state_machine.data.tile_data, s.tile_row(ly_register, *bg_pos)),
                )
                &&& stage == FetchingState::FetchHighTile ==> s.fetcher_state_machine.data.high_tile_data == vram.byte(
                    s.data_bank(),
                    tile_row_address(lcd_control, s.fetcher_state_machine.data.tile_data, s.tile_row(ly_register, *bg_pos)) + 1,
                )
                &&& (stage == FetchingState::Push && old(self).fifo@.len() == 0) ==> {
                    &&& s.current_x_pos == (old(self).current_x_pos + 8) % 256
                    &&& s.fifo@.len() == 8
                    &&& if !bit_set(lcd_control, 0) && !s.cgb_mode {
                        forall|j: int| 0 <= j < 8 ==> (#[trigger] s.fifo@[j]).0 == 0
                    } else {
                        forall|j: int| 0 <= j < 8 ==> (#[trigger] s.fifo@[j]) == (tile_row_pixels(
                            s.fetcher_state_machine.data.low_tile_data,
                            s.fetcher_state_machine.data.high_tile_data,
                            s.cgb_mode && s.cgb_attributes.attribute.flip_x,
                        )[j], s.cgb_attributes)
                    }
                }
                // pushing uses the tile bytes fetched before, unchanged
                &&& (stage == FetchingState::Push || stage == FetchingState::Sleep)
                    ==> s.fetcher_state_machine.data == old(self).fetcher_state_machine.data
                // the GBC attributes change only when a tile number is fetched
                &&& stage != FetchingState::FetchTileNumber ==> s.cgb_attributes == old(self).cgb_attributes
                &&& stage == FetchingState::FetchLowTile ==> s.fetcher_state_machine.data.tile_data
                    == old(self).fetcher_state_machine.data.tile_data
                &&& stage == FetchingState::FetchHighTile ==> s.fetcher_state_machine.data.tile_data
                    == old(self).fetcher_state_machine.data.tile_data && s.fetcher_state_machine.data.low_tile_data
                    == old(self).fetcher_state_machine.data.low_tile_data
                &&& !(stage == FetchingState::Push && old(self).fifo@.len() == 0) ==> {
                    &&& s.fifo@ == old(self).fifo@
                    &&& s.current_x_pos == old(self).current_x_pos
                }
            }),
    {
        self.has_wy_reached_ly = self.has_wy_reached_ly || ly_register == window_pos.y;
        let last_rendering_status = self.rendering_window;
        self.rendering_window = self.is_rendering_wnd(lcd_control, window_pos);
        if self.rendering_window && !last_rendering_status {
            self.fetcher_state_machine.reset();
        }
        let stage = self.fetcher_state_machine.current_state();
        match stage {
            FetchingState::FetchTileNumber => {
                let address: u16 = if self.rendering_window {
                    let base: u16 = if is_bit_set(lcd_control, 6) { 0x1C00 } else { 0x1800 };
                    base + 32 * (self.window_line_counter as u16 / 8) + ((self.current_x_pos - window_pos.x) as u16 / 8)
                } else {
                    let base: u16 = if is_bit_set(lcd_control, 3) { 0x1C00 } else { 0x1800 };
                    let scx_offset = ((bg_pos.x as u16 + self.current_x_pos as u16) / 8) % 32;
                    let scy_offset = ((bg_pos.y as u16 + ly_register as u16) % 256) / 8;
                    base + 32 * scy_offset + scx_offset
                };
                if self.cgb_mode {
                    self.cgb_attributes = BackgroundAttributes::new(vram.read_bank(address, 1));
                }
                let tile_num = vram.read_bank(address, 0);
                self.fetcher_state_machine.data = crate::ppu::fifo::fetcher_state_machine::FetchingData::new();
                self.fetcher_state_machine.data.tile_data = tile_num;
            },
            FetchingState::FetchLowTile => {
                let tile_num = self.fetcher_state_machine.data.tile_data;
                let address = self.get_tila_data_address(lcd_control, bg_pos, ly_register, tile_num);
                let bank: u8 = if self.cgb_attributes.attribute.bank { 1 } else { 0 };
                self.fetcher_state_machine.data.low_tile_data = vram.read_bank(address, bank);
            },
            FetchingState::FetchHighTile => {
                let tile_num = self.fetcher_state_machine.data.tile_data;
                let address = self.get_tila_data_address(lcd_control, bg_pos, ly_register, tile_num);
                let bank: u8 = if self.cgb_attributes.attribute.bank { 1 } else { 0 };
                self.fetcher_state_machine.data.high_tile_data = vram.read_bank(address + 1, bank);
            },
            FetchingState::Push => {
                if self.fifo.len() == 0 {
                    let mut buffer: Vec<(u8, BackgroundAttributes)> = Vec::new();
                    let blank = !is_bit_set(lcd_control, 0) && !self.cgb_mode;
                    let flip_x = self.cgb_mode && self.cgb_attributes.attribute.flip_x;
                    let low = self.fetcher_state_machine.data.low_tile_data;
                    let high = self.fetcher_state_machine.data.high_tile_data;
                    let ghost row = tile_row_pixels(low, high, flip_x);
                    let mut j: u8 = 0;
                    while j < SPRITE_WIDTH
                        invariant
                            j <= 8,
                            buffer@.len() == j,
                            row == tile_row_pixels(low, high, flip_x),
                            blank ==> forall|k: int| 0 <= k < j ==> (#[trigger] buffer@[k]) == (0u8, self.cgb_attributes),
                            !blank ==> forall|k: int| 0 <= k < j ==> (#[trigger] buffer@[k]) == (row[k], self.cgb_attributes),
                        decreases 8 - j,
                    {
                        if blank {
                            buffer.push((0, self.cgb_attributes));
                        } else {
                            let bit: u8 = if flip_x { j } else { 7 - j };
                            assert(row[j as int] == pixel_at(low, high, bit));
                            buffer.push((SpriteFetcher::get_decoded_pixel(bit, low, high), self.cgb_attributes));
                        }
                        j = j + 1;
                    }
                    self.fifo.fill(buffer.as_slice());
                    self.current_x_pos = self.current_x_pos.wrapping_add(SPRITE_WIDTH);
                }
            },
            FetchingState::Sleep => {},
        }
        self.fetcher_state_machine.advance();
    }

    pub fn get_tila_data_address(&self, lcd_control: u8, bg_pos: &Vec2<u8>, ly_register: u8, tile_num: u8) -> (a: u16)
        requires
            self.wf(),
        ensures
            a == tile_row_address(lcd_control, tile_num, self.tile_row(ly_register, *bg_pos)),
            a + 1 < 0x2000,
    {
        let base: u16 = if !is_bit_set(lcd_control, 4) && tile_num < 128 { 0x1000 } else { 0 };
        let line: u8 = if self.rendering_window {
            self.window_line_counter % 8
        } else {
            ((bg_pos.y as u16 + ly_register as u16) % 8) as u8
        };
        let row: u8 = if self.cgb_mode && self.cgb_attributes.attribute.flip_y { 7 - line } else { line };
        base + tile_num as u16 * 16 + 2 * row as u16
    }

    pub fn is_rendering_wnd(&self, lcd_control: u8, window_pos: &Vec2<u8>) -> (r: bool)
        ensures
            r == (window_pos.x <= self.current_x_pos && self.has_wy_reached_ly && bit_set(lcd_control, 5)),
    {
        window_pos.x <= self.current_x_pos && self.has_wy_reached_ly && is_bit_set(lcd_control, 5)
    }
}

} // verus!
