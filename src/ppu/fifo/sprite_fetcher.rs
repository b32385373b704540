use vstd::prelude::*;
use crate::fixed_size_queue::FixedSizeQueue;
use crate::ppu::attributes::{bit_set, is_bit_set, Attributes, Pallete, SpriteAttributes};
use crate::ppu::vram::VRam;
use super::background_fetcher::pixel_at;
use super::fetcher_state_machine::{FetcherStateMachine, FetchingData, FetchingState, FIFO_SIZE, SPRITE_WIDTH};

verus! {

pub const NORMAL_SPRITE_HIGHT: u8 = 8;
pub const EXTENDED_SPRITE_HIGHT: u8 = 16;
pub const MAX_SPRITES_PER_LINE: usize = 10;
pub const OAM_ENTRIES: usize = 40;

/// Sprite height in lines under LCDC bit 2.
pub open spec fn sprite_height(lcd_control: u8) -> int {
    if bit_set(lcd_control, 2) { 16 } else { 8 }
}

/// Whether OAM entry `i` has line `ly` in its vertical range.
pub open spec fn covers(oam: Seq<u8>, i: int, ly: u8, height: int) -> bool {
    ly + 16 >= oam[4 * i] && ly + 16 < oam[4 * i] + height
}

/// OAM indices, in OAM order, of the sprites the scan picks among the first
/// `n` entries: those covering the line, up to ten.
pub open spec fn selected(oam: Seq<u8>, ly: u8, height: int, n: int) -> Seq<int>
    decreases n,
{
    if n <= 0 {
        Seq::empty()
    } else {
        let s = selected(oam, ly, height, n - 1);
        if covers(oam, n - 1, ly, height) && s.len() < MAX_SPRITES_PER_LINE {
            s.push(n - 1)
        } else {
            s
        }
    }
}

/// The sprite that OAM entry `i` describes.
pub open spec fn sprite_entry(oam: Seq<u8>, i: int, cgb_mode: bool) -> SpriteAttributes {
    let attr = oam[4 * i + 3];
    SpriteAttributes {
        y: oam[4 * i],
        x: oam[4 * i + 1],
        tile_number: oam[4 * i + 2],
        palette_number: if cgb_mode { Pallete::GbcPallete(attr % 8) } else { Pallete::GbPallete(bit_set(attr, 4)) },
        attribute: Attributes {
            priority: bit_set(attr, 7),
            flip_y: bit_set(attr, 6),
            flip_x: bit_set(attr, 5),
            bank: cgb_mode && bit_set(attr, 3),
        },
        oam_index: i as u8,
    }
}

/// VRAM offset of the row of tile `tile` that sprite `s` shows on line `ly`
/// (`size` lines high, flipped vertically by its attribute).
pub open spec fn sprite_row_address(ly: u8, s: SpriteAttributes, size: u8, tile: u8) -> int {
    let line = if s.y <= ly + 16 { ly + 16 - s.y } else { 0 };
    let row = line % (size as int);
    tile * 16 + 2 * (if s.attribute.flip_y { size - 1 - row } else { row })
}

/// The VRAM bank a sprite's tiles come from.
pub open spec fn sprite_bank(s: SpriteAttributes) -> int {
    if s.attribute.bank { 1 } else { 0 }
}

/// The color number of column `column` (0 = left) of sprite `s`'s tile row.
pub open spec fn sprite_pixel(low: u8, high: u8, s: SpriteAttributes, column: int) -> u8 {
    pixel_at(low, high, if s.attribute.flip_x { column as u8 } else { (7 - column) as u8 })
}

/// Whether the pixel held in a fifo slot from sprite `held` gives way to an
/// opaque pixel of sprite `incoming`: on GBC the lower OAM index wins.
pub open spec fn loses_to(entries: Seq<SpriteAttributes>, cgb_mode: bool, held: u8, incoming: u8) -> bool {
    cgb_mode && entries[incoming as int].oam_index < entries[held as int].oam_index
}

/// Slot `k` of the sprite fifo after merging `pixel` from sprite `entry`:
/// a new or transparent slot takes it; an opaque one keeps its pixel unless,
/// on GBC, the incoming opaque pixel's sprite has the lower OAM index.
pub open spec fn merged(fifo: Seq<(u8, u8)>, k: int, pixel: u8, entry: u8, entries: Seq<SpriteAttributes>, cgb_mode: bool) -> (u8, u8) {
    if k >= fifo.len() || fifo[k].0 == 0 || (pixel != 0 && loses_to(entries, cgb_mode, fifo[k].1, entry)) {
        (pixel, entry)
    } else {
        fifo[k]
    }
}

/// Drawing order: by x, then by OAM index.
pub open spec fn before(a: SpriteAttributes, b: SpriteAttributes) -> bool {
    a.x < b.x || (a.x == b.x && a.oam_index < b.oam_index)
}

pub open spec fn sorted(s: Seq<SpriteAttributes>) -> bool {
    forall|i: int, j: int| 0 <= i < j < s.len() ==> before(#[trigger] s[i], #[trigger] s[j])
}

pub struct SpriteFetcher {
    pub fifo: FixedSizeQueue<(u8, u8), FIFO_SIZE>,
    pub oam_entries: Vec<SpriteAttributes>,
    pub rendering: bool,
    pub fetcher_state_machine: FetcherStateMachine,
    pub current_oam_entry: u8,
    pub cgb_mode: bool,
}

impl SpriteFetcher {
    pub open spec fn wf(&self) -> bool {
        &&& self.fifo.wf()
        &&& self.fifo@.len() <= FIFO_SIZE
        &&& self.oam_entries@.len() <= MAX_SPRITES_PER_LINE
        &&& self.current_oam_entry <= self.oam_entries@.len()
        &&& self.fetcher_state_machine.wf()
        &&& self.fetcher_state_machine.states@ == seq![
            FetchingState::FetchTileNumber, FetchingState::Sleep, FetchingState::Sleep, FetchingState::FetchLowTile,
            FetchingState::Sleep, FetchingState::FetchHighTile, FetchingState::Sleep, FetchingState::Push,
        ]
        &&& (self.fetcher_state_machine.index != 0 ==> self.current_oam_entry < self.oam_entries@.len())
        &&& (forall|k: int| 0 <= k < self.fifo@.len() ==> (#[trigger] self.fifo@[k]).1 < self.oam_entries@.len())
        &&& (forall|k: int| 0 <= k < self.fifo@.len() ==> (#[trigger] self.fifo@[k]).0 < 4)
        &&& (forall|k: int| 0 <= k < self.oam_entries@.len() ==> Self::entry_ok(#[trigger] self.oam_entries@[k]))
    }

    pub open spec fn entry_ok(s: SpriteAttributes) -> bool {
        match s.palette_number {
            Pallete::GbcPallete(p) => p < 8,
            Pallete::GbPallete(_) => true,
        }
    }

    pub fn new(cgb_mode: bool) -> (f: Self)
        ensures
            f.wf(),
            f.cgb_mode == cgb_mode,
            f.oam_entries@.len() == 0,
            f.fifo@.len() == 0,
            !f.rendering,
    {
        let states = [
            FetchingState::FetchTileNumber, FetchingState::Sleep, FetchingState::Sleep, FetchingState::FetchLowTile,
            FetchingState::Sleep, FetchingState::FetchHighTile, FetchingState::Sleep, FetchingState::Push,
        ];
        let f = SpriteFetcher {
            fetcher_state_machine: FetcherStateMachine::new(states),
            current_oam_entry: 0,
            oam_entries: Vec::new(),
            fifo: FixedSizeQueue::new(),
            rendering: false,
            cgb_mode,
        };
        assert(f.fetcher_state_machine.states@ =~= seq![
            FetchingState::FetchTileNumber, FetchingState::Sleep, FetchingState::Sleep, FetchingState::FetchLowTile,
            FetchingState::Sleep, FetchingState::FetchHighTile, FetchingState::Sleep, FetchingState::Push,
        ]);
        f
    }

    pub fn reset(&mut self)
        requires
            old(self).wf(),
        ensures
            final(self).wf(),
            final(self).oam_entries@.len() == 0,
            final(self).fifo@.len() == 0,
            final(self).current_oam_entry == 0,
            !final(self).rendering,
            final(self).cgb_mode == old(self).cgb_mode,
    {
        self.current_oam_entry = 0;
        self.oam_entries.clear();
        self.fetcher_state_machine.reset();
        self.fifo.clear();
        self.rendering = false;
    }

    /// The OAM scan of a line: picks, in OAM order, the first ten sprites whose
    /// vertical range covers the line, and keeps them sorted by x (ties by OAM
    /// index).
    pub fn select_sprites(&mut self, oam: &Vec<u8>, ly_register: u8, lcd_control: u8)
        requires
            old(self).wf(),
            old(self).oam_entries@.len() == 0,
            old(self).current_oam_entry == 0,
            old(self).fetcher_state_machine.index == 0,
            oam@.len() == 4 * OAM_ENTRIES,
        ensures
            final(self).wf(),
            final(self).cgb_mode == old(self).cgb_mode,
            final(self).fifo@ == old(self).fifo@,
            final(self).current_oam_entry == 0,
            final(self).fetcher_state_machine == old(self).fetcher_state_machine,
            final(self).rendering == old(self).rendering,
            ({
                let chosen = selected(oam@, ly_register, sprite_height(lcd_control), OAM_ENTRIES as int);
                let e = final(self).oam_entries@;
                &&& e.len() == chosen.len()
                &&& sorted(e)
                &&& forall|k: int| 0 <= k < e.len() ==> chosen.contains((#[trigger] e[k]).oam_index as int)
                    && e[k] == sprite_entry(oam@, e[k].oam_index as int, final(self).cgb_mode)
            }),
    {
        let height: u8 = if is_bit_set(lcd_control, 2) { EXTENDED_SPRITE_HIGHT } else { NORMAL_SPRITE_HIGHT };
        let ghost h = sprite_height(lcd_control);
        let mut i: usize = 0;
        while i < OAM_ENTRIES
            invariant
                self.wf(),
                i <= OAM_ENTRIES,
                oam@.len() == 4 * OAM_ENTRIES,
                h == height as int,
                self.cgb_mode == old(self).cgb_mode,
                self.fifo@ == old(self).fifo@,
                self.current_oam_entry == 0,
                self.fetcher_state_machine == old(self).fetcher_state_machine,
                self.rendering == old(self).rendering,
                self.oam_entries@.len() == selected(oam@, ly_register, h, i as int).len(),
                sorted(self.oam_entries@),
                forall|k: int| 0 <= k < self.oam_entries@.len() ==> (#[trigger] self.oam_entries@[k]).oam_index < i,
                forall|k: int| 0 <= k < self.oam_entries@.len() ==>
                    selected(oam@, ly_register, h, i as int).contains((#[trigger] self.oam_entries@[k]).oam_index as int)
                    && self.oam_entries@[k] == sprite_entry(oam@, self.oam_entries@[k].oam_index as int, self.cgb_mode),
            decreases OAM_ENTRIES - i,
        {
            let ghost prev = selected(oam@, ly_register, h, i as int);
            let ghost old_entries = self.oam_entries@;
            let y = oam[4 * i];
            let x = oam[4 * i + 1];
            if ly_register as u16 + 16 >= y as u16 && (ly_register as u16 + 16) < y as u16 + height as u16
                && self.oam_entries.len() < MAX_SPRITES_PER_LINE {
                let tile_number = oam[4 * i + 2];
                let attributes = oam[4 * i + 3];
                let mut entry = if self.cgb_mode {
                    SpriteAttributes::new_gbc(y, x, tile_number, attributes, i as u8)
                } else {
                    SpriteAttributes::new_gb(y, x, tile_number, attributes)
                };
                entry.oam_index = i as u8;
                proof {
                    assert(attributes % 8 < 8);
                }
                let mut p: usize = 0;
                while p < self.oam_entries.len() && self.oam_entries[p].x <= x
                    invariant
                        p <= self.oam_entries@.len(),
                        forall|k: int| 0 <= k < p ==> (#[trigger] self.oam_entries@[k]).x <= x,
                    decreases self.oam_entries@.len() - p,
                {
                    p = p + 1;
                }
                proof {
                    assert forall|k: int| p <= k < old_entries.len() implies (#[trigger] old_entries[k]).x > x by {
                        if k > p {
                            assert(before(old_entries[p as int], old_entries[k]));
                        }
                    }
                }
                self.oam_entries.insert(p, entry);
                proof {
                    let e = self.oam_entries@;
                    assert(e == old_entries.insert(p as int, entry));
                    assert(selected(oam@, ly_register, h, i + 1) == prev.push(i as int));
                    assert forall|a: int, b: int| 0 <= a < b < e.len() implies before(#[trigger] e[a], #[trigger] e[b]) by {
                        if a < p && b < p {
                            assert(before(old_entries[a], old_entries[b]));
                        } else if a < p && b == p {
                        } else if a < p && b > p {
                            assert(before(old_entries[a], old_entries[b - 1]));
                        } else if a == p {
                        } else {
                            assert(before(old_entries[a - 1], old_entries[b - 1]));
                        }
                    }
                    assert forall|k: int| 0 <= k < e.len() implies
                        selected(oam@, ly_register, h, i + 1).contains((#[trigger] e[k]).oam_index as int)
                        && e[k] == sprite_entry(oam@, e[k].oam_index as int, self.cgb_mode) by {
                        let s1 = selected(oam@, ly_register, h, i + 1);
                        if k < p {
                            assert(prev.contains(e[k].oam_index as int));
                            let w = choose|w: int| 0 <= w < prev.len() && prev[w] == e[k].oam_index as int;
                            assert(s1[w] == e[k].oam_index as int);
                        } else if k == p {
                            assert(s1[prev.len() as int] == i as int);
                        } else {
                            assert(prev.contains(e[k].oam_index as int));
                            let w = choose|w: int| 0 <= w < prev.len() && prev[w] == e[k].oam_index as int;
                            assert(s1[w] == e[k].oam_index as int);
                        }
                    }
                }
            } else {
                proof {
                    assert(selected(oam@, ly_register, h, i + 1) == prev);
                }
            }
            i = i + 1;
        }
    }

    /// One dot of the sprite fetcher, at screen column `current_x_pos`.
    pub fn fetch_pixels(&mut self, vram: &VRam, lcd_control: u8, ly_register: u8, current_x_pos: u8)
        requires
            old(self).wf(),
            vram.wf(),
        ensures
            final(self).wf(),
            final(self).cgb_mode == old(self).cgb_mode,
            final(self).oam_entries == old(self).oam_entries,
            final(self).fifo@.len() >= old(self).fifo@.len(),
            !old(self).cgb_mode ==> forall|k: int| 0 <= k < old(self).fifo@.len() && old(self).fifo@[k].0 != 0
                ==> #[trigger] final(self).fifo@[k] == old(self).fifo@[k],
            old(self).fetcher_state_machine.state() == FetchingState::FetchTileNumber ==> {
                final(self).rendering == (old(self).current_oam_entry < old(self).oam_entries@.len()
                    && Self::starts_at(old(self).oam_entries@[old(self).current_oam_entry as int], current_x_pos))
            },
            old(self).fetcher_state_machine.state() != FetchingState::FetchTileNumber ==>
                final(self).rendering == old(self).rendering,
            old(self).fetcher_state_machine.state() == FetchingState::FetchTileNumber && final(self).rendering ==> {
                &&& final(self).fetcher_state_machine.data.tile_data == Self::tile_of(
                    old(self).oam_entries@[old(self).current_oam_entry as int], lcd_control)
                &&& final(self).fetcher_state_machine.index == 1
            },
            old(self).fetcher_state_machine.state() == FetchingState::Push ==> {
                &&& final(self).current_oam_entry == old(self).current_oam_entry + 1
                &&& final(self).fetcher_state_machine.index == (old(self).fetcher_state_machine.index + 1) % 8
            },
            old(self).fetcher_state_machine.state() != FetchingState::Push ==> final(self).current_oam_entry
                == old(self).current_oam_entry,
            old(self).fetcher_state_machine.state() == FetchingState::Push ==> ({
                let e = old(self).oam_entries@[old(self).current_oam_entry as int];
                let low = old(self).fetcher_state_machine.data.low_tile_data;
                let high = old(self).fetcher_state_machine.data.high_tile_data;
                let count = e.x - current_x_pos;
                Self::starts_at(e, current_x_pos) ==> {
                    &&& final(self).fifo@.len() == if count > old(self).fifo@.len() { count } else { old(self).fifo@.len() as int }
                    &&& forall|k: int| 0 <= k < count ==> #[trigger] final(self).fifo@[k] == merged(old(self).fifo@, k,
                        sprite_pixel(low, high, e, 8 - count + k), old(self).current_oam_entry,
                        old(self).oam_entries@, old(self).cgb_mode)
                    &&& forall|k: int| count <= k < old(self).fifo@.len() ==> #[trigger] final(self).fifo@[k]
                        == old(self).fifo@[k]
                }
            }),
            ({
                let size: u8 = if bit_set(lcd_control, 2) { 16 } else { 8 };
                let e = old(self).oam_entries@[old(self).current_oam_entry as int];
                let data = final(self).fetcher_state_machine.data;
                &&& old(self).fetcher_state_machine.state() == FetchingState::FetchLowTile ==> data.low_tile_data
                    == vram.byte(sprite_bank(e), sprite_row_address(ly_register, e, size, data.tile_data))
                &&& old(self).fetcher_state_machine.state() == FetchingState::FetchHighTile ==> data.high_tile_data
                    == vram.byte(sprite_bank(e), sprite_row_address(ly_register, e, size, data.tile_data) + 1)
            }),
    {
        let sprite_size: u8 = if is_bit_set(lcd_control, 2) { EXTENDED_SPRITE_HIGHT } else { NORMAL_SPRITE_HIGHT };
        match self.fetcher_state_machine.current_state() {
            FetchingState::FetchTileNumber => {
                self.try_fetch_tile_number(current_x_pos, lcd_control);
            },
            FetchingState::FetchLowTile => {
                let tile_num = self.fetcher_state_machine.data.tile_data;
                let oam_attribute = self.oam_entries[self.current_oam_entry as usize];
                let address = Self::get_current_tile_data_address(ly_register, &oam_attribute, sprite_size, tile_num);
                let bank: u8 = if oam_attribute.attribute.bank { 1 } else { 0 };
                self.fetcher_state_machine.data.low_tile_data = vram.read_bank(address, bank);
                self.fetcher_state_machine.advance();
            },
            FetchingState::FetchHighTile => {
                let tile_num = self.fetcher_state_machine.data.tile_data;
                let oam_attribute = self.oam_entries[self.current_oam_entry as usize];
                let address = Self::get_current_tile_data_address(ly_register, &oam_attribute, sprite_size, tile_num);
                let bank: u8 = if oam_attribute.attribute.bank { 1 } else { 0 };
                self.fetcher_state_machine.data.high_tile_data = vram.read_bank(address + 1, bank);
                self.fetcher_state_machine.advance();
            },
            FetchingState::Push => {
                self.push_sprite_pixels(current_x_pos);
                self.current_oam_entry = self.current_oam_entry + 1;
                self.fetcher_state_machine.advance();
            },
            FetchingState::Sleep => self.fetcher_state_machine.advance(),
        }
    }

    /// The tile a sprite's rows come from: in 8x16 mode bit 0 of its tile
    /// number is ignored.
    pub open spec fn tile_of(s: SpriteAttributes, lcd_control: u8) -> u8 {
        if bit_set(lcd_control, 2) { s.tile_number & 0xFE } else { s.tile_number }
    }

    /// Whether a sprite's eight columns (`x - 8 .. x`) reach column `x_pos`
    /// and are not yet behind it.
    pub open spec fn starts_at(s: SpriteAttributes, x_pos: u8) -> bool {
        s.x <= x_pos + SPRITE_WIDTH && x_pos < s.x
    }

    /// Merges the visible pixels of the current sprite into the sprite fifo:
    /// a slot already holding an opaque pixel keeps it.
    fn push_sprite_pixels(&mut self, current_x_pos: u8)
        requires
            old(self).wf(),
            old(self).current_oam_entry < old(self).oam_entries@.len(),
        ensures
            final(self).wf(),
            final(self).cgb_mode == old(self).cgb_mode,
            final(self).oam_entries == old(self).oam_entries,
            final(self).current_oam_entry == old(self).current_oam_entry,
            final(self).fetcher_state_machine == old(self).fetcher_state_machine,
            final(self).rendering == old(self).rendering,
            final(self).fifo@.len() >= old(self).fifo@.len(),
            !old(self).cgb_mode ==> forall|k: int| 0 <= k < old(self).fifo@.len() && old(self).fifo@[k].0 != 0
                ==> #[trigger] final(self).fifo@[k] == old(self).fifo@[k],
            // every visible column of the sprite is merged in
            ({
                let e = old(self).oam_entries@[old(self).current_oam_entry as int];
                let low = old(self).fetcher_state_machine.data.low_tile_data;
                let high = old(self).fetcher_state_machine.data.high_tile_data;
                let count = e.x - current_x_pos;
                Self::starts_at(e, current_x_pos) ==> {
                    &&& final(self).fifo@.len() == if count > old(self).fifo@.len() { count } else { old(self).fifo@.len() as int }
                    &&& forall|k: int| 0 <= k < count ==> #[trigger] final(self).fifo@[k] == merged(old(self).fifo@, k,
                        sprite_pixel(low, high, e, 8 - count + k), old(self).current_oam_entry,
                        old(self).oam_entries@, old(self).cgb_mode)
                    &&& forall|k: int| count <= k < old(self).fifo@.len() ==> #[trigger] final(self).fifo@[k]
                        == old(self).fifo@[k]
                }
            }),
            !Self::starts_at(old(self).oam_entries@[old(self).current_oam_entry as int], current_x_pos)
                ==> final(self).fifo@ == old(self).fifo@,
    {
        let low = self.fetcher_state_machine.data.low_tile_data;
        let high = self.fetcher_state_machine.data.high_tile_data;
        let entry = self.current_oam_entry;
        let oam_attribute = self.oam_entries[entry as usize];
        if !(current_x_pos < oam_attribute.x && oam_attribute.x as u16 <= current_x_pos as u16 + 8) {
            return;
        }
        let skip_x: u8 = 8 - (oam_attribute.x - current_x_pos);
        let count: u8 = 8 - skip_x;
        let start_x = self.fifo.len();
        let mut k: u8 = 0;
        while k < count
            invariant
                self.wf(),
                k <= count,
                count <= 8,
                skip_x + count == 8,
                entry < self.oam_entries@.len(),
                self.oam_entries == old(self).oam_entries,
                self.cgb_mode == old(self).cgb_mode,
                self.current_oam_entry == old(self).current_oam_entry,
                self.fetcher_state_machine == old(self).fetcher_state_machine,
                self.rendering == old(self).rendering,
                start_x == old(self).fifo@.len(),
                self.fifo@.len() == if k as int > start_x { k as int } else { start_x as int },
                !self.cgb_mode ==> forall|j: int| 0 <= j < old(self).fifo@.len() && old(self).fifo@[j].0 != 0
                    ==> #[trigger] self.fifo@[j] == old(self).fifo@[j],
                low == old(self).fetcher_state_machine.data.low_tile_data,
                high == old(self).fetcher_state_machine.data.high_tile_data,
                oam_attribute == old(self).oam_entries@[entry as int],
                entry == old(self).current_oam_entry,
                count == oam_attribute.x - current_x_pos,
                forall|j: int| 0 <= j < k ==> #[trigger] self.fifo@[j] == merged(old(self).fifo@, j,
                    sprite_pixel(low, high, oam_attribute, skip_x + j), entry,
                    old(self).oam_entries@, old(self).cgb_mode),
                forall|j: int| k <= j < old(self).fifo@.len() ==> #[trigger] self.fifo@[j] == old(self).fifo@[j],
                forall|j: int| 0 <= j < self.fifo@.len() ==> (#[trigger] self.fifo@[j]).1 < self.oam_entries@.len(),
            decreases count - k,
        {
            let column: u8 = skip_x + k;
            let bit: u8 = if oam_attribute.attribute.flip_x { column } else { 7 - column };
            let pixel = Self::get_decoded_pixel(bit, low, high);
            if k as usize >= start_x {
                self.fifo.push((pixel, entry));
            } else {
                let held = self.fifo.get(k as usize);
                if held.0 == 0 || (pixel != 0 && self.is_sprite_lose_priority(held.1, entry)) {
                    self.fifo.set(k as usize, (pixel, entry));
                }
            }
            k = k + 1;
        }
    }

    /// Whether the pixel in the fifo from sprite `held` gives way to sprite
    /// `incoming`: on GBC the lower OAM index wins.
    fn is_sprite_lose_priority(&self, held: u8, incoming: u8) -> (r: bool)
        requires
            self.wf(),
            held < self.oam_entries@.len(),
            incoming < self.oam_entries@.len(),
        ensures
            r == loses_to(self.oam_entries@, self.cgb_mode, held, incoming),
    {
        self.cgb_mode && self.oam_entries[incoming as usize].oam_index < self.oam_entries[held as usize].oam_index
    }

    fn try_fetch_tile_number(&mut self, current_x_pos: u8, lcd_control: u8)
        requires
            old(self).wf(),
            old(self).fetcher_state_machine.index == 0,
        ensures
            final(self).wf(),
            final(self).cgb_mode == old(self).cgb_mode,
            final(self).oam_entries == old(self).oam_entries,
            final(self).fifo@ == old(self).fifo@,
            final(self).current_oam_entry == old(self).current_oam_entry,
            final(self).rendering == (old(self).current_oam_entry < old(self).oam_entries@.len()
                && Self::starts_at(old(self).oam_entries@[old(self).current_oam_entry as int], current_x_pos)),
            final(self).rendering ==> final(self).fetcher_state_machine.data.tile_data == Self::tile_of(
                old(self).oam_entries@[old(self).current_oam_entry as int], lcd_control)
                && final(self).fetcher_state_machine.index == 1,
    {
        if (self.current_oam_entry as usize) < self.oam_entries.len() {
            let oam_entry = self.oam_entries[self.current_oam_entry as usize];
            if oam_entry.x as u16 <= current_x_pos as u16 + 8 && current_x_pos < oam_entry.x {
                let mut tile_number = oam_entry.tile_number;
                if is_bit_set(lcd_control, 2) {
                    tile_number = tile_number & 0xFE;
                }
                self.rendering = true;
                self.fetcher_state_machine.data = FetchingData::new();
                self.fetcher_state_machine.data.tile_data = tile_number;
                self.fetcher_state_machine.advance();
                return;
            }
        }
        self.rendering = false;
    }

    /// The color number of bit `index` of a tile row.
    pub fn get_decoded_pixel(index: u8, low_data: u8, high_data: u8) -> (p: u8)
        requires
            index < 8,
        ensures
            p == pixel_at(low_data, high_data, index),
            p < 4,
    {
        let p = ((low_data >> index) & 1u8) | (((high_data >> index) & 1u8) << 1u8);
        assert(((low_data >> index) & 1u8) | (((high_data >> index) & 1u8) << 1u8) < 4) by (bit_vector);
        p
    }

    /// VRAM offset of the line of the sprite's tile that `ly_register` shows.
    pub fn get_current_tile_data_address(ly_register: u8, sprite_attrib: &SpriteAttributes, sprite_size: u8, tile_num: u8) -> (a: u16)
        requires
            sprite_size == 8 || sprite_size == 16,
        ensures
            a + 1 < 0x2000,
            a == sprite_row_address(ly_register, *sprite_attrib, sprite_size, tile_num),
            sprite_attrib.y <= ly_register + 16 && ly_register + 16 < sprite_attrib.y + sprite_size ==> a == tile_num * 16 + 2 * (
                if sprite_attrib.attribute.flip_y {
                    sprite_size - 1 - (ly_register + 16 - sprite_attrib.y)
                } else {
                    ly_register + 16 - sprite_attrib.y
                }),
    {
        let line: u16 = if sprite_attrib.y as u16 <= ly_register as u16 + 16 {
            ly_register as u16 + 16 - sprite_attrib.y as u16
        } else {
            0
        };
        let row: u16 = line % sprite_size as u16;
        let row: u16 = if sprite_attrib.attribute.flip_y { sprite_size as u16 - 1 - row } else { row };
        tile_num as u16 * 16 + 2 * row
    }
}

} // verus!
