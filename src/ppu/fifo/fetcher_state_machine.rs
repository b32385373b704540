use vstd::prelude::*;

verus! {

pub const FIFO_SIZE: usize = 8;
pub const SPRITE_WIDTH: u8 = 8;

#[derive(Clone, Copy, PartialEq, Eq, Structural)]
pub enum FetchingState {
    FetchTileNumber,
    FetchLowTile,
    FetchHighTile,
    Push,
    Sleep,
}

/// What a fetcher has read so far for the tile it is working on.
#[derive(Clone, Copy)]
pub struct FetchingData {
    pub tile_data: u8,
    pub low_tile_data: u8,
    pub high_tile_data: u8,
}

impl FetchingData {
    pub fn new() -> (d: Self)
        ensures
            d.tile_data == 0 && d.low_tile_data == 0 && d.high_tile_data == 0,
    {
        FetchingData { tile_data: 0, low_tile_data: 0, high_tile_data: 0 }
    }
}

/// A fixed cycle of eight fetcher stages, one per dot.
pub struct FetcherStateMachine {
    pub states: [FetchingState; 8],
    pub index: usize,
    pub data: FetchingData,
}

impl FetcherStateMachine {
    pub open spec fn wf(&self) -> bool {
        self.index < 8
    }

    pub open spec fn state(&self) -> FetchingState {
        self.states@[self.index as int]
    }

    pub fn new(states: [FetchingState; 8]) -> (m: Self)
        ensures
            m.wf(),
            m.index == 0,
            m.states == states,
    {
        FetcherStateMachine { states, index: 0, data: FetchingData::new() }
    }

    pub fn current_state(&self) -> (s: FetchingState)
        requires
            self.wf(),
        ensures
            s == self.state(),
    {
        self.states[self.index]
    }

    pub fn advance(&mut self)
        requires
            old(self).wf(),
        ensures
            final(self).wf(),
            final(self).index == (old(self).index + 1) % 8,
            final(self).states == old(self).states,
            final(self).data == old(self).data,
    {
        self.index = (self.index + 1) % 8;
    }

    pub fn reset(&mut self)
        ensures
            final(self).wf(),
            final(self).index == 0,
            final(self).states == old(self).states,
            final(self).data == old(self).data,
    {
        self.index = 0;
    }
}

} // verus!
