use vstd::prelude::*;

verus! {

/// T-cycles between two steps of the 512 Hz frame sequencer.
pub const FRAME_SEQUENCER_PERIOD: u16 = 8192;

/// Which clocks one frame-sequencer step gives.
#[derive(Clone, Copy)]
pub struct TickType {
    pub length_counter: bool,
    pub volume_envelope: bool,
    pub frequency_sweep: bool,
}

/// The clocks of step `step`: length on even steps, sweep on 2 and 6,
/// envelope on 7.
pub open spec fn tick_of_step(step: u8) -> TickType {
    TickType {
        length_counter: step % 2 == 0,
        volume_envelope: step == 7,
        frequency_sweep: step == 2 || step == 6,
    }
}

pub struct FrameSequencer {
    pub t_cycles: u16,
    pub step: u8,
}

impl FrameSequencer {
    pub open spec fn wf(&self) -> bool {
        self.t_cycles < FRAME_SEQUENCER_PERIOD && self.step < 8
    }

    pub fn new() -> (f: Self)
        ensures
            f.wf(),
            f.t_cycles == 0,
            f.step == 0,
    {
        FrameSequencer { t_cycles: 0, step: 0 }
    }

    /// One T-cycle; every 8192nd gives the clocks of the current step and
    /// moves to the next.
    pub fn cycle(&mut self) -> (tick: TickType)
        requires
            old(self).wf(),
        ensures
            final(self).wf(),
            old(self).t_cycles + 1 == FRAME_SEQUENCER_PERIOD ==> {
                &&& tick == tick_of_step(old(self).step)
                &&& final(self).step == (old(self).step + 1) % 8
                &&& final(self).t_cycles == 0
            },
            old(self).t_cycles + 1 < FRAME_SEQUENCER_PERIOD ==> {
                &&& !tick.length_counter && !tick.volume_envelope && !tick.frequency_sweep
                &&& final(self).step == old(self).step
                &&& final(self).t_cycles == old(self).t_cycles + 1
            },
    {
        if self.t_cycles + 1 == FRAME_SEQUENCER_PERIOD {
            let step = self.step;
            self.t_cycles = 0;
            self.step = (self.step + 1) % 8;
            TickType { length_counter: step % 2 == 0, volume_envelope: step == 7, frequency_sweep: step == 2 || step == 6 }
        } else {
            self.t_cycles = self.t_cycles + 1;
            TickType { length_counter: false, volume_envelope: false, frequency_sweep: false }
        }
    }
}

} // verus!
