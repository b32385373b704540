use vstd::prelude::*;
use super::channel::{SampleProducer, VolumeEnvlope};

verus! {

/// The four square-wave duty patterns (12.5%, 25%, 50%, 75%), one step per
/// entry.
pub open spec fn duty_level(duty: u8, step: u8) -> u8 {
    let pattern: u8 = if duty == 0 {
        0b0000_0001u8
    } else if duty == 1 {
        0b1000_0001u8
    } else if duty == 2 {
        0b1000_0111u8
    } else {
        0b0111_1110u8
    };
    (pattern >> (7 - step) as u8) & 1u8
}

pub fn get_duty_level(duty: u8, step: u8) -> (r: u8)
    requires
        step < 8,
    ensures
        r == duty_level(duty, step),
        r < 2,
{
    let pattern: u8 = if duty == 0 {
        0b0000_0001u8
    } else if duty == 1 {
        0b1000_0001u8
    } else if duty == 2 {
        0b1000_0111u8
    } else {
        0b0111_1110u8
    };
    let shift: u8 = 7 - step;
    let r = (pattern >> shift) & 1u8;
    assert((pattern >> shift) & 1u8 < 2) by (bit_vector);
    r
}

/// Channel 1's frequency sweep.
#[derive(Clone, Copy)]
pub struct FreqSweep {
    pub sweep_shift: u8,
    pub sweep_decrease: bool,
    pub sweep_period: u8,
    pub shadow_frequency: u16,
    pub enabled: bool,
    pub timer: u8,
}

impl FreqSweep {
    /// `shadow ± (shadow >> shift)`, floored at 0 (the shift is three bits).
    pub open spec fn next_frequency(&self) -> int {
        let delta = (self.shadow_frequency >> (self.sweep_shift % 8)) as int;
        if self.sweep_decrease {
            if self.shadow_frequency >= delta { self.shadow_frequency - delta } else { 0 }
        } else {
            self.shadow_frequency + delta
        }
    }

    pub fn calculate_new_frequency(&self) -> (f: u32)
        ensures
            f == self.next_frequency(),
    {
        let sf = self.shadow_frequency;
        let sh = self.sweep_shift % 8;
        let delta = sf >> sh;
        assert(sf >> sh <= sf) by (bit_vector);
        if self.sweep_decrease {
            if sf >= delta { (sf - delta) as u32 } else { 0 }
        } else {
            sf as u32 + delta as u32
        }
    }
}

pub struct ToneSweepSampleProducer {
    pub wave_duty: u8,
    pub sweep: FreqSweep,
    pub envelop: VolumeEnvlope,
    pub duty_sample_pointer: u8,
}

impl SampleProducer for ToneSweepSampleProducer {
    fn fresh() -> Self {
        ToneSweepSampleProducer {
            wave_duty: 1,
            sweep: FreqSweep {
                sweep_shift: 0,
                sweep_decrease: false,
                sweep_period: 0,
                shadow_frequency: 0,
                enabled: false,
                timer: 0,
            },
            envelop: VolumeEnvlope::new(),
            duty_sample_pointer: 0,
        }
    }

    fn produce(&mut self) -> (r: u8) {
        if self.duty_sample_pointer >= 8 {
            self.duty_sample_pointer = 0;
        }
        let sample = get_duty_level(self.wave_duty, self.duty_sample_pointer);
        self.duty_sample_pointer = self.duty_sample_pointer + 1;
        sample
    }

    fn get_updated_frequency_ticks(&self, freq: u16) -> u16 {
        square_ticks(freq)
    }

    fn uses_volume() -> bool {
        true
    }
}

/// A square channel steps its duty every `(2048 - freq) * 4` T-cycles.
pub fn square_ticks(freq: u16) -> (t: u16)
    ensures
        freq < 2048 ==> t == (2048 - freq) * 4,
{
    if freq < 2048 { (2048 - freq) * 4 } else { 4 }
}

pub struct ToneSampleProducer {
    pub wave_duty: u8,
    pub envelop: VolumeEnvlope,
    pub duty_sample_pointer: u8,
}

impl SampleProducer for ToneSampleProducer {
    fn fresh() -> Self {
        ToneSampleProducer { wave_duty: 1, envelop: VolumeEnvlope::new(), duty_sample_pointer: 0 }
    }

    fn produce(&mut self) -> (r: u8) {
        if self.duty_sample_pointer >= 8 {
            self.duty_sample_pointer = 0;
        }
        let sample = get_duty_level(self.wave_duty, self.duty_sample_pointer);
        self.duty_sample_pointer = self.duty_sample_pointer + 1;
        sample
    }

    fn get_updated_frequency_ticks(&self, freq: u16) -> u16 {
        square_ticks(freq)
    }

    fn uses_volume() -> bool {
        true
    }
}

} // verus!
