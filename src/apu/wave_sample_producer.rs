use vstd::prelude::*;
use super::channel::{SampleProducer, VolumeEnvlope};

verus! {

/// The wave channel plays the 32 four-bit samples of wave RAM.
pub struct WaveSampleProducer {
    pub wave_samples: [u8; 16],
    /// NR32 bits 5-6: 0 mute, 1 full, 2 half, 3 quarter.
    pub volume: u8,
    pub sample_index: u8,
}

/// The level of wave nibble `index` (high nibble first) at volume code `volume`.
pub open spec fn wave_level(samples: Seq<u8>, index: int, volume: u8) -> u8 {
    let byte = samples[index / 2];
    let nibble = if index % 2 == 0 { byte / 16 } else { byte % 16 };
    if volume == 0 { 0 } else { (nibble as int / (if volume == 1 { 1int } else if volume == 2 { 2 } else { 4 })) as u8 }
}

impl SampleProducer for WaveSampleProducer {
    fn fresh() -> Self {
        WaveSampleProducer { wave_samples: [0u8; 16], volume: 0, sample_index: 0 }
    }

    fn produce(&mut self) -> (r: u8) {
        if self.sample_index >= 32 {
            self.sample_index = 0;
        }
        let byte = self.wave_samples[(self.sample_index / 2) as usize];
        let nibble: u8 = if self.sample_index % 2 == 0 { byte / 16 } else { byte % 16 };
        self.sample_index = self.sample_index + 1;
        if self.volume == 0 {
            0
        } else if self.volume == 1 {
            nibble
        } else if self.volume == 2 {
            nibble / 2
        } else {
            nibble / 4
        }
    }

    fn get_updated_frequency_ticks(&self, freq: u16) -> u16 {
        if freq < 2048 { (2048 - freq) * 2 } else { 2 }
    }

    fn uses_volume() -> bool {
        false
    }
}

/// The noise channel: a 15-bit linear-feedback shift register.
pub struct NoiseSampleProducer {
    pub envelop: VolumeEnvlope,
    pub lfsr: u16,
    pub width_7: bool,
    pub shift: u8,
    pub divisor_code: u8,
}

/// One shift of the register: bit 0 xor bit 1 enters at bit 14 (and at bit 6
/// in 7-bit mode).
pub open spec fn lfsr_step(lfsr: u16, width_7: bool) -> u16 {
    let x = (lfsr & 1u16) ^ ((lfsr >> 1u16) & 1u16);
    let shifted = (lfsr >> 1u16) | (x << 14u16);
    if width_7 { (shifted & !0x40u16) | (x << 6u16) } else { shifted }
}

impl NoiseSampleProducer {
    pub fn step_lfsr(lfsr: u16, width_7: bool) -> (r: u16)
        ensures
            r == lfsr_step(lfsr, width_7),
    {
        let x = (lfsr & 1u16) ^ ((lfsr >> 1u16) & 1u16);
        let shifted = (lfsr >> 1u16) | (x << 14u16);
        if width_7 { (shifted & !0x40u16) | (x << 6u16) } else { shifted }
    }

    /// T-cycles between two shifts: divisor (8, 16, 32, ... 112) shifted left.
    pub fn period(divisor_code: u8, shift: u8) -> (t: u32)
        ensures
            shift < 14 ==> t == (if divisor_code % 8 == 0 { 8 } else { 16 * (divisor_code % 8) }) * (1u32 << shift),
            shift >= 14 ==> t == (if divisor_code % 8 == 0 { 8 } else { 16 * (divisor_code % 8) }),
    {
        let divisor: u32 = if divisor_code % 8 == 0 { 8 } else { 16 * (divisor_code % 8) as u32 };
        if shift < 14 {
            let p: u32 = 1u32 << shift;
            assert(shift < 14 ==> (1u32 << shift) <= 8192) by (bit_vector);
            assert(divisor * p <= 112 * 8192) by (nonlinear_arith)
                requires divisor <= 112, p <= 8192;
            divisor * p
        } else {
            divisor
        }
    }
}

impl SampleProducer for NoiseSampleProducer {
    fn fresh() -> Self {
        NoiseSampleProducer { envelop: VolumeEnvlope::new(), lfsr: 0x7FFF, width_7: false, shift: 0, divisor_code: 0 }
    }

    fn produce(&mut self) -> (r: u8) {
        self.lfsr = Self::step_lfsr(self.lfsr, self.width_7);
        if self.lfsr & 1 == 0 { 1 } else { 0 }
    }

    /// The noise clock follows NR43, not a frequency register.
    fn get_updated_frequency_ticks(&self, freq: u16) -> u16 {
        let p = Self::period(self.divisor_code, self.shift);
        if p > 0xFFFF { 0xFFFF } else { p as u16 }
    }

    fn uses_volume() -> bool {
        true
    }
}

} // verus!
