use vstd::prelude::*;
use super::tone_sweep_sample_producer::ToneSweepSampleProducer;

verus! {

/// Counts T-cycles down to the next step of a channel's waveform.
pub struct Timer {
    pub cycles_to_tick: u16,
    pub cycle_counter: u16,
}

impl Timer {
    pub fn new(cycles_to_tick: u16) -> (t: Self)
        ensures
            t.cycles_to_tick == cycles_to_tick,
            t.cycle_counter == 0,
    {
        Timer { cycles_to_tick, cycle_counter: 0 }
    }

    /// One T-cycle; true when the period has elapsed.
    pub fn cycle(&mut self) -> (r: bool)
        ensures
            final(self).cycles_to_tick == old(self).cycles_to_tick,
            r == (old(self).cycle_counter as int + 1 >= old(self).cycles_to_tick),
            r ==> final(self).cycle_counter == 0,
            !r ==> final(self).cycle_counter == old(self).cycle_counter + 1,
    {
        if self.cycle_counter as u32 + 1 >= self.cycles_to_tick as u32 {
            self.cycle_counter = 0;
            true
        } else {
            self.cycle_counter = self.cycle_counter + 1;
            false
        }
    }

    pub fn update_cycles_to_tick(&mut self, cycles_to_tick: u16)
        ensures
            final(self).cycles_to_tick == cycles_to_tick,
            final(self).cycle_counter == 0,
    {
        self.cycles_to_tick = cycles_to_tick;
        self.cycle_counter = 0;
    }
}

/// The volume envelope of the square and noise channels.
#[derive(Clone, Copy)]
pub struct VolumeEnvlope {
    pub increase_envelope: bool,
    pub number_of_envelope_sweep: u8,
    pub envelop_duration_counter: u8,
}

impl VolumeEnvlope {
    pub fn new() -> (e: Self)
        ensures
            !e.increase_envelope && e.number_of_envelope_sweep == 0 && e.envelop_duration_counter == 0,
    {
        VolumeEnvlope { increase_envelope: false, number_of_envelope_sweep: 0, envelop_duration_counter: 0 }
    }
}

/// What a channel plays: the next digital level on each step of its timer.
pub trait SampleProducer: Sized {
    fn fresh() -> Self;

    /// The next digital level, 0 to 15 before the volume is applied.
    fn produce(&mut self) -> (r: u8)
        ensures
            r < 16;

    /// T-cycles between two steps at channel frequency `freq`.
    fn get_updated_frequency_ticks(&self, freq: u16) -> u16;

    /// Whether the level is scaled by the channel's envelope volume.
    fn uses_volume() -> bool;
}

pub struct Channel<P: SampleProducer> {
    pub enabled: bool,
    pub frequency: u16,
    pub sound_length: u16,
    pub volume: u8,
    pub current_volume: u8,
    pub length_enable: bool,
    pub sample_producer: P,
    pub timer: Timer,
    pub last_sample: u8,
}

impl<P: SampleProducer> Channel<P> {
    pub open spec fn wf(&self) -> bool {
        self.volume < 16 && self.last_sample < 16 && self.frequency < 2048
    }

    pub fn new() -> (c: Self)
        ensures
            c.wf(),
            !c.enabled,
            c.sound_length == 0,
            !c.length_enable,
    {
        let sample_producer = P::fresh();
        let ticks = sample_producer.get_updated_frequency_ticks(0);
        Channel {
            enabled: false,
            frequency: 0,
            sound_length: 0,
            volume: 0,
            current_volume: 0,
            length_enable: false,
            sample_producer,
            timer: Timer::new(ticks),
            last_sample: 0,
        }
    }

    /// A length tick of the frame sequencer.
    pub fn update_length_register(&mut self)
        ensures
            final(self).length_enable == old(self).length_enable,
            final(self).volume == old(self).volume,
            final(self).frequency == old(self).frequency,
            final(self).last_sample == old(self).last_sample,
            final(self).current_volume == old(self).current_volume,
            final(self).timer == old(self).timer,
            final(self).sample_producer == old(self).sample_producer,
            old(self).length_enable ==> final(self).sound_length == if old(self).sound_length > 0 {
                old(self).sound_length - 1
            } else {
                0
            },
            old(self).length_enable ==> final(self).enabled == (old(self).enabled && final(self).sound_length != 0),
            !old(self).length_enable ==> final(self).enabled == old(self).enabled
                && final(self).sound_length == old(self).sound_length,
    {
        if self.length_enable {
            if self.sound_length > 0 {
                self.sound_length = self.sound_length - 1;
            }
            if self.sound_length == 0 {
                self.enabled = false;
            }
        }
    }

    /// Power-off of the APU: every register of the channel goes back to 0.
    pub fn reset(&mut self)
        ensures
            final(self).wf(),
            !final(self).enabled,
            final(self).frequency == 0,
            !final(self).length_enable,
            final(self).sound_length == 0,
            final(self).volume == 0,
            final(self).current_volume == 0,
    {
        self.enabled = false;
        self.frequency = 0;
        self.length_enable = false;
        self.sound_length = 0;
        self.timer.update_cycles_to_tick(self.sample_producer.get_updated_frequency_ticks(0));
        self.volume = 0;
        self.current_volume = 0;
        self.last_sample = 0;
    }

    /// One T-cycle of output: the channel's level, 0 to 15, or 0 while it is
    /// disabled.
    pub fn get_audio_sample(&mut self) -> (s: u8)
        requires
            old(self).wf(),
        ensures
            final(self).wf(),
            s < 16,
            !old(self).enabled ==> s == 0,
            final(self).enabled == old(self).enabled,
            final(self).sound_length == old(self).sound_length,
            final(self).frequency == old(self).frequency,
            final(self).volume == old(self).volume,
            final(self).length_enable == old(self).length_enable,
    {
        if !self.enabled {
            return 0;
        }
        if self.timer.cycle() {
            self.timer.update_cycles_to_tick(self.sample_producer.get_updated_frequency_ticks(self.frequency));
            self.last_sample = self.sample_producer.produce();
        }
        if P::uses_volume() {
            if self.last_sample == 0 { 0 } else { self.volume }
        } else {
            self.last_sample
        }
    }
}

/// A sweep step of channel 1: the shadow frequency moves by
/// `shadow >> shift`; a result of 2048 or more disables the channel.
pub fn update_sweep_frequency(channel: &mut Channel<ToneSweepSampleProducer>)
    requires
        old(channel).wf(),
    ensures
        final(channel).wf(),
        final(channel).sound_length == old(channel).sound_length,
        final(channel).length_enable == old(channel).length_enable,
        ({
            let sweep = old(channel).sample_producer.sweep;
            let first = sweep.next_frequency();
            (sweep.enabled && sweep.sweep_period != 0 && first >= 2048) ==> {
                &&& !final(channel).enabled
                &&& final(channel).frequency == old(channel).frequency
                &&& final(channel).sample_producer.sweep.shadow_frequency == sweep.shadow_frequency
            }
        }),
        ({
            let sweep = old(channel).sample_producer.sweep;
            let first = sweep.next_frequency();
            (sweep.enabled && sweep.sweep_period != 0 && first < 2048 && sweep.sweep_shift > 0) ==> {
                &&& final(channel).frequency == first
                &&& final(channel).sample_producer.sweep.shadow_frequency == first
                &&& final(channel).enabled == (old(channel).enabled
                    && final(channel).sample_producer.sweep.next_frequency() < 2048)
            }
        }),
        !(old(channel).sample_producer.sweep.enabled && old(channel).sample_producer.sweep.sweep_period != 0)
            ==> *final(channel) == *old(channel),
{
    if channel.sample_producer.sweep.enabled && channel.sample_producer.sweep.sweep_period != 0 {
        let new_freq = channel.sample_producer.sweep.calculate_new_frequency();
        if new_freq >= 2048 {
            channel.enabled = false;
        }
        if new_freq <= 2047 && channel.sample_producer.sweep.sweep_shift > 0 {
            channel.sample_producer.sweep.shadow_frequency = new_freq as u16;
            channel.frequency = new_freq as u16;
            let again = channel.sample_producer.sweep.calculate_new_frequency();
            if again >= 2048 {
                channel.enabled = false;
            }
        }
    }
}

} // verus!
