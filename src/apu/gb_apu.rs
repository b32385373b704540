use vstd::prelude::*;
use crate::ppu::attributes::{bit_set, is_bit_set};
use super::channel::{update_sweep_frequency, Channel, VolumeEnvlope};
use super::frame_sequencer::{FrameSequencer, TickType};
use super::tone_sweep_sample_producer::{ToneSampleProducer, ToneSweepSampleProducer};
use super::wave_sample_producer::{NoiseSampleProducer, WaveSampleProducer};

verus! {

/// Stereo frames in one buffer handed to the audio sink.
pub const AUDIO_BUFFER_SIZE: usize = 0x400;

/// One output side (NR50 volume, NR51 channel selection).
#[derive(Clone, Copy)]
pub struct SoundTerminal {
    pub enabled: bool,
    pub volume: u8,
    pub channels: [bool; 4],
}

impl SoundTerminal {
    pub fn new() -> (t: Self)
        ensures
            t.volume == 0,
    {
        SoundTerminal { enabled: false, volume: 0, channels: [false; 4] }
    }
}

/// A terminal's output: the sum of its selected channels' levels (0-15),
/// scaled by its volume plus one, times 64.
pub open spec fn mix(levels: Seq<u8>, t: SoundTerminal) -> int {
    let sum = (if t.channels[0] { levels[0] as int } else { 0 }) + (if t.channels[1] { levels[1] as int } else { 0 })
        + (if t.channels[2] { levels[2] as int } else { 0 }) + (if t.channels[3] { levels[3] as int } else { 0 });
    sum * (t.volume + 1) * 64
}

pub fn mix_terminal(levels: &[u8; 4], t: &SoundTerminal) -> (s: i16)
    requires
        forall|i: int| 0 <= i < 4 ==> levels@[i] < 16,
        t.volume < 8,
    ensures
        s == mix(levels@, *t),
{
    let mut sum: u16 = 0;
    if t.channels[0] {
        sum = sum + levels[0] as u16;
    }
    if t.channels[1] {
        sum = sum + levels[1] as u16;
    }
    if t.channels[2] {
        sum = sum + levels[2] as u16;
    }
    if t.channels[3] {
        sum = sum + levels[3] as u16;
    }
    assert(sum * (t.volume + 1) * 64 <= 60 * 8 * 64) by (nonlinear_arith)
        requires sum <= 60, t.volume < 8;
    (sum as i32 * (t.volume as i32 + 1) * 64) as i16
}

/// One envelope clock as `update_envelope` applies it.
pub open spec fn envelope_stepped(volume: u8, env: VolumeEnvlope, new_volume: u8, new_env: VolumeEnvlope) -> bool {
    let period = if env.number_of_envelope_sweep % 8 == 0 { 8 } else { env.number_of_envelope_sweep % 8 };
    &&& new_env.increase_envelope == env.increase_envelope
    &&& new_env.number_of_envelope_sweep == env.number_of_envelope_sweep
    &&& if env.envelop_duration_counter >= period - 1 {
        &&& new_env.envelop_duration_counter == 0
        &&& new_volume == if env.increase_envelope {
            if volume < 15 { volume + 1 } else { 15 }
        } else {
            if volume > 0 { volume - 1 } else { 0 }
        }
    } else {
        &&& new_env.envelop_duration_counter == env.envelop_duration_counter + 1
        &&& new_volume == volume
    }
}

/// One envelope clock: every `period` clocks (a period of 0 counts as 8) the
/// volume moves one step up or down within 0-15.
pub fn update_envelope(volume: &mut u8, envelop: &mut VolumeEnvlope)
    requires
        *old(volume) < 16,
    ensures
        *final(volume) < 16,
        final(envelop).increase_envelope == old(envelop).increase_envelope,
        final(envelop).number_of_envelope_sweep == old(envelop).number_of_envelope_sweep,
        envelope_stepped(*old(volume), *old(envelop), *final(volume), *final(envelop)),
{
    let period: u8 = if envelop.number_of_envelope_sweep % 8 == 0 { 8 } else { envelop.number_of_envelope_sweep % 8 };
    if envelop.envelop_duration_counter >= period - 1 {
        envelop.envelop_duration_counter = 0;
        if envelop.increase_envelope {
            if *volume < 15 {
                *volume = *volume + 1;
            }
        } else if *volume > 0 {
            *volume = *volume - 1;
        }
    } else {
        envelop.envelop_duration_counter = envelop.envelop_duration_counter + 1;
    }
}

/// A length clock on a channel with length-enable `le`, enabled flag `en`
/// and counter `len`: the counter steps down to 0 and the channel stops at 0.
pub open spec fn length_ticked(le: bool, en: bool, len: u16, new_en: bool, new_len: u16) -> bool {
    if le {
        new_len == (if len > 0 { len - 1 } else { 0 }) && new_en == (en && new_len != 0)
    } else {
        new_en == en && new_len == len
    }
}

/// A stereo sample pair is the two terminals' mix of the same four channel
/// levels.
pub open spec fn mixed_pair(left: i16, right: i16, t1: SoundTerminal, t2: SoundTerminal) -> bool {
    exists|l: Seq<u8>| l.len() == 4 && (forall|q: int| 0 <= q < 4 ==> l[q] < 16) && left == mix(l, t1) && right == mix(l, t2)
}

pub struct GbApu {
    pub sweep_tone_channel: Channel<ToneSweepSampleProducer>,
    pub tone_channel: Channel<ToneSampleProducer>,
    pub wave_channel: Channel<WaveSampleProducer>,
    pub noise_channel: Channel<NoiseSampleProducer>,
    pub frame_sequencer: FrameSequencer,
    /// The buffer being filled: left and right sample of each frame in turn.
    pub audio_buffer: Vec<i16>,
    /// Full buffers not yet taken by the audio sink.
    pub full_buffers: Vec<Vec<i16>>,
    /// Stereo frames produced since power-on.
    pub samples_produced: u64,
    pub terminal1: SoundTerminal,
    pub terminal2: SoundTerminal,
    pub enabled: bool,
}

impl GbApu {
    pub open spec fn wf(&self) -> bool {
        &&& self.sweep_tone_channel.wf()
        &&& self.tone_channel.wf()
        &&& self.wave_channel.wf()
        &&& self.noise_channel.wf()
        &&& self.frame_sequencer.wf()
        &&& self.audio_buffer@.len() < 2 * AUDIO_BUFFER_SIZE
        &&& self.audio_buffer@.len() % 2 == 0
        &&& self.terminal1.volume < 8
        &&& self.terminal2.volume < 8
    }

    /// Channels 1, 2 and 4, when on, took one envelope clock; when off
    /// their volume is kept.
    pub open spec fn envelope_clocked(old_apu: GbApu, new_apu: GbApu) -> bool {
        &&& old_apu.sweep_tone_channel.enabled ==> envelope_stepped(old_apu.sweep_tone_channel.volume,
            old_apu.sweep_tone_channel.sample_producer.envelop, new_apu.sweep_tone_channel.volume,
            new_apu.sweep_tone_channel.sample_producer.envelop)
        &&& !old_apu.sweep_tone_channel.enabled ==> new_apu.sweep_tone_channel.volume == old_apu.sweep_tone_channel.volume
        &&& old_apu.tone_channel.enabled ==> envelope_stepped(old_apu.tone_channel.volume,
            old_apu.tone_channel.sample_producer.envelop, new_apu.tone_channel.volume,
            new_apu.tone_channel.sample_producer.envelop)
        &&& !old_apu.tone_channel.enabled ==> new_apu.tone_channel.volume == old_apu.tone_channel.volume
        &&& old_apu.noise_channel.enabled ==> envelope_stepped(old_apu.noise_channel.volume,
            old_apu.noise_channel.sample_producer.envelop, new_apu.noise_channel.volume,
            new_apu.noise_channel.sample_producer.envelop)
        &&& !old_apu.noise_channel.enabled ==> new_apu.noise_channel.volume == old_apu.noise_channel.volume
    }

    /// The sweep clock at hand is channel 1's sweep step, and the step's new
    /// frequency is 2048 or more.
    pub open spec fn sweep_overflows(apu: GbApu) -> bool {
        let sweep = apu.sweep_tone_channel.sample_producer.sweep;
        sweep.timer <= 1 && sweep.enabled && sweep.sweep_period != 0 && sweep.next_frequency() >= 2048
    }

    /// Every sample produced and not yet taken, oldest first: the full
    /// buffers, then the one being filled.
    pub open spec fn stream(&self) -> Seq<i16> {
        self.full_buffers@.map_values(|b: Vec<i16>| b@).flatten() + self.audio_buffer@
    }

    /// T-cycles into the frame sequencer's eight-step round.
    pub open spec fn sequencer_pos(&self) -> int {
        self.frame_sequencer.step * 8192 + self.frame_sequencer.t_cycles
    }

    pub fn new() -> (a: Self)
        ensures
            a.wf(),
            !a.enabled,
            a.samples_produced == 0,
            a.full_buffers@.len() == 0,
            !a.sweep_tone_channel.enabled,
    {
        GbApu {
            frame_sequencer: FrameSequencer::new(),
            sweep_tone_channel: Channel::new(),
            tone_channel: Channel::new(),
            wave_channel: Channel::new(),
            noise_channel: Channel::new(),
            audio_buffer: Vec::new(),
            full_buffers: Vec::new(),
            samples_produced: 0,
            terminal1: SoundTerminal::new(),
            terminal2: SoundTerminal::new(),
            enabled: false,
        }
    }

    /// Runs `m_cycles` m-cycles: one stereo frame per T-cycle. While the APU
    /// is off the frames are silent and no channel state moves.
    pub fn cycle(&mut self, m_cycles: u32)
        requires
            old(self).wf(),
            m_cycles <= 0x10000,
        ensures
            final(self).wf(),
            final(self).enabled == old(self).enabled,
            final(self).samples_produced == (old(self).samples_produced + 4 * m_cycles) % 0x1_0000_0000_0000_0000,
            final(self).full_buffers@.len() >= old(self).full_buffers@.len(),
            !old(self).enabled ==> final(self).sweep_tone_channel == old(self).sweep_tone_channel,
            // one stereo pair per T-cycle is appended to the stream
            final(self).stream().len() == old(self).stream().len() + 8 * m_cycles,
            final(self).stream().subrange(0, old(self).stream().len() as int) == old(self).stream(),
            !old(self).enabled ==> forall|j: int| old(self).stream().len() <= j < final(self).stream().len()
                ==> #[trigger] final(self).stream()[j] == 0,
            old(self).enabled ==> forall|k: int| 0 <= k < 4 * m_cycles ==> mixed_pair(
                #[trigger] final(self).stream()[old(self).stream().len() + 2 * k],
                final(self).stream()[old(self).stream().len() + 2 * k + 1], old(self).terminal1, old(self).terminal2),
            // the frame sequencer runs one step per T-cycle while the APU is on
            old(self).enabled ==> final(self).sequencer_pos() == (old(self).sequencer_pos() + 4 * m_cycles) % 65536,
            final(self).terminal1 == old(self).terminal1 && final(self).terminal2 == old(self).terminal2,
    {
        let t_cycles: u32 = m_cycles * 4;
        let mut i: u32 = 0;
        while i < t_cycles
            invariant
                self.wf(),
                i <= t_cycles,
                t_cycles == m_cycles * 4,
                self.enabled == old(self).enabled,
                self.samples_produced == (old(self).samples_produced + i) % 0x1_0000_0000_0000_0000,
                self.full_buffers@.len() >= old(self).full_buffers@.len(),
                !old(self).enabled ==> self.sweep_tone_channel == old(self).sweep_tone_channel,
                self.terminal1 == old(self).terminal1 && self.terminal2 == old(self).terminal2,
                self.stream().len() == old(self).stream().len() + 2 * i,
                self.stream().subrange(0, old(self).stream().len() as int) == old(self).stream(),
                !old(self).enabled ==> forall|j: int| old(self).stream().len() <= j < self.stream().len()
                    ==> #[trigger] self.stream()[j] == 0,
                old(self).enabled ==> forall|k: int| 0 <= k < i ==> mixed_pair(
                    #[trigger] self.stream()[old(self).stream().len() + 2 * k],
                    self.stream()[old(self).stream().len() + 2 * k + 1], old(self).terminal1, old(self).terminal2),
                old(self).enabled ==> self.sequencer_pos() == (old(self).sequencer_pos() + i) % 65536,
                0 <= old(self).sequencer_pos() < 65536,
            decreases t_cycles - i,
        {
            let ghost before = self.stream();
            let ghost pos = self.sequencer_pos();
            let (left, right) = if self.enabled {
                let tick = self.frame_sequencer.cycle();
                proof {
                    assert(self.sequencer_pos() == (pos + 1) % 65536);
                }
                self.update_channels_for_frame_squencer(tick);
                let levels: [u8; 4] = [
                    self.sweep_tone_channel.get_audio_sample(),
                    self.tone_channel.get_audio_sample(),
                    self.wave_channel.get_audio_sample(),
                    self.noise_channel.get_audio_sample(),
                ];
                let pair = (mix_terminal(&levels, &self.terminal1), mix_terminal(&levels, &self.terminal2));
                assert(mixed_pair(pair.0, pair.1, self.terminal1, self.terminal2)) by {
                    assert(levels@.len() == 4);
                }
                pair
            } else {
                (0i16, 0i16)
            };
            let ghost f0 = self.full_buffers@;
            self.audio_buffer.push(left);
            self.audio_buffer.push(right);
            assert(self.stream() =~= before.push(left).push(right));
            if self.audio_buffer.len() == 2 * AUDIO_BUFFER_SIZE {
                let ghost mid = self.stream();
                let mut full: Vec<i16> = Vec::new();
                core::mem::swap(&mut full, &mut self.audio_buffer);
                self.full_buffers.push(full);
                proof {
                    let g = |b: Vec<i16>| b@;
                    assert(self.full_buffers@.map_values(g) =~= f0.map_values(g).push(full@));
                    f0.map_values(g).lemma_flatten_push(full@);
                    assert(self.stream() =~= mid);
                }
            }
            proof {
                let n = old(self).stream().len() as int;
                assert(self.stream().subrange(0, n) =~= before.subrange(0, n));
                assert(self.stream()[n + 2 * i] == left);
                assert(self.stream()[n + 2 * i + 1] == right);
            }
            self.samples_produced = self.samples_produced.wrapping_add(1);
            i = i + 1;
        }
    }

    /// Hands the full buffers over to the audio sink, oldest first.
    pub fn take_full_buffers(&mut self) -> (b: Vec<Vec<i16>>)
        requires
            old(self).wf(),
        ensures
            final(self).wf(),
            b@ == old(self).full_buffers@,
            final(self).full_buffers@.len() == 0,
            final(self).samples_produced == old(self).samples_produced,
            final(self).enabled == old(self).enabled,
    {
        let mut b: Vec<Vec<i16>> = Vec::new();
        core::mem::swap(&mut b, &mut self.full_buffers);
        b
    }

    /// Applies one frame-sequencer step to the channels.
    pub fn update_channels_for_frame_squencer(&mut self, tick: TickType)
        requires
            old(self).wf(),
        ensures
            final(self).terminal1 == old(self).terminal1 && final(self).terminal2 == old(self).terminal2,
            final(self).frame_sequencer == old(self).frame_sequencer,
            final(self).wf(),
            final(self).enabled == old(self).enabled,
            final(self).samples_produced == old(self).samples_produced,
            final(self).full_buffers == old(self).full_buffers,
            final(self).audio_buffer == old(self).audio_buffer,
            // on steps 2 and 6 the length clock runs after the sweep clock
            tick.length_counter && old(self).sweep_tone_channel.length_enable ==> {
                &&& final(self).sweep_tone_channel.sound_length == if old(self).sweep_tone_channel.sound_length > 0 {
                    old(self).sweep_tone_channel.sound_length - 1
                } else {
                    0
                }
                &&& final(self).sweep_tone_channel.sound_length == 0 ==> !final(self).sweep_tone_channel.enabled
            },
            tick.length_counter && !tick.frequency_sweep && old(self).sweep_tone_channel.length_enable ==> {
                &&& final(self).sweep_tone_channel.sound_length == if old(self).sweep_tone_channel.sound_length > 0 {
                    old(self).sweep_tone_channel.sound_length - 1
                } else {
                    0
                }
                &&& final(self).sweep_tone_channel.enabled == (old(self).sweep_tone_channel.enabled
                    && final(self).sweep_tone_channel.sound_length != 0)
            },
            tick.length_counter ==> length_ticked(old(self).tone_channel.length_enable, old(self).tone_channel.enabled,
                old(self).tone_channel.sound_length, final(self).tone_channel.enabled, final(self).tone_channel.sound_length),
            tick.length_counter ==> length_ticked(old(self).wave_channel.length_enable, old(self).wave_channel.enabled,
                old(self).wave_channel.sound_length, final(self).wave_channel.enabled, final(self).wave_channel.sound_length),
            tick.length_counter ==> length_ticked(old(self).noise_channel.length_enable, old(self).noise_channel.enabled,
                old(self).noise_channel.sound_length, final(self).noise_channel.enabled, final(self).noise_channel.sound_length),
            // a sweep step whose frequency would reach 2048 stops channel 1
            tick.frequency_sweep && Self::sweep_overflows(*old(self)) ==> !final(self).sweep_tone_channel.enabled,
            tick.volume_envelope && !tick.length_counter && !tick.frequency_sweep ==> Self::envelope_clocked(
                *old(self), *final(self)),
            !tick.length_counter ==> final(self).tone_channel.sound_length == old(self).tone_channel.sound_length
                && final(self).tone_channel.enabled == old(self).tone_channel.enabled,
            !tick.length_counter && !tick.frequency_sweep ==> final(self).sweep_tone_channel.sound_length
                == old(self).sweep_tone_channel.sound_length && final(self).sweep_tone_channel.enabled
                == old(self).sweep_tone_channel.enabled,
    {
        if tick.frequency_sweep {
            self.sweep_clock();
        }
        if tick.length_counter {
            self.length_clock();
        }
        if tick.volume_envelope {
            self.envelope_clock();
        }
    }

    fn sweep_clock(&mut self)
        requires
            old(self).wf(),
        ensures
            final(self).terminal1 == old(self).terminal1 && final(self).terminal2 == old(self).terminal2,
            final(self).frame_sequencer == old(self).frame_sequencer,
            final(self).wf(),
            final(self).enabled == old(self).enabled,
            final(self).samples_produced == old(self).samples_produced,
            final(self).full_buffers == old(self).full_buffers,
            final(self).audio_buffer == old(self).audio_buffer,
            final(self).tone_channel == old(self).tone_channel,
            final(self).wave_channel == old(self).wave_channel,
            final(self).noise_channel == old(self).noise_channel,
            final(self).sweep_tone_channel.sound_length == old(self).sweep_tone_channel.sound_length,
            final(self).sweep_tone_channel.length_enable == old(self).sweep_tone_channel.length_enable,
            Self::sweep_overflows(*old(self)) ==> !final(self).sweep_tone_channel.enabled,
            old(self).sweep_tone_channel.sample_producer.sweep.timer > 1 ==> final(self).sweep_tone_channel.enabled
                == old(self).sweep_tone_channel.enabled && final(self).sweep_tone_channel.frequency
                == old(self).sweep_tone_channel.frequency,
    {
        let sweep = &mut self.sweep_tone_channel.sample_producer.sweep;
        if sweep.timer > 0 {
            sweep.timer = sweep.timer - 1;
        }
        if sweep.timer == 0 {
            sweep.timer = if sweep.sweep_period == 0 { 8 } else { sweep.sweep_period };
            update_sweep_frequency(&mut self.sweep_tone_channel);
        }
    }

    fn length_clock(&mut self)
        requires
            old(self).wf(),
        ensures
            final(self).terminal1 == old(self).terminal1 && final(self).terminal2 == old(self).terminal2,
            final(self).frame_sequencer == old(self).frame_sequencer,
            final(self).wf(),
            final(self).enabled == old(self).enabled,
            final(self).samples_produced == old(self).samples_produced,
            final(self).full_buffers == old(self).full_buffers,
            final(self).audio_buffer == old(self).audio_buffer,
            length_ticked(old(self).sweep_tone_channel.length_enable, old(self).sweep_tone_channel.enabled,
                old(self).sweep_tone_channel.sound_length, final(self).sweep_tone_channel.enabled,
                final(self).sweep_tone_channel.sound_length),
            length_ticked(old(self).tone_channel.length_enable, old(self).tone_channel.enabled,
                old(self).tone_channel.sound_length, final(self).tone_channel.enabled, final(self).tone_channel.sound_length),
            length_ticked(old(self).wave_channel.length_enable, old(self).wave_channel.enabled,
                old(self).wave_channel.sound_length, final(self).wave_channel.enabled, final(self).wave_channel.sound_length),
            length_ticked(old(self).noise_channel.length_enable, old(self).noise_channel.enabled,
                old(self).noise_channel.sound_length, final(self).noise_channel.enabled, final(self).noise_channel.sound_length),
            final(self).sweep_tone_channel.length_enable == old(self).sweep_tone_channel.length_enable,
            final(self).tone_channel.length_enable == old(self).tone_channel.length_enable,
            final(self).wave_channel.length_enable == old(self).wave_channel.length_enable,
            final(self).noise_channel.length_enable == old(self).noise_channel.length_enable,
    {
        self.sweep_tone_channel.update_length_register();
        self.tone_channel.update_length_register();
        self.wave_channel.update_length_register();
        self.noise_channel.update_length_register();
    }

    fn envelope_clock(&mut self)
        requires
            old(self).wf(),
        ensures
            final(self).terminal1 == old(self).terminal1 && final(self).terminal2 == old(self).terminal2,
            final(self).frame_sequencer == old(self).frame_sequencer,
            final(self).wf(),
            final(self).enabled == old(self).enabled,
            final(self).samples_produced == old(self).samples_produced,
            final(self).full_buffers == old(self).full_buffers,
            final(self).audio_buffer == old(self).audio_buffer,
            final(self).sweep_tone_channel.enabled == old(self).sweep_tone_channel.enabled,
            final(self).sweep_tone_channel.sound_length == old(self).sweep_tone_channel.sound_length,
            final(self).tone_channel.enabled == old(self).tone_channel.enabled,
            final(self).tone_channel.sound_length == old(self).tone_channel.sound_length,
            final(self).wave_channel == old(self).wave_channel,
            final(self).noise_channel.enabled == old(self).noise_channel.enabled,
            final(self).noise_channel.sound_length == old(self).noise_channel.sound_length,
            Self::envelope_clocked(*old(self), *final(self)),
    {
        if self.sweep_tone_channel.enabled {
            update_envelope(&mut self.sweep_tone_channel.volume, &mut self.sweep_tone_channel.sample_producer.envelop);
        }
        if self.tone_channel.enabled {
            update_envelope(&mut self.tone_channel.volume, &mut self.tone_channel.sample_producer.envelop);
        }
        if self.noise_channel.enabled {
            update_envelope(&mut self.noise_channel.volume, &mut self.noise_channel.sample_producer.envelop);
        }
    }

    /// NR52 as read: bit 7 the master enable, bits 0-3 the channels that are
    /// on, the unused bits set.
    /// NR52 as read.
    pub open spec fn nr52_value(&self) -> u8 {
        (if self.enabled { 0x80u8 } else { 0u8 }) | 0x70u8 | (if self.sweep_tone_channel.enabled { 1u8 } else { 0u8 })
            | (if self.tone_channel.enabled { 2u8 } else { 0u8 }) | (if self.wave_channel.enabled { 4u8 } else { 0u8 })
            | (if self.noise_channel.enabled { 8u8 } else { 0u8 })
    }

    pub fn read_nr52(&self) -> (r: u8)
        ensures
            r == self.nr52_value(),
            bit_set(r, 7) == self.enabled,
            bit_set(r, 0) == self.sweep_tone_channel.enabled,
            bit_set(r, 1) == self.tone_channel.enabled,
            bit_set(r, 2) == self.wave_channel.enabled,
            bit_set(r, 3) == self.noise_channel.enabled,
    {
        let a: u8 = if self.enabled { 0x80 } else { 0 };
        let b0: u8 = if self.sweep_tone_channel.enabled { 1 } else { 0 };
        let b1: u8 = if self.tone_channel.enabled { 2 } else { 0 };
        let b2: u8 = if self.wave_channel.enabled { 4 } else { 0 };
        let b3: u8 = if self.noise_channel.enabled { 8 } else { 0 };
        let r: u8 = a | 0x70 | b0 | b1 | b2 | b3;
        assert((a == 0x80 || a == 0) && (b0 == 1 || b0 == 0) && (b1 == 2 || b1 == 0) && (b2 == 4 || b2 == 0)
            && (b3 == 8 || b3 == 0) ==> {
            let r = a | 0x70 | b0 | b1 | b2 | b3;
            &&& ((r & (1u8 << 7u8) != 0) == (a == 0x80))
            &&& ((r & (1u8 << 0u8) != 0) == (b0 == 1))
            &&& ((r & (1u8 << 1u8) != 0) == (b1 == 2))
            &&& ((r & (1u8 << 2u8) != 0) == (b2 == 4))
            &&& ((r & (1u8 << 3u8) != 0) == (b3 == 8))
        }) by (bit_vector);
        r
    }
}

} // verus!
