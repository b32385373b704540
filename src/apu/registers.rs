use vstd::prelude::*;
use crate::ppu::attributes::{bit_set, is_bit_set};
use super::channel::{Channel, SampleProducer, VolumeEnvlope};
use super::gb_apu::GbApu;
use super::tone_sweep_sample_producer::{square_ticks, ToneSampleProducer, ToneSweepSampleProducer};
use super::wave_sample_producer::{NoiseSampleProducer, WaveSampleProducer};

verus! {

/// Offsets from 0xFF00 of the sound registers.
pub const NR10: usize = 0x10;
pub const NR11: usize = 0x11;
pub const NR12: usize = 0x12;
pub const NR13: usize = 0x13;
pub const NR14: usize = 0x14;
pub const NR21: usize = 0x16;
pub const NR22: usize = 0x17;
pub const NR23: usize = 0x18;
pub const NR24: usize = 0x19;
pub const NR30: usize = 0x1A;
pub const NR31: usize = 0x1B;
pub const NR32: usize = 0x1C;
pub const NR33: usize = 0x1D;
pub const NR34: usize = 0x1E;
pub const NR41: usize = 0x20;
pub const NR42: usize = 0x21;
pub const NR43: usize = 0x22;
pub const NR44: usize = 0x23;
pub const NR50: usize = 0x24;
pub const NR51: usize = 0x25;
pub const NR52: usize = 0x26;
pub const WAVE_RAM: usize = 0x30;

/// The I/O registers (0xFF00-0xFF7F) and which of them were written since
/// the last update.
pub open spec fn io_wf(ports: &Vec<u8>, triggers: &Vec<bool>) -> bool {
    ports@.len() == 0x80 && triggers@.len() == 0x80
}

/// A channel's DAC is off when its initial volume is 0 and its envelope
/// goes down.
pub open spec fn dac_on(volume: u8, envelop_increase: bool) -> bool {
    volume != 0 || envelop_increase
}

pub fn is_dac_enabled(volume: u8, envelop_increase: bool) -> (r: bool)
    ensures
        r == dac_on(volume, envelop_increase),
{
    volume != 0 || envelop_increase
}

/// NRx2: initial volume in bits 4-7, direction in bit 3, period in bits 0-2.
pub fn update_volume_envelope(volume: &mut u8, register: u8, envelop: &mut VolumeEnvlope)
    ensures
        *final(volume) == register / 16,
        final(envelop).number_of_envelope_sweep == register % 8,
        final(envelop).increase_envelope == bit_set(register, 3),
        final(envelop).envelop_duration_counter == old(envelop).envelop_duration_counter,
{
    *volume = register / 16;
    envelop.number_of_envelope_sweep = register % 8;
    envelop.increase_envelope = is_bit_set(register, 3);
}

/// NRx4: bit 6 enables the length counter; bit 7 triggers the channel, which
/// starts it when its DAC is on, reloads an expired length counter to
/// `max_sound_length` and restarts its timer.
pub fn update_channel_conrol_register<T: SampleProducer>(
    channel: &mut Channel<T>,
    dac_enabled: bool,
    control_register: u8,
    max_sound_length: u16,
    timer_cycles_to_tick: u16,
)
    requires
        old(channel).wf(),
    ensures
        final(channel).wf(),
        final(channel).length_enable == bit_set(control_register, 6),
        final(channel).frequency == old(channel).frequency,
        final(channel).volume == old(channel).volume,
        final(channel).sample_producer == old(channel).sample_producer,
        bit_set(control_register, 7) ==> {
            &&& final(channel).enabled == (old(channel).enabled || dac_enabled)
            &&& final(channel).sound_length == if old(channel).sound_length == 0 {
                max_sound_length
            } else {
                old(channel).sound_length
            }
            &&& final(channel).timer.cycles_to_tick == timer_cycles_to_tick
        },
        !bit_set(control_register, 7) ==> final(channel).enabled == old(channel).enabled
            && final(channel).sound_length == old(channel).sound_length,
{
    channel.length_enable = is_bit_set(control_register, 6);
    if is_bit_set(control_register, 7) {
        if dac_enabled {
            channel.enabled = true;
        }
        if channel.sound_length == 0 {
            channel.sound_length = max_sound_length;
        }
        channel.timer.update_cycles_to_tick(timer_cycles_to_tick);
    }
}

/// The low byte of a frequency from NRx3.
pub open spec fn with_low(freq: u16, low: u8) -> u16 {
    ((freq / 256) * 256 + low) as u16
}

/// The high three bits of a frequency from NRx4.
pub open spec fn with_high(freq: u16, high: u8) -> u16 {
    ((high % 8) as int * 256 + freq % 256) as u16
}

pub fn set_frequency_low(freq: u16, low: u8) -> (r: u16)
    requires
        freq < 2048,
    ensures
        r == with_low(freq, low),
        r < 2048,
{
    (freq / 256) * 256 + low as u16
}

pub fn set_frequency_high(freq: u16, high: u8) -> (r: u16)
    ensures
        r == with_high(freq, high),
        r < 2048,
{
    (high % 8) as u16 * 256 + freq % 256
}

/// NR14: the high frequency bits and length enable; bit 7 triggers channel
/// 1, which also restarts its envelope and sweep.
pub fn write_tone_sweep_nr14(channel: &mut Channel<ToneSweepSampleProducer>, nr14: u8)
    requires
        old(channel).wf(),
    ensures
        final(channel).wf(),
        final(channel).length_enable == bit_set(nr14, 6),
        final(channel).frequency == with_high(old(channel).frequency, nr14),
        final(channel).volume == old(channel).volume,
        final(channel).sample_producer.wave_duty == old(channel).sample_producer.wave_duty,
        final(channel).sample_producer.envelop.increase_envelope == old(channel).sample_producer.envelop.increase_envelope,
        final(channel).sample_producer.sweep.sweep_period == old(channel).sample_producer.sweep.sweep_period,
        final(channel).sample_producer.sweep.sweep_shift == old(channel).sample_producer.sweep.sweep_shift,
        final(channel).sample_producer.sweep.sweep_decrease == old(channel).sample_producer.sweep.sweep_decrease,
        !bit_set(nr14, 7) ==> final(channel).enabled == old(channel).enabled
            && final(channel).sound_length == old(channel).sound_length,
        bit_set(nr14, 7) ==> {
            &&& final(channel).sound_length == if old(channel).sound_length == 0 { 64 } else { old(channel).sound_length }
            &&& final(channel).sample_producer.sweep.shadow_frequency == final(channel).frequency
            &&& final(channel).sample_producer.sweep.enabled == (final(channel).sample_producer.sweep.sweep_period != 0
                || final(channel).sample_producer.sweep.sweep_shift != 0)
            &&& final(channel).sample_producer.sweep.timer == if final(channel).sample_producer.sweep.sweep_period == 0 {
                8
            } else {
                final(channel).sample_producer.sweep.sweep_period
            }
            &&& final(channel).sample_producer.envelop.envelop_duration_counter == 0
            &&& dac_on(final(channel).volume, final(channel).sample_producer.envelop.increase_envelope)
                && !(final(channel).sample_producer.sweep.sweep_shift != 0
                && final(channel).sample_producer.sweep.next_frequency() >= 2048) ==> final(channel).enabled
            &&& final(channel).sample_producer.sweep.sweep_shift != 0 && final(channel).sample_producer.sweep.next_frequency()
                >= 2048 ==> !final(channel).enabled
        },
{
    channel.frequency = set_frequency_high(channel.frequency, nr14);
    let dac_enabled = is_dac_enabled(channel.volume, channel.sample_producer.envelop.increase_envelope);
    let ticks = square_ticks(channel.frequency);
    update_channel_conrol_register(channel, dac_enabled, nr14, 64, ticks);
    if is_bit_set(nr14, 7) {
        channel.sample_producer.envelop.envelop_duration_counter = 0;
        let sweep = &mut channel.sample_producer.sweep;
        sweep.shadow_frequency = channel.frequency;
        sweep.timer = if sweep.sweep_period == 0 { 8 } else { sweep.sweep_period };
        sweep.enabled = sweep.sweep_period != 0 || sweep.sweep_shift != 0;
        if sweep.sweep_shift != 0 && sweep.calculate_new_frequency() >= 2048 {
            channel.enabled = false;
        }
    }
}

/// Channel 1 (square with sweep), NR10-NR14.
#[verifier::rlimit(40)]
pub fn prepare_tone_sweep_channel(channel: &mut Channel<ToneSweepSampleProducer>, ports: &Vec<u8>, triggers: &Vec<bool>)
    requires
        old(channel).wf(),
        io_wf(ports, triggers),
    ensures
        final(channel).wf(),
        final(channel).frequency == ({
            let f1 = if triggers@[NR13 as int] { with_low(old(channel).frequency, ports@[NR13 as int]) } else {
                old(channel).frequency
            };
            if triggers@[NR14 as int] { with_high(f1, ports@[NR14 as int]) } else { f1 }
        }),
        triggers@[NR10 as int] ==> final(channel).sample_producer.sweep.sweep_shift == ports@[NR10 as int] % 8
            && final(channel).sample_producer.sweep.sweep_period == (ports@[NR10 as int] / 16) % 8
            && final(channel).sample_producer.sweep.sweep_decrease == bit_set(ports@[NR10 as int], 3),
        triggers@[NR11 as int] ==> final(channel).sample_producer.wave_duty == ports@[NR11 as int] / 64,
        triggers@[NR12 as int] ==> final(channel).volume == ports@[NR12 as int] / 16,
        triggers@[NR14 as int] ==> final(channel).length_enable == bit_set(ports@[NR14 as int], 6),
        triggers@[NR14 as int] && bit_set(ports@[NR14 as int], 7) ==> {
            &&& final(channel).sound_length == if (triggers@[NR11 as int] && 64 - ports@[NR11 as int] % 64 == 0)
                || (!triggers@[NR11 as int] && old(channel).sound_length == 0) { 64 } else {
                    if triggers@[NR11 as int] { 64 - ports@[NR11 as int] % 64 } else { old(channel).sound_length as int }
                }
            &&& final(channel).sample_producer.sweep.shadow_frequency == final(channel).frequency
            &&& final(channel).sample_producer.sweep.enabled == (final(channel).sample_producer.sweep.sweep_period != 0
                || final(channel).sample_producer.sweep.sweep_shift != 0)
            &&& final(channel).sample_producer.sweep.timer == if final(channel).sample_producer.sweep.sweep_period == 0 {
                8
            } else {
                final(channel).sample_producer.sweep.sweep_period
            }
            &&& final(channel).sample_producer.envelop.envelop_duration_counter == 0
            // a trigger starts the channel when its DAC is on, unless the first sweep step overflows
            &&& dac_on(final(channel).volume, final(channel).sample_producer.envelop.increase_envelope)
                && !(final(channel).sample_producer.sweep.sweep_shift != 0
                && final(channel).sample_producer.sweep.next_frequency() >= 2048) ==> final(channel).enabled
            &&& final(channel).sample_producer.sweep.sweep_shift != 0 && final(channel).sample_producer.sweep.next_frequency()
                >= 2048 ==> !final(channel).enabled
        },
        !triggers@[NR12 as int] && !(triggers@[NR14 as int] && bit_set(ports@[NR14 as int], 7))
            ==> final(channel).enabled == old(channel).enabled,
        triggers@[NR12 as int] && !dac_on((ports@[NR12 as int] / 16) as u8, bit_set(ports@[NR12 as int], 3))
            && !(triggers@[NR14 as int] && bit_set(ports@[NR14 as int], 7)) ==> !final(channel).enabled,
{
    let nr10 = ports[NR10];
    let nr11 = ports[NR11];
    let nr12 = ports[NR12];
    let nr13 = ports[NR13];
    let nr14 = ports[NR14];
    if triggers[NR10] {
        channel.sample_producer.sweep.sweep_decrease = is_bit_set(nr10, 3);
        channel.sample_producer.sweep.sweep_shift = nr10 % 8;
        channel.sample_producer.sweep.sweep_period = (nr10 / 16) % 8;
    }
    if triggers[NR11] {
        channel.sample_producer.wave_duty = nr11 / 64;
        channel.sound_length = 64 - (nr11 % 64) as u16;
    }
    if triggers[NR12] {
        update_volume_envelope(&mut channel.volume, nr12, &mut channel.sample_producer.envelop);
        if !is_dac_enabled(channel.volume, channel.sample_producer.envelop.increase_envelope) {
            channel.enabled = false;
        }
    }
    if triggers[NR13] {
        channel.frequency = set_frequency_low(channel.frequency, nr13);
    }
    if triggers[NR14] {
        write_tone_sweep_nr14(channel, nr14);
    }
}

/// Channel 2 (square), NR21-NR24.
pub fn prepare_tone_channel(channel: &mut Channel<ToneSampleProducer>, ports: &Vec<u8>, triggers: &Vec<bool>)
    requires
        old(channel).wf(),
        io_wf(ports, triggers),
    ensures
        final(channel).wf(),
        final(channel).frequency == ({
            let f1 = if triggers@[NR23 as int] { with_low(old(channel).frequency, ports@[NR23 as int]) } else {
                old(channel).frequency
            };
            if triggers@[NR24 as int] { with_high(f1, ports@[NR24 as int]) } else { f1 }
        }),
        triggers@[NR21 as int] ==> final(channel).sample_producer.wave_duty == ports@[NR21 as int] / 64,
        triggers@[NR22 as int] ==> final(channel).volume == ports@[NR22 as int] / 16,
        triggers@[NR24 as int] ==> final(channel).length_enable == bit_set(ports@[NR24 as int], 6),
        triggers@[NR24 as int] && bit_set(ports@[NR24 as int], 7) && !triggers@[NR21 as int] && old(channel).sound_length == 0
            ==> final(channel).sound_length == 64,
        !triggers@[NR22 as int] && !(triggers@[NR24 as int] && bit_set(ports@[NR24 as int], 7))
            ==> final(channel).enabled == old(channel).enabled,
{
    if triggers[NR21] {
        channel.sample_producer.wave_duty = ports[NR21] / 64;
        channel.sound_length = 64 - (ports[NR21] % 64) as u16;
    }
    if triggers[NR22] {
        update_volume_envelope(&mut channel.volume, ports[NR22], &mut channel.sample_producer.envelop);
        if !is_dac_enabled(channel.volume, channel.sample_producer.envelop.increase_envelope) {
            channel.enabled = false;
        }
    }
    if triggers[NR23] {
        channel.frequency = set_frequency_low(channel.frequency, ports[NR23]);
    }
    if triggers[NR24] {
        let nr24 = ports[NR24];
        channel.frequency = set_frequency_high(channel.frequency, nr24);
        let dac_enabled = is_dac_enabled(channel.volume, channel.sample_producer.envelop.increase_envelope);
        let ticks = square_ticks(channel.frequency);
        update_channel_conrol_register(channel, dac_enabled, nr24, 64, ticks);
        if is_bit_set(nr24, 7) {
            channel.sample_producer.envelop.envelop_duration_counter = 0;
        }
    }
}

/// Channel 3 (wave), NR30-NR34 and wave RAM.
pub fn prepare_wave_channel(channel: &mut Channel<WaveSampleProducer>, ports: &Vec<u8>, triggers: &Vec<bool>)
    requires
        old(channel).wf(),
        io_wf(ports, triggers),
    ensures
        final(channel).wf(),
        final(channel).frequency == ({
            let f1 = if triggers@[NR33 as int] { with_low(old(channel).frequency, ports@[NR33 as int]) } else {
                old(channel).frequency
            };
            if triggers@[NR34 as int] { with_high(f1, ports@[NR34 as int]) } else { f1 }
        }),
        triggers@[NR30 as int] && !bit_set(ports@[NR30 as int], 7) && !(triggers@[NR34 as int] && bit_set(ports@[NR34 as int], 7))
            ==> !final(channel).enabled,
        triggers@[NR31 as int] && !(triggers@[NR34 as int] && bit_set(ports@[NR34 as int], 7))
            ==> final(channel).sound_length == 256 - ports@[NR31 as int],
        triggers@[NR32 as int] ==> final(channel).sample_producer.volume == (ports@[NR32 as int] / 32) % 4,
        triggers@[NR34 as int] ==> final(channel).length_enable == bit_set(ports@[NR34 as int], 6),
        triggers@[NR34 as int] && bit_set(ports@[NR34 as int], 7) && !triggers@[NR31 as int] && old(channel).sound_length == 0
            ==> final(channel).sound_length == 256,
        triggers@[NR34 as int] && bit_set(ports@[NR34 as int], 7) ==> final(channel).enabled == (old(channel).enabled
            || bit_set(ports@[NR30 as int], 7)) || (triggers@[NR30 as int] && !bit_set(ports@[NR30 as int], 7) && !final(channel).enabled),
        forall|i: int| 0 <= i < 16 ==> #[trigger] final(channel).sample_producer.wave_samples[i] == ports@[WAVE_RAM + i],
{
    let mut i: usize = 0;
    while i < 16
        invariant
            channel.wf(),
            io_wf(ports, triggers),
            i <= 16,
            forall|k: int| 0 <= k < i ==> #[trigger] channel.sample_producer.wave_samples[k] == ports@[WAVE_RAM + k],
            channel.enabled == old(channel).enabled,
            channel.sound_length == old(channel).sound_length,
            channel.length_enable == old(channel).length_enable,
            channel.frequency == old(channel).frequency,
            channel.volume == old(channel).volume,
            channel.sample_producer.volume == old(channel).sample_producer.volume,
        decreases 16 - i,
    {
        channel.sample_producer.wave_samples[i] = ports[WAVE_RAM + i];
        i = i + 1;
    }
    if triggers[NR30] {
        if !is_bit_set(ports[NR30], 7) {
            channel.enabled = false;
        }
    }
    if triggers[NR31] {
        channel.sound_length = 256 - ports[NR31] as u16;
    }
    if triggers[NR32] {
        channel.sample_producer.volume = (ports[NR32] / 32) % 4;
    }
    if triggers[NR33] {
        channel.frequency = set_frequency_low(channel.frequency, ports[NR33]);
    }
    if triggers[NR34] {
        let nr34 = ports[NR34];
        channel.frequency = set_frequency_high(channel.frequency, nr34);
        let ticks: u16 = (2048 - channel.frequency) * 2;
        let dac_enabled = is_bit_set(ports[NR30], 7);
        update_channel_conrol_register(channel, dac_enabled, nr34, 256, ticks);
        if is_bit_set(nr34, 7) {
            channel.sample_producer.sample_index = 0;
        }
    }
}

/// Channel 4 (noise), NR41-NR44.
pub fn prepare_noise_channel(channel: &mut Channel<NoiseSampleProducer>, ports: &Vec<u8>, triggers: &Vec<bool>)
    requires
        old(channel).wf(),
        io_wf(ports, triggers),
    ensures
        final(channel).wf(),
        triggers@[NR42 as int] ==> final(channel).volume == ports@[NR42 as int] / 16,
        triggers@[NR43 as int] ==> final(channel).sample_producer.shift == ports@[NR43 as int] / 16
            && final(channel).sample_producer.width_7 == bit_set(ports@[NR43 as int], 3)
            && final(channel).sample_producer.divisor_code == ports@[NR43 as int] % 8,
        triggers@[NR44 as int] ==> final(channel).length_enable == bit_set(ports@[NR44 as int], 6),
        triggers@[NR44 as int] && bit_set(ports@[NR44 as int], 7) && !triggers@[NR41 as int] && old(channel).sound_length == 0
            ==> final(channel).sound_length == 64,
        !triggers@[NR42 as int] && !(triggers@[NR44 as int] && bit_set(ports@[NR44 as int], 7))
            ==> final(channel).enabled == old(channel).enabled,
{
    if triggers[NR41] {
        channel.sound_length = 64 - (ports[NR41] % 64) as u16;
    }
    if triggers[NR42] {
        update_volume_envelope(&mut channel.volume, ports[NR42], &mut channel.sample_producer.envelop);
        if !is_dac_enabled(channel.volume, channel.sample_producer.envelop.increase_envelope) {
            channel.enabled = false;
        }
    }
    if triggers[NR43] {
        let nr43 = ports[NR43];
        channel.sample_producer.shift = nr43 / 16;
        channel.sample_producer.width_7 = is_bit_set(nr43, 3);
        channel.sample_producer.divisor_code = nr43 % 8;
    }
    if triggers[NR44] {
        let nr44 = ports[NR44];
        let dac_enabled = is_dac_enabled(channel.volume, channel.sample_producer.envelop.increase_envelope);
        let ticks = channel.sample_producer.get_updated_frequency_ticks(0);
        update_channel_conrol_register(channel, dac_enabled, nr44, 64, ticks);
        if is_bit_set(nr44, 7) {
            channel.sample_producer.envelop.envelop_duration_counter = 0;
            channel.sample_producer.lfsr = 0x7FFF;
        }
    }
}

/// NR50-NR52: terminal volumes, channel routing and the master enable.
/// Switching the APU off silences and clears every channel.
pub fn prepare_control_registers(apu: &mut GbApu, ports: &Vec<u8>)
    requires
        old(apu).wf(),
        ports@.len() == 0x80,
    ensures
        final(apu).wf(),
        final(apu).enabled == bit_set(ports@[NR52 as int], 7),
        final(apu).terminal1.volume == ports@[NR50 as int] % 8,
        final(apu).terminal2.volume == (ports@[NR50 as int] / 16) % 8,
        forall|i: int| 0 <= i < 4 ==> #[trigger] final(apu).terminal1.channels[i] == bit_set(ports@[NR51 as int], i as u8),
        forall|i: int| 0 <= i < 4 ==> #[trigger] final(apu).terminal2.channels[i] == bit_set(ports@[NR51 as int], (i + 4) as u8),
        final(apu).samples_produced == old(apu).samples_produced,
        final(apu).full_buffers == old(apu).full_buffers,
        !bit_set(ports@[NR52 as int], 7) ==> !final(apu).sweep_tone_channel.enabled,
        bit_set(ports@[NR52 as int], 7) ==> final(apu).sweep_tone_channel == old(apu).sweep_tone_channel,
{
    let nr50 = ports[NR50];
    let nr51 = ports[NR51];
    apu.terminal1.enabled = is_bit_set(nr50, 3);
    apu.terminal2.enabled = is_bit_set(nr50, 7);
    apu.terminal1.volume = nr50 % 8;
    apu.terminal2.volume = (nr50 / 16) % 8;
    let mut i: u8 = 0;
    while i < 4
        invariant
            apu.wf(),
            i <= 4,
            apu.terminal1.volume == nr50 % 8,
            apu.terminal2.volume == (nr50 / 16) % 8,
            forall|k: int| 0 <= k < i ==> #[trigger] apu.terminal1.channels[k] == bit_set(nr51, k as u8),
            forall|k: int| 0 <= k < i ==> #[trigger] apu.terminal2.channels[k] == bit_set(nr51, (k + 4) as u8),
            apu.samples_produced == old(apu).samples_produced,
            apu.full_buffers == old(apu).full_buffers,
            apu.sweep_tone_channel == old(apu).sweep_tone_channel,
            apu.enabled == old(apu).enabled,
        decreases 4 - i,
    {
        apu.terminal1.channels[i as usize] = is_bit_set(nr51, i);
        apu.terminal2.channels[i as usize] = is_bit_set(nr51, i + 4);
        i = i + 1;
    }
    let enabled = is_bit_set(ports[NR52], 7);
    if !enabled {
        apu.sweep_tone_channel.reset();
        apu.tone_channel.reset();
        apu.wave_channel.reset();
        apu.noise_channel.reset();
    }
    apu.enabled = enabled;
}

/// Applies the sound registers written since the last update.
pub fn update_apu_registers(apu: &mut GbApu, ports: &Vec<u8>, triggers: &Vec<bool>)
    requires
        old(apu).wf(),
        io_wf(ports, triggers),
    ensures
        final(apu).wf(),
        final(apu).enabled == bit_set(ports@[NR52 as int], 7),
        final(apu).samples_produced == old(apu).samples_produced,
        final(apu).full_buffers == old(apu).full_buffers,
{
    prepare_control_registers(apu, ports);
    if apu.enabled {
        prepare_wave_channel(&mut apu.wave_channel, ports, triggers);
        prepare_tone_sweep_channel(&mut apu.sweep_tone_channel, ports, triggers);
        prepare_noise_channel(&mut apu.noise_channel, ports, triggers);
        prepare_tone_channel(&mut apu.tone_channel, ports, triggers);
    }
}

} // verus!
