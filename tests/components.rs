use lib_gb::apu::channel::{update_sweep_frequency, Channel};
use lib_gb::apu::frame_sequencer::FrameSequencer;
use lib_gb::apu::gb_apu::{mix_terminal, SoundTerminal};
use lib_gb::apu::registers::update_channel_conrol_register;
use lib_gb::apu::tone_sweep_sample_producer::{get_duty_level, ToneSweepSampleProducer};
use lib_gb::apu::wave_sample_producer::{NoiseSampleProducer, WaveSampleProducer};
use lib_gb::cpu::gb_cpu::{alu, GbCpu};
use lib_gb::cpu::opcodes_utils::{
    check_for_half_carry_first_nible_add, check_for_half_carry_first_nible_sub, check_for_half_carry_third_nible,
    get_arithmetic_16reg, get_cb_opcode, get_reg_two_rows, get_src_register, ld_r_n, ld_r_r,
};
use lib_gb::fixed_size_queue::FixedSizeQueue;
use lib_gb::mmu::interrupts_handler::{InterruptRequest, InterruptsHandler};
use lib_gb::mmu::io_bus::get_joypad_nibble;
use lib_gb::mmu::vram_dma_controller::VramDmaController;
use lib_gb::ppu::attributes::{Attributes, BackgroundAttributes, Pallete, SpriteAttributes};
use lib_gb::ppu::color::{get_matching_color, Color};
use lib_gb::ppu::fifo::sprite_fetcher::SpriteFetcher;
use lib_gb::ppu::gb_ppu::is_sprite_pixel_visible;

#[test]
fn queue_keeps_order_across_wrap() {
    let mut q: FixedSizeQueue<u8, 4> = FixedSizeQueue::new();
    q.push(1);
    q.push(2);
    q.push(3);
    assert_eq!(q.remove(), 1);
    assert_eq!(q.remove(), 2);
    q.push(4);
    q.push(5);
    q.push(6);
    assert_eq!(q.len(), 4);
    assert_eq!(q.get(0), 3);
    assert_eq!(q.get(3), 6);
    q.set(1, 40);
    assert_eq!(q.remove(), 3);
    assert_eq!(q.remove(), 40);
    assert_eq!(q.remove(), 5);
    assert_eq!(q.remove(), 6);
    assert_eq!(q.len(), 0);
}

#[test]
fn queue_fill_and_clear() {
    let mut q: FixedSizeQueue<u8, 8> = FixedSizeQueue::new();
    q.push(9);
    q.remove();
    q.fill(&[1, 2, 3, 4, 5, 6, 7, 8]);
    assert_eq!(q.len(), 8);
    assert_eq!(q.get(7), 8);
    q.clear();
    assert_eq!(q.len(), 0);
    q.push(11);
    assert_eq!(q.remove(), 11);
}

#[test]
fn attribute_bits_decode() {
    let a = Attributes::new_gb(0b1110_1000);
    assert!(a.priority && a.flip_y && a.flip_x && !a.bank);
    let g = Attributes::new_gbc(0b0000_1000);
    assert!(g.bank && !g.priority);
    let bg = BackgroundAttributes::new(0b1000_1101);
    assert_eq!(bg.cgb_pallete_number, 5);
    assert!(bg.attribute.priority && bg.attribute.bank);
    let s = SpriteAttributes::new_gb(20, 30, 7, 0x10);
    assert!(matches!(s.palette_number, Pallete::GbPallete(true)));
    let c = SpriteAttributes::new_gbc(20, 30, 7, 0x03, 9);
    assert!(matches!(c.palette_number, Pallete::GbcPallete(3)));
    assert_eq!(c.oam_index, 9);
}

#[test]
fn colors_and_pixels() {
    assert_eq!(get_matching_color(0).into_pixel(), 0xFF_FFFF);
    assert_eq!(get_matching_color(3).into_pixel(), 0);
    let c = Color::from_rgb555(0x7FFF);
    assert_eq!((c.r, c.g, c.b), (248, 248, 248));
    let red = Color::from_rgb555(0x001F);
    assert_eq!((red.r, red.g, red.b), (248, 0, 0));
    assert_eq!(Color { r: 1, g: 2, b: 3 }.into_pixel(), 0x01_02_03);
}

#[test]
fn tile_pixel_decode() {
    assert_eq!(SpriteFetcher::get_decoded_pixel(7, 0x80, 0x80), 3);
    assert_eq!(SpriteFetcher::get_decoded_pixel(0, 0x01, 0x00), 1);
    assert_eq!(SpriteFetcher::get_decoded_pixel(0, 0x00, 0x01), 2);
    assert_eq!(SpriteFetcher::get_decoded_pixel(3, 0xF7, 0xF7), 0);
}

#[test]
fn dmg_sprite_priority_rules() {
    // sprite color 0 is transparent
    assert!(!is_sprite_pixel_visible(false, 0x91, false, 0, 0, false));
    // opaque sprite over any background
    assert!(is_sprite_pixel_visible(false, 0x91, false, 2, 1, false));
    // behind-background sprite shows only over color 0
    assert!(!is_sprite_pixel_visible(false, 0x91, false, 2, 1, true));
    assert!(is_sprite_pixel_visible(false, 0x91, false, 0, 1, true));
    // GBC: background priority with LCDC bit 0 wins
    assert!(!is_sprite_pixel_visible(true, 0x91, true, 0, 3, false));
    assert!(is_sprite_pixel_visible(true, 0x90, true, 0, 3, false));
}

#[test]
fn length_counter_reloads_on_trigger() {
    let mut ch: Channel<ToneSweepSampleProducer> = Channel::new();
    ch.length_enable = true;
    update_channel_conrol_register(&mut ch, true, 0xC0, 64, 100);
    assert_eq!(ch.sound_length, 64);
    assert!(ch.enabled);
    let mut wave: Channel<WaveSampleProducer> = Channel::new();
    update_channel_conrol_register(&mut wave, true, 0xC0, 256, 100);
    assert_eq!(wave.sound_length, 256);
    // a running counter is kept
    let mut ch2: Channel<ToneSweepSampleProducer> = Channel::new();
    ch2.sound_length = 5;
    update_channel_conrol_register(&mut ch2, true, 0x80, 64, 100);
    assert_eq!(ch2.sound_length, 5);
    assert!(!ch2.length_enable);
}

#[test]
fn trigger_with_dac_off_stays_disabled() {
    let mut ch: Channel<ToneSweepSampleProducer> = Channel::new();
    update_channel_conrol_register(&mut ch, false, 0x80, 64, 100);
    assert!(!ch.enabled);
}

#[test]
fn length_tick_disables_at_zero() {
    let mut ch: Channel<ToneSweepSampleProducer> = Channel::new();
    ch.enabled = true;
    ch.length_enable = true;
    ch.sound_length = 2;
    ch.update_length_register();
    assert!(ch.enabled);
    assert_eq!(ch.sound_length, 1);
    ch.update_length_register();
    assert!(!ch.enabled);
    assert_eq!(ch.sound_length, 0);
}

#[test]
fn sweep_overflow_disables_channel() {
    let mut ch: Channel<ToneSweepSampleProducer> = Channel::new();
    ch.enabled = true;
    ch.frequency = 0x7F0;
    ch.sample_producer.sweep.enabled = true;
    ch.sample_producer.sweep.sweep_period = 1;
    ch.sample_producer.sweep.sweep_shift = 1;
    ch.sample_producer.sweep.shadow_frequency = 0x7F0;
    update_sweep_frequency(&mut ch);
    assert!(!ch.enabled);
    assert_eq!(ch.frequency, 0x7F0);
}

#[test]
fn sweep_step_moves_frequency() {
    let mut ch: Channel<ToneSweepSampleProducer> = Channel::new();
    ch.enabled = true;
    ch.frequency = 0x100;
    ch.sample_producer.sweep.enabled = true;
    ch.sample_producer.sweep.sweep_period = 1;
    ch.sample_producer.sweep.sweep_shift = 1;
    ch.sample_producer.sweep.shadow_frequency = 0x100;
    update_sweep_frequency(&mut ch);
    assert!(ch.enabled);
    assert_eq!(ch.frequency, 0x180);
    assert_eq!(ch.sample_producer.sweep.shadow_frequency, 0x180);
}

#[test]
fn frame_sequencer_step_pattern() {
    let mut fs = FrameSequencer::new();
    let mut lengths = 0;
    let mut envelopes = 0;
    let mut sweeps = 0;
    for _ in 0..(8192 * 8) {
        let t = fs.cycle();
        if t.length_counter {
            lengths += 1;
        }
        if t.volume_envelope {
            envelopes += 1;
        }
        if t.frequency_sweep {
            sweeps += 1;
        }
    }
    assert_eq!((lengths, envelopes, sweeps), (4, 1, 2));
}

#[test]
fn duty_patterns() {
    let levels: Vec<u8> = (0..8).map(|s| get_duty_level(2, s)).collect();
    assert_eq!(levels, vec![1, 0, 0, 0, 0, 1, 1, 1]);
    let eighth: u8 = (0..8).map(|s| get_duty_level(0, s)).sum();
    assert_eq!(eighth, 1);
}

#[test]
fn mixer_scales_by_volume() {
    let t = SoundTerminal { enabled: true, volume: 7, channels: [true, false, true, false] };
    assert_eq!(mix_terminal(&[15, 15, 1, 15], &t), (16 * 8 * 64) as i16);
    let quiet = SoundTerminal { enabled: true, volume: 0, channels: [true, true, true, true] };
    assert_eq!(mix_terminal(&[1, 1, 1, 1], &quiet), 4 * 64);
}

#[test]
fn noise_register_and_period() {
    assert_eq!(NoiseSampleProducer::step_lfsr(0x7FFF, false), 0x3FFF);
    assert_eq!(NoiseSampleProducer::step_lfsr(0x0001, false), 0x4000);
    assert_eq!(NoiseSampleProducer::step_lfsr(0x0001, true), 0x4040);
    assert_eq!(NoiseSampleProducer::period(0, 0), 8);
    assert_eq!(NoiseSampleProducer::period(3, 2), 48 * 4);
}

#[test]
fn alu_flags() {
    assert_eq!(alu(0, 0x0F, 0x01, false), (0x10, 0x20));
    assert_eq!(alu(0, 0xFF, 0x01, false), (0x00, 0xB0));
    assert_eq!(alu(1, 0x0E, 0x01, true), (0x10, 0x20));
    assert_eq!(alu(2, 0x10, 0x01, false), (0x0F, 0x60));
    assert_eq!(alu(2, 0x01, 0x02, false), (0xFF, 0x70));
    assert_eq!(alu(3, 0x05, 0x05, true), (0xFF, 0x70));
    assert_eq!(alu(4, 0xF0, 0x0F, false), (0x00, 0xA0));
    assert_eq!(alu(5, 0xFF, 0xFF, false), (0x00, 0x80));
    assert_eq!(alu(6, 0x00, 0x00, false), (0x00, 0x80));
    assert_eq!(alu(7, 0x42, 0x42, false), (0x42, 0xC0));
}

#[test]
fn half_carry_helpers() {
    assert!(check_for_half_carry_first_nible_add(0x0F, 0x01));
    assert!(!check_for_half_carry_first_nible_add(0x0E, 0x01));
    assert!(check_for_half_carry_first_nible_sub(0x10, 0x01));
    assert!(!check_for_half_carry_first_nible_sub(0x11, 0x01));
    assert!(check_for_half_carry_third_nible(0x0FFF, 0x0001));
    assert!(!check_for_half_carry_third_nible(0x0FFE, 0x0001));
    assert_eq!(get_cb_opcode(0xCB37), 0x37);
}

#[test]
fn register_selection_and_loads() {
    let mut cpu = GbCpu::new(false);
    assert_eq!(get_src_register(&cpu, 0x41), 0x13);
    assert_eq!(get_reg_two_rows(&cpu, 0x78), 0x01);
    assert_eq!(get_arithmetic_16reg(&cpu, 2), 0x014D);
    assert_eq!(get_arithmetic_16reg(&cpu, 3), 0xFFFE);
    ld_r_r(&mut cpu, 0, 7);
    assert_eq!(cpu.b, 0x01);
    ld_r_n(&mut cpu, 5, 0x99);
    assert_eq!(cpu.l, 0x99);
}

#[test]
fn interrupt_priority_and_wake() {
    let mut h = InterruptsHandler::new();
    h.interrupt_flag = 0b0001_0110;
    h.interrupt_enable_flag = 0b0001_1100;
    assert_eq!(h.handle_interrupts(true), InterruptRequest::Interrupt(2));
    assert_eq!(h.handle_interrupts(false), InterruptRequest::Unhalt);
    h.interrupt_enable_flag = 0;
    assert_eq!(h.handle_interrupts(true), InterruptRequest::NoRequest);
    h.acknowledge(2);
    assert_eq!(h.interrupt_flag, 0b0001_0010);
}

#[test]
fn vram_dma_registers() {
    let mut d = VramDmaController::new();
    assert_eq!(d.get_mode_length(), 0xFF);
    d.set_source_high(0x12);
    d.set_source_low(0x3F);
    assert_eq!(d.source_address, 0x1230);
    d.set_dest_high(0xFF);
    d.set_dest_low(0x47);
    assert_eq!(d.dest_address, 0x1F40);
    d.set_mode_length(0x85);
    assert_eq!(d.get_mode_length(), 0x05);
    // stopping a transfer early keeps the chunks left
    d.set_mode_length(0x00);
    assert_eq!(d.get_mode_length(), 0x05);
}

#[test]
fn joypad_rows() {
    // A and Right pressed; directions selected (bit 4 low)
    assert_eq!(get_joypad_nibble(0x20, 0b1000_0001), 0b1110);
    // actions selected (bit 5 low): A pressed
    assert_eq!(get_joypad_nibble(0x10, 0b1000_0001), 0b1110);
    // Start is bit 3 of the action row
    assert_eq!(get_joypad_nibble(0x10, 0b0000_0100), 0b0111);
    assert_eq!(get_joypad_nibble(0x30, 0xFF), 0x0F);
}
