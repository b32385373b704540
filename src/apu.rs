pub mod channel;
pub mod frame_sequencer;
pub mod gb_apu;
pub mod registers;
pub mod tone_sweep_sample_producer;
pub mod wave_sample_producer;
