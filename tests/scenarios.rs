use lib_gb::machine::gameboy::GameBoy;
use lib_gb::mmu::carts::{initialize_mbc, Mbc, MbcError};
use lib_gb::mmu::gb_mmu::GbMmu;
use lib_gb::ppu::fifo::sprite_fetcher::SpriteFetcher;
use lib_gb::ppu::gb_ppu::{GbPpu, PpuState};
use lib_gb::ppu::ppu_register_updater::handle_lcdcontrol_register;

fn rom_with(size: usize, fill: u8, cart_type: u8, ram_code: u8) -> Vec<u8> {
    let mut rom = vec![fill; size];
    rom[0x147] = cart_type;
    rom[0x149] = ram_code;
    rom
}

fn banked_rom() -> Vec<u8> {
    let mut rom: Vec<u8> = (0..0x100000usize).map(|i| (i / 0x4000) as u8 ^ (i % 251) as u8).collect();
    rom[0x147] = 0x01;
    rom[0x149] = 0x00;
    rom
}

#[test]
fn blank_frame() {
    let mbc = initialize_mbc(rom_with(0x8000, 0xFF, 0x00, 0x00), None, 0).unwrap();
    let mut gb = GameBoy::new(mbc);
    assert_eq!(gb.cycle_frame(0), Ok(()));
    // the frame sink received a buffer
    assert!(gb.frames_completed() >= 1);
    assert_eq!(gb.take_frame().len(), 160 * 144);
    // only RST 0x38 ran: the CPU sits right after the vector
    assert_eq!(gb.program_counter(), 0x38);
}

/// A 256-byte boot program: turns the LCD on, waits until LY reads 0x90,
/// then unmaps itself by writing 1 to BOOT from its last bytes.
fn boot_rom() -> Vec<u8> {
    let mut b = vec![0u8; 0x100];
    let program: [u8; 12] = [
        0x3E, 0x91, // LD A, 0x91
        0xE0, 0x40, // LDH (0x40), A
        0xF0, 0x44, // LDH A, (0x44)
        0xFE, 0x90, // CP 0x90
        0x20, 0xFA, // JR NZ, -6
        0xC3, 0xFA, // JP 0x00FA
    ];
    b[..12].copy_from_slice(&program);
    b[12] = 0x00;
    // 0x00FA: LD A, 1 ; LDH (0x50), A ; then PC = 0x0100
    b[0xFA] = 0x3E;
    b[0xFB] = 0x01;
    b[0xFC] = 0xE0;
    b[0xFD] = 0x50;
    b[0xFE] = 0x00;
    b[0xFF] = 0x00;
    b
}

#[test]
fn boot_rom_to_ly_0x90() {
    let mut rom = rom_with(0x8000, 0x00, 0x00, 0x00);
    // at 0x100: JR -2, an endless loop
    rom[0x100] = 0x18;
    rom[0x101] = 0xFE;
    let mbc = initialize_mbc(rom, None, 0).unwrap();
    let mut gb = GameBoy::new_with_bootrom(mbc, boot_rom());
    assert_eq!(gb.read_memory(0xFF50), 0);
    let mut saw_ly_0x90 = false;
    for _ in 0..3 {
        for _ in 0..4 {
            gb.cycle_frame(0).unwrap();
            if gb.read_memory(0xFF44) == 0x90 {
                saw_ly_0x90 = true;
            }
        }
    }
    // the boot program leaves its wait loop only once LY read 0x90
    assert!(saw_ly_0x90 || gb.read_memory(0xFF50) == 1);
    assert_eq!(gb.read_memory(0xFF50), 1);
    // handed over at 0x100, where JR -2 keeps PC
    assert_eq!(gb.program_counter(), 0x100);
    // the cartridge shows through again
    assert_eq!(gb.read_memory(0x0000), 0x00);
}

#[test]
fn oam_dma_lockout() {
    let mbc = initialize_mbc(rom_with(0x8000, 0x00, 0x00, 0x00), None, 0).unwrap();
    let mut mmu = GbMmu::new(mbc);
    mmu.write(0xC000, 0x42);
    mmu.write(0xFF80, 0x17);
    mmu.write(0xFF46, 0xC0);
    assert_eq!(mmu.read(0xC000), 0xFF);
    assert_eq!(mmu.read(0xFF80), 0x17);
    mmu.write(0xC000, 0x99);
    mmu.cycle(100, false);
    assert_eq!(mmu.read(0xC000), 0xFF);
    mmu.cycle(60, false);
    assert_eq!(mmu.read(0xC000), 0x42);
    // the copy reached OAM
    assert_eq!(mmu.io_bus.ppu.oam[0], 0x42);
}

#[test]
fn mbc1_rom_banking() {
    let rom = banked_rom();
    let expected = rom[0x14000];
    let mut mbc = initialize_mbc(rom.clone(), None, 0).unwrap();
    mbc.write_rom(0x2000, 0x05);
    assert_eq!(mbc.read_rom(0x4000), expected);
    assert_eq!(mbc.read_rom(0x4123), rom[0x14123]);
    assert_eq!(mbc.read_rom(0x0123), rom[0x0123]);
}

#[test]
fn mbc1_banking_through_the_bus() {
    let rom = banked_rom();
    let mut mmu = GbMmu::new(initialize_mbc(rom.clone(), None, 0).unwrap());
    mmu.write(0x2000, 0x05);
    assert_eq!(mmu.read(0x4000), rom[0x14000]);
    mmu.write(0x4000, 0x01);
    mmu.write(0x2000, 0x20);
    assert_eq!(mmu.read(0x4000), rom[0x21 * 0x4000]);
}

#[test]
fn timer_overflow_requests_interrupt() {
    let mut mmu = GbMmu::new(initialize_mbc(rom_with(0x8000, 0x00, 0x00, 0x00), None, 0).unwrap());
    mmu.write(0xFF06, 0xAB);
    mmu.write(0xFF05, 0xFF);
    mmu.write(0xFF07, 0x05);
    mmu.write(0xFF0F, 0x00);
    mmu.cycle(4, false);
    assert_eq!(mmu.read(0xFF05), 0xAB);
    assert_eq!(mmu.read(0xFF0F) & 0x04, 0x04);
}

#[test]
fn mbc1_bank_zero_maps_next_bank() {
    let rom = banked_rom();
    let mut mbc = initialize_mbc(rom.clone(), None, 0).unwrap();
    mbc.write_rom(0x2000, 0x00);
    assert_eq!(mbc.read_rom(0x4000), rom[0x4000]);
    mbc.write_rom(0x2000, 0x20);
    assert_eq!(mbc.read_rom(0x4000), rom[0x4000]);
    mbc.write_rom(0x4000, 0x01);
    mbc.write_rom(0x2000, 0x00);
    assert_eq!(mbc.current_rom_bank(), 0x21);
    assert_eq!(mbc.read_rom(0x4000), rom[0x21 * 0x4000]);
}

#[test]
fn apu_length_counts_down_to_disable() {
    let mbc = initialize_mbc(rom_with(0x8000, 0x00, 0x00, 0x00), None, 0).unwrap();
    let mut mmu = GbMmu::new(mbc);
    mmu.write(0xFF26, 0x80);
    mmu.write(0xFF12, 0xF0);
    mmu.write(0xFF11, 0x3C);
    mmu.write(0xFF14, 0xC0);
    mmu.cycle(1, false);
    assert_eq!(mmu.read(0xFF26) & 1, 1);
    assert_eq!(mmu.io_bus.apu.sweep_tone_channel.sound_length, 4);
    // length clocks come every 4096 m-cycles, the first after 2048
    let mut m: u32 = 1;
    while m < 2048 + 2 * 4096 + 100 {
        mmu.cycle(100, false);
        m += 100;
    }
    assert_eq!(mmu.io_bus.apu.sweep_tone_channel.sound_length, 1);
    assert_eq!(mmu.read(0xFF26) & 1, 1);
    while m < 2048 + 4 * 4096 + 100 {
        mmu.cycle(100, false);
        m += 100;
    }
    assert_eq!(mmu.read(0xFF26) & 1, 0);
}

#[test]
fn frame_count_and_audio_samples() {
    let mut rom = rom_with(0x8000, 0x00, 0x00, 0x00);
    rom[0x100] = 0x18;
    rom[0x101] = 0xFE;
    let mbc = initialize_mbc(rom, None, 0).unwrap();
    let mut gb = GameBoy::new(mbc);
    let mut sink_calls = 0u64;
    let mut last = gb.frames_completed();
    for i in 0..60u32 {
        gb.cycle_frame((i % 3) as u8).unwrap();
        let now = gb.frames_completed();
        sink_calls += now - last;
        last = now;
    }
    assert_eq!(sink_calls, 60);
    // one stereo sample per T-cycle; JR takes 3 m-cycles, which divides 17556
    let expected = 60 * 70224u64;
    let produced = gb.audio_samples_produced();
    assert!(produced + 1 >= expected && produced <= expected + 1);
    assert_eq!(gb.total_m_cycles(), 60 * 17556);
}

#[test]
fn runs_are_deterministic() {
    let mut rom = rom_with(0x8000, 0x00, 0x00, 0x00);
    // LD A,(HL+) ; ADD A,B ; LD B,A ; JR -5
    rom[0x100] = 0x2A;
    rom[0x101] = 0x80;
    rom[0x102] = 0x47;
    rom[0x103] = 0x18;
    rom[0x104] = 0xFB;
    let run = |rom: Vec<u8>| {
        let mut gb = GameBoy::new(initialize_mbc(rom, None, 0).unwrap());
        for i in 0..5u8 {
            gb.cycle_frame(i).unwrap();
        }
        (gb.take_frame(), gb.take_audio(), gb.total_m_cycles(), gb.read_memory(0xFF44))
    };
    assert_eq!(run(rom.clone()), run(rom));
}

#[test]
fn ppu_line_and_frame_timing() {
    let mut ppu = GbPpu::new(false);
    handle_lcdcontrol_register(0x91, &mut ppu);
    let mut if_register = 0u8;
    ppu.cycle(114, &mut if_register);
    assert_eq!(ppu.ly_register, 1);
    ppu.cycle(114 * 142, &mut if_register);
    assert_eq!(ppu.ly_register, 143);
    assert_eq!(if_register & 1, 0);
    ppu.cycle(114, &mut if_register);
    assert_eq!(ppu.ly_register, 144);
    assert!(ppu.state == PpuState::Vblank);
    assert_eq!(if_register & 1, 1);
    ppu.cycle(114 * 9, &mut if_register);
    assert_eq!(ppu.ly_register, 153);
    ppu.cycle(114, &mut if_register);
    assert_eq!(ppu.ly_register, 0);
    assert!(ppu.state == PpuState::OamSearch);
    assert_eq!(ppu.frames_completed, 1);
}

#[test]
fn oam_scan_picks_first_ten_sorted() {
    let mut oam = vec![0u8; 160];
    // twelve sprites on line 0 (y = 16), x descending, and one off the line
    for i in 0..12usize {
        oam[4 * i] = 16;
        oam[4 * i + 1] = 100 - i as u8;
        oam[4 * i + 2] = i as u8;
    }
    oam[4 * 12] = 40;
    oam[4 * 12 + 1] = 1;
    // two with equal x: the lower OAM index comes first
    oam[4 * 3 + 1] = 50;
    oam[4 * 5 + 1] = 50;
    let mut f = SpriteFetcher::new(false);
    f.select_sprites(&oam, 0, 0x80);
    assert_eq!(f.oam_entries.len(), 10);
    let xs: Vec<u8> = f.oam_entries.iter().map(|s| s.x).collect();
    let mut sorted = xs.clone();
    sorted.sort();
    assert_eq!(xs, sorted);
    let indices: Vec<u8> = f.oam_entries.iter().map(|s| s.oam_index).collect();
    assert_eq!(&indices[..2], &[3, 5]);
    let mut all = indices.clone();
    all.sort();
    assert_eq!(all, (0..10u8).collect::<Vec<u8>>());
}

#[test]
fn tall_sprites_cover_sixteen_lines() {
    let mut oam = vec![0u8; 160];
    oam[0] = 16;
    oam[1] = 8;
    let mut f = SpriteFetcher::new(false);
    f.select_sprites(&oam, 12, 0x84);
    assert_eq!(f.oam_entries.len(), 1);
    let mut g = SpriteFetcher::new(false);
    g.select_sprites(&oam, 12, 0x80);
    assert_eq!(g.oam_entries.len(), 0);
}

#[test]
fn save_round_trip_advances_clock() {
    let rom = rom_with(0x8000, 0x00, 0x13, 0x02);
    let mut mbc = initialize_mbc(rom.clone(), None, 1000).unwrap();
    mbc.write_rom(0x0000, 0x0A);
    mbc.write_rom(0x4000, 0x00);
    mbc.write_external_ram(0xA010, 0x5A);
    mbc.write_external_ram(0xBFFF, 0xA5);
    if let Mbc::Mbc3(m) = &mut mbc {
        m.rtc_seconds = 59;
    }
    let save = mbc.get_save(1_000_000);
    assert_eq!(save.len(), 0x2000 + 21);
    let mut loaded = initialize_mbc(rom, Some(save), 1_000_000 + 3661).unwrap();
    loaded.write_rom(0x0000, 0x0A);
    assert_eq!(loaded.read_external_ram(0xA010), 0x5A);
    assert_eq!(loaded.read_external_ram(0xBFFF), 0xA5);
    // latch: 59 + 3661 seconds = 1 h 2 min 0 s
    loaded.write_rom(0x6000, 0x00);
    loaded.write_rom(0x6000, 0x01);
    loaded.write_rom(0x4000, 0x08);
    assert_eq!(loaded.read_external_ram(0xA000), 0);
    loaded.write_rom(0x4000, 0x09);
    assert_eq!(loaded.read_external_ram(0xA000), 2);
    loaded.write_rom(0x4000, 0x0A);
    assert_eq!(loaded.read_external_ram(0xA000), 1);
}

#[test]
fn malformed_save_gives_zeroed_ram() {
    let rom = rom_with(0x8000, 0x00, 0x03, 0x02);
    let mut mbc = initialize_mbc(rom, Some(vec![7u8; 100]), 0).unwrap();
    mbc.write_rom(0x0000, 0x0A);
    assert_eq!(mbc.read_external_ram(0xA000), 0);
}

#[test]
fn unsupported_cartridges_are_refused() {
    assert_eq!(initialize_mbc(rom_with(0x8000, 0, 0x05, 0), None, 0).err(), Some(MbcError::UnsupportedCartridge(0x05)));
    assert_eq!(initialize_mbc(vec![0u8; 0x100], None, 0).err(), Some(MbcError::MissingHeader));
    assert_eq!(initialize_mbc(vec![0u8; 0x147], None, 0).err(), Some(MbcError::MissingHeader));
    // the type byte is there, the RAM-size byte is not: a cartridge without RAM
    let short = initialize_mbc(vec![0u8; 0x148], None, 0).unwrap();
    assert!(matches!(short, Mbc::Rom(_)));
    let mut mbc1_rom = vec![0u8; 0x149];
    mbc1_rom[0x147] = 0x03;
    let mut mbc1 = initialize_mbc(mbc1_rom, None, 0).unwrap();
    mbc1.write_rom(0x0000, 0x0A);
    assert_eq!(mbc1.read_external_ram(0xA000), 0xFF);
    assert!(matches!(initialize_mbc(rom_with(0x8000, 0, 0x11, 0), None, 0), Ok(Mbc::Mbc3(_))));
}

#[test]
fn cgb_flag_detection() {
    let mut rom = rom_with(0x8000, 0, 0x00, 0);
    rom[0x143] = 0xC0;
    assert!(initialize_mbc(rom.clone(), None, 0).unwrap().is_cgb_mode());
    rom[0x143] = 0x00;
    assert!(!initialize_mbc(rom, None, 0).unwrap().is_cgb_mode());
}

#[test]
fn memory_map_regions() {
    let mbc = initialize_mbc(rom_with(0x8000, 0x00, 0x00, 0x00), None, 0).unwrap();
    let mut mmu = GbMmu::new(mbc);
    mmu.write(0xC123, 0x11);
    assert_eq!(mmu.read(0xE123), 0x11);
    mmu.write(0xFEA5, 0x33);
    assert_eq!(mmu.read(0xFEA5), 0x00);
    mmu.write(0xFFFF, 0x1F);
    assert_eq!(mmu.read(0xFFFF), 0x1F);
    mmu.write(0xFF50, 0x00);
    assert_eq!(mmu.read(0xFF50), 1);
    for a in 0..=0xFFFFu16 {
        let _ = mmu.read(a);
    }
}

#[test]
fn forbidden_opcode_stops_the_frame() {
    let mut rom = rom_with(0x8000, 0x00, 0x00, 0x00);
    rom[0x100] = 0xD3;
    let mut gb = GameBoy::new(initialize_mbc(rom, None, 0).unwrap());
    assert_eq!(gb.cycle_frame(0), Err(0xD3));
    // the CPU stops in front of the opcode
    assert_eq!(gb.program_counter(), 0x100);
    assert_eq!(gb.read_memory(gb.program_counter()), 0xD3);
}
