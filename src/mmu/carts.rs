use vstd::prelude::*;

verus! {

pub const CARTRIDGE_TYPE_ADDRESS: usize = 0x147;
pub const RAM_SIZE_ADDRESS: usize = 0x149;
pub const CGB_FLAG_ADDRESS: usize = 0x143;
pub const ROM_BANK_SIZE: usize = 0x4000;
pub const RAM_BANK_SIZE: usize = 0x2000;
/// Bytes after the RAM in an MBC3 save: the RTC seconds and the five latched
/// registers, then the time of saving in seconds, both little-endian.
pub const RTC_FOOTER_SIZE: usize = 21;

/// Why a cartridge cannot be loaded.
#[derive(Clone, Copy, PartialEq, Eq, Structural, Debug)]
pub enum MbcError {
    /// The header names a controller that is not implemented.
    UnsupportedCartridge(u8),
    /// The program is too short to hold the cartridge-type byte.
    MissingHeader,
}

/// The byte a ROM read returns: past the end of the image it reads 0xFF.
pub open spec fn rom_at(rom: Seq<u8>, offset: int) -> u8 {
    if 0 <= offset < rom.len() { rom[offset] } else { 0xFF }
}

/// Bytes of cartridge RAM that header code `code` (0x149) declares.
pub open spec fn ram_size_of(code: u8) -> nat {
    if code == 1 { 0x800 } else if code == 2 { 0x2000 } else if code == 3 { 0x8000 } else if code == 4 { 0x20000 } else if code == 5 { 0x10000 } else { 0 }
}

/// The RAM-size code of a ROM image; 0 (no RAM) when it is too short to hold it.
pub open spec fn ram_code(program: Seq<u8>) -> u8 {
    if program.len() > RAM_SIZE_ADDRESS { program[RAM_SIZE_ADDRESS as int] } else { 0 }
}

pub fn ram_size(code: u8) -> (n: usize)
    ensures
        n == ram_size_of(code),
{
    if code == 1 { 0x800 } else if code == 2 { 0x2000 } else if code == 3 { 0x8000 } else if code == 4 { 0x20000 } else if code == 5 { 0x10000 } else { 0 }
}

pub fn read_rom(rom: &Vec<u8>, offset: usize) -> (r: u8)
    ensures
        r == rom_at(rom@, offset as int),
{
    if offset < rom.len() { rom[offset] } else { 0xFF }
}

/// The MBC1 ROM bank that the registers select for 0x4000-0x7FFF: the low
/// five bits, 0 read as 1, with the upper two bits above them in ROM mode.
pub open spec fn mbc1_bank(lo5: u8, hi2: u8, ram_mode: bool) -> int {
    let lo = if lo5 % 32 == 0 { 1 } else { lo5 % 32 };
    if ram_mode { lo as int } else { (hi2 % 4) * 32 + lo }
}

/// The bank that writing `value` to 0x2000-0x3FFF selects, with upper bits `hi2`.
pub fn get_mbc1_bank(lo5: u8, hi2: u8, ram_mode: bool) -> (b: usize)
    ensures
        b == mbc1_bank(lo5, hi2, ram_mode),
{
    let lo: usize = if lo5 % 32 == 0 { 1 } else { (lo5 % 32) as usize };
    if ram_mode { lo } else { (hi2 % 4) as usize * 32 + lo }
}

/// Little-endian bytes of a u64.
pub open spec fn le_bytes(x: u64) -> Seq<u8> {
    Seq::new(8, |i: int| ((x >> (8 * i) as u64) & 0xFF) as u8)
}

pub open spec fn le_value(b: Seq<u8>) -> u64 {
    (b[0] as u64) | ((b[1] as u64) << 8u64) | ((b[2] as u64) << 16u64) | ((b[3] as u64) << 24u64)
        | ((b[4] as u64) << 32u64) | ((b[5] as u64) << 40u64) | ((b[6] as u64) << 48u64) | ((b[7] as u64) << 56u64)
}

pub proof fn lemma_le_round_trip(x: u64)
    ensures
        le_value(le_bytes(x)) == x,
{
    let b = le_bytes(x);
    assert(b[0] == ((x >> 0u64) & 0xFF) as u8);
    assert(b[1] == ((x >> 8u64) & 0xFF) as u8);
    assert(b[2] == ((x >> 16u64) & 0xFF) as u8);
    assert(b[3] == ((x >> 24u64) & 0xFF) as u8);
    assert(b[4] == ((x >> 32u64) & 0xFF) as u8);
    assert(b[5] == ((x >> 40u64) & 0xFF) as u8);
    assert(b[6] == ((x >> 48u64) & 0xFF) as u8);
    assert(b[7] == ((x >> 56u64) & 0xFF) as u8);
    assert(
        ((((x >> 0u64) & 0xFF) as u8) as u64) | (((((x >> 8u64) & 0xFF) as u8) as u64) << 8u64)
        | (((((x >> 16u64) & 0xFF) as u8) as u64) << 16u64) | (((((x >> 24u64) & 0xFF) as u8) as u64) << 24u64)
        | (((((x >> 32u64) & 0xFF) as u8) as u64) << 32u64) | (((((x >> 40u64) & 0xFF) as u8) as u64) << 40u64)
        | (((((x >> 48u64) & 0xFF) as u8) as u64) << 48u64) | (((((x >> 56u64) & 0xFF) as u8) as u64) << 56u64) == x
    ) by (bit_vector);
}

pub fn push_le(out: &mut Vec<u8>, x: u64)
    ensures
        final(out)@ == old(out)@ + le_bytes(x),
{
    let mut i: u64 = 0;
    while i < 8
        invariant
            i <= 8,
            out@ == old(out)@ + le_bytes(x).subrange(0, i as int),
        decreases 8 - i,
    {
        out.push(((x >> (8 * i)) & 0xFF) as u8);
        i = i + 1;
        assert(out@ =~= old(out)@ + le_bytes(x).subrange(0, i as int));
    }
    assert(le_bytes(x).subrange(0, 8) =~= le_bytes(x));
}

pub fn read_le(b: &Vec<u8>, at: usize) -> (x: u64)
    requires
        at + 8 <= b@.len(),
    ensures
        x == le_value(b@.subrange(at as int, at + 8)),
{
    let _n = b.len();
    (b[at] as u64) | ((b[at + 1] as u64) << 8u64) | ((b[at + 2] as u64) << 16u64) | ((b[at + 3] as u64) << 24u64)
        | ((b[at + 4] as u64) << 32u64) | ((b[at + 5] as u64) << 40u64) | ((b[at + 6] as u64) << 48u64)
        | ((b[at + 7] as u64) << 56u64)
}

/// The cartridge: a ROM image behind one of the supported bank controllers.
pub enum Mbc {
    Rom(Rom),
    Mbc1(Mbc1),
    Mbc3(Mbc3),
}

/// No controller: 32 KiB of ROM and, with a battery, 8 KiB of RAM.
pub struct Rom {
    pub program: Vec<u8>,
    pub ram: Vec<u8>,
    pub battery: bool,
}

pub struct Mbc1 {
    pub program: Vec<u8>,
    pub ram: Vec<u8>,
    pub battery: bool,
    pub ram_enabled: bool,
    pub rom_bank_lo5: u8,
    pub bank_hi2: u8,
    pub ram_mode: bool,
}

pub struct Mbc3 {
    pub program: Vec<u8>,
    pub ram: Vec<u8>,
    pub battery: bool,
    pub ram_enabled: bool,
    pub rom_bank: u8,
    /// 0x00-0x03 a RAM bank, 0x08-0x0C an RTC register.
    pub ram_rtc_select: u8,
    /// Seconds the clock has counted.
    pub rtc_seconds: u64,
    /// S, M, H, DL, DH as frozen by the last latch.
    pub latched: [u8; 5],
    pub last_latch_write: u8,
}

/// The five RTC registers for a count of seconds.
pub open spec fn rtc_registers(seconds: u64) -> Seq<u8> {
    let days = seconds / 86400;
    seq![
        (seconds % 60) as u8,
        ((seconds / 60) % 60) as u8,
        ((seconds / 3600) % 24) as u8,
        (days % 256) as u8,
        (((days / 256) % 2) + (if days >= 512 { 0x80int } else { 0 })) as u8,
    ]
}

impl Mbc3 {
    /// Latches the clock into the five registers.
    pub fn latch(&mut self)
        ensures
            final(self).latched@ == rtc_registers(old(self).rtc_seconds),
            final(self).rtc_seconds == old(self).rtc_seconds,
            final(self).ram == old(self).ram,
            final(self).program == old(self).program,
            final(self).ram_enabled == old(self).ram_enabled,
            final(self).rom_bank == old(self).rom_bank,
            final(self).ram_rtc_select == old(self).ram_rtc_select,
            final(self).last_latch_write == old(self).last_latch_write,
            final(self).battery == old(self).battery,
    {
        let s = self.rtc_seconds;
        let days = s / 86400;
        self.latched = [
            (s % 60) as u8,
            ((s / 60) % 60) as u8,
            ((s / 3600) % 24) as u8,
            (days % 256) as u8,
            (((days / 256) % 2) + (if days >= 512 { 0x80 } else { 0 })) as u8,
        ];
        assert(self.latched@ =~= rtc_registers(s));
    }
}

/// RAM from a save blob: kept when it has the expected size, else zeros.
pub fn ram_from_save(size: usize, save: &Option<Vec<u8>>, footer: usize) -> (ram: Vec<u8>)
    ensures
        ram@.len() == size,
        save.is_some() && save.unwrap()@.len() == size + footer ==> ram@ == save.unwrap()@.subrange(0, size as int),
        !(save.is_some() && save.unwrap()@.len() == size + footer) ==> forall|i: int| 0 <= i < size ==> ram@[i] == 0,
{
    match save {
        Some(data) => {
            if data.len() >= size && data.len() - size == footer {
                let mut ram: Vec<u8> = Vec::new();
                let mut i: usize = 0;
                while i < size
                    invariant
                        i <= size <= data@.len(),
                        ram@ == data@.subrange(0, i as int),
                    decreases size - i,
                {
                    ram.push(data[i]);
                    i = i + 1;
                    assert(ram@ =~= data@.subrange(0, i as int));
                }
                ram
            } else {
                vec![0u8; size]
            }
        },
        None => vec![0u8; size],
    }
}

/// Builds the controller that the header's cartridge type names. `now` is
/// the wall-clock time in seconds, used by MBC3 to move its clock on by the
/// time since the save.
pub fn initialize_mbc(program: Vec<u8>, save_data: Option<Vec<u8>>, now: u64) -> (r: Result<Mbc, MbcError>)
    ensures
        program@.len() <= CARTRIDGE_TYPE_ADDRESS ==> r == Err::<Mbc, MbcError>(MbcError::MissingHeader),
        program@.len() > CARTRIDGE_TYPE_ADDRESS ==> ({
            let t = program@[CARTRIDGE_TYPE_ADDRESS as int];
            let supported = t == 0 || t == 8 || t == 9 || t == 1 || t == 2 || t == 3 || t == 0x11 || t == 0x12
                || t == 0x13 || t == 0x1B;
            &&& !supported ==> r == Err::<Mbc, MbcError>(MbcError::UnsupportedCartridge(t))
            &&& supported ==> r.is_ok() && r.unwrap().program()@ == program@
            &&& (t == 0 || t == 8 || t == 9) ==> r.unwrap() is Rom
            &&& (t == 1 || t == 2 || t == 3) ==> r.unwrap() is Mbc1
            // power-on registers: bank 1, RAM off, ROM banking mode
            &&& (t == 1 || t == 2 || t == 3) ==> ({
                let m = r.unwrap()->Mbc1_0;
                m.rom_bank_lo5 == 1 && m.bank_hi2 == 0 && !m.ram_mode && !m.ram_enabled
                    && m.ram@.len() == ram_size_of(ram_code(program@))
            })
            &&& (t == 0x11 || t == 0x12 || t == 0x13 || t == 0x1B) ==> ({
                let m = r.unwrap()->Mbc3_0;
                m.rom_bank == 1 && m.ram_rtc_select == 0 && !m.ram_enabled && m.last_latch_write == 0xFF
            })
            &&& (t == 0 || t == 8 || t == 9) ==> r.unwrap().ram()@.len() == if t == 0 { 0 } else { RAM_BANK_SIZE as int }
            &&& (t == 0x11 || t == 0x12 || t == 0x13 || t == 0x1B) ==> r.unwrap() is Mbc3
            &&& t == 3 ==> {
                let size = ram_size_of(ram_code(program@)) as int;
                &&& r.unwrap().ram()@.len() == size
                &&& save_data.is_some() && save_data.unwrap()@.len() == size
                    ==> r.unwrap().ram()@ == save_data.unwrap()@.subrange(0, size)
                &&& !(save_data.is_some() && save_data.unwrap()@.len() == size)
                    ==> forall|i: int| 0 <= i < size ==> r.unwrap().ram()@[i] == 0
            }
            &&& t == 9 ==> {
                &&& save_data.is_some() && save_data.unwrap()@.len() == RAM_BANK_SIZE
                    ==> r.unwrap().ram()@ == save_data.unwrap()@.subrange(0, RAM_BANK_SIZE as int)
            }
            &&& (t == 0x13 || t == 0x1B) ==> {
                let size = ram_size_of(ram_code(program@)) as int;
                let m = r.unwrap()->Mbc3_0;
                &&& m.ram@.len() == size
                &&& save_data.is_some() && save_data.unwrap()@.len() == size + RTC_FOOTER_SIZE ==> {
                    let data = save_data.unwrap()@;
                    &&& m.ram@ == data.subrange(0, size)
                    &&& m.latched@ == data.subrange(size + 8, size + 13)
                    &&& m.rtc_seconds == advanced(le_value(data.subrange(size, size + 8)),
                        le_value(data.subrange(size + 13, size + 21)), now)
                }
            }
        }),
{
    if program.len() <= CARTRIDGE_TYPE_ADDRESS {
        return Err(MbcError::MissingHeader);
    }
    let mbc_type = program[CARTRIDGE_TYPE_ADDRESS];
    // an image too short for the RAM-size byte has no cartridge RAM
    let code: u8 = if program.len() > RAM_SIZE_ADDRESS { program[RAM_SIZE_ADDRESS] } else { 0 };
    let size = ram_size(code);
    if mbc_type == 0 || mbc_type == 8 || mbc_type == 9 {
        let battery = mbc_type == 9;
        let ram = if mbc_type == 0 {
            Vec::new()
        } else if battery {
            ram_from_save(RAM_BANK_SIZE, &save_data, 0)
        } else {
            vec![0u8; RAM_BANK_SIZE]
        };
        Ok(Mbc::Rom(Rom { program, ram, battery }))
    } else if mbc_type == 1 || mbc_type == 2 || mbc_type == 3 {
        let battery = mbc_type == 3;
        let ram = if battery { ram_from_save(size, &save_data, 0) } else { vec![0u8; size] };
        Ok(Mbc::Mbc1(Mbc1 { program, ram, battery, ram_enabled: false, rom_bank_lo5: 1, bank_hi2: 0, ram_mode: false }))
    } else if mbc_type == 0x11 || mbc_type == 0x12 || mbc_type == 0x13 || mbc_type == 0x1B {
        let battery = mbc_type == 0x13 || mbc_type == 0x1B;
        let mut mbc = Mbc3 {
            program,
            ram: vec![0u8; size],
            battery,
            ram_enabled: false,
            rom_bank: 1,
            ram_rtc_select: 0,
            rtc_seconds: 0,
            latched: [0u8; 5],
            last_latch_write: 0xFF,
        };
        if battery {
            load_mbc3_save(&mut mbc, &save_data, now);
        }
        Ok(Mbc::Mbc3(mbc))
    } else {
        Err(MbcError::UnsupportedCartridge(mbc_type))
    }
}

/// The clock after a power-off of `now - saved` seconds (none if the clock
/// would run backwards).
pub open spec fn advanced(seconds: u64, saved: u64, now: u64) -> u64 {
    if now >= saved && seconds + (now - saved) <= u64::MAX { (seconds + (now - saved)) as u64 } else { seconds }
}

/// Restores RAM, clock and latched registers from an MBC3 save blob
/// (`ram || rtc seconds || latched registers || time of saving`) and moves
/// the clock on by the time since the save. A blob of another size leaves
/// RAM zeroed and the clock at 0.
pub fn load_mbc3_save(mbc: &mut Mbc3, save: &Option<Vec<u8>>, now: u64)
    ensures
        final(mbc).program == old(mbc).program,
        final(mbc).battery == old(mbc).battery,
        final(mbc).ram@.len() == old(mbc).ram@.len(),
        final(mbc).rom_bank == old(mbc).rom_bank,
        final(mbc).ram_rtc_select == old(mbc).ram_rtc_select,
        final(mbc).ram_enabled == old(mbc).ram_enabled,
        final(mbc).last_latch_write == old(mbc).last_latch_write,
        ({
            let size = old(mbc).ram@.len() as int;
            match *save {
                Some(data) => if data@.len() == size + RTC_FOOTER_SIZE {
                    let seconds = le_value(data@.subrange(size, size + 8));
                    let saved = le_value(data@.subrange(size + 13, size + 21));
                    &&& final(mbc).ram@ == data@.subrange(0, size as int)
                    &&& final(mbc).rtc_seconds == advanced(seconds, saved, now)
                    &&& final(mbc).latched@ == data@.subrange(size + 8, size + 13)
                } else {
                    &&& forall|i: int| 0 <= i < size ==> final(mbc).ram@[i] == 0
                    &&& final(mbc).rtc_seconds == old(mbc).rtc_seconds
                },
                None => {
                    &&& forall|i: int| 0 <= i < size ==> final(mbc).ram@[i] == 0
                    &&& final(mbc).rtc_seconds == old(mbc).rtc_seconds
                },
            }
        }),
{
    let size = mbc.ram.len();
    mbc.ram = ram_from_save(size, save, RTC_FOOTER_SIZE);
    match save {
        Some(data) => {
            let n = data.len();
            if n >= size && n - size == RTC_FOOTER_SIZE {
                let seconds = read_le(data, size);
                let mut i: usize = 0;
                while i < 5
                    invariant
                        i <= 5,
                        data@.len() == size + RTC_FOOTER_SIZE,
                        n == data@.len(),
                        forall|k: int| 0 <= k < i ==> mbc.latched@[k] == data@[size + 8 + k],
                        mbc.ram@ == data@.subrange(0, size as int),
                        mbc.program == old(mbc).program,
                        mbc.battery == old(mbc).battery,
                        mbc.rom_bank == old(mbc).rom_bank,
                        mbc.ram_rtc_select == old(mbc).ram_rtc_select,
                        mbc.ram_enabled == old(mbc).ram_enabled,
                        mbc.last_latch_write == old(mbc).last_latch_write,
                    decreases 5 - i,
                {
                    mbc.latched[i] = data[size + 8 + i];
                    i = i + 1;
                }
                assert(mbc.latched@ =~= data@.subrange(size + 8, size + 13));
                let saved = read_le(data, size + 13);
                mbc.rtc_seconds = if now >= saved && seconds <= u64::MAX - (now - saved) {
                    seconds + (now - saved)
                } else {
                    seconds
                };
            }
        },
        None => {},
    }
}

impl Mbc {
    pub open spec fn program(&self) -> Vec<u8> {
        match self {
            Mbc::Rom(m) => m.program,
            Mbc::Mbc1(m) => m.program,
            Mbc::Mbc3(m) => m.program,
        }
    }

    pub open spec fn ram(&self) -> Vec<u8> {
        match self {
            Mbc::Rom(m) => m.ram,
            Mbc::Mbc1(m) => m.ram,
            Mbc::Mbc3(m) => m.ram,
        }
    }

    /// The ROM bank mapped at 0x4000-0x7FFF.
    pub open spec fn rom_bank(&self) -> int {
        match self {
            Mbc::Rom(_) => 1,
            Mbc::Mbc1(m) => mbc1_bank(m.rom_bank_lo5, m.bank_hi2, m.ram_mode),
            Mbc::Mbc3(m) => if m.rom_bank % 128 == 0 { 1 } else { (m.rom_bank % 128) as int },
        }
    }

    /// A read of 0x0000-0x7FFF.
    pub fn read_rom(&self, address: u16) -> (r: u8)
        requires
            address < 0x8000,
        ensures
            address < 0x4000 ==> r == rom_at(self.program()@, address as int),
            address >= 0x4000 ==> r == rom_at(self.program()@, self.rom_bank() * 0x4000 + (address - 0x4000)),
    {
        if address < 0x4000 {
            return read_rom(self.get_program(), address as usize);
        }
        let bank = self.current_rom_bank();
        let offset = (address - 0x4000) as usize;
        if bank >= (usize::MAX - offset) / ROM_BANK_SIZE {
            return 0xFF;
        }
        read_rom(self.get_program(), bank * ROM_BANK_SIZE + offset)
    }

    fn get_program(&self) -> (p: &Vec<u8>)
        ensures
            *p == self.program(),
    {
        match self {
            Mbc::Rom(m) => &m.program,
            Mbc::Mbc1(m) => &m.program,
            Mbc::Mbc3(m) => &m.program,
        }
    }

    pub fn current_rom_bank(&self) -> (b: usize)
        ensures
            b == self.rom_bank(),
            b < 128,
    {
        match self {
            Mbc::Rom(_) => 1,
            Mbc::Mbc1(m) => get_mbc1_bank(m.rom_bank_lo5, m.bank_hi2, m.ram_mode),
            Mbc::Mbc3(m) => if m.rom_bank % 128 == 0 { 1 } else { (m.rom_bank % 128) as usize },
        }
    }

    /// The controller registers after a write of `value` to `address`
    /// (0x0000-0x7FFF): RAM enable, ROM bank, RAM bank (or MBC1 upper bank
    /// bits), and MBC1's mode or MBC3's clock latch.
    pub open spec fn rom_write_effect(&self, after: Mbc, address: u16, value: u8) -> bool {
        match *self {
            Mbc::Rom(_) => after == *self,
            Mbc::Mbc1(m) => after == Mbc::Mbc1(
                if address < 0x2000 {
                    Mbc1 { ram_enabled: value % 16 == 0x0A, ..m }
                } else if address < 0x4000 {
                    Mbc1 { rom_bank_lo5: value % 32, ..m }
                } else if address < 0x6000 {
                    Mbc1 { bank_hi2: value % 4, ..m }
                } else {
                    Mbc1 { ram_mode: value % 2 == 1, ..m }
                },
            ),
            Mbc::Mbc3(m) => match after {
                Mbc::Mbc3(n) => {
                    &&& n.program == m.program && n.ram == m.ram && n.battery == m.battery
                    &&& n.rtc_seconds == m.rtc_seconds
                    &&& n.ram_enabled == if address < 0x2000 { value % 16 == 0x0A } else { m.ram_enabled }
                    &&& n.rom_bank == if 0x2000 <= address < 0x4000 { value % 128 } else { m.rom_bank }
                    &&& n.ram_rtc_select == if 0x4000 <= address < 0x6000 { value } else { m.ram_rtc_select }
                    &&& n.last_latch_write == if address >= 0x6000 { value } else { m.last_latch_write }
                    &&& if address >= 0x6000 && m.last_latch_write == 0 && value == 1 {
                        n.latched@ == rtc_registers(m.rtc_seconds)
                    } else {
                        n.latched == m.latched
                    }
                },
                _ => false,
            },
        }
    }

    /// A write to 0x0000-0x7FFF: the controller's registers.
    pub fn write_rom(&mut self, address: u16, value: u8)
        requires
            address < 0x8000,
        ensures
            old(self).rom_write_effect(*final(self), address, value),
            final(self).program() == old(self).program(),
            final(self).ram() == old(self).ram(),
            *old(self) is Mbc1 && 0x2000 <= address < 0x4000 ==> final(self).rom_bank() == mbc1_bank(
                value, (*old(self))->Mbc1_0.bank_hi2, (*old(self))->Mbc1_0.ram_mode),
            *old(self) is Mbc3 && 0x2000 <= address < 0x4000 ==> final(self).rom_bank() == if value % 128 == 0 { 1 } else {
                (value % 128) as int
            },
    {
        match self {
            Mbc::Rom(_) => {},
            Mbc::Mbc1(m) => {
                if address < 0x2000 {
                    m.ram_enabled = value % 16 == 0x0A;
                } else if address < 0x4000 {
                    m.rom_bank_lo5 = value % 32;
                } else if address < 0x6000 {
                    m.bank_hi2 = value % 4;
                } else {
                    m.ram_mode = value % 2 == 1;
                }
            },
            Mbc::Mbc3(m) => {
                if address < 0x2000 {
                    m.ram_enabled = value % 16 == 0x0A;
                } else if address < 0x4000 {
                    m.rom_bank = value % 128;
                } else if address < 0x6000 {
                    m.ram_rtc_select = value;
                } else {
                    if m.last_latch_write == 0 && value == 1 {
                        m.latch();
                    }
                    m.last_latch_write = value;
                }
            },
        }
    }

    /// What a read of `offset` into 0xA000-0xBFFF finds: RAM of the selected
    /// bank while enabled, a latched RTC register on MBC3, else 0xFF.
    pub open spec fn external_ram_value(&self, offset: int) -> u8 {
        let ram_at = |i: int| if 0 <= i < self.ram()@.len() { self.ram()@[i] } else { 0xFFu8 };
        match self {
            Mbc::Rom(m) => ram_at(offset),
            Mbc::Mbc1(m) => if m.ram_enabled {
                ram_at((if m.ram_mode { (m.bank_hi2 % 4) as int } else { 0 }) * RAM_BANK_SIZE + offset)
            } else {
                0xFF
            },
            Mbc::Mbc3(m) => if !m.ram_enabled {
                0xFF
            } else if m.ram_rtc_select < 4 {
                ram_at(m.ram_rtc_select * RAM_BANK_SIZE + offset)
            } else if 8 <= m.ram_rtc_select <= 0x0C {
                m.latched@[m.ram_rtc_select - 8]
            } else {
                0xFF
            },
        }
    }

    /// A read of 0xA000-0xBFFF (cartridge RAM or an RTC register); 0xFF
    /// where nothing answers.
    pub fn read_external_ram(&self, address: u16) -> (r: u8)
        requires
            0xA000 <= address < 0xC000,
        ensures
            r == self.external_ram_value(address - 0xA000),
    {
        let offset = (address - 0xA000) as usize;
        match self {
            Mbc::Rom(m) => if offset < m.ram.len() { m.ram[offset] } else { 0xFF },
            Mbc::Mbc1(m) => {
                let bank: usize = if m.ram_mode { (m.bank_hi2 % 4) as usize } else { 0 };
                let i = bank * RAM_BANK_SIZE + offset;
                if m.ram_enabled && i < m.ram.len() { m.ram[i] } else { 0xFF }
            },
            Mbc::Mbc3(m) => {
                if !m.ram_enabled {
                    0xFF
                } else if m.ram_rtc_select < 4 {
                    let i = m.ram_rtc_select as usize * RAM_BANK_SIZE + offset;
                    if i < m.ram.len() { m.ram[i] } else { 0xFF }
                } else if 8 <= m.ram_rtc_select && m.ram_rtc_select <= 0x0C {
                    m.latched[(m.ram_rtc_select - 8) as usize]
                } else {
                    0xFF
                }
            },
        }
    }

    /// A write to 0xA000-0xBFFF.
    pub fn write_external_ram(&mut self, address: u16, value: u8)
        requires
            0xA000 <= address < 0xC000,
        ensures
            final(self).program() == old(self).program(),
            final(self).ram()@.len() == old(self).ram()@.len(),
    {
        let offset = (address - 0xA000) as usize;
        match self {
            Mbc::Rom(m) => if offset < m.ram.len() {
                m.ram.set(offset, value);
            },
            Mbc::Mbc1(m) => {
                let bank: usize = if m.ram_mode { (m.bank_hi2 % 4) as usize } else { 0 };
                let i = bank * RAM_BANK_SIZE + offset;
                if m.ram_enabled && i < m.ram.len() {
                    m.ram.set(i, value);
                }
            },
            Mbc::Mbc3(m) => {
                if m.ram_enabled && m.ram_rtc_select < 4 {
                    let i = m.ram_rtc_select as usize * RAM_BANK_SIZE + offset;
                    if i < m.ram.len() {
                        m.ram.set(i, value);
                    }
                }
            },
        }
    }

    pub fn is_cgb_mode(&self) -> (r: bool)
        ensures
            r == (rom_at(self.program()@, CGB_FLAG_ADDRESS as int) == 0x80
                || rom_at(self.program()@, CGB_FLAG_ADDRESS as int) == 0xC0),
    {
        let flag = read_rom(self.get_program(), CGB_FLAG_ADDRESS);
        flag == 0x80 || flag == 0xC0
    }

    /// The save blob to persist at teardown: the RAM, and for MBC3 the clock
    /// and the time `now`; empty for a cartridge without battery.
    pub fn get_save(&self, now: u64) -> (s: Vec<u8>)
        ensures
            self is Mbc3 && self->Mbc3_0.battery ==> s@ == self.ram()@ + le_bytes(self->Mbc3_0.rtc_seconds)
                + self->Mbc3_0.latched@ + le_bytes(now),
            !(self is Mbc3) && self.battery() ==> s@ == self.ram()@,
            !self.battery() ==> s@.len() == 0,
    {
        if !self.has_battery() {
            return Vec::new();
        }
        let ram = self.get_ram();
        let mut s: Vec<u8> = Vec::new();
        let mut i: usize = 0;
        while i < ram.len()
            invariant
                i <= ram@.len(),
                s@ == ram@.subrange(0, i as int),
            decreases ram@.len() - i,
        {
            s.push(ram[i]);
            i = i + 1;
            assert(s@ =~= ram@.subrange(0, i as int));
        }
        assert(s@ =~= ram@);
        match self {
            Mbc::Mbc3(m) => {
                push_le(&mut s, m.rtc_seconds);
                let ghost before = s@;
                let mut k: usize = 0;
                while k < 5
                    invariant
                        k <= 5,
                        s@ == before + m.latched@.subrange(0, k as int),
                    decreases 5 - k,
                {
                    s.push(m.latched[k]);
                    k = k + 1;
                    assert(s@ =~= before + m.latched@.subrange(0, k as int));
                }
                assert(m.latched@.subrange(0, 5) =~= m.latched@);
                push_le(&mut s, now);
            },
            _ => {},
        }
        s
    }

    pub open spec fn battery(&self) -> bool {
        match self {
            Mbc::Rom(m) => m.battery,
            Mbc::Mbc1(m) => m.battery,
            Mbc::Mbc3(m) => m.battery,
        }
    }

    fn has_battery(&self) -> (b: bool)
        ensures
            b == self.battery(),
    {
        match self {
            Mbc::Rom(m) => m.battery,
            Mbc::Mbc1(m) => m.battery,
            Mbc::Mbc3(m) => m.battery,
        }
    }

    fn get_ram(&self) -> (r: &Vec<u8>)
        ensures
            *r == self.ram(),
    {
        match self {
            Mbc::Rom(m) => &m.ram,
            Mbc::Mbc1(m) => &m.ram,
            Mbc::Mbc3(m) => &m.ram,
        }
    }
}

/// A save blob written by `Mbc::get_save` at time `then` holds, where
/// `load_mbc3_save` reads them, the same RAM, clock and latched registers;
/// loaded at `now`, the clock has moved on by `now - then`.
pub proof fn lemma_mbc3_save_round_trip(ram: Seq<u8>, rtc_seconds: u64, latched: Seq<u8>, then: u64, now: u64)
    requires
        latched.len() == 5,
    ensures
        ({
            let blob = ram + le_bytes(rtc_seconds) + latched + le_bytes(then);
            let size = ram.len() as int;
            &&& blob.len() == size + RTC_FOOTER_SIZE
            &&& blob.subrange(0, size) == ram
            &&& blob.subrange(size + 8, size + 13) == latched
            &&& advanced(le_value(blob.subrange(size, size + 8)), le_value(blob.subrange(size + 13, size + 21)), now)
                == advanced(rtc_seconds, then, now)
        }),
{
    let blob = ram + le_bytes(rtc_seconds) + latched + le_bytes(then);
    let size = ram.len() as int;
    assert(blob.subrange(0, size) =~= ram);
    assert(blob.subrange(size, size + 8) =~= le_bytes(rtc_seconds));
    assert(blob.subrange(size + 8, size + 13) =~= latched);
    assert(blob.subrange(size + 13, size + 21) =~= le_bytes(then));
    lemma_le_round_trip(rtc_seconds);
    lemma_le_round_trip(then);
}

/// MBC1: a write of 0x00, 0x20, 0x40 or 0x60 to the low bank register
/// (whose five bits are then 0) maps the bank after the one named, 0x01,
/// 0x21, 0x41 or 0x61, in ROM banking mode.
pub proof fn lemma_mbc1_bank_zero_quirk(value: u8, hi2: u8)
    requires
        value % 32 == 0,
        hi2 < 4,
    ensures
        mbc1_bank(value, hi2, false) == hi2 * 32 + 1,
        mbc1_bank(value, hi2, false) != hi2 * 32,
{
}

} // verus!
