use vstd::prelude::*;
use super::attributes::bit_set;
use super::color::{get_matching_color, shade, Color};
use super::gb_ppu::{GbPpu, PpuState, SCREEN_PIXELS};

verus! {

pub const WX_OFFSET: u8 = 7;

/// The two-bit color number that entry `i` of a DMG palette register maps to.
pub open spec fn palette_entry(register: u8, i: u8) -> u8 {
    (register >> (2 * i)) & 3u8
}

/// LCDC (0xFF40); clearing bit 7 turns the LCD off, setting it turns it on.
pub fn handle_lcdcontrol_register(register: u8, ppu: &mut GbPpu)
    requires
        old(ppu).wf(),
    ensures
        final(ppu).wf(),
        final(ppu).lcd_control == register,
        final(ppu).cgb_mode == old(ppu).cgb_mode,
        bit_set(old(ppu).lcd_control, 7) && !bit_set(register, 7) ==> final(ppu).state == PpuState::Hblank
            && (forall|i: int| 0 <= i < SCREEN_PIXELS ==> #[trigger] final(ppu).screen_buffers@[
                old(ppu).current_screen_buffer_index * SCREEN_PIXELS + i] == 0xFFFF_FFFFu32),
        bit_set(old(ppu).lcd_control, 7) && !bit_set(register, 7) ==> final(ppu).ly_register == 0
            && final(ppu).frames_completed == (old(ppu).frames_completed + 1) % 0x1_0000_0000_0000_0000,
        !bit_set(old(ppu).lcd_control, 7) && bit_set(register, 7) ==> final(ppu).state == PpuState::OamSearch,
        !bit_set(old(ppu).lcd_control, 7) && bit_set(register, 7) ==> final(ppu).frame_pos() == 0
            && final(ppu).frames_completed == old(ppu).frames_completed,
        bit_set(old(ppu).lcd_control, 7) == bit_set(register, 7) ==> final(ppu).state == old(ppu).state
            && final(ppu).ly_register == old(ppu).ly_register && final(ppu).m_cycles_passed == old(ppu).m_cycles_passed,
        bit_set(old(ppu).lcd_control, 7) == bit_set(register, 7) ==> final(ppu).frame_pos() == old(ppu).frame_pos()
            && final(ppu).frames_completed == old(ppu).frames_completed,
{
    let was_on = ppu.lcd_control & 0x80 != 0;
    let on = register & 0x80 != 0;
    proof {
        let l = old(ppu).lcd_control;
        assert((l & 0x80 != 0) == (l & (1u8 << 7u8) != 0)) by (bit_vector);
        assert((register & 0x80 != 0) == (register & (1u8 << 7u8) != 0)) by (bit_vector);
    }
    if was_on && !on {
        ppu.turn_off();
    } else if !was_on && on {
        ppu.turn_on();
    }
    ppu.lcd_control = register;
}

/// STAT (0xFF41): bits 3-6 select the STAT interrupt sources; bits 0-2 are
/// read-only.
pub fn update_stat_register(register: u8, ppu: &mut GbPpu)
    requires
        old(ppu).wf(),
    ensures
        final(ppu).wf(),
        final(ppu).h_blank_interrupt_request == bit_set(register, 3),
        final(ppu).v_blank_interrupt_request == bit_set(register, 4),
        final(ppu).oam_search_interrupt_request == bit_set(register, 5),
        final(ppu).coincidence_interrupt_request == bit_set(register, 6),
        final(ppu).stat_register == (old(ppu).stat_register & 0x87) | (register & 0x78),
        final(ppu).lcd_control == old(ppu).lcd_control,
        final(ppu).frame_pos() == old(ppu).frame_pos(),
{
    ppu.h_blank_interrupt_request = super::attributes::is_bit_set(register, 3);
    ppu.v_blank_interrupt_request = super::attributes::is_bit_set(register, 4);
    ppu.oam_search_interrupt_request = super::attributes::is_bit_set(register, 5);
    ppu.coincidence_interrupt_request = super::attributes::is_bit_set(register, 6);
    ppu.stat_register = (ppu.stat_register & 0x87) | (register & 0x78);
}

pub fn set_scx(ppu: &mut GbPpu, value: u8)
    requires
        old(ppu).wf(),
    ensures
        final(ppu).wf(),
        *final(ppu) == (GbPpu { bg_pos: crate::vec2::Vec2 { x: value, y: old(ppu).bg_pos.y }, ..*old(ppu) }),
{
    ppu.bg_pos.x = value;
}

pub fn set_scy(ppu: &mut GbPpu, value: u8)
    requires
        old(ppu).wf(),
    ensures
        final(ppu).wf(),
        *final(ppu) == (GbPpu { bg_pos: crate::vec2::Vec2 { x: old(ppu).bg_pos.x, y: value }, ..*old(ppu) }),
{
    ppu.bg_pos.y = value;
}

/// BGP (0xFF47): four two-bit color numbers, entry 0 in the low bits.
pub fn handle_bg_pallet_register(register: u8, pallet: &mut [Color; 4], palette_register: &mut u8)
    ensures
        forall|i: int| 0 <= i < 4 ==> #[trigger] final(pallet)[i] == shade(palette_entry(register, i as u8)),
        *final(palette_register) == register,
{
    pallet[0] = get_matching_color(register & 3);
    pallet[1] = get_matching_color((register >> 2) & 3);
    pallet[2] = get_matching_color((register >> 4) & 3);
    pallet[3] = get_matching_color((register >> 6) & 3);
    *palette_register = register;
    assert(palette_entry(register, 0) == register & 3) by (bit_vector);
}

/// OBP0/OBP1 (0xFF48/0xFF49): like BGP, but color number 0 is transparent.
pub fn handle_obp_pallet_register(register: u8, pallet: &mut [Option<Color>; 4], palette_register: &mut u8)
    ensures
        final(pallet)[0] == None::<Color>,
        forall|i: int| 1 <= i < 4 ==> #[trigger] final(pallet)[i] == Some(shade(palette_entry(register, i as u8))),
        *final(palette_register) == register,
{
    pallet[0] = None;
    pallet[1] = Some(get_matching_color((register >> 2) & 3));
    pallet[2] = Some(get_matching_color((register >> 4) & 3));
    pallet[3] = Some(get_matching_color((register >> 6) & 3));
    *palette_register = register;
}

pub fn handle_wy_register(register: u8, ppu: &mut GbPpu)
    requires
        old(ppu).wf(),
    ensures
        final(ppu).wf(),
        *final(ppu) == (GbPpu { window_pos: crate::vec2::Vec2 { x: old(ppu).window_pos.x, y: register }, ..*old(ppu) }),
{
    ppu.window_pos.y = register;
}

/// WX (0xFF4B) holds the window's left edge plus 7.
pub fn handle_wx_register(register: u8, ppu: &mut GbPpu)
    requires
        old(ppu).wf(),
    ensures
        final(ppu).wf(),
        *final(ppu) == (GbPpu {
            window_pos: crate::vec2::Vec2 {
                x: if register < WX_OFFSET { 0 } else { (register - WX_OFFSET) as u8 },
                y: old(ppu).window_pos.y,
            },
            ..*old(ppu)
        }),
{
    if register < WX_OFFSET {
        ppu.window_pos.x = 0;
    } else {
        ppu.window_pos.x = register - WX_OFFSET;
    }
}

/// WX as read back; values 0-6 written earlier read as 7.
pub fn get_wx_register(ppu: &GbPpu) -> (r: u8)
    ensures
        r == (ppu.window_pos.x + WX_OFFSET) % 256,
{
    ppu.window_pos.x.wrapping_add(WX_OFFSET)
}

pub fn get_ly(ppu: &GbPpu) -> (r: u8)
    ensures
        r == ppu.ly_register,
{
    ppu.ly_register
}

pub fn get_stat(ppu: &GbPpu) -> (r: u8)
    ensures
        r == ppu.stat_register,
{
    ppu.stat_register
}

pub fn set_lyc(ppu: &mut GbPpu, value: u8)
    requires
        old(ppu).wf(),
    ensures
        final(ppu).wf(),
        *final(ppu) == (GbPpu { lyc_register: value, ..*old(ppu) }),
{
    ppu.lyc_register = value;
}

} // verus!
