use vstd::prelude::*;
use super::gb_cpu::GbCpu;

verus! {

/// Carry out of bit 11 when adding two 16-bit values.
pub fn check_for_half_carry_third_nible(a: u16, b: u16) -> (r: bool)
    ensures
        r == (a % 4096 + b % 4096 >= 4096),
{
    a % 4096 + b % 4096 >= 4096
}

/// Carry out of bit 3 when adding two bytes.
pub fn check_for_half_carry_first_nible_add(a: u8, b: u8) -> (r: bool)
    ensures
        r == (a % 16 + b % 16 >= 16),
{
    a % 16 + b % 16 >= 16
}

/// Borrow into bit 3 when subtracting `b` from `a`.
pub fn check_for_half_carry_first_nible_sub(a: u8, b: u8) -> (r: bool)
    ensures
        r == (a % 16 < b % 16),
{
    a % 16 < b % 16
}

/// The second byte of a CB-prefixed opcode.
pub fn get_cb_opcode(cb_opcode: u16) -> (r: u8)
    ensures
        r == cb_opcode % 256,
{
    (cb_opcode % 256) as u8
}

/// The register that bits 0-2 of `opcode` name (B, C, D, E, H, L, -, A);
/// code 6, the byte at HL, is read by the caller.
pub fn get_src_register(cpu: &GbCpu, opcode: u8) -> (r: u8)
    requires
        opcode % 8 != 6,
    ensures
        r == cpu.reg8(opcode % 8),
{
    cpu.get_register(opcode % 8)
}

/// The register that bits 3-5 of `opcode` name.
pub fn get_reg_two_rows(cpu: &GbCpu, reg: u8) -> (r: u8)
    requires
        (reg / 8) % 8 != 6,
    ensures
        r == cpu.reg8((reg / 8) % 8),
{
    cpu.get_register((reg / 8) % 8)
}

/// The 16-bit register that code `reg` names: BC, DE, HL, SP.
pub fn get_arithmetic_16reg(cpu: &GbCpu, reg: u8) -> (r: u16)
    ensures
        r == cpu.reg16_sp(reg % 4),
{
    cpu.get_register16_sp(reg % 4)
}

/// LD r, r'.
pub fn ld_r_r(cpu: &mut GbCpu, dest: u8, src: u8)
    requires
        dest < 8 && dest != 6,
        src < 8 && src != 6,
        old(cpu).wf(),
    ensures
        final(cpu).wf(),
        final(cpu).reg8(dest) == old(cpu).reg8(src),
        forall|i: u8| i < 8 && i != dest ==> final(cpu).reg8(i) == old(cpu).reg8(i),
{
    let value = cpu.get_register(src);
    cpu.set_register(dest, value);
}

/// LD r, n.
pub fn ld_r_n(cpu: &mut GbCpu, dest: u8, src: u8)
    requires
        dest < 8 && dest != 6,
        old(cpu).wf(),
    ensures
        final(cpu).wf(),
        final(cpu).reg8(dest) == src,
        forall|i: u8| i < 8 && i != dest ==> final(cpu).reg8(i) == old(cpu).reg8(i),
{
    cpu.set_register(dest, src);
}

} // verus!
