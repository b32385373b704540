use vstd::prelude::*;
use crate::mmu::gb_mmu::GbMmu;
use crate::mmu::interrupts_handler::{vector_of, InterruptRequest};
use super::opcodes_utils::{check_for_half_carry_first_nible_add, check_for_half_carry_first_nible_sub, check_for_half_carry_third_nible};

verus! {

pub const ZERO_FLAG: u8 = 0x80;
pub const SUBTRACT_FLAG: u8 = 0x40;
pub const HALF_CARRY_FLAG: u8 = 0x20;
pub const CARRY_FLAG: u8 = 0x10;

/// F from the four flags (low nibble always 0).
pub open spec fn flags_of(z: bool, n: bool, h: bool, c: bool) -> u8 {
    ((if z { 128int } else { 0 }) + (if n { 64int } else { 0 }) + (if h { 32int } else { 0 }) + (if c { 16int } else { 0 })) as u8
}

pub fn make_flags(z: bool, n: bool, h: bool, c: bool) -> (f: u8)
    ensures
        f == flags_of(z, n, h, c),
        f % 16 == 0,
{
    (if z { 128u8 } else { 0 }) + (if n { 64u8 } else { 0 }) + (if h { 32u8 } else { 0 }) + (if c { 16u8 } else { 0 })
}

/// The eight-bit ALU: ADD, ADC, SUB, SBC, AND, XOR, OR, CP (codes 0-7) of
/// `a` and `v`; the result for A and the new F.
pub open spec fn alu_spec(op: u8, a: u8, v: u8, carry: bool) -> (u8, u8) {
    let c: int = if carry { 1 } else { 0 };
    if op == 0 {
        let s = a + v;
        ((s % 256) as u8, flags_of(s % 256 == 0, false, a % 16 + v % 16 >= 16, s >= 256))
    } else if op == 1 {
        let s = a + v + c;
        ((s % 256) as u8, flags_of(s % 256 == 0, false, a % 16 + v % 16 + c >= 16, s >= 256))
    } else if op == 2 {
        let d = (a + 256 - v) % 256;
        (d as u8, flags_of(d == 0, true, a % 16 < v % 16, a < v))
    } else if op == 3 {
        let d = (a + 512 - v - c) % 256;
        (d as u8, flags_of(d == 0, true, a % 16 < v % 16 + c, a < v + c))
    } else if op == 4 {
        (a & v, flags_of(a & v == 0, false, true, false))
    } else if op == 5 {
        (a ^ v, flags_of(a ^ v == 0, false, false, false))
    } else if op == 6 {
        (a | v, flags_of(a | v == 0, false, false, false))
    } else {
        (a, flags_of(a == v, true, a % 16 < v % 16, a < v))
    }
}

pub fn alu(op: u8, a: u8, v: u8, carry: bool) -> (r: (u8, u8))
    requires
        op < 8,
    ensures
        r == alu_spec(op, a, v, carry),
        r.1 % 16 == 0,
{
    let c: u16 = if carry { 1 } else { 0 };
    if op == 0 {
        let s: u16 = a as u16 + v as u16;
        ((s % 256) as u8, make_flags(s % 256 == 0, false, check_for_half_carry_first_nible_add(a, v), s >= 256))
    } else if op == 1 {
        let s: u16 = a as u16 + v as u16 + c;
        ((s % 256) as u8, make_flags(s % 256 == 0, false, (a % 16) as u16 + (v % 16) as u16 + c >= 16, s >= 256))
    } else if op == 2 {
        let d: u16 = (a as u16 + 256 - v as u16) % 256;
        (d as u8, make_flags(d == 0, true, check_for_half_carry_first_nible_sub(a, v), a < v))
    } else if op == 3 {
        let d: u16 = (a as u16 + 512 - v as u16 - c) % 256;
        (d as u8, make_flags(d == 0, true, ((a % 16) as u16) < (v % 16) as u16 + c, (a as u16) < v as u16 + c))
    } else if op == 4 {
        (a & v, make_flags(a & v == 0, false, true, false))
    } else if op == 5 {
        (a ^ v, make_flags(a ^ v == 0, false, false, false))
    } else if op == 6 {
        (a | v, make_flags(a | v == 0, false, false, false))
    } else {
        (a, make_flags(a == v, true, check_for_half_carry_first_nible_sub(a, v), a < v))
    }
}

/// Opcodes that do not exist on the SM83.
pub open spec fn is_forbidden(opcode: u8) -> bool {
    opcode == 0xD3 || opcode == 0xDB || opcode == 0xDD || opcode == 0xE3 || opcode == 0xE4 || opcode == 0xEB
        || opcode == 0xEC || opcode == 0xED || opcode == 0xF4 || opcode == 0xFC || opcode == 0xFD
}

/// The memory handed to the CPU stays well formed and no time passes on it.
pub open spec fn mmu_kept(before: &GbMmu, after: &GbMmu) -> bool {
    &&& after.wf()
    &&& after.total_m_cycles == before.total_m_cycles
    &&& after.m_cycle_counter == before.m_cycle_counter
    &&& after.io_bus.joypad_buttons == before.io_bus.joypad_buttons
}

/// One instruction as `GbCpu::run_opcode` runs it, from CPU `c0` and memory
/// `m0` to `c1` and `m1`, with result `r`.
pub open spec fn opcode_step(c0: GbCpu, m0: GbMmu, c1: GbCpu, m1: GbMmu, r: Result<u8, u8>) -> bool {
    let op = m0.peek(c0.program_counter);
    let pc1 = c0.next_pc();
    let load = 0x40 <= op < 0x80 && op != 0x76 && op % 8 != 6 && (op / 8) % 8 != 6;
    &&& c1.wf()
    &&& mmu_kept(&m0, &m1)
    &&& r matches Ok(c) ==> 1 <= c <= 6
    &&& r is Err <==> is_forbidden(op)
    &&& r matches Err(e) ==> e == op && c1 == c0 && m1 == m0
    &&& op == 0x00 ==> r == Ok::<u8, u8>(1) && c1.program_counter == pc1 && c1.reg8(7) == c0.reg8(7) && c1.f == c0.f
    &&& load ==> {
        &&& r == Ok::<u8, u8>(1)
        &&& c1.program_counter == pc1
        &&& c1.reg8((op / 8) % 8) == c0.reg8(op % 8)
        &&& forall|k: u8| k < 8 && k != (op / 8) % 8 ==> c1.reg8(k) == c0.reg8(k)
    }
    &&& (0x80 <= op < 0xC0 && op % 8 != 6) ==> {
        &&& r == Ok::<u8, u8>(1)
        &&& c1.program_counter == pc1
        &&& (c1.a, c1.f) == alu_spec((op / 8) % 8, c0.a, c0.reg8(op % 8), c0.f & CARRY_FLAG != 0)
    }
    &&& (0xC0 <= op && op % 8 == 7) ==> {
        &&& r == Ok::<u8, u8>(4)
        &&& c1.program_counter == op - 0xC7
        &&& c1.stack_pointer == c0.stack_pointer.wrapping_sub(2)
    }
}

/// An interrupt request handled as `GbCpu::execute_interrupt_request`
/// handles it, taking `cycles` m-cycles.
pub open spec fn interrupt_served(c0: GbCpu, m0: GbMmu, c1: GbCpu, m1: GbMmu, request: InterruptRequest, cycles: u8) -> bool {
    &&& c1.wf()
    &&& mmu_kept(&m0, &m1)
    &&& request == InterruptRequest::NoRequest ==> cycles == 0 && c1 == c0
    &&& request == InterruptRequest::Unhalt ==> cycles == 0 && !c1.halt
    &&& match request {
        InterruptRequest::Interrupt(b) => {
            &&& cycles == 5
            &&& c1.program_counter == vector_of(b)
            &&& !c1.mie
            &&& !c1.halt
            &&& m1.io_bus.interrupt_handler.interrupt_flag & (1u8 << b) == 0
            &&& c1.stack_pointer == c0.stack_pointer.wrapping_sub(2)
        },
        _ => true,
    }
}

/// The SM83 register file and its execution state.
pub struct GbCpu {
    pub a: u8,
    pub f: u8,
    pub b: u8,
    pub c: u8,
    pub d: u8,
    pub e: u8,
    pub h: u8,
    pub l: u8,
    pub stack_pointer: u16,
    pub program_counter: u16,
    /// IME.
    pub mie: bool,
    /// EI was executed: IME turns on after the next instruction.
    pub ei_pending: bool,
    pub halt: bool,
    pub stop: bool,
    /// The HALT bug: the next opcode byte is read twice.
    pub halt_bug: bool,
}

impl GbCpu {
    pub open spec fn wf(&self) -> bool {
        self.f % 16 == 0
    }

    /// Register `i` in opcode order: B, C, D, E, H, L, (F for 6), A.
    pub open spec fn reg8(&self, i: u8) -> u8 {
        if i == 0 { self.b } else if i == 1 { self.c } else if i == 2 { self.d } else if i == 3 { self.e } else if i == 4 {
            self.h
        } else if i == 5 { self.l } else if i == 6 { self.f } else { self.a }
    }

    /// PC after fetching one byte: the HALT bug reads the same byte again.
    pub open spec fn next_pc(&self) -> u16 {
        if self.halt_bug { self.program_counter } else { self.program_counter.wrapping_add(1) }
    }

    pub open spec fn hl(&self) -> u16 {
        (self.h * 256 + self.l) as u16
    }

    /// BC, DE, HL, SP.
    pub open spec fn reg16_sp(&self, i: u8) -> u16 {
        if i == 0 { (self.b * 256 + self.c) as u16 } else if i == 1 { (self.d * 256 + self.e) as u16 } else if i == 2 {
            self.hl()
        } else { self.stack_pointer }
    }

    /// The state after the boot ROM, or at power-on with `boot_rom` set.
    pub fn new(boot_rom: bool) -> (c: Self)
        ensures
            c.wf(),
            boot_rom ==> c.program_counter == 0,
            !boot_rom ==> c.program_counter == 0x100 && c.stack_pointer == 0xFFFE && c.a == 0x01 && c.f == 0x90
                && c.b == 0x00 && c.c == 0x13 && c.d == 0x00 && c.e == 0xD8 && c.h == 0x01 && c.l == 0x4D,
            !c.halt && !c.mie,
    {
        if boot_rom {
            GbCpu { a: 0, f: 0, b: 0, c: 0, d: 0, e: 0, h: 0, l: 0, stack_pointer: 0, program_counter: 0, mie: false,
                ei_pending: false, halt: false, stop: false, halt_bug: false }
        } else {
            GbCpu { a: 0x01, f: 0x90, b: 0x00, c: 0x13, d: 0x00, e: 0xD8, h: 0x01, l: 0x4D, stack_pointer: 0xFFFE,
                program_counter: 0x100, mie: false, ei_pending: false, halt: false, stop: false, halt_bug: false }
        }
    }

    pub fn get_register(&self, i: u8) -> (r: u8)
        requires
            i < 8,
        ensures
            r == self.reg8(i),
    {
        if i == 0 { self.b } else if i == 1 { self.c } else if i == 2 { self.d } else if i == 3 { self.e } else if i == 4 {
            self.h
        } else if i == 5 { self.l } else if i == 6 { self.f } else { self.a }
    }

    pub fn set_register(&mut self, i: u8, value: u8)
        requires
            i < 8 && i != 6,
            old(self).wf(),
        ensures
            final(self).wf(),
            final(self).reg8(i) == value,
            forall|k: u8| k < 8 && k != i ==> final(self).reg8(k) == old(self).reg8(k),
            final(self).stack_pointer == old(self).stack_pointer,
            final(self).program_counter == old(self).program_counter,
            final(self).mie == old(self).mie,
            final(self).halt == old(self).halt,
    {
        if i == 0 { self.b = value } else if i == 1 { self.c = value } else if i == 2 { self.d = value } else if i == 3 {
            self.e = value
        } else if i == 4 { self.h = value } else if i == 5 { self.l = value } else { self.a = value }
    }

    pub fn get_register16_sp(&self, i: u8) -> (r: u16)
        requires
            i < 4,
        ensures
            r == self.reg16_sp(i),
    {
        if i == 0 { self.b as u16 * 256 + self.c as u16 } else if i == 1 { self.d as u16 * 256 + self.e as u16 } else if i == 2 {
            self.h as u16 * 256 + self.l as u16
        } else { self.stack_pointer }
    }

    pub fn set_register16_sp(&mut self, i: u8, value: u16)
        requires
            i < 4,
            old(self).wf(),
        ensures
            final(self).wf(),
            final(self).reg16_sp(i) == value,
            i != 3 ==> final(self).stack_pointer == old(self).stack_pointer,
            final(self).program_counter == old(self).program_counter,
            final(self).a == old(self).a,
            final(self).f == old(self).f,
    {
        let hi = (value / 256) as u8;
        let lo = (value % 256) as u8;
        if i == 0 { self.b = hi; self.c = lo; } else if i == 1 { self.d = hi; self.e = lo; } else if i == 2 {
            self.h = hi; self.l = lo;
        } else { self.stack_pointer = value; }
    }

    fn set_hl(&mut self, value: u16)
        requires
            old(self).wf(),
        ensures
            final(self).wf(),
            final(self).hl() == value,
            final(self).program_counter == old(self).program_counter,
            final(self).stack_pointer == old(self).stack_pointer,
            final(self).a == old(self).a,
    {
        self.set_register16_sp(2, value);
    }

    fn flag(&self, mask: u8) -> (r: bool)
        ensures
            r == (self.f & mask != 0),
    {
        self.f & mask != 0
    }

    fn fetch_next_byte(&mut self, mmu: &GbMmu) -> (b: u8)
        requires
            old(self).wf(),
            mmu.wf(),
        ensures
            final(self).wf(),
            b == mmu.peek(old(self).program_counter),
            final(self).program_counter == old(self).next_pc(),
            !final(self).halt_bug,
            *final(self) == (GbCpu { program_counter: final(self).program_counter, halt_bug: false, ..*old(self) }),
    {
        let b = mmu.read(self.program_counter);
        if self.halt_bug {
            self.halt_bug = false;
        } else {
            self.program_counter = self.program_counter.wrapping_add(1);
        }
        b
    }

    fn fetch_word(&mut self, mmu: &GbMmu) -> (w: u16)
        requires
            old(self).wf(),
            mmu.wf(),
        ensures
            final(self).wf(),
            final(self).stack_pointer == old(self).stack_pointer,
    {
        let lo = self.fetch_next_byte(mmu);
        let hi = self.fetch_next_byte(mmu);
        hi as u16 * 256 + lo as u16
    }

    fn push(&mut self, mmu: &mut GbMmu, value: u16)
        requires
            old(self).wf(),
            old(mmu).wf(),
        ensures
            final(self).wf(),
            mmu_kept(old(mmu), final(mmu)),
            final(self).stack_pointer == old(self).stack_pointer.wrapping_sub(2),
            final(self).program_counter == old(self).program_counter,
            final(self).a == old(self).a,
            final(self).f == old(self).f,
    {
        self.stack_pointer = self.stack_pointer.wrapping_sub(1);
        mmu.write(self.stack_pointer, (value / 256) as u8);
        self.stack_pointer = self.stack_pointer.wrapping_sub(1);
        mmu.write(self.stack_pointer, (value % 256) as u8);
    }

    fn pop(&mut self, mmu: &GbMmu) -> (v: u16)
        requires
            old(self).wf(),
            mmu.wf(),
        ensures
            final(self).wf(),
            final(self).stack_pointer == old(self).stack_pointer.wrapping_add(2),
            final(self).program_counter == old(self).program_counter,
    {
        let lo = mmu.read(self.stack_pointer);
        self.stack_pointer = self.stack_pointer.wrapping_add(1);
        let hi = mmu.read(self.stack_pointer);
        self.stack_pointer = self.stack_pointer.wrapping_add(1);
        hi as u16 * 256 + lo as u16
    }

    /// Operand `i` (B, C, D, E, H, L, (HL), A).
    fn read_operand(&self, mmu: &GbMmu, i: u8) -> (v: u8)
        requires
            i < 8,
            mmu.wf(),
        ensures
            i != 6 ==> v == self.reg8(i),
    {
        if i == 6 { mmu.read(self.get_register16_sp(2)) } else { self.get_register(i) }
    }

    fn write_operand(&mut self, mmu: &mut GbMmu, i: u8, value: u8)
        requires
            i < 8,
            old(self).wf(),
            old(mmu).wf(),
        ensures
            final(self).wf(),
            mmu_kept(old(mmu), final(mmu)),
            final(self).program_counter == old(self).program_counter,
            final(self).stack_pointer == old(self).stack_pointer,
            i != 6 ==> final(self).reg8(i) == value,
            i != 6 ==> forall|k: u8| k < 8 && k != i ==> final(self).reg8(k) == old(self).reg8(k),
            i == 6 ==> *final(self) == *old(self),
    {
        if i == 6 {
            let hl = self.get_register16_sp(2);
            mmu.write(hl, value);
        } else {
            self.set_register(i, value);
        }
    }

    /// Whether branch condition `cc` (NZ, Z, NC, C) holds.
    fn condition(&self, cc: u8) -> bool {
        if cc % 4 == 0 { !self.flag(ZERO_FLAG) } else if cc % 4 == 1 { self.flag(ZERO_FLAG) } else if cc % 4 == 2 {
            !self.flag(CARRY_FLAG)
        } else { self.flag(CARRY_FLAG) }
    }

    /// Services `request`: a pending interrupt costs 5 m-cycles, clears its
    /// IF bit, pushes PC, jumps to its vector and disables IME; any request
    /// ends a HALT.
    pub fn execute_interrupt_request(&mut self, mmu: &mut GbMmu, request: InterruptRequest) -> (cycles: u8)
        requires
            old(self).wf(),
            old(mmu).wf(),
            request matches InterruptRequest::Interrupt(b) ==> b < 5,
        ensures
            interrupt_served(*old(self), *old(mmu), *final(self), *final(mmu), request, cycles),
            final(self).wf(),
            mmu_kept(old(mmu), final(mmu)),
            request == InterruptRequest::NoRequest ==> cycles == 0 && *final(self) == *old(self),
            request == InterruptRequest::Unhalt ==> cycles == 0 && !final(self).halt,
            match request {
                InterruptRequest::Interrupt(b) => {
                    &&& cycles == 5
                    &&& final(self).program_counter == vector_of(b)
                    &&& !final(self).mie
                    &&& !final(self).halt
                    // the served request is cleared
                    &&& final(mmu).io_bus.interrupt_handler.interrupt_flag & (1u8 << b) == 0
                    &&& final(self).stack_pointer == old(self).stack_pointer.wrapping_sub(2)
                },
                _ => true,
            },
    {
        match request {
            InterruptRequest::NoRequest => 0,
            InterruptRequest::Unhalt => {
                self.halt = false;
                0
            },
            InterruptRequest::Interrupt(bit) => {
                let pc = self.program_counter;
                self.push(mmu, pc);
                self.halt = false;
                self.mie = false;
                self.ei_pending = false;
                let f = mmu.io_bus.interrupt_handler.interrupt_flag;
                assert((f & !(1u8 << bit)) & (1u8 << bit) == 0) by (bit_vector);
                mmu.io_bus.interrupt_handler.acknowledge(bit);
                self.program_counter = 0x40 + 8 * bit as u16;
                5
            },
        }
    }

    /// Runs one instruction and returns the m-cycles it took, or the opcode
    /// if it is one of the eleven that do not exist.
    pub fn run_opcode(&mut self, mmu: &mut GbMmu) -> (r: Result<u8, u8>)
        requires
            old(self).wf(),
            old(mmu).wf(),
        ensures
            final(self).wf(),
            mmu_kept(old(mmu), final(mmu)),
            opcode_step(*old(self), *old(mmu), *final(self), *final(mmu), r),
            r matches Ok(c) ==> 1 <= c <= 6,
            ({ let op = old(mmu).peek(old(self).program_counter); let pc1 = old(self).next_pc();
                r is Err <==> is_forbidden(op) }),
            ({ let op = old(mmu).peek(old(self).program_counter); let pc1 = old(self).next_pc();
                r matches Err(e) ==> e == op && *final(self) == *old(self) && *final(mmu) == *old(mmu) }),
            ({ let op = old(mmu).peek(old(self).program_counter); let pc1 = old(self).next_pc();
                op == 0x00 ==> r == Ok::<u8, u8>(1) && final(self).program_counter == pc1
                    && final(self).reg8(7) == old(self).reg8(7) && final(self).f == old(self).f }),
            ({ let op = old(mmu).peek(old(self).program_counter); let pc1 = old(self).next_pc();
                (0x40 <= op < 0x80 && op != 0x76 && op % 8 != 6 && (op / 8) % 8 != 6) ==> r == Ok::<u8, u8>(1) }),
            ({ let op = old(mmu).peek(old(self).program_counter); let pc1 = old(self).next_pc();
                (0x40 <= op < 0x80 && op != 0x76 && op % 8 != 6 && (op / 8) % 8 != 6) ==> final(self).program_counter == pc1 }),
            ({ let op = old(mmu).peek(old(self).program_counter);
                (0x40 <= op < 0x80 && op != 0x76 && op % 8 != 6 && (op / 8) % 8 != 6) ==> final(self).reg8((op / 8) % 8) == old(self).reg8(op % 8) }),
            ({ let op = old(mmu).peek(old(self).program_counter);
                (0x40 <= op < 0x80 && op != 0x76 && op % 8 != 6 && (op / 8) % 8 != 6) ==> forall|k: u8| k < 8 && k != (op / 8) % 8 ==> final(self).reg8(k) == old(self).reg8(k) }),
            ({ let op = old(mmu).peek(old(self).program_counter); let pc1 = old(self).next_pc();
                (0x80 <= op < 0xC0 && op % 8 != 6) ==> {
                    &&& r == Ok::<u8, u8>(1)
                    &&& final(self).program_counter == pc1
                    &&& (final(self).a, final(self).f) == alu_spec((op / 8) % 8, old(self).a, old(self).reg8(op % 8),
                        old(self).f & CARRY_FLAG != 0)
                } }),
            ({ let op = old(mmu).peek(old(self).program_counter); let pc1 = old(self).next_pc();
                (0xC0 <= op && op % 8 == 7) ==> {
                    &&& r == Ok::<u8, u8>(4)
                    &&& final(self).program_counter == op - 0xC7
                    &&& final(self).stack_pointer == old(self).stack_pointer.wrapping_sub(2)
                } }),
    {
        let peeked = mmu.read(self.program_counter);
        if peeked == 0xD3 || peeked == 0xDB || peeked == 0xDD || peeked == 0xE3 || peeked == 0xE4 || peeked == 0xEB
            || peeked == 0xEC || peeked == 0xED || peeked == 0xF4 || peeked == 0xFC || peeked == 0xFD {
            return Err(peeked);
        }
        let enable_after = self.ei_pending;
        self.ei_pending = false;
        let opcode = self.fetch_next_byte(mmu);
        let r = if opcode < 0x40 {
            self.execute_block0(mmu, opcode)
        } else if opcode < 0x80 {
            let ghost mid = *self;
            let r = self.execute_load(mmu, opcode);
            proof {
                if opcode != 0x76 && opcode % 8 != 6 && (opcode / 8) % 8 != 6 {
                    assert forall|k: u8| k < 8 && k != (opcode / 8) % 8 implies self.reg8(k) == old(self).reg8(k) by {
                        assert(self.reg8(k) == mid.reg8(k));
                        assert(mid.reg8(k) == old(self).reg8(k));
                    }
                }
            }
            r
        } else if opcode < 0xC0 {
            Ok(self.execute_alu(mmu, opcode))
        } else {
            self.execute_block3(mmu, opcode)
        };
        let ghost before = *self;
        if enable_after {
            self.mie = true;
        }
        assert(forall|k: u8| k < 8 ==> self.reg8(k) == #[trigger] before.reg8(k));
        r
    }

    /// ADD, ADC, SUB, SBC, AND, XOR, OR, CP of A and an operand (0x80-0xBF).
    fn execute_alu(&mut self, mmu: &GbMmu, opcode: u8) -> (cycles: u8)
        requires
            old(self).wf(),
            mmu.wf(),
            0x80 <= opcode < 0xC0,
        ensures
            final(self).wf(),
            1 <= cycles <= 2,
            opcode % 8 != 6 ==> cycles == 1 && (final(self).a, final(self).f) == alu_spec(
                (opcode / 8) % 8, old(self).a, old(self).reg8(opcode % 8), old(self).f & CARRY_FLAG != 0),
            final(self).program_counter == old(self).program_counter,
            final(self).stack_pointer == old(self).stack_pointer,
    {
        let v = self.read_operand(mmu, opcode % 8);
        let (a, f) = alu((opcode / 8) % 8, self.a, v, self.flag(CARRY_FLAG));
        self.a = a;
        self.f = f;
        if opcode % 8 == 6 { 2 } else { 1 }
    }

    /// LD r, r' (0x40-0x7F) and HALT (0x76).
    fn execute_load(&mut self, mmu: &mut GbMmu, opcode: u8) -> (r: Result<u8, u8>)
        requires
            old(self).wf(),
            old(mmu).wf(),
            0x40 <= opcode < 0x80,
        ensures
            final(self).wf(),
            mmu_kept(old(mmu), final(mmu)),
            r matches Ok(c) ==> 1 <= c <= 6,
            r is Ok,
            opcode != 0x76 && opcode % 8 != 6 && (opcode / 8) % 8 != 6 ==> {
                &&& r == Ok::<u8, u8>(1)
                &&& final(self).reg8((opcode / 8) % 8) == old(self).reg8(opcode % 8)
                &&& forall|k: u8| k < 8 && k != (opcode / 8) % 8 ==> final(self).reg8(k) == old(self).reg8(k)
                &&& final(self).program_counter == old(self).program_counter
            },
    {
        if opcode == 0x76 {
            let h = &mmu.io_bus.interrupt_handler;
            if !self.mie && h.interrupt_flag & h.interrupt_enable_flag & 0x1F != 0 {
                self.halt_bug = true;
            } else {
                self.halt = true;
            }
            return Ok(1);
        }
        let dest = (opcode / 8) % 8;
        let src = opcode % 8;
        let v = self.read_operand(mmu, src);
        self.write_operand(mmu, dest, v);
        Ok(if src == 6 || dest == 6 { 2 } else { 1 })
    }

    /// 0x00-0x3F.
    #[verifier::rlimit(60)]
    fn execute_block0(&mut self, mmu: &mut GbMmu, opcode: u8) -> (r: Result<u8, u8>)
        requires
            old(self).wf(),
            old(mmu).wf(),
            opcode < 0x40,
        ensures
            final(self).wf(),
            mmu_kept(old(mmu), final(mmu)),
            r matches Ok(c) ==> 1 <= c <= 6,
            r is Ok,
            opcode == 0x00 ==> r == Ok::<u8, u8>(1) && *final(self) == *old(self),
    {
        let low = opcode % 8;
        let row = opcode / 8;
        if low == 0 {
            if opcode == 0x00 {
                Ok(1)
            } else if opcode == 0x08 {
                let address = self.fetch_word(mmu);
                let sp = self.stack_pointer;
                mmu.write(address, (sp % 256) as u8);
                mmu.write(address.wrapping_add(1), (sp / 256) as u8);
                Ok(5)
            } else if opcode == 0x10 {
                let _ = self.fetch_next_byte(mmu);
                self.stop = true;
                Ok(1)
            } else {
                let offset = self.fetch_next_byte(mmu);
                if opcode == 0x18 || self.condition(row - 4) {
                    self.program_counter = self.program_counter.wrapping_add(offset as u16);
                    if offset >= 0x80 {
                        self.program_counter = self.program_counter.wrapping_sub(256);
                    }
                    Ok(3)
                } else {
                    Ok(2)
                }
            }
        } else if low == 1 {
            let reg = row / 2;
            if row % 2 == 0 {
                let value = self.fetch_word(mmu);
                self.set_register16_sp(reg, value);
                Ok(3)
            } else {
                let hl = self.get_register16_sp(2);
                let other = self.get_register16_sp(reg);
                let sum: u32 = hl as u32 + other as u32;
                let z = self.flag(ZERO_FLAG);
                self.f = make_flags(z, false, check_for_half_carry_third_nible(hl, other), sum >= 0x10000);
                self.set_hl((sum % 0x10000) as u16);
                Ok(2)
            }
        } else if low == 2 {
            let reg = row / 2;
            let address = if reg < 2 { self.get_register16_sp(reg) } else { self.get_register16_sp(2) };
            if row % 2 == 0 {
                let a = self.a;
                mmu.write(address, a);
            } else {
                self.a = mmu.read(address);
            }
            if reg == 2 {
                self.set_hl(address.wrapping_add(1));
            } else if reg == 3 {
                self.set_hl(address.wrapping_sub(1));
            }
            Ok(2)
        } else if low == 3 {
            let reg = row / 2;
            let value = self.get_register16_sp(reg);
            if row % 2 == 0 {
                self.set_register16_sp(reg, value.wrapping_add(1));
            } else {
                self.set_register16_sp(reg, value.wrapping_sub(1));
            }
            Ok(2)
        } else if low == 4 || low == 5 {
            let v = self.read_operand(mmu, row);
            let carry = self.flag(CARRY_FLAG);
            let (result, half) = if low == 4 {
                (v.wrapping_add(1), check_for_half_carry_first_nible_add(v, 1))
            } else {
                (v.wrapping_sub(1), check_for_half_carry_first_nible_sub(v, 1))
            };
            self.write_operand(mmu, row, result);
            self.f = make_flags(result == 0, low == 5, half, carry);
            Ok(if row == 6 { 3 } else { 1 })
        } else if low == 6 {
            let n = self.fetch_next_byte(mmu);
            self.write_operand(mmu, row, n);
            Ok(if row == 6 { 3 } else { 2 })
        } else {
            self.execute_accumulator_op(row);
            Ok(1)
        }
    }

    /// RLCA, RRCA, RLA, RRA, DAA, CPL, SCF, CCF (0x07-0x3F, step 8).
    fn execute_accumulator_op(&mut self, row: u8)
        requires
            old(self).wf(),
        ensures
            final(self).wf(),
    {
        let a = self.a;
        let carry = self.flag(CARRY_FLAG);
        if row == 0 {
            self.a = (a % 128) * 2 + a / 128;
            self.f = make_flags(false, false, false, a >= 0x80);
        } else if row == 1 {
            self.a = a / 2 + (a % 2) * 128;
            self.f = make_flags(false, false, false, a % 2 == 1);
        } else if row == 2 {
            self.a = (a % 128) * 2 + (if carry { 1 } else { 0 });
            self.f = make_flags(false, false, false, a >= 0x80);
        } else if row == 3 {
            self.a = a / 2 + (if carry { 0x80 } else { 0 });
            self.f = make_flags(false, false, false, a % 2 == 1);
        } else if row == 4 {
            let subtract = self.flag(SUBTRACT_FLAG);
            let half = self.flag(HALF_CARRY_FLAG);
            let mut adjust: u8 = 0;
            let mut new_carry = carry;
            if !subtract {
                if carry || a > 0x99 {
                    adjust = adjust + 0x60;
                    new_carry = true;
                }
                if half || a % 16 > 9 {
                    adjust = adjust + 0x06;
                }
                self.a = a.wrapping_add(adjust);
            } else {
                if carry {
                    adjust = adjust + 0x60;
                }
                if half {
                    adjust = adjust + 0x06;
                }
                self.a = a.wrapping_sub(adjust);
            }
            let z = self.a == 0;
            self.f = make_flags(z, subtract, false, new_carry);
        } else if row == 5 {
            self.a = !a;
            let z = self.flag(ZERO_FLAG);
            self.f = make_flags(z, true, true, carry);
        } else if row == 6 {
            let z = self.flag(ZERO_FLAG);
            self.f = make_flags(z, false, false, true);
        } else {
            let z = self.flag(ZERO_FLAG);
            self.f = make_flags(z, false, false, !carry);
        }
    }

    /// 0xC0-0xFF.
    #[verifier::rlimit(60)]
    fn execute_block3(&mut self, mmu: &mut GbMmu, opcode: u8) -> (r: Result<u8, u8>)
        requires
            old(self).wf(),
            old(mmu).wf(),
            0xC0 <= opcode,
        ensures
            final(self).wf(),
            mmu_kept(old(mmu), final(mmu)),
            r matches Ok(c) ==> 1 <= c <= 6,
            r matches Err(op) ==> is_forbidden(op),
            is_forbidden(opcode) ==> r == Err::<u8, u8>(opcode),
            !is_forbidden(opcode) ==> r is Ok,
            opcode % 8 == 7 ==> {
                &&& r == Ok::<u8, u8>(4)
                &&& final(self).program_counter == opcode - 0xC7
                &&& final(self).stack_pointer == old(self).stack_pointer.wrapping_sub(2)
            },
    {
        if opcode == 0xD3 || opcode == 0xDB || opcode == 0xDD || opcode == 0xE3 || opcode == 0xE4 || opcode == 0xEB
            || opcode == 0xEC || opcode == 0xED || opcode == 0xF4 || opcode == 0xFC || opcode == 0xFD {
            return Err(opcode);
        }
        let low = opcode % 8;
        let row = (opcode / 8) % 8;
        if low == 0 {
            if row < 4 {
                if self.condition(row) {
                    let pc = self.pop(mmu);
                    self.program_counter = pc;
                    Ok(5)
                } else {
                    Ok(2)
                }
            } else if opcode == 0xE0 {
                let n = self.fetch_next_byte(mmu);
                let a = self.a;
                mmu.write(0xFF00 + n as u16, a);
                Ok(3)
            } else if opcode == 0xF0 {
                let n = self.fetch_next_byte(mmu);
                self.a = mmu.read(0xFF00 + n as u16);
                Ok(3)
            } else {
                let n = self.fetch_next_byte(mmu);
                let sp = self.stack_pointer;
                let f = make_flags(false, false, (sp % 16) as u8 + n % 16 >= 16, (sp % 256) + n as u16 >= 256);
                let result = if n >= 0x80 { sp.wrapping_add(n as u16).wrapping_sub(256) } else { sp.wrapping_add(n as u16) };
                self.f = f;
                if opcode == 0xE8 {
                    self.stack_pointer = result;
                    Ok(4)
                } else {
                    self.set_hl(result);
                    Ok(3)
                }
            }
        } else if low == 1 {
            if row % 2 == 0 {
                let value = self.pop(mmu);
                let reg = row / 2;
                if reg == 3 {
                    self.a = (value / 256) as u8;
                    self.f = ((value % 256) as u8 / 16) * 16;
                } else {
                    self.set_register16_sp(reg, value);
                }
                Ok(3)
            } else if opcode == 0xC9 || opcode == 0xD9 {
                let pc = self.pop(mmu);
                self.program_counter = pc;
                if opcode == 0xD9 {
                    self.mie = true;
                }
                Ok(4)
            } else if opcode == 0xE9 {
                self.program_counter = self.get_register16_sp(2);
                Ok(1)
            } else {
                self.stack_pointer = self.get_register16_sp(2);
                Ok(2)
            }
        } else if low == 2 {
            if row < 4 {
                let address = self.fetch_word(mmu);
                if self.condition(row) {
                    self.program_counter = address;
                    Ok(4)
                } else {
                    Ok(3)
                }
            } else if opcode == 0xE2 {
                let a = self.a;
                mmu.write(0xFF00 + self.c as u16, a);
                Ok(2)
            } else if opcode == 0xF2 {
                self.a = mmu.read(0xFF00 + self.c as u16);
                Ok(2)
            } else if opcode == 0xEA {
                let address = self.fetch_word(mmu);
                let a = self.a;
                mmu.write(address, a);
                Ok(4)
            } else {
                let address = self.fetch_word(mmu);
                self.a = mmu.read(address);
                Ok(4)
            }
        } else if low == 3 {
            if opcode == 0xC3 {
                self.program_counter = self.fetch_word(mmu);
                Ok(4)
            } else if opcode == 0xCB {
                let cb = self.fetch_next_byte(mmu);
                Ok(self.execute_cb(mmu, cb))
            } else if opcode == 0xF3 {
                self.mie = false;
                self.ei_pending = false;
                Ok(1)
            } else {
                self.ei_pending = true;
                Ok(1)
            }
        } else if low == 4 {
            let address = self.fetch_word(mmu);
            if self.condition(row) {
                let pc = self.program_counter;
                self.push(mmu, pc);
                self.program_counter = address;
                Ok(6)
            } else {
                Ok(3)
            }
        } else if low == 5 {
            if row % 2 == 0 {
                let reg = row / 2;
                let value = if reg == 3 { self.a as u16 * 256 + self.f as u16 } else { self.get_register16_sp(reg) };
                self.push(mmu, value);
                Ok(4)
            } else {
                let address = self.fetch_word(mmu);
                let pc = self.program_counter;
                self.push(mmu, pc);
                self.program_counter = address;
                Ok(6)
            }
        } else if low == 6 {
            let n = self.fetch_next_byte(mmu);
            let (a, f) = alu(row, self.a, n, self.flag(CARRY_FLAG));
            self.a = a;
            self.f = f;
            Ok(2)
        } else {
            let pc = self.program_counter;
            self.push(mmu, pc);
            self.program_counter = row as u16 * 8;
            Ok(4)
        }
    }

    /// A CB-prefixed instruction: rotates and shifts, BIT, RES, SET.
    fn execute_cb(&mut self, mmu: &mut GbMmu, cb: u8) -> (cycles: u8)
        requires
            old(self).wf(),
            old(mmu).wf(),
        ensures
            final(self).wf(),
            mmu_kept(old(mmu), final(mmu)),
            2 <= cycles <= 4,
    {
        let target = cb % 8;
        let bit = (cb / 8) % 8;
        let v = self.read_operand(mmu, target);
        let group = cb / 64;
        if group == 1 {
            let z = v & (1u8 << bit) == 0;
            let carry = self.flag(CARRY_FLAG);
            self.f = make_flags(z, false, true, carry);
            return if target == 6 { 3 } else { 2 };
        }
        let result = if group == 2 {
            v & !(1u8 << bit)
        } else if group == 3 {
            v | (1u8 << bit)
        } else {
            let carry = self.flag(CARRY_FLAG);
            let (r, c) = if bit == 0 {
                ((v % 128) * 2 + v / 128, v >= 0x80)
            } else if bit == 1 {
                (v / 2 + (v % 2) * 128, v % 2 == 1)
            } else if bit == 2 {
                ((v % 128) * 2 + (if carry { 1 } else { 0 }), v >= 0x80)
            } else if bit == 3 {
                (v / 2 + (if carry { 0x80 } else { 0 }), v % 2 == 1)
            } else if bit == 4 {
                ((v % 128) * 2, v >= 0x80)
            } else if bit == 5 {
                (v / 2 + (v / 128) * 128, v % 2 == 1)
            } else if bit == 6 {
                ((v % 16) * 16 + v / 16, false)
            } else {
                (v / 2, v % 2 == 1)
            };
            self.f = make_flags(r == 0, false, false, c);
            r
        };
        self.write_operand(mmu, target, result);
        if target == 6 { 4 } else { 2 }
    }
}

} // verus!
