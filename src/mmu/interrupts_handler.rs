use vstd::prelude::*;

verus! {

/// What the interrupt controller asks of the CPU after a step.
#[derive(Clone, Copy, PartialEq, Eq, Structural, Debug)]
pub enum InterruptRequest {
    NoRequest,
    /// A request is pending but IME is off: only a HALT ends.
    Unhalt,
    /// Service the request of this bit (0 V-Blank ... 4 Joypad).
    Interrupt(u8),
}

/// The lowest set bit among bits 0-4 of `pending`, which has one.
pub open spec fn highest_priority(pending: u8) -> u8 {
    if pending & 1 != 0 { 0 } else if pending & 2 != 0 { 1 } else if pending & 4 != 0 { 2 } else if pending & 8 != 0 { 3 } else { 4 }
}

/// The vector of interrupt bit `bit`: 0x40, 0x48, 0x50, 0x58, 0x60.
pub open spec fn vector_of(bit: u8) -> u16 {
    (0x40 + 8 * bit) as u16
}

/// What the controller asks of the CPU with IME `ime`.
pub open spec fn request_of(h: InterruptsHandler, ime: bool) -> InterruptRequest {
    let pending = h.interrupt_flag & h.interrupt_enable_flag & 0x1F;
    if pending == 0 {
        InterruptRequest::NoRequest
    } else if ime {
        InterruptRequest::Interrupt(highest_priority(pending))
    } else {
        InterruptRequest::Unhalt
    }
}

pub struct InterruptsHandler {
    /// IE, 0xFFFF.
    pub interrupt_enable_flag: u8,
    /// IF, 0xFF0F.
    pub interrupt_flag: u8,
}

impl InterruptsHandler {
    /// IF has only the five request bits.
    pub open spec fn wf(&self) -> bool {
        self.interrupt_flag < 0x20
    }

    pub fn new() -> (h: Self)
        ensures
            h.interrupt_enable_flag == 0 && h.interrupt_flag == 0,
    {
        InterruptsHandler { interrupt_enable_flag: 0, interrupt_flag: 0 }
    }

    pub fn handle_interrupts(&self, master_interrupt_enable: bool) -> (r: InterruptRequest)
        requires
            self.wf(),
        ensures
            r == request_of(*self, master_interrupt_enable),
            self.interrupt_flag & self.interrupt_enable_flag == 0 ==> r == InterruptRequest::NoRequest,
            self.interrupt_flag & self.interrupt_enable_flag != 0 && !master_interrupt_enable ==> r
                == InterruptRequest::Unhalt,
            ({
                let pending = self.interrupt_flag & self.interrupt_enable_flag & 0x1F;
                &&& pending == 0 ==> r == InterruptRequest::NoRequest
                &&& pending != 0 && master_interrupt_enable ==> r == InterruptRequest::Interrupt(highest_priority(pending))
                &&& pending != 0 && !master_interrupt_enable ==> r == InterruptRequest::Unhalt
            }),
    {
        let f = self.interrupt_flag;
        let e = self.interrupt_enable_flag;
        assert(f < 0x20 ==> f & e & 0x1F == f & e) by (bit_vector);
        let pending = self.interrupt_flag & self.interrupt_enable_flag & 0x1F;
        if pending == 0 {
            InterruptRequest::NoRequest
        } else if !master_interrupt_enable {
            InterruptRequest::Unhalt
        } else if pending & 1 != 0 {
            InterruptRequest::Interrupt(0)
        } else if pending & 2 != 0 {
            InterruptRequest::Interrupt(1)
        } else if pending & 4 != 0 {
            InterruptRequest::Interrupt(2)
        } else if pending & 8 != 0 {
            InterruptRequest::Interrupt(3)
        } else {
            InterruptRequest::Interrupt(4)
        }
    }

    /// The CPU took the interrupt of `bit`: its request is cleared.
    pub fn acknowledge(&mut self, bit: u8)
        requires
            bit < 5,
            old(self).wf(),
        ensures
            final(self).wf(),
            final(self).interrupt_flag == old(self).interrupt_flag & !(1u8 << bit),
            final(self).interrupt_enable_flag == old(self).interrupt_enable_flag,
    {
        let f = self.interrupt_flag;
        assert(f < 0x20 ==> f & !(1u8 << bit) < 0x20) by (bit_vector);
        self.interrupt_flag = self.interrupt_flag & !(1u8 << bit);
    }
}

} // verus!
