use vstd::prelude::*;
use crate::cpu::gb_cpu::{alu_spec, interrupt_served, is_forbidden, mmu_kept, opcode_step, GbCpu, CARRY_FLAG};
use crate::mmu::gb_mmu::bus_advanced;
use crate::mmu::interrupts_handler::request_of;
use crate::mmu::io_bus::IoBus;
use crate::mmu::carts::Mbc;
use crate::mmu::external_memory_bus::{BOOT_ROM_SIZE, GBC_BOOT_ROM_SIZE};
use crate::mmu::gb_mmu::GbMmu;
use crate::mmu::interrupts_handler::InterruptRequest;
use crate::ppu::color::Pixel;

verus! {

/// m-cycles per frame: 4,194,304 Hz / 59.73 Hz / 4.
pub const CYCLES_PER_FRAME: u32 = 17556;

/// The whole machine: CPU and memory with its devices.
pub struct GameBoy {
    pub cpu: GbCpu,
    pub mmu: GbMmu,
}

/// STOP as the machine loop handles it: with KEY1 bit 0 set the speed
/// flips (KEY1 bit 7) and bit 0 clears; the CPU leaves STOP.
pub open spec fn speed_switched(g0: GameBoy, g1: GameBoy) -> bool {
    let key1 = g0.mmu.io_bus.speed_switch_register;
    &&& g1.cpu == (GbCpu { stop: false, ..g0.cpu })
    &&& g1.mmu == (GbMmu {
        io_bus: IoBus {
            speed_switch_register: if key1 & 1 != 0 { (key1 ^ 0x80) & 0xFE } else { key1 },
            ..g0.mmu.io_bus
        },
        ..g0.mmu
    })
}

/// One step of the machine loop from `g0` to `g1` through the states in
/// between: the instruction at PC (one idle m-cycle when halted) giving
/// `a` after `cycles` m-cycles, STOP handling giving `a2`, the bus step
/// giving `b`, interrupt service giving `d` after `service` m-cycles, and
/// the bus step for those.
pub open spec fn frame_step_via(
    g0: GameBoy,
    a: GameBoy,
    cycles: u8,
    a2: GameBoy,
    b: GameBoy,
    service: u8,
    d: GameBoy,
    g1: GameBoy,
) -> bool {
    let double_speed = a.mmu.io_bus.speed_switch_register & 0x80 != 0;
    &&& (g0.cpu.halt && a == g0 && cycles == 1) || (!g0.cpu.halt && opcode_step(g0.cpu, g0.mmu, a.cpu, a.mmu,
        Ok::<u8, u8>(cycles)))
    &&& a.cpu.stop ==> speed_switched(a, a2)
    &&& !a.cpu.stop ==> a2 == a
    &&& b.cpu == a2.cpu && bus_advanced(a2.mmu, b.mmu, cycles, double_speed)
    &&& interrupt_served(b.cpu, b.mmu, d.cpu, d.mmu, request_of(b.mmu.io_bus.interrupt_handler, b.cpu.mie), service)
    &&& service != 0 ==> g1.cpu == d.cpu && bus_advanced(d.mmu, g1.mmu, service, double_speed)
    &&& service == 0 ==> g1 == d
}

pub open spec fn frame_step(g0: GameBoy, g1: GameBoy) -> bool {
    exists|a: GameBoy, cycles: u8, a2: GameBoy, b: GameBoy, service: u8, d: GameBoy|
        #[trigger] frame_step_via(g0, a, cycles, a2, b, service, d, g1)
}

/// A frame as `cycle_frame` runs it: from `start` (the joypad polled),
/// machine steps while fewer than 17556 m-cycles of the frame have passed.
pub open spec fn frame_run(steps: Seq<GameBoy>) -> bool {
    &&& steps.len() >= 1
    &&& forall|i: int| 0 <= i < steps.len() - 1 ==> #[trigger] frame_step(steps[i], steps[i + 1])
        && steps[i].mmu.m_cycle_counter < CYCLES_PER_FRAME
}

/// m-cycles ticked before the current frame began.
pub open spec fn frames_start(g: GameBoy) -> int {
    g.mmu.total_m_cycles - g.mmu.m_cycle_counter
}

impl GameBoy {
    pub open spec fn wf(&self) -> bool {
        &&& self.cpu.wf()
        &&& self.mmu.wf()
        &&& self.mmu.m_cycle_counter < CYCLES_PER_FRAME
        &&& self.mmu.total_m_cycles >= self.mmu.m_cycle_counter
    }

    /// Power-on with a boot ROM (256 bytes for DMG, 2304 for GBC).
    pub fn new_with_bootrom(mbc: Mbc, boot_rom: Vec<u8>) -> (g: Self)
        requires
            boot_rom@.len() == BOOT_ROM_SIZE || boot_rom@.len() == GBC_BOOT_ROM_SIZE,
        ensures
            g.wf(),
            g.cpu.program_counter == 0,
            g.mmu.external_memory_bus.boot_register == 0,
            g.mmu.external_memory_bus.boot_rom == Some(boot_rom),
            g.mmu.occupied_access_bus.is_none(),
            g.mmu.io_bus.oam_dma_remaining == 0,
            g.mmu.external_memory_bus.mbc == mbc,
            g.mmu.total_m_cycles == 0,
    {
        GameBoy { cpu: GbCpu::new(true), mmu: GbMmu::new_with_bootrom(mbc, boot_rom) }
    }

    /// Power-on straight into the cartridge, in the state the boot ROM
    /// leaves (PC 0x100, SP 0xFFFE, AF 0x0190, BC 0x0013,
    /// DE 0x00D8, HL 0x014D, BOOT = 1).
    pub fn new(mbc: Mbc) -> (g: Self)
        ensures
            g.wf(),
            g.cpu.program_counter == 0x100,
            g.cpu.stack_pointer == 0xFFFE,
            g.cpu.a == 0x01 && g.cpu.f == 0x90 && g.cpu.b == 0x00 && g.cpu.c == 0x13,
            g.cpu.d == 0x00 && g.cpu.e == 0xD8 && g.cpu.h == 0x01 && g.cpu.l == 0x4D,
            g.mmu.external_memory_bus.boot_register == 1,
            g.mmu.occupied_access_bus.is_none(),
            g.mmu.io_bus.oam_dma_remaining == 0,
            g.mmu.external_memory_bus.mbc == mbc,
            g.mmu.total_m_cycles == 0,
    {
        GameBoy { cpu: GbCpu::new(false), mmu: GbMmu::new(mbc) }
    }

    /// Runs one frame (17556 m-cycles, the overshoot of the last instruction
    /// counted towards the next frame), with `joypad_state` as the pressed
    /// buttons. Stops early with the opcode if the CPU meets one that does
    /// not exist.
    #[verifier::rlimit(80)]
    pub fn cycle_frame(&mut self, joypad_state: u8) -> (r: Result<(), u8>)
        requires
            old(self).wf(),
            old(self).mmu.total_m_cycles < 0x1_0000_0000_0000_0000 - 0x1_0000_0000,
        ensures
            final(self).wf(),
            final(self).mmu.total_m_cycles >= old(self).mmu.total_m_cycles,
            r is Ok ==> frames_start(*final(self)) == frames_start(*old(self)) + CYCLES_PER_FRAME,
            // the frame ends with the first step that reaches its length
            r is Ok ==> final(self).mmu.m_cycle_counter < 11,
            // it stops only at an opcode that does not exist, left at PC
            r matches Err(op) ==> is_forbidden(op) && op == final(self).mmu.peek(final(self).cpu.program_counter),
            final(self).mmu.io_bus.joypad_buttons == joypad_state,
            // the frame is the machine steps from the polled state until 17556
            // m-cycles of it have passed
            r is Ok ==> exists|steps: Seq<GameBoy>| {
                &&& #[trigger] frame_run(steps)
                &&& steps[0].cpu == old(self).cpu
                &&& steps[0].mmu == (GbMmu {
                    io_bus: IoBus {
                        joypad_buttons: joypad_state,
                        interrupt_handler: steps[0].mmu.io_bus.interrupt_handler,
                        ..old(self).mmu.io_bus
                    },
                    ..old(self).mmu
                })
                &&& steps.last().mmu.m_cycle_counter >= CYCLES_PER_FRAME
                &&& *final(self) == (GameBoy {
                    mmu: GbMmu { m_cycle_counter: (steps.last().mmu.m_cycle_counter - CYCLES_PER_FRAME) as u32, ..steps.last().mmu },
                    ..steps.last()
                })
            },
    {
        self.mmu.poll_joypad_state(joypad_state);
        let ghost start = *self;
        let ghost mut steps: Seq<GameBoy> = seq![*self];
        let ghost start_total = self.mmu.total_m_cycles;
        let ghost start_counter = self.mmu.m_cycle_counter;
        while self.mmu.m_cycle_counter < CYCLES_PER_FRAME
            invariant
                self.cpu.wf(),
                self.mmu.wf(),
                self.mmu.m_cycle_counter < CYCLES_PER_FRAME + 11,
                self.mmu.io_bus.joypad_buttons == joypad_state,
                self.mmu.total_m_cycles - self.mmu.m_cycle_counter == start_total - start_counter,
                self.mmu.total_m_cycles >= start_total,
                start_total == old(self).mmu.total_m_cycles,
                self.mmu.total_m_cycles <= start_total + CYCLES_PER_FRAME + 16,
                start_total < 0x1_0000_0000_0000_0000 - 0x1_0000_0000,
                start_total >= start_counter,
                frame_run(steps),
                steps[0] == start,
                steps.last() == *self,
                start.cpu == old(self).cpu,
                start.mmu == (GbMmu {
                    io_bus: IoBus {
                        joypad_buttons: joypad_state,
                        interrupt_handler: start.mmu.io_bus.interrupt_handler,
                        ..old(self).mmu.io_bus
                    },
                    ..old(self).mmu
                }),
            decreases CYCLES_PER_FRAME + 11 - self.mmu.m_cycle_counter,
        {
            let ghost g0 = *self;
            let cpu_cycles: u8 = if self.cpu.halt {
                1
            } else {
                match self.execute_opcode() {
                    Ok(c) => c,
                    Err(op) => {
                        return Err(op);
                    },
                }
            };
            let ghost a = *self;
            let double_speed = self.mmu.io_bus.speed_switch_register & 0x80 != 0;
            if self.cpu.stop {
                self.switch_speed();
            }
            let ghost a2 = *self;
            self.mmu.cycle(cpu_cycles, double_speed);
            let ghost b = *self;
            let request = self.mmu.handle_interrupts(self.cpu.mie);
            proof {
                let h = self.mmu.io_bus.interrupt_handler;
                let pending = h.interrupt_flag & h.interrupt_enable_flag & 0x1F;
                assert(pending != 0 ==> crate::mmu::interrupts_handler::highest_priority(pending) < 5);
            }
            let interrupt_cycles = self.cpu.execute_interrupt_request(&mut self.mmu, request);
            let ghost d = *self;
            if interrupt_cycles != 0 {
                self.mmu.cycle(interrupt_cycles, double_speed);
            }
            proof {
                assert(frame_step_via(g0, a, cpu_cycles, a2, b, interrupt_cycles, d, *self));
                let old_steps = steps;
                steps = steps.push(*self);
                assert forall|i: int| 0 <= i < steps.len() - 1 implies #[trigger] frame_step(steps[i], steps[i + 1])
                    && steps[i].mmu.m_cycle_counter < CYCLES_PER_FRAME by {
                    if i < old_steps.len() - 1 {
                        assert(steps[i] == old_steps[i] && steps[i + 1] == old_steps[i + 1]);
                    } else {
                        assert(steps[i] == g0 && steps[i + 1] == *self);
                    }
                }
            }
        }
        self.mmu.m_cycle_counter = self.mmu.m_cycle_counter - CYCLES_PER_FRAME;
        assert(frame_run(steps));
        Ok(())
    }

    /// Runs the instruction at PC; see `GbCpu::run_opcode`.
    fn execute_opcode(&mut self) -> (r: Result<u8, u8>)
        requires
            old(self).cpu.wf(),
            old(self).mmu.wf(),
        ensures
            final(self).cpu.wf(),
            mmu_kept(&old(self).mmu, &final(self).mmu),
            r matches Ok(c) ==> 1 <= c <= 6,
            ({ let op = old(self).mmu.peek(old(self).cpu.program_counter); let pc1 = old(self).cpu.next_pc();
                r is Err <==> is_forbidden(op) }),
            ({ let op = old(self).mmu.peek(old(self).cpu.program_counter); let pc1 = old(self).cpu.next_pc();
                r matches Err(e) ==> e == op && final(self).cpu == old(self).cpu && final(self).mmu == old(self).mmu }),
            ({ let op = old(self).mmu.peek(old(self).cpu.program_counter); let pc1 = old(self).cpu.next_pc();
                op == 0x00 ==> r == Ok::<u8, u8>(1) && final(self).cpu.program_counter == pc1
                    && final(self).cpu.reg8(7) == old(self).cpu.reg8(7) && final(self).cpu.f == old(self).cpu.f }),
            ({ let op = old(self).mmu.peek(old(self).cpu.program_counter); let pc1 = old(self).cpu.next_pc();
                (0x40 <= op < 0x80 && op != 0x76 && op % 8 != 6 && (op / 8) % 8 != 6) ==> r == Ok::<u8, u8>(1) }),
            ({ let op = old(self).mmu.peek(old(self).cpu.program_counter); let pc1 = old(self).cpu.next_pc();
                (0x40 <= op < 0x80 && op != 0x76 && op % 8 != 6 && (op / 8) % 8 != 6) ==> final(self).cpu.program_counter == pc1 }),
            ({ let op = old(self).mmu.peek(old(self).cpu.program_counter);
                (0x40 <= op < 0x80 && op != 0x76 && op % 8 != 6 && (op / 8) % 8 != 6) ==> final(self).cpu.reg8((op / 8) % 8) == old(self).cpu.reg8(op % 8) }),
            ({ let op = old(self).mmu.peek(old(self).cpu.program_counter);
                (0x40 <= op < 0x80 && op != 0x76 && op % 8 != 6 && (op / 8) % 8 != 6) ==> forall|k: u8| k < 8 && k != (op / 8) % 8 ==> final(self).cpu.reg8(k) == old(self).cpu.reg8(k) }),
            ({ let op = old(self).mmu.peek(old(self).cpu.program_counter); let pc1 = old(self).cpu.next_pc();
                (0x80 <= op < 0xC0 && op % 8 != 6) ==> {
                    &&& r == Ok::<u8, u8>(1)
                    &&& final(self).cpu.program_counter == pc1
                    &&& (final(self).cpu.a, final(self).cpu.f) == alu_spec((op / 8) % 8, old(self).cpu.a, old(self).cpu.reg8(op % 8),
                        old(self).cpu.f & CARRY_FLAG != 0)
                } }),
            ({ let op = old(self).mmu.peek(old(self).cpu.program_counter); let pc1 = old(self).cpu.next_pc();
                (0xC0 <= op && op % 8 == 7) ==> {
                    &&& r == Ok::<u8, u8>(4)
                    &&& final(self).cpu.program_counter == op - 0xC7
                    &&& final(self).cpu.stack_pointer == old(self).cpu.stack_pointer.wrapping_sub(2)
                } }),
    {
        self.cpu.run_opcode(&mut self.mmu)
    }

    /// STOP with KEY1 bit 0 set switches the CPU speed; any STOP then ends.
    fn switch_speed(&mut self)
        requires
            old(self).cpu.wf(),
            old(self).mmu.wf(),
        ensures
            final(self).cpu.wf(),
            final(self).mmu.wf(),
            final(self).mmu.m_cycle_counter == old(self).mmu.m_cycle_counter,
            final(self).mmu.total_m_cycles == old(self).mmu.total_m_cycles,
            final(self).mmu.io_bus.joypad_buttons == old(self).mmu.io_bus.joypad_buttons,
            speed_switched(*old(self), *final(self)),
    {
        let key1 = self.mmu.io_bus.speed_switch_register;
        if key1 & 1 != 0 {
            self.mmu.io_bus.speed_switch_register = (key1 ^ 0x80) & 0xFE;
        }
        self.cpu.stop = false;
    }

    /// Frames handed to the frame sink so far.
    pub fn frames_completed(&self) -> (n: u64)
        ensures
            n == self.mmu.io_bus.ppu.frames_completed,
    {
        self.mmu.io_bus.ppu.frames_completed
    }

    /// The last finished frame, 160x144 ARGB pixels row by row.
    pub fn take_frame(&self) -> (f: Vec<Pixel>)
        requires
            self.wf(),
        ensures
            f@.len() == crate::ppu::gb_ppu::SCREEN_PIXELS,
    {
        self.mmu.io_bus.ppu.completed_frame()
    }

    /// The full audio buffers (interleaved left/right) since the last call.
    pub fn take_audio(&mut self) -> (b: Vec<Vec<i16>>)
        requires
            old(self).wf(),
        ensures
            final(self).wf(),
            b@ == old(self).mmu.io_bus.apu.full_buffers@,
    {
        self.mmu.io_bus.apu.take_full_buffers()
    }

    /// Stereo audio frames produced since power-on.
    pub fn audio_samples_produced(&self) -> (n: u64)
        ensures
            n == self.mmu.io_bus.apu.samples_produced,
    {
        self.mmu.io_bus.apu.samples_produced
    }

    /// A CPU read of `address`, as the running program would see it.
    pub fn read_memory(&self, address: u16) -> (v: u8)
        requires
            self.wf(),
        ensures
            v == self.mmu.peek(address),
    {
        self.mmu.read(address)
    }

    /// m-cycles ticked on the memory bus since power-on.
    pub fn total_m_cycles(&self) -> (n: u64)
        ensures
            n == self.mmu.total_m_cycles,
    {
        self.mmu.total_m_cycles
    }

    pub fn program_counter(&self) -> (pc: u16)
        ensures
            pc == self.cpu.program_counter,
    {
        self.cpu.program_counter
    }

    /// The cartridge, to take its save blob at teardown.
    pub fn mbc(&self) -> (m: &Mbc)
        ensures
            *m == self.mmu.external_memory_bus.mbc,
    {
        &self.mmu.external_memory_bus.mbc
    }
}

/// Over successive frames, each one a `cycle_frame` that returned `Ok`, the
/// m-cycles ticked on the bus since power-on are 17556 per frame plus the
/// m-cycles already spent on the frame in progress.
pub proof fn lemma_cycle_conservation(states: Seq<GameBoy>)
    requires
        states.len() >= 1,
        states[0].mmu.total_m_cycles == 0,
        states[0].mmu.m_cycle_counter == 0,
        forall|i: int| 0 <= i < states.len() - 1 ==> frames_start(#[trigger] states[i + 1])
            == frames_start(states[i]) + CYCLES_PER_FRAME,
    ensures
        states.last().mmu.total_m_cycles == (states.len() - 1) * CYCLES_PER_FRAME + states.last().mmu.m_cycle_counter,
    decreases states.len(),
{
    if states.len() > 1 {
        let prefix = states.drop_last();
        assert forall|i: int| 0 <= i < prefix.len() - 1 implies frames_start(#[trigger] prefix[i + 1])
            == frames_start(prefix[i]) + CYCLES_PER_FRAME by {
            assert(prefix[i + 1] == states[i + 1]);
            assert(prefix[i] == states[i]);
        }
        lemma_cycle_conservation(prefix);
        let k = states.len() - 2;
        assert(frames_start(states[k + 1]) == frames_start(states[k]) + CYCLES_PER_FRAME);
        assert(states[k + 1] == states.last());
        assert(prefix.last() == states[k]);
    }
}

} // verus!
