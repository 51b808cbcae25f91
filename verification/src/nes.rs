//! The emulated console: a processor, a memory bus and a framebuffer, stepped
//! one video frame at a time by an external driver.

pub mod cpu;
pub mod laws;
pub mod opcode;
pub mod mmu;
pub mod ppu;

use vstd::prelude::*;

use crate::nes::cpu::Cpu;
use crate::nes::cpu::CpuFlags;
use crate::nes::cpu::spec_step;
use crate::nes::cpu::lemma_step_cycles;
use crate::nes::mmu::Mmu;
use crate::nes::mmu::spec_read;
use crate::nes::mmu::spec_read16;
use crate::nes::ppu::Ppu;

verus! {

/// The instruction-cycle budget of one rendered video frame.
pub const CYCLES_PER_FRAME: u32 = 29781;

/// Run whole instructions until at least `cycles` of the frame budget have
/// been consumed, yielding the final processor state, memory image and total
/// cycle count.
pub open spec fn spec_frame(c: Cpu, mem: Seq<u8>, cycles: u32) -> (Cpu, Seq<u8>, u32)
    decreases (if cycles >= CYCLES_PER_FRAME {
        0int
    } else {
        CYCLES_PER_FRAME - cycles
    })
    via spec_frame_decreases
{
    if cycles >= CYCLES_PER_FRAME {
        (c, mem, cycles)
    } else {
        let (c2, m2, cyc) = spec_step(c, mem);
        spec_frame(c2, m2, (cycles + cyc) as u32)
    }
}

#[via_fn]
proof fn spec_frame_decreases(c: Cpu, mem: Seq<u8>, cycles: u32) {
    lemma_step_cycles(c, mem);
}

/// One emulation session: the register file, the memory bus it runs against,
/// and the framebuffer peripheral. Exclusively owned; nothing mutates it
/// concurrently.
pub struct Nes {
    pub cpu: Cpu,
    pub mmu: Mmu,
    pub ppu: Ppu,
}

impl Nes {
    /// Well-formed when every component is.
    pub open spec fn wf(&self) -> bool {
        self.cpu.wf() && self.mmu.wf() && self.ppu.wf()
    }

    /// The power-on state: cleared registers and flags, the PC parked at the
    /// reset-vector location, the conventional initial stack pointer, a
    /// zeroed memory image and an opaque black screen.
    pub fn new() -> (r: Nes)
        ensures
            r.wf(),
            r.cpu == (Cpu {
                a: 0u8,
                x: 0u8,
                y: 0u8,
                pc: 0xFFFCu16,
                sp: 0xFDu8,
                flags: CpuFlags {
                    negative: false,
                    overflow: false,
                    decimal: false,
                    interrupt_disable: false,
                    zero: false,
                    carry: 0u8,
                },
            }),
            forall|a: u16| spec_read(r.mmu@, a) == 0u8,
    {
        Nes {
            mmu: Mmu::new(),
            cpu: Cpu {
                a: 0,
                x: 0,
                y: 0,
                pc: 0xFFFC,
                sp: 0xFD,
                flags: CpuFlags {
                    negative: false,
                    overflow: false,
                    decimal: false,
                    interrupt_disable: false,
                    zero: false,
                    carry: 0,
                },
            },
            ppu: Ppu::new(),
        }
    }

    /// Execute one frame's worth of instructions: `step` the processor until
    /// the accumulated cycle count reaches the frame budget.
    pub fn step(&mut self)
        requires
            old(self).wf(),
        ensures
            final(self).wf(),
            final(self).cpu == spec_frame(old(self).cpu, old(self).mmu@, 0).0,
            final(self).mmu@ == spec_frame(old(self).cpu, old(self).mmu@, 0).1,
            final(self).ppu == old(self).ppu,
    {
        let mut cycles: u32 = 0;
        while cycles < CYCLES_PER_FRAME
            invariant
                self.wf(),
                cycles <= CYCLES_PER_FRAME + 7,
                spec_frame(old(self).cpu, old(self).mmu@, 0) == spec_frame(
                    self.cpu,
                    self.mmu@,
                    cycles,
                ),
                self.ppu == old(self).ppu,
            decreases (if cycles >= CYCLES_PER_FRAME {
                0int
            } else {
                CYCLES_PER_FRAME - cycles
            }),
        {
            let ghost pre_cpu = self.cpu;
            let ghost pre_mem = self.mmu@;
            let step_cycles: u32 = self.cpu.step(&mut self.mmu);
            proof {
                lemma_step_cycles(pre_cpu, pre_mem);
            }
            cycles = cycles + step_cycles;
        }
    }

    /// Initialize the PC from the two reset-vector bytes the bus holds at
    /// the hardware-defined location 0xFFFC/0xFFFD.
    pub fn reset(&mut self)
        requires
            old(self).wf(),
        ensures
            final(self).wf(),
            final(self).cpu == (Cpu { pc: spec_read16(old(self).mmu@, 0xFFFC), ..old(self).cpu }),
            final(self).mmu == old(self).mmu,
            final(self).ppu == old(self).ppu,
    {
        self.cpu.pc = self.mmu.read_u16(0xFFFC);
    }

    /// Map a raw program image onto the bus: the fixed-size header is
    /// skipped, and the 16 KiB of program data that follow it are written to
    /// the bank at 0x8000 and mirrored into the bank at 0xC000. Everything
    /// below 0x8000 is left untouched.
    pub fn load_rom(&mut self, rom_data: &Vec<u8>)
        requires
            old(self).wf(),
            rom_data@.len() >= 0x4010,
        ensures
            final(self).wf(),
            final(self).cpu == old(self).cpu,
            final(self).ppu == old(self).ppu,
            forall|i: int|
                0x8000 <= i < 0xC000 ==> final(self).mmu@[i] == rom_data@[i - 0x8000 + 0x10],
            forall|i: int|
                0xC000 <= i < 0x10000 ==> final(self).mmu@[i] == rom_data@[i - 0xC000 + 0x10],
            forall|i: int| 0 <= i < 0x8000 ==> final(self).mmu@[i] == old(self).mmu@[i],
    {
        let mut i: usize = 0;
        while i < 0x4000
            invariant
                0 <= i <= 0x4000,
                self.mmu.wf(),
                self.cpu == old(self).cpu,
                self.ppu == old(self).ppu,
                rom_data@.len() >= 0x4010,
                forall|j: int|
                    0x8000 <= j < 0x8000 + i ==> self.mmu@[j] == rom_data@[j - 0x8000 + 0x10],
                forall|j: int|
                    0xC000 <= j < 0xC000 + i ==> self.mmu@[j] == rom_data@[j - 0xC000 + 0x10],
                forall|j: int| 0 <= j < 0x8000 ==> self.mmu@[j] == old(self).mmu@[j],
            decreases 0x4000 - i,
        {
            let b: u8 = rom_data[i + 0x10];
            self.mmu.write(0x8000 + i as u16, b);
            self.mmu.write(0xC000 + i as u16, b);
            i = i + 1;
        }
    }
}

} // verus!
