//! The register file, status flags, and the instruction engine: fetch,
//! decode, operand resolution and execution of one instruction per `step`
//! call, with exact cycle accounting.
//!
//! The whole behavior of `step` is pinned down by the spec-level interpreter
//! `spec_step`, built from one small spec function per operation family.

use vstd::prelude::*;

use crate::nes::mmu::Mmu;
use crate::nes::mmu::spec_read;
use crate::nes::mmu::spec_read16;
use crate::nes::mmu::spec_pre_index_target;
use crate::nes::mmu::spec_post_index_target;
use crate::nes::mmu::spec_post_index_crossed;
use crate::nes::opcode::Op;
use crate::nes::opcode::Mode;
use crate::nes::opcode::Instr;
use crate::nes::opcode::spec_decode;
use crate::nes::opcode::decode;
use crate::nes::opcode::operand_len;
use crate::nes::opcode::abs_crossed;

verus! {

/// The six status flags. Carry is stored as an integer 0/1, not a boolean,
/// because several arithmetic operations consume it as an addend.
#[derive(Clone, Copy)]
pub struct CpuFlags {
    pub negative: bool,
    pub overflow: bool,
    pub decimal: bool,
    pub interrupt_disable: bool,
    pub zero: bool,
    pub carry: u8,
}

impl CpuFlags {
    /// Well-formed when carry holds only the values 0 or 1.
    pub open spec fn wf(&self) -> bool {
        self.carry <= 1
    }

    /// Reset every flag to its cleared state.
    pub fn clear(&mut self)
        ensures
            *final(self) == (CpuFlags {
                negative: false,
                overflow: false,
                decimal: false,
                interrupt_disable: false,
                zero: false,
                carry: 0u8,
            }),
    {
        self.negative = false;
        self.overflow = false;
        self.decimal = false;
        self.interrupt_disable = false;
        self.zero = false;
        self.carry = 0;
    }
}

/// The register file: accumulator, two index registers, program counter and
/// stack pointer. The stack pointer is an 8-bit offset into the fixed
/// one-page stack region at 0x0100-0x01FF, the historically accurate
/// convention, applied uniformly to push/pull and subroutine control flow.
#[derive(Clone, Copy)]
pub struct Cpu {
    pub a: u8,
    pub x: u8,
    pub y: u8,
    pub pc: u16,
    pub sp: u8,
    pub flags: CpuFlags,
}

/// Whether a byte's sign bit (bit 7) is set.
pub open spec fn sign(v: u8) -> bool {
    v >= 0x80
}

/// Negative and Zero recomputed from the most recent result byte: Zero holds
/// exactly of 0x00, Negative exactly when bit 7 of the result is set. All
/// other flags are left untouched.
pub open spec fn spec_zn(f: CpuFlags, r: u8) -> CpuFlags {
    CpuFlags { zero: r == 0, negative: sign(r), ..f }
}

/// Add-with-carry: a 9-bit intermediate of accumulator + operand + carry-in;
/// the new carry is the ninth bit, and overflow is the classic
/// two's-complement test: the operands agree in sign and the result does not.
pub open spec fn spec_adc(c: Cpu, operand: u8) -> Cpu {
    let sum = c.a + operand + c.flags.carry;
    let r = (sum % 0x100) as u8;
    Cpu {
        a: r,
        flags: CpuFlags {
            carry: if sum > 0xFF { 1u8 } else { 0u8 },
            overflow: sign(c.a) == sign(operand) && sign(r) != sign(c.a),
            ..spec_zn(c.flags, r)
        },
        ..c
    }
}

/// Subtract-with-carry: add-with-carry of the operand's one's complement, so
/// the same carry chain applies uniformly.
pub open spec fn spec_sbc(c: Cpu, operand: u8) -> Cpu {
    spec_adc(c, (0xFF - operand) as u8)
}

/// The compare family: carry set exactly when the register is at least the
/// operand, zero on equality, negative from bit 7 of the wrapped difference.
/// Nothing is stored.
pub open spec fn spec_compare(f: CpuFlags, reg: u8, operand: u8) -> CpuFlags {
    CpuFlags {
        carry: if reg >= operand { 1u8 } else { 0u8 },
        zero: reg == operand,
        negative: sign(reg.wrapping_sub(operand)),
        ..f
    }
}

/// What a value-consuming operation (arithmetic, logic, load, compare) makes
/// of the processor state given its operand byte.
pub open spec fn spec_value_op(op: Op, c: Cpu, v: u8) -> Cpu {
    match op {
        Op::Adc => spec_adc(c, v),
        Op::Sbc => spec_sbc(c, v),
        Op::And => Cpu { a: c.a & v, flags: spec_zn(c.flags, c.a & v), ..c },
        Op::Ora => Cpu { a: c.a | v, flags: spec_zn(c.flags, c.a | v), ..c },
        Op::Eor => Cpu { a: c.a ^ v, flags: spec_zn(c.flags, c.a ^ v), ..c },
        Op::Lda => Cpu { a: v, flags: spec_zn(c.flags, v), ..c },
        Op::Ldx => Cpu { x: v, flags: spec_zn(c.flags, v), ..c },
        Op::Ldy => Cpu { y: v, flags: spec_zn(c.flags, v), ..c },
        Op::Cmp => Cpu { flags: spec_compare(c.flags, c.a, v), ..c },
        Op::Cpx => Cpu { flags: spec_compare(c.flags, c.x, v), ..c },
        Op::Cpy => Cpu { flags: spec_compare(c.flags, c.y, v), ..c },
        _ => c,
    }
}

/// Which register byte a store operation writes to memory.
pub open spec fn spec_store_value(op: Op, c: Cpu) -> u8 {
    match op {
        Op::Stx => c.x,
        Op::Sty => c.y,
        _ => c.a,
    }
}

/// Arithmetic shift left: carry takes bit 7 shifted out, bit 0 is vacated.
pub open spec fn spec_asl(v: u8, f: CpuFlags) -> (u8, CpuFlags) {
    let r = ((v * 2) % 0x100) as u8;
    (r, CpuFlags { carry: (v / 0x80) as u8, ..spec_zn(f, r) })
}

/// Logical shift right: carry takes bit 0 shifted out, bit 7 is vacated.
pub open spec fn spec_lsr(v: u8, f: CpuFlags) -> (u8, CpuFlags) {
    let r = (v / 2) as u8;
    (r, CpuFlags { carry: (v % 2) as u8, ..spec_zn(f, r) })
}

/// Rotate left: like a shift left, but the previous carry fills bit 0.
pub open spec fn spec_rol(v: u8, f: CpuFlags) -> (u8, CpuFlags) {
    let r = ((v * 2) % 0x100 + f.carry) as u8;
    (r, CpuFlags { carry: (v / 0x80) as u8, ..spec_zn(f, r) })
}

/// Rotate right: like a shift right, but the previous carry fills bit 7.
pub open spec fn spec_ror(v: u8, f: CpuFlags) -> (u8, CpuFlags) {
    let r = (v / 2 + f.carry * 0x80) as u8;
    (r, CpuFlags { carry: (v % 2) as u8, ..spec_zn(f, r) })
}

/// What a read-modify-write operation makes of its operand byte.
pub open spec fn spec_rmw_value(op: Op, v: u8, f: CpuFlags) -> (u8, CpuFlags) {
    match op {
        Op::Asl => spec_asl(v, f),
        Op::Lsr => spec_lsr(v, f),
        Op::Rol => spec_rol(v, f),
        Op::Ror => spec_ror(v, f),
        Op::Inc => (v.wrapping_add(1), spec_zn(f, v.wrapping_add(1))),
        Op::Dec => (v.wrapping_sub(1), spec_zn(f, v.wrapping_sub(1))),
        _ => (v, f),
    }
}

/// What an implied-mode operation (register increment/decrement, transfer,
/// flag set/clear, no-operation) makes of the processor state. Transfers
/// update Negative and Zero from the destination value, except TXS, which by
/// hardware convention updates no flags.
pub open spec fn spec_implied(op: Op, c: Cpu) -> Cpu {
    match op {
        Op::Inx => Cpu { x: c.x.wrapping_add(1), flags: spec_zn(c.flags, c.x.wrapping_add(1)), ..c },
        Op::Iny => Cpu { y: c.y.wrapping_add(1), flags: spec_zn(c.flags, c.y.wrapping_add(1)), ..c },
        Op::Dex => Cpu { x: c.x.wrapping_sub(1), flags: spec_zn(c.flags, c.x.wrapping_sub(1)), ..c },
        Op::Dey => Cpu { y: c.y.wrapping_sub(1), flags: spec_zn(c.flags, c.y.wrapping_sub(1)), ..c },
        Op::Tax => Cpu { x: c.a, flags: spec_zn(c.flags, c.a), ..c },
        Op::Tay => Cpu { y: c.a, flags: spec_zn(c.flags, c.a), ..c },
        Op::Tsx => Cpu { x: c.sp, flags: spec_zn(c.flags, c.sp), ..c },
        Op::Txa => Cpu { a: c.x, flags: spec_zn(c.flags, c.x), ..c },
        Op::Tya => Cpu { a: c.y, flags: spec_zn(c.flags, c.y), ..c },
        Op::Txs => Cpu { sp: c.x, ..c },
        Op::Clc => Cpu { flags: CpuFlags { carry: 0u8, ..c.flags }, ..c },
        Op::Sec => Cpu { flags: CpuFlags { carry: 1u8, ..c.flags }, ..c },
        Op::Cld => Cpu { flags: CpuFlags { decimal: false, ..c.flags }, ..c },
        Op::Sed => Cpu { flags: CpuFlags { decimal: true, ..c.flags }, ..c },
        Op::Cli => Cpu { flags: CpuFlags { interrupt_disable: false, ..c.flags }, ..c },
        Op::Sei => Cpu { flags: CpuFlags { interrupt_disable: true, ..c.flags }, ..c },
        Op::Clv => Cpu { flags: CpuFlags { overflow: false, ..c.flags }, ..c },
        _ => c,
    }
}

/// The packed flags byte: Negative in bit 7, Overflow in bit 6, the two
/// hardware-convention "unused" bits 5 and 4 always set, Decimal in bit 3,
/// InterruptDisable in bit 2, Zero in bit 1, Carry in bit 0.
pub open spec fn spec_pack_flags(f: CpuFlags) -> u8 {
    ((if f.negative { 0x80int } else { 0int })
        + (if f.overflow { 0x40int } else { 0int })
        + 0x30
        + (if f.decimal { 0x08int } else { 0int })
        + (if f.interrupt_disable { 0x04int } else { 0int })
        + (if f.zero { 0x02int } else { 0int })
        + f.carry) as u8
}

/// The flag set a packed byte unpacks to; the two "unused" bits are ignored.
pub open spec fn spec_unpack_flags(s: u8) -> CpuFlags {
    CpuFlags {
        negative: s / 0x80 % 2 == 1,
        overflow: s / 0x40 % 2 == 1,
        decimal: s / 0x08 % 2 == 1,
        interrupt_disable: s / 0x04 % 2 == 1,
        zero: s / 0x02 % 2 == 1,
        carry: (s % 2) as u8,
    }
}

/// The cell in the fixed one-page stack region a stack pointer addresses.
pub open spec fn stack_addr(sp: u8) -> u16 {
    (0x100 + sp) as u16
}

/// The branch destination: the operand, a signed 8-bit offset, added to the
/// address of the next instruction (the PC after the offset byte has been
/// consumed), modulo 65536.
pub open spec fn spec_branch_target(base: u16, offset: u8) -> u16 {
    if offset < 0x80 {
        base.wrapping_add(offset as u16)
    } else {
        base.wrapping_add(offset as u16).wrapping_sub(0x100)
    }
}

/// Whether a branch with the given flags is taken.
pub open spec fn spec_branch_taken(op: Op, f: CpuFlags) -> bool {
    match op {
        Op::Bcc => f.carry == 0,
        Op::Bcs => f.carry == 1,
        Op::Beq => f.zero,
        Op::Bne => !f.zero,
        Op::Bmi => f.negative,
        Op::Bpl => !f.negative,
        Op::Bvs => f.overflow,
        Op::Bvc => !f.overflow,
        _ => false,
    }
}

/// A branch instruction, starting from the state where the PC still points
/// at the offset byte: base cost 2, one more if taken, one more again if the
/// destination lies on a different page than the next instruction.
pub open spec fn spec_branch(c: Cpu, mem: Seq<u8>, taken: bool) -> (Cpu, Seq<u8>, u32) {
    let offset = spec_read(mem, c.pc);
    let next = c.pc.wrapping_add(1);
    if taken {
        let dest = spec_branch_target(next, offset);
        (
            Cpu { pc: dest, ..c },
            mem,
            if dest / 0x100 == next / 0x100 {
                3u32
            } else {
                4u32
            },
        )
    } else {
        (Cpu { pc: next, ..c }, mem, 2u32)
    }
}

/// The resolved operand address and page-cross flag for an address-producing
/// addressing mode; modes that produce no address resolve to zero.
pub open spec fn spec_operand_addr(mode: Mode, c: Cpu, mem: Seq<u8>) -> (u16, bool) {
    match mode {
        Mode::ZeroPage => (spec_read(mem, c.pc) as u16, false),
        Mode::ZeroPageX => (spec_read(mem, c.pc).wrapping_add(c.x) as u16, false),
        Mode::ZeroPageY => (spec_read(mem, c.pc).wrapping_add(c.y) as u16, false),
        Mode::Absolute => (spec_read16(mem, c.pc), false),
        Mode::AbsoluteX => {
            let base = spec_read16(mem, c.pc);
            (base.wrapping_add(c.x as u16), abs_crossed(base, c.x))
        },
        Mode::AbsoluteY => {
            let base = spec_read16(mem, c.pc);
            (base.wrapping_add(c.y as u16), abs_crossed(base, c.y))
        },
        Mode::IndirectX => (spec_pre_index_target(mem, spec_read(mem, c.pc), c.x), false),
        Mode::IndirectY => (
            spec_post_index_target(mem, spec_read(mem, c.pc), c.y),
            spec_post_index_crossed(mem, spec_read(mem, c.pc), c.y),
        ),
        _ => (0u16, false),
    }
}

/// The operand value and page-cross flag for a value-producing addressing
/// mode.
pub open spec fn spec_operand(mode: Mode, c: Cpu, mem: Seq<u8>) -> (u8, bool) {
    match mode {
        Mode::Immediate => (spec_read(mem, c.pc), false),
        Mode::Accumulator => (c.a, false),
        _ => {
            let (addr, crossed) = spec_operand_addr(mode, c, mem);
            (spec_read(mem, addr), crossed)
        },
    }
}

/// Advance the PC past the operand bytes of a mode.
pub open spec fn advance(c: Cpu, mode: Mode) -> Cpu {
    Cpu { pc: c.pc.wrapping_add(operand_len(mode)), ..c }
}

/// The cycle cost of a non-branch instruction: the base cost, plus one where
/// the instruction is page-penalty eligible and the access crossed a page.
pub open spec fn spec_cycles(i: Instr, crossed: bool) -> u32 {
    (i.base_cycles + if i.page_penalty && crossed {
        1int
    } else {
        0int
    }) as u32
}

/// Whether a mode is the accumulator mode.
pub open spec fn is_accumulator(mode: Mode) -> bool {
    match mode {
        Mode::Accumulator => true,
        _ => false,
    }
}

/// Whether a mode is the indirect (pointer-dereferencing jump) mode.
pub open spec fn is_indirect(mode: Mode) -> bool {
    match mode {
        Mode::Indirect => true,
        _ => false,
    }
}

/// A read-modify-write instruction: shifts, rotates and memory
/// increment/decrement, on the accumulator or on a memory operand, which is
/// written back to its resolved address. Fixed cost.
pub open spec fn spec_rmw(i: Instr, c: Cpu, mem: Seq<u8>) -> (Cpu, Seq<u8>, u32) {
    if is_accumulator(i.mode) {
        let (r, f) = spec_rmw_value(i.op, c.a, c.flags);
        (advance(Cpu { a: r, flags: f, ..c }, i.mode), mem, i.base_cycles)
    } else {
        let (addr, crossed) = spec_operand_addr(i.mode, c, mem);
        let (r, f) = spec_rmw_value(i.op, spec_read(mem, addr), c.flags);
        (advance(Cpu { flags: f, ..c }, i.mode), mem.update(addr as int, r), i.base_cycles)
    }
}

/// Execute a decoded instruction from the state `c` in which the PC has
/// already been advanced past the opcode byte. Yields the new processor
/// state, the new memory image, and the exact cycle cost.
pub open spec fn spec_exec(i: Instr, c: Cpu, mem: Seq<u8>) -> (Cpu, Seq<u8>, u32) {
    match i.op {
        Op::Adc | Op::Sbc | Op::And | Op::Ora | Op::Eor | Op::Lda | Op::Ldx | Op::Ldy | Op::Cmp
            | Op::Cpx | Op::Cpy => {
            let (v, crossed) = spec_operand(i.mode, c, mem);
            (advance(spec_value_op(i.op, c, v), i.mode), mem, spec_cycles(i, crossed))
        },
        Op::Sta | Op::Stx | Op::Sty => {
            let (addr, crossed) = spec_operand_addr(i.mode, c, mem);
            (
                advance(c, i.mode),
                mem.update(addr as int, spec_store_value(i.op, c)),
                spec_cycles(i, crossed),
            )
        },
        Op::Asl | Op::Lsr | Op::Rol | Op::Ror | Op::Inc | Op::Dec => spec_rmw(i, c, mem),
        Op::Jmp => {
            if is_indirect(i.mode) {
                (Cpu { pc: spec_read16(mem, spec_read16(mem, c.pc)), ..c }, mem, i.base_cycles)
            } else {
                (Cpu { pc: spec_read16(mem, c.pc), ..c }, mem, i.base_cycles)
            }
        },
        Op::Jsr => {
            let target = spec_read16(mem, c.pc);
            let ret = c.pc.wrapping_add(2);
            (
                Cpu { pc: target, sp: c.sp.wrapping_sub(2), ..c },
                mem.update(stack_addr(c.sp) as int, (ret / 0x100) as u8).update(
                    stack_addr(c.sp.wrapping_sub(1)) as int,
                    (ret % 0x100) as u8,
                ),
                i.base_cycles,
            )
        },
        Op::Rts => {
            let lo = spec_read(mem, stack_addr(c.sp.wrapping_add(1)));
            let hi = spec_read(mem, stack_addr(c.sp.wrapping_add(2)));
            (
                Cpu { pc: (hi * 0x100 + lo) as u16, sp: c.sp.wrapping_add(2), ..c },
                mem,
                i.base_cycles,
            )
        },
        Op::Pha => (
            Cpu { sp: c.sp.wrapping_sub(1), ..c },
            mem.update(stack_addr(c.sp) as int, c.a),
            i.base_cycles,
        ),
        Op::Php => (
            Cpu { sp: c.sp.wrapping_sub(1), ..c },
            mem.update(stack_addr(c.sp) as int, spec_pack_flags(c.flags)),
            i.base_cycles,
        ),
        Op::Pla => {
            let v = spec_read(mem, stack_addr(c.sp.wrapping_add(1)));
            (
                Cpu { sp: c.sp.wrapping_add(1), a: v, flags: spec_zn(c.flags, v), ..c },
                mem,
                i.base_cycles,
            )
        },
        Op::Plp => {
            let v = spec_read(mem, stack_addr(c.sp.wrapping_add(1)));
            (
                Cpu { sp: c.sp.wrapping_add(1), flags: spec_unpack_flags(v), ..c },
                mem,
                i.base_cycles,
            )
        },
        Op::Bcc | Op::Bcs | Op::Beq | Op::Bmi | Op::Bne | Op::Bpl | Op::Bvc | Op::Bvs => {
            spec_branch(c, mem, spec_branch_taken(i.op, c.flags))
        },
        _ => (advance(spec_implied(i.op, c), i.mode), mem, i.base_cycles),
    }
}

/// One full instruction: fetch the opcode at the PC, advance the PC past it,
/// and execute per the dispatch table.
pub open spec fn spec_step(c: Cpu, mem: Seq<u8>) -> (Cpu, Seq<u8>, u32) {
    let i = spec_decode(spec_read(mem, c.pc));
    spec_exec(i, Cpu { pc: c.pc.wrapping_add(1), ..c }, mem)
}

impl Cpu {
    /// Well-formed when the flags are.
    pub open spec fn wf(&self) -> bool {
        self.flags.wf()
    }

    /// Advance the program counter, wrapping modulo 65536.
    pub fn step_pc(&mut self, amount: u16)
        ensures
            *final(self) == (Cpu { pc: old(self).pc.wrapping_add(amount), ..*old(self) }),
    {
        self.pc = self.pc.wrapping_add(amount);
    }

    /// Recompute Negative and Zero from a result byte.
    fn set_zn(&mut self, r: u8)
        ensures
            *final(self) == (Cpu { flags: spec_zn(old(self).flags, r), ..*old(self) }),
    {
        self.flags.zero = r == 0;
        self.flags.negative = r >= 0x80;
    }

    /// Add the operand and the carry into the accumulator.
    fn adc_value(&mut self, operand: u8)
        ensures
            *final(self) == spec_adc(*old(self), operand),
    {
        let sum: u16 = self.a as u16 + operand as u16 + self.flags.carry as u16;
        let r: u8 = (sum % 0x100) as u8;
        self.flags.carry = if sum > 0xFF {
            1
        } else {
            0
        };
        self.flags.overflow = (self.a >= 0x80) == (operand >= 0x80) && (r >= 0x80) != (self.a
            >= 0x80);
        self.a = r;
        self.flags.zero = r == 0;
        self.flags.negative = r >= 0x80;
    }

    /// Set the flags of a compare of `reg` against the operand.
    fn compare_with(&mut self, reg: u8, operand: u8)
        ensures
            *final(self) == (Cpu { flags: spec_compare(old(self).flags, reg, operand), ..*old(self) }),
    {
        let r: u8 = reg.wrapping_sub(operand);
        self.flags.carry = if reg >= operand {
            1
        } else {
            0
        };
        self.flags.zero = reg == operand;
        self.flags.negative = r >= 0x80;
    }

    /// Apply a value-consuming operation to the registers and flags.
    fn apply_value(&mut self, op: Op, v: u8)
        requires
            old(self).wf(),
        ensures
            *final(self) == spec_value_op(op, *old(self), v),
            final(self).wf(),
    {
        match op {
            Op::Adc => self.adc_value(v),
            Op::Sbc => self.adc_value(0xFF - v),
            Op::And => {
                let r: u8 = self.a & v;
                self.a = r;
                self.set_zn(r);
            },
            Op::Ora => {
                let r: u8 = self.a | v;
                self.a = r;
                self.set_zn(r);
            },
            Op::Eor => {
                let r: u8 = self.a ^ v;
                self.a = r;
                self.set_zn(r);
            },
            Op::Lda => {
                self.a = v;
                self.set_zn(v);
            },
            Op::Ldx => {
                self.x = v;
                self.set_zn(v);
            },
            Op::Ldy => {
                self.y = v;
                self.set_zn(v);
            },
            Op::Cmp => {
                let reg: u8 = self.a;
                self.compare_with(reg, v);
            },
            Op::Cpx => {
                let reg: u8 = self.x;
                self.compare_with(reg, v);
            },
            Op::Cpy => {
                let reg: u8 = self.y;
                self.compare_with(reg, v);
            },
            _ => {},
        }
    }

    /// The register byte a store operation writes.
    fn store_reg(&self, op: Op) -> (r: u8)
        ensures
            r == spec_store_value(op, *self),
    {
        match op {
            Op::Stx => self.x,
            Op::Sty => self.y,
            _ => self.a,
        }
    }

    /// Apply an implied-mode operation to the registers and flags.
    fn apply_implied(&mut self, op: Op)
        requires
            old(self).wf(),
        ensures
            *final(self) == spec_implied(op, *old(self)),
            final(self).wf(),
    {
        match op {
            Op::Inx => {
                let r: u8 = self.x.wrapping_add(1);
                self.x = r;
                self.set_zn(r);
            },
            Op::Iny => {
                let r: u8 = self.y.wrapping_add(1);
                self.y = r;
                self.set_zn(r);
            },
            Op::Dex => {
                let r: u8 = self.x.wrapping_sub(1);
                self.x = r;
                self.set_zn(r);
            },
            Op::Dey => {
                let r: u8 = self.y.wrapping_sub(1);
                self.y = r;
                self.set_zn(r);
            },
            Op::Tax => {
                let r: u8 = self.a;
                self.x = r;
                self.set_zn(r);
            },
            Op::Tay => {
                let r: u8 = self.a;
                self.y = r;
                self.set_zn(r);
            },
            Op::Tsx => {
                let r: u8 = self.sp;
                self.x = r;
                self.set_zn(r);
            },
            Op::Txa => {
                let r: u8 = self.x;
                self.a = r;
                self.set_zn(r);
            },
            Op::Tya => {
                let r: u8 = self.y;
                self.a = r;
                self.set_zn(r);
            },
            Op::Txs => {
                self.sp = self.x;
            },
            Op::Clc => {
                self.flags.carry = 0;
            },
            Op::Sec => {
                self.flags.carry = 1;
            },
            Op::Cld => {
                self.flags.decimal = false;
            },
            Op::Sed => {
                self.flags.decimal = true;
            },
            Op::Cli => {
                self.flags.interrupt_disable = false;
            },
            Op::Sei => {
                self.flags.interrupt_disable = true;
            },
            Op::Clv => {
                self.flags.overflow = false;
            },
            _ => {},
        }
    }

    /// Pack the flags into the single status byte used by the stack.
    fn pack_flags(&self) -> (s: u8)
        requires
            self.wf(),
        ensures
            s == spec_pack_flags(self.flags),
    {
        (if self.flags.negative {
            0x80u8
        } else {
            0u8
        }) + (if self.flags.overflow {
            0x40u8
        } else {
            0u8
        }) + 0x30u8 + (if self.flags.decimal {
            0x08u8
        } else {
            0u8
        }) + (if self.flags.interrupt_disable {
            0x04u8
        } else {
            0u8
        }) + (if self.flags.zero {
            0x02u8
        } else {
            0u8
        }) + self.flags.carry
    }

    /// Restore the flags from a packed status byte.
    fn unpack_flags(&mut self, s: u8)
        ensures
            *final(self) == (Cpu { flags: spec_unpack_flags(s), ..*old(self) }),
            final(self).wf(),
    {
        self.flags.negative = s / 0x80 % 2 == 1;
        self.flags.overflow = s / 0x40 % 2 == 1;
        self.flags.decimal = s / 0x08 % 2 == 1;
        self.flags.interrupt_disable = s / 0x04 % 2 == 1;
        self.flags.zero = s / 0x02 % 2 == 1;
        self.flags.carry = s % 2;
    }

    /// Push a byte: write to the stack-pointer-addressed cell of the stack
    /// page, then decrement the stack pointer.
    fn push(&mut self, memory: &mut Mmu, value: u8)
        requires
            old(memory).wf(),
        ensures
            final(memory).wf(),
            final(memory)@ == old(memory)@.update(stack_addr(old(self).sp) as int, value),
            *final(self) == (Cpu { sp: old(self).sp.wrapping_sub(1), ..*old(self) }),
    {
        memory.write(0x100 + self.sp as u16, value);
        self.sp = self.sp.wrapping_sub(1);
    }

    /// Pull a byte: increment the stack pointer, then read the cell it
    /// addresses.
    fn pull(&mut self, memory: &Mmu) -> (value: u8)
        requires
            memory.wf(),
        ensures
            value == spec_read(memory@, stack_addr(old(self).sp.wrapping_add(1))),
            *final(self) == (Cpu { sp: old(self).sp.wrapping_add(1), ..*old(self) }),
    {
        self.sp = self.sp.wrapping_add(1);
        memory.read(0x100 + self.sp as u16)
    }

    /// Resolve an address-producing mode to `(address, page_crossed)` with
    /// the PC pointing at the first operand byte.
    fn operand_addr(&self, mode: Mode, memory: &Mmu) -> (r: (u16, bool))
        requires
            memory.wf(),
        ensures
            r == spec_operand_addr(mode, *self, memory@),
    {
        match mode {
            Mode::ZeroPage => (memory.read(self.pc) as u16, false),
            Mode::ZeroPageX => (memory.read(self.pc).wrapping_add(self.x) as u16, false),
            Mode::ZeroPageY => (memory.read(self.pc).wrapping_add(self.y) as u16, false),
            Mode::Absolute => (memory.read_u16(self.pc), false),
            Mode::AbsoluteX => {
                let base: u16 = memory.read_u16(self.pc);
                (base.wrapping_add(self.x as u16), base % 0x100 + self.x as u16 > 0xFF)
            },
            Mode::AbsoluteY => {
                let base: u16 = memory.read_u16(self.pc);
                (base.wrapping_add(self.y as u16), base % 0x100 + self.y as u16 > 0xFF)
            },
            Mode::IndirectX => {
                let zp: u8 = memory.read(self.pc);
                (memory.read_u16(zp.wrapping_add(self.x) as u16), false)
            },
            Mode::IndirectY => {
                let zp: u8 = memory.read(self.pc);
                let pointer: u16 = memory.read_u16(zp as u16);
                (pointer.wrapping_add(self.y as u16), pointer % 0x100 + self.y as u16 > 0xFF)
            },
            _ => (0u16, false),
        }
    }

    /// Resolve a value-producing mode to `(operand, page_crossed)`.
    fn operand(&self, mode: Mode, memory: &Mmu) -> (r: (u8, bool))
        requires
            memory.wf(),
        ensures
            r == spec_operand(mode, *self, memory@),
    {
        match mode {
            Mode::Immediate => (memory.read(self.pc), false),
            Mode::Accumulator => (self.a, false),
            _ => {
                let (addr, crossed) = self.operand_addr(mode, memory);
                (memory.read(addr), crossed)
            },
        }
    }

    /// Take (or skip) a branch whose offset byte the PC points at.
    fn branch(&mut self, memory: &Mmu, taken: bool) -> (cycles: u32)
        requires
            memory.wf(),
        ensures
            *final(self) == spec_branch(*old(self), memory@, taken).0,
            cycles == spec_branch(*old(self), memory@, taken).2,
    {
        let offset: u8 = memory.read(self.pc);
        let next: u16 = self.pc.wrapping_add(1);
        if taken {
            let dest: u16 = if offset < 0x80 {
                next.wrapping_add(offset as u16)
            } else {
                next.wrapping_add(offset as u16).wrapping_sub(0x100)
            };
            self.pc = dest;
            if dest / 0x100 == next / 0x100 {
                3
            } else {
                4
            }
        } else {
            self.pc = next;
            2
        }
    }

    /// Fetch the opcode at the PC, decode it through the dispatch table,
    /// resolve its operand and execute it, returning the exact cycle cost
    /// including any page-cross or branch penalty. The complete effect on
    /// the registers, the flags and the bus is `spec_step` of the old state.
    #[verifier::rlimit(100)]
    pub fn step(&mut self, memory: &mut Mmu) -> (cycles: u32)
        requires
            old(self).wf(),
            old(memory).wf(),
        ensures
            final(self).wf(),
            final(memory).wf(),
            (*final(self), final(memory)@, cycles) == spec_step(*old(self), old(memory)@),
    {
        let opcode: u8 = memory.chomp(&mut self.pc);
        let instr: Instr = decode(opcode);
        proof {
            crate::nes::opcode::lemma_decode_cycle_bound(opcode);
        }
        match instr.op {
            Op::Adc | Op::Sbc | Op::And | Op::Ora | Op::Eor | Op::Lda | Op::Ldx | Op::Ldy
                | Op::Cmp | Op::Cpx | Op::Cpy => {
                let (v, crossed) = self.operand(instr.mode, memory);
                self.apply_value(instr.op, v);
                self.step_pc(mode_len(instr.mode));
                cycles_of(instr, crossed)
            },
            Op::Sta | Op::Stx | Op::Sty => {
                let (addr, crossed) = self.operand_addr(instr.mode, memory);
                let value: u8 = self.store_reg(instr.op);
                memory.write(addr, value);
                self.step_pc(mode_len(instr.mode));
                cycles_of(instr, crossed)
            },
            Op::Asl | Op::Lsr | Op::Rol | Op::Ror | Op::Inc | Op::Dec => {
                match instr.mode {
                    Mode::Accumulator => {
                        let (r, f) = rmw_apply(instr.op, self.a, self.flags);
                        self.a = r;
                        self.flags = f;
                        self.step_pc(mode_len(instr.mode));
                        instr.base_cycles
                    },
                    _ => {
                        let (addr, _) = self.operand_addr(instr.mode, memory);
                        let v: u8 = memory.read(addr);
                        let (r, f) = rmw_apply(instr.op, v, self.flags);
                        memory.write(addr, r);
                        self.flags = f;
                        self.step_pc(mode_len(instr.mode));
                        instr.base_cycles
                    },
                }
            },
            Op::Jmp => {
                match instr.mode {
                    Mode::Indirect => {
                        let pointer: u16 = memory.read_u16(self.pc);
                        let target: u16 = memory.read_u16(pointer);
                        self.pc = target;
                    },
                    _ => {
                        let target: u16 = memory.read_u16(self.pc);
                        self.pc = target;
                    },
                }
                instr.base_cycles
            },
            Op::Jsr => {
                let target: u16 = memory.read_u16(self.pc);
                let ret: u16 = self.pc.wrapping_add(2);
                self.push(memory, (ret / 0x100) as u8);
                self.push(memory, (ret % 0x100) as u8);
                self.pc = target;
                instr.base_cycles
            },
            Op::Rts => {
                let lo: u8 = self.pull(memory);
                let hi: u8 = self.pull(memory);
                self.pc = (hi as u16) * 0x100 + lo as u16;
                instr.base_cycles
            },
            Op::Pha => {
                let value: u8 = self.a;
                self.push(memory, value);
                instr.base_cycles
            },
            Op::Php => {
                let value: u8 = self.pack_flags();
                self.push(memory, value);
                instr.base_cycles
            },
            Op::Pla => {
                let v: u8 = self.pull(memory);
                self.a = v;
                self.set_zn(v);
                instr.base_cycles
            },
            Op::Plp => {
                let v: u8 = self.pull(memory);
                self.unpack_flags(v);
                instr.base_cycles
            },
            Op::Bcc | Op::Bcs | Op::Beq | Op::Bmi | Op::Bne | Op::Bpl | Op::Bvc | Op::Bvs => {
                let taken: bool = branch_taken(instr.op, &self.flags);
                self.branch(memory, taken)
            },
            _ => {
                self.apply_implied(instr.op);
                self.step_pc(mode_len(instr.mode));
                instr.base_cycles
            },
        }
    }
}

/// Whether a branch with the given flags is taken.
fn branch_taken(op: Op, f: &CpuFlags) -> (r: bool)
    ensures
        r == spec_branch_taken(op, *f),
{
    match op {
        Op::Bcc => f.carry == 0,
        Op::Bcs => f.carry == 1,
        Op::Beq => f.zero,
        Op::Bne => !f.zero,
        Op::Bmi => f.negative,
        Op::Bpl => !f.negative,
        Op::Bvs => f.overflow,
        Op::Bvc => !f.overflow,
        _ => false,
    }
}

/// How many bytes of operand a mode consumes.
fn mode_len(mode: Mode) -> (r: u16)
    ensures
        r == operand_len(mode),
{
    match mode {
        Mode::Implied => 0,
        Mode::Accumulator => 0,
        Mode::Immediate => 1,
        Mode::ZeroPage => 1,
        Mode::ZeroPageX => 1,
        Mode::ZeroPageY => 1,
        Mode::Absolute => 2,
        Mode::AbsoluteX => 2,
        Mode::AbsoluteY => 2,
        Mode::Indirect => 2,
        Mode::IndirectX => 1,
        Mode::IndirectY => 1,
        Mode::Relative => 1,
    }
}

/// The cycle cost of a table entry with any page-cross penalty applied.
fn cycles_of(i: Instr, crossed: bool) -> (r: u32)
    requires
        i.base_cycles <= 7,
    ensures
        r == spec_cycles(i, crossed),
{
    if i.page_penalty && crossed {
        i.base_cycles + 1
    } else {
        i.base_cycles
    }
}

/// Every instruction, recognized or not, consumes between 2 and 8 cycles:
/// the dispatch table's base costs lie between 2 and 7, and at most one
/// penalty cycle is ever added.
pub proof fn lemma_step_cycles(c: Cpu, mem: Seq<u8>)
    ensures
        2 <= spec_step(c, mem).2 <= 8,
{
    crate::nes::opcode::lemma_decode_cycle_bound(spec_read(mem, c.pc));
}

/// Apply a read-modify-write operation to one byte.
fn rmw_apply(op: Op, v: u8, f: CpuFlags) -> (r: (u8, CpuFlags))
    requires
        f.wf(),
    ensures
        r == spec_rmw_value(op, v, f),
        r.1.wf(),
{
    match op {
        Op::Asl => {
            let res: u8 = ((v as u16 * 2) % 0x100) as u8;
            (res, CpuFlags { carry: v / 0x80, zero: res == 0, negative: res >= 0x80, ..f })
        },
        Op::Lsr => {
            let res: u8 = v / 2;
            (res, CpuFlags { carry: v % 2, zero: res == 0, negative: res >= 0x80, ..f })
        },
        Op::Rol => {
            let res: u8 = ((v as u16 * 2) % 0x100) as u8 + f.carry;
            (res, CpuFlags { carry: v / 0x80, zero: res == 0, negative: res >= 0x80, ..f })
        },
        Op::Ror => {
            let res: u8 = v / 2 + f.carry * 0x80;
            (res, CpuFlags { carry: v % 2, zero: res == 0, negative: res >= 0x80, ..f })
        },
        Op::Inc => {
            let res: u8 = v.wrapping_add(1);
            (res, CpuFlags { zero: res == 0, negative: res >= 0x80, ..f })
        },
        Op::Dec => {
            let res: u8 = v.wrapping_sub(1);
            (res, CpuFlags { zero: res == 0, negative: res >= 0x80, ..f })
        },
        _ => (v, f),
    }
}

} // verus!
