//! Laws of the instruction engine: properties that hold of every input, each
//! proved against the spec-level interpreter that `Cpu::step` is verified to
//! implement.

use vstd::prelude::*;

use crate::nes::cpu::Cpu;
use crate::nes::cpu::CpuFlags;
use crate::nes::cpu::spec_step;
use crate::nes::cpu::spec_adc;
use crate::nes::cpu::spec_sbc;
use crate::nes::cpu::spec_zn;
use crate::nes::cpu::spec_compare;
use crate::nes::cpu::spec_cycles;
use crate::nes::cpu::spec_branch_target;
use crate::nes::cpu::spec_pack_flags;
use crate::nes::cpu::spec_unpack_flags;
use crate::nes::cpu::stack_addr;
use crate::nes::mmu::spec_read;
use crate::nes::mmu::spec_read16;
use crate::nes::opcode::Instr;
use crate::nes::opcode::spec_decode;
use crate::nes::opcode::operand_len;
use crate::nes::opcode::is_control;
use crate::nes::opcode::abs_crossed;

verus! {

/// For every opcode value, one step advances the PC by exactly one plus the
/// operand length of the opcode's addressing mode — except for the jump,
/// call, return and branch operations, which set the PC explicitly.
#[verifier::rlimit(100)]
pub proof fn lemma_pc_advance(c: Cpu, mem: Seq<u8>)
    requires
        !is_control(spec_decode(spec_read(mem, c.pc)).op),
    ensures
        spec_step(c, mem).0.pc == c.pc.wrapping_add(
            (1 + operand_len(spec_decode(spec_read(mem, c.pc)).mode)) as u16,
        ),
{
}

/// Add/subtract-with-carry complement identity: adding an operand and then
/// subtracting the same operand, with the carry the addition produced,
/// restores the accumulator exactly — whenever that carry-out differs from
/// the carry-in of the addition. (When the two coincide, the chained pair
/// instead moves the accumulator by one, so those inputs are left out.)
pub proof fn lemma_adc_sbc_roundtrip(c: Cpu, operand: u8)
    requires
        c.flags.wf(),
        spec_adc(c, operand).flags.carry != c.flags.carry,
    ensures
        spec_sbc(spec_adc(c, operand), operand).a == c.a,
{
}

/// Flag determinism: whatever operation produced a result byte, the byte
/// drives the flags the same way — Zero holds exactly of 0x00, Negative
/// exactly when bit 7 of the result is set, and the remaining flags are
/// untouched.
pub proof fn lemma_flag_determinism(f: CpuFlags, r: u8)
    ensures
        spec_zn(f, r).zero <==> r == 0,
        spec_zn(f, r).negative <==> r & 0x80 != 0,
        spec_zn(f, r).carry == f.carry,
        spec_zn(f, r).overflow == f.overflow,
        spec_zn(f, r).decimal == f.decimal,
        spec_zn(f, r).interrupt_disable == f.interrupt_disable,
{
    assert(r >= 0x80 <==> r & 0x80 != 0) by (bit_vector);
}

/// The compare family obeys the same flag rules, applied to the difference
/// it computes and discards: Zero exactly when the wrapped difference is
/// 0x00, Negative exactly from its bit 7, and Carry exactly when the
/// register is at least the operand.
pub proof fn lemma_compare_flags(f: CpuFlags, reg: u8, operand: u8)
    ensures
        spec_compare(f, reg, operand).zero <==> reg.wrapping_sub(operand) == 0,
        spec_compare(f, reg, operand).negative <==> reg.wrapping_sub(operand) & 0x80 != 0,
        spec_compare(f, reg, operand).carry == 1 <==> reg >= operand,
        spec_compare(f, reg, operand).overflow == f.overflow,
        spec_compare(f, reg, operand).decimal == f.decimal,
        spec_compare(f, reg, operand).interrupt_disable == f.interrupt_disable,
{
    let d = reg.wrapping_sub(operand);
    assert(d >= 0x80 <==> d & 0x80 != 0) by (bit_vector);
}

/// Page-boundary cycle accounting: the base address is masked to its low
/// byte before the index is added, so base 0x00FF with index 0x01 crosses a
/// page while base 0x0100 with the same index does not; a crossing adds
/// exactly one cycle to a penalty-eligible instruction.
pub proof fn lemma_page_cross_penalty(i: Instr)
    requires
        i.page_penalty,
        i.base_cycles <= 7,
    ensures
        abs_crossed(0x00FF, 0x01),
        !abs_crossed(0x0100, 0x01),
        spec_cycles(i, true) == spec_cycles(i, false) + 1,
{
}

/// Stack discipline: a call instruction whose target holds a return
/// instruction — with the two stack cells the call uses holding neither —
/// leaves the PC at the instruction following the call and the stack
/// pointer exactly where it started.
pub proof fn lemma_jsr_rts(c: Cpu, mem: Seq<u8>)
    requires
        mem.len() == 0x10000,
        spec_read(mem, c.pc) == 0x20,
        spec_read(mem, spec_read16(mem, c.pc.wrapping_add(1))) == 0x60,
        spec_read16(mem, c.pc.wrapping_add(1)) != stack_addr(c.sp),
        spec_read16(mem, c.pc.wrapping_add(1)) != stack_addr(c.sp.wrapping_sub(1)),
    ensures
        spec_step(spec_step(c, mem).0, spec_step(c, mem).1).0.pc == c.pc.wrapping_add(3),
        spec_step(spec_step(c, mem).0, spec_step(c, mem).1).0.sp == c.sp,
{
    let target = spec_read16(mem, c.pc.wrapping_add(1));
    let ret = c.pc.wrapping_add(1).wrapping_add(2);
    let (c1, mem1, _) = spec_step(c, mem);
    assert(c1.pc == target);
    assert(c1.sp == c.sp.wrapping_sub(2));
    assert(stack_addr(c.sp) != stack_addr(c.sp.wrapping_sub(1)));
    assert(target as int != stack_addr(c.sp) as int);
    assert(target as int != stack_addr(c.sp.wrapping_sub(1)) as int);
    assert(stack_addr(c.sp) as int != stack_addr(c.sp.wrapping_sub(1)) as int);
    assert(spec_read(mem1, target) == 0x60);
    assert(c1.sp.wrapping_add(1) == c.sp.wrapping_sub(1));
    assert(c1.sp.wrapping_add(2) == c.sp);
    assert(spec_read(mem1, stack_addr(c.sp.wrapping_sub(1))) == (ret % 0x100) as u8);
    assert(spec_read(mem1, stack_addr(c.sp)) == (ret / 0x100) as u8);
    assert(ret / 0x100 * 0x100 + ret % 0x100 == ret);
    assert(ret == c.pc.wrapping_add(3));
}

/// A branch that is not taken leaves the PC just past the offset byte —
/// unaffected by the offset's value — and costs exactly the base two
/// cycles. Stated for the branch-on-zero opcode with the Zero flag clear.
pub proof fn lemma_branch_not_taken(c: Cpu, mem: Seq<u8>)
    requires
        spec_read(mem, c.pc) == 0xF0,
        !c.flags.zero,
    ensures
        spec_step(c, mem).0 == (Cpu { pc: c.pc.wrapping_add(2), ..c }),
        spec_step(c, mem).1 == mem,
        spec_step(c, mem).2 == 2,
{
}

/// A branch that is taken sets the PC to the signed offset added to the
/// address of the next instruction. Stated for the branch-on-zero opcode
/// with the Zero flag set.
pub proof fn lemma_branch_taken(c: Cpu, mem: Seq<u8>)
    requires
        spec_read(mem, c.pc) == 0xF0,
        c.flags.zero,
    ensures
        spec_step(c, mem).0.pc == spec_branch_target(
            c.pc.wrapping_add(2),
            spec_read(mem, c.pc.wrapping_add(1)),
        ),
{
}

/// Packing the six flags into the status byte and unpacking it restores the
/// flag set exactly.
pub proof fn lemma_flags_roundtrip(f: CpuFlags)
    requires
        f.wf(),
    ensures
        spec_unpack_flags(spec_pack_flags(f)) == f,
{
}

} // verus!
