//! The instruction descriptor table: one entry per opcode byte, giving the
//! operation, the addressing mode, the base cycle cost and whether the
//! instruction is eligible for the indexed-addressing page-cross penalty.
//! Unrecognized opcodes decode to a fixed-cost no-operation so execution
//! never aborts.

use vstd::prelude::*;

verus! {

/// The operation an opcode performs.
#[derive(Clone, Copy)]
pub enum Op {
    Adc,
    Sbc,
    And,
    Ora,
    Eor,
    Lda,
    Ldx,
    Ldy,
    Cmp,
    Cpx,
    Cpy,
    Sta,
    Stx,
    Sty,
    Asl,
    Lsr,
    Rol,
    Ror,
    Inc,
    Dec,
    Inx,
    Iny,
    Dex,
    Dey,
    Jmp,
    Jsr,
    Rts,
    Pha,
    Php,
    Pla,
    Plp,
    Bcc,
    Bcs,
    Beq,
    Bmi,
    Bne,
    Bpl,
    Bvc,
    Bvs,
    Clc,
    Cld,
    Cli,
    Clv,
    Sec,
    Sed,
    Sei,
    Tax,
    Tay,
    Tsx,
    Txa,
    Txs,
    Tya,
    Nop,
}

/// The rule by which an opcode's operand address is computed.
#[derive(Clone, Copy)]
pub enum Mode {
    Implied,
    Accumulator,
    Immediate,
    ZeroPage,
    ZeroPageX,
    ZeroPageY,
    Absolute,
    AbsoluteX,
    AbsoluteY,
    Indirect,
    IndirectX,
    IndirectY,
    Relative,
}

/// One entry of the dispatch table.
#[derive(Clone, Copy)]
pub struct Instr {
    pub op: Op,
    pub mode: Mode,
    pub base_cycles: u32,
    pub page_penalty: bool,
}

/// How many operand bytes follow the opcode for a given addressing mode.
pub open spec fn operand_len(mode: Mode) -> u16 {
    match mode {
        Mode::Implied => 0,
        Mode::Accumulator => 0,
        Mode::Immediate => 1,
        Mode::ZeroPage => 1,
        Mode::ZeroPageX => 1,
        Mode::ZeroPageY => 1,
        Mode::Absolute => 2,
        Mode::AbsoluteX => 2,
        Mode::AbsoluteY => 2,
        Mode::Indirect => 2,
        Mode::IndirectX => 1,
        Mode::IndirectY => 1,
        Mode::Relative => 1,
    }
}

/// Whether an operation sets the program counter explicitly (jumps, calls,
/// returns and branches) instead of advancing it past the operand bytes.
pub open spec fn is_control(op: Op) -> bool {
    match op {
        Op::Jmp => true,
        Op::Jsr => true,
        Op::Rts => true,
        Op::Bcc => true,
        Op::Bcs => true,
        Op::Beq => true,
        Op::Bmi => true,
        Op::Bne => true,
        Op::Bpl => true,
        Op::Bvc => true,
        Op::Bvs => true,
        _ => false,
    }
}

/// Whether adding `index` to `base` crosses a page boundary: the base
/// address is masked to its low byte before the index is added.
pub open spec fn abs_crossed(base: u16, index: u8) -> bool {
    base % 0x100 + index > 0xFF
}

/// A table entry.
pub open spec fn instr(op: Op, mode: Mode, base_cycles: u32, page_penalty: bool) -> Instr {
    Instr { op, mode, base_cycles, page_penalty }
}

/// The descriptor for each opcode byte.
pub open spec fn spec_decode(opcode: u8) -> Instr {
    match opcode {
        0x69u8 => instr(Op::Adc, Mode::Immediate, 2, false),
        0x65u8 => instr(Op::Adc, Mode::ZeroPage, 3, false),
        0x75u8 => instr(Op::Adc, Mode::ZeroPageX, 4, false),
        0x6Du8 => instr(Op::Adc, Mode::Absolute, 4, false),
        0x7Du8 => instr(Op::Adc, Mode::AbsoluteX, 4, true),
        0x79u8 => instr(Op::Adc, Mode::AbsoluteY, 4, true),
        0x61u8 => instr(Op::Adc, Mode::IndirectX, 6, false),
        0x71u8 => instr(Op::Adc, Mode::IndirectY, 5, true),
        0xE9u8 => instr(Op::Sbc, Mode::Immediate, 2, false),
        0xE5u8 => instr(Op::Sbc, Mode::ZeroPage, 3, false),
        0xF5u8 => instr(Op::Sbc, Mode::ZeroPageX, 4, false),
        0xEDu8 => instr(Op::Sbc, Mode::Absolute, 4, false),
        0xFDu8 => instr(Op::Sbc, Mode::AbsoluteX, 4, true),
        0xF9u8 => instr(Op::Sbc, Mode::AbsoluteY, 4, true),
        0xE1u8 => instr(Op::Sbc, Mode::IndirectX, 6, false),
        0xF1u8 => instr(Op::Sbc, Mode::IndirectY, 5, true),
        0x29u8 => instr(Op::And, Mode::Immediate, 2, false),
        0x25u8 => instr(Op::And, Mode::ZeroPage, 3, false),
        0x35u8 => instr(Op::And, Mode::ZeroPageX, 4, false),
        0x2Du8 => instr(Op::And, Mode::Absolute, 4, false),
        0x3Du8 => instr(Op::And, Mode::AbsoluteX, 4, true),
        0x39u8 => instr(Op::And, Mode::AbsoluteY, 4, true),
        0x21u8 => instr(Op::And, Mode::IndirectX, 6, false),
        0x31u8 => instr(Op::And, Mode::IndirectY, 5, true),
        0x09u8 => instr(Op::Ora, Mode::Immediate, 2, false),
        0x05u8 => instr(Op::Ora, Mode::ZeroPage, 3, false),
        0x15u8 => instr(Op::Ora, Mode::ZeroPageX, 4, false),
        0x0Du8 => instr(Op::Ora, Mode::Absolute, 4, false),
        0x1Du8 => instr(Op::Ora, Mode::AbsoluteX, 4, true),
        0x19u8 => instr(Op::Ora, Mode::AbsoluteY, 4, true),
        0x01u8 => instr(Op::Ora, Mode::IndirectX, 6, false),
        0x11u8 => instr(Op::Ora, Mode::IndirectY, 5, true),
        0x49u8 => instr(Op::Eor, Mode::Immediate, 2, false),
        0x45u8 => instr(Op::Eor, Mode::ZeroPage, 3, false),
        0x55u8 => instr(Op::Eor, Mode::ZeroPageX, 4, false),
        0x4Du8 => instr(Op::Eor, Mode::Absolute, 4, false),
        0x5Du8 => instr(Op::Eor, Mode::AbsoluteX, 4, true),
        0x59u8 => instr(Op::Eor, Mode::AbsoluteY, 4, true),
        0x41u8 => instr(Op::Eor, Mode::IndirectX, 6, false),
        0x51u8 => instr(Op::Eor, Mode::IndirectY, 5, true),
        0xA9u8 => instr(Op::Lda, Mode::Immediate, 2, false),
        0xA5u8 => instr(Op::Lda, Mode::ZeroPage, 3, false),
        0xB5u8 => instr(Op::Lda, Mode::ZeroPageX, 4, false),
        0xADu8 => instr(Op::Lda, Mode::Absolute, 4, false),
        0xBDu8 => instr(Op::Lda, Mode::AbsoluteX, 4, true),
        0xB9u8 => instr(Op::Lda, Mode::AbsoluteY, 4, true),
        0xA1u8 => instr(Op::Lda, Mode::IndirectX, 6, false),
        0xB1u8 => instr(Op::Lda, Mode::IndirectY, 5, true),
        0xA2u8 => instr(Op::Ldx, Mode::Immediate, 2, false),
        0xA6u8 => instr(Op::Ldx, Mode::ZeroPage, 3, false),
        0xB6u8 => instr(Op::Ldx, Mode::ZeroPageY, 4, false),
        0xAEu8 => instr(Op::Ldx, Mode::Absolute, 4, false),
        0xBEu8 => instr(Op::Ldx, Mode::AbsoluteY, 4, true),
        0xA0u8 => instr(Op::Ldy, Mode::Immediate, 2, false),
        0xA4u8 => instr(Op::Ldy, Mode::ZeroPage, 3, false),
        0xB4u8 => instr(Op::Ldy, Mode::ZeroPageX, 4, false),
        0xACu8 => instr(Op::Ldy, Mode::Absolute, 4, false),
        0xBCu8 => instr(Op::Ldy, Mode::AbsoluteX, 4, true),
        0xC9u8 => instr(Op::Cmp, Mode::Immediate, 2, false),
        0xC5u8 => instr(Op::Cmp, Mode::ZeroPage, 3, false),
        0xD5u8 => instr(Op::Cmp, Mode::ZeroPageX, 4, false),
        0xCDu8 => instr(Op::Cmp, Mode::Absolute, 4, false),
        0xDDu8 => instr(Op::Cmp, Mode::AbsoluteX, 4, true),
        0xD9u8 => instr(Op::Cmp, Mode::AbsoluteY, 4, true),
        0xC1u8 => instr(Op::Cmp, Mode::IndirectX, 6, false),
        0xD1u8 => instr(Op::Cmp, Mode::IndirectY, 5, true),
        0xE0u8 => instr(Op::Cpx, Mode::Immediate, 2, false),
        0xE4u8 => instr(Op::Cpx, Mode::ZeroPage, 3, false),
        0xECu8 => instr(Op::Cpx, Mode::Absolute, 4, false),
        0xC0u8 => instr(Op::Cpy, Mode::Immediate, 2, false),
        0xC4u8 => instr(Op::Cpy, Mode::ZeroPage, 3, false),
        0xCCu8 => instr(Op::Cpy, Mode::Absolute, 4, false),
        0x85u8 => instr(Op::Sta, Mode::ZeroPage, 3, false),
        0x95u8 => instr(Op::Sta, Mode::ZeroPageX, 4, false),
        0x8Du8 => instr(Op::Sta, Mode::Absolute, 4, false),
        0x9Du8 => instr(Op::Sta, Mode::AbsoluteX, 5, false),
        0x99u8 => instr(Op::Sta, Mode::AbsoluteY, 5, false),
        0x81u8 => instr(Op::Sta, Mode::IndirectX, 6, false),
        0x91u8 => instr(Op::Sta, Mode::IndirectY, 6, false),
        0x86u8 => instr(Op::Stx, Mode::ZeroPage, 3, false),
        0x96u8 => instr(Op::Stx, Mode::ZeroPageY, 4, false),
        0x8Eu8 => instr(Op::Stx, Mode::Absolute, 4, false),
        0x84u8 => instr(Op::Sty, Mode::ZeroPage, 3, false),
        0x94u8 => instr(Op::Sty, Mode::ZeroPageX, 4, false),
        0x8Cu8 => instr(Op::Sty, Mode::Absolute, 4, false),
        0x0Au8 => instr(Op::Asl, Mode::Accumulator, 2, false),
        0x06u8 => instr(Op::Asl, Mode::ZeroPage, 5, false),
        0x16u8 => instr(Op::Asl, Mode::ZeroPageX, 6, false),
        0x0Eu8 => instr(Op::Asl, Mode::Absolute, 6, false),
        0x1Eu8 => instr(Op::Asl, Mode::AbsoluteX, 7, false),
        0x4Au8 => instr(Op::Lsr, Mode::Accumulator, 2, false),
        0x46u8 => instr(Op::Lsr, Mode::ZeroPage, 5, false),
        0x56u8 => instr(Op::Lsr, Mode::ZeroPageX, 6, false),
        0x4Eu8 => instr(Op::Lsr, Mode::Absolute, 6, false),
        0x5Eu8 => instr(Op::Lsr, Mode::AbsoluteX, 7, false),
        0x2Au8 => instr(Op::Rol, Mode::Accumulator, 2, false),
        0x26u8 => instr(Op::Rol, Mode::ZeroPage, 5, false),
        0x36u8 => instr(Op::Rol, Mode::ZeroPageX, 6, false),
        0x2Eu8 => instr(Op::Rol, Mode::Absolute, 6, false),
        0x3Eu8 => instr(Op::Rol, Mode::AbsoluteX, 7, false),
        0x6Au8 => instr(Op::Ror, Mode::Accumulator, 2, false),
        0x66u8 => instr(Op::Ror, Mode::ZeroPage, 5, false),
        0x76u8 => instr(Op::Ror, Mode::ZeroPageX, 6, false),
        0x6Eu8 => instr(Op::Ror, Mode::Absolute, 6, false),
        0x7Eu8 => instr(Op::Ror, Mode::AbsoluteX, 7, false),
        0xE6u8 => instr(Op::Inc, Mode::ZeroPage, 5, false),
        0xF6u8 => instr(Op::Inc, Mode::ZeroPageX, 6, false),
        0xEEu8 => instr(Op::Inc, Mode::Absolute, 6, false),
        0xFEu8 => instr(Op::Inc, Mode::AbsoluteX, 7, false),
        0xC6u8 => instr(Op::Dec, Mode::ZeroPage, 5, false),
        0xD6u8 => instr(Op::Dec, Mode::ZeroPageX, 6, false),
        0xCEu8 => instr(Op::Dec, Mode::Absolute, 6, false),
        0xDEu8 => instr(Op::Dec, Mode::AbsoluteX, 7, false),
        0xE8u8 => instr(Op::Inx, Mode::Implied, 2, false),
        0xC8u8 => instr(Op::Iny, Mode::Implied, 2, false),
        0xCAu8 => instr(Op::Dex, Mode::Implied, 2, false),
        0x88u8 => instr(Op::Dey, Mode::Implied, 2, false),
        0x4Cu8 => instr(Op::Jmp, Mode::Absolute, 3, false),
        0x6Cu8 => instr(Op::Jmp, Mode::Indirect, 5, false),
        0x20u8 => instr(Op::Jsr, Mode::Absolute, 6, false),
        0x60u8 => instr(Op::Rts, Mode::Implied, 6, false),
        0x48u8 => instr(Op::Pha, Mode::Implied, 3, false),
        0x08u8 => instr(Op::Php, Mode::Implied, 3, false),
        0x68u8 => instr(Op::Pla, Mode::Implied, 4, false),
        0x28u8 => instr(Op::Plp, Mode::Implied, 4, false),
        0x90u8 => instr(Op::Bcc, Mode::Relative, 2, false),
        0xB0u8 => instr(Op::Bcs, Mode::Relative, 2, false),
        0xF0u8 => instr(Op::Beq, Mode::Relative, 2, false),
        0x30u8 => instr(Op::Bmi, Mode::Relative, 2, false),
        0xD0u8 => instr(Op::Bne, Mode::Relative, 2, false),
        0x10u8 => instr(Op::Bpl, Mode::Relative, 2, false),
        0x50u8 => instr(Op::Bvc, Mode::Relative, 2, false),
        0x70u8 => instr(Op::Bvs, Mode::Relative, 2, false),
        0x18u8 => instr(Op::Clc, Mode::Implied, 2, false),
        0xD8u8 => instr(Op::Cld, Mode::Implied, 2, false),
        0x58u8 => instr(Op::Cli, Mode::Implied, 2, false),
        0xB8u8 => instr(Op::Clv, Mode::Implied, 2, false),
        0x38u8 => instr(Op::Sec, Mode::Implied, 2, false),
        0xF8u8 => instr(Op::Sed, Mode::Implied, 2, false),
        0x78u8 => instr(Op::Sei, Mode::Implied, 2, false),
        0xAAu8 => instr(Op::Tax, Mode::Implied, 2, false),
        0xA8u8 => instr(Op::Tay, Mode::Implied, 2, false),
        0xBAu8 => instr(Op::Tsx, Mode::Implied, 2, false),
        0x8Au8 => instr(Op::Txa, Mode::Implied, 2, false),
        0x9Au8 => instr(Op::Txs, Mode::Implied, 2, false),
        0x98u8 => instr(Op::Tya, Mode::Implied, 2, false),
        0xEAu8 => instr(Op::Nop, Mode::Implied, 2, false),
        _ => instr(Op::Nop, Mode::Implied, 2, false),
    }
}

/// Every table entry's base cost lies between 2 and 7 cycles, and a
/// penalty-eligible entry costs at most 5 before the penalty.
pub proof fn lemma_decode_cycle_bound(opcode: u8)
    ensures
        2 <= spec_decode(opcode).base_cycles <= 7,
        spec_decode(opcode).page_penalty ==> spec_decode(opcode).base_cycles <= 5,
{
}

/// Build one descriptor.
fn make_instr(op: Op, mode: Mode, base_cycles: u32, page_penalty: bool) -> (r: Instr)
    ensures
        r == instr(op, mode, base_cycles, page_penalty),
{
    Instr { op, mode, base_cycles, page_penalty }
}

/// Look an opcode byte up in the dispatch table.
pub fn decode(opcode: u8) -> (r: Instr)
    ensures
        r == spec_decode(opcode),
{
    match opcode {
        0x69u8 => make_instr(Op::Adc, Mode::Immediate, 2, false),
        0x65u8 => make_instr(Op::Adc, Mode::ZeroPage, 3, false),
        0x75u8 => make_instr(Op::Adc, Mode::ZeroPageX, 4, false),
        0x6Du8 => make_instr(Op::Adc, Mode::Absolute, 4, false),
        0x7Du8 => make_instr(Op::Adc, Mode::AbsoluteX, 4, true),
        0x79u8 => make_instr(Op::Adc, Mode::AbsoluteY, 4, true),
        0x61u8 => make_instr(Op::Adc, Mode::IndirectX, 6, false),
        0x71u8 => make_instr(Op::Adc, Mode::IndirectY, 5, true),
        0xE9u8 => make_instr(Op::Sbc, Mode::Immediate, 2, false),
        0xE5u8 => make_instr(Op::Sbc, Mode::ZeroPage, 3, false),
        0xF5u8 => make_instr(Op::Sbc, Mode::ZeroPageX, 4, false),
        0xEDu8 => make_instr(Op::Sbc, Mode::Absolute, 4, false),
        0xFDu8 => make_instr(Op::Sbc, Mode::AbsoluteX, 4, true),
        0xF9u8 => make_instr(Op::Sbc, Mode::AbsoluteY, 4, true),
        0xE1u8 => make_instr(Op::Sbc, Mode::IndirectX, 6, false),
        0xF1u8 => make_instr(Op::Sbc, Mode::IndirectY, 5, true),
        0x29u8 => make_instr(Op::And, Mode::Immediate, 2, false),
        0x25u8 => make_instr(Op::And, Mode::ZeroPage, 3, false),
        0x35u8 => make_instr(Op::And, Mode::ZeroPageX, 4, false),
        0x2Du8 => make_instr(Op::And, Mode::Absolute, 4, false),
        0x3Du8 => make_instr(Op::And, Mode::AbsoluteX, 4, true),
        0x39u8 => make_instr(Op::And, Mode::AbsoluteY, 4, true),
        0x21u8 => make_instr(Op::And, Mode::IndirectX, 6, false),
        0x31u8 => make_instr(Op::And, Mode::IndirectY, 5, true),
        0x09u8 => make_instr(Op::Ora, Mode::Immediate, 2, false),
        0x05u8 => make_instr(Op::Ora, Mode::ZeroPage, 3, false),
        0x15u8 => make_instr(Op::Ora, Mode::ZeroPageX, 4, false),
        0x0Du8 => make_instr(Op::Ora, Mode::Absolute, 4, false),
        0x1Du8 => make_instr(Op::Ora, Mode::AbsoluteX, 4, true),
        0x19u8 => make_instr(Op::Ora, Mode::AbsoluteY, 4, true),
        0x01u8 => make_instr(Op::Ora, Mode::IndirectX, 6, false),
        0x11u8 => make_instr(Op::Ora, Mode::IndirectY, 5, true),
        0x49u8 => make_instr(Op::Eor, Mode::Immediate, 2, false),
        0x45u8 => make_instr(Op::Eor, Mode::ZeroPage, 3, false),
        0x55u8 => make_instr(Op::Eor, Mode::ZeroPageX, 4, false),
        0x4Du8 => make_instr(Op::Eor, Mode::Absolute, 4, false),
        0x5Du8 => make_instr(Op::Eor, Mode::AbsoluteX, 4, true),
        0x59u8 => make_instr(Op::Eor, Mode::AbsoluteY, 4, true),
        0x41u8 => make_instr(Op::Eor, Mode::IndirectX, 6, false),
        0x51u8 => make_instr(Op::Eor, Mode::IndirectY, 5, true),
        0xA9u8 => make_instr(Op::Lda, Mode::Immediate, 2, false),
        0xA5u8 => make_instr(Op::Lda, Mode::ZeroPage, 3, false),
        0xB5u8 => make_instr(Op::Lda, Mode::ZeroPageX, 4, false),
        0xADu8 => make_instr(Op::Lda, Mode::Absolute, 4, false),
        0xBDu8 => make_instr(Op::Lda, Mode::AbsoluteX, 4, true),
        0xB9u8 => make_instr(Op::Lda, Mode::AbsoluteY, 4, true),
        0xA1u8 => make_instr(Op::Lda, Mode::IndirectX, 6, false),
        0xB1u8 => make_instr(Op::Lda, Mode::IndirectY, 5, true),
        0xA2u8 => make_instr(Op::Ldx, Mode::Immediate, 2, false),
        0xA6u8 => make_instr(Op::Ldx, Mode::ZeroPage, 3, false),
        0xB6u8 => make_instr(Op::Ldx, Mode::ZeroPageY, 4, false),
        0xAEu8 => make_instr(Op::Ldx, Mode::Absolute, 4, false),
        0xBEu8 => make_instr(Op::Ldx, Mode::AbsoluteY, 4, true),
        0xA0u8 => make_instr(Op::Ldy, Mode::Immediate, 2, false),
        0xA4u8 => make_instr(Op::Ldy, Mode::ZeroPage, 3, false),
        0xB4u8 => make_instr(Op::Ldy, Mode::ZeroPageX, 4, false),
        0xACu8 => make_instr(Op::Ldy, Mode::Absolute, 4, false),
        0xBCu8 => make_instr(Op::Ldy, Mode::AbsoluteX, 4, true),
        0xC9u8 => make_instr(Op::Cmp, Mode::Immediate, 2, false),
        0xC5u8 => make_instr(Op::Cmp, Mode::ZeroPage, 3, false),
        0xD5u8 => make_instr(Op::Cmp, Mode::ZeroPageX, 4, false),
        0xCDu8 => make_instr(Op::Cmp, Mode::Absolute, 4, false),
        0xDDu8 => make_instr(Op::Cmp, Mode::AbsoluteX, 4, true),
        0xD9u8 => make_instr(Op::Cmp, Mode::AbsoluteY, 4, true),
        0xC1u8 => make_instr(Op::Cmp, Mode::IndirectX, 6, false),
        0xD1u8 => make_instr(Op::Cmp, Mode::IndirectY, 5, true),
        0xE0u8 => make_instr(Op::Cpx, Mode::Immediate, 2, false),
        0xE4u8 => make_instr(Op::Cpx, Mode::ZeroPage, 3, false),
        0xECu8 => make_instr(Op::Cpx, Mode::Absolute, 4, false),
        0xC0u8 => make_instr(Op::Cpy, Mode::Immediate, 2, false),
        0xC4u8 => make_instr(Op::Cpy, Mode::ZeroPage, 3, false),
        0xCCu8 => make_instr(Op::Cpy, Mode::Absolute, 4, false),
        0x85u8 => make_instr(Op::Sta, Mode::ZeroPage, 3, false),
        0x95u8 => make_instr(Op::Sta, Mode::ZeroPageX, 4, false),
        0x8Du8 => make_instr(Op::Sta, Mode::Absolute, 4, false),
        0x9Du8 => make_instr(Op::Sta, Mode::AbsoluteX, 5, false),
        0x99u8 => make_instr(Op::Sta, Mode::AbsoluteY, 5, false),
        0x81u8 => make_instr(Op::Sta, Mode::IndirectX, 6, false),
        0x91u8 => make_instr(Op::Sta, Mode::IndirectY, 6, false),
        0x86u8 => make_instr(Op::Stx, Mode::ZeroPage, 3, false),
        0x96u8 => make_instr(Op::Stx, Mode::ZeroPageY, 4, false),
        0x8Eu8 => make_instr(Op::Stx, Mode::Absolute, 4, false),
        0x84u8 => make_instr(Op::Sty, Mode::ZeroPage, 3, false),
        0x94u8 => make_instr(Op::Sty, Mode::ZeroPageX, 4, false),
        0x8Cu8 => make_instr(Op::Sty, Mode::Absolute, 4, false),
        0x0Au8 => make_instr(Op::Asl, Mode::Accumulator, 2, false),
        0x06u8 => make_instr(Op::Asl, Mode::ZeroPage, 5, false),
        0x16u8 => make_instr(Op::Asl, Mode::ZeroPageX, 6, false),
        0x0Eu8 => make_instr(Op::Asl, Mode::Absolute, 6, false),
        0x1Eu8 => make_instr(Op::Asl, Mode::AbsoluteX, 7, false),
        0x4Au8 => make_instr(Op::Lsr, Mode::Accumulator, 2, false),
        0x46u8 => make_instr(Op::Lsr, Mode::ZeroPage, 5, false),
        0x56u8 => make_instr(Op::Lsr, Mode::ZeroPageX, 6, false),
        0x4Eu8 => make_instr(Op::Lsr, Mode::Absolute, 6, false),
        0x5Eu8 => make_instr(Op::Lsr, Mode::AbsoluteX, 7, false),
        0x2Au8 => make_instr(Op::Rol, Mode::Accumulator, 2, false),
        0x26u8 => make_instr(Op::Rol, Mode::ZeroPage, 5, false),
        0x36u8 => make_instr(Op::Rol, Mode::ZeroPageX, 6, false),
        0x2Eu8 => make_instr(Op::Rol, Mode::Absolute, 6, false),
        0x3Eu8 => make_instr(Op::Rol, Mode::AbsoluteX, 7, false),
        0x6Au8 => make_instr(Op::Ror, Mode::Accumulator, 2, false),
        0x66u8 => make_instr(Op::Ror, Mode::ZeroPage, 5, false),
        0x76u8 => make_instr(Op::Ror, Mode::ZeroPageX, 6, false),
        0x6Eu8 => make_instr(Op::Ror, Mode::Absolute, 6, false),
        0x7Eu8 => make_instr(Op::Ror, Mode::AbsoluteX, 7, false),
        0xE6u8 => make_instr(Op::Inc, Mode::ZeroPage, 5, false),
        0xF6u8 => make_instr(Op::Inc, Mode::ZeroPageX, 6, false),
        0xEEu8 => make_instr(Op::Inc, Mode::Absolute, 6, false),
        0xFEu8 => make_instr(Op::Inc, Mode::AbsoluteX, 7, false),
        0xC6u8 => make_instr(Op::Dec, Mode::ZeroPage, 5, false),
        0xD6u8 => make_instr(Op::Dec, Mode::ZeroPageX, 6, false),
        0xCEu8 => make_instr(Op::Dec, Mode::Absolute, 6, false),
        0xDEu8 => make_instr(Op::Dec, Mode::AbsoluteX, 7, false),
        0xE8u8 => make_instr(Op::Inx, Mode::Implied, 2, false),
        0xC8u8 => make_instr(Op::Iny, Mode::Implied, 2, false),
        0xCAu8 => make_instr(Op::Dex, Mode::Implied, 2, false),
        0x88u8 => make_instr(Op::Dey, Mode::Implied, 2, false),
        0x4Cu8 => make_instr(Op::Jmp, Mode::Absolute, 3, false),
        0x6Cu8 => make_instr(Op::Jmp, Mode::Indirect, 5, false),
        0x20u8 => make_instr(Op::Jsr, Mode::Absolute, 6, false),
        0x60u8 => make_instr(Op::Rts, Mode::Implied, 6, false),
        0x48u8 => make_instr(Op::Pha, Mode::Implied, 3, false),
        0x08u8 => make_instr(Op::Php, Mode::Implied, 3, false),
        0x68u8 => make_instr(Op::Pla, Mode::Implied, 4, false),
        0x28u8 => make_instr(Op::Plp, Mode::Implied, 4, false),
        0x90u8 => make_instr(Op::Bcc, Mode::Relative, 2, false),
        0xB0u8 => make_instr(Op::Bcs, Mode::Relative, 2, false),
        0xF0u8 => make_instr(Op::Beq, Mode::Relative, 2, false),
        0x30u8 => make_instr(Op::Bmi, Mode::Relative, 2, false),
        0xD0u8 => make_instr(Op::Bne, Mode::Relative, 2, false),
        0x10u8 => make_instr(Op::Bpl, Mode::Relative, 2, false),
        0x50u8 => make_instr(Op::Bvc, Mode::Relative, 2, false),
        0x70u8 => make_instr(Op::Bvs, Mode::Relative, 2, false),
        0x18u8 => make_instr(Op::Clc, Mode::Implied, 2, false),
        0xD8u8 => make_instr(Op::Cld, Mode::Implied, 2, false),
        0x58u8 => make_instr(Op::Cli, Mode::Implied, 2, false),
        0xB8u8 => make_instr(Op::Clv, Mode::Implied, 2, false),
        0x38u8 => make_instr(Op::Sec, Mode::Implied, 2, false),
        0xF8u8 => make_instr(Op::Sed, Mode::Implied, 2, false),
        0x78u8 => make_instr(Op::Sei, Mode::Implied, 2, false),
        0xAAu8 => make_instr(Op::Tax, Mode::Implied, 2, false),
        0xA8u8 => make_instr(Op::Tay, Mode::Implied, 2, false),
        0xBAu8 => make_instr(Op::Tsx, Mode::Implied, 2, false),
        0x8Au8 => make_instr(Op::Txa, Mode::Implied, 2, false),
        0x9Au8 => make_instr(Op::Txs, Mode::Implied, 2, false),
        0x98u8 => make_instr(Op::Tya, Mode::Implied, 2, false),
        0xEAu8 => make_instr(Op::Nop, Mode::Implied, 2, false),
        _ => make_instr(Op::Nop, Mode::Implied, 2, false),
    }
}

} // verus!
