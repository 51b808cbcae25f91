use nest::nes::cpu::Cpu;
use nest::nes::cpu::CpuFlags;
use nest::nes::mmu::Mmu;

fn cleared_flags() -> CpuFlags {
    CpuFlags {
        negative: false,
        overflow: false,
        decimal: false,
        interrupt_disable: false,
        zero: false,
        carry: 0,
    }
}

fn cpu_at(pc: u16) -> Cpu {
    Cpu { a: 0, x: 0, y: 0, pc, sp: 0xFD, flags: cleared_flags() }
}

fn mem() -> Mmu {
    Mmu { memory: vec![0u8; 0x10000] }
}

#[test]
fn flags_clear_resets_everything() {
    let mut f = CpuFlags {
        negative: true,
        overflow: true,
        decimal: true,
        interrupt_disable: true,
        zero: true,
        carry: 1,
    };
    f.clear();
    assert!(!f.negative && !f.overflow && !f.decimal && !f.interrupt_disable && !f.zero);
    assert_eq!(f.carry, 0);
}

#[test]
fn step_pc_wraps() {
    let mut c = cpu_at(0xFFFF);
    c.step_pc(2);
    assert_eq!(c.pc, 0x0001);
}

#[test]
fn adc_immediate_carry_and_zero() {
    let mut c = cpu_at(0x8000);
    let mut m = mem();
    c.a = 0x05;
    m.write(0x8000, 0x69);
    m.write(0x8001, 0xFB);
    let cycles = c.step(&mut m);
    assert_eq!(cycles, 2);
    assert_eq!(c.a, 0x00);
    assert_eq!(c.flags.carry, 1);
    assert!(c.flags.zero);
    assert!(!c.flags.negative);
    assert!(!c.flags.overflow);
    assert_eq!(c.pc, 0x8002);
}

#[test]
fn adc_signed_overflow() {
    let mut c = cpu_at(0x8000);
    let mut m = mem();
    c.a = 0x50;
    m.write(0x8000, 0x69);
    m.write(0x8001, 0x50);
    c.step(&mut m);
    assert_eq!(c.a, 0xA0);
    assert!(c.flags.overflow);
    assert!(c.flags.negative);
    assert_eq!(c.flags.carry, 0);
}

#[test]
fn adc_consumes_carry_in() {
    let mut c = cpu_at(0x8000);
    let mut m = mem();
    c.a = 0x10;
    c.flags.carry = 1;
    m.write(0x8000, 0x69);
    m.write(0x8001, 0x0F);
    c.step(&mut m);
    assert_eq!(c.a, 0x20);
    assert_eq!(c.flags.carry, 0);
}

#[test]
fn adc_absolute_x_overflow_uses_indexed_operand() {
    let mut c = cpu_at(0x8000);
    let mut m = mem();
    c.a = 0x50;
    c.x = 0x04;
    m.write(0x8000, 0x7D);
    m.write(0x8001, 0x00);
    m.write(0x8002, 0x20);
    m.write(0x2000, 0x00);
    m.write(0x2004, 0x50);
    let cycles = c.step(&mut m);
    assert_eq!(cycles, 4);
    assert_eq!(c.a, 0xA0);
    assert!(c.flags.overflow);
}

#[test]
fn sbc_without_borrow() {
    let mut c = cpu_at(0x8000);
    let mut m = mem();
    c.a = 0x50;
    c.flags.carry = 1;
    m.write(0x8000, 0xE9);
    m.write(0x8001, 0x10);
    c.step(&mut m);
    assert_eq!(c.a, 0x40);
    assert_eq!(c.flags.carry, 1);
    assert!(!c.flags.overflow);
}

#[test]
fn sbc_with_borrow_out() {
    let mut c = cpu_at(0x8000);
    let mut m = mem();
    c.a = 0x10;
    c.flags.carry = 1;
    m.write(0x8000, 0xE9);
    m.write(0x8001, 0x20);
    c.step(&mut m);
    assert_eq!(c.a, 0xF0);
    assert_eq!(c.flags.carry, 0);
    assert!(c.flags.negative);
}

#[test]
fn logic_immediate_results() {
    let mut c = cpu_at(0x8000);
    let mut m = mem();
    c.a = 0b1100_1100;
    m.write(0x8000, 0x29);
    m.write(0x8001, 0b1010_1010);
    c.step(&mut m);
    assert_eq!(c.a, 0b1000_1000);
    assert!(c.flags.negative);

    let mut c = cpu_at(0x8000);
    c.a = 0b0100_1100;
    m.write(0x8000, 0x09);
    m.write(0x8001, 0b0010_1010);
    c.step(&mut m);
    assert_eq!(c.a, 0b0110_1110);

    let mut c = cpu_at(0x8000);
    c.a = 0b1010_1010;
    m.write(0x8000, 0x49);
    m.write(0x8001, 0b1010_1010);
    c.step(&mut m);
    assert_eq!(c.a, 0);
    assert!(c.flags.zero);
}

#[test]
fn asl_accumulator_shifts_bit7_into_carry() {
    let mut c = cpu_at(0x8000);
    let mut m = mem();
    c.a = 0x81;
    m.write(0x8000, 0x0A);
    let cycles = c.step(&mut m);
    assert_eq!(cycles, 2);
    assert_eq!(c.a, 0x02);
    assert_eq!(c.flags.carry, 1);
    assert!(!c.flags.negative);
    assert!(!c.flags.zero);
}

#[test]
fn lsr_zero_page_writes_back() {
    let mut c = cpu_at(0x8000);
    let mut m = mem();
    m.write(0x8000, 0x46);
    m.write(0x8001, 0x10);
    m.write(0x0010, 0x01);
    let cycles = c.step(&mut m);
    assert_eq!(cycles, 5);
    assert_eq!(m.read(0x0010), 0x00);
    assert_eq!(c.flags.carry, 1);
    assert!(c.flags.zero);
}

#[test]
fn rol_inserts_previous_carry() {
    let mut c = cpu_at(0x8000);
    let mut m = mem();
    c.a = 0x80;
    c.flags.carry = 1;
    m.write(0x8000, 0x2A);
    c.step(&mut m);
    assert_eq!(c.a, 0x01);
    assert_eq!(c.flags.carry, 1);
}

#[test]
fn ror_inserts_previous_carry_in_bit7() {
    let mut c = cpu_at(0x8000);
    let mut m = mem();
    c.a = 0x01;
    c.flags.carry = 1;
    m.write(0x8000, 0x6A);
    c.step(&mut m);
    assert_eq!(c.a, 0x80);
    assert_eq!(c.flags.carry, 1);
    assert!(c.flags.negative);
}

#[test]
fn inc_wraps_and_sets_zero() {
    let mut c = cpu_at(0x8000);
    let mut m = mem();
    m.write(0x8000, 0xE6);
    m.write(0x8001, 0x40);
    m.write(0x0040, 0xFF);
    c.step(&mut m);
    assert_eq!(m.read(0x0040), 0x00);
    assert!(c.flags.zero);
}

#[test]
fn dec_wraps_and_sets_negative() {
    let mut c = cpu_at(0x8000);
    let mut m = mem();
    m.write(0x8000, 0xC6);
    m.write(0x8001, 0x40);
    c.step(&mut m);
    assert_eq!(m.read(0x0040), 0xFF);
    assert!(c.flags.negative);
}

#[test]
fn inc_absolute_x_writes_back_to_indexed_address() {
    let mut c = cpu_at(0x8000);
    let mut m = mem();
    c.x = 0x05;
    m.write(0x8000, 0xFE);
    m.write(0x8001, 0x00);
    m.write(0x8002, 0x20);
    m.write(0x2005, 0x41);
    let cycles = c.step(&mut m);
    assert_eq!(cycles, 7);
    assert_eq!(m.read(0x2005), 0x42);
    assert_eq!(m.read(0x2000), 0x00);
}

#[test]
fn register_increments_update_flags() {
    let mut c = cpu_at(0x8000);
    let mut m = mem();
    c.x = 0xFF;
    m.write(0x8000, 0xE8);
    c.step(&mut m);
    assert_eq!(c.x, 0x00);
    assert!(c.flags.zero);

    let mut c = cpu_at(0x8000);
    m.write(0x8000, 0x88);
    c.step(&mut m);
    assert_eq!(c.y, 0xFF);
    assert!(c.flags.negative);
}

#[test]
fn compare_above_equal_below() {
    let mut m = mem();
    m.write(0x8000, 0xC9);
    m.write(0x8001, 0x10);

    let mut c = cpu_at(0x8000);
    c.a = 0x20;
    c.step(&mut m);
    assert_eq!(c.flags.carry, 1);
    assert!(!c.flags.zero);
    assert!(!c.flags.negative);

    let mut c = cpu_at(0x8000);
    c.a = 0x10;
    c.step(&mut m);
    assert_eq!(c.flags.carry, 1);
    assert!(c.flags.zero);
    assert!(!c.flags.negative);

    let mut c = cpu_at(0x8000);
    c.a = 0x08;
    c.step(&mut m);
    assert_eq!(c.flags.carry, 0);
    assert!(!c.flags.zero);
    assert!(c.flags.negative);
}

#[test]
fn lda_sets_zero_and_negative() {
    let mut m = mem();
    let mut c = cpu_at(0x8000);
    m.write(0x8000, 0xA9);
    m.write(0x8001, 0x00);
    c.step(&mut m);
    assert!(c.flags.zero);

    let mut c = cpu_at(0x8000);
    m.write(0x8001, 0x80);
    c.step(&mut m);
    assert_eq!(c.a, 0x80);
    assert!(c.flags.negative);
}

#[test]
fn lda_absolute_x_page_cross_costs_one_more() {
    let mut m = mem();
    m.write(0x8000, 0xBD);
    m.write(0x8001, 0xFF);
    m.write(0x8002, 0x00);
    m.write(0x0100, 0x11);
    let mut c = cpu_at(0x8000);
    c.x = 0x01;
    let crossing = c.step(&mut m);
    assert_eq!(c.a, 0x11);
    assert_eq!(crossing, 5);

    m.write(0x8001, 0x00);
    m.write(0x8002, 0x01);
    m.write(0x0101, 0x22);
    let mut c = cpu_at(0x8000);
    c.x = 0x01;
    let straight = c.step(&mut m);
    assert_eq!(c.a, 0x22);
    assert_eq!(straight, 4);
    assert_eq!(crossing, straight + 1);
}

#[test]
fn lda_indirect_indexed_page_cross_costs_one_more() {
    let mut m = mem();
    m.write(0x8000, 0xB1);
    m.write(0x8001, 0x20);
    m.write(0x0020, 0xFF);
    m.write(0x0021, 0x30);
    m.write(0x3100, 0x77);
    let mut c = cpu_at(0x8000);
    c.y = 0x01;
    let cycles = c.step(&mut m);
    assert_eq!(c.a, 0x77);
    assert_eq!(cycles, 6);
}

#[test]
fn ldx_zero_page_y_wraps_in_zero_page() {
    let mut m = mem();
    m.write(0x8000, 0xB6);
    m.write(0x8001, 0xFF);
    m.write(0x0001, 0x5C);
    let mut c = cpu_at(0x8000);
    c.y = 0x02;
    let cycles = c.step(&mut m);
    assert_eq!(cycles, 4);
    assert_eq!(c.x, 0x5C);
}

#[test]
fn sta_has_no_page_cross_penalty_and_keeps_flags() {
    let mut m = mem();
    m.write(0x8000, 0x9D);
    m.write(0x8001, 0xFF);
    m.write(0x8002, 0x00);
    let mut c = cpu_at(0x8000);
    c.a = 0x3C;
    c.x = 0x01;
    c.flags.zero = true;
    let cycles = c.step(&mut m);
    assert_eq!(cycles, 5);
    assert_eq!(m.read(0x0100), 0x3C);
    assert!(c.flags.zero);
}

#[test]
fn stx_sty_zero_page() {
    let mut m = mem();
    let mut c = cpu_at(0x8000);
    c.x = 0x11;
    c.y = 0x22;
    m.write(0x8000, 0x86);
    m.write(0x8001, 0x40);
    c.step(&mut m);
    m.write(c.pc, 0x84);
    m.write(c.pc.wrapping_add(1), 0x41);
    c.step(&mut m);
    assert_eq!(m.read(0x0040), 0x11);
    assert_eq!(m.read(0x0041), 0x22);
}

#[test]
fn jmp_absolute_and_indirect() {
    let mut m = mem();
    let mut c = cpu_at(0x8000);
    m.write(0x8000, 0x4C);
    m.write(0x8001, 0x34);
    m.write(0x8002, 0x12);
    let cycles = c.step(&mut m);
    assert_eq!(cycles, 3);
    assert_eq!(c.pc, 0x1234);

    let mut c = cpu_at(0x8000);
    m.write(0x8000, 0x6C);
    m.write(0x8001, 0x00);
    m.write(0x8002, 0x30);
    m.write(0x3000, 0x78);
    m.write(0x3001, 0x56);
    let cycles = c.step(&mut m);
    assert_eq!(cycles, 5);
    assert_eq!(c.pc, 0x5678);
}

#[test]
fn jsr_then_rts_restores_pc_and_sp() {
    let mut m = mem();
    let mut c = cpu_at(0x8000);
    m.write(0x8000, 0x20);
    m.write(0x8001, 0x10);
    m.write(0x8002, 0x80);
    m.write(0x8010, 0x60);
    let call_cycles = c.step(&mut m);
    assert_eq!(call_cycles, 6);
    assert_eq!(c.pc, 0x8010);
    assert_eq!(c.sp, 0xFB);
    // Return address 0x8003, pushed high byte first, then low.
    assert_eq!(m.read(0x01FD), 0x80);
    assert_eq!(m.read(0x01FC), 0x03);
    let ret_cycles = c.step(&mut m);
    assert_eq!(ret_cycles, 6);
    assert_eq!(c.pc, 0x8003);
    assert_eq!(c.sp, 0xFD);
}

#[test]
fn pha_pla_roundtrip_through_stack_page() {
    let mut m = mem();
    let mut c = cpu_at(0x8000);
    c.a = 0x80;
    m.write(0x8000, 0x48);
    let push_cycles = c.step(&mut m);
    assert_eq!(push_cycles, 3);
    assert_eq!(c.sp, 0xFC);
    assert_eq!(m.read(0x01FD), 0x80);
    c.a = 0x00;
    m.write(c.pc, 0x68);
    let pull_cycles = c.step(&mut m);
    assert_eq!(pull_cycles, 4);
    assert_eq!(c.a, 0x80);
    assert_eq!(c.sp, 0xFD);
    assert!(c.flags.negative);
}

#[test]
fn php_packs_with_unused_bits_set() {
    let mut m = mem();
    let mut c = cpu_at(0x8000);
    m.write(0x8000, 0x08);
    c.step(&mut m);
    assert_eq!(m.read(0x01FD), 0x30);
}

#[test]
fn php_plp_roundtrip_restores_flags() {
    let mut m = mem();
    let mut c = cpu_at(0x8000);
    c.flags = CpuFlags {
        negative: true,
        overflow: true,
        decimal: true,
        interrupt_disable: true,
        zero: false,
        carry: 1,
    };
    m.write(0x8000, 0x08);
    c.step(&mut m);
    assert_eq!(m.read(0x01FD), 0xFD);
    c.flags = cleared_flags();
    m.write(c.pc, 0x28);
    c.step(&mut m);
    assert!(c.flags.negative);
    assert!(c.flags.overflow);
    assert!(c.flags.decimal);
    assert!(c.flags.interrupt_disable);
    assert!(!c.flags.zero);
    assert_eq!(c.flags.carry, 1);
}

#[test]
fn beq_taken_with_positive_offset() {
    let mut m = mem();
    let mut c = cpu_at(0x8000);
    c.flags.zero = true;
    m.write(0x8000, 0xF0);
    m.write(0x8001, 0x05);
    let cycles = c.step(&mut m);
    // PC is 0x8002 after fetching the offset; +5 lands at 0x8007.
    assert_eq!(c.pc, 0x8007);
    assert_eq!(cycles, 3);
}

#[test]
fn beq_not_taken_ignores_offset() {
    let mut m = mem();
    let mut c = cpu_at(0x8000);
    m.write(0x8000, 0xF0);
    m.write(0x8001, 0x05);
    let cycles = c.step(&mut m);
    assert_eq!(c.pc, 0x8002);
    assert_eq!(cycles, 2);
}

#[test]
fn branch_negative_offset_crosses_page() {
    let mut m = mem();
    let mut c = cpu_at(0x8000);
    c.flags.zero = true;
    m.write(0x8000, 0xF0);
    m.write(0x8001, 0xFB);
    let cycles = c.step(&mut m);
    // Offset -5 from 0x8002 lands at 0x7FFD, on a different page.
    assert_eq!(c.pc, 0x7FFD);
    assert_eq!(cycles, 4);
}

#[test]
fn bne_taken_page_cross_costs_four() {
    let mut m = mem();
    let mut c = cpu_at(0x80F0);
    m.write(0x80F0, 0xD0);
    m.write(0x80F1, 0x20);
    let cycles = c.step(&mut m);
    assert_eq!(c.pc, 0x8112);
    assert_eq!(cycles, 4);
}

#[test]
fn every_branch_condition() {
    let mut m = mem();
    // (opcode, flag setter, expected taken)
    let cases: Vec<(u8, fn(&mut Cpu), bool)> = vec![
        (0x90, (|c: &mut Cpu| c.flags.carry = 0) as fn(&mut Cpu), true),
        (0xB0, |c: &mut Cpu| c.flags.carry = 1, true),
        (0xF0, |c: &mut Cpu| c.flags.zero = true, true),
        (0xD0, |c: &mut Cpu| c.flags.zero = true, false),
        (0x30, |c: &mut Cpu| c.flags.negative = true, true),
        (0x10, |c: &mut Cpu| c.flags.negative = true, false),
        (0x70, |c: &mut Cpu| c.flags.overflow = true, true),
        (0x50, |c: &mut Cpu| c.flags.overflow = true, false),
    ];
    for (opcode, setup, taken) in cases {
        let mut c = cpu_at(0x8000);
        setup(&mut c);
        m.write(0x8000, opcode);
        m.write(0x8001, 0x02);
        c.step(&mut m);
        if taken {
            assert_eq!(c.pc, 0x8004);
        } else {
            assert_eq!(c.pc, 0x8002);
        }
    }
}

#[test]
fn flag_only_opcodes_touch_one_flag() {
    let mut m = mem();
    let mut c = cpu_at(0x8000);
    m.write(0x8000, 0x38);
    let cycles = c.step(&mut m);
    assert_eq!(cycles, 2);
    assert_eq!(c.flags.carry, 1);
    m.write(c.pc, 0xF8);
    c.step(&mut m);
    assert!(c.flags.decimal);
    m.write(c.pc, 0x78);
    c.step(&mut m);
    assert!(c.flags.interrupt_disable);
    m.write(c.pc, 0x18);
    c.step(&mut m);
    assert_eq!(c.flags.carry, 0);
    assert!(c.flags.decimal);
    m.write(c.pc, 0xD8);
    c.step(&mut m);
    assert!(!c.flags.decimal);
    m.write(c.pc, 0x58);
    c.step(&mut m);
    assert!(!c.flags.interrupt_disable);
    c.flags.overflow = true;
    m.write(c.pc, 0xB8);
    c.step(&mut m);
    assert!(!c.flags.overflow);
}

#[test]
fn transfers_update_flags_except_txs() {
    let mut m = mem();
    let mut c = cpu_at(0x8000);
    c.a = 0x00;
    c.x = 0x99;
    m.write(0x8000, 0xAA);
    c.step(&mut m);
    assert_eq!(c.x, 0x00);
    assert!(c.flags.zero);

    // TXS copies X into SP and, by hardware convention, touches no flags.
    m.write(c.pc, 0x9A);
    c.step(&mut m);
    assert_eq!(c.sp, 0x00);
    assert!(c.flags.zero);

    c.sp = 0x80;
    m.write(c.pc, 0xBA);
    c.step(&mut m);
    assert_eq!(c.x, 0x80);
    assert!(c.flags.negative);
    assert!(!c.flags.zero);
}

#[test]
fn unrecognized_opcode_is_fixed_cost_nop() {
    let mut m = mem();
    let mut c = cpu_at(0x8000);
    c.a = 0x42;
    m.write(0x8000, 0x02);
    let before = c.flags.carry;
    let cycles = c.step(&mut m);
    assert_eq!(cycles, 2);
    assert_eq!(c.pc, 0x8001);
    assert_eq!(c.a, 0x42);
    assert_eq!(c.flags.carry, before);
    assert_eq!(m.read(0x8000), 0x02);
}

#[test]
fn pc_advances_by_one_plus_operand_length() {
    let mut m = mem();
    // (opcode, instruction length in bytes)
    let cases: Vec<(u8, u16)> = vec![
        (0xEA, 1),
        (0x0A, 1),
        (0xE8, 1),
        (0xA9, 2),
        (0xA5, 2),
        (0xB5, 2),
        (0x61, 2),
        (0x71, 2),
        (0xAD, 3),
        (0xBD, 3),
        (0xEE, 3),
        (0x8D, 3),
    ];
    for (opcode, len) in cases {
        let mut c = cpu_at(0x4000);
        m.write(0x4000, opcode);
        m.write(0x4001, 0x00);
        m.write(0x4002, 0x01);
        c.step(&mut m);
        assert_eq!(c.pc, 0x4000 + len, "opcode {:02x}", opcode);
    }
}

#[test]
fn adc_then_sbc_restores_accumulator_when_carry_flips() {
    let mut m = mem();
    // Carry-in 0, the addition carries out: 0xC8 + 0x64 = 0x12C.
    let mut c = cpu_at(0x8000);
    c.a = 0xC8;
    m.write(0x8000, 0x69);
    m.write(0x8001, 0x64);
    c.step(&mut m);
    assert_eq!(c.a, 0x2C);
    assert_eq!(c.flags.carry, 1);
    m.write(c.pc, 0xE9);
    m.write(c.pc.wrapping_add(1), 0x64);
    c.step(&mut m);
    assert_eq!(c.a, 0xC8);

    // Carry-in 1, the addition does not carry out.
    let mut c = cpu_at(0x8000);
    c.a = 0x10;
    c.flags.carry = 1;
    m.write(0x8000, 0x69);
    m.write(0x8001, 0x20);
    c.step(&mut m);
    assert_eq!(c.a, 0x31);
    assert_eq!(c.flags.carry, 0);
    m.write(c.pc, 0xE9);
    m.write(c.pc.wrapping_add(1), 0x20);
    c.step(&mut m);
    assert_eq!(c.a, 0x10);
}

#[test]
fn and_zero_page_x_wraps_operand() {
    let mut m = mem();
    m.write(0x8000, 0x35);
    m.write(0x8001, 0xF0);
    m.write(0x0010, 0x0F);
    let mut c = cpu_at(0x8000);
    c.a = 0xFF;
    c.x = 0x20;
    let cycles = c.step(&mut m);
    assert_eq!(cycles, 4);
    assert_eq!(c.a, 0x0F);
}

#[test]
fn eor_absolute_y_page_cross_costs_five() {
    let mut m = mem();
    m.write(0x8000, 0x59);
    m.write(0x8001, 0xFF);
    m.write(0x8002, 0x20);
    m.write(0x2100, 0xFF);
    let mut c = cpu_at(0x8000);
    c.a = 0x0F;
    c.y = 0x01;
    let cycles = c.step(&mut m);
    assert_eq!(cycles, 5);
    assert_eq!(c.a, 0xF0);
}

#[test]
fn ora_indirect_x_costs_six() {
    let mut m = mem();
    m.write(0x8000, 0x01);
    m.write(0x8001, 0x20);
    m.write(0x0024, 0x00);
    m.write(0x0025, 0x40);
    m.write(0x4000, 0x81);
    let mut c = cpu_at(0x8000);
    c.a = 0x02;
    c.x = 0x04;
    let cycles = c.step(&mut m);
    assert_eq!(cycles, 6);
    assert_eq!(c.a, 0x83);
    assert!(c.flags.negative);
}

#[test]
fn rol_memory_inserts_previous_carry() {
    let mut m = mem();
    m.write(0x8000, 0x26);
    m.write(0x8001, 0x30);
    m.write(0x0030, 0x40);
    let mut c = cpu_at(0x8000);
    c.flags.carry = 1;
    let cycles = c.step(&mut m);
    assert_eq!(cycles, 5);
    assert_eq!(m.read(0x0030), 0x81);
    assert_eq!(c.flags.carry, 0);
    assert!(c.flags.negative);
}

#[test]
fn ror_absolute_shifts_into_carry() {
    let mut m = mem();
    m.write(0x8000, 0x6E);
    m.write(0x8001, 0x00);
    m.write(0x8002, 0x30);
    m.write(0x3000, 0x03);
    let mut c = cpu_at(0x8000);
    let cycles = c.step(&mut m);
    assert_eq!(cycles, 6);
    assert_eq!(m.read(0x3000), 0x01);
    assert_eq!(c.flags.carry, 1);
}

#[test]
fn asl_absolute_x_writes_back_indexed() {
    let mut m = mem();
    m.write(0x8000, 0x1E);
    m.write(0x8001, 0x00);
    m.write(0x8002, 0x20);
    m.write(0x2003, 0x41);
    let mut c = cpu_at(0x8000);
    c.x = 0x03;
    let cycles = c.step(&mut m);
    assert_eq!(cycles, 7);
    assert_eq!(m.read(0x2003), 0x82);
    assert_eq!(m.read(0x2000), 0x00);
}

#[test]
fn register_transfers_move_values() {
    let mut m = mem();
    let mut c = cpu_at(0x8000);
    c.a = 0x55;
    m.write(0x8000, 0xA8);
    c.step(&mut m);
    assert_eq!(c.y, 0x55);

    c.x = 0x00;
    c.a = 0x01;
    m.write(c.pc, 0x8A);
    c.step(&mut m);
    assert_eq!(c.a, 0x00);
    assert!(c.flags.zero);

    c.y = 0x80;
    m.write(c.pc, 0x98);
    c.step(&mut m);
    assert_eq!(c.a, 0x80);
    assert!(c.flags.negative);

    c.x = 0x05;
    m.write(c.pc, 0xCA);
    c.step(&mut m);
    assert_eq!(c.x, 0x04);
    assert!(!c.flags.zero);
}

#[test]
fn cpx_and_cpy_immediate() {
    let mut m = mem();
    let mut c = cpu_at(0x8000);
    c.x = 0x10;
    m.write(0x8000, 0xE0);
    m.write(0x8001, 0x10);
    let cycles = c.step(&mut m);
    assert_eq!(cycles, 2);
    assert!(c.flags.zero);
    assert_eq!(c.flags.carry, 1);

    let mut c = cpu_at(0x8000);
    c.y = 0x01;
    m.write(0x8000, 0xC0);
    m.write(0x8001, 0x02);
    c.step(&mut m);
    assert_eq!(c.flags.carry, 0);
    assert!(c.flags.negative);
}

#[test]
fn ldy_absolute_x_page_cross_costs_five() {
    let mut m = mem();
    m.write(0x8000, 0xBC);
    m.write(0x8001, 0x80);
    m.write(0x8002, 0x10);
    m.write(0x1100, 0x09);
    let mut c = cpu_at(0x8000);
    c.x = 0x80;
    let cycles = c.step(&mut m);
    assert_eq!(cycles, 5);
    assert_eq!(c.y, 0x09);
}

#[test]
fn sta_indirect_y_is_fixed_cost() {
    let mut m = mem();
    m.write(0x8000, 0x91);
    m.write(0x8001, 0x40);
    m.write(0x0040, 0xFF);
    m.write(0x0041, 0x20);
    let mut c = cpu_at(0x8000);
    c.a = 0x7E;
    c.y = 0x01;
    let cycles = c.step(&mut m);
    assert_eq!(cycles, 6);
    assert_eq!(m.read(0x2100), 0x7E);
}
