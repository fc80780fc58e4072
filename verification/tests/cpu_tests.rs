use nes_emu::cpu::{Anomaly, Cpu, STACK_INIT, STATUS_INIT};
use nes_emu::memory::{AddressingMode, Memory};
use nes_emu::status::{
    FLAG_B, FLAG_CARRY, FLAG_DECIMAL, FLAG_INTERRUPT_DISABLE, FLAG_NEGATIVE, FLAG_OVERFLOW, FLAG_U,
    FLAG_ZERO,
};

fn cpu_at(pc: u16) -> Cpu {
    Cpu { a: 0, x: 0, y: 0, pc, s: 0xFD, p: 0x04, cycles: 0 }
}

fn machine(program: &[u8]) -> (Cpu, Memory) {
    let mut mem = Memory::new();
    mem.load_program(program);
    (cpu_at(0x8000), mem)
}

fn flags(cpu: &Cpu) -> (bool, bool, bool, bool) {
    (
        cpu.get_status(FLAG_CARRY),
        cpu.get_status(FLAG_ZERO),
        cpu.get_status(FLAG_OVERFLOW),
        cpu.get_status(FLAG_NEGATIVE),
    )
}

fn add_case(a: u8, val: u8, carry: bool) -> (u8, bool, bool, bool, bool) {
    let mut cpu = cpu_at(0);
    cpu.a = a;
    cpu.set_carry(carry);
    cpu.add(val);
    let (c, z, v, n) = flags(&cpu);
    (cpu.a, c, z, v, n)
}

fn sbc_case(a: u8, val: u8, carry: bool) -> (u8, bool, bool, bool, bool) {
    let (mut cpu, mut mem) = machine(&[0xE9, val]);
    cpu.a = a;
    cpu.set_carry(carry);
    assert_eq!(cpu.step(&mut mem), Ok(()));
    let (c, z, v, n) = flags(&cpu);
    (cpu.a, c, z, v, n)
}

#[test]
fn flag_masks_are_the_bits_of_the_status_byte() {
    assert_eq!(FLAG_CARRY, 0x01);
    assert_eq!(FLAG_ZERO, 0x02);
    assert_eq!(FLAG_INTERRUPT_DISABLE, 0x04);
    assert_eq!(FLAG_DECIMAL, 0x08);
    assert_eq!(FLAG_B, 0x10);
    assert_eq!(FLAG_U, 0x20);
    assert_eq!(FLAG_OVERFLOW, 0x40);
    assert_eq!(FLAG_NEGATIVE, 0x80);
}

#[test]
fn new_cpu_is_reset_from_the_vector() {
    let mut mem = Memory::new();
    mem.write(0xFFFC, 0x34);
    mem.write(0xFFFD, 0x12);
    let cpu = Cpu::new(&mem);
    assert_eq!(cpu, Cpu { a: 0, x: 0, y: 0, pc: 0x1234, s: 0xFD, p: 0x04, cycles: 0 });
    assert_eq!(STACK_INIT, 0xFD);
    assert_eq!(STATUS_INIT, 0x04);
}

#[test]
fn reset_restores_power_up_values() {
    let mut mem = Memory::new();
    mem.write(0xFFFC, 0x00);
    mem.write(0xFFFD, 0x80);
    let mut cpu = Cpu { a: 1, x: 2, y: 3, pc: 4, s: 5, p: 0xFF, cycles: 77 };
    cpu.reset(&mem);
    assert_eq!(cpu, Cpu { a: 0, x: 0, y: 0, pc: 0x8000, s: 0xFD, p: 0x04, cycles: 0 });
}

#[test]
fn adc_truth_table() {
    //                                      result  C      Z      V      N
    assert_eq!(add_case(0x50, 0x10, false), (0x60, false, false, false, false));
    assert_eq!(add_case(0x50, 0x50, false), (0xA0, false, false, true, true));
    assert_eq!(add_case(0x50, 0x90, false), (0xE0, false, false, false, true));
    assert_eq!(add_case(0x50, 0xD0, false), (0x20, true, false, false, false));
    assert_eq!(add_case(0xD0, 0x10, false), (0xE0, false, false, false, true));
    assert_eq!(add_case(0xD0, 0x50, false), (0x20, true, false, false, false));
    assert_eq!(add_case(0xD0, 0x90, false), (0x60, true, false, true, false));
    assert_eq!(add_case(0xD0, 0xD0, false), (0xA0, true, false, false, true));
}

#[test]
fn adc_sets_overflow_and_negative_for_0x50_plus_0x50() {
    let (result, carry, zero, overflow, negative) = add_case(0x50, 0x50, false);
    assert_eq!(result, 0xA0);
    assert!(overflow);
    assert!(negative);
    assert!(!carry);
    assert!(!zero);
}

#[test]
fn adc_uses_and_produces_carry() {
    assert_eq!(add_case(0xFF, 0x00, true), (0x00, true, true, false, false));
    assert_eq!(add_case(0xFF, 0x01, false), (0x00, true, true, false, false));
    assert_eq!(add_case(0x00, 0x00, false), (0x00, false, true, false, false));
    assert_eq!(add_case(0x7F, 0x00, true), (0x80, false, false, true, true));
    assert_eq!(add_case(0xFF, 0xFF, true), (0xFF, true, false, false, true));
    assert_eq!(add_case(0x01, 0x01, true), (0x03, false, false, false, false));
    assert_eq!(add_case(0x80, 0x80, false), (0x00, true, true, true, false));
}

#[test]
fn adc_leaves_the_other_registers_alone() {
    let mut cpu = Cpu { a: 0x10, x: 0x22, y: 0x33, pc: 0x4444, s: 0x55, p: 0x3C, cycles: 9 };
    cpu.add(0x20);
    assert_eq!(cpu.a, 0x30);
    assert_eq!((cpu.x, cpu.y, cpu.pc, cpu.s, cpu.cycles), (0x22, 0x33, 0x4444, 0x55, 9));
    // interrupt-disable, decimal, break and the unused bit keep their values
    assert_eq!(cpu.p & 0x3C, 0x3C);
}

#[test]
fn adc_reads_its_operand_from_the_bus() {
    let mut mem = Memory::new();
    mem.write(0x0042, 0x22);
    let mut cpu = cpu_at(0);
    cpu.a = 0x11;
    cpu.adc(&mem, 0x0042);
    assert_eq!(cpu.a, 0x33);
}

#[test]
fn sbc_truth_table() {
    //                                     result  C      Z      V      N
    assert_eq!(sbc_case(0x50, 0xF0, true), (0x60, false, false, false, false));
    assert_eq!(sbc_case(0x50, 0xB0, true), (0xA0, false, false, true, true));
    assert_eq!(sbc_case(0x50, 0x70, true), (0xE0, false, false, false, true));
    assert_eq!(sbc_case(0x50, 0x30, true), (0x20, true, false, false, false));
    assert_eq!(sbc_case(0xD0, 0xF0, true), (0xE0, false, false, false, true));
    assert_eq!(sbc_case(0xD0, 0xB0, true), (0x20, true, false, false, false));
    assert_eq!(sbc_case(0xD0, 0x70, true), (0x60, true, false, true, false));
    assert_eq!(sbc_case(0xD0, 0x30, true), (0xA0, true, false, false, true));
}

#[test]
fn sbc_borrows_when_carry_is_clear() {
    assert_eq!(sbc_case(0x00, 0x00, false), (0xFF, false, false, false, true));
    assert_eq!(sbc_case(0x00, 0x00, true), (0x00, true, true, false, false));
    assert_eq!(sbc_case(0x05, 0x03, false), (0x01, true, false, false, false));
    assert_eq!(sbc_case(0x80, 0x01, true), (0x7F, true, false, true, false));
    assert_eq!(sbc_case(0x40, 0x40, true), (0x00, true, true, false, false));
}

#[test]
fn sbc_method_is_the_addition_of_the_complement() {
    let mut mem = Memory::new();
    mem.write(0x0010, 0x30);
    let mut direct = cpu_at(0);
    direct.a = 0x50;
    direct.set_carry(true);
    let mut through_add = direct;
    direct.sbc(&mem, 0x0010);
    through_add.add(!0x30);
    assert_eq!(direct, through_add);
    assert_eq!(direct.a, 0x20);
}

#[test]
fn and_ora_eor_combine_bits() {
    let mut mem = Memory::new();
    mem.write(0x0010, 0b1100_1010);
    let mut cpu = cpu_at(0);
    cpu.a = 0b1010_0110;
    cpu.and(&mem, 0x0010);
    assert_eq!(cpu.a, 0b1000_0010);
    assert_eq!(flags(&cpu), (false, false, false, true));
    cpu.a = 0b0010_0110;
    cpu.ora(&mem, 0x0010);
    assert_eq!(cpu.a, 0b1110_1110);
    assert!(cpu.get_status(FLAG_NEGATIVE));
    cpu.a = 0b1100_1010;
    cpu.eor(&mem, 0x0010);
    assert_eq!(cpu.a, 0);
    assert_eq!(flags(&cpu), (false, true, false, false));
    cpu.a = 0b0011_0101;
    cpu.and(&mem, 0x0010);
    assert_eq!(cpu.a, 0);
    assert!(cpu.get_status(FLAG_ZERO));
}

#[test]
fn asl_shifts_left_into_carry() {
    let mut cpu = cpu_at(0);
    cpu.a = 0b1000_0001;
    cpu.asl_akk();
    assert_eq!(cpu.a, 0b0000_0010);
    assert_eq!(flags(&cpu), (true, false, false, false));
    cpu.a = 0b0100_0000;
    cpu.asl_akk();
    assert_eq!(cpu.a, 0b1000_0000);
    assert_eq!(flags(&cpu), (false, false, false, true));
    cpu.a = 0b1000_0000;
    cpu.asl_akk();
    assert_eq!(cpu.a, 0);
    assert_eq!(flags(&cpu), (true, true, false, false));
    let mut mem = Memory::new();
    mem.write(0x0200, 0x55);
    cpu.asl(&mut mem, 0x0200);
    assert_eq!(mem.read(0x0200), 0xAA);
    assert_eq!(cpu.a, 0);
    assert_eq!(flags(&cpu), (false, false, false, true));
}

#[test]
fn lsr_shifts_right_into_carry() {
    let mut cpu = cpu_at(0);
    cpu.a = 0b1000_0001;
    cpu.lsr_akk();
    assert_eq!(cpu.a, 0b0100_0000);
    assert_eq!(flags(&cpu), (true, false, false, false));
    cpu.a = 0x01;
    cpu.lsr_akk();
    assert_eq!(cpu.a, 0);
    assert_eq!(flags(&cpu), (true, true, false, false));
    let mut mem = Memory::new();
    mem.write(0x0200, 0xFE);
    cpu.lsr(&mut mem, 0x0200);
    assert_eq!(mem.read(0x0200), 0x7F);
    assert_eq!(flags(&cpu), (false, false, false, false));
}

#[test]
fn rol_rotates_through_carry() {
    let mut cpu = cpu_at(0);
    cpu.a = 0b1000_0000;
    cpu.set_carry(true);
    cpu.rol_akk();
    assert_eq!(cpu.a, 0b0000_0001);
    assert_eq!(flags(&cpu), (true, false, false, false));
    cpu.a = 0b0100_0000;
    cpu.set_carry(false);
    cpu.rol_akk();
    assert_eq!(cpu.a, 0b1000_0000);
    assert_eq!(flags(&cpu), (false, false, false, true));
    let mut mem = Memory::new();
    mem.write(0x0200, 0xFF);
    cpu.set_carry(false);
    cpu.rol(&mut mem, 0x0200);
    assert_eq!(mem.read(0x0200), 0xFE);
    assert_eq!(flags(&cpu), (true, false, false, true));
}

#[test]
fn ror_rotates_through_carry() {
    let mut cpu = cpu_at(0);
    cpu.a = 0b0000_0001;
    cpu.set_carry(true);
    cpu.ror_akk();
    assert_eq!(cpu.a, 0b1000_0000);
    assert_eq!(flags(&cpu), (true, false, false, true));
    cpu.a = 0b0000_0010;
    cpu.set_carry(false);
    cpu.ror_akk();
    assert_eq!(cpu.a, 0b0000_0001);
    assert_eq!(flags(&cpu), (false, false, false, false));
    let mut mem = Memory::new();
    mem.write(0x0200, 0x01);
    cpu.set_carry(false);
    cpu.ror(&mut mem, 0x0200);
    assert_eq!(mem.read(0x0200), 0x00);
    assert_eq!(flags(&cpu), (true, true, false, false));
}

#[test]
fn nine_rotations_restore_value_and_carry() {
    let mut cpu = cpu_at(0);
    cpu.a = 0xB7;
    cpu.set_carry(true);
    let before = cpu;
    for _ in 0..9 {
        cpu.rol_akk();
    }
    assert_eq!(cpu.a, before.a);
    assert_eq!(cpu.get_carry(), 1);
    for _ in 0..9 {
        cpu.ror_akk();
    }
    assert_eq!(cpu.a, before.a);
    assert_eq!(cpu.get_carry(), 1);
}

#[test]
fn bit_copies_bits_7_and_6_and_tests_the_mask() {
    let mut mem = Memory::new();
    mem.write(0x0010, 0b1100_0000);
    mem.write(0x0011, 0b0100_0001);
    mem.write(0x0012, 0b0000_0001);
    let mut cpu = cpu_at(0);
    cpu.a = 0x01;
    cpu.bit(&mem, 0x0010);
    assert_eq!(flags(&cpu), (false, true, true, true));
    assert_eq!(cpu.a, 0x01);
    cpu.bit(&mem, 0x0011);
    assert_eq!(flags(&cpu), (false, false, true, false));
    cpu.bit(&mem, 0x0012);
    assert_eq!(flags(&cpu), (false, false, false, false));
}

#[test]
fn compare_sets_carry_zero_and_negative() {
    let mut mem = Memory::new();
    mem.write(0x0010, 0x40);
    mem.write(0x0011, 0x41);
    mem.write(0x0012, 0x01);
    let mut cpu = cpu_at(0);
    cpu.a = 0x40;
    cpu.cmp(&mem, 0x0010);
    assert_eq!(flags(&cpu), (true, true, false, false));
    assert_eq!(cpu.a, 0x40);
    cpu.cmp(&mem, 0x0011);
    assert_eq!(flags(&cpu), (false, false, false, true));
    cpu.a = 0x80;
    cpu.cmp(&mem, 0x0012);
    assert_eq!(flags(&cpu), (true, false, false, false));
    cpu.x = 0x41;
    cpu.cpx(&mem, 0x0010);
    assert_eq!(flags(&cpu), (true, false, false, false));
    cpu.y = 0x00;
    cpu.cpy(&mem, 0x0012);
    assert_eq!(flags(&cpu), (false, false, false, true));
    assert_eq!((cpu.x, cpu.y), (0x41, 0x00));
}

#[test]
fn inc_and_dec_wrap_around() {
    let mut mem = Memory::new();
    let mut cpu = cpu_at(0);
    mem.write(0x0200, 0xFF);
    cpu.inc(&mut mem, 0x0200);
    assert_eq!(mem.read(0x0200), 0x00);
    assert_eq!(flags(&cpu), (false, true, false, false));
    cpu.dec(&mut mem, 0x0200);
    assert_eq!(mem.read(0x0200), 0xFF);
    assert_eq!(flags(&cpu), (false, false, false, true));
    mem.write(0x0201, 0x7F);
    cpu.inc(&mut mem, 0x0201);
    assert_eq!(mem.read(0x0201), 0x80);
    assert!(cpu.get_status(FLAG_NEGATIVE));
    mem.write(0x0202, 0x01);
    cpu.dec(&mut mem, 0x0202);
    assert_eq!(mem.read(0x0202), 0x00);
    assert!(cpu.get_status(FLAG_ZERO));
}

#[test]
fn index_registers_wrap_around() {
    let mut cpu = cpu_at(0);
    cpu.x = 0xFF;
    cpu.inx();
    assert_eq!(cpu.x, 0x00);
    assert!(cpu.get_status(FLAG_ZERO));
    cpu.dex();
    assert_eq!(cpu.x, 0xFF);
    assert!(cpu.get_status(FLAG_NEGATIVE));
    cpu.y = 0xFF;
    cpu.iny();
    assert_eq!(cpu.y, 0x00);
    assert!(cpu.get_status(FLAG_ZERO));
    cpu.dey();
    assert_eq!(cpu.y, 0xFF);
    assert!(cpu.get_status(FLAG_NEGATIVE));
    cpu.y = 0x10;
    cpu.iny();
    assert_eq!(cpu.y, 0x11);
    assert_eq!(flags(&cpu), (false, false, false, false));
}

#[test]
fn loads_set_zero_and_negative() {
    let mut mem = Memory::new();
    mem.write(0x0010, 0x00);
    mem.write(0x0011, 0x80);
    mem.write(0x0012, 0x7F);
    let mut cpu = cpu_at(0);
    cpu.lda(&mem, 0x0011);
    assert_eq!(cpu.a, 0x80);
    assert_eq!(flags(&cpu), (false, false, false, true));
    cpu.ldx(&mem, 0x0010);
    assert_eq!(cpu.x, 0x00);
    assert_eq!(flags(&cpu), (false, true, false, false));
    cpu.ldy(&mem, 0x0012);
    assert_eq!(cpu.y, 0x7F);
    assert_eq!(flags(&cpu), (false, false, false, false));
}

#[test]
fn stores_leave_the_flags_alone() {
    let mut mem = Memory::new();
    let mut cpu = cpu_at(0);
    cpu.a = 0x00;
    cpu.x = 0x80;
    cpu.y = 0x7F;
    cpu.p = 0xC3;
    cpu.sta(&mut mem, 0x0300);
    cpu.stx(&mut mem, 0x0301);
    cpu.sty(&mut mem, 0x0302);
    assert_eq!((mem.read(0x0300), mem.read(0x0301), mem.read(0x0302)), (0x00, 0x80, 0x7F));
    assert_eq!(cpu.p, 0xC3);
}

#[test]
fn transfers_copy_and_set_flags_except_txs() {
    let mut cpu = cpu_at(0);
    cpu.a = 0x80;
    cpu.tax();
    assert_eq!(cpu.x, 0x80);
    assert!(cpu.get_status(FLAG_NEGATIVE));
    cpu.a = 0x00;
    cpu.tay();
    assert_eq!(cpu.y, 0x00);
    assert!(cpu.get_status(FLAG_ZERO));
    cpu.x = 0x12;
    cpu.txa();
    assert_eq!(cpu.a, 0x12);
    assert_eq!(flags(&cpu), (false, false, false, false));
    cpu.y = 0xFF;
    cpu.tya();
    assert_eq!(cpu.a, 0xFF);
    assert!(cpu.get_status(FLAG_NEGATIVE));
    cpu.s = 0x00;
    cpu.tsx();
    assert_eq!(cpu.x, 0x00);
    assert!(cpu.get_status(FLAG_ZERO));
    let p = cpu.p;
    cpu.x = 0x80;
    cpu.txs();
    assert_eq!(cpu.s, 0x80);
    assert_eq!(cpu.p, p);
}

#[test]
fn flag_instructions_touch_one_flag() {
    let mut cpu = cpu_at(0);
    cpu.p = 0x00;
    cpu.sec();
    assert_eq!(cpu.p, 0x01);
    cpu.sed();
    assert_eq!(cpu.p, 0x09);
    cpu.sei();
    assert_eq!(cpu.p, 0x0D);
    cpu.p = 0xFF;
    cpu.clc();
    assert_eq!(cpu.p, 0xFE);
    cpu.cld();
    assert_eq!(cpu.p, 0xF6);
    cpu.cli();
    assert_eq!(cpu.p, 0xF2);
    cpu.clv();
    assert_eq!(cpu.p, 0xB2);
}

#[test]
fn status_accessors_read_and_write_single_flags() {
    let mut cpu = cpu_at(0);
    cpu.p = 0x00;
    cpu.set_status(FLAG_OVERFLOW, true);
    assert!(cpu.get_status(FLAG_OVERFLOW));
    assert_eq!(cpu.p, 0x40);
    cpu.set_zero(true);
    cpu.set_negative(true);
    cpu.set_carry(true);
    assert_eq!(cpu.p, 0xC3);
    assert_eq!(cpu.get_carry(), 1);
    cpu.set_carry(false);
    assert_eq!(cpu.get_carry(), 0);
    cpu.set_status(FLAG_OVERFLOW, false);
    cpu.set_zero(false);
    cpu.set_negative(false);
    assert_eq!(cpu.p, 0x00);
    cpu.update_sz(0);
    assert_eq!(cpu.p, FLAG_ZERO);
    cpu.update_sz(0x80);
    assert_eq!(cpu.p, FLAG_NEGATIVE);
    cpu.update_sz(0x01);
    assert_eq!(cpu.p, 0);
}

#[test]
fn push_stores_on_page_one_and_steps_down() {
    let mut mem = Memory::new();
    let mut cpu = cpu_at(0);
    cpu.stack_push8(&mut mem, 0xAB);
    assert_eq!(mem.read(0x01FD), 0xAB);
    assert_eq!(cpu.s, 0xFC);
    assert_eq!(cpu.stack_pop8(&mem), 0xAB);
    assert_eq!(cpu.s, 0xFD);
}

#[test]
fn stack_pointer_wraps_at_both_ends() {
    let mut mem = Memory::new();
    let mut cpu = cpu_at(0);
    cpu.s = 0x00;
    cpu.stack_push8(&mut mem, 0x11);
    assert_eq!(mem.read(0x0100), 0x11);
    assert_eq!(cpu.s, 0xFF);
    cpu.stack_push8(&mut mem, 0x22);
    assert_eq!(mem.read(0x01FF), 0x22);
    assert_eq!(cpu.s, 0xFE);
    assert_eq!(cpu.stack_pop8(&mem), 0x22);
    assert_eq!(cpu.stack_pop8(&mem), 0x11);
    assert_eq!(cpu.s, 0x00);
}

#[test]
fn stack_pointer_returns_after_256_pushes_and_after_256_pops() {
    for start in [0x00u8, 0x01, 0x7F, 0xFD, 0xFF] {
        let mut mem = Memory::new();
        let mut cpu = cpu_at(0);
        cpu.s = start;
        for i in 0..256u16 {
            cpu.stack_push8(&mut mem, i as u8);
        }
        assert_eq!(cpu.s, start);
        for _ in 0..256 {
            cpu.stack_pop8(&mem);
        }
        assert_eq!(cpu.s, start);
        // nothing outside the stack page was written
        assert_eq!(mem.read(0x00FF), 0);
        assert_eq!(mem.read(0x0200), 0);
    }
}

#[test]
fn words_are_pushed_high_byte_first() {
    let mut mem = Memory::new();
    let mut cpu = cpu_at(0);
    cpu.stack_push16(&mut mem, 0x1234);
    assert_eq!(mem.read(0x01FD), 0x12);
    assert_eq!(mem.read(0x01FC), 0x34);
    assert_eq!(cpu.s, 0xFB);
    assert_eq!(cpu.stack_pop16(&mem), 0x1234);
    assert_eq!(cpu.s, 0xFD);
}

#[test]
fn pha_and_pla_move_the_accumulator() {
    let mut mem = Memory::new();
    let mut cpu = cpu_at(0);
    cpu.a = 0x80;
    cpu.pha(&mut mem);
    assert_eq!(mem.read(0x01FD), 0x80);
    cpu.a = 0x01;
    cpu.pla(&mem);
    assert_eq!(cpu.a, 0x80);
    assert!(cpu.get_status(FLAG_NEGATIVE));
    assert_eq!(cpu.s, 0xFD);
    cpu.a = 0x00;
    cpu.pha(&mut mem);
    cpu.a = 0x55;
    cpu.pla(&mem);
    assert_eq!(cpu.a, 0x00);
    assert!(cpu.get_status(FLAG_ZERO));
}

#[test]
fn php_pushes_status_with_break_and_unused_set() {
    let mut mem = Memory::new();
    let mut cpu = cpu_at(0);
    cpu.p = 0x05;
    cpu.php(&mut mem);
    assert_eq!(mem.read(0x01FD), 0x35);
    assert_eq!(cpu.p, 0x05);
    assert_eq!(cpu.s, 0xFC);
    cpu.p = 0xCF;
    cpu.php(&mut mem);
    assert_eq!(mem.read(0x01FC), 0xFF);
}

#[test]
fn plp_clears_break_and_sets_unused() {
    let mut mem = Memory::new();
    let mut cpu = cpu_at(0);
    mem.write(0x01FE, 0xFF);
    cpu.plp(&mem);
    assert_eq!(cpu.p, 0xEF);
    assert_eq!(cpu.s, 0xFE);
    mem.write(0x01FF, 0x00);
    cpu.plp(&mem);
    assert_eq!(cpu.p, 0x20);
    assert_eq!(cpu.s, 0xFF);
}

#[test]
fn php_then_plp_keeps_the_six_real_flags() {
    for p in [0x00u8, 0x01, 0x42, 0x80, 0xC3, 0xCF, 0xFF] {
        let mut mem = Memory::new();
        let mut cpu = cpu_at(0);
        cpu.p = p;
        cpu.php(&mut mem);
        cpu.p = !p;
        cpu.plp(&mem);
        assert_eq!(cpu.p, (p & 0xCF) | 0x20);
        assert_eq!(cpu.s, 0xFD);
    }
}

#[test]
fn jmp_sets_the_program_counter() {
    let (mut cpu, mut mem) = machine(&[0x4C, 0x34, 0x12]);
    assert_eq!(cpu.step(&mut mem), Ok(()));
    assert_eq!(cpu.pc, 0x1234);
    assert_eq!(cpu.cycles, 3);
    let (mut cpu, mut mem) = machine(&[0x6C, 0x20, 0x01]);
    mem.write(0x0120, 0xCD);
    mem.write(0x0121, 0xAB);
    assert_eq!(cpu.step(&mut mem), Ok(()));
    assert_eq!(cpu.pc, 0xABCD);
    assert_eq!(cpu.cycles, 5);
}

#[test]
fn jsr_pushes_the_address_of_its_last_byte() {
    let (mut cpu, mut mem) = machine(&[0x20, 0x00, 0x90]);
    assert_eq!(cpu.step(&mut mem), Ok(()));
    assert_eq!(cpu.pc, 0x9000);
    assert_eq!(cpu.s, 0xFB);
    assert_eq!(mem.read(0x01FD), 0x80);
    assert_eq!(mem.read(0x01FC), 0x02);
    assert_eq!(cpu.cycles, 6);
}

#[test]
fn jsr_followed_by_rts_returns_behind_the_jsr() {
    let mut program = vec![0xEA; 0x20];
    program[0x05] = 0x20; // JSR $8010 at $8005
    program[0x06] = 0x10;
    program[0x07] = 0x80;
    program[0x10] = 0x60; // RTS
    let mut mem = Memory::new();
    mem.load_program(&program);
    let mut cpu = cpu_at(0x8005);
    cpu.a = 0x11;
    cpu.x = 0x22;
    cpu.y = 0x33;
    let before = cpu;
    assert_eq!(cpu.step(&mut mem), Ok(()));
    assert_eq!(cpu.pc, 0x8010);
    assert_eq!(cpu.step(&mut mem), Ok(()));
    assert_eq!(cpu.pc, 0x8008);
    assert_eq!(cpu.s, before.s);
    assert_eq!(cpu, Cpu { pc: 0x8008, cycles: 12, ..before });
}

#[test]
fn jsr_and_rts_round_trip_at_the_ends_of_stack_and_bus() {
    for s in [0x00u8, 0x01, 0xFF] {
        let mut mem = Memory::new();
        mem.write(0xFFFD, 0x20); // JSR $0300 at $FFFD: the operand wraps to $FFFE, $FFFF
        mem.write(0xFFFE, 0x00);
        mem.write(0xFFFF, 0x03);
        mem.write(0x0300, 0x60);
        let mut cpu = cpu_at(0xFFFD);
        cpu.s = s;
        assert_eq!(cpu.step(&mut mem), Ok(()));
        assert_eq!(cpu.pc, 0x0300);
        assert_eq!(cpu.step(&mut mem), Ok(()));
        assert_eq!(cpu.pc, 0x0000);
        assert_eq!(cpu.s, s);
    }
}

#[test]
fn jsr_method_pushes_pc_plus_offset() {
    let mut mem = Memory::new();
    let mut cpu = cpu_at(0x80FF);
    cpu.jsr(&mut mem, 0x1234, 2);
    assert_eq!(cpu.pc, 0x1234);
    assert_eq!(mem.read(0x01FD), 0x81);
    assert_eq!(mem.read(0x01FC), 0x01);
    let mut cpu = cpu_at(0xFFFF);
    cpu.jsr(&mut mem, 0x4321, 2);
    assert_eq!(mem.read(0x01FD), 0x00);
    assert_eq!(mem.read(0x01FC), 0x01);
}

#[test]
fn rts_adds_one_to_the_pulled_address() {
    let mut mem = Memory::new();
    mem.write(0x01FE, 0xFF);
    mem.write(0x01FF, 0x12);
    let mut cpu = cpu_at(0);
    cpu.rts(&mem);
    assert_eq!(cpu.pc, 0x1300);
    assert_eq!(cpu.s, 0xFF);
    mem.write(0x0100, 0xFF);
    mem.write(0x0101, 0xFF);
    cpu.rts(&mem);
    assert_eq!(cpu.pc, 0x0000);
    assert_eq!(cpu.s, 0x01);
}

#[test]
fn rti_pulls_status_then_address_without_adding_one() {
    let mut mem = Memory::new();
    mem.write(0x01FE, 0xD3);
    mem.write(0x01FF, 0x34);
    mem.write(0x0100, 0x12);
    let mut cpu = cpu_at(0);
    cpu.rti(&mem);
    assert_eq!(cpu.p, 0xE3);
    assert_eq!(cpu.pc, 0x1234);
    assert_eq!(cpu.s, 0x00);
}

#[test]
fn brk_pushes_state_and_takes_the_interrupt_vector() {
    let (mut cpu, mut mem) = machine(&[0x00]);
    mem.write(0xFFFE, 0x00);
    mem.write(0xFFFF, 0x90);
    cpu.p = 0x00;
    assert_eq!(cpu.step(&mut mem), Ok(()));
    assert_eq!(cpu.pc, 0x9000);
    assert_eq!(mem.read(0x01FD), 0x80);
    assert_eq!(mem.read(0x01FC), 0x01);
    assert_eq!(mem.read(0x01FB), 0x30);
    assert_eq!(cpu.s, 0xFA);
    assert!(cpu.get_status(FLAG_INTERRUPT_DISABLE));
    assert!(!cpu.get_status(FLAG_B));
    assert_eq!(cpu.p, 0x04);
    assert_eq!(cpu.cycles, 7);
    // the handler returns to the byte behind the one that follows BRK
    mem.write(0x9000, 0x40);
    cpu.p = 0xC7;
    assert_eq!(cpu.step(&mut mem), Ok(()));
    assert_eq!(cpu.pc, 0x8001);
    assert_eq!(cpu.p, 0x20);
    assert_eq!(cpu.s, 0xFD);
}

#[test]
fn nmi_pushes_state_without_break_and_keeps_the_interrupted_address() {
    let mut mem = Memory::new();
    mem.write(0xFFFA, 0x00);
    mem.write(0xFFFB, 0xA0);
    let mut cpu = cpu_at(0x1234);
    cpu.p = 0x05;
    cpu.handle_nmi(&mut mem);
    assert_eq!(cpu.pc, 0xA000);
    assert_eq!(mem.read(0x01FD), 0x12);
    assert_eq!(mem.read(0x01FC), 0x34);
    assert_eq!(mem.read(0x01FB), 0x05);
    assert_eq!(cpu.s, 0xFA);
    assert_eq!(cpu.p, 0x05);
    // returning resumes the interrupted instruction
    cpu.rti(&mem);
    assert_eq!(cpu.pc, 0x1234);
    assert_eq!(cpu.s, 0xFD);
}

fn branch_case(opcode: u8, p: u8) -> (u16, u32) {
    let (mut cpu, mut mem) = machine(&[opcode, 0x10]);
    cpu.p = p;
    assert_eq!(cpu.step(&mut mem), Ok(()));
    (cpu.pc, cpu.cycles)
}

#[test]
fn branches_test_their_flag() {
    let taken = (0x8012, 3);
    let not_taken = (0x8002, 2);
    // BCC, BCS
    assert_eq!(branch_case(0x90, 0x00), taken);
    assert_eq!(branch_case(0x90, FLAG_CARRY), not_taken);
    assert_eq!(branch_case(0xB0, FLAG_CARRY), taken);
    assert_eq!(branch_case(0xB0, 0x00), not_taken);
    // BEQ, BNE
    assert_eq!(branch_case(0xF0, FLAG_ZERO), taken);
    assert_eq!(branch_case(0xF0, 0x00), not_taken);
    assert_eq!(branch_case(0xD0, 0x00), taken);
    assert_eq!(branch_case(0xD0, FLAG_ZERO), not_taken);
    // BMI, BPL
    assert_eq!(branch_case(0x30, FLAG_NEGATIVE), taken);
    assert_eq!(branch_case(0x30, 0x00), not_taken);
    assert_eq!(branch_case(0x10, 0x00), taken);
    assert_eq!(branch_case(0x10, FLAG_NEGATIVE), not_taken);
    // BVS, BVC
    assert_eq!(branch_case(0x70, FLAG_OVERFLOW), taken);
    assert_eq!(branch_case(0x70, 0x00), not_taken);
    assert_eq!(branch_case(0x50, 0x00), taken);
    assert_eq!(branch_case(0x50, FLAG_OVERFLOW), not_taken);
}

#[test]
fn branches_ignore_the_other_flags() {
    assert_eq!(branch_case(0xD0, 0xFD), (0x8012, 3));
    assert_eq!(branch_case(0xD0, 0x02), (0x8002, 2));
    assert_eq!(branch_case(0x10, 0x7F), (0x8012, 3));
    assert_eq!(branch_case(0x10, 0x80), (0x8002, 2));
}

fn branch_at(pc: u16, displacement: u8) -> (u16, u32) {
    let mut mem = Memory::new();
    mem.write(pc, 0xD0);
    mem.write(pc.wrapping_add(1), displacement);
    let mut cpu = cpu_at(pc);
    cpu.p = 0x00;
    assert_eq!(cpu.step(&mut mem), Ok(()));
    (cpu.pc, cpu.cycles)
}

#[test]
fn taken_branch_on_the_same_page_costs_one_extra_cycle() {
    assert_eq!(branch_at(0x8000, 0x10), (0x8012, 3));
    assert_eq!(branch_at(0x8000, 0x00), (0x8002, 3));
    assert_eq!(branch_at(0x8080, 0x7D), (0x80FF, 3));
    assert_eq!(branch_at(0x8080, 0x80), (0x8002, 3));
    // the branch itself lies on the page before the next instruction
    assert_eq!(branch_at(0x80FE, 0x00), (0x8100, 3));
    assert_eq!(branch_at(0x80FE, 0x7F), (0x817F, 3));
}

#[test]
fn taken_branch_to_another_page_costs_two_extra_cycles() {
    assert_eq!(branch_at(0x80F0, 0x20), (0x8112, 4));
    assert_eq!(branch_at(0x8100, 0xFC), (0x80FE, 4));
    assert_eq!(branch_at(0x8080, 0x7E), (0x8100, 4));
    assert_eq!(branch_at(0x807E, 0x80), (0x8000, 3));
    assert_eq!(branch_at(0x807D, 0x80), (0x7FFF, 4));
    assert_eq!(branch_at(0x80FE, 0xFF), (0x80FF, 4));
    assert_eq!(branch_at(0xFFF0, 0x20), (0x0012, 4));
}

#[test]
fn branch_methods_take_the_unadvanced_target() {
    let mut cpu = cpu_at(0x8000);
    cpu.p = 0x00;
    cpu.bne(0x8010);
    assert_eq!((cpu.pc, cpu.cycles), (0x8010, 1));
    let mut cpu = cpu_at(0x8000);
    cpu.p = FLAG_ZERO;
    cpu.bne(0x8010);
    assert_eq!((cpu.pc, cpu.cycles), (0x8000, 0));
    let mut cpu = cpu_at(0x80F0);
    cpu.p = FLAG_CARRY;
    cpu.bcs(0x8110);
    assert_eq!((cpu.pc, cpu.cycles), (0x8110, 2));
    let mut cpu = cpu_at(0x8000);
    cpu.p = FLAG_ZERO | FLAG_NEGATIVE | FLAG_OVERFLOW;
    cpu.beq(0x8004);
    cpu.bmi(0x8008);
    cpu.bvs(0x800C);
    cpu.bcc(0x8010);
    assert_eq!((cpu.pc, cpu.cycles), (0x8010, 4));
    cpu.bpl(0x9000);
    cpu.bvc(0x9000);
    assert_eq!((cpu.pc, cpu.cycles), (0x8010, 4));
}

#[test]
fn branch_cycles_are_counted_without_moving_the_program_counter() {
    let mut cpu = cpu_at(0x8000);
    cpu.add_branch_cycles(0x8010);
    assert_eq!((cpu.pc, cpu.cycles), (0x8000, 1));
    cpu.add_branch_cycles(0x80FE);
    assert_eq!((cpu.pc, cpu.cycles), (0x8000, 3));
    cpu.add_branch_cycles(0x80FD);
    assert_eq!((cpu.pc, cpu.cycles), (0x8000, 4));
    let mut cpu = cpu_at(0xFFFE);
    cpu.add_branch_cycles(0x0000);
    assert_eq!(cpu.cycles, 1);
    cpu.add_branch_cycles(0xFFFD);
    assert_eq!(cpu.cycles, 3);
}

#[test]
fn nop_only_takes_time() {
    let (mut cpu, mut mem) = machine(&[0xEA]);
    let before = cpu;
    assert_eq!(cpu.step(&mut mem), Ok(()));
    assert_eq!(cpu, Cpu { pc: 0x8001, cycles: 2, ..before });
    cpu.nop();
    assert_eq!(cpu, Cpu { pc: 0x8001, cycles: 2, ..before });
}

#[test]
fn unknown_opcode_is_reported_and_changes_nothing() {
    let (mut cpu, mut mem) = machine(&[0x02, 0xFF]);
    cpu.a = 0x12;
    let before = cpu;
    assert_eq!(cpu.step(&mut mem), Err(Anomaly { opcode: 0x02, pc: 0x8000 }));
    assert_eq!(cpu, before);
    assert_eq!(mem.read(0x8000), 0x02);
    assert_eq!(mem.read(0x01FD), 0);
    // it stays halted on the same byte
    assert_eq!(cpu.step(&mut mem), Err(Anomaly { opcode: 0x02, pc: 0x8000 }));
    assert_eq!(cpu.execute_opcode(0xFF, &mut mem), Err(Anomaly { opcode: 0xFF, pc: 0x8000 }));
    assert_eq!(cpu, before);
}

#[test]
fn execute_opcode_runs_the_opcode_it_is_given() {
    let (mut cpu, mut mem) = machine(&[0x02, 0x42]);
    // LDA #$42, whatever byte is at the program counter
    assert_eq!(cpu.execute_opcode(0xA9, &mut mem), Ok(()));
    assert_eq!(cpu.a, 0x42);
    assert_eq!(cpu.pc, 0x8002);
    assert_eq!(cpu.cycles, 2);
}

#[test]
fn lda_in_every_addressing_mode() {
    let mut mem = Memory::new();
    mem.load_program(&[
        0xA9, 0x01, // LDA #$01
        0xA5, 0x10, // LDA $10
        0xB5, 0x10, // LDA $10,X
        0xAD, 0x00, 0x03, // LDA $0300
        0xBD, 0x00, 0x03, // LDA $0300,X
        0xB9, 0x00, 0x03, // LDA $0300,Y
        0xA1, 0x20, // LDA ($20,X)
        0xB1, 0x30, // LDA ($30),Y
    ]);
    mem.write(0x0010, 0x02);
    mem.write(0x0014, 0x03);
    mem.write(0x0300, 0x04);
    mem.write(0x0304, 0x05);
    mem.write(0x0308, 0x06);
    mem.write(0x0024, 0x00);
    mem.write(0x0025, 0x04);
    mem.write(0x0400, 0x07);
    mem.write(0x0030, 0x00);
    mem.write(0x0031, 0x05);
    mem.write(0x0508, 0x08);
    let mut cpu = cpu_at(0x8000);
    cpu.x = 4;
    cpu.y = 8;
    let expected = [
        (0x01, 0x8002, 2),
        (0x02, 0x8004, 5),
        (0x03, 0x8006, 9),
        (0x04, 0x8009, 13),
        (0x05, 0x800C, 17),
        (0x06, 0x800F, 21),
        (0x07, 0x8011, 27),
        (0x08, 0x8013, 32),
    ];
    for (a, pc, cycles) in expected {
        assert_eq!(cpu.step(&mut mem), Ok(()));
        assert_eq!((cpu.a, cpu.pc, cpu.cycles), (a, pc, cycles));
    }
}

#[test]
fn ldx_and_ldy_use_the_other_index() {
    let mut mem = Memory::new();
    mem.load_program(&[
        0xB6, 0x10, // LDX $10,Y
        0xB4, 0x10, // LDY $10,X
        0xBE, 0x00, 0x03, // LDX $0300,Y
        0xBC, 0x00, 0x03, // LDY $0300,X
        0x96, 0x40, // STX $40,Y
        0x94, 0x40, // STY $40,X
    ]);
    mem.write(0x0012, 0x07);
    mem.write(0x0017, 0x09);
    mem.write(0x0309, 0x0B);
    mem.write(0x030B, 0x0D);
    let mut cpu = cpu_at(0x8000);
    cpu.y = 2;
    assert_eq!(cpu.step(&mut mem), Ok(()));
    assert_eq!(cpu.x, 0x07);
    assert_eq!(cpu.step(&mut mem), Ok(()));
    assert_eq!(cpu.y, 0x09);
    assert_eq!(cpu.step(&mut mem), Ok(()));
    assert_eq!(cpu.x, 0x0B);
    assert_eq!(cpu.step(&mut mem), Ok(()));
    assert_eq!(cpu.y, 0x0D);
    assert_eq!(cpu.step(&mut mem), Ok(()));
    assert_eq!(mem.read(0x004D), 0x0B);
    assert_eq!(cpu.step(&mut mem), Ok(()));
    assert_eq!(mem.read(0x004B), 0x0D);
    assert_eq!(cpu.pc, 0x800E);
    assert_eq!(cpu.cycles, 4 + 4 + 4 + 4 + 4 + 4);
}

#[test]
fn reads_pay_for_a_page_crossing_and_stores_do_not() {
    // LDA $02F0,X with X = 0x20 crosses into page 3
    let (mut cpu, mut mem) = machine(&[0xBD, 0xF0, 0x02]);
    cpu.x = 0x20;
    mem.write(0x0310, 0x99);
    assert_eq!(cpu.step(&mut mem), Ok(()));
    assert_eq!((cpu.a, cpu.cycles), (0x99, 5));
    // without crossing
    let (mut cpu, mut mem) = machine(&[0xBD, 0xF0, 0x02]);
    cpu.x = 0x0F;
    assert_eq!(cpu.step(&mut mem), Ok(()));
    assert_eq!(cpu.cycles, 4);
    // LDA $02F0,Y
    let (mut cpu, mut mem) = machine(&[0xB9, 0xF0, 0x02]);
    cpu.y = 0x10;
    assert_eq!(cpu.step(&mut mem), Ok(()));
    assert_eq!(cpu.cycles, 5);
    // LDA ($30),Y
    let (mut cpu, mut mem) = machine(&[0xB1, 0x30]);
    mem.write(0x0030, 0xFF);
    mem.write(0x0031, 0x02);
    mem.write(0x0300, 0x77);
    cpu.y = 0x01;
    assert_eq!(cpu.step(&mut mem), Ok(()));
    assert_eq!((cpu.a, cpu.cycles), (0x77, 6));
    // STA $02F0,X takes five cycles either way
    let (mut cpu, mut mem) = machine(&[0x9D, 0xF0, 0x02]);
    cpu.x = 0x20;
    cpu.a = 0x5A;
    assert_eq!(cpu.step(&mut mem), Ok(()));
    assert_eq!((mem.read(0x0310), cpu.cycles), (0x5A, 5));
    let (mut cpu, mut mem) = machine(&[0x9D, 0xF0, 0x02]);
    cpu.x = 0x01;
    assert_eq!(cpu.step(&mut mem), Ok(()));
    assert_eq!(cpu.cycles, 5);
    // INC $02F0,X takes seven cycles either way
    let (mut cpu, mut mem) = machine(&[0xFE, 0xF0, 0x02]);
    cpu.x = 0x20;
    assert_eq!(cpu.step(&mut mem), Ok(()));
    assert_eq!((mem.read(0x0310), cpu.cycles), (0x01, 7));
}

#[test]
fn crosses_page_and_resolve_agree_with_the_resolvers() {
    let (mut cpu, mut mem) = machine(&[0xBD, 0xF0, 0x02]);
    cpu.x = 0x20;
    cpu.y = 0x01;
    assert_eq!(cpu.resolve(AddressingMode::AbsoluteX, &mem), 0x0310);
    assert!(cpu.crosses_page(AddressingMode::AbsoluteX, &mem));
    assert_eq!(cpu.resolve(AddressingMode::AbsoluteY, &mem), 0x02F1);
    assert!(!cpu.crosses_page(AddressingMode::AbsoluteY, &mem));
    assert_eq!(cpu.resolve(AddressingMode::Absolute, &mem), 0x02F0);
    assert!(!cpu.crosses_page(AddressingMode::Absolute, &mem));
    assert_eq!(cpu.resolve(AddressingMode::Immediate, &mem), 0x8001);
    assert_eq!(cpu.resolve(AddressingMode::ZeroPage, &mem), 0x00F0);
    assert_eq!(cpu.resolve(AddressingMode::ZeroPageX, &mem), 0x0010);
    assert_eq!(cpu.resolve(AddressingMode::ZeroPageY, &mem), 0x00F1);
    assert_eq!(cpu.resolve(AddressingMode::Relative, &mem), 0x7FF0);
    assert_eq!(cpu.resolve(AddressingMode::Implied, &mem), 0x8000);
    assert_eq!(cpu.resolve(AddressingMode::Accumulator, &mem), 0x8000);
    mem.write(0x00F0, 0xFF);
    mem.write(0x00F1, 0x03);
    assert_eq!(cpu.resolve(AddressingMode::IndirectIndexed, &mem), 0x0400);
    assert!(cpu.crosses_page(AddressingMode::IndirectIndexed, &mem));
    mem.write(0x0010, 0x44);
    mem.write(0x0011, 0x55);
    assert_eq!(cpu.resolve(AddressingMode::IndexedIndirect, &mem), 0x5544);
    mem.write(0x02F0, 0x21);
    mem.write(0x02F1, 0x43);
    assert_eq!(cpu.resolve(AddressingMode::Indirect, &mem), 0x4321);
}

#[test]
fn a_small_program_counts_down() {
    // LDX #$03; loop: DEX; BNE loop; STX $0200
    let (mut cpu, mut mem) = machine(&[0xA2, 0x03, 0xCA, 0xD0, 0xFD, 0x8E, 0x00, 0x02]);
    mem.write(0x0200, 0xFF);
    let mut steps = 0;
    while cpu.pc != 0x8008 {
        assert_eq!(cpu.step(&mut mem), Ok(()));
        steps += 1;
        assert!(steps < 100);
    }
    assert_eq!(steps, 8);
    assert_eq!(cpu.x, 0);
    assert_eq!(mem.read(0x0200), 0);
    // LDX 2, three DEX 6, two taken branches 6, one not taken 2, STX 4
    assert_eq!(cpu.cycles, 2 + 6 + 6 + 2 + 4);
}

#[test]
fn read_modify_write_instructions_work_through_step() {
    let (mut cpu, mut mem) = machine(&[
        0x06, 0x10, // ASL $10
        0x46, 0x10, // LSR $10
        0x26, 0x10, // ROL $10
        0x66, 0x10, // ROR $10
        0xE6, 0x10, // INC $10
        0xC6, 0x10, // DEC $10
        0x0A, // ASL A
        0x4A, // LSR A
        0x2A, // ROL A
        0x6A, // ROR A
    ]);
    mem.write(0x0010, 0x81);
    cpu.a = 0x81;
    cpu.p = 0x00;
    let expected_memory = [0x02, 0x01, 0x02, 0x01, 0x02, 0x01];
    for value in expected_memory {
        assert_eq!(cpu.step(&mut mem), Ok(()));
        assert_eq!(mem.read(0x0010), value);
        assert_eq!(cpu.a, 0x81);
    }
    assert_eq!(cpu.cycles, 30);
    let expected_accumulator = [0x02, 0x01, 0x02, 0x01];
    for value in expected_accumulator {
        assert_eq!(cpu.step(&mut mem), Ok(()));
        assert_eq!(cpu.a, value);
        assert_eq!(mem.read(0x0010), 0x01);
    }
    assert_eq!(cpu.pc, 0x8010);
    assert_eq!(cpu.cycles, 38);
}

#[test]
fn polling_the_status_register_sees_the_vertical_blank_flag() {
    // loop: BIT $2002; BPL loop
    let (mut cpu, mut mem) = machine(&[0x2C, 0x02, 0x20, 0x10, 0xFB]);
    assert_eq!(cpu.step(&mut mem), Ok(()));
    assert_eq!(cpu.step(&mut mem), Ok(()));
    assert_eq!(cpu.pc, 0x8000);
    mem.write(0x2002, 0x80);
    assert_eq!(cpu.step(&mut mem), Ok(()));
    assert_eq!(cpu.step(&mut mem), Ok(()));
    assert_eq!(cpu.pc, 0x8005);
}

#[test]
fn cycle_counter_wraps() {
    let (mut cpu, mut mem) = machine(&[0xEA]);
    cpu.cycles = u32::MAX;
    assert_eq!(cpu.step(&mut mem), Ok(()));
    assert_eq!(cpu.cycles, 1);
}

#[test]
fn program_counter_wraps_at_the_top_of_the_bus() {
    let mut mem = Memory::new();
    mem.write(0xFFFF, 0xA9); // LDA #$33, its operand at $0000
    mem.write(0x0000, 0x33);
    let mut cpu = cpu_at(0xFFFF);
    assert_eq!(cpu.step(&mut mem), Ok(()));
    assert_eq!(cpu.a, 0x33);
    assert_eq!(cpu.pc, 0x0001);
}
