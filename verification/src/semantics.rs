//! What each instruction does, as functions from the state before it to the
//! state after it.
//!
//! A state is the processor's registers (`Cpu`) and the bytes on the bus
//! (`Seq<u8>` of `MEMORY_SIZE` bytes). Results are stated with integer
//! arithmetic; the executable processor in `cpu` computes them with shifts
//! and masks and is proved to agree.
//!
//! `perform` and `execute_decoded` are opaque, so that a proof about one
//! instruction does not carry the table of all of them: `reveal` them where
//! the effect of a given instruction is wanted.

use vstd::prelude::*;
use crate::cpu::Cpu;
use crate::memory::{
    absolute_address, byte_at, immediate_address, indexed_indirect_address, indirect_address,
    indirect_indexed_address, operand_byte, operand_word, relative_address, word_at,
    zero_page_address, zero_page_word, AddressingMode, IRQ_VECTOR, NMI_VECTOR,
};
use crate::opcodes::{
    decode_spec, instruction_length, pays_page_penalty, sets_program_counter, Instruction, Opcode,
};
use crate::status::{
    carry_in, flag, with_flag, with_zn, FLAG_CARRY, FLAG_DECIMAL, FLAG_INTERRUPT_DISABLE,
    FLAG_NEGATIVE, FLAG_OVERFLOW, FLAG_ZERO,
};
use crate::words::{high_byte, low_byte, page_of, word, wrap16, wrap32, wrap8};

verus! {

// ---------------------------------------------------------------------------
// Registers
/// The accumulator takes `val`; zero and negative describe it.
pub open spec fn load_a(c: Cpu, val: u8) -> Cpu {
    Cpu { a: val, p: with_zn(c.p, val), ..c }
}

/// The X register takes `val`; zero and negative describe it.
pub open spec fn load_x(c: Cpu, val: u8) -> Cpu {
    Cpu { x: val, p: with_zn(c.p, val), ..c }
}

/// The Y register takes `val`; zero and negative describe it.
pub open spec fn load_y(c: Cpu, val: u8) -> Cpu {
    Cpu { y: val, p: with_zn(c.p, val), ..c }
}

/// One flag of the status register is set or cleared.
pub open spec fn set_flag(c: Cpu, mask: u8, on: bool) -> Cpu {
    Cpu { p: with_flag(c.p, mask, on), ..c }
}

// ---------------------------------------------------------------------------
// Arithmetic
/// Whether the bytes `a` and `b` have the same sign bit.
pub open spec fn same_sign(a: u8, b: u8) -> bool {
    (a >= 128) == (b >= 128)
}

/// `ADC`: the accumulator takes accumulator + `val` + carry, reduced to a
/// byte. Carry is bit 8 of the sum; overflow says that both operands have
/// one sign and the result the other; zero and negative describe the
/// result.
pub open spec fn add_with_carry(c: Cpu, val: u8) -> Cpu {
    let sum = c.a + val + carry_in(c.p);
    let result = wrap8(sum);
    let overflow = same_sign(c.a, val) && !same_sign(c.a, result);
    Cpu {
        a: result,
        p: with_zn(
            with_flag(with_flag(c.p, FLAG_CARRY, sum > 255), FLAG_OVERFLOW, overflow),
            result,
        ),
        ..c
    }
}

/// `SBC`: the addition of the complement of `val`.
pub open spec fn subtract_with_carry(c: Cpu, val: u8) -> Cpu {
    add_with_carry(c, (255 - val) as u8)
}

/// `CMP`, `CPX`, `CPY`: carry says that `register` is at least `val`; zero
/// and negative describe the difference reduced to a byte, which is not
/// kept.
pub open spec fn compare_with(c: Cpu, register: u8, val: u8) -> Cpu {
    Cpu { p: with_zn(with_flag(c.p, FLAG_CARRY, register >= val), wrap8(register - val)), ..c }
}

/// `BIT`: negative and overflow take bits 7 and 6 of `val`; zero says that
/// the accumulator and `val` share no bit.
pub open spec fn bit_test(c: Cpu, val: u8) -> Cpu {
    Cpu {
        p: with_flag(
            with_flag(
                with_flag(c.p, FLAG_NEGATIVE, val >= 128),
                FLAG_OVERFLOW,
                (val / 64) % 2 == 1,
            ),
            FLAG_ZERO,
            c.a & val == 0,
        ),
        ..c
    }
}

// ---------------------------------------------------------------------------
// Shifts and rotations
/// `val` shifted left by one bit.
pub open spec fn shift_left(val: u8) -> u8 {
    wrap8(2 * val)
}

/// `val` shifted right by one bit.
pub open spec fn shift_right(val: u8) -> u8 {
    val / 2
}

/// `val` rotated left through the carry flag of `p`.
pub open spec fn rotate_left(val: u8, p: u8) -> u8 {
    wrap8(2 * val + carry_in(p))
}

/// `val` rotated right through the carry flag of `p`.
pub open spec fn rotate_right(val: u8, p: u8) -> u8 {
    (val / 2 + 128 * carry_in(p)) as u8
}

/// Bit 7 of `val`: what a shift or rotation to the left moves out.
pub open spec fn top_bit(val: u8) -> bool {
    val >= 128
}

/// Bit 0 of `val`: what a shift or rotation to the right moves out.
pub open spec fn bottom_bit(val: u8) -> bool {
    val % 2 == 1
}

/// A shift or rotation of the accumulator: it takes `result`, carry takes
/// the bit moved out, zero and negative describe `result`.
pub open spec fn shift_accumulator(c: Cpu, result: u8, carry_out: bool) -> Cpu {
    Cpu { a: result, p: with_zn(with_flag(c.p, FLAG_CARRY, carry_out), result), ..c }
}

/// A shift or rotation of the byte at `address`.
pub open spec fn shift_memory(c: Cpu, m: Seq<u8>, address: u16, result: u8, carry_out: bool) -> (
    Cpu,
    Seq<u8>,
) {
    (
        Cpu { p: with_zn(with_flag(c.p, FLAG_CARRY, carry_out), result), ..c },
        m.update(address as int, result),
    )
}

/// `INC`, `DEC`: the byte at `address` takes `result`; zero and negative
/// describe it.
pub open spec fn modify_memory(c: Cpu, m: Seq<u8>, address: u16, result: u8) -> (Cpu, Seq<u8>) {
    (Cpu { p: with_zn(c.p, result), ..c }, m.update(address as int, result))
}

// ---------------------------------------------------------------------------
// The stack
/// The bus address that the stack pointer `s` names: the stack lies on page 1.
pub open spec fn stack_address(s: u8) -> u16 {
    (0x0100 + s) as u16
}

/// Push a byte: it is stored where the stack pointer points, and the stack
/// pointer steps down, from 0x00 to 0xFF.
pub open spec fn push8(c: Cpu, m: Seq<u8>, val: u8) -> (Cpu, Seq<u8>) {
    (Cpu { s: wrap8(c.s - 1), ..c }, m.update(stack_address(c.s) as int, val))
}

/// Pull a byte: the stack pointer steps up, from 0xFF to 0x00, and the byte
/// it then points at is the result.
pub open spec fn pull8(c: Cpu, m: Seq<u8>) -> (Cpu, u8) {
    let s = wrap8(c.s + 1);
    (Cpu { s, ..c }, byte_at(m, stack_address(s)))
}

/// Push a word, high byte first.
pub open spec fn push16(c: Cpu, m: Seq<u8>, val: u16) -> (Cpu, Seq<u8>) {
    let (c1, m1) = push8(c, m, high_byte(val));
    push8(c1, m1, low_byte(val))
}

/// Pull a word, low byte first.
pub open spec fn pull16(c: Cpu, m: Seq<u8>) -> (Cpu, u16) {
    let (c1, lo) = pull8(c, m);
    let (c2, hi) = pull8(c1, m);
    (c2, word(lo, hi))
}

/// What `PHP` and `BRK` push for the status byte `p`: break and the unused
/// bit are set in the pushed copy.
pub open spec fn pushed_status(p: u8) -> u8 {
    p | 0x30
}

/// What `PLP` and `RTI` make of a pulled byte: break is cleared and the
/// unused bit is set.
pub open spec fn pulled_status(val: u8) -> u8 {
    val & 0xEF | 0x20
}

/// `PLA`.
pub open spec fn pull_accumulator(c: Cpu, m: Seq<u8>) -> Cpu {
    let (c1, val) = pull8(c, m);
    load_a(c1, val)
}

/// `PLP`.
pub open spec fn pull_status(c: Cpu, m: Seq<u8>) -> Cpu {
    let (c1, val) = pull8(c, m);
    Cpu { p: pulled_status(val), ..c1 }
}

// ---------------------------------------------------------------------------
// Control flow
/// `JSR`: the address of the last byte of the instruction is pushed, and
/// the program counter takes `target`.
pub open spec fn jump_to_subroutine(c: Cpu, m: Seq<u8>, target: u16) -> (Cpu, Seq<u8>) {
    let (c1, m1) = push16(c, m, wrap16(c.pc + 2));
    (Cpu { pc: target, ..c1 }, m1)
}

/// `RTS`: the program counter takes the pulled word plus one.
pub open spec fn return_from_subroutine(c: Cpu, m: Seq<u8>) -> Cpu {
    let (c1, ret) = pull16(c, m);
    Cpu { pc: wrap16(ret + 1), ..c1 }
}

/// `RTI`: the status is pulled, then the program counter.
pub open spec fn return_from_interrupt(c: Cpu, m: Seq<u8>) -> Cpu {
    let c1 = pull_status(c, m);
    let (c2, ret) = pull16(c1, m);
    Cpu { pc: ret, ..c2 }
}

/// `BRK`: the program counter plus one is pushed, then the status with
/// break set in the pushed copy; interrupt-disable is set; the program
/// counter takes the interrupt vector.
pub open spec fn software_interrupt(c: Cpu, m: Seq<u8>) -> (Cpu, Seq<u8>) {
    let (c1, m1) = push16(c, m, wrap16(c.pc + 1));
    let (c2, m2) = push8(c1, m1, pushed_status(c1.p));
    let c3 = set_flag(c2, FLAG_INTERRUPT_DISABLE, true);
    (Cpu { pc: word_at(m2, IRQ_VECTOR), ..c3 }, m2)
}

/// Entry into the non-maskable interrupt: the program counter and the
/// status are pushed as they are, and the program counter takes the
/// interrupt's vector.
pub open spec fn non_maskable_interrupt(c: Cpu, m: Seq<u8>) -> (Cpu, Seq<u8>) {
    let (c1, m1) = push16(c, m, c.pc);
    let (c2, m2) = push8(c1, m1, c1.p);
    (Cpu { pc: word_at(m2, NMI_VECTOR), ..c2 }, m2)
}

/// Cycles that a taken branch adds: one, or two when the branch target and
/// the instruction after the branch lie on different pages. `pc` is the
/// address of the branch and `target` that address plus the displacement,
/// so the two addresses compared are each two bytes further.
pub open spec fn branch_penalty(pc: u16, target: u16) -> int {
    if page_of(wrap16(pc + 2)) == page_of(wrap16(target + 2)) {
        1
    } else {
        2
    }
}

/// A conditional branch: where `taken`, the program counter takes `target`
/// and the cycle count grows by the branch penalty.
pub open spec fn branch(c: Cpu, taken: bool, target: u16) -> Cpu {
    if taken {
        Cpu { pc: target, cycles: wrap32(c.cycles + branch_penalty(c.pc, target)), ..c }
    } else {
        c
    }
}

/// Whether the conditional branch `instruction` is taken with the status
/// byte `p`. `BNE` and `BPL` branch on a clear flag, as do `BCC` and `BVC`.
pub open spec fn branch_taken(instruction: Instruction, p: u8) -> bool {
    match instruction {
        Instruction::BCC => !flag(p, FLAG_CARRY),
        Instruction::BCS => flag(p, FLAG_CARRY),
        Instruction::BEQ => flag(p, FLAG_ZERO),
        Instruction::BMI => flag(p, FLAG_NEGATIVE),
        Instruction::BNE => !flag(p, FLAG_ZERO),
        Instruction::BPL => !flag(p, FLAG_NEGATIVE),
        Instruction::BVC => !flag(p, FLAG_OVERFLOW),
        Instruction::BVS => flag(p, FLAG_OVERFLOW),
        _ => false,
    }
}

// ---------------------------------------------------------------------------
// One instruction
/// The operand address of the instruction at the program counter.
pub open spec fn operand_address(mode: AddressingMode, c: Cpu, m: Seq<u8>) -> u16 {
    match mode {
        AddressingMode::Implied | AddressingMode::Accumulator => c.pc,
        AddressingMode::Immediate => immediate_address(c.pc),
        AddressingMode::ZeroPage => zero_page_address(m, c.pc, 0),
        AddressingMode::ZeroPageX => zero_page_address(m, c.pc, c.x),
        AddressingMode::ZeroPageY => zero_page_address(m, c.pc, c.y),
        AddressingMode::Absolute => absolute_address(m, c.pc, 0),
        AddressingMode::AbsoluteX => absolute_address(m, c.pc, c.x),
        AddressingMode::AbsoluteY => absolute_address(m, c.pc, c.y),
        AddressingMode::Indirect => indirect_address(m, c.pc),
        AddressingMode::IndexedIndirect => indexed_indirect_address(m, c.pc, c.x),
        AddressingMode::IndirectIndexed => indirect_indexed_address(m, c.pc, c.y),
        AddressingMode::Relative => relative_address(m, c.pc),
    }
}

/// Whether adding the index moved the operand address to another page than
/// the address it was added to.
pub open spec fn crosses_page(mode: AddressingMode, c: Cpu, m: Seq<u8>) -> bool {
    match mode {
        AddressingMode::AbsoluteX | AddressingMode::AbsoluteY => page_of(operand_word(m, c.pc))
            != page_of(operand_address(mode, c, m)),
        AddressingMode::IndirectIndexed => page_of(zero_page_word(m, operand_byte(m, c.pc)))
            != page_of(operand_address(mode, c, m)),
        _ => false,
    }
}

/// The effect of `instruction` on registers and bus, its operand being at
/// `address`. The program counter is changed by jumps and taken branches
/// only, the cycle count by taken branches only.
#[verifier::opaque]
pub open spec fn perform(
    instruction: Instruction,
    mode: AddressingMode,
    c: Cpu,
    m: Seq<u8>,
    address: u16,
) -> (Cpu, Seq<u8>) {
    let val = byte_at(m, address);
    let on_accumulator = mode == AddressingMode::Accumulator;
    match instruction {
        Instruction::ADC => (add_with_carry(c, val), m),
        Instruction::AND => (load_a(c, c.a & val), m),
        Instruction::ASL => if on_accumulator {
            (shift_accumulator(c, shift_left(c.a), top_bit(c.a)), m)
        } else {
            shift_memory(c, m, address, shift_left(val), top_bit(val))
        },
        Instruction::BCC => (branch(c, branch_taken(instruction, c.p), address), m),
        Instruction::BCS => (branch(c, branch_taken(instruction, c.p), address), m),
        Instruction::BEQ => (branch(c, branch_taken(instruction, c.p), address), m),
        Instruction::BIT => (bit_test(c, val), m),
        Instruction::BMI => (branch(c, branch_taken(instruction, c.p), address), m),
        Instruction::BNE => (branch(c, branch_taken(instruction, c.p), address), m),
        Instruction::BPL => (branch(c, branch_taken(instruction, c.p), address), m),
        Instruction::BRK => software_interrupt(c, m),
        Instruction::BVC => (branch(c, branch_taken(instruction, c.p), address), m),
        Instruction::BVS => (branch(c, branch_taken(instruction, c.p), address), m),
        Instruction::CLC => (set_flag(c, FLAG_CARRY, false), m),
        Instruction::CLD => (set_flag(c, FLAG_DECIMAL, false), m),
        Instruction::CLI => (set_flag(c, FLAG_INTERRUPT_DISABLE, false), m),
        Instruction::CLV => (set_flag(c, FLAG_OVERFLOW, false), m),
        Instruction::CMP => (compare_with(c, c.a, val), m),
        Instruction::CPX => (compare_with(c, c.x, val), m),
        Instruction::CPY => (compare_with(c, c.y, val), m),
        Instruction::DEC => modify_memory(c, m, address, wrap8(val - 1)),
        Instruction::DEX => (load_x(c, wrap8(c.x - 1)), m),
        Instruction::DEY => (load_y(c, wrap8(c.y - 1)), m),
        Instruction::EOR => (load_a(c, c.a ^ val), m),
        Instruction::INC => modify_memory(c, m, address, wrap8(val + 1)),
        Instruction::INX => (load_x(c, wrap8(c.x + 1)), m),
        Instruction::INY => (load_y(c, wrap8(c.y + 1)), m),
        Instruction::JMP => (Cpu { pc: address, ..c }, m),
        Instruction::JSR => jump_to_subroutine(c, m, address),
        Instruction::LDA => (load_a(c, val), m),
        Instruction::LDX => (load_x(c, val), m),
        Instruction::LDY => (load_y(c, val), m),
        Instruction::LSR => if on_accumulator {
            (shift_accumulator(c, shift_right(c.a), bottom_bit(c.a)), m)
        } else {
            shift_memory(c, m, address, shift_right(val), bottom_bit(val))
        },
        Instruction::NOP => (c, m),
        Instruction::ORA => (load_a(c, c.a | val), m),
        Instruction::PHA => push8(c, m, c.a),
        Instruction::PHP => push8(c, m, pushed_status(c.p)),
        Instruction::PLA => (pull_accumulator(c, m), m),
        Instruction::PLP => (pull_status(c, m), m),
        Instruction::ROL => if on_accumulator {
            (shift_accumulator(c, rotate_left(c.a, c.p), top_bit(c.a)), m)
        } else {
            shift_memory(c, m, address, rotate_left(val, c.p), top_bit(val))
        },
        Instruction::ROR => if on_accumulator {
            (shift_accumulator(c, rotate_right(c.a, c.p), bottom_bit(c.a)), m)
        } else {
            shift_memory(c, m, address, rotate_right(val, c.p), bottom_bit(val))
        },
        Instruction::RTI => (return_from_interrupt(c, m), m),
        Instruction::RTS => (return_from_subroutine(c, m), m),
        Instruction::SBC => (subtract_with_carry(c, val), m),
        Instruction::SEC => (set_flag(c, FLAG_CARRY, true), m),
        Instruction::SED => (set_flag(c, FLAG_DECIMAL, true), m),
        Instruction::SEI => (set_flag(c, FLAG_INTERRUPT_DISABLE, true), m),
        Instruction::STA => (c, m.update(address as int, c.a)),
        Instruction::STX => (c, m.update(address as int, c.x)),
        Instruction::STY => (c, m.update(address as int, c.y)),
        Instruction::TAX => (load_x(c, c.a), m),
        Instruction::TAY => (load_y(c, c.a), m),
        Instruction::TSX => (load_x(c, c.s), m),
        Instruction::TXA => (load_a(c, c.x), m),
        Instruction::TXS => (Cpu { s: c.x, ..c }, m),
        Instruction::TYA => (load_a(c, c.y), m),
    }
}

/// Cycles that the instruction `found` takes in state `(c, m)` on top of a
/// branch's own penalty: the base count of the table, and one more where an
/// instruction that pays for it crosses a page.
pub open spec fn instruction_cycles(found: Opcode, c: Cpu, m: Seq<u8>) -> int {
    if pays_page_penalty(found.instruction) && crosses_page(found.mode, c, m) {
        found.cycles + 1
    } else {
        found.cycles as int
    }
}

/// The state after the instruction `found` has run in state `(c, m)`, its
/// opcode byte being at the program counter: the instruction's effect, the
/// program counter moved past the instruction unless the instruction set
/// it, and the cycles counted.
#[verifier::opaque]
pub open spec fn execute_decoded(found: Opcode, c: Cpu, m: Seq<u8>) -> (Cpu, Seq<u8>) {
    let address = operand_address(found.mode, c, m);
    let (c1, m1) = perform(found.instruction, found.mode, c, m, address);
    let pc = if sets_program_counter(found.instruction) {
        c1.pc
    } else {
        wrap16(c1.pc + instruction_length(found.mode))
    };
    (Cpu { pc, cycles: wrap32(c1.cycles + instruction_cycles(found, c, m)), ..c1 }, m1)
}

/// The state after the byte `opcode` has been run as an instruction in
/// state `(c, m)`. A byte that is no opcode changes nothing.
pub open spec fn execute(c: Cpu, m: Seq<u8>, opcode: u8) -> (Cpu, Seq<u8>) {
    match decode_spec(opcode) {
        None => (c, m),
        Some(found) => execute_decoded(found, c, m),
    }
}

/// The state after the instruction at the program counter has run.
pub open spec fn step(c: Cpu, m: Seq<u8>) -> (Cpu, Seq<u8>) {
    execute(c, m, byte_at(m, c.pc))
}

} // verus!
