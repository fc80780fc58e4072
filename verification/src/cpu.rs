//! The processor: its registers and the executable form of every
//! instruction, each proved to do what `semantics` says.

use vstd::prelude::*;
use crate::memory::{
    byte_at, lemma_memory_len, word_at, AddressingMode, Memory, IRQ_VECTOR, NMI_VECTOR,
    RESET_VECTOR,
};
use crate::opcodes::{decode, decode_spec, length_of, Instruction, Opcode};
use crate::semantics::{
    add_with_carry, bit_test, bottom_bit, branch, branch_penalty, compare_with, crosses_page,
    execute, execute_decoded, jump_to_subroutine, load_a, load_x, load_y, modify_memory,
    non_maskable_interrupt, operand_address, perform, pull16, pull8, pull_accumulator, pull_status,
    push16, push8, pushed_status, return_from_interrupt, return_from_subroutine, rotate_left,
    rotate_right, set_flag, shift_accumulator, shift_left, shift_memory, shift_right,
    software_interrupt, step, subtract_with_carry, top_bit,
};
use crate::status::{
    carry_in, flag, lemma_byte_bits, lemma_overflow_bits, lemma_shift_left, lemma_shift_right,
    with_zn, FLAG_CARRY, FLAG_DECIMAL, FLAG_INTERRUPT_DISABLE, FLAG_NEGATIVE, FLAG_OVERFLOW,
    FLAG_ZERO,
};
use crate::words::{
    group_wrap_near, lemma_wrap_is_remainder, make_word, split_word, wrap16, wrap32, wrap8,
};

verus! {

broadcast use lemma_memory_len, group_wrap_near;

/// The stack pointer after a reset.
pub const STACK_INIT: u8 = 0xfd;

/// The status register after a reset: interrupts are disabled.
pub const STATUS_INIT: u8 = 0x04;

/// The registers of the processor and the count of cycles it has run.
#[derive(Clone, Copy, Debug, PartialEq, Eq, Structural)]
pub struct Cpu {
    /// Accumulator
    pub a: u8,
    /// X index
    pub x: u8,
    /// Y index
    pub y: u8,
    /// Program counter
    pub pc: u16,
    /// Stack pointer
    pub s: u8,
    /// Status register
    pub p: u8,
    /// Cycles run since the last reset, modulo 2^32
    pub cycles: u32,
}

/// Report of a byte that is no opcode, found where an instruction was
/// expected.
#[derive(Clone, Copy, Debug, PartialEq, Eq, Structural)]
pub struct Anomaly {
    /// The byte that was found.
    pub opcode: u8,
    /// Where it was found.
    pub pc: u16,
}

/// The registers after a reset with the bus holding `m`.
pub open spec fn reset_state(m: Seq<u8>) -> Cpu {
    Cpu {
        a: 0,
        x: 0,
        y: 0,
        pc: word_at(m, RESET_VECTOR),
        s: STACK_INIT,
        p: STATUS_INIT,
        cycles: 0,
    }
}

impl Cpu {
    /// A processor that has been reset against `mem`.
    pub fn new(mem: &Memory) -> (cpu: Cpu)
        ensures
            cpu == reset_state(mem@),
    {
        let mut cpu = Cpu { a: 0, x: 0, y: 0, pc: 0, s: 0, p: 0, cycles: 0 };
        cpu.reset(mem);
        cpu
    }

    /// Bring every register to its power-up value and load the program
    /// counter from the reset vector.
    pub fn reset(&mut self, memory: &Memory)
        ensures
            *final(self) == reset_state(memory@),
    {
        self.pc = memory.read_word(RESET_VECTOR);
        self.p = STATUS_INIT;
        self.s = STACK_INIT;
        self.a = 0;
        self.x = 0;
        self.y = 0;
        self.cycles = 0;
    }

    /// Run the instruction at the program counter. A byte that is no opcode
    /// halts the processor there: it is reported and nothing changes.
    pub fn step(&mut self, memory: &mut Memory) -> (outcome: Result<(), Anomaly>)
        ensures
            outcome is Ok <==> decode_spec(byte_at(old(memory)@, old(self).pc)) is Some,
            (*final(self), final(memory)@) == step(*old(self), old(memory)@),
            outcome matches Err(anomaly) ==> anomaly.pc == old(self).pc && anomaly.opcode
                == byte_at(old(memory)@, old(self).pc),
    {
        let opcode = memory.read(self.pc);
        self.execute_opcode(opcode, memory)
    }

    /// Run the instruction `opcode`, whose opcode byte is taken to be at the
    /// program counter. A byte that is no opcode is reported and changes
    /// nothing.
    pub fn execute_opcode(&mut self, opcode: u8, memory: &mut Memory) -> (outcome: Result<
        (),
        Anomaly,
    >)
        ensures
            outcome is Ok <==> decode_spec(opcode) is Some,
            (*final(self), final(memory)@) == execute(*old(self), old(memory)@, opcode),
            outcome matches Err(anomaly) ==> anomaly.pc == old(self).pc && anomaly.opcode
                == opcode,
    {
        match decode(opcode) {
            None => Err(Anomaly { opcode, pc: self.pc }),
            Some(found) => {
                self.execute_decoded(found, memory);
                Ok(())
            },
        }
    }

    /// Run the instruction that `found` describes, its opcode byte being at
    /// the program counter.
    pub fn execute_decoded(&mut self, found: Opcode, memory: &mut Memory)
        ensures
            (*final(self), final(memory)@) == execute_decoded(found, *old(self), old(memory)@),
    {
        proof {
            reveal(execute_decoded);
        }
        let address = self.resolve(found.mode, memory);
        let penalty = found.instruction.pays_page_penalty() && self.crosses_page(
            found.mode,
            memory,
        );
        let cycles: u32 = if penalty {
            found.cycles as u32 + 1
        } else {
            found.cycles as u32
        };
        self.perform(found.instruction, found.mode, memory, address);
        if !found.instruction.sets_program_counter() {
            self.pc = self.pc.wrapping_add(length_of(found.mode));
        }
        self.add_cycles(cycles);
    }

    /// Enter the non-maskable interrupt between two instructions.
    pub fn handle_nmi(&mut self, memory: &mut Memory)
        ensures
            (*final(self), final(memory)@) == non_maskable_interrupt(*old(self), old(memory)@),
    {
        self.stack_push16(memory, self.pc);
        self.stack_push8(memory, self.p);
        self.pc = memory.read_word(NMI_VECTOR);
    }

    /// The operand address of the instruction at the program counter.
    pub fn resolve(&self, mode: AddressingMode, memory: &Memory) -> (address: u16)
        ensures
            address == operand_address(mode, *self, memory@),
    {
        match mode {
            AddressingMode::Implied | AddressingMode::Accumulator => self.pc,
            AddressingMode::Immediate => memory.get_immediate(self.pc),
            AddressingMode::ZeroPage => memory.get_zeropage(self.pc),
            AddressingMode::ZeroPageX => memory.get_zeropage_x(self.pc, self.x),
            AddressingMode::ZeroPageY => memory.get_zeropage_y(self.pc, self.y),
            AddressingMode::Absolute => memory.get_absolute(self.pc),
            AddressingMode::AbsoluteX => memory.get_absolute_x(self.pc, self.x),
            AddressingMode::AbsoluteY => memory.get_absolute_y(self.pc, self.y),
            AddressingMode::Indirect => memory.get_indirect(self.pc),
            AddressingMode::IndexedIndirect => memory.get_indirect_x(self.pc, self.x),
            AddressingMode::IndirectIndexed => memory.get_indirect_y(self.pc, self.y),
            AddressingMode::Relative => memory.get_relative(self.pc),
        }
    }

    /// Whether indexing moved the operand address of the instruction at the
    /// program counter to another page.
    pub fn crosses_page(&self, mode: AddressingMode, memory: &Memory) -> (crossed: bool)
        ensures
            crossed == crosses_page(mode, *self, memory@),
    {
        match mode {
            AddressingMode::AbsoluteX => {
                let base = memory.get_absolute(self.pc);
                let target = memory.get_absolute_x(self.pc, self.x);
                base / 256 != target / 256
            },
            AddressingMode::AbsoluteY => {
                let base = memory.get_absolute(self.pc);
                let target = memory.get_absolute_y(self.pc, self.y);
                base / 256 != target / 256
            },
            AddressingMode::IndirectIndexed => {
                let base = memory.get_indirect_y(self.pc, 0);
                let target = memory.get_indirect_y(self.pc, self.y);
                base / 256 != target / 256
            },
            _ => false,
        }
    }

    /// Count `count` cycles more.
    fn add_cycles(&mut self, count: u32)
        ensures
            *final(self) == (Cpu { cycles: wrap32(old(self).cycles + count), ..*old(self) }),
    {
        self.cycles = self.cycles.wrapping_add(count);
    }

    /// Count the cycles that a taken branch to `address` adds: one, and one
    /// more where the target lies on another page than the instruction
    /// after the branch.
    pub fn add_branch_cycles(&mut self, address: u16)
        ensures
            *final(self) == (Cpu {
                cycles: wrap32(old(self).cycles + branch_penalty(old(self).pc, address)),
                ..*old(self)
            }),
    {
        self.add_cycles(1);
        if self.pc.wrapping_add(2) / 256 != address.wrapping_add(2) / 256 {
            self.add_cycles(1);
        }
    }

    /// Update the zero and negative flags according to the provided value
    pub fn update_sz(&mut self, val: u8)
        ensures
            *final(self) == (Cpu { p: with_zn(old(self).p, val), ..*old(self) }),
    {
        proof {
            lemma_byte_bits(val);
        }
        self.set_zero(val == 0);
        self.set_negative(val & 0b10000000 != 0);
    }

    /// Whether the flag `mask` is set.
    pub fn get_status(&self, mask: u8) -> (set: bool)
        ensures
            set == flag(self.p, mask),
    {
        self.p & mask != 0
    }

    /// Set or clear the flag `mask`.
    pub fn set_status(&mut self, mask: u8, status: bool)
        ensures
            *final(self) == set_flag(*old(self), mask, status),
    {
        if status {
            self.p = self.p | mask
        } else {
            self.p = self.p & !mask
        }
    }

    /// The carry flag as a number.
    pub fn get_carry(&self) -> (carry: u8)
        ensures
            carry == carry_in(self.p),
    {
        if self.get_status(FLAG_CARRY) {
            1
        } else {
            0
        }
    }

    /// Set or clear the carry flag.
    pub fn set_carry(&mut self, carry: bool)
        ensures
            *final(self) == set_flag(*old(self), FLAG_CARRY, carry),
    {
        self.set_status(FLAG_CARRY, carry);
    }

    /// Set or clear the negative flag.
    pub fn set_negative(&mut self, negative: bool)
        ensures
            *final(self) == set_flag(*old(self), FLAG_NEGATIVE, negative),
    {
        self.set_status(FLAG_NEGATIVE, negative);
    }

    /// Set or clear the zero flag.
    pub fn set_zero(&mut self, zero: bool)
        ensures
            *final(self) == set_flag(*old(self), FLAG_ZERO, zero),
    {
        self.set_status(FLAG_ZERO, zero);
    }

    /// Push a byte on the stack.
    pub fn stack_push8(&mut self, memory: &mut Memory, val: u8)
        ensures
            (*final(self), final(memory)@) == push8(*old(self), old(memory)@, val),
    {
        let address = 0x0100 + self.s as u16;
        memory.write(address, val);
        let n = self.s.wrapping_sub(1);
        self.s = n;
    }

    /// Pull a byte from the stack.
    pub fn stack_pop8(&mut self, memory: &Memory) -> (val: u8)
        ensures
            (*final(self), val) == pull8(*old(self), memory@),
    {
        let n = self.s.wrapping_add(1);
        self.s = n;
        // The stack page exists from 0x0100 to 0x01FF
        let address = 0x0100 + self.s as u16;
        memory.read(address)
    }

    /// Push a word on the stack, high byte first.
    pub fn stack_push16(&mut self, memory: &mut Memory, val: u16)
        ensures
            (*final(self), final(memory)@) == push16(*old(self), old(memory)@, val),
    {
        let (lo, hi) = split_word(val);
        self.stack_push8(memory, hi);
        self.stack_push8(memory, lo);
    }

    /// Pull a word from the stack, low byte first.
    pub fn stack_pop16(&mut self, memory: &Memory) -> (val: u16)
        ensures
            (*final(self), val) == pull16(*old(self), memory@),
    {
        let lo = self.stack_pop8(memory);
        let hi = self.stack_pop8(memory);
        make_word(lo, hi)
    }

    /// `ADC`: add the byte at `address` and the carry to the accumulator.
    pub fn adc(&mut self, memory: &Memory, address: u16)
        ensures
            *final(self) == add_with_carry(*old(self), byte_at(memory@, address)),
    {
        self.add(memory.read(address));
    }

    /// Add `val` and the carry to the accumulator.
    pub fn add(&mut self, val: u8)
        ensures
            *final(self) == add_with_carry(*old(self), val),
    {
        let sum: u16 = self.a as u16 + val as u16 + self.get_carry() as u16;
        let result: u8 = (sum % 256) as u8;
        proof {
            lemma_wrap_is_remainder(sum as int);
            lemma_overflow_bits(self.a, val, result);
        }
        self.set_carry(sum > 0xff);
        self.set_status(FLAG_OVERFLOW, (!(self.a ^ val) & (self.a ^ result) & 0x80) != 0);
        self.a = result;
        self.update_sz(result);
    }

    /// `AND`: keep the bits of the accumulator that the byte at `address` has too.
    pub fn and(&mut self, memory: &Memory, address: u16)
        ensures
            *final(self) == load_a(*old(self), old(self).a & byte_at(memory@, address)),
    {
        let val = memory.read(address);
        self.a &= val;
        self.update_sz(self.a);
    }

    /// `ASL`: shift the byte at `address` left by one bit.
    pub fn asl(&mut self, memory: &mut Memory, address: u16)
        ensures
            (*final(self), final(memory)@) == shift_memory(
                *old(self),
                old(memory)@,
                address,
                shift_left(byte_at(old(memory)@, address)),
                top_bit(byte_at(old(memory)@, address)),
            ),
    {
        let val = memory.read(address);
        proof {
            lemma_byte_bits(val);
            lemma_shift_left(val, 0);
        }
        self.set_carry(val & 0x80 != 0);
        let n = val << 1;
        memory.write(address, n);
        self.update_sz(n);
    }

    /// `ASL A`: shift the accumulator left by one bit.
    pub fn asl_akk(&mut self)
        ensures
            *final(self) == shift_accumulator(
                *old(self),
                shift_left(old(self).a),
                top_bit(old(self).a),
            ),
    {
        let val = self.a;
        proof {
            lemma_byte_bits(val);
            lemma_shift_left(val, 0);
        }
        self.set_carry(val & 0x80 != 0);
        let n = val << 1;
        self.a = n;
        self.update_sz(n);
    }

    /// `BCC`: branch if carry is clear. `address` is the branch's address plus
    /// the displacement; the caller moves the program counter past the branch.
    pub fn bcc(&mut self, address: u16)
        ensures
            *final(self) == branch(*old(self), !flag(old(self).p, FLAG_CARRY), address),
    {
        if !self.get_status(FLAG_CARRY) {
            self.add_branch_cycles(address);
            self.pc = address;
        }
    }

    /// `BCS`: branch if carry is set.
    pub fn bcs(&mut self, address: u16)
        ensures
            *final(self) == branch(*old(self), flag(old(self).p, FLAG_CARRY), address),
    {
        if self.get_status(FLAG_CARRY) {
            self.add_branch_cycles(address);
            self.pc = address;
        }
    }

    /// `BEQ`: branch if zero is set.
    pub fn beq(&mut self, address: u16)
        ensures
            *final(self) == branch(*old(self), flag(old(self).p, FLAG_ZERO), address),
    {
        if self.get_status(FLAG_ZERO) {
            self.add_branch_cycles(address);
            self.pc = address;
        }
    }

    /// `BIT`: test the byte at `address` against the accumulator.
    pub fn bit(&mut self, memory: &Memory, address: u16)
        ensures
            *final(self) == bit_test(*old(self), byte_at(memory@, address)),
    {
        let val = memory.read(address);
        proof {
            lemma_byte_bits(val);
        }
        self.set_status(FLAG_NEGATIVE, val & 0x80 != 0);
        self.set_status(FLAG_OVERFLOW, (val >> 6) & 0x01 == 1);
        let f = self.a & val;
        self.set_status(FLAG_ZERO, f == 0)
    }

    /// `BMI`: branch if negative is set.
    pub fn bmi(&mut self, address: u16)
        ensures
            *final(self) == branch(*old(self), flag(old(self).p, FLAG_NEGATIVE), address),
    {
        if self.get_status(FLAG_NEGATIVE) {
            self.add_branch_cycles(address);
            self.pc = address;
        }
    }

    /// `BNE`: branch if zero is clear.
    pub fn bne(&mut self, address: u16)
        ensures
            *final(self) == branch(*old(self), !flag(old(self).p, FLAG_ZERO), address),
    {
        if !self.get_status(FLAG_ZERO) {
            self.add_branch_cycles(address);
            self.pc = address;
        }
    }

    /// `BPL`: branch if negative is clear.
    pub fn bpl(&mut self, address: u16)
        ensures
            *final(self) == branch(*old(self), !flag(old(self).p, FLAG_NEGATIVE), address),
    {
        if !self.get_status(FLAG_NEGATIVE) {
            self.add_branch_cycles(address);
            self.pc = address;
        }
    }

    /// `BRK`: enter the interrupt routine from the program.
    pub fn brk(&mut self, memory: &mut Memory)
        ensures
            (*final(self), final(memory)@) == software_interrupt(*old(self), old(memory)@),
    {
        let pc = self.pc.wrapping_add(1);
        self.stack_push16(memory, pc);
        let flags = self.p | 0x30;
        self.stack_push8(memory, flags);
        self.set_status(FLAG_INTERRUPT_DISABLE, true);
        self.pc = memory.read_word(IRQ_VECTOR);
    }

    /// `BVC`: branch if overflow is clear.
    pub fn bvc(&mut self, address: u16)
        ensures
            *final(self) == branch(*old(self), !flag(old(self).p, FLAG_OVERFLOW), address),
    {
        if !self.get_status(FLAG_OVERFLOW) {
            self.add_branch_cycles(address);
            self.pc = address;
        }
    }

    /// `BVS`: branch if overflow is set.
    pub fn bvs(&mut self, address: u16)
        ensures
            *final(self) == branch(*old(self), flag(old(self).p, FLAG_OVERFLOW), address),
    {
        if self.get_status(FLAG_OVERFLOW) {
            self.add_branch_cycles(address);
            self.pc = address;
        }
    }

    /// `CLC`: clear carry.
    pub fn clc(&mut self)
        ensures
            *final(self) == set_flag(*old(self), FLAG_CARRY, false),
    {
        self.set_status(FLAG_CARRY, false)
    }

    /// `CLD`: clear decimal.
    pub fn cld(&mut self)
        ensures
            *final(self) == set_flag(*old(self), FLAG_DECIMAL, false),
    {
        self.set_status(FLAG_DECIMAL, false)
    }

    /// `CLI`: clear interrupt-disable.
    pub fn cli(&mut self)
        ensures
            *final(self) == set_flag(*old(self), FLAG_INTERRUPT_DISABLE, false),
    {
        self.set_status(FLAG_INTERRUPT_DISABLE, false)
    }

    /// `CLV`: clear overflow.
    pub fn clv(&mut self)
        ensures
            *final(self) == set_flag(*old(self), FLAG_OVERFLOW, false),
    {
        self.set_status(FLAG_OVERFLOW, false)
    }

    /// `CMP`: compare the accumulator with the byte at `address`.
    pub fn cmp(&mut self, memory: &Memory, address: u16)
        ensures
            *final(self) == compare_with(*old(self), old(self).a, byte_at(memory@, address)),
    {
        let val = memory.read(address);
        let n = self.a.wrapping_sub(val);
        self.set_carry(self.a >= val);
        self.update_sz(n);
    }

    /// `CPX`: compare X with the byte at `address`.
    pub fn cpx(&mut self, memory: &Memory, address: u16)
        ensures
            *final(self) == compare_with(*old(self), old(self).x, byte_at(memory@, address)),
    {
        let val = memory.read(address);
        let n = self.x.wrapping_sub(val);
        self.set_carry(self.x >= val);
        self.update_sz(n);
    }

    /// `CPY`: compare Y with the byte at `address`.
    pub fn cpy(&mut self, memory: &Memory, address: u16)
        ensures
            *final(self) == compare_with(*old(self), old(self).y, byte_at(memory@, address)),
    {
        let val = memory.read(address);
        let n = self.y.wrapping_sub(val);
        self.set_carry(self.y >= val);
        self.update_sz(n);
    }

    /// `DEC`: take one from the byte at `address`; 0x00 becomes 0xFF.
    pub fn dec(&mut self, memory: &mut Memory, address: u16)
        ensures
            (*final(self), final(memory)@) == modify_memory(
                *old(self),
                old(memory)@,
                address,
                wrap8(byte_at(old(memory)@, address) - 1),
            ),
    {
        let val = memory.read(address);
        let n = val.wrapping_sub(1);
        memory.write(address, n);
        self.update_sz(n);
    }

    /// `DEX`: take one from X; 0x00 becomes 0xFF.
    pub fn dex(&mut self)
        ensures
            *final(self) == load_x(*old(self), wrap8(old(self).x - 1)),
    {
        let n = self.x.wrapping_sub(1);
        self.x = n;
        self.update_sz(n);
    }

    /// `DEY`: take one from Y; 0x00 becomes 0xFF.
    pub fn dey(&mut self)
        ensures
            *final(self) == load_y(*old(self), wrap8(old(self).y - 1)),
    {
        let n = self.y.wrapping_sub(1);
        self.y = n;
        self.update_sz(n);
    }

    /// `EOR`: flip the bits of the accumulator that the byte at `address` has.
    pub fn eor(&mut self, memory: &Memory, address: u16)
        ensures
            *final(self) == load_a(*old(self), old(self).a ^ byte_at(memory@, address)),
    {
        let val = memory.read(address);
        self.a ^= val;
        self.update_sz(self.a);
    }

    /// `INC`: add one to the byte at `address`; 0xFF becomes 0x00.
    pub fn inc(&mut self, memory: &mut Memory, address: u16)
        ensures
            (*final(self), final(memory)@) == modify_memory(
                *old(self),
                old(memory)@,
                address,
                wrap8(byte_at(old(memory)@, address) + 1),
            ),
    {
        let val = memory.read(address);
        let n = val.wrapping_add(1);
        memory.write(address, n);
        self.update_sz(n);
    }

    /// `INX`: add one to X; 0xFF becomes 0x00.
    pub fn inx(&mut self)
        ensures
            *final(self) == load_x(*old(self), wrap8(old(self).x + 1)),
    {
        let n = self.x.wrapping_add(1);
        self.x = n;
        self.update_sz(n);
    }

    /// `INY`: add one to Y; 0xFF becomes 0x00.
    pub fn iny(&mut self)
        ensures
            *final(self) == load_y(*old(self), wrap8(old(self).y + 1)),
    {
        let n = self.y.wrapping_add(1);
        self.y = n;
        self.update_sz(n);
    }

    /// `JMP`: go on at `address`.
    pub fn jmp(&mut self, address: u16)
        ensures
            *final(self) == (Cpu { pc: address, ..*old(self) }),
    {
        self.pc = address;
    }

    /// `JSR`: push the program counter plus `offset` and go on at `address`.
    /// With an offset of 2 the pushed address is that of the last byte of the
    /// instruction, which is what `RTS` expects.
    pub fn jsr(&mut self, memory: &mut Memory, address: u16, offset: u16)
        ensures
            offset == 2 ==> (*final(self), final(memory)@) == jump_to_subroutine(
                *old(self),
                old(memory)@,
                address,
            ),
            (*final(self), final(memory)@) == ({
                let (pushed, bytes) = push16(
                    *old(self),
                    old(memory)@,
                    wrap16(old(self).pc + offset),
                );
                (Cpu { pc: address, ..pushed }, bytes)
            }),
    {
        let ret_address = self.pc.wrapping_add(offset);
        self.stack_push16(memory, ret_address);
        self.pc = address;
    }

    /// `LDA`: load the accumulator from `address`.
    pub fn lda(&mut self, memory: &Memory, address: u16)
        ensures
            *final(self) == load_a(*old(self), byte_at(memory@, address)),
    {
        let val = memory.read(address);
        self.a = val;
        self.update_sz(val);
    }

    /// `LDX`: load X from `address`.
    pub fn ldx(&mut self, memory: &Memory, address: u16)
        ensures
            *final(self) == load_x(*old(self), byte_at(memory@, address)),
    {
        let val = memory.read(address);
        self.x = val;
        self.update_sz(val)
    }

    /// `LDY`: load Y from `address`.
    pub fn ldy(&mut self, memory: &Memory, address: u16)
        ensures
            *final(self) == load_y(*old(self), byte_at(memory@, address)),
    {
        let val = memory.read(address);
        self.y = val;
        self.update_sz(val)
    }

    /// `LSR`: shift the byte at `address` right by one bit.
    pub fn lsr(&mut self, memory: &mut Memory, address: u16)
        ensures
            (*final(self), final(memory)@) == shift_memory(
                *old(self),
                old(memory)@,
                address,
                shift_right(byte_at(old(memory)@, address)),
                bottom_bit(byte_at(old(memory)@, address)),
            ),
    {
        let val = memory.read(address);
        proof {
            lemma_byte_bits(val);
            lemma_shift_right(val, 0);
        }
        self.set_carry(val & 0x01 == 1);
        let n = val >> 1;
        self.update_sz(n);
        memory.write(address, n);
    }

    /// `LSR A`: shift the accumulator right by one bit.
    pub fn lsr_akk(&mut self)
        ensures
            *final(self) == shift_accumulator(
                *old(self),
                shift_right(old(self).a),
                bottom_bit(old(self).a),
            ),
    {
        let val = self.a;
        proof {
            lemma_byte_bits(val);
            lemma_shift_right(val, 0);
        }
        self.set_carry(val & 0x01 == 1);
        let n = val >> 1;
        self.update_sz(n);
        self.a = n;
    }

    /// `NOP`: do nothing.
    pub fn nop(&mut self)
        ensures
            *final(self) == *old(self),
    {
    }

    /// `ORA`: add the bits of the byte at `address` to the accumulator.
    pub fn ora(&mut self, memory: &Memory, address: u16)
        ensures
            *final(self) == load_a(*old(self), old(self).a | byte_at(memory@, address)),
    {
        let val = memory.read(address);
        let na = self.a | val;
        self.a = na;
        self.update_sz(na);
    }

    /// `PHA`: push the accumulator.
    pub fn pha(&mut self, memory: &mut Memory)
        ensures
            (*final(self), final(memory)@) == push8(*old(self), old(memory)@, old(self).a),
    {
        self.stack_push8(memory, self.a);
    }

    /// `PHP`: push the status with break and the unused bit set.
    pub fn php(&mut self, memory: &mut Memory)
        ensures
            (*final(self), final(memory)@) == push8(
                *old(self),
                old(memory)@,
                pushed_status(old(self).p),
            ),
    {
        self.stack_push8(memory, self.p | 0x30);
    }

    /// `PLA`: pull the accumulator.
    pub fn pla(&mut self, memory: &Memory)
        ensures
            *final(self) == pull_accumulator(*old(self), memory@),
    {
        let rv = self.stack_pop8(memory);
        self.a = rv;
        self.update_sz(rv);
    }

    /// `PLP`: pull the status; break is cleared and the unused bit set.
    pub fn plp(&mut self, memory: &Memory)
        ensures
            *final(self) == pull_status(*old(self), memory@),
    {
        let p = self.stack_pop8(memory) & 0xef | 0x20;
        self.p = p;
    }

    /// `ROL`: rotate the byte at `address` left through carry.
    pub fn rol(&mut self, memory: &mut Memory, address: u16)
        ensures
            (*final(self), final(memory)@) == shift_memory(
                *old(self),
                old(memory)@,
                address,
                rotate_left(byte_at(old(memory)@, address), old(self).p),
                top_bit(byte_at(old(memory)@, address)),
            ),
    {
        let val = memory.read(address);
        let carry = self.get_carry();
        proof {
            lemma_byte_bits(val);
            lemma_shift_left(val, carry);
        }
        let n = (val << 1) | carry;
        self.set_carry(val & 0x80 != 0);
        self.update_sz(n);
        memory.write(address, n);
    }

    /// `ROL A`: rotate the accumulator left through carry.
    pub fn rol_akk(&mut self)
        ensures
            *final(self) == shift_accumulator(
                *old(self),
                rotate_left(old(self).a, old(self).p),
                top_bit(old(self).a),
            ),
    {
        let val = self.a;
        let carry = self.get_carry();
        proof {
            lemma_byte_bits(val);
            lemma_shift_left(val, carry);
        }
        let n = (val << 1) | carry;
        self.set_carry(val & 0x80 != 0);
        self.update_sz(n);
        self.a = n;
    }

    /// `ROR`: rotate the byte at `address` right through carry.
    pub fn ror(&mut self, memory: &mut Memory, address: u16)
        ensures
            (*final(self), final(memory)@) == shift_memory(
                *old(self),
                old(memory)@,
                address,
                rotate_right(byte_at(old(memory)@, address), old(self).p),
                bottom_bit(byte_at(old(memory)@, address)),
            ),
    {
        let val = memory.read(address);
        let carry = self.get_carry();
        proof {
            lemma_byte_bits(val);
            lemma_shift_right(val, carry);
        }
        let n = (val >> 1) | (carry << 7);
        self.set_carry(val & 0x01 == 1);
        self.update_sz(n);
        memory.write(address, n);
    }

    /// `ROR A`: rotate the accumulator right through carry.
    pub fn ror_akk(&mut self)
        ensures
            *final(self) == shift_accumulator(
                *old(self),
                rotate_right(old(self).a, old(self).p),
                bottom_bit(old(self).a),
            ),
    {
        let val = self.a;
        let carry = self.get_carry();
        proof {
            lemma_byte_bits(val);
            lemma_shift_right(val, carry);
        }
        let n = (val >> 1) | (carry << 7);
        self.set_carry(val & 0x01 == 1);
        self.update_sz(n);
        self.a = n;
    }

    /// `RTI`: pull the status and the program counter.
    pub fn rti(&mut self, memory: &Memory)
        ensures
            *final(self) == return_from_interrupt(*old(self), memory@),
    {
        let flags = self.stack_pop8(memory) & 0xef | 0x20;
        self.p = flags;
        let ret_addr = self.stack_pop16(memory);
        self.pc = ret_addr;
    }

    /// `RTS`: pull the return address and go on behind it.
    pub fn rts(&mut self, memory: &Memory)
        ensures
            *final(self) == return_from_subroutine(*old(self), memory@),
    {
        let ret_addr = self.stack_pop16(memory);
        self.pc = ret_addr.wrapping_add(1);
    }

    /// `SBC`: subtract the byte at `address` and the borrow from the accumulator.
    pub fn sbc(&mut self, memory: &Memory, address: u16)
        ensures
            *final(self) == subtract_with_carry(*old(self), byte_at(memory@, address)),
    {
        let val = memory.read(address);
        proof {
            lemma_byte_bits(val);
        }
        self.add(!val)
    }

    /// `SEC`: set carry.
    pub fn sec(&mut self)
        ensures
            *final(self) == set_flag(*old(self), FLAG_CARRY, true),
    {
        self.set_carry(true);
    }

    /// `SED`: set decimal.
    pub fn sed(&mut self)
        ensures
            *final(self) == set_flag(*old(self), FLAG_DECIMAL, true),
    {
        self.set_status(FLAG_DECIMAL, true);
    }

    /// `SEI`: set interrupt-disable.
    pub fn sei(&mut self)
        ensures
            *final(self) == set_flag(*old(self), FLAG_INTERRUPT_DISABLE, true),
    {
        self.set_status(FLAG_INTERRUPT_DISABLE, true);
    }

    /// `STA`: store the accumulator at `address`.
    pub fn sta(&mut self, memory: &mut Memory, address: u16)
        ensures
            *final(self) == *old(self),
            final(memory)@ == old(memory)@.update(address as int, old(self).a),
    {
        memory.write(address, self.a);
    }

    /// `STX`: store X at `address`.
    pub fn stx(&mut self, memory: &mut Memory, address: u16)
        ensures
            *final(self) == *old(self),
            final(memory)@ == old(memory)@.update(address as int, old(self).x),
    {
        memory.write(address, self.x);
    }

    /// `STY`: store Y at `address`.
    pub fn sty(&mut self, memory: &mut Memory, address: u16)
        ensures
            *final(self) == *old(self),
            final(memory)@ == old(memory)@.update(address as int, old(self).y),
    {
        memory.write(address, self.y);
    }

    /// `TAX`: copy the accumulator to X.
    pub fn tax(&mut self)
        ensures
            *final(self) == load_x(*old(self), old(self).a),
    {
        let n = self.a;
        self.x = n;
        self.update_sz(n);
    }

    /// `TAY`: copy the accumulator to Y.
    pub fn tay(&mut self)
        ensures
            *final(self) == load_y(*old(self), old(self).a),
    {
        let n = self.a;
        self.y = n;
        self.update_sz(n);
    }

    /// `TSX`: copy the stack pointer to X.
    pub fn tsx(&mut self)
        ensures
            *final(self) == load_x(*old(self), old(self).s),
    {
        let s = self.s;
        self.update_sz(s);
        self.x = s;
    }

    /// `TXA`: copy X to the accumulator.
    pub fn txa(&mut self)
        ensures
            *final(self) == load_a(*old(self), old(self).x),
    {
        let n = self.x;
        self.a = n;
        self.update_sz(n);
    }

    /// `TXS`: copy X to the stack pointer; no flag changes.
    pub fn txs(&mut self)
        ensures
            *final(self) == (Cpu { s: old(self).x, ..*old(self) }),
    {
        self.s = self.x;
    }

    /// `TYA`: copy Y to the accumulator.
    pub fn tya(&mut self)
        ensures
            *final(self) == load_a(*old(self), old(self).y),
    {
        let n = self.y;
        self.a = n;
        self.update_sz(n);
    }

    /// Carry out `instruction` on the operand at `address`.
    fn perform(
        &mut self,
        instruction: Instruction,
        mode: AddressingMode,
        memory: &mut Memory,
        address: u16,
    )
        ensures
            (*final(self), final(memory)@) == perform(
                instruction,
                mode,
                *old(self),
                old(memory)@,
                address,
            ),
    {
        proof {
            reveal(perform);
        }
        let on_accumulator = mode == AddressingMode::Accumulator;
        match instruction {
            Instruction::ADC => self.adc(memory, address),
            Instruction::AND => self.and(memory, address),
            Instruction::ASL => if on_accumulator {
                self.asl_akk()
            } else {
                self.asl(memory, address)
            },
            Instruction::BCC => self.bcc(address),
            Instruction::BCS => self.bcs(address),
            Instruction::BEQ => self.beq(address),
            Instruction::BIT => self.bit(memory, address),
            Instruction::BMI => self.bmi(address),
            Instruction::BNE => self.bne(address),
            Instruction::BPL => self.bpl(address),
            Instruction::BRK => self.brk(memory),
            Instruction::BVC => self.bvc(address),
            Instruction::BVS => self.bvs(address),
            Instruction::CLC => self.clc(),
            Instruction::CLD => self.cld(),
            Instruction::CLI => self.cli(),
            Instruction::CLV => self.clv(),
            Instruction::CMP => self.cmp(memory, address),
            Instruction::CPX => self.cpx(memory, address),
            Instruction::CPY => self.cpy(memory, address),
            Instruction::DEC => self.dec(memory, address),
            Instruction::DEX => self.dex(),
            Instruction::DEY => self.dey(),
            Instruction::EOR => self.eor(memory, address),
            Instruction::INC => self.inc(memory, address),
            Instruction::INX => self.inx(),
            Instruction::INY => self.iny(),
            Instruction::JMP => self.jmp(address),
            Instruction::JSR => self.jsr(memory, address, 2),
            Instruction::LDA => self.lda(memory, address),
            Instruction::LDX => self.ldx(memory, address),
            Instruction::LDY => self.ldy(memory, address),
            Instruction::LSR => if on_accumulator {
                self.lsr_akk()
            } else {
                self.lsr(memory, address)
            },
            Instruction::NOP => self.nop(),
            Instruction::ORA => self.ora(memory, address),
            Instruction::PHA => self.pha(memory),
            Instruction::PHP => self.php(memory),
            Instruction::PLA => self.pla(memory),
            Instruction::PLP => self.plp(memory),
            Instruction::ROL => if on_accumulator {
                self.rol_akk()
            } else {
                self.rol(memory, address)
            },
            Instruction::ROR => if on_accumulator {
                self.ror_akk()
            } else {
                self.ror(memory, address)
            },
            Instruction::RTI => self.rti(memory),
            Instruction::RTS => self.rts(memory),
            Instruction::SBC => self.sbc(memory, address),
            Instruction::SEC => self.sec(),
            Instruction::SED => self.sed(),
            Instruction::SEI => self.sei(),
            Instruction::STA => self.sta(memory, address),
            Instruction::STX => self.stx(memory, address),
            Instruction::STY => self.sty(memory, address),
            Instruction::TAX => self.tax(),
            Instruction::TAY => self.tay(),
            Instruction::TSX => self.tsx(),
            Instruction::TXA => self.txa(),
            Instruction::TXS => self.txs(),
            Instruction::TYA => self.tya(),
        }
    }
}

} // verus!
