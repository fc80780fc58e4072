//! The bus: a flat 64 KiB byte space addressed by 16-bit addresses, and the
//! rules by which an instruction's operand address is found in it.

use vstd::prelude::*;
use crate::rom_file::{
    has_header, has_signature, holds_program, mapper_support_of, program_data, program_size,
    LoadError, MapperSupport, RomFile,
};
use crate::words::{group_wrap_near, make_word, signed8, word, wrap16, wrap8};

verus! {

broadcast use group_wrap_near;

/// Number of addressable bytes on the bus.
pub const MEMORY_SIZE: usize = 65536;

pub const NES_INTERNAL_RAM: u16 = 0x0000;

pub const NES_PPU_REGISTERS: u16 = 0x2000;

pub const NES_APU_IO_REGISTERS: u16 = 0x4000;

pub const NES_CARTRIDGE_SPACE: u16 = 0x4020;

/// Picture unit control register.
pub const PPU_CTRL: u16 = 0x2000;

/// Picture unit mask register.
pub const PPU_MASK: u16 = 0x2001;

/// Picture unit status register; bit 7 is the vertical-blank flag.
pub const PPU_STATUS: u16 = 0x2002;

/// Sprite memory address port.
pub const OAM_ADDR: u16 = 0x2003;

/// Sprite memory data port.
pub const OAM_DATA: u16 = 0x2004;

/// Scroll position port.
pub const PPU_SCROLL: u16 = 0x2005;

/// Video memory address port.
pub const PPU_ADDR: u16 = 0x2006;

/// Video memory data port.
pub const PPU_DATA: u16 = 0x2007;

/// Writing here starts a sprite memory transfer.
pub const OAM_DMA: u16 = 0x4014;

/// Where the non-maskable interrupt vector is stored (low byte first).
pub const NMI_VECTOR: u16 = 0xFFFA;

/// Where the reset vector is stored (low byte first).
pub const RESET_VECTOR: u16 = 0xFFFC;

/// Where the `BRK`/interrupt-request vector is stored (low byte first).
pub const IRQ_VECTOR: u16 = 0xFFFE;

/// First address of the window that cartridge program data is mapped to.
pub const PROGRAM_ORIGIN: u16 = 0x8000;

/// Size in bytes of the program window, which reaches the top of the bus.
pub const PROGRAM_WINDOW: usize = 0x8000;

/// How an instruction finds its operand.
#[derive(Clone, Copy, Debug, PartialEq, Eq, Structural)]
pub enum AddressingMode {
    Implied,
    Accumulator,
    Immediate,
    ZeroPage,
    ZeroPageX,
    ZeroPageY,
    Absolute,
    AbsoluteX,
    AbsoluteY,
    Indirect,
    IndexedIndirect,
    IndirectIndexed,
    Relative,
}

/// The byte that `bytes` holds at `address`.
pub open spec fn byte_at(bytes: Seq<u8>, address: u16) -> u8 {
    bytes[address as int]
}

/// The little-endian word stored at `address` and the address after it
/// (which is address 0 when `address` is the last one).
pub open spec fn word_at(bytes: Seq<u8>, address: u16) -> u16 {
    word(byte_at(bytes, address), byte_at(bytes, wrap16(address + 1)))
}

/// The byte that follows the opcode stored at `address`.
pub open spec fn operand_byte(bytes: Seq<u8>, address: u16) -> u8 {
    byte_at(bytes, wrap16(address + 1))
}

/// The little-endian word that follows the opcode stored at `address`.
pub open spec fn operand_word(bytes: Seq<u8>, address: u16) -> u16 {
    word_at(bytes, wrap16(address + 1))
}

/// The little-endian word stored in the zero page at `pointer`; its high byte
/// is fetched from within the zero page, so a pointer at 0xFF wraps to 0x00.
pub open spec fn zero_page_word(bytes: Seq<u8>, pointer: u8) -> u16 {
    word(byte_at(bytes, pointer as u16), byte_at(bytes, wrap8(pointer + 1) as u16))
}

/// Immediate: the operand is the byte after the opcode.
pub open spec fn immediate_address(address: u16) -> u16 {
    wrap16(address + 1)
}

/// Zero page, plain or indexed: the operand byte plus the index, kept within
/// the first 256 bytes.
pub open spec fn zero_page_address(bytes: Seq<u8>, address: u16, index: u8) -> u16 {
    wrap8(operand_byte(bytes, address) + index) as u16
}

/// Absolute, plain or indexed: the operand word plus the index; the sum may
/// lie on another page than the operand word.
pub open spec fn absolute_address(bytes: Seq<u8>, address: u16, index: u8) -> u16 {
    wrap16(operand_word(bytes, address) + index)
}

/// Relative: the operand byte, read as a signed displacement, added to the
/// address of the opcode.
pub open spec fn relative_address(bytes: Seq<u8>, address: u16) -> u16 {
    wrap16(address + signed8(operand_byte(bytes, address)))
}

/// Indirect: the word stored where the operand word points.
pub open spec fn indirect_address(bytes: Seq<u8>, address: u16) -> u16 {
    word_at(bytes, operand_word(bytes, address))
}

/// Indexed indirect, `(zp,X)`: the index is added to the operand byte within
/// the zero page, and the word stored there is the address.
pub open spec fn indexed_indirect_address(bytes: Seq<u8>, address: u16, x: u8) -> u16 {
    zero_page_word(bytes, wrap8(operand_byte(bytes, address) + x))
}

/// Indirect indexed, `(zp),Y`: the word stored in the zero page at the
/// operand byte, plus the index.
pub open spec fn indirect_indexed_address(bytes: Seq<u8>, address: u16, y: u8) -> u16 {
    wrap16(zero_page_word(bytes, operand_byte(bytes, address)) + y)
}

/// The bytes `m` with `bytes` copied over them from `origin` on.
pub open spec fn with_bytes_at(m: Seq<u8>, origin: int, bytes: Seq<u8>) -> Seq<u8> {
    Seq::new(
        m.len(),
        |a: int|
            if origin <= a < origin + bytes.len() {
                bytes[a - origin]
            } else {
                m[a]
            },
    )
}

/// What the program window is filled with for the container `data`: the
/// program data, and a second copy of it behind the first where the
/// program is a single bank, so that the vectors at the top of the bus lie
/// in the program.
pub open spec fn program_image(data: Seq<u8>) -> Seq<u8> {
    let program = program_data(data);
    if program.len() == PROGRAM_WINDOW / 2 {
        program + program
    } else {
        program
    }
}

/// How loading the container `data` ends: with the first of the errors that
/// applies, or with the support that its mapper has.
pub open spec fn load_outcome(data: Seq<u8>) -> Result<MapperSupport, LoadError> {
    if !has_signature(data) {
        Err(LoadError::BadSignature)
    } else if !has_header(data) {
        Err(LoadError::Truncated)
    } else if program_size(data) > PROGRAM_WINDOW {
        Err(LoadError::ProgramTooLarge)
    } else if !holds_program(data) {
        Err(LoadError::Truncated)
    } else {
        Ok(mapper_support_of(data))
    }
}

/// The bus: 65536 bytes, every one of which can be read and written.
pub struct Memory {
    data: [u8; 65536],
}

impl View for Memory {
    type V = Seq<u8>;

    closed spec fn view(&self) -> Seq<u8> {
        self.data@
    }
}

/// The bus always holds exactly `MEMORY_SIZE` bytes.
pub broadcast proof fn lemma_memory_len(memory: Memory)
    ensures
        (#[trigger] memory@).len() == MEMORY_SIZE,
{
}

impl Memory {
    /// A bus whose every byte is zero.
    pub fn new() -> (mem: Memory)
        ensures
            forall|a: u16| byte_at(mem@, a) == 0,
    {
        Memory { data: [0; 65536] }
    }

    /// Read the byte stored at `address`.
    pub fn read(&self, address: u16) -> (val: u8)
        ensures
            val == byte_at(self@, address),
    {
        self.data[address as usize]
    }

    /// Store `val` at `address`; every other byte keeps its value.
    pub fn write(&mut self, address: u16, val: u8)
        ensures
            final(self)@ == old(self)@.update(address as int, val),
    {
        self.data[address as usize] = val;
    }

    /// Copy `bytes` onto the bus from `origin` on.
    fn copy_at(&mut self, origin: usize, bytes: &[u8])
        requires
            origin + bytes@.len() <= MEMORY_SIZE,
        ensures
            final(self)@ == with_bytes_at(old(self)@, origin as int, bytes@),
    {
        let ghost before = self@;
        let mut i: usize = 0;
        while i < bytes.len()
            invariant
                i <= bytes@.len(),
                origin + bytes@.len() <= MEMORY_SIZE,
                self@ == with_bytes_at(before, origin as int, bytes@.take(i as int)),
            decreases bytes@.len() - i,
        {
            self.data[origin + i] = bytes[i];
            i += 1;
        }
        assert(bytes@.take(i as int) == bytes@);
    }

    /// Copy program data to the start of the program window. Bytes of the
    /// window behind the copy keep their values.
    pub fn load_program(&mut self, bytes: &[u8])
        requires
            bytes@.len() <= PROGRAM_WINDOW,
        ensures
            final(self)@ == with_bytes_at(old(self)@, PROGRAM_ORIGIN as int, bytes@),
    {
        self.copy_at(PROGRAM_ORIGIN as usize, bytes);
    }

    /// Load the given ROM into the virtual memory: its program data is
    /// copied to the program window, twice where it is a single bank. A
    /// container that cannot be loaded leaves the bus as it was.
    pub fn load(&mut self, rom_file: &RomFile) -> (outcome: Result<MapperSupport, LoadError>)
        ensures
            outcome == load_outcome(rom_file.data@),
            outcome is Ok ==> final(self)@ == with_bytes_at(
                old(self)@,
                PROGRAM_ORIGIN as int,
                program_image(rom_file.data@),
            ),
            outcome is Err ==> final(self)@ == old(self)@,
    {
        if !rom_file.is_nes() {
            return Err(LoadError::BadSignature);
        }
        if rom_file.data.len() < 16 {
            return Err(LoadError::Truncated);
        }
        if rom_file.prg_size() > 0x8000 {
            return Err(LoadError::ProgramTooLarge);
        }
        if rom_file.data.len() < rom_file.chr_data_address() as usize {
            return Err(LoadError::Truncated);
        }
        let prg_data = rom_file.prg_data();
        self.load_program(prg_data.as_slice());
        if prg_data.len() == 0x4000 {
            self.copy_at(0xc000, prg_data.as_slice());
        }
        Ok(rom_file.mapper_support())
    }

    /// Read the little-endian word stored at `address`.
    pub fn read_word(&self, address: u16) -> (w: u16)
        ensures
            w == word_at(self@, address),
    {
        let lo = self.read(address);
        let hi = self.read(address.wrapping_add(1));
        make_word(lo, hi)
    }

    fn read_zero_page_word(&self, pointer: u8) -> (w: u16)
        ensures
            w == zero_page_word(self@, pointer),
    {
        let lo = self.read(pointer as u16);
        let hi = self.read(pointer.wrapping_add(1) as u16);
        make_word(lo, hi)
    }

    /// Immediate: the address of the byte after the opcode at `address`.
    pub fn get_immediate(&self, address: u16) -> (target: u16)
        ensures
            target == immediate_address(address),
    {
        address.wrapping_add(1)
    }

    /// Zero page: the operand byte of the opcode at `address`, as an address.
    pub fn get_zeropage(&self, address: u16) -> (target: u16)
        ensures
            target == zero_page_address(self@, address, 0),
            target == operand_byte(self@, address),
    {
        self.read(address.wrapping_add(1)) as u16
    }

    /// Zero page indexed by X; the sum stays within the zero page.
    pub fn get_zeropage_x(&self, address: u16, x: u8) -> (target: u16)
        ensures
            target == zero_page_address(self@, address, x),
    {
        self.read(address.wrapping_add(1)).wrapping_add(x) as u16
    }

    /// Zero page indexed by Y; the sum stays within the zero page.
    pub fn get_zeropage_y(&self, address: u16, y: u8) -> (target: u16)
        ensures
            target == zero_page_address(self@, address, y),
    {
        self.read(address.wrapping_add(1)).wrapping_add(y) as u16
    }

    /// Absolute: the operand word of the opcode at `address`.
    pub fn get_absolute(&self, address: u16) -> (target: u16)
        ensures
            target == absolute_address(self@, address, 0),
            target == operand_word(self@, address),
    {
        self.read_word(address.wrapping_add(1))
    }

    /// Absolute indexed by X; the sum may lie on the next page.
    pub fn get_absolute_x(&self, address: u16, x: u8) -> (target: u16)
        ensures
            target == absolute_address(self@, address, x),
    {
        self.read_word(address.wrapping_add(1)).wrapping_add(x as u16)
    }

    /// Absolute indexed by Y; the sum may lie on the next page.
    pub fn get_absolute_y(&self, address: u16, y: u8) -> (target: u16)
        ensures
            target == absolute_address(self@, address, y),
    {
        self.read_word(address.wrapping_add(1)).wrapping_add(y as u16)
    }

    /// Relative: `address` plus the operand byte read as a signed displacement.
    pub fn get_relative(&self, address: u16) -> (target: u16)
        ensures
            target == relative_address(self@, address),
    {
        let offset = self.read(address.wrapping_add(1));
        if offset < 128 {
            address.wrapping_add(offset as u16)
        } else {
            address.wrapping_sub(256 - offset as u16)
        }
    }

    /// Indirect: the word that the operand word points at.
    pub fn get_indirect(&self, address: u16) -> (target: u16)
        ensures
            target == indirect_address(self@, address),
    {
        let pointer = self.read_word(address.wrapping_add(1));
        self.read_word(pointer)
    }

    /// Indexed indirect, `(zp,X)`: the word in the zero page at operand byte
    /// plus X.
    pub fn get_indirect_x(&self, address: u16, x: u8) -> (target: u16)
        ensures
            target == indexed_indirect_address(self@, address, x),
    {
        let pointer = self.read(address.wrapping_add(1)).wrapping_add(x);
        self.read_zero_page_word(pointer)
    }

    /// Indirect indexed, `(zp),Y`: the word in the zero page at the operand
    /// byte, plus Y.
    pub fn get_indirect_y(&self, address: u16, y: u8) -> (target: u16)
        ensures
            target == indirect_indexed_address(self@, address, y),
    {
        let pointer = self.read(address.wrapping_add(1));
        self.read_zero_page_word(pointer).wrapping_add(y as u16)
    }
}

/// Resolving an operand address is a function of the bus contents and the
/// inputs: on two buses that hold the same bytes, and so on one bus asked
/// twice, every mode resolves to the same address. The resolvers take the
/// bus by shared reference, so none of them changes it.
pub proof fn theorem_resolution_is_pure(first: Memory, second: Memory, address: u16, index: u8)
    requires
        first@ == second@,
    ensures
        zero_page_address(first@, address, index) == zero_page_address(second@, address, index),
        absolute_address(first@, address, index) == absolute_address(second@, address, index),
        relative_address(first@, address) == relative_address(second@, address),
        indirect_address(first@, address) == indirect_address(second@, address),
        indexed_indirect_address(first@, address, index) == indexed_indirect_address(
            second@,
            address,
            index,
        ),
        indirect_indexed_address(first@, address, index) == indirect_indexed_address(
            second@,
            address,
            index,
        ),
{
}

/// Resolving an operand address looks at no byte but the operand bytes and,
/// for the indirect modes, the pointer they name: two buses that agree on
/// those bytes resolve to the same address.
pub proof fn theorem_resolution_reads_operands_only(
    m1: Seq<u8>,
    m2: Seq<u8>,
    address: u16,
    index: u8,
)
    requires
        operand_byte(m1, address) == operand_byte(m2, address),
    ensures
        zero_page_address(m1, address, index) == zero_page_address(m2, address, index),
        relative_address(m1, address) == relative_address(m2, address),
        byte_at(m1, wrap16(address + 2)) == byte_at(m2, wrap16(address + 2)) ==> absolute_address(
            m1,
            address,
            index,
        ) == absolute_address(m2, address, index),
        zero_page_word(m1, wrap8(operand_byte(m1, address) + index)) == zero_page_word(
            m2,
            wrap8(operand_byte(m1, address) + index),
        ) ==> indexed_indirect_address(m1, address, index) == indexed_indirect_address(
            m2,
            address,
            index,
        ),
        zero_page_word(m1, operand_byte(m1, address)) == zero_page_word(
            m2,
            operand_byte(m1, address),
        ) ==> indirect_indexed_address(m1, address, index) == indirect_indexed_address(
            m2,
            address,
            index,
        ),
{
}

} // verus!
