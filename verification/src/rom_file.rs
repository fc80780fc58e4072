//! The cartridge container: a 16-byte header, an optional trainer, the
//! program banks and the graphics banks, in that order.

use vstd::prelude::*;

verus! {

/// Bytes of the header at the start of the container.
pub const HEADER_SIZE: u16 = 16;

/// Bytes of the trainer block that may stand between header and program.
pub const TRAINER_SIZE: u16 = 512;

/// Bytes of one program bank.
pub const PRG_BANK_SIZE: u32 = 16384;

/// Bytes of one graphics bank.
pub const CHR_BANK_SIZE: u32 = 8192;

/// Bit 0 of the flags byte: the arrangement of the name tables.
pub const FLAG_MIRRORING: u8 = 0b00000001;

/// Bit 1 of the flags byte: the cartridge keeps memory on a battery.
pub const FLAG_CARTRIDGE_BATTERY: u8 = 0b00000010;

/// Bit 2 of the flags byte: a trainer stands before the program data.
pub const FLAG_TRAINER: u8 = 0b00000100;

/// Bit 3 of the flags byte: the cartridge brings its own name tables.
pub const FLAG_MIRRORING_CONTROL: u8 = 0b00001000;

/// Why a container cannot be loaded.
#[derive(Clone, Copy, Debug, PartialEq, Eq, Structural)]
pub enum LoadError {
    /// The container does not begin with the four signature bytes.
    BadSignature,
    /// The container ends before the header or the data that the header
    /// announces.
    Truncated,
    /// The program data does not fit in the program window of the bus.
    ProgramTooLarge,
    /// The graphics data does not fit in pattern memory.
    GraphicsTooLarge,
}

/// Whether the container asks for the one mapping scheme that is supported,
/// the fixed one. A container that asks for another is still loaded as if
/// its mapping were fixed.
#[derive(Clone, Copy, Debug, PartialEq, Eq, Structural)]
pub enum MapperSupport {
    /// The mapper number is 0.
    Supported,
    /// The mapper number is not 0.
    Unsupported,
}

/// Whether `data` begins with the signature `N`, `E`, `S`, end-of-file.
pub open spec fn has_signature(data: Seq<u8>) -> bool {
    data.len() >= 4 && data[0] == 0x4E && data[1] == 0x45 && data[2] == 0x53 && data[3] == 0x1A
}

/// Whether `data` holds a whole header.
pub open spec fn has_header(data: Seq<u8>) -> bool {
    data.len() >= HEADER_SIZE
}

/// Whether bit 2 of the flags byte announces a trainer.
pub open spec fn trainer_present(data: Seq<u8>) -> bool {
    (data[6] / 4) % 2 == 1
}

/// Where the program data begins.
pub open spec fn program_offset(data: Seq<u8>) -> int {
    if trainer_present(data) {
        HEADER_SIZE + TRAINER_SIZE
    } else {
        HEADER_SIZE as int
    }
}

/// Bytes of program data: byte 4 counts banks of 16 KiB.
pub open spec fn program_size(data: Seq<u8>) -> int {
    data[4] * PRG_BANK_SIZE
}

/// Where the graphics data begins: right after the program data.
pub open spec fn graphics_offset(data: Seq<u8>) -> int {
    program_offset(data) + program_size(data)
}

/// Bytes of graphics data: byte 5 counts banks of 8 KiB.
pub open spec fn graphics_size(data: Seq<u8>) -> int {
    data[5] * CHR_BANK_SIZE
}

/// Whether `data` reaches to the end of the program data.
pub open spec fn holds_program(data: Seq<u8>) -> bool {
    has_header(data) && data.len() >= graphics_offset(data)
}

/// Whether `data` reaches to the end of the graphics data.
pub open spec fn holds_graphics(data: Seq<u8>) -> bool {
    has_header(data) && data.len() >= graphics_offset(data) + graphics_size(data)
}

/// The program data.
pub open spec fn program_data(data: Seq<u8>) -> Seq<u8> {
    data.subrange(program_offset(data), graphics_offset(data))
}

/// The graphics data.
pub open spec fn graphics_data(data: Seq<u8>) -> Seq<u8> {
    data.subrange(graphics_offset(data), graphics_offset(data) + graphics_size(data))
}

/// The mapper number: its low half is the high half of byte 6, its high
/// half the high half of byte 7.
pub open spec fn mapper_number(data: Seq<u8>) -> int {
    data[6] / 16 + 16 * (data[7] / 16)
}

/// Bit 2 of a byte, and the two halves of a mapper number, as masks and
/// shifts compute them.
proof fn lemma_flag_bits(flags6: u8, flags7: u8)
    ensures
        (flags6 & FLAG_TRAINER != 0) == ((flags6 / 4) % 2 == 1),
        (flags7 & 0xF0) | (flags6 >> 4) == flags6 / 16 + 16 * (flags7 / 16),
{
    assert((flags6 & 0b00000100 != 0) == ((flags6 / 4) % 2 == 1)) by (bit_vector);
    assert((flags7 & 0xF0) | (flags6 >> 4) == flags6 / 16 + 16 * (flags7 / 16)) by (bit_vector);
}

/// ROM file (INES format)
pub struct RomFile {
    pub file_path: String,
    pub data: Vec<u8>,
}

impl RomFile {
    /// A container read from `file_path` with the contents `data`.
    pub fn new(file_path: String, data: Vec<u8>) -> (rom: RomFile)
        ensures
            rom.file_path == file_path,
            rom.data == data,
    {
        RomFile { file_path, data }
    }

    /// True if the header contains the NES signature
    pub fn is_nes(&self) -> (signed: bool)
        ensures
            signed == has_signature(self.data@),
    {
        self.data.len() >= 4 && self.data[0] == 0x4E && self.data[1] == 0x45 && self.data[2]
            == 0x53 && self.data[3] == 0x1A
    }

    /// Gets the PRG ROM size in 16kB units
    pub fn raw_prg_size(&self) -> (banks: u8)
        requires
            self.data@.len() > 4,
        ensures
            banks == self.data@[4],
    {
        self.data[4]
    }

    /// Gets the PRG ROM size in byte units
    pub fn prg_size(&self) -> (size: u32)
        requires
            self.data@.len() > 4,
        ensures
            size == program_size(self.data@),
    {
        (self.raw_prg_size() as u32) * PRG_BANK_SIZE
    }

    /// Gets the PRG ROM data
    pub fn prg_data(&self) -> (bytes: Vec<u8>)
        requires
            holds_program(self.data@),
        ensures
            bytes@ == program_data(self.data@),
    {
        let prg_address = self.prg_data_address() as usize;
        let prg_size = self.prg_size() as usize;
        copy_range(&self.data, prg_address, prg_address + prg_size)
    }

    /// Gets the CHR ROM size in 8kB units
    pub fn raw_chr_size(&self) -> (banks: u8)
        requires
            self.data@.len() > 5,
        ensures
            banks == self.data@[5],
    {
        self.data[5]
    }

    /// Gets the CHR ROM size in byte units
    pub fn chr_size(&self) -> (size: u32)
        requires
            self.data@.len() > 5,
        ensures
            size == graphics_size(self.data@),
    {
        self.raw_chr_size() as u32 * CHR_BANK_SIZE
    }

    /// Gets the CHR ROM data
    pub fn chr_data(&self) -> (bytes: Vec<u8>)
        requires
            holds_graphics(self.data@),
        ensures
            bytes@ == graphics_data(self.data@),
    {
        let chr_address = self.chr_data_address() as usize;
        let chr_size = self.chr_size() as usize;
        copy_range(&self.data, chr_address, chr_address + chr_size)
    }

    /// Gets whether a trainer is present or no in the ROM file
    pub fn has_trainer(&self) -> (present: bool)
        requires
            self.data@.len() > 6,
        ensures
            present == trainer_present(self.data@),
    {
        proof {
            lemma_flag_bits(self.data@[6], 0);
        }
        (self.data[6] & FLAG_TRAINER) != 0
    }

    /// Where the program data begins: behind the header and the trainer, if
    /// there is one.
    pub fn prg_data_address(&self) -> (offset: u16)
        requires
            self.data@.len() > 6,
        ensures
            offset == program_offset(self.data@),
    {
        if self.has_trainer() {
            HEADER_SIZE + TRAINER_SIZE
        } else {
            HEADER_SIZE
        }
    }

    /// Where the graphics data begins: behind the program data.
    pub fn chr_data_address(&self) -> (offset: u32)
        requires
            self.data@.len() > 6,
        ensures
            offset == graphics_offset(self.data@),
    {
        self.prg_data_address() as u32 + self.prg_size()
    }

    /// Gets the number of the mapping scheme that the cartridge uses
    pub fn get_mapper_type(&self) -> (mapper: u8)
        requires
            self.data@.len() > 7,
        ensures
            mapper == mapper_number(self.data@),
    {
        proof {
            lemma_flag_bits(self.data@[6], self.data@[7]);
        }
        (self.data[7] & 0xF0) | (self.data[6] >> 4)
    }

    /// Whether the container asks for a mapping scheme that is supported.
    pub fn mapper_support(&self) -> (support: MapperSupport)
        requires
            self.data@.len() > 7,
        ensures
            support == mapper_support_of(self.data@),
    {
        if self.get_mapper_type() == 0 {
            MapperSupport::Supported
        } else {
            MapperSupport::Unsupported
        }
    }
}

/// Only mapper 0, the fixed mapping, is supported.
pub open spec fn mapper_support_of(data: Seq<u8>) -> MapperSupport {
    if mapper_number(data) == 0 {
        MapperSupport::Supported
    } else {
        MapperSupport::Unsupported
    }
}

/// A copy of the bytes of `data` from `start` up to `end`.
pub fn copy_range(data: &Vec<u8>, start: usize, end: usize) -> (bytes: Vec<u8>)
    requires
        start <= end <= data@.len(),
    ensures
        bytes@ == data@.subrange(start as int, end as int),
{
    let mut bytes: Vec<u8> = Vec::new();
    let mut i: usize = start;
    while i < end
        invariant
            start <= i <= end <= data@.len(),
            bytes@ == data@.subrange(start as int, i as int),
        decreases end - i,
    {
        bytes.push(data[i]);
        i += 1;
    }
    bytes
}

} // verus!
