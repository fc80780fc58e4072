//! The picture unit: a dot and scanline counter that raises and clears the
//! vertical-blank flag on the bus, and the pattern memory that tiles are
//! decoded from.

use vstd::prelude::*;
use crate::memory::{byte_at, lemma_memory_len, with_bytes_at, Memory, PPU_STATUS};
use crate::rom_file::{
    graphics_data, graphics_size, has_header, has_signature, holds_graphics, LoadError, RomFile,
};

verus! {

broadcast use lemma_memory_len;

/// Dots on one scanline.
pub const DOTS_PER_SCANLINE: u32 = 341;

/// Scanlines of one frame.
pub const SCANLINES_PER_FRAME: u32 = 262;

/// Steps of one frame: every dot of every scanline.
pub const STEPS_PER_FRAME: u32 = 89342;

/// The scanline on whose dot 1 vertical blank begins.
pub const VBLANK_SCANLINE: u32 = 241;

/// The scanline on whose dot 1 vertical blank ends.
pub const PRERENDER_SCANLINE: u32 = 261;

/// Bytes of pattern memory.
pub const VRAM_SIZE: usize = 16384;

/// The vertical-blank bit of the status register.
pub const STATUS_VBLANK: u8 = 0b1000_0000;

/// Where the picture unit stands in the frame, and whether it asks for the
/// render interrupt.
pub struct Timing {
    /// Dot on the scanline, 0 to 340.
    pub dot: u32,
    /// Scanline of the frame, 0 to 261.
    pub scanline: u32,
    /// Whether the render interrupt is requested.
    pub nmi_pending: bool,
}

/// Whether `t` names a dot of the frame.
pub open spec fn in_frame(t: Timing) -> bool {
    t.dot < DOTS_PER_SCANLINE && t.scanline < SCANLINES_PER_FRAME
}

/// The next dot: the first dot of the next scanline after the last dot of
/// a scanline, and the first scanline after the last.
pub open spec fn advance(t: Timing) -> Timing {
    if t.dot + 1 < DOTS_PER_SCANLINE {
        Timing { dot: (t.dot + 1) as u32, ..t }
    } else if t.scanline + 1 < SCANLINES_PER_FRAME {
        Timing { dot: 0, scanline: (t.scanline + 1) as u32, ..t }
    } else {
        Timing { dot: 0, scanline: 0, ..t }
    }
}

/// Whether `t` is the dot on which vertical blank begins.
pub open spec fn at_vblank_start(t: Timing) -> bool {
    t.scanline == VBLANK_SCANLINE && t.dot == 1
}

/// Whether `t` is the dot on which vertical blank ends.
pub open spec fn at_vblank_end(t: Timing) -> bool {
    t.scanline == PRERENDER_SCANLINE && t.dot == 1
}

/// Whether the status register on the bus `m` shows vertical blank.
pub open spec fn vblank(m: Seq<u8>) -> bool {
    byte_at(m, PPU_STATUS) >= 128
}

/// The status byte with the vertical-blank bit set (`on`) or cleared.
pub open spec fn status_with_vblank(status: u8, on: bool) -> u8 {
    if on {
        status | STATUS_VBLANK
    } else {
        status & !STATUS_VBLANK
    }
}

/// The bus `m` with the vertical-blank bit of the status register set
/// (`on`) or cleared.
pub open spec fn with_vblank(m: Seq<u8>, on: bool) -> Seq<u8> {
    m.update(PPU_STATUS as int, status_with_vblank(byte_at(m, PPU_STATUS), on))
}

/// One step of the picture unit: it moves to the next dot; on the dot where
/// vertical blank begins it raises the flag on the bus and the interrupt
/// request, on the dot where vertical blank ends it clears both, and on
/// every other dot it changes neither.
pub open spec fn tick(t: Timing, m: Seq<u8>) -> (Timing, Seq<u8>) {
    let moved = advance(t);
    if at_vblank_start(moved) {
        (Timing { nmi_pending: true, ..moved }, with_vblank(m, true))
    } else if at_vblank_end(moved) {
        (Timing { nmi_pending: false, ..moved }, with_vblank(m, false))
    } else {
        (moved, m)
    }
}

/// The state after `steps` steps from `(t, m)`.
pub open spec fn run(t: Timing, m: Seq<u8>, steps: nat) -> (Timing, Seq<u8>)
    decreases steps,
{
    if steps == 0 {
        (t, m)
    } else {
        let (t1, m1) = run(t, m, (steps - 1) as nat);
        tick(t1, m1)
    }
}

/// Where in pattern memory the tile in column `x` and row `y` of the tile
/// sheet begins: a tile takes 16 bytes and a row of the sheet 16 tiles.
pub open spec fn tile_offset(x: u8, y: u8) -> int {
    x * 16 + y * 256
}

/// The bit of `byte` that belongs to the pixel in `column`: the leftmost
/// pixel has the highest bit.
pub open spec fn plane_bit(byte: u8, column: u8) -> u8 {
    if column == 0 {
        byte / 128
    } else if column == 1 {
        (byte / 64) % 2
    } else if column == 2 {
        (byte / 32) % 2
    } else if column == 3 {
        (byte / 16) % 2
    } else if column == 4 {
        (byte / 8) % 2
    } else if column == 5 {
        (byte / 4) % 2
    } else if column == 6 {
        (byte / 2) % 2
    } else {
        byte % 2
    }
}

/// The pixel in `row` and `column` of the tile whose 16 bytes begin at
/// `offset`: its low bit comes from the first plane of eight bytes, its
/// high bit from the second.
pub open spec fn tile_pixel(pattern: Seq<u8>, offset: int, row: int, column: int) -> int {
    2 * plane_bit(pattern[offset + 8 + row], column as u8) + plane_bit(
        pattern[offset + row],
        column as u8,
    )
}

/// How loading the graphics of the container `data` ends: with the first of
/// the errors that applies, or well.
pub open spec fn graphics_load_outcome(data: Seq<u8>) -> Result<(), LoadError> {
    if !has_signature(data) {
        Err(LoadError::BadSignature)
    } else if !has_header(data) {
        Err(LoadError::Truncated)
    } else if graphics_size(data) > VRAM_SIZE {
        Err(LoadError::GraphicsTooLarge)
    } else if !holds_graphics(data) {
        Err(LoadError::Truncated)
    } else {
        Ok(())
    }
}

/// Setting the vertical-blank bit makes the status byte at least 128 and
/// clearing it makes it less; either leaves the seven other bits alone.
pub proof fn lemma_status_with_vblank(status: u8, on: bool)
    by (bit_vector)
    ensures
        (status_with_vblank(status, on) >= 128) == on,
        (status & 0x80 != 0) == (status >= 128),
        status_with_vblank(status, on) & 0x7F == status & 0x7F,
        status_with_vblank(status_with_vblank(status, !on), on) == status_with_vblank(status, on),
{
}

/// How a pixel's two bits are cut out of the plane bytes and joined.
proof fn lemma_plane_bits(low: u8, high: u8, column: u8, shift: u8)
    requires
        column < 8,
        shift == 7 - column,
    ensures
        (((high & (0x80u8 >> column)) >> shift) << 1) | ((low & (0x80u8 >> column)) >> shift) == 2
            * plane_bit(high, column) + plane_bit(low, column),
{
    assert((low & (0x80u8 >> column)) >> shift == plane_bit(low, column)) by (bit_vector)
        requires
            column < 8,
            shift == 7 - column,
    ;
    assert((high & (0x80u8 >> column)) >> shift == plane_bit(high, column)) by (bit_vector)
        requires
            column < 8,
            shift == 7 - column,
    ;
    let l = plane_bit(low, column);
    let h = plane_bit(high, column);
    assert((h << 1) | l == 2 * h + l) by (bit_vector)
        requires
            h <= 1,
            l <= 1,
    ;
}

/// The picture unit: its place in the frame, which stays within the frame,
/// its interrupt request and its pattern memory.
pub struct Ppu {
    cycles: u32,
    scanline: u32,
    vram: [u8; 16384],
    nmi_occurred: bool,
}

impl Ppu {
    #[verifier::type_invariant]
    spec fn within_frame(self) -> bool {
        self.cycles < DOTS_PER_SCANLINE && self.scanline < SCANLINES_PER_FRAME
    }

    /// Where the picture unit stands and whether it requests the interrupt.
    pub closed spec fn timing(&self) -> Timing {
        Timing { dot: self.cycles, scanline: self.scanline, nmi_pending: self.nmi_occurred }
    }

    /// The bytes of pattern memory, `VRAM_SIZE` of them.
    pub closed spec fn pattern(&self) -> Seq<u8> {
        self.vram@
    }

    /// Pattern memory always holds exactly `VRAM_SIZE` bytes.
    pub broadcast proof fn lemma_pattern_len(&self)
        ensures
            (#[trigger] self.pattern()).len() == VRAM_SIZE,
    {
    }

    /// A picture unit at the first dot of the frame, with empty pattern
    /// memory and no interrupt requested.
    pub fn new() -> (ppu: Ppu)
        ensures
            ppu.timing() == (Timing { dot: 0, scanline: 0, nmi_pending: false }),
            forall|i: int| 0 <= i < VRAM_SIZE ==> ppu.pattern()[i] == 0,
    {
        Ppu { cycles: 0, scanline: 0, vram: [0; 16384], nmi_occurred: false }
    }

    /// Copy the graphics data of the container to the start of pattern
    /// memory. A container that cannot be loaded leaves pattern memory as it
    /// was. The timing is not touched.
    pub fn load(&mut self, rom_file: &RomFile) -> (outcome: Result<(), LoadError>)
        ensures
            outcome == graphics_load_outcome(rom_file.data@),
            outcome is Ok ==> final(self).pattern() == with_bytes_at(
                old(self).pattern(),
                0,
                graphics_data(rom_file.data@),
            ),
            outcome is Err ==> final(self).pattern() == old(self).pattern(),
            final(self).timing() == old(self).timing(),
    {
        if !rom_file.is_nes() {
            return Err(LoadError::BadSignature);
        }
        if rom_file.data.len() < 16 {
            return Err(LoadError::Truncated);
        }
        let chr_size = rom_file.chr_size() as usize;
        if chr_size > 0x4000 {
            return Err(LoadError::GraphicsTooLarge);
        }
        if rom_file.data.len() < rom_file.chr_data_address() as usize + chr_size {
            return Err(LoadError::Truncated);
        }
        let chr_data = rom_file.chr_data();
        let ghost before = self.vram@;
        let mut i: usize = 0;
        while i < chr_data.len()
            invariant
                i <= chr_data@.len() <= VRAM_SIZE,
                self.vram@ == with_bytes_at(before, 0, chr_data@.take(i as int)),
                self.timing() == old(self).timing(),
            decreases chr_data@.len() - i,
        {
            proof {
                use_type_invariant(&*self);
            }
            self.vram[i] = chr_data[i];
            i += 1;
        }
        assert(chr_data@.take(i as int) == chr_data@);
        Ok(())
    }

    /// The dot on the scanline, 0 to 340.
    pub fn dot(&self) -> (dot: u32)
        ensures
            dot == self.timing().dot,
            in_frame(self.timing()),
    {
        proof {
            use_type_invariant(self);
        }
        self.cycles
    }

    /// The scanline of the frame, 0 to 261.
    pub fn scanline(&self) -> (scanline: u32)
        ensures
            scanline == self.timing().scanline,
            in_frame(self.timing()),
    {
        proof {
            use_type_invariant(self);
        }
        self.scanline
    }

    /// Whether the render interrupt is requested.
    pub fn nmi_occurred(&self) -> (pending: bool)
        ensures
            pending == self.timing().nmi_pending,
    {
        self.nmi_occurred
    }

    /// The whole of pattern memory.
    pub fn vram_data(&self) -> (bytes: &[u8; 16384])
        ensures
            bytes@ == self.pattern(),
    {
        &self.vram
    }

    /// Read the byte of pattern memory at `address`.
    pub fn read_vram(&self, address: u16) -> (val: u8)
        requires
            address < VRAM_SIZE,
        ensures
            val == self.pattern()[address as int],
    {
        self.vram[address as usize]
    }

    /// Store `val` in pattern memory at `address`.
    pub fn write_vram(&mut self, address: u16, val: u8)
        requires
            address < VRAM_SIZE,
        ensures
            final(self).pattern() == old(self).pattern().update(address as int, val),
            final(self).timing() == old(self).timing(),
    {
        proof {
            use_type_invariant(&*self);
        }
        self.vram[address as usize] = val;
    }

    /// Decode the tile in column `x` and row `y` of the tile sheet into its
    /// eight rows of eight pixels, each a palette index from 0 to 3.
    pub fn get_chr_tile(&self, x: u8, y: u8) -> (tile: [[u8; 8]; 8])
        requires
            tile_offset(x, y) + 16 <= VRAM_SIZE,
        ensures
            forall|row: int, column: int|
                0 <= row < 8 && 0 <= column < 8 ==> #[trigger] tile[row][column] == tile_pixel(
                    self.pattern(),
                    tile_offset(x, y),
                    row,
                    column,
                ),
    {
        let mut result = [[0u8;8];8];
        let offset: usize = (x as usize * 8 * 2) + (y as usize * 16 * 8 * 2);
        for i in 0..8usize
            invariant
                offset == tile_offset(x, y),
                offset + 16 <= VRAM_SIZE,
                forall|row: int, column: int|
                    0 <= row < i && 0 <= column < 8 ==> #[trigger] result[row][column]
                        == tile_pixel(self.pattern(), offset as int, row, column),
        {
            for j in 0..8u8
                invariant
                    i < 8,
                    offset == tile_offset(x, y),
                    offset + 16 <= VRAM_SIZE,
                    forall|row: int, column: int|
                        0 <= row < i && 0 <= column < 8 ==> #[trigger] result[row][column]
                            == tile_pixel(self.pattern(), offset as int, row, column),
                    forall|column: int|
                        0 <= column < j ==> #[trigger] result[i as int][column] == tile_pixel(
                            self.pattern(),
                            offset as int,
                            i as int,
                            column,
                        ),
            {
                let low = self.vram[i + offset];
                let high = self.vram[i + 8 + offset];
                let shift = 7 - j;
                proof {
                    lemma_plane_bits(low, high, j, shift);
                }
                let lb = (low & (0b10000000 >> j)) >> shift;
                let hb = ((high & (0b10000000 >> j)) >> shift) << 1;
                result[i][j as usize] = hb | lb;
            }
        }
        result
    }

    /// Advance by one dot.
    pub fn step(&mut self, memory: &mut Memory)
        ensures
            (final(self).timing(), final(memory)@) == tick(old(self).timing(), old(memory)@),
            final(self).pattern() == old(self).pattern(),
    {
        proof {
            use_type_invariant(&*self);
        }
        let mut cycles = self.cycles + 1;
        let mut scanline = self.scanline;
        if cycles > 340 {
            cycles -= 341;
            scanline += 1;
            if scanline > 261 {
                scanline = 0;
            }
        }
        self.cycles = cycles;
        self.scanline = scanline;
        if self.scanline <= 239 {
            // Drawing
        } else if self.scanline == 241 && self.cycles == 1 {
            // VBlank
            self.set_vblank(memory, true);
            self.nmi_occurred = true;
        } else if self.scanline == 261 && self.cycles == 1 {
            // VBlank off / pre-render line
            self.set_vblank(memory, false);
            self.nmi_occurred = false;
        }
    }

    /// Gets the VBLANK status
    pub fn get_vblank(&self, memory: &Memory) -> (status: bool)
        ensures
            status == vblank(memory@),
    {
        let current_status = memory.read(PPU_STATUS);
        proof {
            lemma_status_with_vblank(current_status, true);
        }
        current_status & 0b10000000 != 0
    }

    /// Sets the VBLANK status
    pub fn set_vblank(&self, memory: &mut Memory, status: bool)
        ensures
            final(memory)@ == with_vblank(old(memory)@, status),
    {
        let current_status = memory.read(PPU_STATUS);
        let updated_status = if status {
            current_status | 0b10000000
        } else {
            current_status & 0b01111111
        };
        assert(0b01111111u8 == !0b10000000u8) by (bit_vector);
        memory.write(PPU_STATUS, updated_status)
    }
}

} // verus!
