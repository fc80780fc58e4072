//! Views of pattern memory for inspection: pixel values turned into
//! colours and laid out in a display buffer of three bytes per pixel.

use vstd::prelude::*;
use crate::memory::{byte_at, lemma_memory_len, Memory, PPU_CTRL};
use crate::ppu::{plane_bit, tile_offset, tile_pixel, Ppu};

verus! {

broadcast use lemma_memory_len, Ppu::lemma_pattern_len;

/// Bytes of one row of the display buffer: 256 pixels of three bytes.
pub const VIEW_PITCH: usize = 768;

/// Bytes that a display buffer must hold for the eight rows of a tile
/// drawn at its top left corner.
pub const TILE_VIEW_SIZE: usize = 5400;

/// Bytes of the frame buffer: 1024 rows of 256 pixels of three bytes.
pub const FRAMEBUFFER_SIZE: usize = 786432;

/// Where the name table begins in the picture unit's memory.
pub const NAME_TABLE: u16 = 0x2000;

/// The colour of a value of the greyscale view: red, green, blue.
pub open spec fn color_of(val: u8) -> Seq<u8> {
    if val == 0 {
        seq![102u8, 102u8, 102u8]
    } else if val == 1 {
        seq![0u8, 42u8, 136u8]
    } else if val == 9 {
        seq![11u8, 72u8, 0u8]
    } else {
        seq![255u8, 255u8, 255u8]
    }
}

/// The colour of a two-bit pixel value: red, green, blue.
pub open spec fn color_of_2bpp(val: u8) -> Seq<u8> {
    if val == 0 {
        seq![11u8, 72u8, 0u8]
    } else if val == 1 {
        seq![0u8, 42u8, 136u8]
    } else if val == 2 {
        seq![102u8, 102u8, 102u8]
    } else {
        seq![0u8, 0u8, 0u8]
    }
}

/// The `index`th of the four two-bit pixels packed in `val`, the first one
/// in the two highest bits.
pub open spec fn packed_pixel(val: u8, index: int) -> u8 {
    if index == 0 {
        val / 64
    } else if index == 1 {
        (val / 16) % 4
    } else if index == 2 {
        (val / 4) % 4
    } else {
        val % 4
    }
}

/// Whether `index` is a byte of the display buffer that the tile view
/// draws: one of the first 24 bytes of one of the first 8 rows.
pub open spec fn in_tile_view(index: int) -> bool {
    0 <= index && index / (VIEW_PITCH as int) < 8 && index % (VIEW_PITCH as int) < 24
}

/// The display buffer `buffer` with the tile at column 1, row 1 of the
/// tile sheet drawn at its top left corner.
pub open spec fn tile_view(buffer: Seq<u8>, pattern: Seq<u8>) -> Seq<u8> {
    Seq::new(
        buffer.len(),
        |index: int|
            if in_tile_view(index) {
                let row = index / (VIEW_PITCH as int);
                let within = index % (VIEW_PITCH as int);
                color_of_2bpp(tile_pixel(pattern, tile_offset(1, 1), row, within / 3) as u8)[within
                    % 3]
            } else {
                buffer[index]
            },
    )
}

/// Where the pattern table of the background begins: bit 4 of the control
/// register chooses the second table.
pub open spec fn background_pattern_table(m: Seq<u8>) -> u16 {
    if (byte_at(m, PPU_CTRL) / 16) % 2 == 1 {
        0x1000
    } else {
        0x0000
    }
}

/// The number of the tile that the name table has for the pixel in `row`
/// and `column`: tiles are 8 by 8 pixels and a row of the table has 32.
pub open spec fn name_table_entry(pattern: Seq<u8>, row: int, column: int) -> u8 {
    pattern[NAME_TABLE + (row / 8) * 32 + column / 8]
}

/// The value of the background pixel in `row` and `column`.
pub open spec fn background_pixel_of(pattern: Seq<u8>, m: Seq<u8>, row: int, column: int) -> int {
    tile_pixel(
        pattern,
        background_pattern_table(m) + name_table_entry(pattern, row, column) * 16,
        row % 8,
        column % 8,
    )
}

/// The four pixels packed in a byte, as masks and shifts find them.
proof fn lemma_packed_pixels(val: u8)
    ensures
        (val & 0b11000000) >> 6 == packed_pixel(val, 0),
        (val & 0b00110000) >> 4 == packed_pixel(val, 1),
        (val & 0b00001100) >> 2 == packed_pixel(val, 2),
        val & 0b00000011 == packed_pixel(val, 3),
{
    assert((val & 0b11000000) >> 6 == val / 64) by (bit_vector);
    assert((val & 0b00110000) >> 4 == (val / 16) % 4) by (bit_vector);
    assert((val & 0b00001100) >> 2 == (val / 4) % 4) by (bit_vector);
    assert(val & 0b00000011 == val % 4) by (bit_vector);
}

/// How a pixel's two bits are cut out of the plane bytes and added up.
proof fn lemma_pixel_bits(low: u8, high: u8, column: u8, shift: u8)
    requires
        column < 8,
        shift == 7 - column,
    ensures
        ((low >> shift) & 1) + ((high >> shift) & 1) * 2 == 2 * plane_bit(high, column)
            + plane_bit(low, column),
{
    assert((low >> shift) & 1 == plane_bit(low, column)) by (bit_vector)
        requires
            column < 8,
            shift == 7 - column,
    ;
    assert((high >> shift) & 1 == plane_bit(high, column)) by (bit_vector)
        requires
            column < 8,
            shift == 7 - column,
    ;
}

/// Bit 4 of the control register, as a mask finds it.
proof fn lemma_control_bit(control: u8)
    ensures
        (control & 0b00010000 != 0) == ((control / 16) % 2 == 1),
{
    assert((control & 0b00010000 != 0) == ((control / 16) % 2 == 1)) by (bit_vector);
}

/// The colour of a value of the greyscale view.
pub fn val_to_color(val: u8) -> (color: [u8; 3])
    ensures
        color@ == color_of(val),
{
    match val {
        0 => {
            [102, 102, 102]  // Light grey
        },
        1 => {
            [0, 42, 136]  // Dark blue
        },
        9 => {
            [11, 72, 0]  // Dark green
        },
        _ => { [255, 255, 255] },
    }
}

/// The colour of a two-bit pixel value.
pub fn val_to_color_2bpp(val: u8) -> (color: [u8; 3])
    ensures
        color@ == color_of_2bpp(val),
{
    match val {
        0 => {
            [11, 72, 0]  // Dark green
        },
        1 => {
            [0, 42, 136]  // Dark blue
        },
        2 => {
            [102, 102, 102]  // Light grey
        },
        _ => { [0, 0, 0] },
    }
}

/// The colours of the four two-bit pixels packed in `val`, the pixel in the
/// two highest bits first.
pub fn get_colors_2bpp(val: u8) -> (colors: [u8; 12])
    ensures
        colors@ == color_of_2bpp(packed_pixel(val, 0)) + color_of_2bpp(packed_pixel(val, 1))
            + color_of_2bpp(packed_pixel(val, 2)) + color_of_2bpp(packed_pixel(val, 3)),
{
    proof {
        lemma_packed_pixels(val);
    }
    let c3 = val & 0b00000011;
    let c2 = (val & 0b00001100) >> 2;
    let c1 = (val & 0b00110000) >> 4;
    let c0 = (val & 0b11000000) >> 6;
    let color0 = val_to_color_2bpp(c0);
    let color1 = val_to_color_2bpp(c1);
    let color2 = val_to_color_2bpp(c2);
    let color3 = val_to_color_2bpp(c3);
    [
        color0[0],
        color0[1],
        color0[2],
        color1[0],
        color1[1],
        color1[2],
        color2[0],
        color2[1],
        color2[2],
        color3[0],
        color3[1],
        color3[2],
    ]
}

/// Whether the byte at `index` of the display buffer is drawn once `rows`
/// rows of the tile and `columns` pixels of the next row are.
pub open spec fn drawn(index: int, rows: int, columns: int) -> bool {
    in_tile_view(index) && (index / (VIEW_PITCH as int) < rows || (index / (VIEW_PITCH as int)
        == rows && index % (VIEW_PITCH as int) < 3 * columns))
}

/// The display buffer `buffer` with the first `rows` rows of the tile and
/// the first `columns` pixels of the next row drawn.
pub open spec fn partial_tile_view(buffer: Seq<u8>, pattern: Seq<u8>, rows: int, columns: int)
    -> Seq<u8> {
    Seq::new(
        buffer.len(),
        |index: int|
            if drawn(index, rows, columns) {
                tile_view(buffer, pattern)[index]
            } else {
                buffer[index]
            },
    )
}

/// Drawing no pixel leaves the buffer as it is, drawing eight pixels of a
/// row is drawing the row, and drawing eight rows is drawing the tile.
proof fn lemma_partial_tile_view_ends(buffer: Seq<u8>, pattern: Seq<u8>, rows: int)
    requires
        0 <= rows < 8,
    ensures
        partial_tile_view(buffer, pattern, 0, 0) == buffer,
        partial_tile_view(buffer, pattern, rows, 8) == partial_tile_view(
            buffer,
            pattern,
            rows + 1,
            0,
        ),
        partial_tile_view(buffer, pattern, 8, 0) == tile_view(buffer, pattern),
{
    assert(partial_tile_view(buffer, pattern, 0, 0) =~= buffer);
    assert(partial_tile_view(buffer, pattern, rows, 8) =~= partial_tile_view(
        buffer,
        pattern,
        rows + 1,
        0,
    ));
    assert(partial_tile_view(buffer, pattern, 8, 0) =~= tile_view(buffer, pattern));
}

/// Drawing one pixel more writes the three bytes of its colour.
proof fn lemma_partial_tile_view_step(buffer: Seq<u8>, pattern: Seq<u8>, row: int, column: int)
    requires
        0 <= row < 8,
        0 <= column < 8,
        buffer.len() >= TILE_VIEW_SIZE,
    ensures
        ({
            let color = color_of_2bpp(
                tile_pixel(pattern, tile_offset(1, 1), row, column) as u8,
            );
            let at = row * VIEW_PITCH + 3 * column;
            partial_tile_view(buffer, pattern, row, column + 1) == partial_tile_view(
                buffer,
                pattern,
                row,
                column,
            ).update(at, color[0]).update(at + 1, color[1]).update(at + 2, color[2])
        }),
{
    let color = color_of_2bpp(tile_pixel(pattern, tile_offset(1, 1), row, column) as u8);
    let at = row * VIEW_PITCH + 3 * column;
    let earlier = partial_tile_view(buffer, pattern, row, column);
    let later = partial_tile_view(buffer, pattern, row, column + 1);
    let written = earlier.update(at, color[0]).update(at + 1, color[1]).update(at + 2, color[2]);
    assert forall|index: int| 0 <= index < buffer.len() implies later[index] == written[index] by {
        if at <= index < at + 3 {
            assert(index / 768 == row);
            assert(index % 768 == index - at + 3 * column);
            assert((index % 768) / 3 == column);
            assert((index % 768) % 3 == index - at);
        } else {
            assert(drawn(index, row, column + 1) == drawn(index, row, column));
        }
    }
    assert(later =~= written);
}

/// Write the three bytes of a pixel's colour into a display buffer.
fn draw_pixel(buffer: &mut [u8], row: usize, column: usize, color: [u8; 3])
    requires
        row < 8,
        column < 8,
        old(buffer)@.len() >= TILE_VIEW_SIZE,
    ensures
        final(buffer)@ == old(buffer)@.update(row * VIEW_PITCH + 3 * column, color[0]).update(
            row * VIEW_PITCH + 3 * column + 1,
            color[1],
        ).update(row * VIEW_PITCH + 3 * column + 2, color[2]),
{
    buffer[row * (256 * 3) + (3 * column) % (256 * 3)] = color[0];
    buffer[row * (256 * 3) + (3 * column + 1) % (256 * 3)] = color[1];
    buffer[row * (256 * 3) + (3 * column + 2) % (256 * 3)] = color[2];
}

/// Draw the tile at column 1, row 1 of the tile sheet at the top left
/// corner of a display buffer whose rows are `VIEW_PITCH` bytes apart. The
/// rest of the buffer is left as it is.
pub fn fill_chr_data(buffer: &mut [u8], ppu: &Ppu)
    requires
        old(buffer)@.len() >= TILE_VIEW_SIZE,
    ensures
        final(buffer)@ == tile_view(old(buffer)@, ppu.pattern()),
{
    let ghost before = buffer@;
    let tile0 = ppu.get_chr_tile(1, 1);
    proof {
        lemma_partial_tile_view_ends(before, ppu.pattern(), 0);
    }
    for i in 0..8usize
        invariant
            before.len() >= TILE_VIEW_SIZE,
            forall|row: int, column: int|
                0 <= row < 8 && 0 <= column < 8 ==> #[trigger] tile0[row][column] == tile_pixel(
                    ppu.pattern(),
                    tile_offset(1, 1),
                    row,
                    column,
                ),
            buffer@ == partial_tile_view(before, ppu.pattern(), i as int, 0),
    {
        for j in 0..8usize
            invariant
                i < 8,
                before.len() >= TILE_VIEW_SIZE,
                forall|row: int, column: int|
                    0 <= row < 8 && 0 <= column < 8 ==> #[trigger] tile0[row][column]
                        == tile_pixel(ppu.pattern(), tile_offset(1, 1), row, column),
                buffer@ == partial_tile_view(before, ppu.pattern(), i as int, j as int),
        {
            let color = val_to_color_2bpp(tile0[i][j]);
            proof {
                assert(tile0[i as int][j as int] == tile_pixel(
                    ppu.pattern(),
                    tile_offset(1, 1),
                    i as int,
                    j as int,
                ));
                lemma_partial_tile_view_step(before, ppu.pattern(), i as int, j as int);
            }
            draw_pixel(buffer, i, j, color);
        }
        proof {
            lemma_partial_tile_view_ends(before, ppu.pattern(), i as int);
        }
    }
}

/// Where the pattern table of the background begins.
pub fn get_background_pattern_table_address_value(memory: &Memory) -> (address: u16)
    ensures
        address == background_pattern_table(memory@),
{
    let control = memory.read(PPU_CTRL);
    proof {
        lemma_control_bit(control);
    }
    if control & 0b00010000 != 0 {
        0x1000
    } else {
        0x0000
    }
}

/// The value of the background pixel in `row` and `column`: the name table
/// names the tile, the control register the pattern table, and the tile's
/// two planes give the pixel's two bits.
pub fn background_pixel(ppu: &Ppu, memory: &Memory, row: u16, column: u16) -> (pixel: u8)
    requires
        row < 1024,
        column < 256,
    ensures
        pixel == background_pixel_of(ppu.pattern(), memory@, row as int, column as int),
{
    let tile_nr = ppu.read_vram(0x2000 + (row / 8 * 32) + (column / 8));
    let adr = get_background_pattern_table_address_value(memory) + (tile_nr as u16 * 0x10) + (row
        % 8);
    let shift = (7 - (column % 8)) as u8;
    let low = ppu.read_vram(adr);
    let high = ppu.read_vram(adr + 8);
    proof {
        lemma_pixel_bits(low, high, (column % 8) as u8, shift);
    }
    ((low >> shift) & 1) + (((high >> shift) & 1) * 2)
}

/// Paint the whole frame buffer white.
pub fn draw(ppu: &Ppu, memory: &Memory, framebuffer: &mut [u8; 786432])
    ensures
        forall|index: int| 0 <= index < FRAMEBUFFER_SIZE ==> final(framebuffer)@[index] == 255,
{
    for r in 0..1024usize
        invariant
            forall|index: int| 0 <= index < r * 768 ==> framebuffer@[index] == 255,
    {
        for col in 0..256usize
            invariant
                r < 1024,
                forall|index: int| 0 <= index < r * 768 + col * 3 ==> framebuffer@[index] == 255,
        {
            framebuffer[(r * 256 * 3) + (col * 3)] = 255;
            framebuffer[(r * 256 * 3) + (col * 3) + 1] = 255;
            framebuffer[(r * 256 * 3) + (col * 3) + 2] = 255;
        }
    }
}

} // verus!
