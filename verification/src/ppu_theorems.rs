//! Facts about the picture unit: what one frame of steps does to the
//! vertical-blank flag, and that tile decoding inverts tile encoding.

use vstd::prelude::*;
use crate::memory::{byte_at, MEMORY_SIZE, PPU_STATUS};
use crate::ppu::{
    advance, at_vblank_end, at_vblank_start, in_frame, lemma_status_with_vblank, plane_bit, run,
    tick, tile_pixel, vblank, with_vblank, Timing, DOTS_PER_SCANLINE, SCANLINES_PER_FRAME,
    STEPS_PER_FRAME,
};

verus! {

/// The step of a frame that arrives on the dot where vertical blank begins:
/// 241 scanlines and one dot after the start.
pub const VBLANK_START_STEP: u32 = 82182;

/// The step of a frame that arrives on the dot where vertical blank ends:
/// 261 scanlines and one dot after the start.
pub const VBLANK_END_STEP: u32 = 89002;

/// Raising the flag and then clearing it, or clearing and then raising it,
/// gives what the second alone gives; and the flag reads back as written.
pub proof fn lemma_with_vblank(m: Seq<u8>, on: bool)
    requires
        m.len() == MEMORY_SIZE,
    ensures
        vblank(with_vblank(m, on)) == on,
        with_vblank(with_vblank(m, !on), on) == with_vblank(m, on),
        with_vblank(m, on).len() == m.len(),
{
    lemma_status_with_vblank(byte_at(m, PPU_STATUS), on);
}

/// A step keeps the picture unit within the frame: the dot goes from 0 to
/// 340 and back to 0, which moves the scanline on, and the scanline goes
/// from 0 to 261 and back to 0.
pub proof fn theorem_tick_stays_in_frame(t: Timing, m: Seq<u8>)
    requires
        in_frame(t),
    ensures
        in_frame(tick(t, m).0),
        t.dot < 340 ==> tick(t, m).0.dot == t.dot + 1 && tick(t, m).0.scanline == t.scanline,
        t.dot == 340 ==> tick(t, m).0.dot == 0,
        t.dot == 340 && t.scanline < 261 ==> tick(t, m).0.scanline == t.scanline + 1,
        t.dot == 340 && t.scanline == 261 ==> tick(t, m).0.scanline == 0,
{
}

/// Where the picture unit stands, and what it has done to the bus and to
/// the interrupt request, after any number of steps of a frame that began
/// on dot 0 of scanline 0. It stands on the dot and scanline that the
/// number of steps counts out. Before the step that begins vertical blank
/// it has changed nothing; from that step to the one that ends vertical
/// blank the flag on the bus is raised and the interrupt requested; from
/// then on the flag is cleared and the request withdrawn. No other byte of
/// the bus and no other bit of the status register changes.
pub proof fn theorem_frame(t: Timing, m: Seq<u8>, steps: nat)
    requires
        m.len() == MEMORY_SIZE,
        t.dot == 0,
        t.scanline == 0,
        steps <= STEPS_PER_FRAME,
    ensures
        ({
            let (after, bus) = run(t, m, steps);
            &&& after.dot == steps % (DOTS_PER_SCANLINE as nat)
            &&& after.scanline == (steps / (DOTS_PER_SCANLINE as nat)) % (
            SCANLINES_PER_FRAME as nat)
            &&& steps < VBLANK_START_STEP ==> bus == m && after.nmi_pending == t.nmi_pending
            &&& VBLANK_START_STEP <= steps < VBLANK_END_STEP ==> bus == with_vblank(m, true)
                && after.nmi_pending
            &&& VBLANK_END_STEP <= steps ==> bus == with_vblank(m, false) && !after.nmi_pending
        }),
    decreases steps,
{
    if steps > 0 {
        let previous = (steps - 1) as nat;
        theorem_frame(t, m, previous);
        let (t1, m1) = run(t, m, previous);
        let moved = advance(t1);
        assert(moved.dot == steps % 341);
        assert(moved.scanline == (steps / 341) % 262);
        assert(at_vblank_start(moved) <==> steps == VBLANK_START_STEP);
        assert(at_vblank_end(moved) <==> steps == VBLANK_END_STEP);
        lemma_with_vblank(m, false);
        lemma_with_vblank(m, true);
    }
}

/// In one frame the vertical-blank flag is raised once and cleared once,
/// and nothing else happens to the bus: of the steps of a frame that began
/// on dot 0 of scanline 0, the one that arrives on dot 1 of scanline 241
/// leaves the flag raised and the interrupt requested, the one that arrives
/// on dot 1 of scanline 261 leaves the flag cleared and the request
/// withdrawn, and every other step leaves bus and request as they were.
pub proof fn theorem_vblank_edges(t: Timing, m: Seq<u8>, steps: nat)
    requires
        m.len() == MEMORY_SIZE,
        t.dot == 0,
        t.scanline == 0,
        steps < STEPS_PER_FRAME,
    ensures
        ({
            let (before, bus_before) = run(t, m, steps);
            let (after, bus_after) = run(t, m, steps + 1);
            &&& steps + 1 == VBLANK_START_STEP <==> at_vblank_start(after)
            &&& steps + 1 == VBLANK_END_STEP <==> at_vblank_end(after)
            &&& at_vblank_start(after) ==> vblank(bus_after) && after.nmi_pending
            &&& at_vblank_end(after) ==> !vblank(bus_after) && !after.nmi_pending
            &&& !at_vblank_start(after) && !at_vblank_end(after) ==> bus_after == bus_before
                && after.nmi_pending == before.nmi_pending
        }),
{
    theorem_frame(t, m, steps);
    theorem_frame(t, m, steps + 1);
    lemma_with_vblank(m, false);
    lemma_with_vblank(m, true);
}

/// After the steps of one whole frame the picture unit is back on dot 0 of
/// scanline 0, with the flag cleared and no interrupt requested.
pub proof fn theorem_frame_ends_where_it_began(t: Timing, m: Seq<u8>)
    requires
        m.len() == MEMORY_SIZE,
        t.dot == 0,
        t.scanline == 0,
    ensures
        run(t, m, STEPS_PER_FRAME as nat) == (
            Timing { dot: 0, scanline: 0, nmi_pending: false },
            with_vblank(m, false),
        ),
{
    theorem_frame(t, m, STEPS_PER_FRAME as nat);
}

/// The bit of the pixel value `pixel` that goes to `plane`: the low bit to
/// plane 0, the high bit to plane 1.
pub open spec fn pixel_bit(pixel: u8, plane: int) -> u8 {
    if plane == 0 {
        pixel % 2
    } else {
        pixel / 2
    }
}

/// The byte of `plane` for a row of eight pixels: the leftmost pixel gives
/// the highest bit.
pub open spec fn row_plane(row: Seq<u8>, plane: int) -> u8 {
    (128 * pixel_bit(row[0], plane) + 64 * pixel_bit(row[1], plane) + 32 * pixel_bit(
        row[2],
        plane,
    ) + 16 * pixel_bit(row[3], plane) + 8 * pixel_bit(row[4], plane) + 4 * pixel_bit(
        row[5],
        plane,
    ) + 2 * pixel_bit(row[6], plane) + pixel_bit(row[7], plane)) as u8
}

/// The 16 bytes of a tile for an 8 by 8 grid of pixel values: the eight
/// bytes of plane 0, one for each row, then the eight bytes of plane 1.
pub open spec fn encode_tile(grid: Seq<Seq<u8>>) -> Seq<u8> {
    Seq::new(
        16,
        |k: int|
            if k < 8 {
                row_plane(grid[k], 0)
            } else {
                row_plane(grid[k - 8], 1)
            },
    )
}

/// Whether `grid` is 8 rows of 8 pixel values from 0 to 3.
pub open spec fn is_tile_grid(grid: Seq<Seq<u8>>) -> bool {
    &&& grid.len() == 8
    &&& forall|row: int| 0 <= row < 8 ==> (#[trigger] grid[row]).len() == 8
    &&& forall|row: int, column: int|
        0 <= row < 8 && 0 <= column < 8 ==> #[trigger] grid[row][column] <= 3
}

/// Every decoded pixel is a palette index from 0 to 3.
pub proof fn theorem_pixel_range(pattern: Seq<u8>, offset: int, row: int, column: int)
    requires
        0 <= column < 8,
    ensures
        0 <= tile_pixel(pattern, offset, row, column) <= 3,
{
}

/// The bits decoded from a plane byte, put together again, are the byte.
pub proof fn theorem_plane_bits_rebuild(byte: u8)
    by (bit_vector)
    ensures
        byte == 128 * plane_bit(byte, 0) + 64 * plane_bit(byte, 1) + 32 * plane_bit(byte, 2) + 16
            * plane_bit(byte, 3) + 8 * plane_bit(byte, 4) + 4 * plane_bit(byte, 5) + 2 * plane_bit(
            byte,
            6,
        ) + plane_bit(byte, 7),
{
}

/// The one of eight values that belongs to `column`.
pub open spec fn pick(b0: u8, b1: u8, b2: u8, b3: u8, b4: u8, b5: u8, b6: u8, b7: u8, column: u8)
    -> u8 {
    if column == 0 {
        b0
    } else if column == 1 {
        b1
    } else if column == 2 {
        b2
    } else if column == 3 {
        b3
    } else if column == 4 {
        b4
    } else if column == 5 {
        b5
    } else if column == 6 {
        b6
    } else {
        b7
    }
}

/// A byte put together from eight bits decodes to those bits.
pub proof fn lemma_byte_from_bits(
    b0: u8,
    b1: u8,
    b2: u8,
    b3: u8,
    b4: u8,
    b5: u8,
    b6: u8,
    b7: u8,
    column: u8,
)
    by (bit_vector)
    requires
        b0 <= 1,
        b1 <= 1,
        b2 <= 1,
        b3 <= 1,
        b4 <= 1,
        b5 <= 1,
        b6 <= 1,
        b7 <= 1,
        column < 8,
    ensures
        plane_bit(
            (128 * b0 + 64 * b1 + 32 * b2 + 16 * b3 + 8 * b4 + 4 * b5 + 2 * b6 + b7) as u8,
            column,
        ) == pick(b0, b1, b2, b3, b4, b5, b6, b7, column),
{
}

/// Decoding inverts encoding: the tile encoded from a grid of pixel values
/// decodes to that grid.
pub proof fn theorem_tile_round_trip(grid: Seq<Seq<u8>>, row: int, column: int)
    requires
        is_tile_grid(grid),
        0 <= row < 8,
        0 <= column < 8,
    ensures
        tile_pixel(encode_tile(grid), 0, row, column) == grid[row][column],
{
    let pixels = grid[row];
    assert(pixels.len() == 8);
    assert(forall|j: int| 0 <= j < 8 ==> #[trigger] grid[row][j] <= 3);
    assert(pixels[0] <= 3 && pixels[1] <= 3 && pixels[2] <= 3 && pixels[3] <= 3 && pixels[4] <= 3
        && pixels[5] <= 3 && pixels[6] <= 3 && pixels[7] <= 3);
    let low = row_plane(pixels, 0);
    let high = row_plane(pixels, 1);
    assert(encode_tile(grid)[row] == low);
    assert(encode_tile(grid)[8 + row] == high);
    lemma_byte_from_bits(
        pixel_bit(pixels[0], 0),
        pixel_bit(pixels[1], 0),
        pixel_bit(pixels[2], 0),
        pixel_bit(pixels[3], 0),
        pixel_bit(pixels[4], 0),
        pixel_bit(pixels[5], 0),
        pixel_bit(pixels[6], 0),
        pixel_bit(pixels[7], 0),
        column as u8,
    );
    lemma_byte_from_bits(
        pixel_bit(pixels[0], 1),
        pixel_bit(pixels[1], 1),
        pixel_bit(pixels[2], 1),
        pixel_bit(pixels[3], 1),
        pixel_bit(pixels[4], 1),
        pixel_bit(pixels[5], 1),
        pixel_bit(pixels[6], 1),
        pixel_bit(pixels[7], 1),
        column as u8,
    );
    assert(plane_bit(low, column as u8) == pixel_bit(pixels[column], 0));
    assert(plane_bit(high, column as u8) == pixel_bit(pixels[column], 1));
}

} // verus!
