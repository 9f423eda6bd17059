//! The wire frame: the bytes that carry one full buffer to the panel.
//!
//! A transfer is the command byte followed by the colour of every LED, row
//! after row from the top, each row from left to right, each LED as its red,
//! green and blue byte.

use vstd::prelude::*;
use crate::grid::{blank, in_bounds, Grid, LED_SIZE};
use crate::pixel::Pixel;

verus! {

/// The byte that announces a frame to the panel.
pub const COMMAND: u8 = 0x72;

/// Bytes in the payload of a frame: three for each of the 256 LEDs.
pub const BUFFER_SIZE: usize = 768;

/// Where the first byte of the LED at `(x, y)` stands in the payload.
pub open spec fn offset(x: int, y: int) -> int {
    3 * (LED_SIZE * y + x)
}

/// The payload that shows `grid`: byte `i` belongs to LED number `i / 3`
/// counted along the rows, and is that LED's channel number `i % 3`.
pub open spec fn wire_frame(grid: Map<(int, int), Pixel>) -> Seq<u8> {
    Seq::new(
        BUFFER_SIZE as nat,
        |i: int| grid[((i / 3) % (LED_SIZE as int), (i / 3) / (LED_SIZE as int))].channels()[i % 3],
    )
}

/// The payload has one byte per channel of every LED, and the three bytes
/// of the LED at `(x, y)` start at `offset(x, y)`: rows are laid out one
/// after the other, and a row advances by LEDs, not by bytes.
pub proof fn lemma_frame_layout(grid: Map<(int, int), Pixel>, x: int, y: int)
    requires
        in_bounds(x, y),
    ensures
        wire_frame(grid).len() == BUFFER_SIZE,
        0 <= offset(x, y) <= BUFFER_SIZE - 3,
        wire_frame(grid).subrange(offset(x, y), offset(x, y) + 3) == grid[(x, y)].channels(),
{
    let at = offset(x, y);
    let frame = wire_frame(grid);
    assert forall|k: int| 0 <= k < 3 implies #[trigger] frame[at + k] == grid[(x, y)].channels()[k] by {
        assert((at + k) / 3 == LED_SIZE * y + x);
        assert((at + k) % 3 == k);
    }
    assert(frame.subrange(at, at + 3) =~= grid[(x, y)].channels());
}

/// The payload for a panel that is dark but for the LED at `(x, y)`: the
/// three bytes at `offset(x, y)` are the channels of `c`, and every other
/// byte is zero.
pub proof fn lemma_frame_of_single_pixel(x: int, y: int, c: Pixel)
    requires
        in_bounds(x, y),
    ensures
        wire_frame(blank().insert((x, y), c)) == Seq::new(
            BUFFER_SIZE as nat,
            |i: int|
                if offset(x, y) <= i < offset(x, y) + 3 {
                    c.channels()[i - offset(x, y)]
                } else {
                    0u8
                },
        ),
{
    let lit = blank().insert((x, y), c);
    let expected = Seq::new(
        BUFFER_SIZE as nat,
        |i: int|
            if offset(x, y) <= i < offset(x, y) + 3 {
                c.channels()[i - offset(x, y)]
            } else {
                0u8
            },
    );
    assert forall|i: int| 0 <= i < BUFFER_SIZE implies wire_frame(lit)[i] == expected[i] by {
        let led = i / 3;
        let at = (led % (LED_SIZE as int), led / (LED_SIZE as int));
        assert(in_bounds(at.0, at.1));
        if offset(x, y) <= i < offset(x, y) + 3 {
            assert(led == LED_SIZE * y + x);
            assert(at == (x, y));
            assert(i % 3 == i - offset(x, y));
        } else {
            assert(at != (x, y));
            assert(lit[at] == Pixel::black());
        }
    }
    assert(wire_frame(lit) =~= expected);
}

/// A frame determines the buffer it was made from: two buffers with the
/// same payload hold the same colour at every LED.
pub proof fn lemma_frame_injective(a: Map<(int, int), Pixel>, b: Map<(int, int), Pixel>, x: int, y: int)
    requires
        wire_frame(a) == wire_frame(b),
        in_bounds(x, y),
    ensures
        a[(x, y)] == b[(x, y)],
{
    lemma_frame_layout(a, x, y);
    lemma_frame_layout(b, x, y);
    let (p, q) = (a[(x, y)], b[(x, y)]);
    assert(p.channels() == q.channels());
    assert(p.r == p.channels()[0] && p.g == p.channels()[1] && p.b == p.channels()[2]);
    assert(q.r == q.channels()[0] && q.g == q.channels()[1] && q.b == q.channels()[2]);
}

/// Flattens `grid` into the payload of a frame.
pub fn encode(grid: &Grid) -> (bytes: Vec<u8>)
    ensures
        bytes@ == wire_frame(grid@),
{
    let mut bytes: Vec<u8> = Vec::with_capacity(BUFFER_SIZE);
    let mut y: usize = 0;
    while y < LED_SIZE
        invariant
            y <= LED_SIZE,
            bytes@ == wire_frame(grid@).take(offset(0, y as int)),
        decreases LED_SIZE - y,
    {
        let mut x: usize = 0;
        while x < LED_SIZE
            invariant
                y < LED_SIZE,
                x <= LED_SIZE,
                bytes@ == wire_frame(grid@).take(offset(x as int, y as int)),
            decreases LED_SIZE - x,
        {
            let rgb = grid.get_pixel(x, y);
            proof {
                lemma_frame_layout(grid@, x as int, y as int);
            }
            let ghost before = bytes@;
            bytes.push(rgb.r);
            bytes.push(rgb.g);
            bytes.push(rgb.b);
            assert(bytes@ =~= before + rgb.channels());
            assert(bytes@ =~= wire_frame(grid@).take(offset(x as int + 1, y as int))) by {
                let at = offset(x as int, y as int);
                let frame = wire_frame(grid@);
                assert(frame.take(at + 3) =~= frame.take(at) + frame.subrange(at, at + 3));
            }
            x += 1;
        }
        y += 1;
    }
    assert(bytes@ =~= wire_frame(grid@));
    bytes
}

} // verus!
