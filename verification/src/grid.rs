//! The pixel buffer: the colour that every LED of the panel should show.

use vstd::prelude::*;
use crate::pixel::Pixel;

verus! {

/// LEDs along each edge of the panel.
pub const LED_SIZE: usize = 16;

/// Whether `(x, y)` names an LED of the panel. The origin is the top-left
/// corner; `x` grows to the right and `y` downwards.
pub open spec fn in_bounds(x: int, y: int) -> bool {
    0 <= x < LED_SIZE && 0 <= y < LED_SIZE
}

/// The buffer in which every LED is switched off.
pub open spec fn blank() -> Map<(int, int), Pixel> {
    Map::new(|at: (int, int)| in_bounds(at.0, at.1), |at: (int, int)| Pixel::black())
}

/// The desired colour of each of the 16×16 LEDs.
///
/// The buffer always holds a colour for every LED, so there is no shape
/// to maintain beyond what the array type already fixes.
#[derive(Clone, Copy, Debug)]
pub struct Grid {
    cells: [[Pixel; LED_SIZE]; LED_SIZE],
}

impl View for Grid {
    type V = Map<(int, int), Pixel>;

    /// The buffer as a map from `(x, y)` to the colour stored there, defined
    /// on exactly the coordinates of the panel.
    open spec fn view(&self) -> Map<(int, int), Pixel> {
        Map::new(
            |at: (int, int)| in_bounds(at.0, at.1),
            |at: (int, int)| self.cell(at.0, at.1),
        )
    }
}

impl Grid {
    /// The colour stored for the LED in column `x` of row `y`.
    pub closed spec fn cell(&self, x: int, y: int) -> Pixel {
        self.cells[y][x]
    }

    /// The buffer holds a colour for every LED of the panel and for nothing
    /// else, whatever was done to it.
    pub proof fn lemma_covers_panel(&self)
        ensures
            self@.dom() == blank().dom(),
    {
        assert(self@.dom() =~= blank().dom());
    }

    /// A buffer with every LED switched off.
    pub fn new() -> (grid: Grid)
        ensures
            grid@ == blank(),
    {
        let dark = [Pixel { r: 0, g: 0, b: 0 }; LED_SIZE];
        let grid = Grid { cells: [dark; LED_SIZE] };
        proof {
            assert forall|x: int, y: int| in_bounds(x, y) implies grid.cell(x, y) == Pixel::black() by {
                assert(grid.cells@[y] == dark);
                assert(dark@[x] == Pixel::black());
            }
            assert(grid@ =~= blank());
        }
        grid
    }

    /// Stores `c` as the colour of the LED at `(x_coord, y_coord)` and leaves
    /// every other LED as it was.
    pub fn set_pixel(&mut self, x_coord: usize, y_coord: usize, c: Pixel)
        requires
            x_coord < LED_SIZE,
            y_coord < LED_SIZE,
        ensures
            final(self)@ == old(self)@.insert((x_coord as int, y_coord as int), c),
    {
        self.cells[y_coord][x_coord] = Pixel::new(c.r, c.g, c.b);
        proof {
            let at = (x_coord as int, y_coord as int);
            assert(self.cells@[at.1]@ == old(self).cells@[at.1]@.update(at.0, c));
            assert(self.cell(at.0, at.1) == c);
            assert forall|x: int, y: int| in_bounds(x, y) && (x, y) != at implies self.cell(x, y) == old(
                self,
            ).cell(x, y) by {
                if y != at.1 {
                    assert(self.cells@[y] == old(self).cells@[y]);
                }
            }
            assert(self@ =~= old(self)@.insert(at, c));
        }
    }

    /// The colour stored for the LED at `(x_coord, y_coord)`. This is the
    /// buffered colour, which the panel shows only after the next transfer.
    pub fn get_pixel(&self, x_coord: usize, y_coord: usize) -> (p: Pixel)
        requires
            x_coord < LED_SIZE,
            y_coord < LED_SIZE,
        ensures
            p == self@[(x_coord as int, y_coord as int)],
    {
        self.cells[y_coord][x_coord]
    }

    /// Switches every LED of the buffer off.
    pub fn clear_pixels(&mut self)
        ensures
            final(self)@ == blank(),
    {
        let dark = [Pixel { r: 0, g: 0, b: 0 }; LED_SIZE];
        self.cells = [dark; LED_SIZE];
        proof {
            assert forall|x: int, y: int| in_bounds(x, y) implies self.cell(x, y) == Pixel::black() by {
                assert(self.cells@[y] == dark);
                assert(dark@[x] == Pixel::black());
            }
            assert(self@ =~= blank());
        }
    }
}

/// An LED that was just set holds the colour it was set to, and setting it
/// changed no other LED.
pub proof fn lemma_set_then_get(grid: Map<(int, int), Pixel>, x: int, y: int, c: Pixel, i: int, j: int)
    requires
        in_bounds(x, y),
        in_bounds(i, j),
    ensures
        grid.insert((x, y), c)[(x, y)] == c,
        (i, j) != (x, y) ==> grid.insert((x, y), c)[(i, j)] == grid[(i, j)],
{
}

/// Every LED of a cleared buffer is black.
pub proof fn lemma_blank_is_black(x: int, y: int)
    requires
        in_bounds(x, y),
    ensures
        blank()[(x, y)] == Pixel::black(),
{
}

/// The buffer after the first `n` LEDs, counted along the rows from the
/// top-left corner, have been set to the first `n` colours of `colours`.
pub open spec fn filled(grid: Map<(int, int), Pixel>, colours: Seq<Pixel>, n: nat) -> Map<(int, int), Pixel>
    decreases n,
{
    if n == 0 {
        grid
    } else {
        let i = n - 1;
        filled(grid, colours, i as nat).insert((i % (LED_SIZE as int), i / (LED_SIZE as int)), colours[i])
    }
}

/// The colours of `grid` read row after row from the top, each row from
/// the left.
pub open spec fn scan(grid: Map<(int, int), Pixel>) -> Seq<Pixel> {
    Seq::new((LED_SIZE * LED_SIZE) as nat, |i: int| grid[(i % (LED_SIZE as int), i / (LED_SIZE as int))])
}

/// Once the first `n` LEDs have been set, LED number `i < n` holds colour
/// number `i`: a later LED does not overwrite an earlier one.
proof fn lemma_filled_holds(grid: Map<(int, int), Pixel>, colours: Seq<Pixel>, n: nat, i: int)
    requires
        0 <= i < n <= LED_SIZE * LED_SIZE,
    ensures
        filled(grid, colours, n)[(i % (LED_SIZE as int), i / (LED_SIZE as int))] == colours[i],
    decreases n,
{
    if i < n - 1 {
        lemma_filled_holds(grid, colours, (n - 1) as nat, i);
    }
}

/// Setting every LED to a colour of its own and reading the buffer back
/// along the rows gives the colours that were set, each at its place.
pub proof fn lemma_round_trip(grid: Map<(int, int), Pixel>, colours: Seq<Pixel>)
    requires
        colours.len() == LED_SIZE * LED_SIZE,
    ensures
        scan(filled(grid, colours, colours.len())) == colours,
{
    let after = filled(grid, colours, colours.len());
    assert forall|i: int| 0 <= i < colours.len() implies scan(after)[i] == colours[i] by {
        lemma_filled_holds(grid, colours, colours.len(), i);
    }
    assert(scan(after) =~= colours);
}

} // verus!
