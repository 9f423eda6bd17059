//! A stand-in for the panel that draws the buffer as coloured text.
//!
//! It holds no connection. [`UnicornHatHd::display`] returns the lines to
//! print: one line for each row of LEDs from the top, with one glyph for
//! each LED from the left, in the LED's colour.

use vstd::prelude::*;
use crate::bus::{Bus, ConnectionError, SlaveSelect, TransmitError};
use crate::grid::{blank, in_bounds, Grid, LED_SIZE};
use crate::pixel::Pixel;

verus! {

/// A heading that a console may print above a rendering. It is no part of
/// the rendering itself.
pub const TITLE: &'static str = "Unicorn HAT HD:";

/// The character that stands for one LED.
pub const GLYPH: &'static str = "*";

/// The text that `ansi_term` writes for a run of glyphs, one for each
/// colour in `colours`, each painted with its colour as the foreground:
/// the glyphs with the escape sequences that switch to each colour where
/// it changes, and the closing reset.
pub uninterp spec fn painted(colours: Seq<Pixel>, glyph: Seq<char>) -> Seq<char>;

/// Paints `glyph` once for each colour with `ansi_term::Colour::RGB(..).paint`
/// and formats the run with `ansi_term::ANSIStrings`.
///
/// Not proved: the text is what the name [`painted`] stands for. It depends
/// on the colours and the glyph alone, as the formatter reads nothing else
/// and writes into a `String`, which cannot fail.
#[verifier::external_body]
fn paint(colours: &Vec<Pixel>, glyph: &str) -> (line: String)
    ensures
        line@ == painted(colours@, glyph@),
{
    let run: Vec<ansi_term::ANSIString<'_>> =
        colours.iter().map(|c| ansi_term::Colour::RGB(c.r, c.g, c.b).paint(glyph)).collect();
    ansi_term::ANSIStrings(&run).to_string()
}

/// The colours of row `y` of `grid`, from the left.
pub open spec fn row(grid: Map<(int, int), Pixel>, y: int) -> Seq<Pixel> {
    Seq::new(LED_SIZE as nat, |x: int| grid[(x, y)])
}

/// The lines that show `grid`: one for each row from the top, line `y`
/// being row `y` as painted glyphs.
pub open spec fn rendering(grid: Map<(int, int), Pixel>) -> Seq<Seq<char>> {
    Seq::new(LED_SIZE as nat, |y: int| painted(row(grid, y), GLYPH@))
}

/// The rendering depends on nothing but the colours of the LEDs: buffers
/// that agree on every LED are drawn alike, so drawing an unchanged buffer
/// again gives the same lines.
pub proof fn lemma_rendering_repeats(first: Map<(int, int), Pixel>, second: Map<(int, int), Pixel>)
    requires
        forall|x: int, y: int| in_bounds(x, y) ==> first[(x, y)] == second[(x, y)],
    ensures
        rendering(first) == rendering(second),
{
    assert forall|y: int| 0 <= y < LED_SIZE implies row(first, y) == row(second, y) by {
        assert forall|x: int| 0 <= x < LED_SIZE implies row(first, y)[x] == row(second, y)[x] by {
            assert(in_bounds(x, y));
        }
        assert(row(first, y) =~= row(second, y));
    }
    assert(rendering(first) =~= rendering(second));
}

/// Provide high-level access to an emulated Unicorn HAT HD.
#[derive(Debug)]
pub struct UnicornHatHd {
    leds: Grid,
}

impl View for UnicornHatHd {
    type V = Map<(int, int), Pixel>;

    /// The display buffer, as a map from `(x, y)` to colour.
    closed spec fn view(&self) -> Map<(int, int), Pixel> {
        self.leds@
    }
}

impl UnicornHatHd {
    /// The buffer holds a colour for every LED of the panel and for nothing
    /// else, whatever was done to it.
    pub proof fn lemma_covers_panel(&self)
        ensures
            self@.dom() == blank().dom(),
    {
        assert(self@.dom() =~= blank().dom());
    }

    /// Create a fake `UnicornHatHd`.
    ///
    /// `_bus` and `_slave_select` are completely unused by the fake
    /// `UnicornHatHd`, and there is nothing that can fail.
    pub fn new(_bus: Bus, _slave_select: SlaveSelect) -> (made: Result<UnicornHatHd, ConnectionError>)
        ensures
            made is Ok,
            made->Ok_0@ == blank(),
    {
        Ok(UnicornHatHd { leds: Grid::new() })
    }

    /// Create a fake `UnicornHatHd` as [`UnicornHatHd::new`] does. With no bus
    /// to open there is always a driver.
    pub fn default() -> (hat: UnicornHatHd)
        ensures
            hat@ == blank(),
    {
        UnicornHatHd { leds: Grid::new() }
    }

    /// Draw the display buffer: returns the lines to print, top to bottom.
    /// The buffer is not changed, and drawing never fails.
    pub fn display(&self) -> (shown: Result<Vec<String>, TransmitError>)
        ensures
            shown is Ok,
            shown->Ok_0.deep_view() == rendering(self@),
    {
        let mut lines: Vec<String> = Vec::with_capacity(LED_SIZE);
        let mut y: usize = 0;
        while y < LED_SIZE
            invariant
                y <= LED_SIZE,
                lines.deep_view() == rendering(self@).take(y as int),
            decreases LED_SIZE - y,
        {
            let mut line: Vec<Pixel> = Vec::with_capacity(LED_SIZE);
            let mut x: usize = 0;
            while x < LED_SIZE
                invariant
                    y < LED_SIZE,
                    x <= LED_SIZE,
                    line@ == row(self@, y as int).take(x as int),
                decreases LED_SIZE - x,
            {
                let pixel = self.get_pixel(x, y);
                line.push(pixel);
                x += 1;
            }
            assert(line@ =~= row(self@, y as int));
            let ghost before = lines.deep_view();
            lines.push(paint(&line, GLYPH));
            assert(lines.deep_view() =~= before.push(painted(row(self@, y as int), GLYPH@)));
            y += 1;
        }
        assert(lines.deep_view() =~= rendering(self@));
        Ok(lines)
    }

    /// Set an individual pixel's RGB value.
    ///
    /// The origin (`(0, 0)`) is the top-left of the display, with `x` & `y`
    /// increasing to the right, and down, respectively.
    pub fn set_pixel(&mut self, x_coord: usize, y_coord: usize, c: Pixel)
        requires
            x_coord < LED_SIZE,
            y_coord < LED_SIZE,
        ensures
            final(self)@ == old(self)@.insert((x_coord as int, y_coord as int), c),
    {
        self.leds.set_pixel(x_coord, y_coord, c);
    }

    /// Return an individual pixel's RGB value.
    ///
    /// The origin (`(0, 0)`) is the top-left of the display, with `x` & `y`
    /// increasing to the right, and down, respectively.
    pub fn get_pixel(&self, x_coord: usize, y_coord: usize) -> (p: Pixel)
        requires
            x_coord < LED_SIZE,
            y_coord < LED_SIZE,
        ensures
            p == self@[(x_coord as int, y_coord as int)],
    {
        self.leds.get_pixel(x_coord, y_coord)
    }

    /// Clear the internal buffer of pixel states.
    ///
    /// To clear what is shown, you'll still need to call
    /// [`display`](#method.display) and print the lines again.
    pub fn clear_pixels(&mut self)
        ensures
            final(self)@ == blank(),
    {
        self.leds.clear_pixels();
    }
}

} // verus!
