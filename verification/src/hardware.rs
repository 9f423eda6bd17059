//! The driver for the physical panel.
//!
//! The driver owns the pixel buffer and decides what goes over the bus; the
//! caller owns the bus. To show the buffer, the caller asks [`UnicornHatHd::display`]
//! what to do, does it, and asks again with what the bus answered, until the
//! driver says that the transfer is over.

use vstd::prelude::*;
use crate::bus::{panel_settings, Bus, BusSettings, ConnectionError, SlaveSelect, Stage, TransmitError};
use crate::frame::{encode, wire_frame, COMMAND};
use crate::grid::{blank, Grid, LED_SIZE};
use crate::pixel::Pixel;

verus! {

/// The peripheral that `default` connects to.
pub const DEFAULT_BUS: Bus = Bus::Spi0;

/// The enable line that `default` connects to.
pub const DEFAULT_SLAVE_SELECT: SlaveSelect = SlaveSelect::Ss0;

/// How far a transfer has come when the driver is asked what to do next.
#[derive(Clone, Copy, Debug, PartialEq, Eq, Hash, Structural)]
pub enum Progress {
    /// Nothing has been written yet.
    Start,
    /// The bus has taken the whole write of this stage.
    Written(Stage),
    /// The bus has failed on the write of this stage.
    Failed(Stage),
}

/// What the caller is to do next for a transfer.
#[derive(Debug, PartialEq, Eq)]
pub enum Action {
    /// Write these bytes to the bus in one piece, then report how the
    /// write of this stage went.
    Write(Stage, Vec<u8>),
    /// The transfer is over, with this result.
    Done(Result<(), TransmitError>),
}

/// An [`Action`] with the bytes as a sequence.
pub enum ActionView {
    Write(Stage, Seq<u8>),
    Done(Result<(), TransmitError>),
}

impl View for Action {
    type V = ActionView;

    open spec fn view(&self) -> ActionView {
        match *self {
            Action::Write(stage, bytes) => ActionView::Write(stage, bytes@),
            Action::Done(result) => ActionView::Done(result),
        }
    }
}

/// The transfer protocol: the command byte goes first and alone, the frame
/// follows once the command byte is out, and the first failed write ends
/// the transfer with the stage it failed at.
pub open spec fn next_action(grid: Map<(int, int), Pixel>, progress: Progress) -> ActionView {
    match progress {
        Progress::Start => ActionView::Write(Stage::Command, seq![COMMAND]),
        Progress::Written(Stage::Command) => ActionView::Write(Stage::Frame, wire_frame(grid)),
        Progress::Written(Stage::Frame) => ActionView::Done(Ok(())),
        Progress::Failed(stage) => ActionView::Done(Err(TransmitError { stage })),
    }
}

/// What an attempt to open the bus comes to for the constructors: nothing
/// to report when the bus was opened, and otherwise the error that names
/// the peripheral and enable line asked for.
pub open spec fn connection(bus: Bus, slave_select: SlaveSelect, opened: bool) -> Result<(), ConnectionError> {
    if opened {
        Ok(())
    } else {
        Err(ConnectionError { bus, slave_select })
    }
}

/// Without an open bus there is no driver. Construction with given
/// selectors owes the caller the error for them, which the caller can
/// handle; construction on the default selectors has no error to give and
/// may not be entered, so the caller has to stop.
pub proof fn lemma_no_driver_without_bus(bus: Bus, slave_select: SlaveSelect)
    ensures
        connection(bus, slave_select, false) == Err::<(), ConnectionError>(ConnectionError { bus, slave_select }),
        connection(DEFAULT_BUS, DEFAULT_SLAVE_SELECT, false) is Err,
        forall|opened: bool| connection(bus, slave_select, opened) is Ok <==> opened,
{
}

/// Provide high-level access to the Unicorn HAT HD.
#[derive(Debug)]
pub struct UnicornHatHd {
    leds: Grid,
    bus: Bus,
    slave_select: SlaveSelect,
}

impl View for UnicornHatHd {
    type V = Map<(int, int), Pixel>;

    /// The display buffer, as a map from `(x, y)` to colour.
    closed spec fn view(&self) -> Map<(int, int), Pixel> {
        self.leds@
    }
}

impl UnicornHatHd {
    /// The peripheral this driver's panel is wired to.
    pub closed spec fn bus(&self) -> Bus {
        self.bus
    }

    /// The enable line of this driver's panel.
    pub closed spec fn slave_select(&self) -> SlaveSelect {
        self.slave_select
    }

    /// The buffer holds a colour for every LED of the panel and for nothing
    /// else, whatever was done to it.
    pub proof fn lemma_covers_panel(&self)
        ensures
            self@.dom() == blank().dom(),
    {
        assert(self@.dom() =~= blank().dom());
    }

    /// The settings of the connection this driver's panel is on.
    pub fn settings(&self) -> (settings: BusSettings)
        ensures
            settings == panel_settings(self.bus(), self.slave_select()),
    {
        BusSettings::for_panel(self.bus, self.slave_select)
    }

    /// Create a new `UnicornHatHd` with the provided Bus and SlaveSelect.
    ///
    /// `opened` says whether the caller could open the bus with
    /// [`BusSettings::for_panel`]. If it could not, there is no driver.
    pub fn new(bus: Bus, slave_select: SlaveSelect, opened: bool) -> (made: Result<UnicornHatHd, ConnectionError>)
        ensures
            made is Ok <==> connection(bus, slave_select, opened) is Ok,
            made matches Ok(hat) ==> hat@ == blank() && hat.bus() == bus && hat.slave_select() == slave_select,
            made matches Err(refused) ==> connection(bus, slave_select, opened) == Err::<(), ConnectionError>(
                refused,
            ),
    {
        if opened {
            Ok(UnicornHatHd { leds: Grid::new(), bus, slave_select })
        } else {
            Err(ConnectionError { bus, slave_select })
        }
    }

    /// Create a `UnicornHatHd` using the default `Bus::Spi0` and
    /// `SlaveSelect::Ss0`.
    ///
    /// This path has no error to return: a caller that could not open the
    /// bus must stop instead of calling it.
    pub fn default(opened: bool) -> (hat: UnicornHatHd)
        requires
            connection(DEFAULT_BUS, DEFAULT_SLAVE_SELECT, opened) is Ok,
        ensures
            hat@ == blank(),
            hat.bus() == DEFAULT_BUS,
            hat.slave_select() == DEFAULT_SLAVE_SELECT,
    {
        UnicornHatHd { leds: Grid::new(), bus: DEFAULT_BUS, slave_select: DEFAULT_SLAVE_SELECT }
    }

    /// Write the display buffer to the Unicorn HAT HD, one bus write at a
    /// time: says what to do next once the transfer has come as far as
    /// `progress`. The buffer is not changed.
    pub fn display(&self, progress: Progress) -> (action: Action)
        ensures
            action@ == next_action(self@, progress),
    {
        match progress {
            Progress::Start => {
                let mut command: Vec<u8> = Vec::with_capacity(1);
                command.push(COMMAND);
                assert(command@ =~= seq![COMMAND]);
                Action::Write(Stage::Command, command)
            },
            Progress::Written(Stage::Command) => Action::Write(Stage::Frame, encode(&self.leds)),
            Progress::Written(Stage::Frame) => Action::Done(Ok(())),
            Progress::Failed(stage) => Action::Done(Err(TransmitError { stage })),
        }
    }

    /// Set an individual pixel's RGB value.
    ///
    /// The origin (`(0, 0)`) is the top-left of the display, with `x` & `y`
    /// increasing to the right, and down, respectively.
    pub fn set_pixel(&mut self, x_coord: usize, y_coord: usize, c: Pixel)
        requires
            x_coord < LED_SIZE,
            y_coord < LED_SIZE,
        ensures
            final(self)@ == old(self)@.insert((x_coord as int, y_coord as int), c),
            final(self).bus() == old(self).bus(),
            final(self).slave_select() == old(self).slave_select(),
    {
        self.leds.set_pixel(x_coord, y_coord, c);
    }

    /// Return an individual pixel's RGB value.
    ///
    /// The origin (`(0, 0)`) is the top-left of the display, with `x` & `y`
    /// increasing to the right, and down, respectively.
    ///
    /// *NOTE*: This returns what's in the display buffer, not what the
    /// physical pixel is set to.
    pub fn get_pixel(&self, x_coord: usize, y_coord: usize) -> (p: Pixel)
        requires
            x_coord < LED_SIZE,
            y_coord < LED_SIZE,
        ensures
            p == self@[(x_coord as int, y_coord as int)],
    {
        self.leds.get_pixel(x_coord, y_coord)
    }

    /// Clear the internal buffer of pixel states.
    ///
    /// To clear the display itself, you'll still need to call
    /// [`display`](#method.display) to update the Unicorn HAT HD.
    pub fn clear_pixels(&mut self)
        ensures
            final(self)@ == blank(),
            final(self).bus() == old(self).bus(),
            final(self).slave_select() == old(self).slave_select(),
    {
        self.leds.clear_pixels();
    }
}

} // verus!
