//! The serial bus as the driver sees it: which peripheral and enable line a
//! panel hangs on, how the bus must be configured, and what can go wrong.

use vstd::prelude::*;

verus! {

/// The serial peripheral a panel is wired to.
#[derive(Clone, Copy, Debug, PartialEq, Eq, Hash, Structural)]
pub enum Bus {
    Spi0,
    Spi1,
    Spi2,
    Spi3,
    Spi4,
    Spi5,
    Spi6,
}

/// The enable line that selects the panel on its bus.
#[derive(Clone, Copy, Debug, PartialEq, Eq, Hash, Structural)]
pub enum SlaveSelect {
    Ss0,
    Ss1,
    Ss2,
    Ss3,
    Ss4,
    Ss5,
    Ss6,
    Ss7,
    Ss8,
    Ss9,
    Ss10,
    Ss11,
    Ss12,
    Ss13,
    Ss14,
    Ss15,
}

/// Clock polarity and phase of a transfer.
#[derive(Clone, Copy, Debug, PartialEq, Eq, Hash, Structural)]
pub enum Mode {
    /// Clock idles low, data is sampled on the leading edge.
    Mode0,
    /// Clock idles low, data is sampled on the trailing edge.
    Mode1,
    /// Clock idles high, data is sampled on the leading edge.
    Mode2,
    /// Clock idles high, data is sampled on the trailing edge.
    Mode3,
}

/// The clock rate the panel is driven at, in hertz.
pub const CLOCK_SPEED: u32 = 9_000_000;

/// Everything needed to open the connection to a panel.
#[derive(Clone, Copy, Debug, PartialEq, Eq, Hash, Structural)]
pub struct BusSettings {
    pub bus: Bus,
    pub slave_select: SlaveSelect,
    pub clock_speed: u32,
    pub mode: Mode,
}

/// The bus could not be opened.
#[derive(Clone, Copy, Debug, PartialEq, Eq, Hash, Structural)]
pub struct ConnectionError {
    /// The peripheral that was asked for.
    pub bus: Bus,
    /// The enable line that was asked for.
    pub slave_select: SlaveSelect,
}

/// One of the two writes that make up a transfer.
#[derive(Clone, Copy, Debug, PartialEq, Eq, Hash, Structural)]
pub enum Stage {
    /// The single command byte.
    Command,
    /// The colours of all LEDs.
    Frame,
}

/// A write to the bus failed and the transfer was given up. The panel may
/// be left showing part of the new buffer.
#[derive(Clone, Copy, Debug, PartialEq, Eq, Hash, Structural)]
pub struct TransmitError {
    /// The write that failed.
    pub stage: Stage,
}

/// The configuration the panel needs on the given peripheral and enable
/// line: 9 MHz, mode 0.
pub open spec fn panel_settings(bus: Bus, slave_select: SlaveSelect) -> BusSettings {
    BusSettings { bus, slave_select, clock_speed: CLOCK_SPEED, mode: Mode::Mode0 }
}

impl BusSettings {
    /// How the bus must be opened for a panel on `bus` and `slave_select`.
    pub fn for_panel(bus: Bus, slave_select: SlaveSelect) -> (settings: BusSettings)
        ensures
            settings == panel_settings(bus, slave_select),
    {
        BusSettings { bus, slave_select, clock_speed: CLOCK_SPEED, mode: Mode::Mode0 }
    }
}

} // verus!
