//! Driver core for the Unicorn HAT HD, a 16×16 RGB LED panel on a serial bus.
//!
//! The crate keeps the desired colour of every LED in a [`grid::Grid`] and
//! turns that buffer into what a backend has to emit: the bytes of a bus
//! transfer for the physical panel ([`hardware`]), or coloured lines of text
//! for a console stand-in ([`emulated`]). Both backends expose a type named
//! `UnicornHatHd` with the same `set_pixel`, `get_pixel` and `clear_pixels`,
//! so code that only draws into the buffer picks a backend by its import.
//! Construction and `display` differ between the two: the physical panel
//! is told whether its bus was opened and hands out one bus write at a
//! time, while the stand-in needs no bus and hands out all its lines at once.
//!
//! Nothing here touches a device or a terminal. The caller performs the bus
//! writes and the printing, and passes on what the bus did.

pub mod bus;
pub mod emulated;
pub mod frame;
pub mod grid;
pub mod hardware;
pub mod pixel;
