//! Pad configuration layer of a microcontroller hardware-abstraction library.
//!
//! A pad handle binds a pin index to an electrical mode in its type; every
//! mode transition consumes the handle, rewrites the pin's fields in the
//! shared register block and hands back a handle of the new mode.

pub mod bits;
pub mod packed;
pub mod glb;
pub mod gpio;
pub mod soc;
pub mod write_order;
