//! Bus and command layer for small LCD/OLED display controllers.
//!
//! The crate sits between a pixel-data producer and a physical link: it turns
//! geometric draw and fill requests into bounded sequences of wire
//! transactions, translates abstract commands into transport-specific framing,
//! and keeps the write-only addressing/orientation register mirrored in driver
//! state.

use vstd::prelude::*;

pub mod area;
pub mod dcs;
pub mod panel;
pub mod bus;
pub mod color;
pub mod panels;

verus! {

/// A unified error type identifying what went wrong during a display operation.
#[derive(Debug, Clone, Copy, PartialEq, Eq)]
pub enum DisplayError<E> {
    /// Error propagated from the underlying bus.
    BusError(E),
    /// The requested operation is not supported by the display or driver.
    Unsupported,
    /// Parameter is out of valid range.
    OutOfRange,
    /// Invalid arguments.
    InvalidArgs,
    /// The area is unaligned.
    UnalignedArea,
}

} // verus!
