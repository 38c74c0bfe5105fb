//! The faces' common interfaces.

use vstd::prelude::*;
use crate::geometry::ClientSize;
use crate::state::ClockState;

verus! {

/// Something that paints itself.
pub trait Drawable {
    fn draw(&self);
}

/// A clock face made for a panel of a given size.
pub trait Clock: Sized {
    /// A face for a panel of `size`, with the clock's settings and the size of
    /// its date font (which the caller rounds in floating point).
    fn new(size: ClientSize, state: ClockState, date_font_pt: i32) -> Self;
}

} // verus!
