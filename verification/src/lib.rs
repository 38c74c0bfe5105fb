//! A desktop clock with an analog and a digital face. The library holds what
//! the clock computes: the dial's geometry, the tick marks and hands, the
//! texts and where they go, the font sizes, the window-style bits, and what
//! each menu command and click does to the clock's settings.

pub mod format;
pub mod time;
pub mod geometry;
pub mod state;
pub mod analog;
pub mod traits;
pub mod digital;
pub mod window;
pub mod events;
