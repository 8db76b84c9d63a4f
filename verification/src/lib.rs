//! A segmented color wheel, spun by a periodic timer.
//!
//! The library holds the verified core: the sector geometry and command plan
//! that a draw produces, and the spin controller that owns the repeating
//! timer and advances the animation tick by tick.  The surrounding
//! application performs the platform calls (canvas, DOM, timers) and hands
//! the results of this library's functions to them.

pub mod angle;
pub mod render;
pub mod spin;
pub mod wheel;
