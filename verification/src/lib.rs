//! Overlay widgets for a desktop window: a drawable border decoration
//! attached to an existing window, and a transient toast panel that floats
//! above all windows, shows a formatted message and dismisses itself.
//!
//! The crate holds the state and lifecycle logic of both widgets: geometry,
//! style state, tag-based lookup, and the toast's show/hide/retimer protocol.
//! The platform window system performs the emitted actions and reports the
//! timer and animation events back.

use vstd::prelude::*;

pub mod border;
pub mod geometry;
pub mod markup;
pub mod tag;
pub mod toast;

verus! {

/// Greatest magnitude a logical coordinate may have. Keeping every
/// coordinate within this bound lets all geometry arithmetic stay inside
/// `i64` without overflow.
pub const MAX_COORD: i64 = 0x4000_0000;

} // verus!
