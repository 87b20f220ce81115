//! Driver modes.

use vstd::prelude::*;

verus! {

/// Whether a driver blocks or can be awaited.
pub trait Mode {

}

/// A driver with no interrupt handler behind it.
pub struct Blocking;

/// A driver whose interrupt is bound, so its events can be awaited.
pub struct Async;

impl Mode for Blocking {

}

impl Mode for Async {

}

} // verus!
