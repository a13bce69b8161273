//! The handle the external driver polls its terminal events through. The
//! polling itself is the driver's business; the kernel only provides the
//! handle so a game and its event source are created side by side.

use vstd::prelude::*;

verus! {

/// A handle for the driver's event polling; it carries no state.
pub struct EventHandler;

impl EventHandler {
    pub fn new() -> (h: EventHandler)
        ensures
            h == EventHandler,
    {
        EventHandler
    }
}

} // verus!
