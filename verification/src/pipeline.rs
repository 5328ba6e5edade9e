//! Shared per-run parameters and the one capability every stage offers.

use vstd::prelude::*;

verus! {

/// Immutable per-run parameters: surface dimensions in pixels and the
/// process boot instant, in milliseconds since the Unix epoch. Created
/// once at startup and shared read-only by every stage.
#[derive(Clone, Copy, PartialEq, Eq, Structural, Debug)]
pub struct AppContext {
    pub width: u32,
    pub height: u32,
    pub boot_time: u64,
}

impl AppContext {
    /// A usable context has a non-degenerate surface.
    pub open spec fn wf(&self) -> bool {
        &&& self.width > 0
        &&& self.height > 0
    }
}

/// The single capability all stages share: advance by one frame, given
/// the host clock's current sample in milliseconds since the Unix epoch.
///
/// `ready` says on which states and clock samples a step is allowed;
/// `stepped` relates the state before a step to the state after it.
pub trait Stage: Sized {
    spec fn ready(&self, now_ms: u64) -> bool;

    spec fn stepped(pre: Self, post: Self, now_ms: u64) -> bool;

    fn render(&mut self, now_ms: u64)
        requires
            old(self).ready(now_ms),
        ensures
            Self::stepped(*old(self), *final(self), now_ms),
    ;
}

} // verus!
