use vstd::prelude::*;

verus! {

/// Whether the watched root is being observed.
#[derive(Clone, Copy, Debug, PartialEq, Eq, Structural)]
pub enum WatchState {
    /// No watch was ever started.
    Idle,
    /// Changes under the root are delivered.
    Watching,
    /// The watch is paused; changes made meanwhile are lost.
    Suspended,
}

/// The state after a request to suspend.
pub open spec fn suspended(s: WatchState) -> WatchState {
    if s == WatchState::Watching {
        WatchState::Suspended
    } else {
        s
    }
}

/// The state after a request to resume.
pub open spec fn resumed(s: WatchState) -> WatchState {
    if s == WatchState::Suspended {
        WatchState::Watching
    } else {
        s
    }
}

/// The liveness of the watch on one root. It decides when the operating
/// system's subscription has to be dropped or made again; whoever holds the
/// subscription does that when told to.
pub struct WatchController {
    pub state: WatchState,
}

impl WatchController {
    /// A controller for a watch not yet started.
    pub fn new() -> (r: WatchController)
        ensures
            r.state == WatchState::Idle,
    {
        WatchController { state: WatchState::Idle }
    }

    /// Notes that the subscription on the root was made.
    pub fn started(&mut self)
        ensures
            final(self).state == WatchState::Watching,
    {
        self.state = WatchState::Watching;
    }

    /// Pauses the watch. Returns whether the subscription must be dropped now:
    /// only when it was live. Asking again, or before any start, changes nothing.
    pub fn suspend(&mut self) -> (unwatch: bool)
        ensures
            final(self).state == suspended(old(self).state),
            unwatch == (old(self).state == WatchState::Watching),
    {
        if self.state == WatchState::Watching {
            self.state = WatchState::Suspended;
            true
        } else {
            false
        }
    }

    /// Resumes the watch. Returns whether the subscription must be made again:
    /// only when it was paused. Asking again, or before any start, changes nothing.
    pub fn resume(&mut self) -> (rewatch: bool)
        ensures
            final(self).state == resumed(old(self).state),
            rewatch == (old(self).state == WatchState::Suspended),
    {
        if self.state == WatchState::Suspended {
            self.state = WatchState::Watching;
            true
        } else {
            false
        }
    }
}

/// Suspending twice is suspending once: the second request finds nothing to do
/// and leaves the state as the first left it. Likewise for resuming.
pub proof fn lemma_suspend_resume_idempotent(s: WatchState)
    ensures
        suspended(suspended(s)) == suspended(s),
        suspended(s) != WatchState::Watching,
        resumed(resumed(s)) == resumed(s),
        resumed(s) != WatchState::Suspended,
{
}

} // verus!
