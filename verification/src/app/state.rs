//! The shared run flag read by every producer loop and the main loop.
//! The flag itself is plain data; callers that share it across tasks wrap it
//! in their own lock and hold that lock only for a single read or write.
use vstd::prelude::*;

verus! {

/// Run flag shared between the main loop and the event producers.
/// It starts out false; the entry point flips it on before the loops start,
/// and only the quit handler flips it off again.
pub struct AppSharedState {
    running: bool,
}

impl AppSharedState {
    pub closed spec fn spec_is_running(&self) -> bool {
        self.running
    }

    pub fn new() -> (r: AppSharedState)
        ensures
            !r.spec_is_running(),
    {
        AppSharedState { running: false }
    }

    pub fn is_running(&self) -> (r: bool)
        ensures
            r == self.spec_is_running(),
    {
        self.running
    }

    pub fn start_running(&mut self)
        ensures
            final(self).spec_is_running(),
    {
        self.running = true;
    }

    pub fn stop_running(&mut self)
        ensures
            !final(self).spec_is_running(),
    {
        self.running = false;
    }
}

} // verus!
