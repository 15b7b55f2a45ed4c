//! The display loop's consumption contract. On each redraw tick the loop
//! drains at most one sample from the bounded queue, non-blockingly: a
//! drained sample becomes the latest observed one (intermediate samples are
//! caught up on over later ticks, in FIFO order, never skipped within a
//! drain); an empty queue leaves the previously rendered sample in place; a
//! closed queue, like the quit key, raises the shutdown flag. Rendering
//! itself, and entering and leaving the terminal's alternate screen, are the
//! driver's concern.

use vstd::prelude::*;

use crate::queue::PopOutcome;
use crate::sample::GpuStats;

verus! {

/// What the display loop knows between redraws: whether shutdown has been
/// signalled, and the freshest sample observed so far.
pub struct DisplayState {
    pub should_quit: bool,
    pub latest: Option<GpuStats>,
}

/// The latest observed sample after one drain attempt: a drained sample
/// replaces the previous one; otherwise the previous one is retained.
pub open spec fn latest_after(prev: Option<GpuStats>, polled: PopOutcome) -> Option<GpuStats> {
    match polled {
        PopOutcome::Item(s) => Some(s),
        _ => prev,
    }
}

impl DisplayState {
    /// Before the first tick: not quitting, nothing observed yet.
    pub fn new() -> (r: Self)
        ensures
            !r.should_quit,
            r.latest is None,
    {
        DisplayState { should_quit: false, latest: None }
    }

    /// Absorb one redraw tick: what the queue drain found, and whether the
    /// quit key was pressed. Shutdown, once signalled, is never revoked; it
    /// is raised exactly by the quit key and by the queue reporting that the
    /// producer side is gone.
    pub fn on_tick(&mut self, polled: PopOutcome, quit_pressed: bool)
        ensures
            final(self).latest == latest_after(old(self).latest, polled),
            final(self).should_quit == (old(self).should_quit || quit_pressed
                || polled is Closed),
    {
        if quit_pressed {
            self.should_quit = true;
        }
        match polled {
            PopOutcome::Item(s) => {
                self.latest = Some(s);
            },
            PopOutcome::Empty => {},
            PopOutcome::Closed => {
                self.should_quit = true;
            },
        }
    }
}

} // verus!
