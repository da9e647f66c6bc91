//! The state that the host application's event loop keeps about its own
//! activity.
use vstd::prelude::*;

verus! {

/// An activity event delivered by the platform.
#[derive(Clone, Copy, Debug, PartialEq, Eq, Structural)]
pub enum ActivityEvent {
    Pause,
    Resume,
    Destroy,
    /// Any event that the loop does not act on.
    Other,
}

#[derive(Clone, Copy, Debug, PartialEq, Eq, Structural)]
pub struct AppData {
    pub destroy_requested: bool,
    pub resumed: bool,
}

impl AppData {
    /// Records a pause, a resume or a destroy request; other events change
    /// nothing.
    pub fn handle_lifecycle_event(&mut self, event: ActivityEvent)
        ensures
            final(self).resumed == match event {
                ActivityEvent::Pause => false,
                ActivityEvent::Resume => true,
                _ => old(self).resumed,
            },
            final(self).destroy_requested == (old(self).destroy_requested || event
                == ActivityEvent::Destroy),
    {
        match event {
            ActivityEvent::Pause => self.resumed = false,
            ActivityEvent::Resume => self.resumed = true,
            ActivityEvent::Destroy => self.destroy_requested = true,
            ActivityEvent::Other => {},
        }
    }

    /// Whether the event loop may wait for the next event: only while paused,
    /// not being destroyed, and with no session running.
    pub fn should_block(&self, session_running: bool) -> (r: bool)
        ensures
            r == (!self.destroy_requested && !self.resumed && !session_running),
    {
        !self.destroy_requested && !self.resumed && !session_running
    }
}

} // verus!
