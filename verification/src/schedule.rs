use vstd::prelude::*;

verus! {

/// How long after the last toplevel update that the sessions should be saved, in seconds.
pub const SESSION_SAVE_DELAY: u64 = 3;

/// How often to automatically update the state of session-tracked toplevels, in seconds.
pub const AUTO_UPDATE_INTERVAL: u64 = 600;

/// What wakes the session manager up.
#[derive(Clone, Copy, Debug, PartialEq, Eq, Structural)]
pub enum LoopEvent {
    /// A toplevel's session state was updated.
    ToplevelUpdated,
    /// The timer for automatic updates has run out.
    AutoUpdateDue,
}

/// What it does then.
#[derive(Clone, Copy, Debug, PartialEq, Eq, Structural)]
pub enum LoopAction {
    /// Save the sessions once this many seconds have passed.
    SaveAfter { seconds: u64 },
    /// Update the state of all session-tracked toplevels, and set the timer to this many seconds.
    UpdateAndRepeatAfter { seconds: u64 },
}

/// What the session manager does about an event.
pub fn on_loop_event(event: LoopEvent) -> (action: LoopAction)
    ensures
        action == match event {
            LoopEvent::ToplevelUpdated => LoopAction::SaveAfter { seconds: SESSION_SAVE_DELAY },
            LoopEvent::AutoUpdateDue => LoopAction::UpdateAndRepeatAfter {
                seconds: AUTO_UPDATE_INTERVAL,
            },
        },
        event is ToplevelUpdated ==> action == (LoopAction::SaveAfter { seconds: 3 }),
        event is AutoUpdateDue ==> action == (LoopAction::UpdateAndRepeatAfter { seconds: 600 }),
{
    match event {
        LoopEvent::ToplevelUpdated => LoopAction::SaveAfter { seconds: SESSION_SAVE_DELAY },
        LoopEvent::AutoUpdateDue => LoopAction::UpdateAndRepeatAfter {
            seconds: AUTO_UPDATE_INTERVAL,
        },
    }
}

} // verus!
