use xx_session_management::schedule::{on_loop_event, LoopAction, LoopEvent};

#[test]
fn update_schedules_a_save() {
    assert_eq!(
        on_loop_event(LoopEvent::ToplevelUpdated),
        LoopAction::SaveAfter { seconds: 3 }
    );
}

#[test]
fn automatic_update_repeats() {
    assert_eq!(
        on_loop_event(LoopEvent::AutoUpdateDue),
        LoopAction::UpdateAndRepeatAfter { seconds: 10 * 60 }
    );
}
