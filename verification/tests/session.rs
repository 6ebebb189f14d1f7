use xx_session_management::binary64::Binary64;
use xx_session_management::manager::{
    AddToplevelReply, GetSessionReply, SessionManagerAction, SessionManagerRequest,
    SessionManagerState, SessionReply, SessionRequest, ToplevelWindow, UnmappedWindow,
};
use xx_session_management::session::SessionState;
use xx_session_management::session_id::IdSource;
use xx_session_management::toplevel::{
    ColumnWidth, Geometry, InitialWidth, MappedWindow, SessionId, ToplevelSession,
    ToplevelSessionWorkspace, WindowHeight, WindowWorkspace, WorkspaceId,
};

const TEST_WINDOW_NAME: &str = "test-window-name";

fn number(value: f64) -> Binary64 {
    Binary64 {
        bits: value.to_bits(),
    }
}

fn get_session(
    manager: &mut SessionManagerState,
    session: Option<SessionId>,
) -> (SessionState, SessionId, bool) {
    let request = SessionManagerRequest::GetSession { session };
    let session_id = match manager.manager_request(request, &mut IdSource::new()) {
        SessionManagerAction::CheckInUse { session_id } => session_id,
        action => panic!("{:?}", action),
    };
    match manager.get_session(session_id.clone(), false, "client") {
        GetSessionReply::Created {
            session_id,
            session,
        } => (session, session_id, false),
        GetSessionReply::Restored { session } => (session, session_id, true),
        reply => panic!("{:?}", reply),
    }
}

fn set_up() -> (SessionManagerState, SessionState, SessionId) {
    let mut manager = SessionManagerState::new(None);
    let (session, session_id, restored) = get_session(&mut manager, None);
    assert!(!restored);
    (manager, session, session_id)
}

fn init_window(
    manager: &mut SessionManagerState,
    session: &SessionState,
    restore: bool,
) -> ToplevelSession {
    let toplevel = Some(ToplevelWindow {
        unmapped: Some(UnmappedWindow {
            app_id: None,
            session: None,
        }),
        mapped_as: None,
    });
    let name = TEST_WINDOW_NAME.to_owned();
    let request = if restore {
        SessionRequest::RestoreToplevel { toplevel, name }
    } else {
        SessionRequest::AddToplevel { toplevel, name }
    };
    match manager.session_request(session, request) {
        SessionReply::Toplevel {
            reply: AddToplevelReply::Attached { session, .. },
        } => session,
        reply => panic!("{:?}", reply),
    }
}

fn mapped(session: &ToplevelSession, is_floating: bool) -> MappedWindow {
    MappedWindow {
        session_ref: Some(session.get_ref()),
        is_floating,
        geometry: Geometry {
            x: 0,
            y: 0,
            width: 100,
            height: 100,
        },
    }
}

fn workspace(id: u64, name: Option<&str>, width: ColumnWidth) -> WindowWorkspace {
    WindowWorkspace {
        id: WorkspaceId { value: id },
        name: name.map(|name| name.to_owned()),
        column_index: Some(0),
        height: Some(WindowHeight::Auto { weight: number(1.0) }),
        column_width: Some(width),
        is_full_width: Some(false),
    }
}

#[test]
fn session_remembers_column_width() {
    let (mut manager, session, session_id) = set_up();

    // Create initial window.
    let window = init_window(&mut manager, &session, false);
    assert_eq!(window.initial_width(), None);

    // Resize column, then close window (this should save its state).
    let column = workspace(1, None, ColumnWidth::Fixed(number(500.0)));
    let event = manager.update_toplevel(&mapped(&window, false), Some(&column));
    assert!(event.is_some());

    // Restore session.
    let (session, _, restored) = get_session(&mut manager, Some(session_id));
    assert!(restored);

    // Restore window. This should make it the same width as before.
    let window = init_window(&mut manager, &session, true);
    assert_eq!(
        window.initial_width(),
        Some(InitialWidth::Column(ColumnWidth::Fixed(number(500.0))))
    );
}

#[test]
fn session_remembers_workspace() {
    let (mut manager, session, session_id) = set_up();

    // Set up workspaces.
    let width = ColumnWidth::Proportion(number(0.5));
    let first = workspace(1, Some("first"), width);
    let second = workspace(2, Some("second"), width);
    let third = workspace(3, Some("third"), width);

    // Create initial window.
    let window = init_window(&mut manager, &session, false);
    for workspace in [&first, &second] {
        manager.update_toplevel(&mapped(&window, false), Some(workspace));
    }

    // Move to specific workspace, then close window (this should save its state).
    manager.update_toplevel(&mapped(&window, false), Some(&third));

    // Restore session.
    let (session, _, _) = get_session(&mut manager, Some(session_id));

    // Window should be on the same workspace as before.
    let window = init_window(&mut manager, &session, true);
    assert_eq!(
        window.initial_workspace(),
        Some(&ToplevelSessionWorkspace::Named("third".to_owned()))
    );
}

#[test]
fn session_remembers_floating_state() {
    let (mut manager, session, session_id) = set_up();

    // Create initial window.
    let window = init_window(&mut manager, &session, false);
    let column = workspace(1, None, ColumnWidth::Proportion(number(0.5)));

    // Ensure default window state is not floating.
    manager.update_toplevel(&mapped(&window, false), Some(&column));
    let restored = init_window(&mut manager, &session, true);
    assert_eq!(restored.was_floating(), Some(false));

    // Make window floating, then close window (this should save its state).
    manager.update_toplevel(&mapped(&window, true), Some(&column));
    let restored = init_window(&mut manager, &session, true);
    assert_eq!(restored.was_floating(), Some(true));

    // Restore session.
    let (session, _, _) = get_session(&mut manager, Some(session_id));

    // Window should still be floating.
    let window = init_window(&mut manager, &session, true);
    assert_eq!(window.was_floating(), Some(true));
}

#[test]
fn session_restore_toplevel_sends_restored_event() {
    let (mut manager, session, _) = set_up();

    // Restore window.
    let window = init_window(&mut manager, &session, true);

    // A restored event is owed.
    assert!(window.is_restoring());
}

#[test]
fn session_add_toplevel_does_not_send_restored_event() {
    let (mut manager, session, _) = set_up();

    // Add window.
    let window = init_window(&mut manager, &session, false);

    // No restored event is owed.
    assert!(!window.is_restoring());
}
