use xx_session_management::id_map::IdMap;
use xx_session_management::manager::{
    AddToplevelReply, GetSessionReply, SessionManagerAction, SessionManagerRequest,
    SessionManagerState, SessionReply, SessionRequest, ToplevelSessionRequest, ToplevelWindow,
    UnmappedWindow,
};
use xx_session_management::session::SessionState;
use xx_session_management::session_id::{random_session_id, IdSource};
use xx_session_management::toplevel::{
    Geometry, MappedWindow, ToplevelSession, ToplevelSessionRef, ToplevelSessionState,
    ToplevelSessionWorkspace, WindowWorkspace, WorkspaceId,
};

fn id(text: &str) -> String {
    text.to_owned()
}

fn unmapped(app_id: Option<&str>, session: Option<ToplevelSession>) -> Option<ToplevelWindow> {
    Some(ToplevelWindow {
        unmapped: Some(UnmappedWindow {
            app_id: app_id.map(|app_id| app_id.to_owned()),
            session,
        }),
        mapped_as: None,
    })
}

fn open(manager: &mut SessionManagerState, session_id: &str) -> SessionState {
    match manager.get_session(id(session_id), false, "client") {
        GetSessionReply::Created { session, .. } => session,
        GetSessionReply::Restored { session } => session,
        reply => panic!("{:?}", reply),
    }
}

fn attach(
    manager: &mut SessionManagerState,
    is_restoring: bool,
    session: &SessionState,
    app_id: Option<&str>,
    name: &str,
) -> ToplevelSession {
    match manager.add_toplevel(is_restoring, session, unmapped(app_id, None), id(name)) {
        AddToplevelReply::Attached { session, .. } => session,
        reply => panic!("{:?}", reply),
    }
}

/// Moves the window of a toplevel session to a named workspace.
fn move_to(manager: &mut SessionManagerState, session: &ToplevelSession, name: &str) -> bool {
    let mapped = MappedWindow {
        session_ref: Some(session.get_ref()),
        is_floating: true,
        geometry: Geometry {
            x: 1,
            y: 2,
            width: 3,
            height: 4,
        },
    };
    let workspace = WindowWorkspace {
        id: WorkspaceId { value: 1 },
        name: Some(id(name)),
        column_index: None,
        height: None,
        column_width: None,
        is_full_width: None,
    };
    match manager.update_toplevel(&mapped, Some(&workspace)) {
        Some(event) => {
            assert_eq!(event.session_ref, session.get_ref());
            true
        }
        None => false,
    }
}

fn named(name: &str) -> ToplevelSessionWorkspace {
    ToplevelSessionWorkspace::Named(id(name))
}

#[test]
fn generated_ids_are_alphanumeric() {
    for _ in 0..100 {
        let generated = random_session_id();
        assert_eq!(generated.chars().count(), 32);
        assert!(generated.chars().all(|c| c.is_ascii_alphanumeric()));
    }
    assert_ne!(random_session_id(), random_session_id());
}

#[test]
fn generated_ids_are_unused() {
    let mut manager = SessionManagerState::new(None);
    let mut source = IdSource::new();
    for _ in 0..20 {
        let generated = manager.generate_unique_session_id(&mut source).unwrap();
        assert_eq!(generated.chars().count(), 32);
        assert!(generated.chars().all(|c| c.is_ascii_alphanumeric()));
        assert!(!manager.session_exists(&generated));
        open(&mut manager, &generated);
        assert!(manager.session_exists(&generated));
    }
}

#[test]
fn used_ids_are_not_handed_out() {
    let mut manager = SessionManagerState::new(None);
    open(&mut manager, "a");
    assert_eq!(manager.unused_session_id(id("a")), None);
    assert_eq!(manager.unused_session_id(id("b")), Some(id("b")));
    assert_eq!(manager.known_session_id(Some(id("a"))), Some(id("a")));
    assert_eq!(manager.known_session_id(Some(id("b"))), None);
    assert_eq!(manager.known_session_id(None), None);
}

#[test]
fn first_unused_id_is_taken() {
    let mut manager = SessionManagerState::new(None);
    open(&mut manager, "a");
    open(&mut manager, "b");
    let first = |ids: &[&str]| {
        manager.first_unused_session_id(ids.iter().map(|text| id(text)).collect())
    };
    assert_eq!(first(&[]), None);
    assert_eq!(first(&["a", "b", "a"]), None);
    assert_eq!(first(&["c", "d"]), Some(id("c")));
    assert_eq!(first(&["a", "b", "d", "c"]), Some(id("d")));
    assert_eq!(first(&["b", "c", "a"]), Some(id("c")));
    assert!(!manager.session_exists(&id("c")));
}

#[test]
fn drawn_ids_have_generated_form() {
    let mut source = IdSource::new();
    let first = source.draw();
    let second = source.draw();
    for drawn in [&first, &second] {
        assert_eq!(drawn.chars().count(), 32);
        assert!(drawn.chars().all(|c| c.is_ascii_alphanumeric()));
    }
    assert_ne!(first, second);
}

#[test]
fn removed_session_starts_over() {
    let mut manager = SessionManagerState::new(None);
    let session = open(&mut manager, "s");
    attach(&mut manager, false, &session, Some("app"), "a");
    manager.session_request(&session, SessionRequest::Remove);
    let request = SessionManagerRequest::GetSession {
        session: Some(id("s")),
    };
    let chosen = match manager.manager_request(request, &mut IdSource::new()) {
        SessionManagerAction::CheckInUse { session_id } => session_id,
        action => panic!("{:?}", action),
    };
    assert_ne!(chosen, "s");
    assert_eq!(chosen.chars().count(), 32);
    match manager.get_session(chosen.clone(), false, "client") {
        GetSessionReply::Created {
            session_id,
            session,
        } => {
            assert_eq!(session_id, chosen);
            assert_eq!(session.session_id, chosen);
            assert_eq!(session.sessions.len(), 0);
        }
        reply => panic!("{:?}", reply),
    }
    assert!(!manager.session_exists(&id("s")));
}

#[test]
fn session_exists_until_removed() {
    let mut manager = SessionManagerState::new(None);
    let session = open(&mut manager, "s");
    let other = open(&mut manager, "other");
    let added = attach(&mut manager, false, &session, None, "a");
    move_to(&mut manager, &added, "mail");
    manager.toplevel_request(&added.state, ToplevelSessionRequest::Remove);
    manager.session_request(&session, SessionRequest::Destroy);
    manager.session_request(&other, SessionRequest::Remove);
    assert!(manager.session_exists(&id("s")));
    assert_eq!(open(&mut manager, "s").session_id, "s");
    manager.session_request(&session, SessionRequest::Remove);
    assert!(!manager.session_exists(&id("s")));
}

#[test]
fn manager_request_chooses_an_id() {
    let mut manager = SessionManagerState::new(None);
    open(&mut manager, "a");
    let ask = |session: Option<&str>| {
        let request = SessionManagerRequest::GetSession {
            session: session.map(id),
        };
        match manager.manager_request(request, &mut IdSource::new()) {
            SessionManagerAction::CheckInUse { session_id } => session_id,
            action => panic!("{:?}", action),
        }
    };
    assert_eq!(ask(Some("a")), "a");
    // Unknown session IDs are treated as none.
    for session in [Some("b"), None] {
        let session_id = ask(session);
        assert_eq!(session_id.len(), 32);
        assert!(!manager.session_exists(&session_id));
    }
    assert!(matches!(
        manager.manager_request(SessionManagerRequest::Destroy, &mut IdSource::new()),
        SessionManagerAction::Nothing
    ));
}

#[test]
fn session_in_use_is_refused() {
    let mut manager = SessionManagerState::new(None);
    match manager.get_session(id("abc"), true, "ClientId(7)") {
        GetSessionReply::InUse { message } => {
            let expected = format!("session `{}` already in use by client {}", "abc", "ClientId(7)");
            assert_eq!(message, expected);
        }
        reply => panic!("{:?}", reply),
    }
    assert!(!manager.session_exists(&id("abc")));
}

#[test]
fn session_is_created_then_restored() {
    let mut manager = SessionManagerState::new(None);
    match manager.get_session(id("abc"), false, "client") {
        GetSessionReply::Created {
            session_id,
            session,
        } => {
            assert_eq!(session_id, "abc");
            assert_eq!(session.session_id, "abc");
            assert_eq!(session.sessions.len(), 0);
        }
        reply => panic!("{:?}", reply),
    }
    assert!(manager.session_exists(&id("abc")));
    let session = open(&mut manager, "abc");
    attach(&mut manager, false, &session, None, "win");
    match manager.get_session(id("abc"), false, "client") {
        GetSessionReply::Restored { session } => {
            assert_eq!(session.session_id, "abc");
            assert!(session.sessions.contains_key(&id("win")));
        }
        reply => panic!("{:?}", reply),
    }
    assert_eq!(manager.sessions().len(), 1);
}

#[test]
fn invalid_toplevel_is_ignored() {
    let mut manager = SessionManagerState::new(None);
    let session = open(&mut manager, "s");
    let reply = manager.add_toplevel(false, &session, None, id("win"));
    assert!(matches!(reply, AddToplevelReply::InvalidToplevel));
    let window = Some(ToplevelWindow {
        unmapped: None,
        mapped_as: Some(id("xdg_toplevel@7")),
    });
    let reply = manager.add_toplevel(false, &session, window, id("win"));
    assert!(matches!(reply, AddToplevelReply::NotUnmapped));
    assert_eq!(open(&mut manager, "s").sessions.len(), 0);
}

#[test]
fn name_in_use_is_refused() {
    let mut manager = SessionManagerState::new(None);
    let session = open(&mut manager, "s");
    let added = attach(&mut manager, false, &session, Some("app"), "win");
    let window = unmapped(Some("app"), Some(added));
    match manager.add_toplevel(false, &session, window, id("win")) {
        AddToplevelReply::NameInUse { message } => assert_eq!(
            message,
            "cannot add: toplevel `win` is already present in session"
        ),
        reply => panic!("{:?}", reply),
    }
    let added = attach(&mut manager, false, &session, Some("app"), "win");
    let window = unmapped(Some("app"), Some(added));
    match manager.add_toplevel(true, &session, window, id("win")) {
        AddToplevelReply::NameInUse { message } => assert_eq!(
            message,
            "cannot restore: toplevel `win` is already present in session"
        ),
        reply => panic!("{:?}", reply),
    }
    // Another name, or another application, is fine.
    let added = attach(&mut manager, false, &session, Some("app"), "win");
    let window = unmapped(Some("app"), Some(added));
    let reply = manager.add_toplevel(false, &session, window, id("other"));
    assert!(matches!(reply, AddToplevelReply::Attached { .. }));
    let added = attach(&mut manager, false, &session, Some("app"), "win");
    let window = unmapped(None, Some(added));
    let reply = manager.add_toplevel(false, &session, window, id("win"));
    assert!(matches!(reply, AddToplevelReply::Attached { .. }));
}

#[test]
fn mapped_toplevel_is_refused() {
    let mut manager = SessionManagerState::new(None);
    let session = open(&mut manager, "s");
    for (is_restoring, expected) in [
        (
            false,
            "cannot add: toplevel xdg_toplevel@7 was already mapped when restored",
        ),
        (
            true,
            "cannot restore: toplevel xdg_toplevel@7 was already mapped when restored",
        ),
    ] {
        let mut window = unmapped(None, None);
        if let Some(window) = &mut window {
            window.mapped_as = Some(id("xdg_toplevel@7"));
        }
        match manager.add_toplevel(is_restoring, &session, window, id("win")) {
            AddToplevelReply::AlreadyMapped { message } => assert_eq!(message, expected),
            reply => panic!("{:?}", reply),
        }
    }
    assert_eq!(open(&mut manager, "s").sessions.len(), 0);
}

#[test]
fn unknown_session_is_not_created() {
    let mut manager = SessionManagerState::new(None);
    let session = SessionState::new(id("s"));
    for is_restoring in [false, true] {
        let window = unmapped(None, None);
        let reply = manager.add_toplevel(is_restoring, &session, window, id("win"));
        assert!(matches!(reply, AddToplevelReply::UnknownSession));
    }
    assert!(!manager.session_exists(&id("s")));
}

#[test]
fn added_toplevel_is_stored_blank() {
    let mut manager = SessionManagerState::new(None);
    let session = open(&mut manager, "s");
    let added = attach(&mut manager, false, &session, Some("app"), "win");
    let expected = ToplevelSessionState::new(ToplevelSessionRef {
        session_id: id("s"),
        toplevel_id: id("win"),
        app_id: Some(id("app")),
    });
    assert_eq!(added.state, expected);
    let stored = open(&mut manager, "s");
    assert_eq!(stored.sessions.get(&id("win")), Some(&expected));
    // Adding it again starts over.
    assert!(move_to(&mut manager, &added, "mail"));
    attach(&mut manager, false, &session, Some("app"), "win");
    let stored = open(&mut manager, "s");
    assert_eq!(stored.sessions.get(&id("win")), Some(&expected));
}

#[test]
fn restoring_does_not_store() {
    let mut manager = SessionManagerState::new(None);
    let session = open(&mut manager, "s");
    let restored = attach(&mut manager, true, &session, Some("app"), "win");
    assert_eq!(restored.initial_workspace(), None);
    assert_eq!(restored.get_ref().app_id, Some(id("app")));
    assert_eq!(open(&mut manager, "s").sessions.len(), 0);
    // So its window is not tracked either.
    assert!(!move_to(&mut manager, &restored, "mail"));
}

#[test]
fn own_session_comes_first() {
    let mut manager = SessionManagerState::new(None);
    let old = open(&mut manager, "old");
    let new = open(&mut manager, "new");
    let in_old = attach(&mut manager, false, &old, Some("app"), "win");
    let in_new = attach(&mut manager, false, &new, Some("other"), "win");
    move_to(&mut manager, &in_old, "mail");
    move_to(&mut manager, &in_new, "chat");
    let restored = attach(&mut manager, true, &new, Some("app"), "win");
    assert_eq!(restored.initial_workspace(), Some(&named("chat")));
    assert_eq!(restored.get_ref(), in_new.get_ref());
}

#[test]
fn toplevel_is_adopted_from_same_application() {
    let mut manager = SessionManagerState::new(None);
    let old = open(&mut manager, "old");
    let new = open(&mut manager, "new");
    let in_old = attach(&mut manager, false, &old, Some("app"), "win");
    move_to(&mut manager, &in_old, "mail");
    let restored = attach(&mut manager, true, &new, Some("app"), "win");
    assert_eq!(restored.initial_workspace(), Some(&named("mail")));
    assert_eq!(
        restored.get_ref(),
        ToplevelSessionRef {
            session_id: id("new"),
            toplevel_id: id("win"),
            app_id: Some(id("app")),
        }
    );
    // The old session keeps its own.
    let stored = open(&mut manager, "old");
    let state = stored.sessions.get(&id("win")).unwrap();
    assert_eq!(state.get_ref(), in_old.get_ref());
}

#[test]
fn toplevel_is_not_adopted_from_other_application() {
    let mut manager = SessionManagerState::new(None);
    let old = open(&mut manager, "old");
    let new = open(&mut manager, "new");
    let in_old = attach(&mut manager, false, &old, Some("app"), "win");
    move_to(&mut manager, &in_old, "mail");
    for app_id in [Some("other"), None] {
        let restored = attach(&mut manager, true, &new, app_id, "win");
        assert_eq!(restored.initial_workspace(), None);
    }
    let restored = attach(&mut manager, true, &new, Some("app"), "other");
    assert_eq!(restored.initial_workspace(), None);
}

#[test]
fn update_touches_its_toplevel_only() {
    let mut manager = SessionManagerState::new(None);
    let session = open(&mut manager, "s");
    let other_session = open(&mut manager, "other");
    let a = attach(&mut manager, false, &session, None, "a");
    attach(&mut manager, false, &session, None, "b");
    attach(&mut manager, false, &other_session, None, "a");
    assert!(move_to(&mut manager, &a, "mail"));
    let workspace = |manager: &mut SessionManagerState, session: &str, name: &str| {
        let stored = open(manager, session);
        let state = stored.sessions.get(&id(name)).unwrap();
        state.initial_workspace().cloned()
    };
    assert_eq!(workspace(&mut manager, "s", "a"), Some(named("mail")));
    assert_eq!(workspace(&mut manager, "s", "b"), None);
    assert_eq!(workspace(&mut manager, "other", "a"), None);
}

#[test]
fn untracked_window_is_ignored() {
    let mut manager = SessionManagerState::new(None);
    let mapped = MappedWindow {
        session_ref: None,
        is_floating: true,
        geometry: Geometry {
            x: 0,
            y: 0,
            width: 1,
            height: 1,
        },
    };
    assert!(manager.update_toplevel(&mapped, None).is_none());
    // A tracked window is reported even if nothing is learnt about it.
    let session = open(&mut manager, "s");
    let added = attach(&mut manager, false, &session, None, "win");
    let mapped = MappedWindow {
        session_ref: Some(added.get_ref()),
        ..mapped
    };
    assert!(manager.update_toplevel(&mapped, None).is_some());
}

#[test]
fn removed_session_hands_out_its_references() {
    let mut manager = SessionManagerState::new(None);
    let session = open(&mut manager, "s");
    let other_session = open(&mut manager, "other");
    attach(&mut manager, false, &session, Some("app"), "a");
    attach(&mut manager, false, &session, None, "b");
    attach(&mut manager, false, &other_session, None, "c");
    let mut names = match manager.session_request(&session, SessionRequest::Remove) {
        SessionReply::Removed { toplevels } => {
            assert!(toplevels.iter().all(|toplevel| toplevel.session_id == "s"));
            toplevels
                .into_iter()
                .map(|toplevel| (toplevel.toplevel_id, toplevel.app_id))
                .collect::<Vec<_>>()
        }
        reply => panic!("{:?}", reply),
    };
    names.sort();
    assert_eq!(names, vec![(id("a"), Some(id("app"))), (id("b"), None)]);
    assert!(!manager.session_exists(&id("s")));
    assert!(manager.session_exists(&id("other")));
    // Removing it again has no effect, and it starts out blank if it is asked for again.
    match manager.session_request(&session, SessionRequest::Remove) {
        SessionReply::Removed { toplevels } => assert_eq!(toplevels.len(), 0),
        reply => panic!("{:?}", reply),
    }
    assert_eq!(open(&mut manager, "s").sessions.len(), 0);
}

#[test]
fn removed_toplevel_is_gone() {
    let mut manager = SessionManagerState::new(None);
    let session = open(&mut manager, "s");
    let a = attach(&mut manager, false, &session, None, "a");
    attach(&mut manager, false, &session, None, "b");
    manager.toplevel_request(&a.state, ToplevelSessionRequest::Destroy);
    assert_eq!(open(&mut manager, "s").sessions.len(), 2);
    for _ in 0..2 {
        manager.toplevel_request(&a.state, ToplevelSessionRequest::Remove);
        let stored = open(&mut manager, "s");
        assert!(!stored.sessions.contains_key(&id("a")));
        assert!(stored.sessions.contains_key(&id("b")));
    }
}

#[test]
fn removing_undoes_adding() {
    let mut manager = SessionManagerState::new(None);
    let session = open(&mut manager, "s");
    let a = attach(&mut manager, false, &session, None, "a");
    manager.remove_toplevel(&a.get_ref());
    assert!(manager.session_exists(&id("s")));
    assert_eq!(open(&mut manager, "s").sessions.len(), 0);
}

#[test]
fn destroying_a_session_keeps_it_stored() {
    let mut manager = SessionManagerState::new(None);
    let session = open(&mut manager, "s");
    let reply = manager.session_request(&session, SessionRequest::Destroy);
    assert!(matches!(reply, SessionReply::Nothing));
    assert!(manager.session_exists(&id("s")));
}

#[test]
fn requests_go_by_the_ids_inside() {
    // A session may have been saved under another ID than its own.
    let mut sessions = IdMap::new();
    sessions.insert(id("key"), SessionState::new(id("own")));
    let mut manager = SessionManagerState::new(Some(sessions));
    let session = open(&mut manager, "key");
    assert_eq!(session.session_id, "own");
    let reply = manager.add_toplevel(false, &session, unmapped(None, None), id("win"));
    assert!(matches!(reply, AddToplevelReply::UnknownSession));
}

#[test]
fn stored_ids_stay_consistent() {
    let mut manager = SessionManagerState::new(None);
    let session = open(&mut manager, "s");
    let added = attach(&mut manager, false, &session, Some("app"), "win");
    move_to(&mut manager, &added, "mail");
    let sessions = manager.sessions();
    for i in 0..sessions.len() {
        let (session_id, session) = sessions.entry(i);
        assert_eq!(*session_id, session.session_id);
        for j in 0..session.sessions.len() {
            let (toplevel_id, state) = session.sessions.entry(j);
            assert_eq!(*toplevel_id, state.get_ref().toplevel_id);
            assert_eq!(*session_id, state.get_ref().session_id);
        }
    }
}

#[test]
fn toplevel_is_remembered_until_touched() {
    let mut manager = SessionManagerState::new(None);
    let session = open(&mut manager, "s");
    let other_session = open(&mut manager, "other");
    let win = attach(&mut manager, false, &session, None, "win");
    let sibling = attach(&mut manager, false, &session, None, "sibling");
    move_to(&mut manager, &win, "mail");
    // Much happens to other toplevels, and the toplevel itself is restored.
    move_to(&mut manager, &sibling, "chat");
    attach(&mut manager, true, &session, None, "win");
    attach(&mut manager, false, &other_session, None, "win");
    manager.remove_toplevel(&sibling.get_ref());
    manager.session_request(&other_session, SessionRequest::Remove);
    open(&mut manager, "another");
    let restored = attach(&mut manager, true, &session, None, "win");
    assert_eq!(restored.initial_workspace(), Some(&named("mail")));
    // It is forgotten once it has been removed.
    manager.toplevel_request(&restored.state, ToplevelSessionRequest::Remove);
    let restored = attach(&mut manager, true, &session, None, "win");
    assert_eq!(restored.initial_workspace(), None);
}

#[test]
fn copies_are_independent() {
    let mut manager = SessionManagerState::new(None);
    open(&mut manager, "s");
    let copy = manager.clone();
    manager.remove_session(&id("s"));
    assert!(!manager.session_exists(&id("s")));
    assert!(copy.session_exists(&id("s")));
}

#[test]
fn adoption_names_its_origin() {
    let mut manager = SessionManagerState::new(None);
    let old = open(&mut manager, "old");
    let new = open(&mut manager, "new");
    attach(&mut manager, false, &old, Some("app"), "win");
    let mut origin = |is_restoring: bool, session: &SessionState, app_id: &str, name: &str| {
        let window = unmapped(Some(app_id), None);
        match manager.add_toplevel(is_restoring, session, window, id(name)) {
            AddToplevelReply::Attached { adopted_from, .. } => adopted_from,
            reply => panic!("{:?}", reply),
        }
    };
    assert_eq!(origin(true, &new, "app", "win"), Some(id("old")));
    assert_eq!(origin(true, &old, "app", "win"), None);
    assert_eq!(origin(true, &new, "other", "win"), None);
    assert_eq!(origin(true, &new, "app", "unheard-of"), None);
    assert_eq!(origin(false, &new, "app", "win"), None);
    // Now the session remembers the toplevel itself.
    assert_eq!(origin(true, &new, "app", "win"), None);
}

#[test]
fn restored_window_is_restored_once() {
    let mut manager = SessionManagerState::new(None);
    let old = open(&mut manager, "old");
    let new = open(&mut manager, "new");
    attach(&mut manager, false, &old, Some("app"), "win");
    // From its own session, from another one, and from a blank slate.
    for (session, name) in [(&old, "win"), (&new, "win"), (&new, "unheard-of")] {
        for is_restoring in [false, true] {
            let restored = attach(&mut manager, true, session, Some("app"), name);
            let window = unmapped(Some("app"), Some(restored));
            let reply = manager.add_toplevel(is_restoring, session, window, id(name));
            assert!(matches!(reply, AddToplevelReply::NameInUse { .. }));
        }
    }
}

#[test]
fn single_toplevel_leaves_its_reference() {
    let mut manager = SessionManagerState::new(None);
    let session = open(&mut manager, "s");
    let added = attach(&mut manager, false, &session, Some("app"), "a");
    let references = manager.remove_session(&id("s"));
    assert_eq!(references, vec![added.get_ref()]);
}
