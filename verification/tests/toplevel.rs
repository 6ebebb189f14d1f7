use xx_session_management::binary64::Binary64;
use xx_session_management::toplevel::{
    ColumnWidth, FloatingPosition, Geometry, InitialWidth, MappedWindow, PresetSize, RelativeTo,
    ToplevelSession, ToplevelSessionRef, ToplevelSessionState, ToplevelSessionWorkspace,
    WindowAttributes, WindowHeight, WindowWorkspace, WorkspaceId,
};

fn number(value: f64) -> Binary64 {
    Binary64 {
        bits: value.to_bits(),
    }
}

fn session_ref(session_id: &str, toplevel_id: &str, app_id: Option<&str>) -> ToplevelSessionRef {
    ToplevelSessionRef {
        session_id: session_id.to_owned(),
        toplevel_id: toplevel_id.to_owned(),
        app_id: app_id.map(|app_id| app_id.to_owned()),
    }
}

fn window(is_floating: bool) -> MappedWindow {
    MappedWindow {
        session_ref: None,
        is_floating,
        geometry: Geometry {
            x: -7,
            y: 12,
            width: 640,
            height: 480,
        },
    }
}

fn workspace() -> WindowWorkspace {
    WindowWorkspace {
        id: WorkspaceId { value: 4 },
        name: None,
        column_index: Some(2),
        height: Some(WindowHeight::Fixed(number(300.75))),
        column_width: Some(ColumnWidth::Proportion(number(0.5))),
        is_full_width: Some(true),
    }
}

fn blank() -> ToplevelSessionState {
    ToplevelSessionState::new(session_ref("s", "t", None))
}

#[test]
fn references_compare_by_all_fields() {
    let reference = session_ref("s", "t", Some("app"));
    assert!(reference == reference.clone());
    assert!(reference != session_ref("other", "t", Some("app")));
    assert!(reference != session_ref("s", "other", Some("app")));
    assert!(reference != session_ref("s", "t", Some("other")));
    assert!(reference != session_ref("s", "t", None));
}

#[test]
fn blank_state_remembers_nothing() {
    let state = blank();
    assert_eq!(state.get_ref(), session_ref("s", "t", None));
    assert_eq!(state.initial_workspace(), None);
    assert_eq!(state.initial_column_index(), None);
    assert_eq!(state.was_full_width(), None);
    assert_eq!(state.was_floating(), None);
    assert_eq!(state.initial_width(), None);
    assert_eq!(state.initial_height(), None);
    assert_eq!(state.initial_floating_position(), None);
}

#[test]
fn window_in_column_is_remembered() {
    let mut state = blank();
    state.update(&window(false), Some(&workspace()));
    assert_eq!(
        state.initial_workspace(),
        Some(&ToplevelSessionWorkspace::Unnamed(WorkspaceId { value: 4 }))
    );
    assert_eq!(state.initial_column_index(), Some(2));
    assert_eq!(state.was_full_width(), Some(true));
    assert_eq!(state.was_floating(), Some(false));
    assert_eq!(
        state.initial_width(),
        Some(InitialWidth::Column(ColumnWidth::Proportion(number(0.5))))
    );
    assert_eq!(state.initial_height(), Some(PresetSize::Fixed(300)));
    assert_eq!(state.initial_floating_position(), None);
    assert_eq!(
        state.attributes,
        Some(WindowAttributes::Scrolling {
            column_index: 2,
            width: ColumnWidth::Proportion(number(0.5)),
            height: WindowHeight::Fixed(number(300.75)),
            is_full_width: true,
        })
    );
}

#[test]
fn other_heights_become_full_height() {
    for height in [
        WindowHeight::Auto { weight: number(2.0) },
        WindowHeight::Preset(1),
    ] {
        let mut state = blank();
        let mut workspace = workspace();
        workspace.height = Some(height);
        state.update(&window(false), Some(&workspace));
        assert_eq!(
            state.initial_height(),
            Some(PresetSize::Proportion(number(1.0)))
        );
    }
}

#[test]
fn floating_window_is_remembered() {
    let mut state = blank();
    state.update(&window(true), Some(&workspace()));
    assert_eq!(state.was_floating(), Some(true));
    assert_eq!(state.initial_width(), Some(InitialWidth::Fixed(640)));
    assert_eq!(state.initial_height(), Some(PresetSize::Fixed(480)));
    assert_eq!(
        state.initial_floating_position(),
        Some(FloatingPosition {
            x: -7,
            y: 12,
            relative_to: RelativeTo::TopLeft,
        })
    );
    assert_eq!(state.initial_column_index(), None);
    assert_eq!(state.was_full_width(), None);
}

#[test]
fn unknown_workspace_changes_nothing() {
    let mut state = blank();
    state.update(&window(true), Some(&workspace()));
    let before = state.clone();
    state.update(&window(false), None);
    assert_eq!(state, before);
}

#[test]
fn unknown_column_changes_workspace_only() {
    let mut missing: Vec<WindowWorkspace> = vec![workspace(), workspace(), workspace(), workspace()];
    missing[0].column_index = None;
    missing[1].height = None;
    missing[2].column_width = None;
    missing[3].is_full_width = None;
    for mut workspace in missing {
        workspace.name = Some("mail".to_owned());
        let mut state = blank();
        state.update(&window(true), Some(&self::workspace()));
        let attributes = state.attributes;
        state.update(&window(false), Some(&workspace));
        assert_eq!(
            state.initial_workspace(),
            Some(&ToplevelSessionWorkspace::Named("mail".to_owned()))
        );
        assert_eq!(state.attributes, attributes);
    }
}

#[test]
fn update_twice_is_update_once() {
    let mut state = blank();
    state.update(&window(false), Some(&workspace()));
    let once = state.clone();
    state.update(&window(false), Some(&workspace()));
    assert_eq!(state, once);
}

#[test]
fn session_answers_for_its_state() {
    let mut state = blank();
    state.update(&window(false), Some(&workspace()));
    let session = ToplevelSession {
        state: state.clone(),
        is_restoring: true,
    };
    assert!(session.is_restoring());
    assert_eq!(session.get_ref(), state.get_ref());
    assert_eq!(session.initial_workspace(), state.initial_workspace());
    assert_eq!(session.initial_column_index(), Some(2));
    assert_eq!(session.was_full_width(), Some(true));
    assert_eq!(session.was_floating(), Some(false));
    assert_eq!(session.initial_width(), state.initial_width());
    assert_eq!(session.initial_height(), Some(PresetSize::Fixed(300)));
    assert_eq!(session.initial_floating_position(), None);
}

#[test]
fn sizes_are_compared_as_floats() {
    let attributes = |width: f64, weight: f64| WindowAttributes::Scrolling {
        column_index: 1,
        height: WindowHeight::Auto {
            weight: number(weight),
        },
        width: ColumnWidth::Proportion(number(width)),
        is_full_width: false,
    };
    assert_eq!(attributes(0.0, 1.0), attributes(-0.0, 1.0));
    assert_ne!(attributes(0.5, 1.0), attributes(-0.5, 1.0));
    assert_ne!(attributes(f64::NAN, 1.0), attributes(f64::NAN, 1.0));
    assert_ne!(attributes(0.5, f64::NAN), attributes(0.5, f64::NAN));
    assert_eq!(ColumnWidth::Fixed(number(2.5)), ColumnWidth::Fixed(number(2.5)));
    assert_ne!(
        ColumnWidth::Fixed(number(0.5)),
        ColumnWidth::Proportion(number(0.5))
    );
    assert_eq!(
        PresetSize::Proportion(number(0.0)),
        PresetSize::Proportion(number(-0.0))
    );
}
