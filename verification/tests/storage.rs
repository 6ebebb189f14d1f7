use xx_session_management::id_map::IdMap;
use xx_session_management::manager::SessionManagerState;
use xx_session_management::session::SessionState;
use xx_session_management::storage::LoadOutcome;

fn path(text: &str) -> Vec<u8> {
    text.as_bytes().to_vec()
}

fn resolve(default_path: Option<&str>, default_exists: bool, system_exists: bool) -> String {
    let path = SessionManagerState::resolve_session_data_path(
        default_path.map(path),
        default_exists,
        system_exists,
    );
    String::from_utf8(path).unwrap()
}

#[test]
fn default_path_is_used_if_it_exists() {
    let default_path = Some("/home/a/.config/niri/sessions.json");
    let expected = "/home/a/.config/niri/sessions.json";
    assert_eq!(resolve(default_path, true, true), expected);
    assert_eq!(resolve(default_path, true, false), expected);
}

#[test]
fn system_path_is_used_if_only_it_exists() {
    let default_path = Some("/home/a/.config/niri/sessions.json");
    assert_eq!(resolve(default_path, false, true), "/etc/niri/sessions.json");
}

#[test]
fn default_path_is_preferred_if_none_exists() {
    let default_path = Some("/home/a/.config/niri/sessions.json");
    let expected = "/home/a/.config/niri/sessions.json";
    assert_eq!(resolve(default_path, false, false), expected);
    // Once it has been written it is found again.
    assert_eq!(resolve(default_path, true, false), expected);
}

#[test]
fn system_path_is_used_without_default_path() {
    for default_exists in [false, true] {
        for system_exists in [false, true] {
            let resolved = resolve(None, default_exists, system_exists);
            assert_eq!(resolved, "/etc/niri/sessions.json");
        }
    }
}

#[test]
fn file_name_is_joined_to_directory() {
    let join = |directory: &str| {
        let joined = SessionManagerState::session_data_path_in(Some(path(directory)));
        String::from_utf8(joined.unwrap()).unwrap()
    };
    for directory in ["/home/a/.config/niri", "/home/a/.config/niri/", "/", ""] {
        let expected = std::path::PathBuf::from(directory).join("sessions.json");
        assert_eq!(join(directory), expected.to_str().unwrap());
    }
    assert_eq!(
        join("/home/a/.config/niri"),
        "/home/a/.config/niri/sessions.json"
    );
    assert_eq!(SessionManagerState::session_data_path_in(None), None);
}

#[test]
fn default_path_is_in_configuration_directory() {
    let expected = directories::ProjectDirs::from("", "", "niri")
        .map(|dirs| dirs.config_dir().join("sessions.json"));
    let path = SessionManagerState::default_session_data_path()
        .map(|path| std::path::PathBuf::from(String::from_utf8(path).unwrap()));
    assert_eq!(path, expected);
    if let Some(path) = path {
        assert!(path.ends_with("niri/sessions.json"));
    }
}

#[test]
fn unreadable_file_is_kept() {
    let decision = SessionManagerState::load_sessions(LoadOutcome::ReadFailed);
    assert!(decision.sessions.is_none());
    assert!(!decision.remove_file);
}

#[test]
fn malformed_file_is_removed() {
    let decision = SessionManagerState::load_sessions(LoadOutcome::ParseFailed);
    assert!(decision.sessions.is_none());
    assert!(decision.remove_file);
}

#[test]
fn parsed_sessions_are_kept() {
    let mut sessions = IdMap::new();
    sessions.insert("a".to_owned(), SessionState::new("a".to_owned()));
    let decision = SessionManagerState::load_sessions(LoadOutcome::Parsed { sessions });
    assert!(!decision.remove_file);
    let manager = SessionManagerState::new(decision.sessions);
    assert!(manager.session_exists(&"a".to_owned()));
    assert!(!manager.session_exists(&"b".to_owned()));
    assert_eq!(manager.sessions().len(), 1);
}
