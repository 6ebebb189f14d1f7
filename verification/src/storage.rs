use crate::id_map::IdMap;
use crate::manager::SessionManagerState;
use crate::session::SessionState;
use vstd::prelude::*;
use vstd::string::*;

verus! {

/// The name that the configuration directory is asked for under.
pub const APPLICATION: &'static str = "niri";

/// The name of the file that the sessions are saved in.
pub const FILE_NAME: &'static str = "sessions.json";

/// The file that the sessions are saved in, where the user has none.
pub const SYSTEM_PATH: &'static str = "/etc/niri/sessions.json";

/// The bytes of an ASCII text.
pub open spec fn ascii_bytes(text: Seq<char>) -> Seq<u8> {
    Seq::new(text.len(), |i: int| text[i] as u8)
}

/// `bytes` ends with `end`.
pub open spec fn ends_with(bytes: Seq<u8>, end: Seq<u8>) -> bool {
    &&& bytes.len() >= end.len()
    &&& bytes.skip(bytes.len() - end.len()) == end
}

/// The path of a file in a directory. A separator is put between them unless the directory is
/// empty or ends with one.
pub open spec fn joined(directory: Seq<u8>, file: Seq<u8>) -> Seq<u8> {
    if directory.len() == 0 || directory.last() == 0x2f {
        directory + file
    } else {
        directory + seq![0x2fu8] + file
    }
}

/// What an optional path says.
pub open spec fn option_path(path: Option<Vec<u8>>) -> Option<Seq<u8>> {
    match path {
        Some(path) => Some(path@),
        None => None,
    }
}

/// The file that the sessions are saved in: the default path if it exists, else the system path
/// if that exists, else the default path. Without a default path it is the system path.
pub open spec fn resolved_path(
    default_path: Option<Seq<u8>>,
    default_exists: bool,
    system_exists: bool,
) -> Seq<u8> {
    match default_path {
        Some(path) if default_exists || !system_exists => path,
        _ => ascii_bytes(SYSTEM_PATH@),
    }
}

/// The configuration directory of an application, as the bytes of its path:
/// `directories::ProjectDirs::from`, and `directories::ProjectDirs::config_dir` of its result.
///
/// On Linux this is `$XDG_CONFIG_HOME/<application>` or `$HOME/.config/<application>`, or `None`
/// without a home directory. For an application name of lower-case letters, which is used as it
/// stands, the contract claims that the last component of the path is this name. All before it
/// depends on the environment. The qualifier and the organization play no part on Linux.
#[verifier::external_body]
fn project_config_dir(qualifier: &str, organization: &str, application: &str) -> (directory: Option<
    Vec<u8>,
>)
    requires
        application@.len() > 0,
        forall|i: int| 0 <= i < application@.len() ==> 'a' <= #[trigger] application@[i] <= 'z',
    ensures
        directory matches Some(directory) ==> ends_with(
            directory@,
            seq![0x2fu8] + ascii_bytes(application@),
        ),
{
    match directories::ProjectDirs::from(qualifier, organization, application) {
        Some(dirs) => Some(dirs.config_dir().as_os_str().as_encoded_bytes().to_vec()),
        None => None,
    }
}

/// Whether this is the configuration directory that the environment gives to the compositor.
pub closed spec fn is_config_directory(directory: Option<Vec<u8>>) -> bool {
    call_ensures(project_config_dir, ("", "", APPLICATION), directory)
}

/// The configuration directory is what was returned for this application.
proof fn config_directory_was_returned(directory: Option<Vec<u8>>)
    requires
        is_config_directory(directory),
    ensures
        call_ensures(project_config_dir, ("", "", "niri"), directory),
{
}

/// The path of the file in the configuration directory, if there is such a directory.
pub open spec fn data_path_in(directory: Option<Seq<u8>>) -> Option<Seq<u8>> {
    match directory {
        Some(directory) => Some(joined(directory, ascii_bytes(FILE_NAME@))),
        None => None,
    }
}

/// The bytes of an ASCII text.
fn bytes_of(text: &str) -> (bytes: Vec<u8>)
    requires
        text.is_ascii(),
    ensures
        bytes@ == ascii_bytes(text@),
{
    broadcast use is_ascii_spec_bytes;

    let bytes = text.as_bytes_vec();
    assert(bytes@ =~= ascii_bytes(text@));
    bytes
}

/// How an attempt to read the saved sessions went.
#[derive(Debug)]
pub enum LoadOutcome {
    /// The file could not be read.
    ReadFailed,
    /// The file was read, but does not hold sessions.
    ParseFailed,
    /// The file holds these sessions.
    Parsed { sessions: IdMap<SessionState> },
}

/// What to do about it.
#[derive(Debug)]
pub struct LoadDecision {
    /// The sessions to start from.
    pub sessions: Option<IdMap<SessionState>>,
    /// Whether to remove the file and start over from scratch.
    pub remove_file: bool,
}

impl SessionManagerState {
    /// Decides what to start from, and whether the file with the saved sessions is of any use.
    pub fn load_sessions(outcome: LoadOutcome) -> (decision: LoadDecision)
        ensures
            match outcome {
                LoadOutcome::Parsed { sessions } => decision.sessions == Some(sessions),
                _ => decision.sessions is None,
            },
            decision.remove_file == (outcome is ParseFailed),
    {
        match outcome {
            LoadOutcome::ReadFailed => LoadDecision { sessions: None, remove_file: false },
            LoadOutcome::ParseFailed => LoadDecision { sessions: None, remove_file: true },
            LoadOutcome::Parsed { sessions } => LoadDecision {
                sessions: Some(sessions),
                remove_file: false,
            },
        }
    }

    /// The file that the sessions are saved in. `default_exists` and `system_exists` tell whether
    /// the default path and the system path exist.
    pub fn resolve_session_data_path(
        default_path: Option<Vec<u8>>,
        default_exists: bool,
        system_exists: bool,
    ) -> (path: Vec<u8>)
        ensures
            path@ == resolved_path(option_path(default_path), default_exists, system_exists),
            default_path matches Some(users) ==> default_exists || !system_exists ==> path@
                == users@,
            default_path is None || !default_exists && system_exists ==> path@ == ascii_bytes(
                "/etc/niri/sessions.json"@,
            ),
    {
        if let Some(default_path) = default_path {
            // Use default path if it exists.
            if default_exists {
                return default_path;
            }
            // Otherwise, use system path if it exists.

            if system_exists {
                return Self::system_session_data_path();
            }
            // Prefer default path if none exist already.

            return default_path;
        }
        Self::system_session_data_path()
    }

    /// Default is `$XDG_CONFIG_HOME/niri/sessions.json`.
    pub fn default_session_data_path() -> (path: Option<Vec<u8>>)
        ensures
            exists|directory: Option<Vec<u8>>| #[trigger]
                is_config_directory(directory) && option_path(path) == data_path_in(
                    option_path(directory),
                ),
            path matches Some(path) ==> ends_with(
                path@,
                ascii_bytes("/niri/"@) + ascii_bytes(FILE_NAME@),
            ),
    {
        proof {
            reveal_strlit("niri");
            reveal_strlit("/niri/");
        }
        let directory = project_config_dir("", "", APPLICATION);
        let ghost before = directory;
        let path = Self::session_data_path_in(directory);
        proof {
            assert(is_config_directory(before));
            if let Some(directory) = before {
                let end = seq![0x2fu8] + ascii_bytes("niri"@);
                let start = directory@.len() - end.len();
                assert(directory@.last() == directory@.skip(start)[4]);
                assert(path->0@.skip(start) =~= end + seq![0x2fu8] + ascii_bytes(FILE_NAME@));
                assert(end + seq![0x2fu8] =~= ascii_bytes("/niri/"@));
            }
        }
        path
    }

    /// The path of the file in the configuration directory, if there is such a directory.
    pub fn session_data_path_in(directory: Option<Vec<u8>>) -> (path: Option<Vec<u8>>)
        ensures
            option_path(path) == data_path_in(option_path(directory)),
            path is Some <==> directory is Some,
            directory is Some ==> path->0@ == joined(
                directory->0@,
                ascii_bytes("sessions.json"@),
            ),
    {
        match directory {
            Some(directory) => {
                let mut path = directory;
                if path.len() > 0 && path[path.len() - 1] != 0x2f {
                    path.push(0x2f);
                }
                proof {
                    reveal_strlit("sessions.json");
                }
                let mut file = bytes_of(FILE_NAME);
                path.append(&mut file);
                Some(path)
            },
            None => None,
        }
    }

    /// The file for all users.
    pub fn system_session_data_path() -> (path: Vec<u8>)
        ensures
            path@ == ascii_bytes(SYSTEM_PATH@),
            path@ == ascii_bytes("/etc/niri/sessions.json"@),
    {
        proof {
            reveal_strlit("/etc/niri/sessions.json");
        }
        bytes_of(SYSTEM_PATH)
    }
}

} // verus!
