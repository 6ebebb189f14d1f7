// Session management for a Wayland compositor: clients group their windows into sessions, and the
// compositor remembers where each window of a session was.

pub mod binary64;
pub mod calls;
pub mod effects;
pub mod id_map;
pub mod laws;
pub mod manager;
pub mod model;
pub mod schedule;
pub mod session;
pub mod session_id;
pub mod storage;
pub mod toplevel;
