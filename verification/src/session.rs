use crate::id_map::IdMap;
use crate::model::{SessionStateView, SessionStore};
use crate::toplevel::{SessionId, ToplevelSessionState, ToplevelSessionStateView};
use vstd::prelude::*;

verus! {

/// The session data for an application's windows.
#[derive(Debug)]
pub struct SessionState {
    pub session_id: SessionId,
    /// Maps toplevel IDs ("names") to what is remembered of the toplevels.
    pub sessions: IdMap<ToplevelSessionState>,
}

/// What a map of toplevels holds.
pub open spec fn toplevels_view(toplevels: Map<Seq<char>, ToplevelSessionState>) -> Map<
    Seq<char>,
    ToplevelSessionStateView,
> {
    toplevels.map_values(|state: ToplevelSessionState| state@)
}

/// What a map of sessions holds.
pub open spec fn sessions_view(sessions: Map<Seq<char>, SessionState>) -> SessionStore {
    sessions.map_values(|session: SessionState| session@)
}

impl View for SessionState {
    type V = SessionStateView;

    open spec fn view(&self) -> SessionStateView {
        SessionStateView {
            session_id: self.session_id@,
            sessions: toplevels_view(self.sessions@),
        }
    }
}

impl SessionState {
    /// A session without toplevels.
    pub fn new(session_id: SessionId) -> (session: Self)
        ensures
            session@ == SessionStateView::blank(session_id@),
            session.session_id == session_id,
            session.sessions@ == Map::<Seq<char>, ToplevelSessionState>::empty(),
    {
        let session = SessionState { session_id, sessions: IdMap::new() };
        assert(session@ =~~= SessionStateView::blank(session_id@));
        session
    }
}

impl Clone for SessionState {
    fn clone(&self) -> (copy: Self)
        ensures
            copy@ == self@,
    {
        let copy = SessionState {
            session_id: self.session_id.clone(),
            sessions: self.sessions.clone(),
        };
        proof {
            assert forall|id: Seq<char>| #[trigger] copy@.sessions.contains_key(id) implies copy@
                .sessions[id] == self@.sessions[id] by {
                assert(copy.sessions@.contains_key(id));
            }
            assert forall|id: Seq<char>| #[trigger]
                self@.sessions.contains_key(id) implies copy@.sessions.contains_key(id) by {
                assert(copy.sessions@.contains_key(id));
            }
            assert(copy@.sessions =~= self@.sessions);
        }
        copy
    }
}

} // verus!
