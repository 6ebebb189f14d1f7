use crate::toplevel::{
    MappedWindowView, ToplevelSessionRefView, ToplevelSessionStateView, WindowWorkspaceView,
};
use vstd::prelude::*;

verus! {

/// What a session holds: its ID, and what it remembers of each toplevel.
#[verifier::ext_equal]
pub struct SessionStateView {
    pub session_id: Seq<char>,
    pub sessions: Map<Seq<char>, ToplevelSessionStateView>,
}

impl SessionStateView {
    /// A session without toplevels.
    pub open spec fn blank(session_id: Seq<char>) -> Self {
        SessionStateView { session_id, sessions: Map::empty() }
    }
}

/// All sessions, by the IDs that they are stored under.
pub type SessionStore = Map<Seq<char>, SessionStateView>;

/// What is stored for a toplevel.
pub open spec fn stored_toplevel(
    store: SessionStore,
    session_id: Seq<char>,
    toplevel_id: Seq<char>,
) -> Option<ToplevelSessionStateView> {
    if store.contains_key(session_id) && store[session_id].sessions.contains_key(toplevel_id) {
        Some(store[session_id].sessions[toplevel_id])
    } else {
        None
    }
}

/// What a search for an unused session ID finds among some candidates: the first one that is not
/// in use, or nothing if all of them are.
pub open spec fn is_first_unused(
    store: SessionStore,
    candidates: Seq<Seq<char>>,
    found: Option<Seq<char>>,
) -> bool {
    match found {
        Some(id) => exists|i: int|
            0 <= i < candidates.len() && #[trigger] candidates[i] == id && !store.contains_key(id)
                && all_in_use(store, candidates.take(i)),
        None => all_in_use(store, candidates),
    }
}

/// Every one of these session IDs is in use.
pub open spec fn all_in_use(store: SessionStore, ids: Seq<Seq<char>>) -> bool {
    forall|i: int| 0 <= i < ids.len() ==> store.contains_key(#[trigger] ids[i])
}

/// The session ID that a client gets which asks for `requested`, while `drawn` are the random IDs
/// that are drawn for it: the one that it asks for, if that is known, else the first one drawn
/// that is not in use.
pub open spec fn is_chosen_id(
    store: SessionStore,
    requested: Option<Seq<char>>,
    drawn: Seq<Seq<char>>,
    chosen: Option<Seq<char>>,
) -> bool {
    match requested {
        Some(id) if store.contains_key(id) => chosen == Some(id) && drawn.len() == 0,
        _ => is_first_unused(store, drawn, chosen),
    }
}

/// The store once a session has been asked for by its ID: an unknown one starts out blank.
pub open spec fn with_session(store: SessionStore, session_id: Seq<char>) -> SessionStore {
    if store.contains_key(session_id) {
        store
    } else {
        store.insert(session_id, SessionStateView::blank(session_id))
    }
}

/// The store once a toplevel's state has been put into a session. An unknown session stays
/// unknown.
pub open spec fn with_toplevel(
    store: SessionStore,
    session_id: Seq<char>,
    toplevel_id: Seq<char>,
    state: ToplevelSessionStateView,
) -> SessionStore {
    if store.contains_key(session_id) {
        let session = store[session_id];
        store.insert(
            session_id,
            SessionStateView { sessions: session.sessions.insert(toplevel_id, state), ..session },
        )
    } else {
        store
    }
}

/// The store once a toplevel has been removed from its session.
pub open spec fn without_toplevel(
    store: SessionStore,
    session_id: Seq<char>,
    toplevel_id: Seq<char>,
) -> SessionStore {
    if store.contains_key(session_id) {
        let session = store[session_id];
        store.insert(
            session_id,
            SessionStateView { sessions: session.sessions.remove(toplevel_id), ..session },
        )
    } else {
        store
    }
}

/// The stored state that a mapped window is tracked by.
pub open spec fn tracked_toplevel(store: SessionStore, mapped: MappedWindowView) -> Option<
    ToplevelSessionStateView,
> {
    match mapped.session_ref {
        Some(session_ref) => stored_toplevel(
            store,
            session_ref.session_id,
            session_ref.toplevel_id,
        ),
        None => None,
    }
}

/// The store once a mapped window has been looked at.
pub open spec fn with_update(
    store: SessionStore,
    mapped: MappedWindowView,
    workspace: Option<WindowWorkspaceView>,
) -> SessionStore {
    match (mapped.session_ref, tracked_toplevel(store, mapped)) {
        (Some(session_ref), Some(state)) => with_toplevel(
            store,
            session_ref.session_id,
            session_ref.toplevel_id,
            state.updated(mapped, workspace),
        ),
        _ => store,
    }
}

/// A session remembers a toplevel of this name, of the same application.
pub open spec fn is_origin(
    store: SessionStore,
    origin: Seq<char>,
    toplevel_id: Seq<char>,
    app_id: Option<Seq<char>>,
) -> bool {
    match stored_toplevel(store, origin, toplevel_id) {
        Some(state) => state.session_ref.app_id == app_id,
        None => false,
    }
}

/// A toplevel's state from another session, adopted into this one.
pub open spec fn adopted(
    state: ToplevelSessionStateView,
    session_id: Seq<char>,
) -> ToplevelSessionStateView {
    ToplevelSessionStateView {
        session_ref: ToplevelSessionRefView { session_id, ..state.session_ref },
        ..state
    }
}

/// The state that a restored toplevel starts from: what its own session remembers, else what any
/// session remembers of a toplevel of the same name and application, else a blank slate.
pub open spec fn restores_to(
    store: SessionStore,
    wanted: ToplevelSessionRefView,
    state: ToplevelSessionStateView,
) -> bool {
    match stored_toplevel(store, wanted.session_id, wanted.toplevel_id) {
        Some(own) => state == own,
        None => {
            ||| exists|origin: Seq<char>| #[trigger]
                is_origin(store, origin, wanted.toplevel_id, wanted.app_id) && state == adopted(
                    stored_toplevel(store, origin, wanted.toplevel_id)->0,
                    wanted.session_id,
                )
            ||| (forall|origin: Seq<char>|
                !#[trigger] is_origin(store, origin, wanted.toplevel_id, wanted.app_id)) && state
                == ToplevelSessionStateView::blank(wanted)
        },
    }
}

/// Where the state of a restored toplevel was adopted from: the session that the adopted state
/// referred to, or `None` if nothing was adopted.
pub open spec fn is_adopted_from(
    store: SessionStore,
    wanted: ToplevelSessionRefView,
    state: ToplevelSessionStateView,
    adopted_from: Option<Seq<char>>,
) -> bool {
    let own = stored_toplevel(store, wanted.session_id, wanted.toplevel_id);
    match adopted_from {
        Some(id) => own is None && exists|origin: Seq<char>| #[trigger]
            is_origin(store, origin, wanted.toplevel_id, wanted.app_id) && ({
                let old_state = stored_toplevel(store, origin, wanted.toplevel_id)->0;
                state == adopted(old_state, wanted.session_id) && id
                    == old_state.session_ref.session_id
            }),
        None => own is Some || forall|origin: Seq<char>|
            !#[trigger] is_origin(store, origin, wanted.toplevel_id, wanted.app_id),
    }
}

/// What is known of an unmapped window.
pub struct UnmappedWindowView {
    pub app_id: Option<Seq<char>>,
    pub session_ref: Option<ToplevelSessionRefView>,
}

/// What is known of the window behind a toplevel.
pub struct ToplevelWindowView {
    pub unmapped: Option<UnmappedWindowView>,
    pub mapped_as: Option<Seq<char>>,
}

/// A request to add a toplevel to a session, or to restore one from it.
pub struct ToplevelRequestView {
    pub is_restoring: bool,
    pub session_id: Seq<char>,
    pub toplevel_id: Seq<char>,
    pub toplevel: Option<ToplevelWindowView>,
}

/// What becomes of such a request.
pub enum ToplevelVerdict {
    /// The toplevel does not exist.
    InvalidToplevel,
    /// The toplevel has no unmapped window.
    NotUnmapped,
    /// The window is already part of the session under this name.
    NameInUse,
    /// The window has been mapped already, as the toplevel of this description.
    AlreadyMapped(Seq<char>),
    /// The session is not stored.
    UnknownSession,
    /// The toplevel gets a session under this reference.
    Accepted(ToplevelSessionRefView),
}

impl ToplevelRequestView {
    /// What becomes of the request. The first objection counts.
    pub open spec fn verdict(self, store: SessionStore) -> ToplevelVerdict {
        match self.toplevel {
            None => ToplevelVerdict::InvalidToplevel,
            Some(window) => match window.unmapped {
                None => ToplevelVerdict::NotUnmapped,
                Some(unmapped) => {
                    let wanted = ToplevelSessionRefView {
                        session_id: self.session_id,
                        toplevel_id: self.toplevel_id,
                        app_id: unmapped.app_id,
                    };
                    if unmapped.session_ref == Some(wanted) {
                        ToplevelVerdict::NameInUse
                    } else if window.mapped_as is Some {
                        ToplevelVerdict::AlreadyMapped(window.mapped_as->0)
                    } else if !store.contains_key(self.session_id) {
                        ToplevelVerdict::UnknownSession
                    } else {
                        ToplevelVerdict::Accepted(wanted)
                    }
                },
            },
        }
    }

    /// The store once the request has been served. Only an accepted request to add a toplevel
    /// changes it.
    pub open spec fn store_after(self, store: SessionStore) -> SessionStore {
        match self.verdict(store) {
            ToplevelVerdict::Accepted(wanted) if !self.is_restoring => with_toplevel(
                store,
                wanted.session_id,
                wanted.toplevel_id,
                ToplevelSessionStateView::blank(wanted),
            ),
            _ => store,
        }
    }

    /// The state that the toplevel of an accepted request may start from.
    pub open spec fn starts_from(
        self,
        store: SessionStore,
        wanted: ToplevelSessionRefView,
        state: ToplevelSessionStateView,
    ) -> bool {
        if self.is_restoring {
            restores_to(store, wanted, state)
        } else {
            state == ToplevelSessionStateView::blank(wanted)
        }
    }

    /// What the request is called in error messages.
    pub open spec fn op_name(self) -> Seq<char> {
        if self.is_restoring {
            "restore"@
        } else {
            "add"@
        }
    }
}

/// The error message for a session that a client uses already.
pub open spec fn in_use_message(session_id: Seq<char>, client: Seq<char>) -> Seq<char> {
    "session `"@ + session_id + "` already in use by client "@ + client
}

/// The error message for a window that is part of the session already.
pub open spec fn name_in_use_message(op_name: Seq<char>, toplevel_id: Seq<char>) -> Seq<char> {
    "cannot "@ + op_name + ": toplevel `"@ + toplevel_id + "` is already present in session"@
}

/// The error message for a window that has been mapped already.
pub open spec fn already_mapped_message(op_name: Seq<char>, toplevel: Seq<char>) -> Seq<char> {
    "cannot "@ + op_name + ": toplevel "@ + toplevel + " was already mapped when restored"@
}

/// Something that is done to the store.
pub enum StoreStep {
    /// A session is asked for by its ID.
    GetSession { session_id: Seq<char> },
    /// A session is removed.
    RemoveSession { session_id: Seq<char> },
    /// A toplevel is added to a session or restored from it.
    AddToplevel { request: ToplevelRequestView },
    /// A toplevel is removed from a session.
    RemoveToplevel { session_id: Seq<char>, toplevel_id: Seq<char> },
    /// A mapped window is looked at.
    Update { mapped: MappedWindowView, workspace: Option<WindowWorkspaceView> },
}

impl StoreStep {
    /// The store after the step.
    pub open spec fn applied(self, store: SessionStore) -> SessionStore {
        match self {
            StoreStep::GetSession { session_id } => with_session(store, session_id),
            StoreStep::RemoveSession { session_id } => store.remove(session_id),
            StoreStep::AddToplevel { request } => request.store_after(store),
            StoreStep::RemoveToplevel { session_id, toplevel_id } => without_toplevel(
                store,
                session_id,
                toplevel_id,
            ),
            StoreStep::Update { mapped, workspace } => with_update(store, mapped, workspace),
        }
    }

    /// Whether the step is about this toplevel. Restoring a toplevel is not: it only reads.
    pub open spec fn is_about(self, session_id: Seq<char>, toplevel_id: Seq<char>) -> bool {
        match self {
            StoreStep::GetSession { .. } => false,
            StoreStep::RemoveSession { session_id: removed } => removed == session_id,
            StoreStep::AddToplevel { request } => !request.is_restoring && request.session_id
                == session_id && request.toplevel_id == toplevel_id,
            StoreStep::RemoveToplevel { session_id: removed_from, toplevel_id: removed } => {
                removed_from == session_id && removed == toplevel_id
            },
            StoreStep::Update { mapped, .. } => match mapped.session_ref {
                Some(session_ref) => session_ref.session_id == session_id
                    && session_ref.toplevel_id == toplevel_id,
                None => false,
            },
        }
    }
}

/// The store after some steps.
pub open spec fn after_steps(store: SessionStore, steps: Seq<StoreStep>) -> SessionStore
    decreases steps.len(),
{
    if steps.len() == 0 {
        store
    } else {
        steps.last().applied(after_steps(store, steps.drop_last()))
    }
}

/// Every session is stored under its own ID, and every toplevel under its own name in its own
/// session.
pub open spec fn is_consistent(store: SessionStore) -> bool {
    &&& forall|id: Seq<char>| #[trigger] store.contains_key(id) ==> store[id].session_id == id
    &&& forall|id: Seq<char>, toplevel_id: Seq<char>|
        #![trigger stored_toplevel(store, id, toplevel_id)]
        match stored_toplevel(store, id, toplevel_id) {
            Some(state) => state.session_ref.session_id == id && state.session_ref.toplevel_id
                == toplevel_id,
            None => true,
        }
}

} // verus!
