use crate::effects;
use crate::id_map::IdMap;
use crate::model;
use crate::model::{
    SessionStateView, SessionStore, ToplevelRequestView, ToplevelVerdict, ToplevelWindowView,
    UnmappedWindowView,
};
use crate::session;
use crate::session::SessionState;
use crate::session_id;
use crate::session_id::IdSource;
use crate::toplevel;
use crate::toplevel::{
    AppId, MappedWindow, SessionId, ToplevelId, ToplevelSession, ToplevelSessionRef,
    ToplevelSessionRefView, ToplevelSessionState, ToplevelSessionStateView,
    ToplevelSessionWorkspaceView, ToplevelUpdated, WindowAttributes, WindowWorkspace,
};
use vstd::prelude::*;
use vstd::string::*;

verus! {

/// The version of the session management protocol.
pub const VERSION: u32 = 1;

/// Session data for all applications.
///
/// A global object shared by all clients.
#[derive(Debug)]
pub struct SessionManagerState {
    /// Maps session IDs to sessions.
    sessions: IdMap<SessionState>,
}

impl View for SessionManagerState {
    type V = SessionStore;

    closed spec fn view(&self) -> SessionStore {
        session::sessions_view(self.sessions@)
    }
}

impl Clone for SessionManagerState {
    fn clone(&self) -> (copy: Self)
        ensures
            copy@ == self@,
    {
        let copy = SessionManagerState { sessions: self.sessions.clone() };
        proof {
            assert forall|id: Seq<char>| #[trigger]
                copy@.contains_key(id) <==> self@.contains_key(id) by {
                assert(copy.sessions@.contains_key(id) <==> self.sessions@.contains_key(id));
            }
            assert forall|id: Seq<char>| #[trigger] copy@.contains_key(id) implies copy@[id]
                == self@[id] by {
                assert(copy.sessions@.contains_key(id));
            }
            assert(copy@ =~= self@);
        }
        copy
    }
}

/// A window that has not been mapped yet.
#[derive(Debug)]
pub struct UnmappedWindow {
    pub app_id: Option<AppId>,
    /// The toplevel session that the window has got.
    pub session: Option<ToplevelSession>,
}

impl View for UnmappedWindow {
    type V = UnmappedWindowView;

    open spec fn view(&self) -> UnmappedWindowView {
        UnmappedWindowView {
            app_id: toplevel::option_text(self.app_id),
            session_ref: match self.session {
                Some(session) => Some(session.state@.session_ref),
                None => None,
            },
        }
    }
}

/// The window behind a toplevel.
#[derive(Debug)]
pub struct ToplevelWindow {
    /// The window, where it has not been mapped yet.
    pub unmapped: Option<UnmappedWindow>,
    /// How to describe the toplevel, where its window has been mapped.
    pub mapped_as: Option<String>,
}

impl View for ToplevelWindow {
    type V = ToplevelWindowView;

    open spec fn view(&self) -> ToplevelWindowView {
        ToplevelWindowView {
            unmapped: match self.unmapped {
                Some(unmapped) => Some(unmapped@),
                None => None,
            },
            mapped_as: toplevel::option_text(self.mapped_as),
        }
    }
}

/// What is known of the window behind a toplevel, where the toplevel exists.
pub open spec fn option_window(window: Option<ToplevelWindow>) -> Option<ToplevelWindowView> {
    match window {
        Some(window) => Some(window@),
        None => None,
    }
}

/// The answer to a request to add or to restore a toplevel.
#[derive(Debug)]
pub enum AddToplevelReply {
    /// The toplevel does not exist.
    InvalidToplevel,
    /// The toplevel has no unmapped window.
    NotUnmapped,
    /// A protocol error: the window is already part of the session under this name.
    NameInUse { message: String },
    /// A protocol error: the window has been mapped already.
    AlreadyMapped { message: String },
    /// The session is not known.
    UnknownSession,
    /// The toplevel gets this session. `adopted_from` is the session that its state was taken over
    /// from, where it was restored from another one.
    Attached { session: ToplevelSession, adopted_from: Option<SessionId> },
}

impl AddToplevelReply {
    /// Whether this is an answer to the request, given what was stored when it came.
    pub open spec fn answers(self, request: ToplevelRequestView, store: SessionStore) -> bool {
        match request.verdict(store) {
            ToplevelVerdict::InvalidToplevel => self is InvalidToplevel,
            ToplevelVerdict::NotUnmapped => self is NotUnmapped,
            ToplevelVerdict::NameInUse => match self {
                AddToplevelReply::NameInUse { message } => message@ == model::name_in_use_message(
                    request.op_name(),
                    request.toplevel_id,
                ),
                _ => false,
            },
            ToplevelVerdict::AlreadyMapped(description) => match self {
                AddToplevelReply::AlreadyMapped { message } => message@
                    == model::already_mapped_message(request.op_name(), description),
                _ => false,
            },
            ToplevelVerdict::UnknownSession => self is UnknownSession,
            ToplevelVerdict::Accepted(wanted) => match self {
                AddToplevelReply::Attached { session, adopted_from } => {
                    &&& session.is_restoring == request.is_restoring
                    &&& request.starts_from(store, wanted, session.state@)
                    &&& if request.is_restoring {
                        model::is_adopted_from(
                            store,
                            wanted,
                            session.state@,
                            toplevel::option_text(adopted_from),
                        )
                    } else {
                        adopted_from is None
                    }
                },
                _ => false,
            },
        }
    }
}

/// A request on the session manager.
#[derive(Debug)]
pub enum SessionManagerRequest {
    Destroy,
    GetSession {
        /// The ID of the session to restore.
        session: Option<SessionId>,
    },
}

/// What a request on the session manager leads to.
#[derive(Debug)]
pub enum SessionManagerAction {
    /// There is nothing to do.
    Nothing,
    /// A great many IDs were drawn, and all of them are in use. Make the request again, so that
    /// the search goes on.
    TryAgain,
    /// Find out whether a window of the client is part of this session, then call `get_session`.
    CheckInUse { session_id: SessionId },
}

/// The answer to a request for a session.
#[derive(Debug)]
pub enum GetSessionReply {
    /// A protocol error: the client uses the session already.
    InUse { message: String },
    /// The session was known.
    Restored { session: SessionState },
    /// The session is new.
    Created { session_id: SessionId, session: SessionState },
}

impl GetSessionReply {
    /// Whether this is the answer to a client that asks for the session, given what was stored
    /// when it came. `in_use` says whether a window of the client is part of the session.
    pub open spec fn answers(
        self,
        store: SessionStore,
        session_id: Seq<char>,
        in_use: bool,
        client: Seq<char>,
    ) -> bool {
        if in_use {
            match self {
                GetSessionReply::InUse { message } => message@ == model::in_use_message(
                    session_id,
                    client,
                ),
                _ => false,
            }
        } else if store.contains_key(session_id) {
            match self {
                GetSessionReply::Restored { session } => session@ == store[session_id],
                _ => false,
            }
        } else {
            match self {
                GetSessionReply::Created { session_id: created, session } => created@ == session_id
                    && session@ == SessionStateView::blank(session_id),
                _ => false,
            }
        }
    }
}

/// A request on a session.
#[derive(Debug)]
pub enum SessionRequest {
    Destroy,
    Remove,
    AddToplevel { toplevel: Option<ToplevelWindow>, name: ToplevelId },
    RestoreToplevel { toplevel: Option<ToplevelWindow>, name: ToplevelId },
}

/// What a request on a session leads to.
#[derive(Debug)]
pub enum SessionReply {
    /// There is nothing to do.
    Nothing,
    /// The session is gone. Take these toplevel sessions off the windows that have them.
    Removed { toplevels: Vec<ToplevelSessionRef> },
    /// The answer on a toplevel.
    Toplevel { reply: AddToplevelReply },
}

/// A request on a toplevel session.
#[derive(Debug)]
pub enum ToplevelSessionRequest {
    Destroy,
    Remove,
}

/// These are the references of all toplevels of a session, one of each, in some order.
pub open spec fn are_refs_of(
    refs: Seq<ToplevelSessionRef>,
    toplevels: Map<Seq<char>, ToplevelSessionStateView>,
) -> bool {
    exists|names: Seq<Seq<char>>| #[trigger] are_refs_in_order(refs, toplevels, names)
}

/// These are the references of all toplevels of a session, in the order of their names.
pub open spec fn are_refs_in_order(
    refs: Seq<ToplevelSessionRef>,
    toplevels: Map<Seq<char>, ToplevelSessionStateView>,
    names: Seq<Seq<char>>,
) -> bool {
    &&& names.no_duplicates()
    &&& names.len() == refs.len()
    &&& forall|name: Seq<char>| #[trigger] names.contains(name) <==> toplevels.contains_key(name)
    &&& forall|i: int|
        0 <= i < refs.len() ==> (#[trigger] refs[i])@ == toplevels[names[i]].session_ref
}

impl SessionManagerState {
    /// Starts from the sessions that were loaded, or without any.
    pub fn new(loaded_sessions: Option<IdMap<SessionState>>) -> (state: Self)
        ensures
            state@ == match loaded_sessions {
                Some(sessions) => session::sessions_view(sessions@),
                None => Map::empty(),
            },
    {
        match loaded_sessions {
            Some(sessions) => SessionManagerState { sessions },
            None => {
                let state = SessionManagerState { sessions: IdMap::new() };
                assert(state@ =~= Map::empty());
                state
            },
        }
    }

    /// All sessions, as they are saved.
    pub fn sessions(&self) -> (sessions: &IdMap<SessionState>)
        ensures
            session::sessions_view(sessions@) == self@,
    {
        &self.sessions
    }

    /// Checks whether a session with the given ID exists.
    pub fn session_exists(&self, session_id: &SessionId) -> (exists: bool)
        ensures
            exists == self@.contains_key(session_id@),
    {
        self.sessions.contains_key(session_id)
    }

    /// Updates the session state of the given toplevel, if it is tracked. `workspace` is what the
    /// layout knows of the workspace that the window is on.
    pub fn update_toplevel(
        &mut self,
        mapped: &MappedWindow,
        workspace: Option<&WindowWorkspace>,
    ) -> (event: Option<ToplevelUpdated>)
        ensures
            final(self)@ == model::with_update(
                old(self)@,
                mapped@,
                toplevel::option_workspace(workspace),
            ),
            match event {
                Some(event) => model::tracked_toplevel(old(self)@, mapped@) is Some
                    && mapped@.session_ref == Some(event.session_ref@),
                None => model::tracked_toplevel(old(self)@, mapped@) is None,
            },
            event is Some <==> (mapped.session_ref matches Some(session_ref) && old(self)@.contains_key(session_ref.session_id@) && old(self)@[session_ref.session_id@].sessions.contains_key(session_ref.toplevel_id@)),
            event is None ==> final(self)@ == old(self)@,
            event matches Some(update) ==> {
                let session_ref = mapped.session_ref->0;
                let id = session_ref.session_id@;
                let name = session_ref.toplevel_id@;
                let state = final(self)@[id].sessions[name];
                &&& update.session_ref.session_id@ == id
                &&& update.session_ref.toplevel_id@ == name
                &&& update.session_ref@ == session_ref@
                &&& final(self)@.contains_key(id)
                &&& final(self)@[id].sessions.contains_key(name)
                &&& workspace is None ==> state == old(self)@[id].sessions[name]
                &&& workspace matches Some(seen) ==> {
                    &&& seen.name matches Some(text) ==> state.workspace == Some(
                        ToplevelSessionWorkspaceView::Named(text@),
                    )
                    &&& seen.name is None ==> state.workspace == Some(
                        ToplevelSessionWorkspaceView::Unnamed(seen.id),
                    )
                    &&& mapped.is_floating ==> state.attributes == Some(
                        (WindowAttributes::Floating {
                            width: mapped.geometry.width,
                            height: mapped.geometry.height,
                            x: mapped.geometry.x,
                            y: mapped.geometry.y,
                        }),
                    )
                    &&& !mapped.is_floating && seen.column_index is Some && seen.height is Some
                        && seen.column_width is Some && seen.is_full_width is Some
                        ==> state.attributes == Some(
                        (WindowAttributes::Scrolling {
                            column_index: seen.column_index->0,
                            width: seen.column_width->0,
                            height: seen.height->0,
                            is_full_width: seen.is_full_width->0,
                        }),
                    )
                }
            },
    {
        let session_ref = match &mapped.session_ref {
            Some(session_ref) => session_ref,
            None => {
                return None;
            },
        };
        let is_stored: bool = match self.sessions.get(&session_ref.session_id) {
            Some(session) => session.sessions.contains_key(&session_ref.toplevel_id),
            None => false,
        };
        if !is_stored {
            return None;
        }
        let ghost before = self@;
        if let Some(mut session) = self.sessions.remove(&session_ref.session_id) {
            let ghost toplevels = session@.sessions;
            if let Some(mut state) = session.sessions.remove(&session_ref.toplevel_id) {
                state.update(mapped, workspace);
                session.sessions.insert(session_ref.toplevel_id.clone(), state);
                assert(session@.sessions =~= toplevels.insert(session_ref.toplevel_id@, state@));
            }
            self.sessions.insert(session_ref.session_id.clone(), session);
            assert(self@ =~= before.insert(session_ref.session_id@, session@));
        }
        Some(ToplevelUpdated { session_ref: session_ref.clone() })
    }

    /// The given ID, if a session with it is known.
    pub fn known_session_id(&self, session_id: Option<SessionId>) -> (known: Option<SessionId>)
        ensures
            toplevel::option_text(known) == match toplevel::option_text(session_id) {
                Some(id) if self@.contains_key(id) => Some(id),
                _ => None,
            },
    {
        match session_id {
            Some(session_id) => {
                if self.session_exists(&session_id) {
                    Some(session_id)
                } else {
                    None
                }
            },
            None => None,
        }
    }

    /// The given ID, if no session with it is known.
    pub fn unused_session_id(&self, session_id: SessionId) -> (unused: Option<SessionId>)
        ensures
            toplevel::option_text(unused) == if self@.contains_key(session_id@) {
                None
            } else {
                Some(session_id@)
            },
    {
        if self.session_exists(&session_id) {
            None
        } else {
            Some(session_id)
        }
    }

    /// The first of some session IDs that is not in use, or `None` if all of them are.
    pub fn first_unused_session_id(&self, candidates: Vec<SessionId>) -> (unused: Option<SessionId>)
        ensures
            model::is_first_unused(
                self@,
                candidates@.map_values(|id: SessionId| id@),
                toplevel::option_text(unused),
            ),
            unused is None <==> forall|i: int|
                0 <= i < candidates.len() ==> self@.contains_key((#[trigger] candidates@[i])@),
            unused matches Some(id) ==> exists|i: int|
                0 <= i < candidates.len() && (#[trigger] candidates@[i])@ == id@
                    && !self@.contains_key(id@) && forall|j: int|
                    0 <= j < i ==> self@.contains_key((#[trigger] candidates@[j])@),
    {
        let ghost texts = candidates@.map_values(|id: SessionId| id@);
        let mut i: usize = 0;
        while i < candidates.len()
            invariant
                i <= candidates.len(),
                texts == candidates@.map_values(|id: SessionId| id@),
                model::all_in_use(self@, texts.take(i as int)),
                forall|j: int| 0 <= j < i ==> self@.contains_key((#[trigger] candidates@[j])@),
            decreases candidates.len() - i,
        {
            let candidate = candidates[i].clone();
            assert(texts[i as int] == candidate@);
            if let Some(unused) = self.unused_session_id(candidate) {
                assert(candidates@[i as int]@ == unused@);
                return Some(unused);
            }
            i += 1;
            assert(texts.take(i as int) =~= texts.take(i - 1).push(texts[i - 1]));
        }
        assert(texts.take(i as int) =~= texts);
        None
    }

    /// Generates random session IDs until one is found that is not in use, and returns that one.
    /// Chance decides which IDs are drawn. One call draws no more than `u64::MAX` IDs. If all of
    /// those are in use it returns `None`, and calling it again goes on with the search.
    pub fn generate_unique_session_id(&self, source: &mut IdSource) -> (session_id: Option<
        SessionId,
    >)
        ensures
            old(source).drawn().is_prefix_of(final(source).drawn()),
            session_id::all_generated(final(source).drawn_since(*old(source))),
            match session_id {
                Some(id) => ({
                    let drawn = final(source).drawn_since(*old(source));
                    &&& drawn.len() > 0
                    &&& drawn.last() == id@
                    &&& !self@.contains_key(id@)
                    &&& model::all_in_use(self@, drawn.drop_last())
                }),
                None => model::all_in_use(self@, final(source).drawn_since(*old(source)))
                    && final(source).drawn_since(*old(source)).len() == u64::MAX,
            },
            session_id matches Some(id) ==> id@.len() == 32,
            forall|i: int|
                0 <= i < final(source).drawn_since(*old(source)).len() - (if session_id is Some {
                    1int
                } else {
                    0int
                }) ==> self@.contains_key(#[trigger] final(source).drawn_since(*old(source))[i]),
            model::is_first_unused(
                self@,
                final(source).drawn_since(*old(source)),
                toplevel::option_text(session_id),
            ),
    {
        let ghost before = source.drawn();
        let ghost mut drawn: Seq<Seq<char>> = Seq::empty();
        let mut attempts: u64 = 0;
        assert(source.drawn() =~= before + drawn);
        while attempts < u64::MAX
            invariant
                before == old(source).drawn(),
                source.drawn() == before + drawn,
                drawn.len() == attempts,
                session_id::all_generated(drawn),
                model::all_in_use(self@, drawn),
            decreases u64::MAX - attempts,
        {
            let ghost earlier = drawn;
            let mut candidates: Vec<SessionId> = Vec::new();
            candidates.push(source.draw());
            let ghost id = candidates@[0]@;
            proof {
                drawn = drawn.push(id);
                assert(source.drawn() =~= before + drawn);
                assert(source.drawn().skip(before.len() as int) =~= drawn);
                assert(drawn.drop_last() =~= earlier);
                assert(drawn.take(drawn.len() - 1) =~= earlier);
                assert(candidates@.map_values(|id: SessionId| id@) =~= seq![id]);
            }
            if let Some(unused) = self.first_unused_session_id(candidates) {
                assert(drawn[drawn.len() - 1] == unused@);
                return Some(unused);
            }
            assert(seq![id][0] == id);
            attempts += 1;
        }
        assert(source.drawn().skip(before.len() as int) =~= drawn);
        None
    }

    /// Serves a request on the session manager, up to the point where the client's windows have
    /// to be looked at. An unknown session ID counts as none. Where no valid session ID was given
    /// a unique one is generated.
    pub fn manager_request(&self, request: SessionManagerRequest, source: &mut IdSource) -> (action:
        SessionManagerAction)
        ensures
            old(source).drawn().is_prefix_of(final(source).drawn()),
            session_id::all_generated(final(source).drawn_since(*old(source))),
            match request {
                SessionManagerRequest::Destroy => action is Nothing && final(source).drawn() == old(
                    source,
                ).drawn(),
                SessionManagerRequest::GetSession { session } => {
                    let requested = toplevel::option_text(session);
                    let drawn = final(source).drawn_since(*old(source));
                    match action {
                        SessionManagerAction::Nothing => false,
                        SessionManagerAction::TryAgain => model::is_chosen_id(
                            self@,
                            requested,
                            drawn,
                            None,
                        ) && drawn.len() == u64::MAX,
                        SessionManagerAction::CheckInUse { session_id } => model::is_chosen_id(
                            self@,
                            requested,
                            drawn,
                            Some(session_id@),
                        ) && (drawn.len() > 0 ==> model::all_in_use(self@, drawn.drop_last())),
                    }
                },
            },
            request is Destroy <==> action is Nothing,
            request matches SessionManagerRequest::GetSession { session: Some(asked) }
                ==> self@.contains_key(asked@) ==> action is CheckInUse && action->session_id@
                == asked@ && final(source).drawn() == old(source).drawn(),
            request matches SessionManagerRequest::GetSession { session } ==> session is None
                || !self@.contains_key(session->0@) ==> {
                let drawn = final(source).drawn_since(*old(source));
                &&& action matches SessionManagerAction::CheckInUse { session_id } ==> {
                    &&& !self@.contains_key(session_id@)
                    &&& session_id@.len() == 32
                    &&& drawn.len() > 0
                    &&& session_id@ == drawn[drawn.len() - 1]
                    &&& forall|i: int|
                        0 <= i < drawn.len() - 1 ==> self@.contains_key(#[trigger] drawn[i])
                }
                &&& action is TryAgain ==> drawn.len() == u64::MAX && forall|i: int|
                    0 <= i < drawn.len() ==> self@.contains_key(#[trigger] drawn[i])
            },
    {
        match request {
            SessionManagerRequest::Destroy => SessionManagerAction::Nothing,
            SessionManagerRequest::GetSession { session } => {
                let session_id = match self.known_session_id(session) {
                    Some(session_id) => Some(session_id),
                    None => self.generate_unique_session_id(source),
                };
                match session_id {
                    Some(session_id) => SessionManagerAction::CheckInUse { session_id },
                    None => SessionManagerAction::TryAgain,
                }
            },
        }
    }

    /// Restores the session with the given ID, or creates it. A session that a window of the
    /// client is part of is refused. `client` describes the client.
    pub fn get_session(&mut self, session_id: SessionId, in_use: bool, client: &str) -> (reply:
        GetSessionReply)
        ensures
            final(self)@ == if in_use {
                old(self)@
            } else {
                model::with_session(old(self)@, session_id@)
            },
            reply.answers(old(self)@, session_id@, in_use, client@),
            reply is InUse <==> in_use,
            reply is Restored <==> !in_use && old(self)@.contains_key(session_id@),
            reply matches GetSessionReply::InUse { message } ==> message@ == "session `"@
                + session_id@ + "` already in use by client "@ + client@,
            reply matches GetSessionReply::Restored { session } ==> session@ == old(self)@[session_id@],
            reply matches GetSessionReply::Created { session_id: created, session } ==> {
                &&& created@ == session_id@
                &&& session.session_id@ == session_id@
                &&& session@.sessions == Map::<Seq<char>, ToplevelSessionStateView>::empty()
                &&& final(self)@ == old(self)@.insert(session_id@, session@)
            },
            !(reply is Created) ==> final(self)@ == old(self)@,
    {
        if in_use {
            let mut message = "session `".to_owned();
            message.append(session_id.as_str());
            message.append("` already in use by client ");
            message.append(client);
            return GetSessionReply::InUse { message };
        }
        if let Some(session) = self.sessions.get(&session_id) {
            return GetSessionReply::Restored { session: session.clone() };
        }
        let ghost before = self@;
        let session = SessionState::new(session_id.clone());
        let copy = session.clone();
        self.sessions.insert(session_id.clone(), session);
        assert(self@ =~= before.insert(session_id@, SessionStateView::blank(session_id@)));
        GetSessionReply::Created { session_id, session: copy }
    }

    /// A toplevel of the given name and application that some session remembers.
    fn find_origin(&self, toplevel_id: &ToplevelId, app_id: &Option<AppId>) -> (state: Option<
        ToplevelSessionState,
    >)
        ensures
            match state {
                Some(state) => exists|origin: Seq<char>| #[trigger]
                    model::is_origin(
                        self@,
                        origin,
                        toplevel_id@,
                        toplevel::option_text(*app_id),
                    ) && Some(state@) == model::stored_toplevel(self@, origin, toplevel_id@),
                None => forall|origin: Seq<char>|
                    !#[trigger] model::is_origin(
                        self@,
                        origin,
                        toplevel_id@,
                        toplevel::option_text(*app_id),
                    ),
            },
            state is None ==> forall|id: Seq<char>| #[trigger]
                self@.contains_key(id) && self@[id].sessions.contains_key(toplevel_id@)
                    ==> self@[id].sessions[toplevel_id@].session_ref.app_id
                    != toplevel::option_text(*app_id),
    {
        let ghost app = toplevel::option_text(*app_id);
        let ghost ids = self.sessions.ids();
        let count: usize = self.sessions.len();
        let mut i: usize = 0;
        while i < count
            invariant
                i <= count,
                count == ids.len(),
                ids == self.sessions.ids(),
                app == toplevel::option_text(*app_id),
                forall|j: int|
                    0 <= j < i ==> !#[trigger] model::is_origin(self@, ids[j], toplevel_id@, app),
            decreases count - i,
        {
            let (id, session) = self.sessions.entry(i);
            if let Some(state) = session.sessions.get(toplevel_id) {
                if toplevel::same_option(&state.session_ref.app_id, app_id) {
                    assert(model::is_origin(self@, id@, toplevel_id@, app));
                    return Some(state.clone());
                }
            }
            i += 1;
        }
        assert forall|origin: Seq<char>|
            !#[trigger] model::is_origin(self@, origin, toplevel_id@, app) by {
            if self@.contains_key(origin) {
                assert(ids.contains(origin));
                let j = ids.index_of(origin);
                assert(!model::is_origin(self@, ids[j], toplevel_id@, app));
            }
        }
        assert forall|id: Seq<char>| #[trigger]
            self@.contains_key(id) && self@[id].sessions.contains_key(
                toplevel_id@,
            ) implies self@[id].sessions[toplevel_id@].session_ref.app_id != app by {
            assert(!model::is_origin(self@, id, toplevel_id@, app));
        }
        None
    }

    /// The state that a restored toplevel starts from, and the session that it was adopted from, if
    /// it was. `None` if the toplevel's session is not known.
    fn restored_state(&self, wanted: ToplevelSessionRef) -> (restored: Option<
        (ToplevelSessionState, Option<SessionId>),
    >)
        ensures
            match restored {
                Some((state, adopted_from)) => {
                    &&& self@.contains_key(wanted@.session_id)
                    &&& model::restores_to(self@, wanted@, state@)
                    &&& model::is_adopted_from(
                        self@,
                        wanted@,
                        state@,
                        toplevel::option_text(adopted_from),
                    )
                },
                None => !self@.contains_key(wanted@.session_id),
            },
    {
        let session = match self.sessions.get(&wanted.session_id) {
            Some(session) => session,
            None => {
                return None;
            },
        };
        // First, try to get state from current session.
        if let Some(state) = session.sessions.get(&wanted.toplevel_id) {
            return Some((state.clone(), None));
        }
        // If it doesn't exist, see if there's an old session we can restore this toplevel from.
        // It has to be from the same app, to avoid toplevel ID conflicts.

        match self.find_origin(&wanted.toplevel_id, &wanted.app_id) {
            Some(mut state) => {
                // Replace the session reference to adopt it into the current session.
                let ghost old_state = state@;
                let adopted_from = state.session_ref.session_id.clone();
                state.session_ref.session_id = wanted.session_id;
                assert(state@ == model::adopted(old_state, wanted@.session_id));
                Some((state, Some(adopted_from)))
            },
            // Otherwise, start with a blank slate.
            None => Some((ToplevelSessionState::new(wanted), None)),
        }
    }

    /// Adds a toplevel to a session, or restores it from there. `data` is the session that the
    /// request was made on, `toplevel` what is known of the window behind the toplevel, or `None`
    /// if the toplevel does not exist.
    pub fn add_toplevel(
        &mut self,
        is_restoring: bool,
        data: &SessionState,
        toplevel: Option<ToplevelWindow>,
        toplevel_id: ToplevelId,
    ) -> (reply: AddToplevelReply)
        ensures
            ({
                let request = ToplevelRequestView {
                    is_restoring,
                    session_id: data@.session_id,
                    toplevel_id: toplevel_id@,
                    toplevel: option_window(toplevel),
                };
                &&& reply.answers(request, old(self)@)
                &&& final(self)@ == request.store_after(old(self)@)
            }),
            reply is InvalidToplevel <==> toplevel is None,
            reply is NotUnmapped <==> toplevel is Some && toplevel->0.unmapped is None,
            reply is UnknownSession ==> !old(self)@.contains_key(data.session_id@),
            reply matches AddToplevelReply::Attached { session, .. } ==> {
                let id = data.session_id@;
                &&& session.is_restoring == is_restoring
                &&& old(self)@.contains_key(id)
                &&& !is_restoring ==> {
                    &&& session.state.session_ref.session_id@ == id
                    &&& session.state.session_ref.toplevel_id@ == toplevel_id@
                    &&& session.state.workspace is None
                    &&& session.state.attributes is None
                    &&& final(self)@[id].sessions.contains_key(toplevel_id@)
                    &&& final(self)@[id].sessions[toplevel_id@] == session.state@
                }
                &&& is_restoring && old(self)@[id].sessions.contains_key(toplevel_id@)
                    ==> session.state@ == old(self)@[id].sessions[toplevel_id@]
            },
            is_restoring || !(reply is Attached) ==> final(self)@ == old(self)@,
    {
        let op_name = if is_restoring {
            "restore"
        } else {
            "add"
        };
        let window = match toplevel {
            Some(window) => window,
            None => {
                return AddToplevelReply::InvalidToplevel;
            },
        };
        let unmapped = match window.unmapped {
            Some(unmapped) => unmapped,
            None => {
                return AddToplevelReply::NotUnmapped;
            },
        };
        let new_session_ref = ToplevelSessionRef {
            session_id: data.session_id.clone(),
            toplevel_id: toplevel_id.clone(),
            app_id: unmapped.app_id,
        };
        let already_present: bool = match &unmapped.session {
            Some(session) => session.state.session_ref == new_session_ref,
            None => false,
        };
        if already_present {
            let mut message = "cannot ".to_owned();
            message.append(op_name);
            message.append(": toplevel `");
            message.append(toplevel_id.as_str());
            message.append("` is already present in session");
            return AddToplevelReply::NameInUse { message };
        }
        if let Some(description) = window.mapped_as {
            let mut message = "cannot ".to_owned();
            message.append(op_name);
            message.append(": toplevel ");
            message.append(description.as_str());
            message.append(" was already mapped when restored");
            return AddToplevelReply::AlreadyMapped { message };
        }
        // We may either create a new toplevel session state, or fetch an existing one.

        let (state, adopted_from) = if is_restoring {
            match self.restored_state(new_session_ref) {
                Some(restored) => restored,
                None => {
                    return AddToplevelReply::UnknownSession;
                },
            }
        } else {
            let ghost before = self@;
            let mut session = match self.sessions.remove(&data.session_id) {
                Some(session) => session,
                None => {
                    assert(self@ =~= before);
                    return AddToplevelReply::UnknownSession;
                },
            };
            let ghost toplevels = session@.sessions;
            let state = ToplevelSessionState::new(new_session_ref);
            session.sessions.insert(toplevel_id, state.clone());
            assert(session@.sessions =~= toplevels.insert(toplevel_id@, state@));
            self.sessions.insert(data.session_id.clone(), session);
            assert(self@ =~= before.insert(data.session_id@, session@));
            (state, None)
        };
        AddToplevelReply::Attached {
            session: ToplevelSession { state, is_restoring },
            adopted_from,
        }
    }

    /// Removes a session. Returns the references of the toplevels that it remembered.
    pub fn remove_session(&mut self, session_id: &SessionId) -> (toplevels: Vec<ToplevelSessionRef>)
        ensures
            final(self)@ == old(self)@.remove(session_id@),
            if old(self)@.contains_key(session_id@) {
                are_refs_of(toplevels@, old(self)@[session_id@].sessions)
            } else {
                toplevels@.len() == 0
            },
            old(self)@.contains_key(session_id@) ==> {
                &&& forall|name: Seq<char>|
                    #![trigger old(self)@[session_id@].sessions.contains_key(name)]
                    old(self)@[session_id@].sessions.contains_key(name) ==> exists|i: int|
                        0 <= i < toplevels@.len() && (#[trigger] toplevels@[i])@ == old(self)@[session_id@].sessions[name].session_ref
                &&& old(self)@[session_id@].sessions.dom().finite()
                &&& toplevels@.len() == old(self)@[session_id@].sessions.dom().len()
            },
    {
        let ghost before = self@;
        let mut refs: Vec<ToplevelSessionRef> = Vec::new();
        if let Some(session) = self.sessions.remove(session_id) {
            let ghost names = session.sessions.ids();
            let count: usize = session.sessions.len();
            let mut i: usize = 0;
            while i < count
                invariant
                    i <= count,
                    count == names.len(),
                    names == session.sessions.ids(),
                    refs@.len() == i,
                    forall|name: Seq<char>| #[trigger]
                        names.contains(name) <==> session.sessions@.contains_key(name),
                    forall|j: int|
                        0 <= j < i ==> (#[trigger] refs@[j])@
                            == session@.sessions[names[j]].session_ref,
                decreases count - i,
            {
                let (_, state) = session.sessions.entry(i);
                refs.push(state.get_ref());
                i += 1;
            }
            assert(are_refs_in_order(refs@, session@.sessions, names));
        }
        assert(self@ =~= before.remove(session_id@));
        proof {
            if before.contains_key(session_id@) {
                effects::every_toplevel_leaves_its_reference(
                    refs@,
                    before[session_id@].sessions,
                );
            }
        }
        refs
    }

    /// Removes a toplevel from its session.
    pub fn remove_toplevel(&mut self, session_ref: &ToplevelSessionRef)
        ensures
            final(self)@ == model::without_toplevel(
                old(self)@,
                session_ref@.session_id,
                session_ref@.toplevel_id,
            ),
            final(self)@.contains_key(session_ref.session_id@) ==> !final(self)@[session_ref.session_id@].sessions.contains_key(session_ref.toplevel_id@),
    {
        let ghost before = self@;
        if let Some(mut session) = self.sessions.remove(&session_ref.session_id) {
            let ghost toplevels = session@.sessions;
            let _ = session.sessions.remove(&session_ref.toplevel_id);
            assert(session@.sessions =~= toplevels.remove(session_ref.toplevel_id@));
            self.sessions.insert(session_ref.session_id.clone(), session);
            assert(self@ =~= before.insert(session_ref.session_id@, session@));
        } else {
            assert(self@ =~= before);
        }
    }

    /// Serves a request on a session. `data` is the session that the request was made on.
    pub fn session_request(&mut self, data: &SessionState, request: SessionRequest) -> (reply:
        SessionReply)
        ensures
            match request {
                SessionRequest::Destroy => reply is Nothing && final(self)@ == old(self)@,
                SessionRequest::Remove => final(self)@ == old(self)@.remove(data@.session_id)
                    && match reply {
                    SessionReply::Removed { toplevels } => if old(self)@.contains_key(
                        data@.session_id,
                    ) {
                        are_refs_of(toplevels@, old(self)@[data@.session_id].sessions)
                    } else {
                        toplevels@.len() == 0
                    },
                    _ => false,
                },
                SessionRequest::AddToplevel { toplevel, name } => {
                    let asked = ToplevelRequestView {
                        is_restoring: false,
                        session_id: data@.session_id,
                        toplevel_id: name@,
                        toplevel: option_window(toplevel),
                    };
                    &&& final(self)@ == asked.store_after(old(self)@)
                    &&& match reply {
                        SessionReply::Toplevel { reply } => reply.answers(asked, old(self)@),
                        _ => false,
                    }
                },
                SessionRequest::RestoreToplevel { toplevel, name } => {
                    let asked = ToplevelRequestView {
                        is_restoring: true,
                        session_id: data@.session_id,
                        toplevel_id: name@,
                        toplevel: option_window(toplevel),
                    };
                    &&& final(self)@ == asked.store_after(old(self)@)
                    &&& match reply {
                        SessionReply::Toplevel { reply } => reply.answers(asked, old(self)@),
                        _ => false,
                    }
                },
            },
            reply matches SessionReply::Toplevel {
                reply: AddToplevelReply::Attached { session, .. },
            } ==> session.is_restoring == (request is RestoreToplevel),
            request is Remove <==> reply is Removed,
            request is Remove && old(self)@.contains_key(data.session_id@) ==> reply->toplevels@.len()
                == old(self)@[data.session_id@].sessions.dom().len(),
            request is Remove && old(self)@.contains_key(data.session_id@) ==> forall|
                name: Seq<char>,
            |
                #![trigger old(self)@[data.session_id@].sessions.contains_key(name)]
                old(self)@[data.session_id@].sessions.contains_key(name) ==> exists|i: int|
                    0 <= i < reply->toplevels@.len() && (#[trigger] reply->toplevels@[i])@
                        == old(self)@[data.session_id@].sessions[name].session_ref,
    {
        match request {
            SessionRequest::Destroy => SessionReply::Nothing,
            SessionRequest::Remove => {
                let toplevels = self.remove_session(&data.session_id);
                SessionReply::Removed { toplevels }
            },
            SessionRequest::AddToplevel { toplevel, name } => SessionReply::Toplevel {
                reply: self.add_toplevel(false, data, toplevel, name),
            },
            SessionRequest::RestoreToplevel { toplevel, name } => SessionReply::Toplevel {
                reply: self.add_toplevel(true, data, toplevel, name),
            },
        }
    }

    /// Serves a request on a toplevel session. `data` is the state that it was created with.
    pub fn toplevel_request(&mut self, data: &ToplevelSessionState, request: ToplevelSessionRequest)
        ensures
            final(self)@ == match request {
                ToplevelSessionRequest::Destroy => old(self)@,
                ToplevelSessionRequest::Remove => model::without_toplevel(
                    old(self)@,
                    data@.session_ref.session_id,
                    data@.session_ref.toplevel_id,
                ),
            },
    {
        match request {
            ToplevelSessionRequest::Destroy => {},
            ToplevelSessionRequest::Remove => {
                self.remove_toplevel(&data.session_ref);
            },
        }
    }
}

} // verus!
