use crate::binary64::Binary64;
use crate::effects;
use crate::id_map::IdMap;
use crate::manager::{
    AddToplevelReply, GetSessionReply, SessionManagerAction, SessionManagerRequest,
    SessionManagerState, SessionReply, SessionRequest, ToplevelSessionRequest, ToplevelWindow,
};
use crate::schedule;
use crate::schedule::{LoopAction, LoopEvent};
use crate::session::SessionState;
use crate::session_id::IdSource;
use crate::storage;
use crate::storage::{LoadDecision, LoadOutcome};
use crate::toplevel::{
    FloatingPosition, InitialWidth, MappedWindow, PresetSize, RelativeTo, SessionId,
    ToplevelId, ToplevelSession, ToplevelSessionRef, ToplevelSessionRefView, ToplevelSessionState,
    ToplevelSessionStateView, ToplevelSessionWorkspace, ToplevelSessionWorkspaceView,
    ToplevelUpdated, WindowAttributes, WindowHeight, WindowWorkspace,
};
use vstd::prelude::*;

verus! {

// What holds of the calls themselves: of the arguments, of what is stored before and after, and of
// what comes back.

/// A call of `update_toplevel` for a window whose reference names a stored toplevel, whatever the
/// window's geometry, reports the update, and the toplevel's workspace and location are then what
/// was seen. For any other window nothing is reported and nothing changes.
pub proof fn update_is_recorded_and_reported(
    mapped: MappedWindow,
    workspace: Option<&WindowWorkspace>,
    event: Option<ToplevelUpdated>,
)
    ensures
        forall|manager: &mut SessionManagerState| #[trigger]
            call_ensures(
                SessionManagerState::update_toplevel,
                (manager, &mapped, workspace),
                event,
            ) ==> ({
                let before = (*manager)@;
                let after = (*final(manager))@;
                let id = mapped.session_ref->0.session_id@;
                let name = mapped.session_ref->0.toplevel_id@;
                let is_stored = mapped.session_ref is Some && before.contains_key(id)
                    && before[id].sessions.contains_key(name);
                &&& !is_stored ==> event is None && after == before
                &&& is_stored ==> {
                    let state = after[id].sessions[name];
                    &&& event is Some
                    &&& event->0.session_ref.session_id@ == id
                    &&& event->0.session_ref.toplevel_id@ == name
                    &&& after.contains_key(id)
                    &&& after[id].sessions.contains_key(name)
                    &&& state.session_ref == before[id].sessions[name].session_ref
                    &&& workspace is None ==> after[id].sessions[name] == before[id].sessions[name]
                    &&& workspace matches Some(seen) ==> {
                        &&& seen.name matches Some(text) ==> state.workspace == Some(
                            ToplevelSessionWorkspaceView::Named(text@),
                        )
                        &&& seen.name is None ==> state.workspace == Some(
                            ToplevelSessionWorkspaceView::Unnamed(seen.id),
                        )
                        &&& mapped.is_floating ==> state.attributes == Some(
                            WindowAttributes::Floating {
                                width: mapped.geometry.width,
                                height: mapped.geometry.height,
                                x: mapped.geometry.x,
                                y: mapped.geometry.y,
                            },
                        )
                        &&& !mapped.is_floating && seen.column_index is Some && seen.height is Some
                            && seen.column_width is Some && seen.is_full_width is Some
                            ==> state.attributes == Some(
                            WindowAttributes::Scrolling {
                                column_index: seen.column_index->0,
                                width: seen.column_width->0,
                                height: seen.height->0,
                                is_full_width: seen.is_full_width->0,
                            },
                        )
                        &&& !mapped.is_floating && (seen.column_index is None || seen.height is None
                            || seen.column_width is None || seen.is_full_width is None)
                            ==> state.attributes == before[id].sessions[name].attributes
                    }
                }
            }),
{
}

/// A call of `update_toplevel` leaves every other toplevel as it was, and every session where it
/// was.
pub proof fn update_leaves_the_rest(
    mapped: MappedWindow,
    workspace: Option<&WindowWorkspace>,
    event: Option<ToplevelUpdated>,
    id: Seq<char>,
    name: Seq<char>,
)
    ensures
        forall|manager: &mut SessionManagerState| #[trigger]
            call_ensures(
                SessionManagerState::update_toplevel,
                (manager, &mapped, workspace),
                event,
            ) ==> ({
                let before = (*manager)@;
                let after = (*final(manager))@;
                &&& after.contains_key(id) <==> before.contains_key(id)
                &&& before.contains_key(id) ==> {
                    &&& after[id].session_id == before[id].session_id
                    &&& after[id].sessions.contains_key(name)
                        <==> before[id].sessions.contains_key(name)
                    &&& before[id].sessions.contains_key(name) && !(mapped.session_ref is Some
                        && mapped.session_ref->0.session_id@ == id
                        && mapped.session_ref->0.toplevel_id@ == name)
                        ==> after[id].sessions[name] == before[id].sessions[name]
                }
            }),
{
}

/// A call of `get_session` for a session that is in use is refused, stored or not, and changes
/// nothing. Otherwise a stored session is handed out as it is stored, and one that is not stored
/// is created without toplevels, and stored.
pub proof fn session_in_use_is_never_handed_out(
    session_id: SessionId,
    in_use: bool,
    client: &str,
    reply: GetSessionReply,
)
    ensures
        forall|manager: &mut SessionManagerState| #[trigger]
            call_ensures(
                SessionManagerState::get_session,
                (manager, session_id, in_use, client),
                reply,
            ) ==> ({
                let before = (*manager)@;
                let after = (*final(manager))@;
                let id = session_id@;
                &&& in_use ==> {
                    &&& reply is InUse
                    &&& reply->message@ == "session `"@ + id + "` already in use by client "@
                        + client@
                    &&& after == before
                }
                &&& !in_use && before.contains_key(id) ==> {
                    &&& reply matches GetSessionReply::Restored { session }
                    &&& session.session_id@ == before[id].session_id
                    &&& session@ == before[id]
                    &&& after == before
                }
                &&& !in_use && !before.contains_key(id) ==> {
                    &&& reply matches GetSessionReply::Created { session_id: created, session }
                    &&& created@ == id
                    &&& session.session_id@ == id
                    &&& session@.sessions.dom().is_empty()
                    &&& after == before.insert(id, session@)
                }
            }),
{
    assert(Map::<Seq<char>, ToplevelSessionStateView>::empty().dom().is_empty());
}

/// A call of `add_toplevel` that attaches a toplevel flags it as restored if and only if it was
/// to be restored, for every application. An added one starts blank, and is stored so under its
/// name. Restoring stores nothing.
pub proof fn only_restored_toplevels_are_flagged(
    is_restoring: bool,
    data: SessionState,
    toplevel: Option<ToplevelWindow>,
    toplevel_id: ToplevelId,
    reply: AddToplevelReply,
)
    ensures
        forall|manager: &mut SessionManagerState| #[trigger]
            call_ensures(
                SessionManagerState::add_toplevel,
                (manager, is_restoring, &data, toplevel, toplevel_id),
                reply,
            ) ==> ({
                let before = (*manager)@;
                let after = (*final(manager))@;
                let id = data.session_id@;
                let name = toplevel_id@;
                &&& !(reply is Attached) || is_restoring ==> after == before
                &&& reply matches AddToplevelReply::Attached { session, .. } ==> {
                    &&& session.is_restoring == is_restoring
                    &&& before.contains_key(id)
                    &&& is_restoring && before[id].sessions.contains_key(name) ==> session.state@
                        == before[id].sessions[name]
                    &&& !is_restoring ==> {
                        &&& session.state.session_ref.session_id@ == id
                        &&& session.state.session_ref.toplevel_id@ == name
                        &&& session.state.workspace is None
                        &&& session.state.attributes is None
                        &&& after[id].sessions.contains_key(name)
                        &&& after[id].sessions[name] == session.state@
                    }
                }
            }),
{
}

/// A call of `add_toplevel` refuses a toplevel that does not exist, one that has no unmapped
/// window, one whose window has this very toplevel session already, one that is mapped, and one
/// for a session that is not stored. It attaches every other one.
pub proof fn toplevel_is_attached_unless_refused(
    is_restoring: bool,
    data: SessionState,
    toplevel: Option<ToplevelWindow>,
    toplevel_id: ToplevelId,
    reply: AddToplevelReply,
)
    ensures
        forall|manager: &mut SessionManagerState| #[trigger]
            call_ensures(
                SessionManagerState::add_toplevel,
                (manager, is_restoring, &data, toplevel, toplevel_id),
                reply,
            ) ==> ({
                let before = (*manager)@;
                let unmapped = toplevel->0.unmapped->0;
                let app_id = unmapped.app_id;
                let present = unmapped.session->0.state.session_ref;
                let exists_unmapped = toplevel is Some && toplevel->0.unmapped is Some;
                let is_present = unmapped.session is Some && present.session_id@ == data.session_id@
                    && present.toplevel_id@ == toplevel_id@ && (present.app_id is None
                    <==> app_id is None) && (present.app_id is Some && app_id is Some
                    ==> present.app_id->0@ == app_id->0@);
                let is_mapped = toplevel->0.mapped_as is Some;
                let is_stored = before.contains_key(data.session_id@);
                let operation = if is_restoring {
                    "restore"@
                } else {
                    "add"@
                };
                &&& reply is InvalidToplevel <==> toplevel is None
                &&& reply is NotUnmapped <==> toplevel is Some && toplevel->0.unmapped is None
                &&& reply is NameInUse <==> exists_unmapped && is_present
                &&& reply is AlreadyMapped <==> exists_unmapped && !is_present && is_mapped
                &&& reply is UnknownSession <==> exists_unmapped && !is_present && !is_mapped
                    && !is_stored
                &&& reply is Attached <==> exists_unmapped && !is_present && !is_mapped && is_stored
                &&& reply matches AddToplevelReply::NameInUse { message } ==> message@ == "cannot "@
                    + operation + ": toplevel `"@ + toplevel_id@
                    + "` is already present in session"@
                &&& reply matches AddToplevelReply::AlreadyMapped { message } ==> message@
                    == "cannot "@ + operation + ": toplevel "@ + toplevel->0.mapped_as->0@
                    + " was already mapped when restored"@
            }),
{
}

/// A call of `add_toplevel` that restores a toplevel which its own session does not remember
/// takes over what another session remembers of a toplevel of this name and of the window's
/// application, as soon as one does, whatever its workspace and location.
pub proof fn toplevel_is_adopted_from_its_application(
    data: SessionState,
    toplevel: Option<ToplevelWindow>,
    toplevel_id: ToplevelId,
    session: ToplevelSession,
    adopted_from: Option<SessionId>,
    known: Seq<char>,
)
    ensures
        forall|manager: &mut SessionManagerState| #[trigger]
            call_ensures(
                SessionManagerState::add_toplevel,
                (manager, true, &data, toplevel, toplevel_id),
                AddToplevelReply::Attached { session, adopted_from },
            ) ==> ({
                let before = (*manager)@;
                let name = toplevel_id@;
                let app_id = toplevel->0.unmapped->0@.app_id;
                &&& !before[data.session_id@].sessions.contains_key(name) && before.contains_key(
                    known,
                ) && before[known].sessions.contains_key(name)
                    && before[known].sessions[name].session_ref.app_id == app_id
                    ==> exists|origin: Seq<char>|
                    #![trigger (*manager)@.contains_key(origin)]
                    before.contains_key(origin) && before[origin].sessions.contains_key(name)
                        && before[origin].sessions[name].session_ref.app_id == app_id
                        && session.state@.workspace == before[origin].sessions[name].workspace
                        && session.state@.attributes == before[origin].sessions[name].attributes
                        && adopted_from is Some && adopted_from->0@
                        == before[origin].sessions[name].session_ref.session_id
                &&& !before[data.session_id@].sessions.contains_key(name) && (forall|id: Seq<char>|
                    #![trigger (*manager)@.contains_key(id)]
                    before.contains_key(id) && before[id].sessions.contains_key(name)
                        ==> before[id].sessions[name].session_ref.app_id != app_id) ==> {
                    &&& session.state.workspace is None
                    &&& session.state.attributes is None
                    &&& adopted_from is None
                }
                &&& before[data.session_id@].sessions.contains_key(name) ==> adopted_from is None
            }),
{
    assert forall|manager: &mut SessionManagerState| #[trigger]
        call_ensures(
            SessionManagerState::add_toplevel,
            (manager, true, &data, toplevel, toplevel_id),
            AddToplevelReply::Attached { session, adopted_from },
        ) implies ({
        let before = (*manager)@;
        let name = toplevel_id@;
        let app_id = toplevel->0.unmapped->0@.app_id;
        &&& !before[data.session_id@].sessions.contains_key(name) && before.contains_key(known)
            && before[known].sessions.contains_key(name)
            && before[known].sessions[name].session_ref.app_id == app_id ==> exists|
            origin: Seq<char>,
        |
            #![trigger (*manager)@.contains_key(origin)]
            before.contains_key(origin) && before[origin].sessions.contains_key(name)
                && before[origin].sessions[name].session_ref.app_id == app_id
                && session.state@.workspace == before[origin].sessions[name].workspace
                && session.state@.attributes == before[origin].sessions[name].attributes
                && adopted_from is Some && adopted_from->0@
                == before[origin].sessions[name].session_ref.session_id
        &&& !before[data.session_id@].sessions.contains_key(name) && (forall|id: Seq<char>|
            #![trigger (*manager)@.contains_key(id)]
            before.contains_key(id) && before[id].sessions.contains_key(name)
                ==> before[id].sessions[name].session_ref.app_id != app_id) ==> {
            &&& session.state.workspace is None
            &&& session.state.attributes is None
            &&& adopted_from is None
        }
        &&& before[data.session_id@].sessions.contains_key(name) ==> adopted_from is None
    }) by {
        let before = (*manager)@;
        let name = toplevel_id@;
        let wanted = ToplevelSessionRefView {
            session_id: data.session_id@,
            toplevel_id: name,
            app_id: toplevel->0.unmapped->0@.app_id,
        };
        let from = match adopted_from {
            Some(id) => Some(id@),
            None => None,
        };
        if !before[data.session_id@].sessions.contains_key(name) {
            if before.contains_key(known) && before[known].sessions.contains_key(name)
                && before[known].sessions[name].session_ref.app_id == wanted.app_id {
                effects::other_session_is_adopted_from(before, wanted, known, session.state@, from);
            }
            if forall|id: Seq<char>| #[trigger]
                before.contains_key(id) && before[id].sessions.contains_key(name)
                    ==> before[id].sessions[name].session_ref.app_id != wanted.app_id {
                effects::unheard_of_toplevel_starts_blank(before, wanted, session.state@, from);
            }
        }
    }
}

/// What a session is for: a window of a stored toplevel is looked at, and then the toplevel is
/// restored from its session. It starts on the workspace and at the place where it was seen.
pub proof fn restored_window_returns_to_its_place(
    mapped: MappedWindow,
    seen: WindowWorkspace,
    event: Option<ToplevelUpdated>,
    data: SessionState,
    toplevel: Option<ToplevelWindow>,
    toplevel_id: ToplevelId,
    session: ToplevelSession,
    adopted_from: Option<SessionId>,
)
    requires
        mapped.session_ref is Some,
        mapped.session_ref->0.session_id@ == data.session_id@,
        mapped.session_ref->0.toplevel_id@ == toplevel_id@,
    ensures
        forall|looking: &mut SessionManagerState, restoring: &mut SessionManagerState|
            #![trigger call_ensures(
                SessionManagerState::update_toplevel,
                (looking, &mapped, Some(&seen)),
                event,
            ), call_ensures(
                SessionManagerState::add_toplevel,
                (restoring, true, &data, toplevel, toplevel_id),
                AddToplevelReply::Attached { session, adopted_from },
            )]
            call_ensures(
                SessionManagerState::update_toplevel,
                (looking, &mapped, Some(&seen)),
                event,
            ) && call_ensures(
                SessionManagerState::add_toplevel,
                (restoring, true, &data, toplevel, toplevel_id),
                AddToplevelReply::Attached { session, adopted_from },
            ) && (*restoring)@ == (*final(looking))@ && (*looking)@.contains_key(data.session_id@)
                && (*looking)@[data.session_id@].sessions.contains_key(toplevel_id@) ==> {
                &&& session.is_restoring
                &&& seen.name matches Some(text) ==> session.state@.workspace == Some(
                    ToplevelSessionWorkspaceView::Named(text@),
                )
                &&& seen.name is None ==> session.state@.workspace == Some(
                    ToplevelSessionWorkspaceView::Unnamed(seen.id),
                )
                &&& mapped.is_floating ==> session.state.attributes == Some(
                    WindowAttributes::Floating {
                        width: mapped.geometry.width,
                        height: mapped.geometry.height,
                        x: mapped.geometry.x,
                        y: mapped.geometry.y,
                    },
                )
                &&& !mapped.is_floating && seen.column_index is Some && seen.height is Some
                    && seen.column_width is Some && seen.is_full_width is Some
                    ==> session.state.attributes == Some(
                    WindowAttributes::Scrolling {
                        column_index: seen.column_index->0,
                        width: seen.column_width->0,
                        height: seen.height->0,
                        is_full_width: seen.is_full_width->0,
                    },
                )
            },
{
}

/// A call of `remove_session` hands out the references of all toplevels of the session, whatever
/// is remembered of them, as many as there are. The session is gone then, and no other.
pub proof fn removing_hands_out_all_references(
    session_id: SessionId,
    toplevels: Vec<ToplevelSessionRef>,
)
    ensures
        forall|manager: &mut SessionManagerState| #[trigger]
            call_ensures(
                SessionManagerState::remove_session,
                (manager, &session_id),
                toplevels,
            ) ==> {
                &&& (*final(manager))@ == (*manager)@.remove(session_id@)
                &&& !(*manager)@.contains_key(session_id@) ==> toplevels@.len() == 0
                &&& (*manager)@.contains_key(session_id@) ==> {
                    &&& forall|name: Seq<char>| #[trigger]
                        (*manager)@[session_id@].sessions.contains_key(name) ==> exists|i: int|
                            0 <= i < toplevels@.len() && (#[trigger] toplevels@[i])@
                                == (*manager)@[session_id@].sessions[name].session_ref
                    &&& toplevels@.len() == (*manager)@[session_id@].sessions.dom().len()
                }
            },
{
}

/// A request on a session is served by the matching call: `Destroy` changes nothing, `Remove`
/// removes the session and hands out all its references, and a toplevel is flagged as restored if
/// and only if restoring it was asked for.
pub proof fn session_requests_are_served(
    data: SessionState,
    request: SessionRequest,
    reply: SessionReply,
)
    ensures
        forall|manager: &mut SessionManagerState| #[trigger]
            call_ensures(
                SessionManagerState::session_request,
                (manager, &data, request),
                reply,
            ) ==> ({
                let before = (*manager)@;
                let after = (*final(manager))@;
                let id = data.session_id@;
                &&& request is Destroy ==> reply is Nothing && after == before
                &&& request is Remove ==> {
                    &&& reply is Removed
                    &&& after == before.remove(id)
                    &&& !before.contains_key(id) ==> reply->toplevels@.len() == 0
                    &&& before.contains_key(id) ==> {
                        &&& forall|name: Seq<char>| #[trigger]
                            (*manager)@[data.session_id@].sessions.contains_key(name) ==> exists|
                                i: int,
                            |
                                0 <= i < reply->toplevels@.len() && (
                                #[trigger] reply->toplevels@[i])@
                                    == (*manager)@[data.session_id@].sessions[name].session_ref
                        &&& reply->toplevels@.len() == before[id].sessions.dom().len()
                    }
                }
                &&& request is AddToplevel || request is RestoreToplevel ==> reply is Toplevel
                &&& reply matches SessionReply::Toplevel {
                    reply: AddToplevelReply::Attached { session, .. },
                } ==> session.is_restoring == (request is RestoreToplevel)
                &&& request is RestoreToplevel ==> after == before
                &&& request matches SessionRequest::AddToplevel { toplevel, name } ==> reply
                    matches SessionReply::Toplevel {
                    reply: AddToplevelReply::Attached { session, .. },
                } ==> {
                    &&& session.state.workspace is None
                    &&& session.state.attributes is None
                    &&& after[id].sessions.contains_key(name@)
                    &&& after[id].sessions[name@] == session.state@
                }
            }),
{
}

/// A request on a toplevel session: `Destroy` changes nothing, `Remove` takes just this toplevel
/// out of its session.
pub proof fn toplevel_requests_are_served(
    data: ToplevelSessionState,
    request: ToplevelSessionRequest,
    id: Seq<char>,
    name: Seq<char>,
)
    ensures
        forall|manager: &mut SessionManagerState| #[trigger]
            call_ensures(
                SessionManagerState::toplevel_request,
                (manager, &data, request),
                (),
            ) ==> ({
                let before = (*manager)@;
                let after = (*final(manager))@;
                let is_this = id == data.session_ref.session_id@ && name
                    == data.session_ref.toplevel_id@;
                &&& request is Destroy ==> after == before
                &&& after.contains_key(id) <==> before.contains_key(id)
                &&& before.contains_key(id) ==> {
                    &&& after[id].session_id == before[id].session_id
                    &&& request is Remove ==> (after[id].sessions.contains_key(name)
                        <==> before[id].sessions.contains_key(name) && !is_this)
                    &&& after[id].sessions.contains_key(name) ==> after[id].sessions[name]
                        == before[id].sessions[name]
                }
            }),
{
}

/// A session exists if it is stored. An ID is known if a session is stored under it, else it is
/// unused.
pub proof fn ids_are_known_or_unused(
    manager: SessionManagerState,
    session_id: SessionId,
    exists_already: bool,
    known: Option<SessionId>,
    unused: Option<SessionId>,
)
    ensures
        call_ensures(SessionManagerState::session_exists, (&manager, &session_id), exists_already)
            ==> exists_already == manager@.contains_key(session_id@),
        call_ensures(SessionManagerState::known_session_id, (&manager, Some(session_id)), known)
            ==> (known is Some <==> manager@.contains_key(session_id@)) && (known is Some
            ==> known->0@ == session_id@),
        call_ensures(SessionManagerState::known_session_id, (&manager, None), known)
            ==> known is None,
        call_ensures(SessionManagerState::unused_session_id, (&manager, session_id), unused) ==> (
        unused is Some <==> !manager@.contains_key(session_id@)) && (unused is Some
            ==> unused->0@ == session_id@),
{
}

/// The first candidate that no session is stored under is found, and nothing else.
pub proof fn first_free_candidate_is_found(
    manager: SessionManagerState,
    candidates: Vec<SessionId>,
    unused: Option<SessionId>,
    i: int,
)
    requires
        call_ensures(
            SessionManagerState::first_unused_session_id,
            (&manager, candidates),
            unused,
        ),
    ensures
        0 <= i < candidates@.len() && !manager@.contains_key(candidates@[i]@) && (forall|j: int|
            0 <= j < i ==> manager@.contains_key((#[trigger] candidates@[j])@)) ==> unused is Some
            && unused->0@ == candidates@[i]@,
        (forall|j: int|
            0 <= j < candidates@.len() ==> manager@.contains_key((#[trigger] candidates@[j])@))
            ==> unused is None,
{
    if 0 <= i < candidates@.len() && !manager@.contains_key(candidates@[i]@) && (forall|j: int|
        0 <= j < i ==> manager@.contains_key((#[trigger] candidates@[j])@)) {
        assert(unused is Some);
        let k = choose|k: int|
            0 <= k < candidates@.len() && (#[trigger] candidates@[k])@ == unused->0@
                && !manager@.contains_key(unused->0@) && forall|j: int|
                0 <= j < k ==> manager@.contains_key((#[trigger] candidates@[j])@);
        if i < k {
            assert(manager@.contains_key(candidates@[i]@));
        } else if k < i {
            assert(manager@.contains_key(candidates@[k]@));
        }
    }
}

/// Whoever asks for a stored session is given its ID, and nothing is drawn. Everyone else is given
/// the ID that was drawn last, of 32 characters, under which no session is stored while one is
/// stored under every ID drawn before it. The search pauses only after `u64::MAX` draws in vain.
pub proof fn stored_or_fresh_id_is_given(
    manager: SessionManagerState,
    session: Option<SessionId>,
    action: SessionManagerAction,
)
    ensures
        forall|source: &mut IdSource| #[trigger]
            call_ensures(
                SessionManagerState::manager_request,
                (&manager, SessionManagerRequest::GetSession { session }, source),
                action,
            ) ==> ({
                let drawn = (*final(source)).drawn().skip((*source).drawn().len() as int);
                let is_stored = session is Some && manager@.contains_key(session->0@);
                &&& !(action is Nothing)
                &&& is_stored ==> {
                    &&& action is CheckInUse
                    &&& action->session_id@ == session->0@
                    &&& (*final(source)).drawn() == (*source).drawn()
                }
                &&& !is_stored && action is CheckInUse ==> {
                    &&& !manager@.contains_key(action->session_id@)
                    &&& action->session_id@.len() == 32
                    &&& drawn.len() > 0
                    &&& action->session_id@ == drawn.last()
                }
                &&& !is_stored && action is TryAgain ==> drawn.len() == u64::MAX
                &&& !is_stored ==> forall|i: int|
                    #![trigger (*final(source)).drawn().skip((*source).drawn().len() as int)[i]]
                    0 <= i < drawn.len() - 1 ==> manager@.contains_key(
                        (*final(source)).drawn().skip((*source).drawn().len() as int)[i],
                    )
            }),
        forall|source: &mut IdSource| #[trigger]
            call_ensures(
                SessionManagerState::manager_request,
                (&manager, SessionManagerRequest::Destroy, source),
                action,
            ) ==> action is Nothing && (*final(source)).drawn() == (*source).drawn(),
{
}

/// What was drawn is 32 letters and digits, and is added to what was drawn before.
pub proof fn draws_are_accounted_for(id: String, i: int)
    ensures
        forall|source: &mut IdSource| #[trigger]
            call_ensures(IdSource::draw, (source,), id) ==> {
                &&& id@.len() == 32
                &&& 0 <= i < 32 ==> 'a' <= id@[i] <= 'z' || 'A' <= id@[i] <= 'Z' || '0' <= id@[i]
                    <= '9'
                &&& (*final(source)).drawn() == (*source).drawn().push(id@)
            },
{
}

/// A new toplevel has its reference and nothing else, a new session its ID and no toplevel.
pub proof fn new_states_are_blank(
    session_ref: ToplevelSessionRef,
    state: ToplevelSessionState,
    session_id: SessionId,
    session: SessionState,
    name: Seq<char>,
)
    ensures
        call_ensures(ToplevelSessionState::new, (session_ref,), state) ==> state.session_ref
            == session_ref && state.workspace is None && state.attributes is None,
        call_ensures(SessionState::new, (session_id,), session) ==> session.session_id@
            == session_id@ && !session.sessions@.contains_key(name),
{
}

/// Copies hold what was copied.
pub proof fn copies_are_faithful(
    state: ToplevelSessionState,
    copied_state: ToplevelSessionState,
    session: ToplevelSession,
    copied_session: ToplevelSession,
    session_ref: ToplevelSessionRef,
)
    ensures
        call_ensures(ToplevelSessionState::clone, (&state,), copied_state)
            ==> copied_state.session_ref@ == state.session_ref@ && copied_state.attributes
            == state.attributes && copied_state@.workspace == state@.workspace,
        call_ensures(ToplevelSession::clone, (&session,), copied_session)
            ==> copied_session.is_restoring == session.is_restoring && copied_session.state@
            == session.state@,
        call_ensures(ToplevelSessionState::get_ref, (&state,), session_ref) ==> session_ref@
            == state.session_ref@,
{
}

/// A number of magnitude below one is cut to zero, and so is what is not a number. One of
/// magnitude of at least 2 to the power of 31 is cut to the end of the range on its side.
pub proof fn extremes_are_cut_to_range(number: Binary64, whole: i32)
    requires
        call_ensures(Binary64::truncate, (&number,), whole),
    ensures
        number.bits % 0x8000_0000_0000_0000 < 0x3FF0_0000_0000_0000 ==> whole == 0,
        number.bits % 0x8000_0000_0000_0000 > 0x7FF0_0000_0000_0000 ==> whole == 0,
        0x41E0_0000_0000_0000 <= number.bits <= 0x7FF0_0000_0000_0000 ==> whole == i32::MAX,
        0xC1E0_0000_0000_0000 <= number.bits <= 0xFFF0_0000_0000_0000 ==> whole == i32::MIN,
        whole == number.truncated(),
{
    effects::extremes_are_cut(number);
}

/// The manager starts from just the sessions that were loaded, or without any, and hands out just
/// what is stored.
pub proof fn manager_starts_from_what_was_loaded(
    loaded: IdMap<SessionState>,
    manager: SessionManagerState,
    sessions: &IdMap<SessionState>,
    id: Seq<char>,
)
    ensures
        call_ensures(SessionManagerState::new, (Some(loaded),), manager) ==> (
        manager@.contains_key(id) <==> loaded@.contains_key(id)) && (loaded@.contains_key(id)
            ==> manager@[id] == loaded@[id]@),
        call_ensures(SessionManagerState::new, (None,), manager) ==> !manager@.contains_key(id),
        call_ensures(SessionManagerState::sessions, (&manager,), sessions) ==> (
        sessions@.contains_key(id) <==> manager@.contains_key(id)) && (manager@.contains_key(id)
            ==> manager@[id] == sessions@[id]@),
{
}

/// What was loaded is kept. A file that could be read but not understood, and no other, is
/// removed.
pub proof fn only_unreadable_sessions_are_given_up(outcome: LoadOutcome, decision: LoadDecision)
    requires
        call_ensures(SessionManagerState::load_sessions, (outcome,), decision),
    ensures
        outcome matches LoadOutcome::Parsed { sessions } ==> decision.sessions == Some(sessions),
        !(outcome is Parsed) ==> decision.sessions is None,
        decision.remove_file <==> outcome is ParseFailed,
{
}

/// The user's file is taken unless only the one for all users exists, or the user can have none.
pub proof fn data_path_is_resolved(
    default_path: Option<Vec<u8>>,
    default_exists: bool,
    system_exists: bool,
    path: Vec<u8>,
    directory: Option<Vec<u8>>,
    inside: Option<Vec<u8>>,
)
    ensures
        call_ensures(
            SessionManagerState::resolve_session_data_path,
            (default_path, default_exists, system_exists),
            path,
        ) ==> {
            &&& default_path matches Some(users) ==> default_exists || !system_exists ==> path@
                == users@
            &&& default_path is None || !default_exists && system_exists ==> path@
                == storage::ascii_bytes("/etc/niri/sessions.json"@)
        },
        call_ensures(SessionManagerState::session_data_path_in, (directory,), inside) ==> {
            &&& inside is Some <==> directory is Some
            &&& directory matches Some(parent) ==> parent@.len() > 0 && parent@[parent@.len() - 1]
                != 0x2f ==> inside->0@ == parent@ + seq![0x2fu8] + storage::ascii_bytes(
                "sessions.json"@,
            )
            &&& directory matches Some(parent) ==> parent@.len() == 0 || parent@[parent@.len() - 1]
                == 0x2f ==> inside->0@ == parent@ + storage::ascii_bytes("sessions.json"@)
        },
{
}

/// The sessions are saved three seconds after an update, and the windows are looked at every ten
/// minutes.
pub proof fn events_are_served_in_time(event: LoopEvent, action: LoopAction)
    requires
        call_ensures(schedule::on_loop_event, (event,), action),
    ensures
        event is ToplevelUpdated <==> action == (LoopAction::SaveAfter { seconds: 3 }),
        event is AutoUpdateDue <==> action == (LoopAction::UpdateAndRepeatAfter { seconds: 600 }),
{
}

/// The questions on a toplevel's state are answered from what it holds of the window's place.
pub proof fn state_answers_from_its_attributes(
    state: ToplevelSessionState,
    column_index: Option<usize>,
    full_width: Option<bool>,
    floating: Option<bool>,
    position: Option<FloatingPosition>,
)
    ensures
        call_ensures(ToplevelSessionState::initial_column_index, (&state,), column_index) ==> {
            &&& column_index is Some <==> state.attributes is Some && state.attributes->0
                is Scrolling
            &&& column_index is Some ==> column_index->0 == state.attributes->0->column_index
        },
        call_ensures(ToplevelSessionState::was_full_width, (&state,), full_width) ==> {
            &&& full_width is Some <==> state.attributes is Some && state.attributes->0 is Scrolling
            &&& full_width is Some ==> full_width->0 == state.attributes->0->is_full_width
        },
        call_ensures(ToplevelSessionState::was_floating, (&state,), floating) ==> {
            &&& floating is Some <==> state.attributes is Some
            &&& floating is Some ==> floating->0 == (state.attributes->0 is Floating)
        },
        call_ensures(ToplevelSessionState::initial_floating_position, (&state,), position) ==> {
            &&& position is Some <==> state.attributes is Some && state.attributes->0 is Floating
            &&& position is Some ==> position->0.x == state.attributes->0->x && position->0.y
                == state.attributes->0->y && position->0.relative_to == RelativeTo::TopLeft
        },
{
}

/// The size that a window opens with is the one that is held of it.
pub proof fn state_answers_with_its_size(
    state: ToplevelSessionState,
    width: Option<InitialWidth>,
    height: Option<PresetSize>,
    workspace: Option<&ToplevelSessionWorkspace>,
)
    ensures
        call_ensures(ToplevelSessionState::initial_width, (&state,), width) ==> {
            &&& width is Some <==> state.attributes is Some
            &&& state.attributes matches Some(WindowAttributes::Floating { width: pixels, .. })
                ==> width == Some(InitialWidth::Fixed(pixels))
            &&& state.attributes matches Some(WindowAttributes::Scrolling { width: column, .. })
                ==> width == Some(InitialWidth::Column(column))
        },
        call_ensures(ToplevelSessionState::initial_height, (&state,), height) ==> {
            &&& height is Some <==> state.attributes is Some
            &&& state.attributes matches Some(WindowAttributes::Floating { height: pixels, .. })
                ==> height == Some(PresetSize::Fixed(pixels))
            &&& state.attributes matches Some(WindowAttributes::Scrolling { height: held, .. }) ==> {
                &&& held matches WindowHeight::Fixed(pixels) ==> height == Some(
                    PresetSize::Fixed(pixels.truncated() as i32),
                )
                &&& !(held is Fixed) ==> height == Some(
                    PresetSize::Proportion(Binary64 { bits: 0x3FF0_0000_0000_0000 }),
                )
            }
        },
        call_ensures(ToplevelSessionState::initial_workspace, (&state,), workspace) ==> {
            &&& workspace is Some <==> state.workspace is Some
            &&& workspace is Some ==> workspace->0@ == state.workspace->0@
        },
{
}

/// A toplevel session answers as its state does, and tells whether it is being restored.
pub proof fn session_answers_as_its_state(
    session: ToplevelSession,
    restoring: bool,
    session_ref: ToplevelSessionRef,
    column_index: Option<usize>,
    full_width: Option<bool>,
    floating: Option<bool>,
    width: Option<InitialWidth>,
    height: Option<PresetSize>,
    position: Option<FloatingPosition>,
    workspace: Option<&ToplevelSessionWorkspace>,
)
    ensures
        call_ensures(ToplevelSession::is_restoring, (&session,), restoring) ==> restoring
            == session.is_restoring,
        call_ensures(ToplevelSession::get_ref, (&session,), session_ref) ==> session_ref@
            == session.state.session_ref@,
        call_ensures(ToplevelSession::initial_column_index, (&session,), column_index)
            ==> column_index == session.state@.initial_column_index(),
        call_ensures(ToplevelSession::was_full_width, (&session,), full_width) ==> full_width
            == session.state@.was_full_width(),
        call_ensures(ToplevelSession::was_floating, (&session,), floating) ==> floating
            == session.state@.was_floating(),
        call_ensures(ToplevelSession::initial_width, (&session,), width) ==> width
            == session.state@.initial_width(),
        call_ensures(ToplevelSession::initial_height, (&session,), height) ==> height
            == session.state@.initial_height(),
        call_ensures(ToplevelSession::initial_floating_position, (&session,), position) ==> position
            == session.state@.initial_floating_position(),
        call_ensures(ToplevelSession::initial_workspace, (&session,), workspace) ==> {
            &&& workspace is Some <==> session.state.workspace is Some
            &&& workspace is Some ==> workspace->0@ == session.state.workspace->0@
        },
{
}

/// A map gives back for an ID what was stored for it last, and nothing for an ID that was removed.
/// Other IDs are not affected.
pub proof fn map_gives_back_what_was_stored<V>(id: String, value: V, other: Seq<char>)
    ensures
        forall|map: &mut IdMap<V>| #[trigger]
            call_ensures(IdMap::<V>::insert, (map, id, value), ()) ==> ({
                let after = (*final(map))@;
                &&& after.contains_key(id@)
                &&& after[id@] == value
                &&& other != id@ ==> (after.contains_key(other) <==> (*map)@.contains_key(other))
                &&& other != id@ && after.contains_key(other) ==> after[other] == (*map)@[other]
            }),
        forall|map: &mut IdMap<V>, removed: Option<V>| #[trigger]
            call_ensures(IdMap::<V>::remove, (map, &id), removed) ==> ({
                let after = (*final(map))@;
                &&& !after.contains_key(id@)
                &&& removed is Some <==> (*map)@.contains_key(id@)
                &&& removed is Some ==> removed->0 == (*map)@[id@]
                &&& other != id@ ==> (after.contains_key(other) <==> (*map)@.contains_key(other))
                &&& other != id@ && after.contains_key(other) ==> after[other] == (*map)@[other]
            }),
{
}

} // verus!
