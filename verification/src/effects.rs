use crate::binary64;
use crate::binary64::Binary64;
use crate::manager;
use crate::manager::{AddToplevelReply, GetSessionReply, ToplevelWindow, UnmappedWindow, VERSION};
use crate::model;
use crate::model::{SessionStateView, SessionStore, ToplevelRequestView, ToplevelVerdict};
use crate::schedule::{AUTO_UPDATE_INTERVAL, SESSION_SAVE_DELAY};
use crate::session;
use crate::session::SessionState;
use crate::session_id;
use crate::session_id::{IdSource, SESSION_ID_LENGTH};
use crate::storage;
use crate::toplevel;
use crate::toplevel::{
    ColumnWidth, FloatingPosition, InitialWidth, MappedWindow, MappedWindowView, PresetSize,
    RelativeTo, ToplevelSessionRef, ToplevelSessionRefView, ToplevelSessionState,
    ToplevelSessionStateView, ToplevelSessionWorkspace, ToplevelSessionWorkspaceView,
    WindowAttributes, WindowHeight, WindowWorkspace, WindowWorkspaceView,
};
use vstd::arithmetic::div_mod::*;
use vstd::arithmetic::mul::*;
use vstd::arithmetic::power2::*;
use vstd::prelude::*;
use vstd::std_specs::cmp::PartialEqSpec;

verus! {

// What each operation comes to, told by looking up what is stored before and after it.

/// Every mapped window whose reference names a stored toplevel is followed, whatever its size and
/// position: afterwards the toplevel's workspace is the one that the window was seen on, by name
/// or else by ID. A floating window is remembered by its geometry. A window in a column is
/// remembered by its column if all is known of that, else its location stays as it was. Nothing
/// is learnt without a workspace. The toplevel keeps its reference.
pub proof fn update_records_what_was_seen(
    store: SessionStore,
    mapped: MappedWindowView,
    workspace: Option<WindowWorkspaceView>,
    session_ref: ToplevelSessionRefView,
)
    requires
        mapped.session_ref == Some(session_ref),
        store.contains_key(session_ref.session_id),
        store[session_ref.session_id].sessions.contains_key(session_ref.toplevel_id),
    ensures
        model::tracked_toplevel(store, mapped) is Some,
        ({
            let id = session_ref.session_id;
            let name = session_ref.toplevel_id;
            let after = model::with_update(store, mapped, workspace);
            let old_state = store[id].sessions[name];
            let state = after[id].sessions[name];
            &&& after.contains_key(id)
            &&& after[id].session_id == store[id].session_id
            &&& after[id].sessions.contains_key(name)
            &&& state.session_ref == old_state.session_ref
            &&& workspace is None ==> state == old_state
            &&& workspace matches Some(seen) ==> {
                &&& seen.name matches Some(text) ==> state.workspace == Some(
                    ToplevelSessionWorkspaceView::Named(text),
                )
                &&& seen.name is None ==> state.workspace == Some(
                    ToplevelSessionWorkspaceView::Unnamed(seen.id),
                )
                &&& mapped.is_floating ==> state.attributes == Some(
                    WindowAttributes::Floating {
                        width: mapped.geometry.width,
                        height: mapped.geometry.height,
                        x: mapped.geometry.x,
                        y: mapped.geometry.y,
                    },
                )
                &&& !mapped.is_floating && seen.column_index is Some && seen.height is Some
                    && seen.column_width is Some && seen.is_full_width is Some
                    ==> state.attributes == Some(
                    WindowAttributes::Scrolling {
                        column_index: seen.column_index->0,
                        width: seen.column_width->0,
                        height: seen.height->0,
                        is_full_width: seen.is_full_width->0,
                    },
                )
                &&& !mapped.is_floating && (seen.column_index is None || seen.height is None
                    || seen.column_width is None || seen.is_full_width is None)
                    ==> state.attributes == old_state.attributes
            }
        }),
{
}

/// An update changes nothing but the toplevel that the window's reference names: every session
/// keeps its ID and its other toplevels, none comes and none goes. Without such a toplevel it
/// changes nothing at all.
pub proof fn update_changes_one_toplevel(
    store: SessionStore,
    mapped: MappedWindowView,
    workspace: Option<WindowWorkspaceView>,
    id: Seq<char>,
    name: Seq<char>,
)
    ensures
        ({
            let after = model::with_update(store, mapped, workspace);
            &&& after.contains_key(id) <==> store.contains_key(id)
            &&& store.contains_key(id) ==> {
                &&& after[id].session_id == store[id].session_id
                &&& after[id].sessions.contains_key(name) <==> store[id].sessions.contains_key(name)
                &&& store[id].sessions.contains_key(name) && !(mapped.session_ref matches Some(
                    session_ref,
                ) && session_ref.session_id == id && session_ref.toplevel_id == name)
                    ==> after[id].sessions[name] == store[id].sessions[name]
            }
            &&& mapped.session_ref is None ==> after == store && model::tracked_toplevel(
                store,
                mapped,
            ) is None
            &&& mapped.session_ref matches Some(session_ref) ==> !store.contains_key(
                session_ref.session_id,
            ) || !store[session_ref.session_id].sessions.contains_key(session_ref.toplevel_id)
                ==> after == store && model::tracked_toplevel(store, mapped) is None
        }),
{
}

/// What a single toplevel's state becomes by an update, whatever it was before: it depends on
/// nothing but what was seen, and two states that differ agree on all that was seen.
pub proof fn update_overwrites(
    a: ToplevelSessionStateView,
    b: ToplevelSessionStateView,
    mapped: MappedWindowView,
    seen: WindowWorkspaceView,
)
    ensures
        a.updated(mapped, Some(seen)).workspace == b.updated(mapped, Some(seen)).workspace,
        a.updated(mapped, Some(seen)).workspace is Some,
        a.updated(mapped, None) == a,
        a.updated(mapped, Some(seen)).session_ref == a.session_ref,
        mapped.is_floating || seen.column_index is Some && seen.height is Some
            && seen.column_width is Some && seen.is_full_width is Some ==> a.updated(
            mapped,
            Some(seen),
        ).attributes == b.updated(mapped, Some(seen)).attributes,
{
}

/// A toplevel that its own session remembers is restored to just that, whatever its application
/// and location, and nothing is adopted.
pub proof fn own_session_comes_first(
    store: SessionStore,
    wanted: ToplevelSessionRefView,
    state: ToplevelSessionStateView,
    adopted_from: Option<Seq<char>>,
)
    requires
        store.contains_key(wanted.session_id),
        store[wanted.session_id].sessions.contains_key(wanted.toplevel_id),
        model::restores_to(store, wanted, state),
        model::is_adopted_from(store, wanted, state, adopted_from),
    ensures
        state == store[wanted.session_id].sessions[wanted.toplevel_id],
        adopted_from is None,
{
}

/// A toplevel that its own session does not remember is restored to what some session remembers
/// of a toplevel of the same name and application, as soon as there is one, whatever its workspace
/// and location: it takes over both, and is part of the session that it was asked from. The
/// session that it came from is named.
pub proof fn other_session_is_adopted_from(
    store: SessionStore,
    wanted: ToplevelSessionRefView,
    known: Seq<char>,
    state: ToplevelSessionStateView,
    adopted_from: Option<Seq<char>>,
)
    requires
        !(store.contains_key(wanted.session_id) && store[wanted.session_id].sessions.contains_key(
            wanted.toplevel_id,
        )),
        store.contains_key(known),
        store[known].sessions.contains_key(wanted.toplevel_id),
        store[known].sessions[wanted.toplevel_id].session_ref.app_id == wanted.app_id,
        model::restores_to(store, wanted, state),
        model::is_adopted_from(store, wanted, state, adopted_from),
    ensures
        exists|origin: Seq<char>|
            #![trigger store.contains_key(origin)]
            store.contains_key(origin) && store[origin].sessions.contains_key(wanted.toplevel_id)
                && ({
                let old_state = store[origin].sessions[wanted.toplevel_id];
                &&& old_state.session_ref.app_id == wanted.app_id
                &&& state.workspace == old_state.workspace
                &&& state.attributes == old_state.attributes
                &&& state.session_ref.toplevel_id == old_state.session_ref.toplevel_id
                &&& adopted_from == Some(old_state.session_ref.session_id)
            }),
        state.session_ref.session_id == wanted.session_id,
        state.session_ref.app_id == wanted.app_id,
{
    assert(model::is_origin(store, known, wanted.toplevel_id, wanted.app_id));
    let origin = choose|origin: Seq<char>| #[trigger]
        model::is_origin(store, origin, wanted.toplevel_id, wanted.app_id) && ({
            let old_state = model::stored_toplevel(store, origin, wanted.toplevel_id)->0;
            state == model::adopted(old_state, wanted.session_id) && adopted_from == Some(
                old_state.session_ref.session_id,
            )
        });
    assert(store.contains_key(origin));
}

/// A toplevel that no session remembers under this name for its application starts blank, under
/// the reference that was wanted.
pub proof fn unheard_of_toplevel_starts_blank(
    store: SessionStore,
    wanted: ToplevelSessionRefView,
    state: ToplevelSessionStateView,
    adopted_from: Option<Seq<char>>,
)
    requires
        !(store.contains_key(wanted.session_id) && store[wanted.session_id].sessions.contains_key(
            wanted.toplevel_id,
        )),
        forall|id: Seq<char>| #[trigger]
            store.contains_key(id) && store[id].sessions.contains_key(wanted.toplevel_id)
                ==> store[id].sessions[wanted.toplevel_id].session_ref.app_id != wanted.app_id,
        model::restores_to(store, wanted, state),
        model::is_adopted_from(store, wanted, state, adopted_from),
    ensures
        state.session_ref == wanted,
        state.workspace is None,
        state.attributes is None,
        adopted_from is None,
{
    assert forall|origin: Seq<char>|
        !#[trigger] model::is_origin(store, origin, wanted.toplevel_id, wanted.app_id) by {
        assert(store.contains_key(origin) ==> !store[origin].sessions.contains_key(
            wanted.toplevel_id,
        ) || store[origin].sessions[wanted.toplevel_id].session_ref.app_id != wanted.app_id);
    }
}

/// What a restored window gets is what was last seen of it: the window of a stored toplevel is
/// looked at, and the toplevel is restored, from its own session or, for the same application,
/// from one that does not know its name while no other session does. Either way it starts on the
/// workspace and at the place that were seen.
pub proof fn restored_where_last_seen(
    store: SessionStore,
    mapped: MappedWindowView,
    seen: WindowWorkspaceView,
    session_ref: ToplevelSessionRefView,
    wanted: ToplevelSessionRefView,
    state: ToplevelSessionStateView,
)
    requires
        mapped.session_ref == Some(session_ref),
        store.contains_key(session_ref.session_id),
        store[session_ref.session_id].sessions.contains_key(session_ref.toplevel_id),
        wanted.toplevel_id == session_ref.toplevel_id,
        wanted.session_id == session_ref.session_id || ({
            &&& store[session_ref.session_id].sessions[session_ref.toplevel_id].session_ref.app_id
                == wanted.app_id
            &&& forall|id: Seq<char>| #[trigger]
                store.contains_key(id) && id != session_ref.session_id
                    ==> !store[id].sessions.contains_key(session_ref.toplevel_id)
        }),
        model::restores_to(model::with_update(store, mapped, Some(seen)), wanted, state),
    ensures
        seen.name matches Some(text) ==> state.workspace == Some(
            ToplevelSessionWorkspaceView::Named(text),
        ),
        seen.name is None ==> state.workspace == Some(
            ToplevelSessionWorkspaceView::Unnamed(seen.id),
        ),
        mapped.is_floating ==> state.was_floating() == Some(true) && state.initial_width() == Some(
            InitialWidth::Fixed(mapped.geometry.width),
        ) && state.initial_height() == Some(PresetSize::Fixed(mapped.geometry.height))
            && state.initial_floating_position() == Some(
            FloatingPosition {
                x: mapped.geometry.x,
                y: mapped.geometry.y,
                relative_to: RelativeTo::TopLeft,
            },
        ),
        !mapped.is_floating && seen.column_index is Some && seen.height is Some
            && seen.column_width is Some && seen.is_full_width is Some ==> state.was_floating()
            == Some(false) && state.initial_column_index() == seen.column_index
            && state.was_full_width() == seen.is_full_width && state.initial_width() == Some(
            InitialWidth::Column(seen.column_width->0),
        ),
{
    let after = model::with_update(store, mapped, Some(seen));
    let id = session_ref.session_id;
    let name = session_ref.toplevel_id;
    update_records_what_was_seen(store, mapped, Some(seen), session_ref);
    if wanted.session_id != id {
        assert(model::stored_toplevel(after, wanted.session_id, name) is None);
        assert(model::is_origin(after, id, name, wanted.app_id));
        assert forall|origin: Seq<char>| #[trigger]
            model::is_origin(after, origin, name, wanted.app_id) implies origin == id by {
            update_changes_one_toplevel(store, mapped, Some(seen), origin, name);
            assert(store.contains_key(origin));
        }
    }
}

/// What is asked of the state of a toplevel that was in a column is answered by the column: the
/// height is cut to whole pixels if it was fixed, else it is the full height.
pub proof fn column_is_read_back(
    state: ToplevelSessionStateView,
    column_index: usize,
    width: ColumnWidth,
    height: WindowHeight,
    is_full_width: bool,
)
    requires
        state.attributes == Some(
            WindowAttributes::Scrolling { column_index, width, height, is_full_width },
        ),
    ensures
        state.initial_column_index() == Some(column_index),
        state.was_full_width() == Some(is_full_width),
        state.was_floating() == Some(false),
        state.initial_width() == Some(InitialWidth::Column(width)),
        height matches WindowHeight::Fixed(pixels) ==> state.initial_height() == Some(
            PresetSize::Fixed(pixels.truncated() as i32),
        ),
        !(height is Fixed) ==> state.initial_height() == Some(
            PresetSize::Proportion(Binary64 { bits: 0x3FF0_0000_0000_0000 }),
        ),
        state.initial_floating_position() is None,
{
}

/// What is asked of the state of a toplevel that was floating is answered by its geometry.
pub proof fn floating_place_is_read_back(
    state: ToplevelSessionStateView,
    width: i32,
    height: i32,
    x: i32,
    y: i32,
)
    requires
        state.attributes == Some(WindowAttributes::Floating { width, height, x, y }),
    ensures
        state.initial_column_index() is None,
        state.was_full_width() is None,
        state.was_floating() == Some(true),
        state.initial_width() == Some(InitialWidth::Fixed(width)),
        state.initial_height() == Some(PresetSize::Fixed(height)),
        state.initial_floating_position() == Some(
            FloatingPosition { x, y, relative_to: RelativeTo::TopLeft },
        ),
{
}

/// Nothing is known of the place of a toplevel that was never located.
pub proof fn unknown_place_is_not_made_up(state: ToplevelSessionStateView)
    requires
        state.attributes is None,
    ensures
        state.initial_column_index() is None,
        state.was_full_width() is None,
        state.was_floating() is None,
        state.initial_width() is None,
        state.initial_height() is None,
        state.initial_floating_position() is None,
{
}

/// A blank toplevel has its reference and nothing else, a blank session its ID and no toplevel.
pub proof fn blank_is_blank(
    session_ref: ToplevelSessionRefView,
    session_id: Seq<char>,
    name: Seq<char>,
)
    ensures
        ToplevelSessionStateView::blank(session_ref).session_ref == session_ref,
        ToplevelSessionStateView::blank(session_ref).workspace is None,
        ToplevelSessionStateView::blank(session_ref).attributes is None,
        SessionStateView::blank(session_id).session_id == session_id,
        !SessionStateView::blank(session_id).sessions.contains_key(name),
{
}

/// Whoever asks for a session that a window of the client is part of is refused, whether the
/// session is stored or not, and told so. Otherwise a stored session is handed out as it is
/// stored, and an unknown one is created under the ID that was asked for, without toplevels.
pub proof fn session_is_refused_restored_or_created(
    store: SessionStore,
    session_id: Seq<char>,
    in_use: bool,
    client: Seq<char>,
    reply: GetSessionReply,
)
    requires
        reply.answers(store, session_id, in_use, client),
    ensures
        reply is InUse <==> in_use,
        reply is Restored <==> !in_use && store.contains_key(session_id),
        reply is Created <==> !in_use && !store.contains_key(session_id),
        reply matches GetSessionReply::InUse { message } ==> message@ == "session `"@ + session_id
            + "` already in use by client "@ + client,
        reply matches GetSessionReply::Restored { session } ==> session@ == store[session_id],
        reply matches GetSessionReply::Created { session_id: created, session } ==> {
            &&& created@ == session_id
            &&& session.session_id@ == session_id
            &&& forall|name: Seq<char>| !#[trigger] session.sessions@.contains_key(name)
        },
{
    if let GetSessionReply::Created { session_id: created, session } = reply {
        assert forall|name: Seq<char>| !#[trigger] session.sessions@.contains_key(name) by {
            assert(!session@.sessions.contains_key(name));
        }
    }
}

/// A session is stored once it has been asked for: as it was if it was stored, else without
/// toplevels. Every other session stays as it was, and none comes.
pub proof fn asking_stores_the_session(
    store: SessionStore,
    session_id: Seq<char>,
    other: Seq<char>,
    name: Seq<char>,
)
    ensures
        ({
            let after = model::with_session(store, session_id);
            &&& after.contains_key(session_id)
            &&& store.contains_key(session_id) ==> after[session_id] == store[session_id]
            &&& !store.contains_key(session_id) ==> {
                &&& after[session_id].session_id == session_id
                &&& !after[session_id].sessions.contains_key(name)
            }
            &&& other != session_id ==> (after.contains_key(other) <==> store.contains_key(other))
            &&& other != session_id && store.contains_key(other) ==> after[other] == store[other]
        }),
{
}

/// A request to add or to restore a toplevel is refused for what is wrong with it, the first of
/// these that holds: the toplevel does not exist, it has no unmapped window, the window has this
/// very toplevel session already, it is mapped, the session is not stored. Otherwise it is
/// accepted, for this session, this name and the window's application.
pub proof fn toplevel_is_refused_for_a_reason(store: SessionStore, request: ToplevelRequestView)
    ensures
        request.verdict(store) is InvalidToplevel <==> request.toplevel is None,
        request.verdict(store) is NotUnmapped <==> request.toplevel is Some
            && request.toplevel->0.unmapped is None,
        request.toplevel is Some && request.toplevel->0.unmapped is Some ==> ({
            let unmapped = request.toplevel->0.unmapped->0;
            let mapped_as = request.toplevel->0.mapped_as;
            let is_present = unmapped.session_ref matches Some(present) && present.session_id
                == request.session_id && present.toplevel_id == request.toplevel_id
                && present.app_id == unmapped.app_id;
            let verdict = request.verdict(store);
            &&& verdict is NameInUse <==> is_present
            &&& verdict is AlreadyMapped <==> !is_present && mapped_as is Some
            &&& verdict matches ToplevelVerdict::AlreadyMapped(description) ==> mapped_as == Some(
                description,
            )
            &&& verdict is UnknownSession <==> !is_present && mapped_as is None
                && !store.contains_key(request.session_id)
            &&& verdict is Accepted <==> !is_present && mapped_as is None && store.contains_key(
                request.session_id,
            )
            &&& verdict matches ToplevelVerdict::Accepted(wanted) ==> wanted.session_id
                == request.session_id && wanted.toplevel_id == request.toplevel_id && wanted.app_id
                == unmapped.app_id
        }),
{
}

/// The answer to a request to add or to restore a toplevel goes with what became of it. A
/// toplevel that was added is not flagged as restored and starts blank; one that was restored is
/// flagged, for every application. The messages say which of the two was refused.
pub proof fn toplevel_reply_is_what_became_of_it(
    store: SessionStore,
    request: ToplevelRequestView,
    reply: AddToplevelReply,
)
    requires
        reply.answers(request, store),
    ensures
        reply is InvalidToplevel <==> request.verdict(store) is InvalidToplevel,
        reply is NotUnmapped <==> request.verdict(store) is NotUnmapped,
        reply is NameInUse <==> request.verdict(store) is NameInUse,
        reply is AlreadyMapped <==> request.verdict(store) is AlreadyMapped,
        reply is UnknownSession <==> request.verdict(store) is UnknownSession,
        reply is Attached <==> request.verdict(store) is Accepted,
        reply matches AddToplevelReply::NameInUse { message } ==> message@ == "cannot "@ + (
        if request.is_restoring {
            "restore"@
        } else {
            "add"@
        }) + ": toplevel `"@ + request.toplevel_id + "` is already present in session"@,
        reply matches AddToplevelReply::AlreadyMapped { message } ==> message@ == "cannot "@ + (
        if request.is_restoring {
            "restore"@
        } else {
            "add"@
        }) + ": toplevel "@ + request.toplevel->0.mapped_as->0
            + " was already mapped when restored"@,
        reply matches AddToplevelReply::Attached { session, adopted_from } ==> {
            let wanted = ToplevelSessionRefView {
                session_id: request.session_id,
                toplevel_id: request.toplevel_id,
                app_id: request.toplevel->0.unmapped->0.app_id,
            };
            &&& session.is_restoring == request.is_restoring
            &&& !request.is_restoring ==> {
                &&& session.state@.session_ref == wanted
                &&& session.state.workspace is None
                &&& session.state.attributes is None
                &&& adopted_from is None
            }
            &&& request.is_restoring ==> {
                &&& model::restores_to(store, wanted, session.state@)
                &&& adopted_from is None ==> model::is_adopted_from(
                    store,
                    wanted,
                    session.state@,
                    None,
                )
                &&& adopted_from matches Some(id) ==> model::is_adopted_from(
                    store,
                    wanted,
                    session.state@,
                    Some(id@),
                )
            }
        },
{
}

/// A toplevel that was added is stored blank in its session under its name. All other toplevels,
/// and the sessions' IDs, stay. Restoring changes nothing, nor does a request that is refused.
pub proof fn adding_stores_the_toplevel(
    store: SessionStore,
    request: ToplevelRequestView,
    id: Seq<char>,
    name: Seq<char>,
)
    ensures
        ({
            let after = request.store_after(store);
            let is_added = !request.is_restoring && request.verdict(store) is Accepted;
            &&& !is_added ==> after == store
            &&& is_added ==> {
                let state = after[request.session_id].sessions[request.toplevel_id];
                &&& after[request.session_id].sessions.contains_key(request.toplevel_id)
                &&& state.session_ref.session_id == request.session_id
                &&& state.session_ref.toplevel_id == request.toplevel_id
                &&& state.session_ref.app_id == request.toplevel->0.unmapped->0.app_id
                &&& state.workspace is None
                &&& state.attributes is None
            }
            &&& after.contains_key(id) <==> store.contains_key(id)
            &&& store.contains_key(id) ==> {
                &&& after[id].session_id == store[id].session_id
                &&& id != request.session_id || name != request.toplevel_id ==> (
                after[id].sessions.contains_key(name) <==> store[id].sessions.contains_key(name))
                &&& (id != request.session_id || name != request.toplevel_id)
                    && store[id].sessions.contains_key(name) ==> after[id].sessions[name]
                    == store[id].sessions[name]
            }
        }),
{
}

/// Removing a toplevel takes just this one out of its session. The session stays, with its ID.
pub proof fn removing_takes_out_one_toplevel(
    store: SessionStore,
    session_id: Seq<char>,
    toplevel_id: Seq<char>,
    id: Seq<char>,
    name: Seq<char>,
)
    ensures
        ({
            let after = model::without_toplevel(store, session_id, toplevel_id);
            &&& after.contains_key(id) <==> store.contains_key(id)
            &&& store.contains_key(id) ==> {
                &&& after[id].session_id == store[id].session_id
                &&& after[id].sessions.contains_key(name) <==> store[id].sessions.contains_key(name)
                    && !(id == session_id && name == toplevel_id)
                &&& after[id].sessions.contains_key(name) ==> after[id].sessions[name]
                    == store[id].sessions[name]
            }
        }),
{
}

/// The references that a removed session leaves behind are those of all its toplevels, whatever
/// is remembered of them: for every toplevel there is its reference, and there are as many as
/// there are toplevels.
pub proof fn every_toplevel_leaves_its_reference(
    refs: Seq<ToplevelSessionRef>,
    toplevels: Map<Seq<char>, ToplevelSessionStateView>,
)
    requires
        manager::are_refs_of(refs, toplevels),
    ensures
        forall|name: Seq<char>| #[trigger]
            toplevels.contains_key(name) ==> exists|i: int|
                0 <= i < refs.len() && (#[trigger] refs[i])@ == toplevels[name].session_ref,
        toplevels.dom().finite(),
        refs.len() == toplevels.dom().len(),
{
    let names = choose|names: Seq<Seq<char>>| #[trigger]
        manager::are_refs_in_order(refs, toplevels, names);
    assert forall|name: Seq<char>| #[trigger] toplevels.contains_key(name) implies exists|i: int|
        0 <= i < refs.len() && (#[trigger] refs[i])@ == toplevels[name].session_ref by {
        assert(names.contains(name));
        let i = names.index_of(name);
        assert(refs[i]@ == toplevels[name].session_ref);
    }
    names.unique_seq_to_set();
    assert(names.to_set() =~= toplevels.dom());
}

/// Every reference that a removed session leaves behind is that of one of its toplevels.
pub proof fn every_reference_is_of_a_toplevel(
    refs: Seq<ToplevelSessionRef>,
    toplevels: Map<Seq<char>, ToplevelSessionStateView>,
    i: int,
)
    requires
        manager::are_refs_of(refs, toplevels),
        0 <= i < refs.len(),
    ensures
        exists|name: Seq<char>| #[trigger]
            toplevels.contains_key(name) && toplevels[name].session_ref == refs[i]@,
{
    let names = choose|names: Seq<Seq<char>>| #[trigger]
        manager::are_refs_in_order(refs, toplevels, names);
    assert(names.contains(names[i]));
    assert(toplevels.contains_key(names[i]));
}

/// The search for an unused ID finds the first candidate that no session is stored under, and
/// finds nothing only if there is none.
pub proof fn first_unused_id_is_found(
    store: SessionStore,
    candidates: Seq<Seq<char>>,
    found: Option<Seq<char>>,
    i: int,
)
    requires
        model::is_first_unused(store, candidates, found),
        0 <= i < candidates.len(),
        !store.contains_key(candidates[i]),
        forall|j: int| 0 <= j < i ==> store.contains_key(#[trigger] candidates[j]),
    ensures
        found == Some(candidates[i]),
{
    assert(found is Some) by {
        if found is None {
            assert(store.contains_key(candidates[i]));
        }
    }
    let k = choose|k: int|
        0 <= k < candidates.len() && #[trigger] candidates[k] == found->0 && !store.contains_key(
            found->0,
        ) && model::all_in_use(store, candidates.take(k));
    if i < k {
        assert(candidates.take(k)[i] == candidates[i]);
    }
}

/// The search for an unused ID finds nothing if a session is stored under every candidate.
pub proof fn no_used_id_is_found(
    store: SessionStore,
    candidates: Seq<Seq<char>>,
    found: Option<Seq<char>>,
)
    requires
        model::is_first_unused(store, candidates, found),
        forall|i: int| 0 <= i < candidates.len() ==> store.contains_key(#[trigger] candidates[i]),
    ensures
        found is None,
{
}

/// Whoever asks for a stored session gets its ID, and no other is drawn. For everyone else the
/// first ID drawn that no session is stored under is chosen.
pub proof fn stored_session_gets_its_id(
    store: SessionStore,
    requested: Option<Seq<char>>,
    drawn: Seq<Seq<char>>,
    chosen: Option<Seq<char>>,
    i: int,
)
    requires
        model::is_chosen_id(store, requested, drawn, chosen),
    ensures
        requested matches Some(id) ==> store.contains_key(id) ==> chosen == requested
            && drawn.len() == 0,
        (requested is None || !store.contains_key(requested->0)) && 0 <= i < drawn.len()
            && !store.contains_key(drawn[i]) && (forall|j: int|
            0 <= j < i ==> store.contains_key(#[trigger] drawn[j])) ==> chosen == Some(drawn[i]),
        (requested is None || !store.contains_key(requested->0)) && (forall|j: int|
            0 <= j < drawn.len() ==> store.contains_key(#[trigger] drawn[j])) ==> chosen is None,
{
    if requested is None || !store.contains_key(requested->0) {
        if 0 <= i < drawn.len() && !store.contains_key(drawn[i]) && (forall|j: int|
            0 <= j < i ==> store.contains_key(#[trigger] drawn[j])) {
            first_unused_id_is_found(store, drawn, chosen, i);
        }
    }
}

/// A generated ID has 32 characters, each of them an ASCII letter or digit. What has been drawn
/// from a source is what had been drawn earlier, and then what has been drawn since.
pub proof fn generated_id_has_32_letters_and_digits(
    id: Seq<char>,
    ids: Seq<Seq<char>>,
    i: int,
    k: int,
    earlier: IdSource,
    later: IdSource,
)
    ensures
        session_id::is_generated_form(id) ==> id.len() == 32,
        session_id::is_generated_form(id) && 0 <= i < id.len() ==> 'a' <= id[i] <= 'z' || 'A'
            <= id[i] <= 'Z' || '0' <= id[i] <= '9',
        session_id::all_generated(ids) && 0 <= k < ids.len() ==> session_id::is_random_id(ids[k])
            && session_id::is_generated_form(ids[k]),
        session_id::is_random_id(id) && 0 <= i < id.len() ==> call_ensures(
            fastrand::alphanumeric,
            (),
            id[i],
        ),
        SESSION_ID_LENGTH == 32,
        earlier.drawn().is_prefix_of(later.drawn()) ==> later.drawn() == earlier.drawn()
            + later.drawn_since(earlier),
{
    if earlier.drawn().is_prefix_of(later.drawn()) {
        assert(later.drawn() =~= earlier.drawn() + later.drawn_since(earlier));
    }
}

/// A reference, and all else that is held of windows and toplevels, is spoken of by just what it
/// holds.
pub proof fn views_say_what_is_held(
    session_ref: ToplevelSessionRef,
    workspace: ToplevelSessionWorkspace,
    state: ToplevelSessionState,
    mapped: MappedWindow,
    seen: WindowWorkspace,
)
    ensures
        session_ref@.session_id == session_ref.session_id@,
        session_ref@.toplevel_id == session_ref.toplevel_id@,
        session_ref.app_id matches Some(app_id) ==> session_ref@.app_id == Some(app_id@),
        session_ref.app_id is None ==> session_ref@.app_id is None,
        workspace matches ToplevelSessionWorkspace::Named(name) ==> workspace@
            == ToplevelSessionWorkspaceView::Named(name@),
        workspace matches ToplevelSessionWorkspace::Unnamed(id) ==> workspace@
            == ToplevelSessionWorkspaceView::Unnamed(id),
        state@.session_ref == state.session_ref@,
        state.workspace matches Some(known) ==> state@.workspace == Some(known@),
        state.workspace is None ==> state@.workspace is None,
        state@.attributes == state.attributes,
        mapped.session_ref matches Some(tracking) ==> mapped@.session_ref == Some(tracking@),
        mapped.session_ref is None ==> mapped@.session_ref is None,
        mapped@.is_floating == mapped.is_floating,
        mapped@.geometry == mapped.geometry,
        seen@.id == seen.id,
        seen.name matches Some(name) ==> seen@.name == Some(name@),
        seen.name is None ==> seen@.name is None,
        seen@.column_index == seen.column_index,
        seen@.height == seen.height,
        seen@.column_width == seen.column_width,
        seen@.is_full_width == seen.is_full_width,
        toplevel::option_workspace(Some(&seen)) == Some(seen@),
        toplevel::option_workspace(None) is None,
{
}

/// Unmapped windows, toplevels and optional texts are spoken of by what they hold. Of the
/// toplevel session that a window has, only the reference counts.
pub proof fn window_views_say_what_is_held(
    unmapped: UnmappedWindow,
    window: ToplevelWindow,
    text: String,
    path: Vec<u8>,
)
    ensures
        unmapped.app_id matches Some(app_id) ==> unmapped@.app_id == Some(app_id@),
        unmapped.app_id is None ==> unmapped@.app_id is None,
        unmapped.session matches Some(session) ==> unmapped@.session_ref == Some(
            session.state.session_ref@,
        ),
        unmapped.session is None ==> unmapped@.session_ref is None,
        window.unmapped matches Some(inner) ==> window@.unmapped == Some(inner@),
        window.unmapped is None ==> window@.unmapped is None,
        window.mapped_as matches Some(description) ==> window@.mapped_as == Some(description@),
        window.mapped_as is None ==> window@.mapped_as is None,
        manager::option_window(Some(window)) == Some(window@),
        manager::option_window(None) is None,
        toplevel::option_text(Some(text)) == Some(text@),
        toplevel::option_text(None) is None,
        storage::option_path(Some(path)) == Some(path@),
        storage::option_path(None) is None,
{
}

/// Sessions, and maps of sessions and toplevels, are spoken of by just what they hold: each
/// entry, and no other, under its own ID.
pub proof fn maps_say_what_is_held(
    session: SessionState,
    sessions: Map<Seq<char>, SessionState>,
    toplevels: Map<Seq<char>, ToplevelSessionState>,
    id: Seq<char>,
)
    ensures
        session@.session_id == session.session_id@,
        session@.sessions.contains_key(id) <==> session.sessions@.contains_key(id),
        session.sessions@.contains_key(id) ==> session@.sessions[id] == session.sessions@[id]@,
        session::sessions_view(sessions).contains_key(id) <==> sessions.contains_key(id),
        sessions.contains_key(id) ==> session::sessions_view(sessions)[id] == sessions[id]@,
        session::toplevels_view(toplevels).contains_key(id) <==> toplevels.contains_key(id),
        toplevels.contains_key(id) ==> session::toplevels_view(toplevels)[id] == toplevels[id]@,
{
}

/// Two references are equal if they agree on the session, on the name and on the application.
pub proof fn references_are_equal_by_content(a: ToplevelSessionRef, b: ToplevelSessionRef)
    ensures
        <ToplevelSessionRef as PartialEqSpec>::obeys_eq_spec(),
        a.eq_spec(&b) <==> a.session_id@ == b.session_id@ && a.toplevel_id@ == b.toplevel_id@ && (
        a.app_id is None <==> b.app_id is None) && (a.app_id is Some && b.app_id is Some
            ==> a.app_id->0@ == b.app_id->0@),
{
}

/// Numbers are equal if they have the same bits, apart from the sign of zero. What lies beyond
/// infinity is not a number, and equals nothing.
pub proof fn numbers_are_equal_by_value(a: Binary64, b: Binary64)
    ensures
        <Binary64 as PartialEqSpec>::obeys_eq_spec(),
        a.eq_spec(&b) <==> a.bits % 0x8000_0000_0000_0000 <= 0x7FF0_0000_0000_0000 && b.bits
            % 0x8000_0000_0000_0000 <= 0x7FF0_0000_0000_0000 && (a.bits == b.bits || a.bits
            % 0x8000_0000_0000_0000 == 0 && b.bits % 0x8000_0000_0000_0000 == 0),
{
}

/// A number of magnitude below one is cut to zero, and so is what is not a number. One of
/// magnitude of at least 2 to the power of 31 is cut to the end of the range on its side.
pub proof fn extremes_are_cut(number: Binary64)
    ensures
        number.bits % 0x8000_0000_0000_0000 < 0x3FF0_0000_0000_0000 ==> number.truncated() == 0,
        number.bits % 0x8000_0000_0000_0000 > 0x7FF0_0000_0000_0000 ==> number.truncated() == 0,
        0x41E0_0000_0000_0000 <= number.bits <= 0x7FF0_0000_0000_0000 ==> number.truncated()
            == 0x7fff_ffff,
        0xC1E0_0000_0000_0000 <= number.bits <= 0xFFF0_0000_0000_0000 ==> number.truncated()
            == -0x8000_0000,
{
    let size = number.bits % 0x8000_0000_0000_0000;
    if size < 0x3FF0_0000_0000_0000 {
        binary64::lemma_below_one(number);
    }
    if 0x41E0_0000_0000_0000 <= size <= 0x7FF0_0000_0000_0000 {
        binary64::lemma_out_of_range(number);
    }
}

/// Every other number is cut to its whole part, with its sign. A whole part `n` from 2 to the
/// power of `k` on, and below the next power, is held by the exponent `1023 + k`, followed by the
/// `k` low binary digits of `n`. `rest` stands for the digits behind the point.
pub proof fn whole_part_is_kept(number: Binary64, n: nat, k: nat, rest: nat)
    requires
        k <= 30,
        pow2(k) <= n < 2 * pow2(k),
        rest < pow2((52 - k) as nat),
        number.bits % 0x8000_0000_0000_0000 == (1023 + k) * 0x10_0000_0000_0000 + (n - pow2(k))
            * pow2((52 - k) as nat) + rest,
    ensures
        number.bits < 0x8000_0000_0000_0000 ==> number.truncated() == n,
        number.bits >= 0x8000_0000_0000_0000 ==> number.truncated() == -n,
{
    let unit = pow2((52 - k) as nat);
    let fraction = (n - pow2(k)) * unit + rest;
    lemma_pow2_pos(k);
    lemma_pow2_pos((52 - k) as nat);
    lemma_pow2_adds(k, (52 - k) as nat);
    lemma2_to64_rest();
    assert(0 <= fraction < 0x10_0000_0000_0000) by {
        lemma_mul_nonnegative(n - pow2(k), unit as int);
        lemma_mul_inequality(n - pow2(k), pow2(k) - 1, unit as int);
        lemma_mul_is_distributive_sub_other_way(unit as int, pow2(k) as int, 1);
    }
    assert(number.fraction() == fraction);
    assert(number.exponent() == 1023 + k);
    binary64::lemma_in_range(number);
    assert(0x10_0000_0000_0000 + fraction == unit * n + rest) by {
        lemma_mul_is_distributive_sub_other_way(unit as int, n as int, pow2(k) as int);
        lemma_mul_is_commutative(unit as int, n as int);
    }
    lemma_fundamental_div_mod_converse(
        0x10_0000_0000_0000 + fraction,
        unit as int,
        n as int,
        rest as int,
    );
}

/// The bytes of an ASCII text are its characters, one by one. A file in a directory is the
/// directory, a separator unless one is there or the directory is empty, and the file's name.
pub proof fn paths_are_put_together(text: Seq<char>, i: int, directory: Seq<u8>, file: Seq<u8>)
    ensures
        storage::ascii_bytes(text).len() == text.len(),
        0 <= i < text.len() ==> storage::ascii_bytes(text)[i] == text[i] as u8,
        directory.len() > 0 && directory[directory.len() - 1] != 0x2f ==> storage::joined(
            directory,
            file,
        ) == directory + seq![0x2fu8] + file,
        directory.len() == 0 || directory[directory.len() - 1] == 0x2f ==> storage::joined(
            directory,
            file,
        ) == directory + file,
        storage::data_path_in(Some(directory)) == Some(
            storage::joined(directory, storage::ascii_bytes("sessions.json"@)),
        ),
        storage::data_path_in(None) is None,
        storage::ends_with(directory, file) <==> exists|start: Seq<u8>| #[trigger]
            (start + file) == directory,
{
    if storage::ends_with(directory, file) {
        let start = directory.take(directory.len() - file.len());
        assert(start + file =~= directory);
    }
    if exists|start: Seq<u8>| #[trigger] (start + file) == directory {
        let start = choose|start: Seq<u8>| #[trigger] (start + file) == directory;
        assert(directory.skip(directory.len() - file.len()) =~= file);
    }
}

/// The sessions are saved in the user's file, unless that does not exist while the file for all
/// users does, or there is no place for a user's file.
pub proof fn users_file_is_preferred(path: Seq<u8>, default_exists: bool, system_exists: bool)
    ensures
        storage::resolved_path(Some(path), true, system_exists) == path,
        storage::resolved_path(Some(path), default_exists, false) == path,
        storage::resolved_path(Some(path), false, true) == storage::ascii_bytes(
            "/etc/niri/sessions.json"@,
        ),
        storage::resolved_path(None, default_exists, system_exists) == storage::ascii_bytes(
            "/etc/niri/sessions.json"@,
        ),
{
}

/// The protocol's version, the delays and the names are these.
pub proof fn constants_are_these()
    ensures
        VERSION == 1,
        SESSION_SAVE_DELAY == 3,
        AUTO_UPDATE_INTERVAL == 600,
        storage::APPLICATION@ == "niri"@,
        storage::FILE_NAME@ == "sessions.json"@,
        storage::SYSTEM_PATH@ == "/etc/niri/sessions.json"@,
        binary64::ONE_BITS == 0x3FF0_0000_0000_0000,
{
}

} // verus!
