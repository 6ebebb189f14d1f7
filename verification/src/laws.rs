use crate::manager;
use crate::manager::GetSessionReply;
use crate::model;
use crate::model::{SessionStateView, SessionStore, StoreStep, ToplevelRequestView, ToplevelVerdict};
use crate::session_id;
use crate::storage;
use crate::toplevel::{
    InitialWidth, MappedWindowView, PresetSize, RelativeTo, ToplevelSessionRef,
    ToplevelSessionRefView, ToplevelSessionStateView, WindowHeight, WindowWorkspaceView,
};
use vstd::prelude::*;

verus! {

/// A session remembers where a tracked window was: a toplevel that is restored from it later on,
/// whatever has been done to other toplevels meanwhile, starts on the window's workspace and where
/// the window was.
pub proof fn session_remembers_window(
    store: SessionStore,
    mapped: MappedWindowView,
    workspace: WindowWorkspaceView,
    steps: Seq<StoreStep>,
    wanted: ToplevelSessionRefView,
    state: ToplevelSessionStateView,
)
    requires
        mapped.session_ref is Some,
        mapped.session_ref->0.session_id == wanted.session_id,
        mapped.session_ref->0.toplevel_id == wanted.toplevel_id,
        model::tracked_toplevel(store, mapped) is Some,
        forall|i: int|
            0 <= i < steps.len() ==> !(#[trigger] steps[i]).is_about(
                wanted.session_id,
                wanted.toplevel_id,
            ),
        model::restores_to(
            model::after_steps(model::with_update(store, mapped, Some(workspace)), steps),
            wanted,
            state,
        ),
    ensures
        state.workspace == Some(workspace.remembered()),
        mapped.remembered(workspace) is Some ==> state.attributes == mapped.remembered(workspace),
        mapped.remembered(workspace) is None ==> state.attributes == model::tracked_toplevel(
            store,
            mapped,
        )->0.attributes,
{
    toplevel_is_remembered_until_touched(
        model::with_update(store, mapped, Some(workspace)),
        steps,
        wanted.session_id,
        wanted.toplevel_id,
    );
}

/// A session remembers the column of a window in a scrollable-tiling space: its index, its width,
/// whether it was full-width, and the window's fixed height in whole pixels.
pub proof fn session_remembers_column(
    state: ToplevelSessionStateView,
    mapped: MappedWindowView,
    workspace: WindowWorkspaceView,
)
    requires
        !mapped.is_floating,
        workspace.column_index is Some,
        workspace.height is Some,
        workspace.column_width is Some,
        workspace.is_full_width is Some,
    ensures
        ({
            let after = state.updated(mapped, Some(workspace));
            &&& after.was_floating() == Some(false)
            &&& after.initial_column_index() == workspace.column_index
            &&& after.was_full_width() == workspace.is_full_width
            &&& after.initial_width() == Some(InitialWidth::Column(workspace.column_width->0))
            &&& workspace.height->0 matches WindowHeight::Fixed(height)
                ==> after.initial_height() == Some(PresetSize::Fixed(height.truncated() as i32))
            &&& after.initial_floating_position() is None
        }),
{
}

/// A session remembers that a window floats, its size and its position.
pub proof fn session_remembers_floating(
    state: ToplevelSessionStateView,
    mapped: MappedWindowView,
    workspace: WindowWorkspaceView,
)
    requires
        mapped.is_floating,
    ensures
        ({
            let after = state.updated(mapped, Some(workspace));
            &&& after.was_floating() == Some(true)
            &&& after.initial_width() == Some(InitialWidth::Fixed(mapped.geometry.width))
            &&& after.initial_height() == Some(PresetSize::Fixed(mapped.geometry.height))
            &&& after.initial_floating_position() is Some
            &&& after.initial_floating_position()->0.x == mapped.geometry.x
            &&& after.initial_floating_position()->0.y == mapped.geometry.y
            &&& after.initial_floating_position()->0.relative_to == RelativeTo::TopLeft
            &&& after.initial_column_index() is None
            &&& after.was_full_width() is None
        }),
{
}

/// What is known of a toplevel hangs together: a floating window has a position and no column, a
/// window in a scrollable-tiling space has a column and no position, and both have a size.
pub proof fn remembered_location_is_coherent(state: ToplevelSessionStateView)
    ensures
        state.was_floating() == Some(true) <==> state.initial_floating_position() is Some,
        state.was_floating() == Some(false) <==> state.initial_column_index() is Some,
        state.was_floating() == Some(false) <==> state.was_full_width() is Some,
        state.was_floating() is Some <==> state.initial_width() is Some,
        state.was_floating() is Some <==> state.initial_height() is Some,
{
}

/// Looking at the same window twice is the same as looking at it once.
pub proof fn update_is_idempotent(
    store: SessionStore,
    mapped: MappedWindowView,
    workspace: Option<WindowWorkspaceView>,
)
    ensures
        ({
            let once = model::with_update(store, mapped, workspace);
            model::with_update(once, mapped, workspace) == once
        }),
{
    let once = model::with_update(store, mapped, workspace);
    let twice = model::with_update(once, mapped, workspace);
    if let Some(session_ref) = mapped.session_ref {
        let id = session_ref.session_id;
        if model::tracked_toplevel(store, mapped) is Some {
            assert(twice[id].sessions =~= once[id].sessions);
        }
    }
    assert(twice =~= once);
}

/// An update touches the tracked toplevel only, and not the reference to it.
pub proof fn update_leaves_others_alone(
    store: SessionStore,
    mapped: MappedWindowView,
    workspace: Option<WindowWorkspaceView>,
    session_id: Seq<char>,
    toplevel_id: Seq<char>,
)
    ensures
        ({
            let before = model::stored_toplevel(store, session_id, toplevel_id);
            let after = model::stored_toplevel(
                model::with_update(store, mapped, workspace),
                session_id,
                toplevel_id,
            );
            &&& before is Some <==> after is Some
            &&& before is Some ==> after->0.session_ref == before->0.session_ref
            &&& mapped.session_ref is None || mapped.session_ref->0.session_id != session_id
                || mapped.session_ref->0.toplevel_id != toplevel_id ==> after == before
        }),
{
}

/// A session that has been asked for exists from then on.
pub proof fn session_exists_once_asked_for(store: SessionStore, session_id: Seq<char>)
    ensures
        model::with_session(store, session_id).contains_key(session_id),
{
}

/// Asking for a known session changes no session, so asking twice is the same as asking once.
pub proof fn known_session_is_restored_unchanged(store: SessionStore, session_id: Seq<char>)
    ensures
        store.contains_key(session_id) ==> model::with_session(store, session_id) == store,
        model::with_session(model::with_session(store, session_id), session_id)
            == model::with_session(store, session_id),
{
}

/// Creating a session leaves the other sessions alone.
pub proof fn new_session_leaves_others_alone(
    store: SessionStore,
    session_id: Seq<char>,
    other: Seq<char>,
)
    requires
        other != session_id,
    ensures
        ({
            let after = model::with_session(store, session_id);
            &&& after.contains_key(other) <==> store.contains_key(other)
            &&& store.contains_key(other) ==> after[other] == store[other]
        }),
{
}

/// A toplevel that has been added to a session is restored from there, whatever other sessions
/// remember.
pub proof fn added_toplevel_is_restored(
    store: SessionStore,
    add: ToplevelRequestView,
    added: ToplevelSessionRefView,
    wanted: ToplevelSessionRefView,
    state: ToplevelSessionStateView,
)
    requires
        !add.is_restoring,
        add.verdict(store) == ToplevelVerdict::Accepted(added),
        wanted.session_id == added.session_id,
        wanted.toplevel_id == added.toplevel_id,
        model::restores_to(add.store_after(store), wanted, state),
    ensures
        state == ToplevelSessionStateView::blank(added),
{
}

/// Restoring a toplevel changes no session.
pub proof fn restoring_changes_nothing(store: SessionStore, request: ToplevelRequestView)
    requires
        request.is_restoring,
    ensures
        request.store_after(store) == store,
{
}

/// A request that is not accepted changes no session.
pub proof fn refused_request_changes_nothing(store: SessionStore, request: ToplevelRequestView)
    requires
        !(request.verdict(store) is Accepted),
    ensures
        request.store_after(store) == store,
{
}

/// Adding a toplevel leaves all other toplevels alone.
pub proof fn adding_leaves_others_alone(
    store: SessionStore,
    request: ToplevelRequestView,
    session_id: Seq<char>,
    toplevel_id: Seq<char>,
)
    requires
        session_id != request.session_id || toplevel_id != request.toplevel_id,
    ensures
        model::stored_toplevel(request.store_after(store), session_id, toplevel_id)
            == model::stored_toplevel(store, session_id, toplevel_id),
        request.store_after(store).contains_key(session_id) <==> store.contains_key(session_id),
{
}

/// A window that has got a toplevel session by being added cannot be added or restored under the
/// same name again.
pub proof fn window_is_added_once(
    store: SessionStore,
    first: ToplevelRequestView,
    wanted: ToplevelSessionRefView,
    later_store: SessionStore,
    again: ToplevelRequestView,
)
    requires
        !first.is_restoring,
        first.verdict(store) == ToplevelVerdict::Accepted(wanted),
        again.session_id == first.session_id,
        again.toplevel_id == first.toplevel_id,
        again.toplevel is Some,
        again.toplevel->0.unmapped is Some,
        again.toplevel->0.unmapped->0.app_id == first.toplevel->0.unmapped->0.app_id,
        again.toplevel->0.unmapped->0.session_ref == Some(
            ToplevelSessionStateView::blank(wanted).session_ref,
        ),
    ensures
        again.verdict(later_store) == ToplevelVerdict::NameInUse,
{
}

/// A window that has got a toplevel session by being restored cannot be added or restored under
/// the same name again, provided that what its own session remembers under this name, if anything,
/// is of the same application.
pub proof fn window_is_restored_once(
    store: SessionStore,
    first: ToplevelRequestView,
    wanted: ToplevelSessionRefView,
    state: ToplevelSessionStateView,
    later_store: SessionStore,
    again: ToplevelRequestView,
)
    requires
        model::is_consistent(store),
        first.is_restoring,
        first.verdict(store) == ToplevelVerdict::Accepted(wanted),
        model::stored_toplevel(store, wanted.session_id, wanted.toplevel_id) matches Some(own)
            ==> own.session_ref.app_id == wanted.app_id,
        first.starts_from(store, wanted, state),
        again.session_id == first.session_id,
        again.toplevel_id == first.toplevel_id,
        again.toplevel is Some,
        again.toplevel->0.unmapped is Some,
        again.toplevel->0.unmapped->0.app_id == first.toplevel->0.unmapped->0.app_id,
        again.toplevel->0.unmapped->0.session_ref == Some(state.session_ref),
    ensures
        state.session_ref == wanted,
        again.verdict(later_store) == ToplevelVerdict::NameInUse,
{
}

/// There is always a state that a toplevel can be restored to.
pub proof fn restoring_always_succeeds(store: SessionStore, wanted: ToplevelSessionRefView)
    ensures
        exists|state: ToplevelSessionStateView| model::restores_to(store, wanted, state),
{
    match model::stored_toplevel(store, wanted.session_id, wanted.toplevel_id) {
        Some(own) => {
            assert(model::restores_to(store, wanted, own));
        },
        None => {
            if exists|origin: Seq<char>| #[trigger]
                model::is_origin(store, origin, wanted.toplevel_id, wanted.app_id) {
                let origin = choose|origin: Seq<char>| #[trigger]
                    model::is_origin(store, origin, wanted.toplevel_id, wanted.app_id);
                let state = model::adopted(
                    model::stored_toplevel(store, origin, wanted.toplevel_id)->0,
                    wanted.session_id,
                );
                assert(model::restores_to(store, wanted, state));
            } else {
                let blank = ToplevelSessionStateView::blank(wanted);
                assert(model::restores_to(store, wanted, blank));
            }
        },
    }
}

/// Where the toplevel's own session remembers it, or no more than one session remembers a
/// toplevel of the same name and application, there is only one state to restore it to.
pub proof fn restored_state_is_unique(
    store: SessionStore,
    wanted: ToplevelSessionRefView,
    a: ToplevelSessionStateView,
    b: ToplevelSessionStateView,
)
    requires
        model::restores_to(store, wanted, a),
        model::restores_to(store, wanted, b),
        model::stored_toplevel(store, wanted.session_id, wanted.toplevel_id) is Some || forall|
            x: Seq<char>,
            y: Seq<char>,
        | #[trigger]
            model::is_origin(store, x, wanted.toplevel_id, wanted.app_id) && #[trigger]
            model::is_origin(store, y, wanted.toplevel_id, wanted.app_id) ==> x == y,
    ensures
        a == b,
{
}

/// What a toplevel does not get from its own session it gets from the same application: no state
/// is taken over from another one. It is then part of the session that it was asked from.
pub proof fn adoption_stays_within_application(
    store: SessionStore,
    wanted: ToplevelSessionRefView,
    state: ToplevelSessionStateView,
)
    requires
        model::stored_toplevel(store, wanted.session_id, wanted.toplevel_id) is None,
        model::restores_to(store, wanted, state),
    ensures
        state.session_ref.app_id == wanted.app_id,
        state.session_ref.session_id == wanted.session_id,
{
}

/// A toplevel that another session of the same application remembers starts where it was there.
pub proof fn adopted_toplevel_is_remembered(
    store: SessionStore,
    wanted: ToplevelSessionRefView,
    known: Seq<char>,
    state: ToplevelSessionStateView,
)
    requires
        model::stored_toplevel(store, wanted.session_id, wanted.toplevel_id) is None,
        model::is_origin(store, known, wanted.toplevel_id, wanted.app_id),
        model::restores_to(store, wanted, state),
    ensures
        exists|origin: Seq<char>| #[trigger]
            model::is_origin(store, origin, wanted.toplevel_id, wanted.app_id) && ({
                let old = model::stored_toplevel(store, origin, wanted.toplevel_id)->0;
                state.workspace == old.workspace && state.attributes == old.attributes
            }),
{
}

/// In a consistent store, a restored toplevel refers to the session and the name that it was
/// asked for under.
pub proof fn restored_toplevel_has_wanted_name(
    store: SessionStore,
    wanted: ToplevelSessionRefView,
    state: ToplevelSessionStateView,
)
    requires
        model::is_consistent(store),
        model::restores_to(store, wanted, state),
    ensures
        state.session_ref.session_id == wanted.session_id,
        state.session_ref.toplevel_id == wanted.toplevel_id,
{
    if model::stored_toplevel(store, wanted.session_id, wanted.toplevel_id) is None && exists|
        origin: Seq<char>,
    | #[trigger]
        model::is_origin(store, origin, wanted.toplevel_id, wanted.app_id) {
        let origin = choose|origin: Seq<char>| #[trigger]
            model::is_origin(store, origin, wanted.toplevel_id, wanted.app_id) && state
                == model::adopted(
                model::stored_toplevel(store, origin, wanted.toplevel_id)->0,
                wanted.session_id,
            );
        assert(model::stored_toplevel(store, origin, wanted.toplevel_id) is Some);
    }
}

/// A removed session is forgotten: no toplevel is stored for it, and no toplevel can be added to
/// it or restored from it. The other sessions stay.
pub proof fn removed_session_is_forgotten(
    store: SessionStore,
    session_id: Seq<char>,
    toplevel_id: Seq<char>,
    request: ToplevelRequestView,
    other: Seq<char>,
)
    requires
        request.session_id == session_id,
        other != session_id,
    ensures
        !store.remove(session_id).contains_key(session_id),
        model::stored_toplevel(store.remove(session_id), session_id, toplevel_id) is None,
        !(request.verdict(store.remove(session_id)) is Accepted),
        store.remove(session_id).contains_key(other) <==> store.contains_key(other),
        store.contains_key(other) ==> store.remove(session_id)[other] == store[other],
{
}

/// A removed session that is asked for again, without having been created anew meanwhile, is not
/// restored. The client gets a new session without toplevels, under the first random ID drawn for
/// it that is not in use, as soon as there is one.
pub proof fn removed_session_starts_over(
    store: SessionStore,
    session_id: Seq<char>,
    steps: Seq<StoreStep>,
    drawn: Seq<Seq<char>>,
    chosen: Option<Seq<char>>,
    client: Seq<char>,
    reply: GetSessionReply,
)
    requires
        forall|i: int|
            0 <= i < steps.len() ==> (#[trigger] steps[i]) != (StoreStep::GetSession { session_id }),
        session_id::all_generated(drawn),
        model::is_chosen_id(
            model::after_steps(store.remove(session_id), steps),
            Some(session_id),
            drawn,
            chosen,
        ),
        chosen is Some ==> reply.answers(
            model::after_steps(store.remove(session_id), steps),
            chosen->0,
            false,
            client,
        ),
    ensures
        ({
            let later = model::after_steps(store.remove(session_id), steps);
            &&& !later.contains_key(session_id)
            &&& chosen is None <==> model::all_in_use(later, drawn)
            &&& chosen matches Some(id) ==> {
                &&& session_id::is_random_id(id)
                &&& !later.contains_key(id)
                &&& model::with_session(later, id)[id] == SessionStateView::blank(id)
                &&& match reply {
                    GetSessionReply::Created { session_id: created, session } => created@ == id
                        && session@ == SessionStateView::blank(id),
                    _ => false,
                }
            }
        }),
{
    lemma_session_stays_unknown(store.remove(session_id), steps, session_id);
}

/// A session that is not known becomes known only by being asked for under its ID.
proof fn lemma_session_stays_unknown(
    store: SessionStore,
    steps: Seq<StoreStep>,
    session_id: Seq<char>,
)
    requires
        !store.contains_key(session_id),
        forall|i: int|
            0 <= i < steps.len() ==> (#[trigger] steps[i]) != (StoreStep::GetSession { session_id }),
    ensures
        !model::after_steps(store, steps).contains_key(session_id),
    decreases steps.len(),
{
    if steps.len() > 0 {
        let earlier = steps.drop_last();
        assert(forall|i: int| 0 <= i < earlier.len() ==> earlier[i] == steps[i]);
        lemma_session_stays_unknown(store, earlier, session_id);
        assert(steps[steps.len() - 1] != (StoreStep::GetSession { session_id }));
    }
}

/// A session, once it has been asked for, exists until it is removed, under the same ID. Nothing
/// else that is done removes it.
pub proof fn session_exists_until_removed(
    store: SessionStore,
    session_id: Seq<char>,
    steps: Seq<StoreStep>,
)
    requires
        forall|i: int|
            0 <= i < steps.len() ==> (#[trigger] steps[i]) != (StoreStep::RemoveSession {
                session_id,
            }),
    ensures
        ({
            let before = model::with_session(store, session_id);
            let after = model::after_steps(before, steps);
            &&& after.contains_key(session_id)
            &&& after[session_id].session_id == before[session_id].session_id
        }),
    decreases steps.len(),
{
    if steps.len() > 0 {
        let earlier = steps.drop_last();
        assert(forall|i: int| 0 <= i < earlier.len() ==> earlier[i] == steps[i]);
        session_exists_until_removed(store, session_id, earlier);
        assert(steps[steps.len() - 1] != (StoreStep::RemoveSession { session_id }));
    }
}

/// Among given candidates there is only one ID that the search for an unused one can find.
pub proof fn first_unused_id_is_unique(
    store: SessionStore,
    candidates: Seq<Seq<char>>,
    a: Option<Seq<char>>,
    b: Option<Seq<char>>,
)
    requires
        model::is_first_unused(store, candidates, a),
        model::is_first_unused(store, candidates, b),
    ensures
        a == b,
{
    if a is Some && b is Some {
        let i = choose|i: int|
            0 <= i < candidates.len() && #[trigger] candidates[i] == a->0 && model::all_in_use(
                store,
                candidates.take(i),
            );
        let j = choose|j: int|
            0 <= j < candidates.len() && #[trigger] candidates[j] == b->0 && model::all_in_use(
                store,
                candidates.take(j),
            );
        if i < j {
            assert(candidates.take(j)[i] == candidates[i]);
        } else if j < i {
            assert(candidates.take(i)[j] == candidates[j]);
        }
    }
}

/// In a consistent store, the references that a removed session leaves behind all refer to it,
/// and no toplevel occurs among them twice.
pub proof fn removed_references_are_of_session(
    store: SessionStore,
    session_id: Seq<char>,
    refs: Seq<ToplevelSessionRef>,
    i: int,
    j: int,
)
    requires
        model::is_consistent(store),
        store.contains_key(session_id),
        manager::are_refs_of(refs, store[session_id].sessions),
        0 <= i < refs.len(),
        0 <= j < refs.len(),
    ensures
        refs[i]@.session_id == session_id,
        refs[j]@.session_id == session_id,
        i != j ==> refs[i]@.toplevel_id != refs[j]@.toplevel_id,
{
    let toplevels = store[session_id].sessions;
    let names = choose|names: Seq<Seq<char>>| #[trigger]
        manager::are_refs_in_order(refs, toplevels, names);
    assert(names.contains(names[i]) && names.contains(names[j]));
    assert(model::stored_toplevel(store, session_id, names[i]) == Some(toplevels[names[i]]));
    assert(model::stored_toplevel(store, session_id, names[j]) == Some(toplevels[names[j]]));
}

/// A removed toplevel is forgotten by its session. All other toplevels stay.
pub proof fn removed_toplevel_is_forgotten(
    store: SessionStore,
    session_id: Seq<char>,
    toplevel_id: Seq<char>,
    other_session: Seq<char>,
    other_toplevel: Seq<char>,
)
    requires
        other_session != session_id || other_toplevel != toplevel_id,
    ensures
        ({
            let after = model::without_toplevel(store, session_id, toplevel_id);
            &&& model::stored_toplevel(after, session_id, toplevel_id) is None
            &&& model::stored_toplevel(after, other_session, other_toplevel)
                == model::stored_toplevel(store, other_session, other_toplevel)
            &&& after.contains_key(session_id) <==> store.contains_key(session_id)
        }),
{
}

/// Removing a toplevel undoes adding it, where its name was new to the session.
pub proof fn removing_undoes_adding(
    store: SessionStore,
    request: ToplevelRequestView,
    added: ToplevelSessionRefView,
)
    requires
        !request.is_restoring,
        request.verdict(store) == ToplevelVerdict::Accepted(added),
        model::stored_toplevel(store, added.session_id, added.toplevel_id) is None,
    ensures
        model::without_toplevel(
            request.store_after(store),
            added.session_id,
            added.toplevel_id,
        ) == store,
{
    let after = model::without_toplevel(
        request.store_after(store),
        added.session_id,
        added.toplevel_id,
    );
    assert(after[added.session_id].sessions =~= store[added.session_id].sessions);
    assert(after =~= store);
}

/// Removing a session, or a toplevel, twice is the same as removing it once.
pub proof fn removing_is_idempotent(
    store: SessionStore,
    session_id: Seq<char>,
    toplevel_id: Seq<char>,
)
    ensures
        store.remove(session_id).remove(session_id) == store.remove(session_id),
        ({
            let once = model::without_toplevel(store, session_id, toplevel_id);
            model::without_toplevel(once, session_id, toplevel_id) == once
        }),
{
    let once = model::without_toplevel(store, session_id, toplevel_id);
    let twice = model::without_toplevel(once, session_id, toplevel_id);
    assert(store.remove(session_id).remove(session_id) =~= store.remove(session_id));
    if store.contains_key(session_id) {
        assert(twice[session_id].sessions =~= once[session_id].sessions);
    }
    assert(twice =~= once);
}

/// Whatever is done to a consistent store keeps it consistent.
proof fn lemma_step_keeps_consistency(store: SessionStore, step: StoreStep)
    requires
        model::is_consistent(store),
    ensures
        model::is_consistent(step.applied(store)),
{
    let after = step.applied(store);
    assert forall|id: Seq<char>, name: Seq<char>|
        #![trigger model::stored_toplevel(after, id, name)]
        (model::stored_toplevel(after, id, name) matches Some(state)
            ==> state.session_ref.session_id == id && state.session_ref.toplevel_id == name) by {
        let before = model::stored_toplevel(store, id, name);
        if let StoreStep::Update { mapped, workspace } = step {
            update_leaves_others_alone(store, mapped, workspace, id, name);
        }
        if let Some(state) = model::stored_toplevel(after, id, name) {
            assert(before is Some && before->0.session_ref == state.session_ref
                || state.session_ref.session_id == id && state.session_ref.toplevel_id == name);
        }
    }
    assert(forall|id: Seq<char>| #[trigger]
        after.contains_key(id) ==> after[id].session_id == id || store.contains_key(id)
            && after[id].session_id == store[id].session_id);
}

/// Whatever is done to a consistent store keeps it consistent. In particular, every store that
/// starts out without sessions is consistent: each session is stored under its own ID, and each
/// toplevel under its own name in its own session.
pub proof fn store_stays_consistent(store: SessionStore, steps: Seq<StoreStep>)
    ensures
        model::is_consistent(store) ==> model::is_consistent(model::after_steps(store, steps)),
        model::is_consistent(model::after_steps(Map::empty(), steps)),
    decreases steps.len(),
{
    if steps.len() > 0 {
        store_stays_consistent(store, steps.drop_last());
        let before = model::after_steps(store, steps.drop_last());
        if model::is_consistent(before) {
            lemma_step_keeps_consistency(before, steps.last());
        }
        lemma_step_keeps_consistency(
            model::after_steps(Map::empty(), steps.drop_last()),
            steps.last(),
        );
    }
}

/// What is stored for a toplevel lasts until its window is looked at again, it is added anew, or
/// it or its session is removed. Nothing else that is done changes it.
pub proof fn toplevel_is_remembered_until_touched(
    store: SessionStore,
    steps: Seq<StoreStep>,
    session_id: Seq<char>,
    toplevel_id: Seq<char>,
)
    requires
        forall|i: int|
            0 <= i < steps.len() ==> !(#[trigger] steps[i]).is_about(session_id, toplevel_id),
    ensures
        model::stored_toplevel(model::after_steps(store, steps), session_id, toplevel_id)
            == model::stored_toplevel(store, session_id, toplevel_id),
    decreases steps.len(),
{
    if steps.len() > 0 {
        let earlier = steps.drop_last();
        assert(forall|i: int| 0 <= i < earlier.len() ==> earlier[i] == steps[i]);
        toplevel_is_remembered_until_touched(store, earlier, session_id, toplevel_id);
        assert(!steps[steps.len() - 1].is_about(session_id, toplevel_id));
    }
}

/// Sessions are loaded from where they were saved last: once the resolved file exists, it is what
/// the path resolves to.
pub proof fn saved_sessions_are_found_again(
    default_path: Option<Seq<u8>>,
    default_exists: bool,
    system_exists: bool,
)
    ensures
        ({
            let path = storage::resolved_path(default_path, default_exists, system_exists);
            storage::resolved_path(
                default_path,
                default_exists || default_path == Some(path),
                system_exists || path == storage::ascii_bytes(storage::SYSTEM_PATH@),
            ) == path
        }),
{
}

} // verus!
