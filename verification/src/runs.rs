//! Whole runs of a cell: what the step function does over a sequence of
//! events, and what holds of every such run.

use vstd::prelude::*;
use crate::cli::AppView;
use crate::plan::WorkCellView;
use crate::controller::{step, CellState, CellEventView, CellActionView, StopReason};

verus! {

/// The actions that a cell asks for, one per event, when it starts in `state`
/// and is handed `events` in turn.
pub open spec fn actions(
    app: AppView,
    cell: WorkCellView,
    state: CellState,
    events: Seq<CellEventView>,
) -> Seq<CellActionView>
    decreases events.len(),
{
    if events.len() == 0 {
        Seq::empty()
    } else {
        let (next, action) = step(app, cell, state, events[0]);
        seq![action] + actions(app, cell, next, events.drop_first())
    }
}

/// The state of a cell that started in `state` and was handed `events`.
pub open spec fn state_after(
    app: AppView,
    cell: WorkCellView,
    state: CellState,
    events: Seq<CellEventView>,
) -> CellState
    decreases events.len(),
{
    if events.len() == 0 {
        state
    } else {
        state_after(app, cell, step(app, cell, state, events[0]).0, events.drop_first())
    }
}

/// The modify calls among `acts`, in order: each a service id and the
/// principals to add.
pub open spec fn modify_calls(acts: Seq<CellActionView>) -> Seq<(Seq<char>, Seq<Seq<char>>)>
    decreases acts.len(),
{
    if acts.len() == 0 {
        Seq::empty()
    } else {
        let rest = modify_calls(acts.drop_first());
        match acts[0] {
            CellActionView::Modify { service_id, add_principals } => seq![
                (service_id, add_principals),
            ] + rest,
            _ => rest,
        }
    }
}

/// The events of a listing that yields `services` in order and then ends,
/// where the modify call for the `i`-th service succeeds if `outcomes[i]`
/// and fails if not.
pub open spec fn visit_events(services: Seq<Seq<char>>, outcomes: Seq<bool>) -> Seq<CellEventView>
    decreases services.len(),
{
    if services.len() == 0 {
        seq![CellEventView::ListingExhausted]
    } else {
        seq![
            CellEventView::ServiceFound(services[0]),
            if outcomes[0] {
                CellEventView::ModifySucceeded
            } else {
                CellEventView::ModifyFailed
            },
        ] + visit_events(services.drop_first(), outcomes.drop_first())
    }
}

/// The events of a whole cell whose identity probe succeeds and whose listing
/// yields `services`.
pub open spec fn full_run(services: Seq<Seq<char>>, outcomes: Seq<bool>) -> Seq<CellEventView> {
    seq![CellEventView::Begin, CellEventView::IdentityConfirmed] + visit_events(services, outcomes)
}

/// One modify call per service, in order, each with `principals`.
pub open spec fn one_call_each(services: Seq<Seq<char>>, principals: Seq<Seq<char>>) -> Seq<
    (Seq<char>, Seq<Seq<char>>),
> {
    Seq::new(services.len(), |i: int| (services[i], principals))
}

/// The actions of a run are its first action followed by those of the rest.
proof fn lemma_actions_unfold(
    app: AppView,
    cell: WorkCellView,
    state: CellState,
    first: CellEventView,
    rest: Seq<CellEventView>,
)
    ensures
        actions(app, cell, state, seq![first] + rest) == seq![step(app, cell, state, first).1]
            + actions(app, cell, step(app, cell, state, first).0, rest),
        state_after(app, cell, state, seq![first] + rest) == state_after(
            app,
            cell,
            step(app, cell, state, first).0,
            rest,
        ),
{
    let events = seq![first] + rest;
    assert(events[0] == first);
    assert(events.drop_first() =~= rest);
}

/// The modify calls of a sequence are those of its head followed by those of
/// its tail.
proof fn lemma_calls_unfold(first: CellActionView, rest: Seq<CellActionView>)
    ensures
        modify_calls(seq![first] + rest) == match first {
            CellActionView::Modify { service_id, add_principals } => seq![
                (service_id, add_principals),
            ] + modify_calls(rest),
            _ => modify_calls(rest),
        },
{
    let acts = seq![first] + rest;
    assert(acts[0] == first);
    assert(acts.drop_first() =~= rest);
}

/// Under dry-run no step asks for a modify call, so no run holds one,
/// whatever the events are and wherever the cell starts.
pub proof fn lemma_dry_run_issues_no_modify(
    app: AppView,
    cell: WorkCellView,
    state: CellState,
    events: Seq<CellEventView>,
)
    requires
        app.dry_run,
    ensures
        modify_calls(actions(app, cell, state, events)) == Seq::<(Seq<char>, Seq<Seq<char>>)>::empty(),
        forall|i: int|
            0 <= i < actions(app, cell, state, events).len() ==> !(#[trigger] actions(
                app,
                cell,
                state,
                events,
            )[i] is Modify),
    decreases events.len(),
{
    if events.len() > 0 {
        let (next, action) = step(app, cell, state, events[0]);
        let rest = events.drop_first();
        lemma_dry_run_issues_no_modify(app, cell, next, rest);
        assert(events =~= seq![events[0]] + rest);
        lemma_actions_unfold(app, cell, state, events[0], rest);
        lemma_calls_unfold(action, actions(app, cell, next, rest));
        assert(!(action is Modify));
        let acts = actions(app, cell, state, events);
        assert forall|i: int| 0 <= i < acts.len() implies !(#[trigger] acts[i] is Modify) by {
            if i > 0 {
                assert(acts[i] == actions(app, cell, next, rest)[i - 1]);
            }
        }
    }
}

/// A finished cell stays finished and asks for no modify call.
pub proof fn lemma_finished_is_final(app: AppView, cell: WorkCellView, events: Seq<CellEventView>)
    ensures
        state_after(app, cell, CellState::Finished, events) == CellState::Finished,
        modify_calls(actions(app, cell, CellState::Finished, events)) == Seq::<
            (Seq<char>, Seq<Seq<char>>),
        >::empty(),
    decreases events.len(),
{
    if events.len() > 0 {
        let rest = events.drop_first();
        lemma_finished_is_final(app, cell, rest);
        assert(events =~= seq![events[0]] + rest);
        lemma_actions_unfold(app, cell, CellState::Finished, events[0], rest);
        lemma_calls_unfold(
            step(app, cell, CellState::Finished, events[0]).1,
            actions(app, cell, CellState::Finished, rest),
        );
    }
}

/// A cell whose identity probe fails stops there, without a fault, and makes
/// no modify call, whatever is reported to it afterwards.
pub proof fn lemma_failed_probe_is_swallowed(
    app: AppView,
    cell: WorkCellView,
    later: Seq<CellEventView>,
)
    ensures
        ({
            let events = seq![CellEventView::Begin, CellEventView::IdentityFailed] + later;
            let acts = actions(app, cell, CellState::Start, events);
            &&& acts.len() >= 2
            &&& acts[0] == CellActionView::ProbeIdentity
            &&& acts[1] == CellActionView::Stop(StopReason::IdentityUnavailable)
            &&& !StopReason::IdentityUnavailable.is_fault()
            &&& modify_calls(acts) == Seq::<(Seq<char>, Seq<Seq<char>>)>::empty()
            &&& state_after(app, cell, CellState::Start, events) == CellState::Finished
        }),
{
    let tail = seq![CellEventView::IdentityFailed] + later;
    let events = seq![CellEventView::Begin, CellEventView::IdentityFailed] + later;
    assert(events =~= seq![CellEventView::Begin] + tail);
    lemma_actions_unfold(app, cell, CellState::Start, CellEventView::Begin, tail);
    lemma_actions_unfold(app, cell, CellState::AwaitIdentity, CellEventView::IdentityFailed, later);
    lemma_finished_is_final(app, cell, later);
    let done = actions(app, cell, CellState::Finished, later);
    let from_probe = actions(app, cell, CellState::AwaitIdentity, tail);
    lemma_calls_unfold(CellActionView::Stop(StopReason::IdentityUnavailable), done);
    lemma_calls_unfold(CellActionView::ProbeIdentity, from_probe);
}

/// A failed modify call on one service does not keep the next service from
/// its own: the cell asks for the next service just as after a success, and
/// answers it with a modify call that carries the cell's principals.
pub proof fn lemma_modify_failure_is_contained(
    app: AppView,
    cell: WorkCellView,
    next_service: Seq<char>,
)
    requires
        !app.dry_run,
    ensures
        step(app, cell, CellState::AwaitModify, CellEventView::ModifyFailed) == step(
            app,
            cell,
            CellState::AwaitModify,
            CellEventView::ModifySucceeded,
        ),
        actions(
            app,
            cell,
            CellState::AwaitModify,
            seq![CellEventView::ModifyFailed, CellEventView::ServiceFound(next_service)],
        ) == seq![
            CellActionView::NextService { tag_key: app.endpoint_key },
            CellActionView::Modify { service_id: next_service, add_principals: cell.principals },
        ],
{
    let found = CellEventView::ServiceFound(next_service);
    let events = seq![CellEventView::ModifyFailed, found];
    assert(events =~= seq![CellEventView::ModifyFailed] + seq![found]);
    lemma_actions_unfold(app, cell, CellState::AwaitModify, CellEventView::ModifyFailed, seq![found]);
    assert(seq![found] =~= seq![found] + Seq::<CellEventView>::empty());
    lemma_actions_unfold(app, cell, CellState::AwaitService, found, Seq::empty());
    assert(actions(app, cell, CellState::AwaitService, seq![found]) =~= seq![
        CellActionView::Modify { service_id: next_service, add_principals: cell.principals },
    ]);
    assert(actions(app, cell, CellState::AwaitModify, events) =~= seq![
        CellActionView::NextService { tag_key: app.endpoint_key },
        CellActionView::Modify { service_id: next_service, add_principals: cell.principals },
    ]);
}

/// A cell that is waiting for a service and is handed a whole listing makes
/// one modify call per service, in the order of the listing, each with the
/// cell's principals, whichever of the calls fail; then it is finished.
pub proof fn lemma_listing_is_visited(
    app: AppView,
    cell: WorkCellView,
    services: Seq<Seq<char>>,
    outcomes: Seq<bool>,
)
    requires
        !app.dry_run,
        outcomes.len() == services.len(),
    ensures
        modify_calls(
            actions(app, cell, CellState::AwaitService, visit_events(services, outcomes)),
        ) == one_call_each(services, cell.principals),
        state_after(app, cell, CellState::AwaitService, visit_events(services, outcomes))
            == CellState::Finished,
    decreases services.len(),
{
    let events = visit_events(services, outcomes);
    if services.len() == 0 {
        let last = CellEventView::ListingExhausted;
        assert(events =~= seq![last] + Seq::<CellEventView>::empty());
        lemma_actions_unfold(app, cell, CellState::AwaitService, last, Seq::empty());
        lemma_calls_unfold(
            CellActionView::Stop(StopReason::Completed),
            actions(app, cell, CellState::Finished, Seq::empty()),
        );
        assert(one_call_each(services, cell.principals) =~= Seq::empty());
    } else {
        let found = CellEventView::ServiceFound(services[0]);
        let result = if outcomes[0] {
            CellEventView::ModifySucceeded
        } else {
            CellEventView::ModifyFailed
        };
        let rest = visit_events(services.drop_first(), outcomes.drop_first());
        lemma_listing_is_visited(app, cell, services.drop_first(), outcomes.drop_first());
        assert(events =~= seq![found] + (seq![result] + rest));
        lemma_actions_unfold(app, cell, CellState::AwaitService, found, seq![result] + rest);
        lemma_actions_unfold(app, cell, CellState::AwaitModify, result, rest);
        let tail_acts = actions(app, cell, CellState::AwaitService, rest);
        let fetch = CellActionView::NextService { tag_key: app.endpoint_key };
        let modify = CellActionView::Modify {
            service_id: services[0],
            add_principals: cell.principals,
        };
        lemma_calls_unfold(fetch, tail_acts);
        lemma_calls_unfold(modify, seq![fetch] + tail_acts);
        assert(one_call_each(services, cell.principals) =~= seq![(services[0], cell.principals)]
            + one_call_each(services.drop_first(), cell.principals));
    }
}

/// A whole cell, from its start: with a successful probe and a listing of
/// `services`, the modify calls are one per service, in order, each with the
/// cell's principals.
pub proof fn lemma_cell_calls(
    app: AppView,
    cell: WorkCellView,
    services: Seq<Seq<char>>,
    outcomes: Seq<bool>,
)
    requires
        !app.dry_run,
        outcomes.len() == services.len(),
    ensures
        modify_calls(actions(app, cell, CellState::Start, full_run(services, outcomes)))
            == one_call_each(services, cell.principals),
        state_after(app, cell, CellState::Start, full_run(services, outcomes))
            == CellState::Finished,
{
    let visit = visit_events(services, outcomes);
    let events = full_run(services, outcomes);
    let tail = seq![CellEventView::IdentityConfirmed] + visit;
    assert(events =~= seq![CellEventView::Begin] + tail);
    lemma_actions_unfold(app, cell, CellState::Start, CellEventView::Begin, tail);
    lemma_actions_unfold(app, cell, CellState::AwaitIdentity, CellEventView::IdentityConfirmed, visit);
    lemma_listing_is_visited(app, cell, services, outcomes);
    let visited = actions(app, cell, CellState::AwaitService, visit);
    let fetch = CellActionView::NextService { tag_key: app.endpoint_key };
    lemma_calls_unfold(fetch, visited);
    lemma_calls_unfold(CellActionView::ProbeIdentity, seq![fetch] + visited);
}

/// Two cycles over the same cell see the same modify calls where the cloud
/// lists the same services: the calls depend on the configuration, the
/// cell's principals and the listing, and not on how earlier calls fared.
pub proof fn lemma_cycles_repeat(
    app: AppView,
    cell: WorkCellView,
    services: Seq<Seq<char>>,
    first_outcomes: Seq<bool>,
    second_outcomes: Seq<bool>,
)
    requires
        first_outcomes.len() == services.len(),
        second_outcomes.len() == services.len(),
    ensures
        modify_calls(actions(app, cell, CellState::Start, full_run(services, first_outcomes)))
            == modify_calls(
            actions(app, cell, CellState::Start, full_run(services, second_outcomes)),
        ),
{
    if app.dry_run {
        lemma_dry_run_issues_no_modify(
            app,
            cell,
            CellState::Start,
            full_run(services, first_outcomes),
        );
        lemma_dry_run_issues_no_modify(
            app,
            cell,
            CellState::Start,
            full_run(services, second_outcomes),
        );
    } else {
        lemma_cell_calls(app, cell, services, first_outcomes);
        lemma_cell_calls(app, cell, services, second_outcomes);
    }
}

} // verus!
