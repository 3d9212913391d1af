//! Reconciliation of one work cell, as a state machine. The caller performs
//! each action against the cloud and reports what happened as the next event.

use vstd::prelude::*;
use crate::text::{texts, clone_strings};
use crate::cli::{App, AppView};
use crate::plan::{WorkCell, WorkCellView};

verus! {

/// Where a cell stands: what it is waiting for.
#[derive(Debug, Clone, Copy, PartialEq, Eq, Structural)]
pub enum CellState {
    /// Nothing has been done yet.
    Start,
    /// The caller-identity query is under way.
    AwaitIdentity,
    /// The next managed service is being fetched.
    AwaitService,
    /// A modify call is under way.
    AwaitModify,
    /// An intended modify call is being reported instead of made.
    AwaitReport,
    /// The cell is done; nothing more will be asked for.
    Finished,
}

/// Why a cell stopped.
#[derive(Debug, Clone, Copy, PartialEq, Eq, Structural)]
pub enum StopReason {
    /// Every managed service was visited.
    Completed,
    /// The identity probe failed: the role is not there for this account.
    IdentityUnavailable,
    /// The listing of managed services failed part-way.
    ListingFailed,
    /// An event arrived that the state was not waiting for.
    OutOfTurn,
}

impl StopReason {
    /// Whether the stop points at a fault of the driver. The faults of an
    /// account or a service never are: a cell that meets them has still done
    /// its work.
    pub open spec fn is_fault(self) -> bool {
        self == StopReason::OutOfTurn
    }

    /// Whether the driver handed the cell an event out of turn.
    pub fn fault(self) -> (b: bool)
        ensures
            b == self.is_fault(),
    {
        match self {
            StopReason::OutOfTurn => true,
            _ => false,
        }
    }
}

/// What happened to the action that the cell asked for last.
#[derive(Debug, Clone, PartialEq, Eq)]
pub enum CellEvent {
    /// The cell is to begin.
    Begin,
    /// The caller-identity query answered.
    IdentityConfirmed,
    /// The caller-identity query failed.
    IdentityFailed,
    /// The listing gave the next managed service, with this service id.
    ServiceFound(String),
    /// The listing has no more services.
    ListingExhausted,
    /// The listing failed on a page.
    ListingFailed,
    /// The modify call succeeded.
    ModifySucceeded,
    /// The modify call failed.
    ModifyFailed,
    /// The intended modify call was reported.
    Reported,
}

/// What a `CellEvent` holds.
pub enum CellEventView {
    Begin,
    IdentityConfirmed,
    IdentityFailed,
    ServiceFound(Seq<char>),
    ListingExhausted,
    ListingFailed,
    ModifySucceeded,
    ModifyFailed,
    Reported,
}

impl View for CellEvent {
    type V = CellEventView;

    open spec fn view(&self) -> CellEventView {
        match *self {
            CellEvent::Begin => CellEventView::Begin,
            CellEvent::IdentityConfirmed => CellEventView::IdentityConfirmed,
            CellEvent::IdentityFailed => CellEventView::IdentityFailed,
            CellEvent::ServiceFound(id) => CellEventView::ServiceFound(id@),
            CellEvent::ListingExhausted => CellEventView::ListingExhausted,
            CellEvent::ListingFailed => CellEventView::ListingFailed,
            CellEvent::ModifySucceeded => CellEventView::ModifySucceeded,
            CellEvent::ModifyFailed => CellEventView::ModifyFailed,
            CellEvent::Reported => CellEventView::Reported,
        }
    }
}

/// What the caller is to do next.
#[derive(Debug, Clone, PartialEq, Eq)]
pub enum CellAction {
    /// Ask the cloud who the session is.
    ProbeIdentity,
    /// Fetch the next endpoint service configuration whose tags hold
    /// `tag_key`.
    NextService { tag_key: String },
    /// Add `add_principals` to the allow-list of the service.
    Modify { service_id: String, add_principals: Vec<String> },
    /// Say that `add_principals` would be added to the allow-list of the
    /// service, without calling the cloud.
    Report { service_id: String, add_principals: Vec<String> },
    /// Stop working on this cell.
    Stop(StopReason),
}

/// What a `CellAction` holds.
pub enum CellActionView {
    ProbeIdentity,
    NextService { tag_key: Seq<char> },
    Modify { service_id: Seq<char>, add_principals: Seq<Seq<char>> },
    Report { service_id: Seq<char>, add_principals: Seq<Seq<char>> },
    Stop(StopReason),
}

impl View for CellAction {
    type V = CellActionView;

    open spec fn view(&self) -> CellActionView {
        match *self {
            CellAction::ProbeIdentity => CellActionView::ProbeIdentity,
            CellAction::NextService { tag_key } => CellActionView::NextService { tag_key: tag_key@ },
            CellAction::Modify { service_id, add_principals } => CellActionView::Modify {
                service_id: service_id@,
                add_principals: texts(add_principals@),
            },
            CellAction::Report { service_id, add_principals } => CellActionView::Report {
                service_id: service_id@,
                add_principals: texts(add_principals@),
            },
            CellAction::Stop(reason) => CellActionView::Stop(reason),
        }
    }
}

/// One step of a cell. The identity is probed first, and a failed probe ends
/// the cell at once. Then the managed services are taken one at a time, in
/// the order of the listing; each gets one modify call with the cell's
/// principals, or under dry-run one report in its place, and whatever comes
/// of that, the next service follows. The end of the listing, or a failure
/// of it, ends the cell. An event that the state is not waiting for ends it
/// too.
pub open spec fn step(app: AppView, cell: WorkCellView, state: CellState, event: CellEventView) -> (
    CellState,
    CellActionView,
) {
    match (state, event) {
        (CellState::Start, CellEventView::Begin) => (
            CellState::AwaitIdentity,
            CellActionView::ProbeIdentity,
        ),
        (CellState::AwaitIdentity, CellEventView::IdentityConfirmed) => (
            CellState::AwaitService,
            CellActionView::NextService { tag_key: app.endpoint_key },
        ),
        (CellState::AwaitIdentity, CellEventView::IdentityFailed) => (
            CellState::Finished,
            CellActionView::Stop(StopReason::IdentityUnavailable),
        ),
        (CellState::AwaitService, CellEventView::ServiceFound(service_id)) => if app.dry_run {
            (
                CellState::AwaitReport,
                CellActionView::Report { service_id, add_principals: cell.principals },
            )
        } else {
            (
                CellState::AwaitModify,
                CellActionView::Modify { service_id, add_principals: cell.principals },
            )
        },
        (CellState::AwaitService, CellEventView::ListingExhausted) => (
            CellState::Finished,
            CellActionView::Stop(StopReason::Completed),
        ),
        (CellState::AwaitService, CellEventView::ListingFailed) => (
            CellState::Finished,
            CellActionView::Stop(StopReason::ListingFailed),
        ),
        (CellState::AwaitModify, CellEventView::ModifySucceeded) => (
            CellState::AwaitService,
            CellActionView::NextService { tag_key: app.endpoint_key },
        ),
        (CellState::AwaitModify, CellEventView::ModifyFailed) => (
            CellState::AwaitService,
            CellActionView::NextService { tag_key: app.endpoint_key },
        ),
        (CellState::AwaitReport, CellEventView::Reported) => (
            CellState::AwaitService,
            CellActionView::NextService { tag_key: app.endpoint_key },
        ),
        _ => (CellState::Finished, CellActionView::Stop(StopReason::OutOfTurn)),
    }
}

/// The state in which every cell begins.
pub fn initial_state() -> (state: CellState)
    ensures
        state == CellState::Start,
{
    CellState::Start
}

/// Takes a cell one step further: from its state and the outcome of the last
/// action to its next state and the next action.
pub fn run(app: &App, cell: &WorkCell, state: CellState, event: CellEvent) -> (next: (
    CellState,
    CellAction,
))
    ensures
        (next.0, next.1@) == step(app@, cell@, state, event@),
{
    match (state, event) {
        (CellState::Start, CellEvent::Begin) => (CellState::AwaitIdentity, CellAction::ProbeIdentity),
        (CellState::AwaitIdentity, CellEvent::IdentityConfirmed) => (
            CellState::AwaitService,
            CellAction::NextService { tag_key: app.endpoint_key.clone() },
        ),
        (CellState::AwaitIdentity, CellEvent::IdentityFailed) => (
            CellState::Finished,
            CellAction::Stop(StopReason::IdentityUnavailable),
        ),
        (CellState::AwaitService, CellEvent::ServiceFound(service_id)) => {
            let add_principals = clone_strings(&cell.principals);
            if app.dry_run {
                (CellState::AwaitReport, CellAction::Report { service_id, add_principals })
            } else {
                (CellState::AwaitModify, CellAction::Modify { service_id, add_principals })
            }
        },
        (CellState::AwaitService, CellEvent::ListingExhausted) => (
            CellState::Finished,
            CellAction::Stop(StopReason::Completed),
        ),
        (CellState::AwaitService, CellEvent::ListingFailed) => (
            CellState::Finished,
            CellAction::Stop(StopReason::ListingFailed),
        ),
        (CellState::AwaitModify, CellEvent::ModifySucceeded) => (
            CellState::AwaitService,
            CellAction::NextService { tag_key: app.endpoint_key.clone() },
        ),
        (CellState::AwaitModify, CellEvent::ModifyFailed) => (
            CellState::AwaitService,
            CellAction::NextService { tag_key: app.endpoint_key.clone() },
        ),
        (CellState::AwaitReport, CellEvent::Reported) => (
            CellState::AwaitService,
            CellAction::NextService { tag_key: app.endpoint_key.clone() },
        ),
        _ => (CellState::Finished, CellAction::Stop(StopReason::OutOfTurn)),
    }
}

} // verus!
