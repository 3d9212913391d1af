//! The cycle loop's decisions: what a cycle starts with, what follows the
//! discovery of accounts, and how long to rest before the next cycle.

use vstd::prelude::*;
use crate::text::texts;
use crate::accounts::Discovery;
use crate::cli::{App, AuthMode, AuthModeView};
use crate::plan::{
    cells, discovery_session, discovery_session_of, plan, planned, regions_in_use,
    resolve_regions, SessionSpec, WorkCell,
};

verus! {

/// Seconds of rest between two cycles that ran their matrix.
pub const CYCLE_PERIOD_SECS: u64 = 300;

/// The shortest rest, in seconds, after a failed discovery.
pub const BACKOFF_MIN_SECS: u64 = 60;

/// The bound, in seconds, below which every rest after a failed discovery
/// stays.
pub const BACKOFF_LIMIT_SECS: u64 = 300;

/// What a cycle begins with.
#[derive(Debug, Clone)]
pub enum CycleStart {
    /// List the organization's accounts through this session first.
    Discover(SessionSpec),
    /// Run these cells.
    Execute(Vec<WorkCell>),
}

/// What follows the discovery.
#[derive(Debug, Clone)]
pub enum AfterDiscovery {
    /// Run these cells.
    Execute(Vec<WorkCell>),
    /// Run nothing; rest for this many seconds and start the cycle again.
    Backoff(u64),
}

/// What follows a cycle that ran its matrix.
#[derive(Debug, Clone, Copy, PartialEq, Eq, Structural)]
pub enum AfterCycle {
    /// Stop the controller.
    Exit,
    /// Rest for this many seconds, then start the next cycle.
    Sleep(u64),
}

/// Calls `fastrand::u64` on the half-open range from `low` to `high`. The
/// generator panics on an empty range, which `low < high` rules out, and
/// hands back a value of the range; which one is not known here.
#[verifier::external_body]
fn random_below(low: u64, high: u64) -> (sample: u64)
    requires
        low < high,
    ensures
        low <= sample < high,
{
    fastrand::u64(low..high)
}

/// Plans the cells of a cycle over the configured regions, or else the
/// ambient one.
pub fn plan_cycle(app: &App, base_region: &String, accounts: &Vec<String>) -> (out: Vec<WorkCell>)
    ensures
        cells(out@) == planned(
            app@.auth_mode,
            regions_in_use(app@.regions, base_region@),
            texts(accounts@),
        ),
        forall|i: int| 0 <= i < out@.len() ==> (#[trigger] out@[i]).wf(),
{
    let regions = resolve_regions(&app.regions, base_region);
    plan(&app.auth_mode, &regions, accounts)
}

/// Begins a cycle. Under discovery the accounts have to be listed first;
/// otherwise the cells are planned at once.
pub fn begin_cycle(app: &App, base_region: &String) -> (start: CycleStart)
    ensures
        match app@.auth_mode {
            AuthModeView::Discover(root_role, _) => start is Discover && start->Discover_0@
                == discovery_session_of(root_role),
            mode => start is Execute && cells(start->Execute_0@) == planned(
                mode,
                regions_in_use(app@.regions, base_region@),
                Seq::empty(),
            ),
        },
        start matches CycleStart::Execute(out) ==> forall|i: int|
            0 <= i < out@.len() ==> (#[trigger] out@[i]).wf(),
{
    match &app.auth_mode {
        AuthMode::Discover(root_role, _) => CycleStart::Discover(discovery_session(root_role)),
        _ => {
            let none: Vec<String> = Vec::new();
            proof {
                assert(texts(none@) =~= Seq::<Seq<char>>::empty());
            }
            CycleStart::Execute(plan_cycle(app, base_region, &none))
        },
    }
}

/// Decides what follows the discovery, given the rest to take should it have
/// failed. With the accounts in hand the cells are planned; after a failure
/// nothing is run and the rest is `rest_secs`.
pub fn settle_discovery(app: &App, base_region: &String, outcome: Discovery, rest_secs: u64) -> (next:
    AfterDiscovery)
    ensures
        match outcome {
            Discovery::Accounts(accounts) => next is Execute && cells(next->Execute_0@) == planned(
                app@.auth_mode,
                regions_in_use(app@.regions, base_region@),
                texts(accounts@),
            ),
            Discovery::Failed => next == AfterDiscovery::Backoff(rest_secs),
        },
        next matches AfterDiscovery::Execute(out) ==> forall|i: int|
            0 <= i < out@.len() ==> (#[trigger] out@[i]).wf(),
{
    match outcome {
        Discovery::Accounts(accounts) => AfterDiscovery::Execute(
            plan_cycle(app, base_region, &accounts),
        ),
        Discovery::Failed => AfterDiscovery::Backoff(rest_secs),
    }
}

/// Draws the rest to take after a failed discovery: at least
/// `BACKOFF_MIN_SECS` and less than `BACKOFF_LIMIT_SECS` seconds, drawn anew
/// at every call.
pub fn backoff_seconds() -> (secs: u64)
    ensures
        BACKOFF_MIN_SECS <= secs < BACKOFF_LIMIT_SECS,
{
    random_below(BACKOFF_MIN_SECS, BACKOFF_LIMIT_SECS)
}

/// Decides what follows the discovery. With the accounts in hand the cells
/// are planned; after a failure nothing is run, and the cycle starts again
/// after a rest of at least 60 and less than 300 seconds.
pub fn after_discovery(app: &App, base_region: &String, outcome: Discovery) -> (next: AfterDiscovery)
    ensures
        match outcome {
            Discovery::Accounts(accounts) => next is Execute && cells(next->Execute_0@) == planned(
                app@.auth_mode,
                regions_in_use(app@.regions, base_region@),
                texts(accounts@),
            ),
            Discovery::Failed => next is Backoff && 60 <= next->Backoff_0 < 300,
        },
        next matches AfterDiscovery::Execute(out) ==> forall|i: int|
            0 <= i < out@.len() ==> (#[trigger] out@[i]).wf(),
{
    match outcome {
        Discovery::Accounts(accounts) => AfterDiscovery::Execute(
            plan_cycle(app, base_region, &accounts),
        ),
        Discovery::Failed => settle_discovery(app, base_region, Discovery::Failed, backoff_seconds()),
    }
}

/// Decides what follows a cycle whose matrix has run to its end: the
/// controller stops if it was asked to run once, and otherwise rests for
/// five minutes.
pub fn after_matrix(app: &App) -> (next: AfterCycle)
    ensures
        next == if app.once {
            AfterCycle::Exit
        } else {
            AfterCycle::Sleep(300)
        },
{
    if app.once {
        AfterCycle::Exit
    } else {
        AfterCycle::Sleep(CYCLE_PERIOD_SECS)
    }
}

} // verus!
