//! The work planner: from the authentication mode, the regions and the
//! discovered accounts to the matrix of work cells.

use vstd::prelude::*;
use vstd::string::StringExecFns;
use vstd::arithmetic::div_mod::lemma_fundamental_div_mod_converse;
use crate::text::{texts, opt_texts, clone_strings};
use crate::arn::{role_arn, role_arn_of, principals, principals_of, root_principal_of, lemma_principals_distinct};
use crate::accounts::{dedup, dedup_accounts, lemma_dedup_keeps_each_once, lemma_dedup_of_distinct};
use crate::cli::{AuthMode, AuthModeView};

verus! {

/// How the session of a cell is to be built.
#[derive(Debug, Clone, PartialEq, Eq)]
pub enum SessionSpec {
    /// From the ambient credentials.
    Ambient,
    /// By assuming the role with this ARN from the ambient credentials.
    AssumeRole(String),
}

/// What a `SessionSpec` holds.
pub enum SessionSpecView {
    Ambient,
    AssumeRole(Seq<char>),
}

impl View for SessionSpec {
    type V = SessionSpecView;

    open spec fn view(&self) -> SessionSpecView {
        match *self {
            SessionSpec::Ambient => SessionSpecView::Ambient,
            SessionSpec::AssumeRole(role) => SessionSpecView::AssumeRole(role@),
        }
    }
}

/// One unit of reconciliation work: a session, a region, and the principals
/// to allow on every managed service found there.
#[derive(Debug, Clone, PartialEq, Eq)]
pub struct WorkCell {
    pub session: SessionSpec,
    pub region: String,
    pub principals: Vec<String>,
    pub accounts: Vec<String>,
}

/// What a `WorkCell` holds.
pub struct WorkCellView {
    pub session: SessionSpecView,
    pub region: Seq<char>,
    pub principals: Seq<Seq<char>>,
    pub accounts: Seq<Seq<char>>,
}

impl View for WorkCell {
    type V = WorkCellView;

    open spec fn view(&self) -> WorkCellView {
        WorkCellView {
            session: self.session@,
            region: self.region@,
            principals: texts(self.principals@),
            accounts: texts(self.accounts@),
        }
    }
}

impl WorkCell {
    /// The principals of a cell are the root principals of its accounts, and
    /// no account is listed twice.
    pub open spec fn wf(&self) -> bool {
        &&& self@.accounts.no_duplicates()
        &&& self@.principals == principals_of(self@.accounts)
    }
}

/// The contents of a vector of cells.
pub open spec fn cells(v: Seq<WorkCell>) -> Seq<WorkCellView> {
    Seq::new(v.len(), |i: int| v[i]@)
}

/// The contents of a vector of session descriptors.
pub open spec fn sessions(v: Seq<SessionSpec>) -> Seq<SessionSpecView> {
    Seq::new(v.len(), |i: int| v[i]@)
}

/// The regions to work on: those configured, or else the ambient one alone.
pub open spec fn regions_in_use(configured: Option<Seq<Seq<char>>>, base_region: Seq<char>) -> Seq<
    Seq<char>,
> {
    match configured {
        Some(regions) => regions,
        None => seq![base_region],
    }
}

/// The session from which the organization's accounts are listed.
pub open spec fn discovery_session_of(root_role: Option<Seq<char>>) -> SessionSpecView {
    match root_role {
        Some(role) => SessionSpecView::AssumeRole(role),
        None => SessionSpecView::Ambient,
    }
}

/// The accounts that the cells of a mode carry: the discovered ones, each
/// once, under discovery; none otherwise.
pub open spec fn members_of(mode: AuthModeView, accounts: Seq<Seq<char>>) -> Seq<Seq<char>> {
    match mode {
        AuthModeView::Discover(_, _) => dedup(accounts),
        _ => Seq::empty(),
    }
}

/// The sessions of a mode, one per row of the matrix: the ambient session
/// alone, one per role, or one per member account, in the role at the
/// configured path.
pub open spec fn rows_of(mode: AuthModeView, members: Seq<Seq<char>>) -> Seq<SessionSpecView> {
    match mode {
        AuthModeView::Local => seq![SessionSpecView::Ambient],
        AuthModeView::Assume(roles) => Seq::new(
            roles.len(),
            |i: int| SessionSpecView::AssumeRole(roles[i]),
        ),
        AuthModeView::Discover(_, sub_role) => Seq::new(
            members.len(),
            |i: int| SessionSpecView::AssumeRole(role_arn_of(members[i], sub_role)),
        ),
    }
}

/// The matrix laid out row by row: sessions outside, regions inside. Every
/// cell carries the same accounts and their root principals.
pub open spec fn matrix(
    rows: Seq<SessionSpecView>,
    regions: Seq<Seq<char>>,
    members: Seq<Seq<char>>,
) -> Seq<WorkCellView> {
    Seq::new(
        rows.len() * regions.len(),
        |i: int|
            WorkCellView {
                session: rows[i / (regions.len() as int)],
                region: regions[i % (regions.len() as int)],
                principals: principals_of(members),
                accounts: members,
            },
    )
}

/// The cells planned for a mode, a list of regions and the accounts that
/// discovery returned.
pub open spec fn planned(mode: AuthModeView, regions: Seq<Seq<char>>, accounts: Seq<Seq<char>>) -> Seq<
    WorkCellView,
> {
    matrix(rows_of(mode, members_of(mode, accounts)), regions, members_of(mode, accounts))
}

/// Picks the regions to work on.
pub fn resolve_regions(configured: &Option<Vec<String>>, base_region: &String) -> (out: Vec<String>)
    ensures
        texts(out@) == regions_in_use(opt_texts(*configured), base_region@),
        configured is None ==> out@.len() == 1 && out@[0]@ == base_region@,
{
    match configured {
        Some(regions) => clone_strings(regions),
        None => {
            let mut out: Vec<String> = Vec::new();
            out.push(base_region.clone());
            proof {
                assert(texts(out@) =~= seq![base_region@]);
            }
            out
        },
    }
}

/// The name under which every role is assumed.
pub fn session_name() -> (name: String)
    ensures
        name@ == "ctrl-vpces"@,
{
    String::from_str("ctrl-vpces")
}

/// Says how to build the session that lists the organization's accounts.
pub fn discovery_session(root_role: &Option<String>) -> (session: SessionSpec)
    ensures
        session@ == discovery_session_of(crate::text::opt_text(*root_role)),
{
    match root_role {
        Some(role) => SessionSpec::AssumeRole(role.clone()),
        None => SessionSpec::Ambient,
    }
}

/// Copies a session descriptor.
pub fn clone_session(session: &SessionSpec) -> (out: SessionSpec)
    ensures
        out@ == session@,
{
    match session {
        SessionSpec::Ambient => SessionSpec::Ambient,
        SessionSpec::AssumeRole(role) => SessionSpec::AssumeRole(role.clone()),
    }
}

/// The rows of the matrix for a mode and its member accounts.
fn rows_for(auth_mode: &AuthMode, members: &Vec<String>) -> (rows: Vec<SessionSpec>)
    ensures
        sessions(rows@) == rows_of(auth_mode@, texts(members@)),
{
    let mut rows: Vec<SessionSpec> = Vec::new();
    match auth_mode {
        AuthMode::Local => {
            rows.push(SessionSpec::Ambient);
        },
        AuthMode::Assume(roles) => {
            let mut i: usize = 0;
            while i < roles.len()
                invariant
                    i <= roles.len(),
                    rows.len() == i,
                    forall|k: int|
                        0 <= k < i ==> (#[trigger] rows@[k])@ == SessionSpecView::AssumeRole(
                            roles@[k]@,
                        ),
                decreases roles.len() - i,
            {
                rows.push(SessionSpec::AssumeRole(roles[i].clone()));
                i += 1;
            }
        },
        AuthMode::Discover(_, sub_role) => {
            let mut i: usize = 0;
            while i < members.len()
                invariant
                    i <= members.len(),
                    rows.len() == i,
                    forall|k: int|
                        0 <= k < i ==> (#[trigger] rows@[k])@ == SessionSpecView::AssumeRole(
                            role_arn_of(members@[k]@, sub_role@),
                        ),
                decreases members.len() - i,
            {
                rows.push(SessionSpec::AssumeRole(role_arn(&members[i], sub_role)));
                i += 1;
            }
        },
    }
    proof {
        assert(sessions(rows@) =~= rows_of(auth_mode@, texts(members@)));
    }
    rows
}

/// Lays the matrix out: one cell per row and region, rows outside, regions
/// inside.
fn lay_out(rows: &Vec<SessionSpec>, regions: &Vec<String>, members: &Vec<String>) -> (out: Vec<
    WorkCell,
>)
    ensures
        cells(out@) == matrix(sessions(rows@), texts(regions@), texts(members@)),
{
    let allowed = principals(members);
    let mut out: Vec<WorkCell> = Vec::new();
    let ghost g = regions.len() as int;
    let ghost want = matrix(sessions(rows@), texts(regions@), texts(members@));
    let mut k: usize = 0;
    while k < rows.len()
        invariant
            k <= rows.len(),
            g == regions.len(),
            want == matrix(sessions(rows@), texts(regions@), texts(members@)),
            texts(allowed@) == principals_of(texts(members@)),
            out.len() == k * g,
            forall|i: int| 0 <= i < out.len() ==> (#[trigger] out@[i])@ == want[i],
        decreases rows.len() - k,
    {
        let mut j: usize = 0;
        while j < regions.len()
            invariant
                k < rows.len(),
                j <= regions.len(),
                g == regions.len(),
                want == matrix(sessions(rows@), texts(regions@), texts(members@)),
                texts(allowed@) == principals_of(texts(members@)),
                out.len() == k * g + j,
                forall|i: int| 0 <= i < out.len() ==> (#[trigger] out@[i])@ == want[i],
            decreases regions.len() - j,
        {
            let cell = WorkCell {
                session: clone_session(&rows[k]),
                region: regions[j].clone(),
                principals: clone_strings(&allowed),
                accounts: clone_strings(members),
            };
            proof {
                let i = k * g + j;
                lemma_fundamental_div_mod_converse(i, g, k as int, j as int);
                assert(i < rows.len() * g) by (nonlinear_arith)
                    requires
                        i == k * g + j,
                        0 <= j < g,
                        0 <= k < rows.len(),
                ;
                assert(cell@ == want[i]);
            }
            out.push(cell);
            j += 1;
        }
        proof {
            assert((k + 1) * g == k * g + g) by (nonlinear_arith);
        }
        k += 1;
    }
    proof {
        assert(cells(out@) =~= want);
    }
    out
}

/// Plans the cells of one cycle. `accounts` are the accounts that discovery
/// returned; outside discovery mode they play no part.
pub fn plan(auth_mode: &AuthMode, regions: &Vec<String>, accounts: &Vec<String>) -> (out: Vec<
    WorkCell,
>)
    ensures
        cells(out@) == planned(auth_mode@, texts(regions@), texts(accounts@)),
        forall|i: int| 0 <= i < out@.len() ==> (#[trigger] out@[i]).wf(),
{
    let members = match auth_mode {
        AuthMode::Discover(_, _) => dedup_accounts(accounts),
        _ => Vec::new(),
    };
    proof {
        if !(auth_mode is Discover) {
            assert(texts(members@) =~= Seq::<Seq<char>>::empty());
        }
        lemma_dedup_keeps_each_once(texts(accounts@));
    }
    let rows = rows_for(auth_mode, &members);
    let out = lay_out(&rows, regions, &members);
    proof {
        assert forall|i: int| 0 <= i < out@.len() implies (#[trigger] out@[i]).wf() by {
            let want = planned(auth_mode@, texts(regions@), texts(accounts@));
            assert(cells(out@).len() == out@.len());
            assert(out@[i]@ == cells(out@)[i]);
            assert(want[i].accounts == texts(members@));
            assert(want[i].principals == principals_of(texts(members@)));
            assert(texts(members@).no_duplicates());
        }
    }
    out
}

/// The matrix has one cell for every pair of a row and a region: as many as
/// there are regions in local mode, roles times regions where roles are
/// given, and distinct accounts times regions under discovery.
pub proof fn lemma_matrix_size(mode: AuthModeView, regions: Seq<Seq<char>>, accounts: Seq<Seq<char>>)
    ensures
        planned(mode, regions, accounts).len() == match mode {
            AuthModeView::Local => regions.len(),
            AuthModeView::Assume(roles) => roles.len() * regions.len(),
            AuthModeView::Discover(_, _) => dedup(accounts).len() * regions.len(),
        },
        mode is Discover && accounts.no_duplicates() ==> planned(mode, regions, accounts).len()
            == accounts.len() * regions.len(),
{
    if accounts.no_duplicates() {
        lemma_dedup_of_distinct(accounts);
    }
    assert(1 * regions.len() == regions.len()) by (nonlinear_arith);
}

/// Where no region is configured, the plan covers the ambient region and no
/// other: every cell lies in it, and there is one cell per row.
pub proof fn lemma_region_fallback(mode: AuthModeView, base_region: Seq<char>, accounts: Seq<Seq<char>>)
    ensures
        regions_in_use(None, base_region) == seq![base_region],
        planned(mode, regions_in_use(None, base_region), accounts).len() == rows_of(
            mode,
            members_of(mode, accounts),
        ).len(),
        forall|i: int|
            0 <= i < planned(mode, regions_in_use(None, base_region), accounts).len() ==> (
            #[trigger] planned(mode, regions_in_use(None, base_region), accounts)[i]).region
                == base_region,
{
    let regions = regions_in_use(None, base_region);
    let rows = rows_of(mode, members_of(mode, accounts));
    assert(rows.len() * 1 == rows.len()) by (nonlinear_arith);
    assert(regions.len() == 1);
    assert forall|i: int| 0 <= i < planned(mode, regions, accounts).len() implies (
    #[trigger] planned(mode, regions, accounts)[i]).region == base_region by {
        assert(i % 1 == 0);
    }
}

/// Under discovery every planned cell allows exactly the root principals of
/// the discovered accounts, each once, and nothing else.
pub proof fn lemma_planned_principals(
    root_role: Option<Seq<char>>,
    sub_role: Seq<char>,
    regions: Seq<Seq<char>>,
    accounts: Seq<Seq<char>>,
    i: int,
)
    requires
        0 <= i < planned(AuthModeView::Discover(root_role, sub_role), regions, accounts).len(),
    ensures
        ({
            let cell = planned(AuthModeView::Discover(root_role, sub_role), regions, accounts)[i];
            &&& cell.principals.no_duplicates()
            &&& forall|p: Seq<char>|
                cell.principals.contains(p) <==> exists|a: Seq<char>| #[trigger]
                    accounts.contains(a) && p == root_principal_of(a)
        }),
{
    let members = dedup(accounts);
    let ps = principals_of(members);
    lemma_dedup_keeps_each_once(accounts);
    lemma_principals_distinct(members);
    assert forall|p: Seq<char>| ps.contains(p) <==> exists|a: Seq<char>| #[trigger]
        accounts.contains(a) && p == root_principal_of(a) by {
        if ps.contains(p) {
            let k = choose|k: int| 0 <= k < ps.len() && ps[k] == p;
            assert(members.contains(members[k]));
            assert(accounts.contains(members[k]));
        }
        if exists|a: Seq<char>| #[trigger] accounts.contains(a) && p == root_principal_of(a) {
            let a = choose|a: Seq<char>| #[trigger] accounts.contains(a) && p == root_principal_of(a);
            assert(members.contains(a));
            let k = choose|k: int| 0 <= k < members.len() && members[k] == a;
            assert(ps[k] == p);
        }
    }
}

/// Under discovery the cell in row `r` and column `c` assumes, in the `r`-th
/// distinct account, the role whose ARN is `arn:aws:iam::<account>:role`
/// followed by the configured path, in the `c`-th region.
pub proof fn lemma_planned_role(
    root_role: Option<Seq<char>>,
    sub_role: Seq<char>,
    regions: Seq<Seq<char>>,
    accounts: Seq<Seq<char>>,
    r: int,
    c: int,
)
    requires
        0 <= r < dedup(accounts).len(),
        0 <= c < regions.len(),
    ensures
        ({
            let all = planned(AuthModeView::Discover(root_role, sub_role), regions, accounts);
            let i = r * regions.len() + c;
            &&& 0 <= i < all.len()
            &&& all[i].session == SessionSpecView::AssumeRole(
                "arn:aws:iam::"@ + dedup(accounts)[r] + ":role"@ + sub_role,
            )
            &&& all[i].region == regions[c]
        }),
{
    let g = regions.len() as int;
    let i = r * g + c;
    lemma_fundamental_div_mod_converse(i, g, r, c);
    assert(0 <= i < dedup(accounts).len() * g) by (nonlinear_arith)
        requires
            i == r * g + c,
            0 <= c < g,
            0 <= r < dedup(accounts).len(),
    ;
}

} // verus!
