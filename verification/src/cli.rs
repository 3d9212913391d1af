//! The controller's configuration and the rules that turn command-line flags
//! into it.

use vstd::prelude::*;
use vstd::string::StringExecFns;
use crate::text::{texts, opt_text, opt_texts};

verus! {

/// How the controller obtains credentials for the accounts it works on.
#[derive(Debug, Clone)]
pub enum AuthMode {
    /// Use the default credentials provider chain on local machine
    Local,
    /// Use the provided list of roles to assume
    Assume(Vec<String>),
    /// Discover accounts and roles to assume from an organization
    Discover(Option<String>, String),
}

/// What an `AuthMode` holds, as plain sequences.
pub enum AuthModeView {
    Local,
    Assume(Seq<Seq<char>>),
    Discover(Option<Seq<char>>, Seq<char>),
}

impl View for AuthMode {
    type V = AuthModeView;

    open spec fn view(&self) -> AuthModeView {
        match *self {
            AuthMode::Local => AuthModeView::Local,
            AuthMode::Assume(roles) => AuthModeView::Assume(texts(roles@)),
            AuthMode::Discover(root_role, sub_role) => AuthModeView::Discover(
                opt_text(root_role),
                sub_role@,
            ),
        }
    }
}

impl AuthMode {
    /// An `Assume` mode names at least one role.
    pub open spec fn wf(&self) -> bool {
        match *self {
            AuthMode::Assume(roles) => roles@.len() > 0,
            _ => true,
        }
    }
}

/// Why a combination of flags is refused.
#[derive(Debug, Clone, Copy, PartialEq, Eq)]
pub enum CliError {
    /// `--assume` was given together with `--root-role` or `--sub-role`.
    AssumeConflict,
    /// `--assume` was given without any role.
    NoRoles,
    /// `--root-role` was given without `--sub-role`.
    MissingSubRole,
}

/// The flags as they come from the command line, before any rule is applied.
#[derive(Debug, Clone)]
pub struct CliFlags {
    /// AWS IAM roles to assume
    pub assume_roles: Option<Vec<String>>,
    /// AWS IAM role used to fetch all accounts from an organization
    pub root_role: Option<String>,
    /// AWS IAM role name, with path, to assume in every account of the organization
    pub sub_role: Option<String>,
    /// AWS regions to manage
    pub region: Option<Vec<String>>,
    /// The tag key that marks an endpoint service as managed
    pub endpoint_key: Option<String>,
    /// Read and plan modifications but do not execute them
    pub dry_run: bool,
    /// Run one cycle and stop
    pub once: bool,
}

/// The controller's configuration; fixed once built.
#[derive(Debug, Clone)]
#[non_exhaustive]
pub struct App {
    pub accounts: Vec<String>,
    pub auth_mode: AuthMode,
    pub regions: Option<Vec<String>>,
    pub dry_run: bool,
    pub once: bool,
    pub endpoint_key: String,
}

/// What an `App` holds, as plain values.
pub struct AppView {
    pub accounts: Seq<Seq<char>>,
    pub auth_mode: AuthModeView,
    pub regions: Option<Seq<Seq<char>>>,
    pub dry_run: bool,
    pub once: bool,
    pub endpoint_key: Seq<char>,
}

impl View for App {
    type V = AppView;

    open spec fn view(&self) -> AppView {
        AppView {
            accounts: texts(self.accounts@),
            auth_mode: self.auth_mode@,
            regions: opt_texts(self.regions),
            dry_run: self.dry_run,
            once: self.once,
            endpoint_key: self.endpoint_key@,
        }
    }
}

/// The tag key used where `--endpoint-key` is not given.
pub open spec fn default_endpoint_key() -> Seq<char> {
    "endpoint.controlant.com/managed"@
}

/// The mode that the three authentication flags select, or the reason they
/// are refused. `--assume` excludes both other flags and needs a role;
/// `--sub-role` selects discovery, with or without `--root-role`;
/// `--root-role` alone is refused; none of the three means local credentials.
pub open spec fn selected_mode(
    assume_roles: Option<Seq<Seq<char>>>,
    root_role: Option<Seq<char>>,
    sub_role: Option<Seq<char>>,
) -> Result<AuthModeView, CliError> {
    match (assume_roles, root_role, sub_role) {
        (Some(roles), None, None) => if roles.len() == 0 {
            Err(CliError::NoRoles)
        } else {
            Ok(AuthModeView::Assume(roles))
        },
        (Some(_), _, _) => Err(CliError::AssumeConflict),
        (None, root, Some(sub)) => Ok(AuthModeView::Discover(root, sub)),
        (None, Some(_), None) => Err(CliError::MissingSubRole),
        (None, None, None) => Ok(AuthModeView::Local),
    }
}

/// The configuration that a set of flags stands for.
pub open spec fn configured(flags: CliFlags) -> Result<AppView, CliError> {
    match selected_mode(opt_texts(flags.assume_roles), opt_text(flags.root_role), opt_text(flags.sub_role)) {
        Ok(mode) => Ok(
            AppView {
                accounts: Seq::empty(),
                auth_mode: mode,
                regions: opt_texts(flags.region),
                dry_run: flags.dry_run,
                once: flags.once,
                endpoint_key: match flags.endpoint_key {
                    Some(key) => key@,
                    None => default_endpoint_key(),
                },
            },
        ),
        Err(e) => Err(e),
    }
}

/// The three authentication flags exclude one another as follows: with
/// `--assume`, neither `--root-role` nor `--sub-role` is accepted;
/// `--root-role` without `--sub-role` is refused; with none of the three the
/// mode is local; and `--sub-role` without `--assume` selects discovery.
pub proof fn lemma_modes_exclude_each_other(
    assume_roles: Option<Seq<Seq<char>>>,
    root_role: Option<Seq<char>>,
    sub_role: Option<Seq<char>>,
)
    ensures
        assume_roles is Some && (root_role is Some || sub_role is Some) ==> selected_mode(
            assume_roles,
            root_role,
            sub_role,
        ) == Err::<AuthModeView, CliError>(CliError::AssumeConflict),
        assume_roles is None && root_role is Some && sub_role is None ==> selected_mode(
            assume_roles,
            root_role,
            sub_role,
        ) == Err::<AuthModeView, CliError>(CliError::MissingSubRole),
        assume_roles is None && root_role is None && sub_role is None ==> selected_mode(
            assume_roles,
            root_role,
            sub_role,
        ) == Ok::<AuthModeView, CliError>(AuthModeView::Local),
        assume_roles is None && sub_role is Some ==> selected_mode(assume_roles, root_role, sub_role)
            == Ok::<AuthModeView, CliError>(AuthModeView::Discover(root_role, sub_role->Some_0)),
        selected_mode(assume_roles, root_role, sub_role) matches Ok(AuthModeView::Assume(roles))
            ==> root_role is None && sub_role is None && assume_roles == Some(roles) && roles.len()
            > 0,
{
}

impl AuthMode {
    /// Chooses the authentication mode from the three flags that bear on it.
    pub fn select(
        assume_roles: Option<Vec<String>>,
        root_role: Option<String>,
        sub_role: Option<String>,
    ) -> (r: Result<AuthMode, CliError>)
        ensures
            match selected_mode(opt_texts(assume_roles), opt_text(root_role), opt_text(sub_role)) {
                Ok(mode) => r is Ok && r->Ok_0@ == mode && r->Ok_0.wf(),
                Err(e) => r == Err::<AuthMode, CliError>(e),
            },
    {
        match (assume_roles, root_role, sub_role) {
            (Some(roles), None, None) => {
                if roles.len() == 0 {
                    Err(CliError::NoRoles)
                } else {
                    Ok(AuthMode::Assume(roles))
                }
            },
            (Some(_), _, _) => Err(CliError::AssumeConflict),
            (None, root, Some(sub)) => Ok(AuthMode::Discover(root, sub)),
            (None, Some(_), None) => Err(CliError::MissingSubRole),
            (None, None, None) => Ok(AuthMode::Local),
        }
    }
}

impl App {
    /// Builds the configuration from parsed flags, or says why the flags are
    /// refused.
    pub fn from_cli(flags: CliFlags) -> (r: Result<App, CliError>)
        ensures
            match configured(flags) {
                Ok(app) => r is Ok && r->Ok_0@ == app && r->Ok_0.auth_mode.wf(),
                Err(e) => r == Err::<App, CliError>(e),
            },
    {
        let CliFlags { assume_roles, root_role, sub_role, region, endpoint_key, dry_run, once } = flags;
        match AuthMode::select(assume_roles, root_role, sub_role) {
            Ok(auth_mode) => {
                let endpoint_key = match endpoint_key {
                    Some(key) => key,
                    None => String::from_str("endpoint.controlant.com/managed"),
                };
                let app = App {
                    accounts: Vec::new(),
                    auth_mode,
                    regions: region,
                    dry_run,
                    once,
                    endpoint_key,
                };
                proof {
                    assert(texts(app.accounts@) =~= Seq::<Seq<char>>::empty());
                }
                Ok(app)
            },
            Err(e) => Err(e),
        }
    }
}

} // verus!
