use vpces_controller::cli::{App, AuthMode, CliError, CliFlags};

fn s(x: &str) -> String {
    x.to_string()
}

fn flags() -> CliFlags {
    CliFlags {
        assume_roles: None,
        root_role: None,
        sub_role: None,
        region: None,
        endpoint_key: None,
        dry_run: false,
        once: false,
    }
}

#[test]
fn no_auth_flags_give_local_mode() {
    let app = App::from_cli(flags()).unwrap();
    assert!(matches!(app.auth_mode, AuthMode::Local));
    assert!(app.accounts.is_empty());
    assert!(app.regions.is_none());
    assert!(!app.dry_run);
    assert!(!app.once);
}

#[test]
fn default_endpoint_key_is_used_when_absent() {
    let app = App::from_cli(flags()).unwrap();
    assert_eq!(app.endpoint_key, "endpoint.controlant.com/managed");
}

#[test]
fn given_endpoint_key_is_kept() {
    let mut f = flags();
    f.endpoint_key = Some(s("team/managed"));
    let app = App::from_cli(f).unwrap();
    assert_eq!(app.endpoint_key, "team/managed");
}

#[test]
fn roles_give_assume_mode() {
    let mut f = flags();
    f.assume_roles = Some(vec![s("r1"), s("r2")]);
    f.region = Some(vec![s("a"), s("b")]);
    f.dry_run = true;
    f.once = true;
    let app = App::from_cli(f).unwrap();
    match app.auth_mode {
        AuthMode::Assume(roles) => assert_eq!(roles, vec![s("r1"), s("r2")]),
        _ => panic!("expected assume mode"),
    }
    assert_eq!(app.regions, Some(vec![s("a"), s("b")]));
    assert!(app.dry_run);
    assert!(app.once);
}

#[test]
fn sub_role_gives_discover_mode() {
    let mut f = flags();
    f.sub_role = Some(s("/X"));
    let app = App::from_cli(f).unwrap();
    match app.auth_mode {
        AuthMode::Discover(root, sub) => {
            assert_eq!(root, None);
            assert_eq!(sub, "/X");
        }
        _ => panic!("expected discover mode"),
    }
}

#[test]
fn root_and_sub_role_give_discover_mode() {
    let mut f = flags();
    f.root_role = Some(s("R"));
    f.sub_role = Some(s("/X"));
    let app = App::from_cli(f).unwrap();
    match app.auth_mode {
        AuthMode::Discover(root, sub) => {
            assert_eq!(root, Some(s("R")));
            assert_eq!(sub, "/X");
        }
        _ => panic!("expected discover mode"),
    }
}

#[test]
fn roles_with_root_role_are_refused() {
    let mut f = flags();
    f.assume_roles = Some(vec![s("r1")]);
    f.root_role = Some(s("R"));
    assert_eq!(App::from_cli(f).err(), Some(CliError::AssumeConflict));
}

#[test]
fn roles_with_sub_role_are_refused() {
    let mut f = flags();
    f.assume_roles = Some(vec![s("r1")]);
    f.sub_role = Some(s("/X"));
    assert_eq!(App::from_cli(f).err(), Some(CliError::AssumeConflict));
}

#[test]
fn roles_with_both_other_flags_are_refused() {
    let r = AuthMode::select(Some(vec![s("r1")]), Some(s("R")), Some(s("/X")));
    assert_eq!(r.err(), Some(CliError::AssumeConflict));
}

#[test]
fn root_role_alone_is_refused() {
    let mut f = flags();
    f.root_role = Some(s("R"));
    assert_eq!(App::from_cli(f).err(), Some(CliError::MissingSubRole));
}

#[test]
fn empty_role_list_is_refused() {
    let mut f = flags();
    f.assume_roles = Some(Vec::new());
    assert_eq!(App::from_cli(f).err(), Some(CliError::NoRoles));
}

#[test]
fn select_agrees_with_from_cli() {
    assert!(matches!(AuthMode::select(None, None, None), Ok(AuthMode::Local)));
    assert!(matches!(
        AuthMode::select(None, Some(s("R")), None),
        Err(CliError::MissingSubRole)
    ));
}
