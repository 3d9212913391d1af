use vpces_controller::accounts::{dedup_accounts, discover_step, DiscoverStep, Discovery, PageEvent};
use vpces_controller::arn::{principals, role_arn, root_principal};
use vpces_controller::cli::AuthMode;
use vpces_controller::plan::{
    clone_session, discovery_session, plan, resolve_regions, SessionSpec, WorkCell,
};
use vpces_controller::text::{clone_strings, contains_text};

fn s(x: &str) -> String {
    x.to_string()
}

fn strs(xs: &[&str]) -> Vec<String> {
    xs.iter().map(|x| x.to_string()).collect()
}

#[test]
fn role_arn_is_prefix_account_role_and_path() {
    assert_eq!(role_arn(&s("123456789012"), &s("/foo/Bar")), "arn:aws:iam::123456789012:role/foo/Bar");
    assert_eq!(role_arn(&s("a"), &s("/foo/Bar")), "arn:aws:iam::a:role/foo/Bar");
}

#[test]
fn role_arn_does_not_mend_a_path_without_slash() {
    assert_eq!(role_arn(&s("111"), &s("Bar")), "arn:aws:iam::111:roleBar");
}

#[test]
fn root_principal_of_an_account() {
    assert_eq!(root_principal(&s("111")), "arn:aws:iam::111:root");
    assert_eq!(root_principal(&s("")), "arn:aws:iam:::root");
}

#[test]
fn principals_keep_the_order_of_accounts() {
    assert_eq!(
        principals(&strs(&["222", "111"])),
        strs(&["arn:aws:iam::222:root", "arn:aws:iam::111:root"])
    );
    assert!(principals(&Vec::new()).is_empty());
}

#[test]
fn dedup_keeps_first_occurrences_in_order() {
    assert_eq!(dedup_accounts(&strs(&["2", "1", "2", "3", "1"])), strs(&["2", "1", "3"]));
    assert_eq!(dedup_accounts(&strs(&["1", "2"])), strs(&["1", "2"]));
    assert!(dedup_accounts(&Vec::new()).is_empty());
}

#[test]
fn dedup_twice_is_dedup_once() {
    let once = dedup_accounts(&strs(&["7", "7", "8", "7"]));
    assert_eq!(dedup_accounts(&once), once);
}

#[test]
fn text_helpers() {
    let v = strs(&["a", "b"]);
    assert_eq!(clone_strings(&v), v);
    assert!(contains_text(&v, &s("b")));
    assert!(!contains_text(&v, &s("c")));
}

#[test]
fn regions_fall_back_to_the_ambient_one() {
    assert_eq!(resolve_regions(&None, &s("eu-west-1")), strs(&["eu-west-1"]));
}

#[test]
fn configured_regions_are_used_as_given() {
    assert_eq!(
        resolve_regions(&Some(strs(&["us-east-1", "us-west-2"])), &s("eu-west-1")),
        strs(&["us-east-1", "us-west-2"])
    );
    assert!(resolve_regions(&Some(Vec::new()), &s("eu-west-1")).is_empty());
}

#[test]
fn discovery_session_follows_the_root_role() {
    assert_eq!(discovery_session(&None), SessionSpec::Ambient);
    assert_eq!(discovery_session(&Some(s("R"))), SessionSpec::AssumeRole(s("R")));
    assert_eq!(clone_session(&SessionSpec::AssumeRole(s("R"))), SessionSpec::AssumeRole(s("R")));
}

#[test]
fn local_one_region_plans_one_cell() {
    let cells = plan(&AuthMode::Local, &strs(&["us-east-1"]), &Vec::new());
    assert_eq!(
        cells,
        vec![WorkCell {
            session: SessionSpec::Ambient,
            region: s("us-east-1"),
            principals: Vec::new(),
            accounts: Vec::new(),
        }]
    );
}

#[test]
fn local_mode_ignores_accounts() {
    let cells = plan(&AuthMode::Local, &strs(&["a", "b", "c"]), &strs(&["111"]));
    assert_eq!(cells.len(), 3);
    for (i, cell) in cells.iter().enumerate() {
        assert_eq!(cell.session, SessionSpec::Ambient);
        assert_eq!(cell.region, ["a", "b", "c"][i]);
        assert!(cell.principals.is_empty());
        assert!(cell.accounts.is_empty());
    }
}

#[test]
fn two_roles_two_regions_plan_four_cells_roles_outside() {
    let cells = plan(&AuthMode::Assume(strs(&["r1", "r2"])), &strs(&["a", "b"]), &Vec::new());
    let got: Vec<(SessionSpec, String)> =
        cells.iter().map(|c| (c.session.clone(), c.region.clone())).collect();
    assert_eq!(
        got,
        vec![
            (SessionSpec::AssumeRole(s("r1")), s("a")),
            (SessionSpec::AssumeRole(s("r1")), s("b")),
            (SessionSpec::AssumeRole(s("r2")), s("a")),
            (SessionSpec::AssumeRole(s("r2")), s("b")),
        ]
    );
    for cell in cells.iter() {
        assert!(cell.principals.is_empty());
        assert!(cell.accounts.is_empty());
    }
}

#[test]
fn discover_three_accounts_one_region() {
    let mode = AuthMode::Discover(Some(s("R")), s("/X"));
    let cells = plan(&mode, &strs(&["eu-west-1"]), &strs(&["111", "222", "333"]));
    assert_eq!(cells.len(), 3);
    let want = strs(&["arn:aws:iam::111:root", "arn:aws:iam::222:root", "arn:aws:iam::333:root"]);
    let roles = ["arn:aws:iam::111:role/X", "arn:aws:iam::222:role/X", "arn:aws:iam::333:role/X"];
    for (i, cell) in cells.iter().enumerate() {
        assert_eq!(cell.session, SessionSpec::AssumeRole(s(roles[i])));
        assert_eq!(cell.region, "eu-west-1");
        assert_eq!(cell.principals, want);
        assert_eq!(cell.accounts, strs(&["111", "222", "333"]));
    }
}

#[test]
fn discover_counts_each_account_once() {
    let mode = AuthMode::Discover(None, s("/X"));
    let cells = plan(&mode, &strs(&["a", "b"]), &strs(&["111", "222", "111"]));
    assert_eq!(cells.len(), 4);
    assert_eq!(cells[0].principals, strs(&["arn:aws:iam::111:root", "arn:aws:iam::222:root"]));
    assert_eq!(cells[2].session, SessionSpec::AssumeRole(s("arn:aws:iam::222:role/X")));
    assert_eq!(cells[3].region, "b");
}

#[test]
fn matrix_sizes() {
    let g = strs(&["a", "b", "c"]);
    assert_eq!(plan(&AuthMode::Local, &g, &Vec::new()).len(), 3);
    assert_eq!(plan(&AuthMode::Assume(strs(&["r1", "r2"])), &g, &Vec::new()).len(), 6);
    let d = AuthMode::Discover(None, s("/X"));
    assert_eq!(plan(&d, &g, &strs(&["1", "2", "3", "4"])).len(), 12);
    assert_eq!(plan(&d, &g, &Vec::new()).len(), 0);
    assert_eq!(plan(&d, &Vec::new(), &strs(&["1"])).len(), 0);
}

#[test]
fn pages_are_appended_in_order() {
    let next = discover_step(strs(&["1", "2"]), PageEvent::Page { ids: strs(&["3", "1"]), more: true });
    match next {
        DiscoverStep::FetchNext(found) => assert_eq!(found, strs(&["1", "2", "3", "1"])),
        _ => panic!("expected another page"),
    }
}

#[test]
fn last_page_completes_the_list_without_repeats() {
    let next = discover_step(strs(&["1", "2"]), PageEvent::Page { ids: strs(&["3", "1"]), more: false });
    match next {
        DiscoverStep::Done(Discovery::Accounts(found)) => assert_eq!(found, strs(&["1", "2", "3"])),
        _ => panic!("expected the accounts"),
    }
}

#[test]
fn failed_page_fails_the_discovery() {
    let next = discover_step(strs(&["1", "2"]), PageEvent::Failed);
    assert!(matches!(next, DiscoverStep::Done(Discovery::Failed)));
}

#[test]
fn roles_are_assumed_under_one_session_name() {
    assert_eq!(vpces_controller::plan::session_name(), "ctrl-vpces");
}
