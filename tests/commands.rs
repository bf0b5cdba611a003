use dxrs::cli::{FindAppsArgs, RmdirArgs};
use dxrs::commands::{find_apps, logout, removal_finished, rmdir};
use dxrs::env::DxEnvironment;
use dxrs::model::{AppDescribeField, FindName, RmdirResult};

fn env() -> DxEnvironment {
    DxEnvironment {
        apiserver_protocol: "https".to_string(),
        username: "u".to_string(),
        cli_wd: "/work".to_string(),
        apiserver_host: "h".to_string(),
        project_context_id: "project-BBBBBBBBBBBBBBBBBBBBBBBB".to_string(),
        project_context_name: "n".to_string(),
        apiserver_port: 443,
        auth_token_type: "Bearer".to_string(),
        auth_token: "abc".to_string(),
    }
}

#[test]
fn logout_clears_token_and_signs_it() {
    let (signature, kept) = logout(&env());
    assert_eq!(
        signature,
        "ba7816bf8f01cfea414140de5dae2223b00361a396177a9cb410ff61f20015ad"
    );
    assert_eq!(kept.auth_token, "");
    assert_eq!(kept.auth_token_type, "");
    assert_eq!(kept.cli_wd, "/work");
    assert_eq!(kept.project_context_id, "project-BBBBBBBBBBBBBBBBBBBBBBBB");
}

#[test]
fn rmdir_resolves_each_folder() {
    let args = RmdirArgs {
        paths: vec!["old".to_string(), "project-AAAAAAAAAAAAAAAAAAAAAAAA:/tmp".to_string()],
    };
    let plan = rmdir(&env(), &args);
    assert_eq!(plan.len(), 2);
    assert_eq!(plan[0].0, "project-BBBBBBBBBBBBBBBBBBBBBBBB");
    assert_eq!(plan[0].1.folder, "/work/old");
    assert_eq!(plan[1].0, "project-AAAAAAAAAAAAAAAAAAAAAAAA");
    assert_eq!(plan[1].1.folder, "/tmp");
    assert_eq!(plan[1].1.recurse, Some(true));
    assert_eq!(plan[1].1.partial, Some(true));
    assert_eq!(plan[1].1.force, None);
}

#[test]
fn removal_repeats_only_when_unfinished() {
    assert!(removal_finished(&RmdirResult { id: "p".to_string(), completed: None }));
    assert!(removal_finished(&RmdirResult { id: "p".to_string(), completed: Some(true) }));
    assert!(!removal_finished(&RmdirResult { id: "p".to_string(), completed: Some(false) }));
}

#[test]
fn find_apps_matches_name_or_everything() {
    let opts = find_apps(&FindAppsArgs { name: Some("bwa.*".to_string()) });
    assert!(matches!(opts.name, Some(FindName::Regexp(ref p)) if p == "bwa.*"));
    assert!(opts.starting.is_none());
    let opts = find_apps(&FindAppsArgs { name: None });
    assert!(matches!(opts.name, Some(FindName::Glob(ref p)) if p == "*"));
    let fields = opts.describe.unwrap().fields;
    assert_eq!(fields.len(), 1);
    assert!(matches!(fields[0], (AppDescribeField::Name, true)));
}
