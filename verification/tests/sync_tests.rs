use repo_sync::model::{Manifest, Project, Remote};
use repo_sync::sync::{determine_jobs, filter_projects, handle_errors, resolve_project, SyncError, SyncOptions};

fn options() -> SyncOptions {
    SyncOptions {
        current_branch_only: false,
        detach: false,
        force: false,
        jobs: None,
        quiet: false,
        smart_sync: false,
        keep: false,
    }
}

fn manifest_with_sync_j(sync_j: Option<&str>) -> Manifest {
    let mut m = Manifest::new();
    m.default = Some(repo_sync::model::Default {
        remote: Some("origin".to_string()),
        revision: Some("main".to_string()),
        dest_branch: None,
        upstream: None,
        sync_j: sync_j.map(|s| s.to_string()),
        sync_c: None,
        sync_s: None,
        sync_tags: None,
    });
    m
}

#[test]
fn test_determine_jobs_clamps_sync_j_to_four() {
    // jobs unset and sync-j "8": the effective worker count is clamped to 4.
    let m = manifest_with_sync_j(Some("8"));
    assert_eq!(determine_jobs(&m, &options()), 4);
}

#[test]
fn test_determine_jobs_precedence_and_fallbacks() {
    let m = manifest_with_sync_j(Some("3"));
    let mut o = options();
    assert_eq!(determine_jobs(&m, &o), 3);
    o.jobs = Some(2);
    assert_eq!(determine_jobs(&m, &o), 2);
    o.jobs = Some(0);
    assert_eq!(determine_jobs(&m, &o), 1);
    o.jobs = None;
    assert_eq!(determine_jobs(&manifest_with_sync_j(None), &o), 1);
    assert_eq!(determine_jobs(&manifest_with_sync_j(Some("nope")), &o), 1);
    assert_eq!(determine_jobs(&Manifest::new(), &o), 1);
}

#[test]
fn test_handle_errors_keep_gate() {
    // With keep unset one failure fails the run and names the project; with
    // keep set the same failures are tolerated.
    let errors = vec![("proj1".to_string(), "fetch failed".to_string())];
    match handle_errors(errors.clone(), false) {
        Err(SyncError::Aggregate { failures }) => {
            assert_eq!(failures.len(), 1);
            assert_eq!(failures[0].0, "proj1");
            assert_eq!(failures[0].1, "fetch failed");
        }
        _ => panic!("expected an aggregate error"),
    }
    assert!(handle_errors(errors, true).is_ok());
    assert!(handle_errors(Vec::new(), false).is_ok());
}

fn project(name: &str) -> Project {
    Project {
        name: name.to_string(),
        path: None,
        remote: None,
        revision: None,
        dest_branch: None,
        groups: None,
        sync_c: None,
        sync_s: None,
        sync_tags: None,
        upstream: None,
        clone_depth: None,
        force_path: None,
    }
}

#[test]
fn test_resolve_project_builds_url_and_revision() {
    let mut m = manifest_with_sync_j(None);
    m.remotes.push(Remote {
        name: "origin".to_string(),
        alias: None,
        fetch: "https://example.com".to_string(),
        pushurl: None,
        review: None,
        revision: None,
    });
    let (url, rev) = resolve_project(&project("a/b"), &m).unwrap();
    assert_eq!(url, "https://example.com/a/b.git");
    assert_eq!(rev, "main");
}

#[test]
fn test_resolve_project_remote_not_found() {
    let m = manifest_with_sync_j(None);
    match resolve_project(&project("a"), &m) {
        Err(SyncError::RemoteNotFound { name }) => assert_eq!(name, "origin"),
        _ => panic!("expected a missing remote"),
    }
}

#[test]
fn test_resolve_project_revision_unresolved_variants() {
    // A manifest whose default lacks a revision and one without any default
    // produce the two distinguishable revision errors.
    let mut with_default = Manifest::new();
    with_default.default = Some(repo_sync::model::Default {
        remote: None,
        revision: None,
        dest_branch: None,
        upstream: None,
        sync_j: None,
        sync_c: None,
        sync_s: None,
        sync_tags: None,
    });
    with_default.remotes.push(Remote {
        name: "origin".to_string(),
        alias: None,
        fetch: "https://example.com".to_string(),
        pushurl: None,
        review: None,
        revision: None,
    });
    match resolve_project(&project("a"), &with_default) {
        Err(SyncError::RevisionUnresolved { default_present }) => assert!(default_present),
        _ => panic!("expected an unresolved revision"),
    }

    let mut without_default = Manifest::new();
    without_default.remotes.push(Remote {
        name: "origin".to_string(),
        alias: None,
        fetch: "https://example.com".to_string(),
        pushurl: None,
        review: None,
        revision: None,
    });
    match resolve_project(&project("a"), &without_default) {
        Err(SyncError::RevisionUnresolved { default_present }) => assert!(!default_present),
        _ => panic!("expected an unresolved revision"),
    }
}

use repo_sync::sync::{plan_project_sync, project_dir_name};

fn example_manifest() -> Manifest {
    let mut m = manifest_with_sync_j(None);
    m.remotes.push(Remote {
        name: "origin".to_string(),
        alias: None,
        fetch: "https://example.com".to_string(),
        pushurl: None,
        review: None,
        revision: None,
    });
    m
}

#[test]
fn test_plan_clone_path_for_fresh_directory() {
    // A project that is not on disk yet is initialized, wired to its remote,
    // shallow-fetched and checked out at the fetched head.
    let m = example_manifest();
    let p = project("a/b");
    assert_eq!(project_dir_name(&p), "a/b");
    let plan = plan_project_sync(&p, &m, false, &options()).unwrap();
    assert_eq!(plan, vec![
        vec!["init".to_string()],
        vec!["remote".to_string(), "add".to_string(), "origin".to_string(), "https://example.com/a/b.git".to_string()],
        vec!["fetch".to_string(), "--depth".to_string(), "1".to_string(), "origin".to_string(), "main".to_string()],
        vec!["checkout".to_string(), "FETCH_HEAD".to_string()],
    ]);
}

#[test]
fn test_plan_update_path_reuses_directory() {
    // Re-running against an existing checkout fetches and hard-resets; the
    // directory is reused and no init is run again.
    let m = example_manifest();
    let plan = plan_project_sync(&project("a/b"), &m, true, &options()).unwrap();
    assert_eq!(plan, vec![
        vec!["fetch".to_string(), "origin".to_string(), "--prune".to_string(), "--depth".to_string(), "1".to_string(), "main".to_string()],
        vec!["reset".to_string(), "--hard".to_string(), "FETCH_HEAD".to_string()],
    ]);
    assert!(plan.iter().all(|c| c[0] != "init"));
}

#[test]
fn test_plan_detach_appends_checkout_of_revision() {
    let m = example_manifest();
    let mut o = options();
    o.detach = true;
    let plan = plan_project_sync(&project("a/b"), &m, true, &o).unwrap();
    assert_eq!(plan.last().unwrap(), &vec!["checkout".to_string(), "main".to_string()]);
}

#[test]
fn test_filter_projects_keeps_listed_names_in_order() {
    let projects = vec![project("a"), project("b"), project("c")];
    let names = vec!["c".to_string(), "a".to_string()];
    let kept = filter_projects(&projects, &names);
    assert_eq!(kept.len(), 2);
    assert_eq!(kept[0].name, "a");
    assert_eq!(kept[1].name, "c");
}

#[test]
fn test_determine_jobs_accepts_leading_plus() {
    // Integer parsing accepts one leading plus: "+8" asks for eight workers,
    // clamped to four; a bare "+" is not a number and falls back to one.
    assert_eq!(determine_jobs(&manifest_with_sync_j(Some("+8")), &options()), 4);
    assert_eq!(determine_jobs(&manifest_with_sync_j(Some("+3")), &options()), 3);
    assert_eq!(determine_jobs(&manifest_with_sync_j(Some("+")), &options()), 1);
    assert_eq!(determine_jobs(&manifest_with_sync_j(Some("++8")), &options()), 1);
}
