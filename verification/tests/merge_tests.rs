use repo_sync::model::{ExtendProject, Manifest, Project, Remote, RemoveProject};
use repo_sync::merge::merge_manifests;

fn project(name: &str, path: Option<&str>, revision: Option<&str>) -> Project {
    Project {
        name: name.to_string(),
        path: path.map(|s| s.to_string()),
        remote: None,
        revision: revision.map(|s| s.to_string()),
        dest_branch: None,
        groups: None,
        sync_c: None,
        sync_s: None,
        sync_tags: None,
        upstream: None,
        clone_depth: None,
        force_path: None,
    }
}

fn remove(name: Option<&str>, path: Option<&str>, base_rev: Option<&str>) -> RemoveProject {
    RemoveProject {
        name: name.map(|s| s.to_string()),
        path: path.map(|s| s.to_string()),
        optional: None,
        base_rev: base_rev.map(|s| s.to_string()),
    }
}

fn extend(name: &str, path: Option<&str>, revision: Option<&str>, groups: Option<&str>) -> ExtendProject {
    ExtendProject {
        name: name.to_string(),
        path: path.map(|s| s.to_string()),
        dest_path: None,
        groups: groups.map(|s| s.to_string()),
        revision: revision.map(|s| s.to_string()),
        remote: None,
        dest_branch: None,
        upstream: None,
        base_rev: None,
    }
}

fn overlay() -> Manifest {
    Manifest::new()
}

#[test]
fn test_merge_removes_project_by_name() {
    let mut base = Manifest::new();
    base.projects.push(project("nn1a/gbsw", Some("nn1a/gbsw"), Some("main")));
    base.projects.push(project("nn1a/another", Some("nn1a/another"), Some("main")));

    let mut local = overlay();
    local.remove_projects.push(remove(Some("nn1a/another"), None, None));

    merge_manifests(&mut base, local);

    assert!(base.projects.iter().any(|p| p.name == "nn1a/gbsw"));
    assert!(!base.projects.iter().any(|p| p.name == "nn1a/another"));
}

#[test]
fn test_merge_base_rev_guard_blocks_removal() {
    // A remove-project guarded by base-rev "X" must not remove a project at
    // revision "Y", and must remove one at revision "X".
    let mut base = Manifest::new();
    base.projects.push(project("a", Some("pa"), Some("Y")));
    base.projects.push(project("b", Some("pb"), Some("X")));

    let mut local = overlay();
    local.remove_projects.push(remove(Some("a"), None, Some("X")));
    local.remove_projects.push(remove(Some("b"), None, Some("X")));

    merge_manifests(&mut base, local);

    assert!(base.projects.iter().any(|p| p.name == "a"));
    assert!(!base.projects.iter().any(|p| p.name == "b"));
}

#[test]
fn test_merge_extend_path_guard() {
    // A non-matching path guard leaves the project untouched; a matching one
    // overwrites exactly the supplied fields.
    let mut base = Manifest::new();
    base.projects.push(project("p", Some("right"), Some("main")));

    let mut local = overlay();
    local.extend_projects.push(extend("p", Some("wrong"), Some("dev"), None));
    merge_manifests(&mut base, local);
    assert_eq!(base.projects[0].revision.as_deref(), Some("main"));

    let mut local2 = overlay();
    local2.extend_projects.push(extend("p", Some("right"), Some("dev"), Some("g1")));
    merge_manifests(&mut base, local2);
    assert_eq!(base.projects[0].revision.as_deref(), Some("dev"));
    assert_eq!(base.projects[0].groups.as_deref(), Some("g1"));
    // fields the extension did not supply stay as they were
    assert_eq!(base.projects[0].path.as_deref(), Some("right"));
}

#[test]
fn test_merge_removal_then_extension_is_order_dependent() {
    // Removing and extending the same project across two overlays does not
    // commute: remove-then-extend deletes it, extend-then-remove (where the
    // removal is guarded on the old revision) keeps the extended project.
    let remove_overlay = || {
        let mut m = overlay();
        m.remove_projects.push(remove(Some("p"), None, Some("main")));
        m
    };
    let extend_overlay = || {
        let mut m = overlay();
        m.extend_projects.push(extend("p", None, Some("dev"), None));
        m
    };

    let mut first = Manifest::new();
    first.projects.push(project("p", None, Some("main")));
    merge_manifests(&mut first, remove_overlay());
    merge_manifests(&mut first, extend_overlay());
    assert!(first.projects.is_empty());

    let mut second = Manifest::new();
    second.projects.push(project("p", None, Some("main")));
    merge_manifests(&mut second, extend_overlay());
    merge_manifests(&mut second, remove_overlay());
    assert_eq!(second.projects.len(), 1);
    assert_eq!(second.projects[0].revision.as_deref(), Some("dev"));
}

#[test]
fn test_merge_additive_and_override() {
    let mut base = Manifest::new();
    base.remotes.push(Remote {
        name: "origin".to_string(),
        alias: None,
        fetch: "https://example.com".to_string(),
        pushurl: None,
        review: None,
        revision: None,
    });
    base.default = Some(repo_sync::model::Default {
        remote: Some("origin".to_string()),
        revision: Some("main".to_string()),
        dest_branch: None,
        upstream: None,
        sync_j: None,
        sync_c: None,
        sync_s: None,
        sync_tags: None,
    });

    let mut local = overlay();
    local.remotes.push(Remote {
        name: "backup".to_string(),
        alias: None,
        fetch: "https://backup.example.com".to_string(),
        pushurl: None,
        review: None,
        revision: None,
    });
    local.default = Some(repo_sync::model::Default {
        remote: Some("backup".to_string()),
        revision: Some("dev".to_string()),
        dest_branch: None,
        upstream: None,
        sync_j: None,
        sync_c: None,
        sync_s: None,
        sync_tags: None,
    });
    local.projects.push(project("added", None, None));

    merge_manifests(&mut base, local);

    assert_eq!(base.remotes.len(), 2);
    assert_eq!(base.remotes[1].name, "backup");
    assert_eq!(base.default.as_ref().unwrap().remote.as_deref(), Some("backup"));
    assert_eq!(base.projects.len(), 1);
    assert_eq!(base.projects[0].name, "added");
}

#[test]
fn test_merge_overlay_projects_not_subject_to_own_removals() {
    // The overlay's removals run against the base list before the overlay's
    // own projects are appended.
    let mut base = Manifest::new();
    base.projects.push(project("p", None, None));

    let mut local = overlay();
    local.remove_projects.push(remove(Some("p"), None, None));
    local.projects.push(project("p", None, Some("fresh")));

    merge_manifests(&mut base, local);

    assert_eq!(base.projects.len(), 1);
    assert_eq!(base.projects[0].revision.as_deref(), Some("fresh"));
}

#[test]
fn test_merge_concatenates_file_directives_and_annotations() {
    // Overlay copyfiles, linkfiles and annotations are appended after the
    // base's, like the other list elements.
    let mut base = Manifest::new();
    base.copyfiles.push(repo_sync::model::CopyFile {
        src: "a".to_string(),
        dest: "b".to_string(),
    });

    let mut local = overlay();
    local.copyfiles.push(repo_sync::model::CopyFile {
        src: "c".to_string(),
        dest: "d".to_string(),
    });
    local.linkfiles.push(repo_sync::model::LinkFile {
        src: "e".to_string(),
        dest: "f".to_string(),
    });
    local.annotations.push(repo_sync::model::Annotation {
        name: "k".to_string(),
        value: "v".to_string(),
        keep: false,
    });

    merge_manifests(&mut base, local);

    assert_eq!(base.copyfiles.len(), 2);
    assert_eq!(base.copyfiles[0].src, "a");
    assert_eq!(base.copyfiles[1].src, "c");
    assert_eq!(base.linkfiles.len(), 1);
    assert_eq!(base.annotations.len(), 1);
    assert!(!base.annotations[0].keep);
}
