use repo_sync::loader::{
    absorb_included, detect_include_cycle, parse_manifest_document, synthesize_default, LoadError,
};
use repo_sync::model::Manifest;

fn load(xml: &str) -> Result<Manifest, LoadError> {
    parse_manifest_document(xml.as_bytes())
}

fn load_with_defaults(xml: &str) -> Result<Manifest, LoadError> {
    let mut m = load(xml)?;
    synthesize_default(&mut m, Some("origin"), Some("main"));
    Ok(m)
}

const PARENT: &str = r#"
    <manifest>
        <notice>This is a notice</notice>
        <remote name="origin" fetch="https://example.com/repo.git"/>
        <default remote="origin" revision="main"/>
        <manifest-server url="https://example.com/manifest"/>
        <submanifest name="sub1" remote="origin" project="subproject"/>
        <project name="project1" path="path/to/project1" remote="origin" revision="main"/>
        <extend-project name="project1" path="path/to/project1" revision="develop"/>
        <remove-project name="project2"/>
        <repo-hooks in-project="hooks" enabled-list="pre-upload"/>
        <superproject name="super" remote="origin" revision="main"/>
        <contactinfo bugurl="https://example.com/bugs"/>
        <include name="included_manifest.xml"/>
    </manifest>
    "#;

const INCLUDED: &str = r#"
    <manifest>
        <project name="included_project" path="path/to/included_project" remote="origin" revision="main"/>
    </manifest>
    "#;

#[test]
fn test_parse_valid_manifest() {
    // The include directive is followed the way a loading caller would:
    // the child document is parsed and absorbed into the parent.
    let mut manifest = load_with_defaults(PARENT).unwrap();
    for inc in manifest.includes.clone() {
        assert_eq!(inc.name, "included_manifest.xml");
        let child = load(INCLUDED).unwrap();
        absorb_included(&mut manifest, child);
    }

    assert_eq!(manifest.notice, Some("This is a notice".to_string()));
    assert_eq!(manifest.remotes.len(), 1);
    assert_eq!(manifest.remotes[0].name, "origin");
    assert_eq!(
        manifest.default.as_ref().unwrap().remote,
        Some("origin".to_string())
    );
    assert_eq!(
        manifest.manifest_server.as_ref().unwrap().url,
        "https://example.com/manifest"
    );
    assert_eq!(manifest.submanifests.len(), 1);
    assert_eq!(manifest.projects.len(), 2); // Includes the project from the included manifest
    assert_eq!(manifest.extend_projects.len(), 1);
    assert_eq!(manifest.remove_projects.len(), 1);
    assert_eq!(manifest.repo_hooks.as_ref().unwrap().in_project, "hooks");
    assert_eq!(manifest.superproject.as_ref().unwrap().name, "super");
    assert_eq!(
        manifest.contactinfo.as_ref().unwrap().bugurl,
        "https://example.com/bugs"
    );
    assert_eq!(manifest.includes.len(), 1);
}

#[test]
fn test_parse_invalid_manifest() {
    // A start tag that is never closed is malformed XML.
    let result = load_with_defaults(
        r#"
    <manifest>
        <remote name="origin" fetch="https://example.com/repo.git">
    </manifest>
    "#,
    );
    assert!(result.is_err());
}

#[test]
fn test_missing_required_attributes() {
    let result = load_with_defaults(
        r#"
    <manifest>
        <remote fetch="https://example.com/repo.git"/>
    </manifest>
    "#,
    );
    assert!(result.is_err());
    assert!(matches!(result, Err(LoadError::Schema)));
}

#[test]
fn test_invalid_xml_format() {
    let result = load_with_defaults(
        r#"
    <manifest>
        <remote name="origin" fetch="https://example.com/repo.git">
    </manifest
    "#,
    );
    assert!(result.is_err());
    assert!(matches!(result, Err(LoadError::Parse)));
}

#[test]
fn test_empty_manifest() {
    let manifest = load_with_defaults(
        r#"
    <manifest>
    </manifest>
    "#,
    )
    .unwrap();
    assert!(manifest.notice.is_none());
    assert!(manifest.remotes.is_empty());
    assert!(manifest.manifest_server.is_none());
    assert!(manifest.submanifests.is_empty());
    assert!(manifest.remove_projects.is_empty());
    assert!(manifest.projects.is_empty());
    assert!(manifest.extend_projects.is_empty());
    assert!(manifest.repo_hooks.is_none());
    assert!(manifest.superproject.is_none());
    assert!(manifest.contactinfo.is_none());
    assert!(manifest.includes.is_empty());
    // the synthesized fallback default
    assert_eq!(manifest.default.as_ref().unwrap().remote.as_deref(), Some("origin"));
    assert_eq!(manifest.default.as_ref().unwrap().revision.as_deref(), Some("main"));
}

#[test]
fn test_invalid_element() {
    // Unrecognized elements are skipped, never an error.
    let manifest = load_with_defaults(
        r#"
    <manifest>
        <invalid-element/>
    </manifest>
    "#,
    )
    .unwrap();
    assert!(manifest.notice.is_none());
    assert!(manifest.remotes.is_empty());
    assert!(manifest.manifest_server.is_none());
    assert!(manifest.submanifests.is_empty());
    assert!(manifest.remove_projects.is_empty());
    assert!(manifest.projects.is_empty());
    assert!(manifest.extend_projects.is_empty());
    assert!(manifest.repo_hooks.is_none());
    assert!(manifest.superproject.is_none());
    assert!(manifest.contactinfo.is_none());
    assert!(manifest.includes.is_empty());
}

#[test]
fn test_multiple_remotes() {
    let manifest = load_with_defaults(
        r#"
    <manifest>
        <remote name="origin" fetch="https://example.com/repo.git"/>
        <remote name="backup" fetch="https://backup.example.com/repo.git"/>
    </manifest>
    "#,
    )
    .unwrap();
    assert_eq!(manifest.remotes.len(), 2);
    assert_eq!(manifest.remotes[0].name, "origin");
    assert_eq!(manifest.remotes[1].name, "backup");
}

#[test]
fn test_project_with_annotations() {
    let manifest = load_with_defaults(
        r#"
    <manifest>
        <project name="annotated_project" path="annotated_project">
            <annotation name="key1" value="value1"/>
            <annotation name="key2" value="value2"/>
        </project>
    </manifest>
    "#,
    )
    .unwrap();
    assert_eq!(manifest.projects.len(), 1);
    assert_eq!(manifest.projects[0].name, "annotated_project");
    assert_eq!(
        manifest.projects[0].path.as_deref(),
        Some("annotated_project")
    );
    // Annotations are recorded at the manifest level, not on the project.
    assert_eq!(manifest.annotations.len(), 2);
    assert_eq!(manifest.annotations[0].name, "key1");
    assert!(manifest.annotations[0].keep);
}

#[test]
fn test_parse_valid_manifest_with_include() {
    let mut manifest = load_with_defaults(PARENT).unwrap();
    for inc in manifest.includes.clone() {
        assert_eq!(inc.name, "included_manifest.xml");
        let child = load(INCLUDED).unwrap();
        absorb_included(&mut manifest, child);
    }

    assert_eq!(manifest.notice, Some("This is a notice".to_string()));
    assert_eq!(manifest.remotes.len(), 1);
    assert_eq!(manifest.remotes[0].name, "origin");
    assert_eq!(
        manifest.default.as_ref().unwrap().remote,
        Some("origin".to_string())
    );
    assert_eq!(
        manifest.manifest_server.as_ref().unwrap().url,
        "https://example.com/manifest"
    );
    assert_eq!(manifest.submanifests.len(), 1);
    assert_eq!(manifest.projects.len(), 2); // Includes the project from the included manifest
    assert_eq!(manifest.projects[1].name, "included_project");
    assert_eq!(manifest.extend_projects.len(), 1);
    assert_eq!(manifest.remove_projects.len(), 1);
    assert_eq!(manifest.repo_hooks.as_ref().unwrap().in_project, "hooks");
    assert_eq!(manifest.superproject.as_ref().unwrap().name, "super");
    assert_eq!(
        manifest.contactinfo.as_ref().unwrap().bugurl,
        "https://example.com/bugs"
    );
    assert_eq!(manifest.includes.len(), 1);
}

#[test]
fn test_parse_valid_manifest_without_include() {
    let manifest = load_with_defaults(
        r#"
    <manifest>
        <notice>This is a notice</notice>
        <remote name="origin" fetch="https://example.com/repo.git"/>
        <default remote="origin" revision="main"/>
        <manifest-server url="https://example.com/manifest"/>
        <submanifest name="sub1" remote="origin" project="subproject"/>
        <project name="project1" path="path/to/project1" remote="origin" revision="main"/>
        <extend-project name="project1" path="path/to/project1" revision="develop"/>
        <remove-project name="project2"/>
        <repo-hooks in-project="hooks" enabled-list="pre-upload"/>
        <superproject name="super" remote="origin" revision="main"/>
        <contactinfo bugurl="https://example.com/bugs"/>
    </manifest>
    "#,
    )
    .unwrap();

    assert_eq!(manifest.notice, Some("This is a notice".to_string()));
    assert_eq!(manifest.remotes.len(), 1);
    assert_eq!(manifest.remotes[0].name, "origin");
    assert_eq!(
        manifest.default.as_ref().unwrap().remote,
        Some("origin".to_string())
    );
    assert_eq!(
        manifest.manifest_server.as_ref().unwrap().url,
        "https://example.com/manifest"
    );
    assert_eq!(manifest.submanifests.len(), 1);
    assert_eq!(manifest.projects.len(), 1);
    assert_eq!(manifest.extend_projects.len(), 1);
    assert_eq!(manifest.remove_projects.len(), 1);
    assert!(manifest.repo_hooks.is_some());
    assert!(manifest.superproject.is_some());
    assert!(manifest.contactinfo.is_some());
    assert!(manifest.includes.is_empty());
}

#[test]
fn test_attributes_recovered_verbatim() {
    // Every attribute of a recognized element comes back exactly as written,
    // XML escapes resolved; a repeated attribute key keeps its last value.
    let manifest = load(
        r#"
    <manifest>
        <remote name="r&amp;d" fetch="https://example.com/a&lt;b" alias="mirror" review="https://review.example.com"/>
        <project name="p1" groups="app,&quot;x&quot;" clone-depth="1" sync-s="yes"/>
        <annotation name="flag" value="v" keep="FALSE"/>
        <annotation name="flag2" value="w" keep="True"/>
    </manifest>
    "#,
    )
    .unwrap();
    assert_eq!(manifest.remotes[0].name, "r&d");
    assert_eq!(manifest.remotes[0].fetch, "https://example.com/a<b");
    assert_eq!(manifest.remotes[0].alias.as_deref(), Some("mirror"));
    assert_eq!(manifest.remotes[0].pushurl, None);
    assert_eq!(
        manifest.remotes[0].review.as_deref(),
        Some("https://review.example.com")
    );
    assert_eq!(manifest.projects[0].groups.as_deref(), Some("app,\"x\""));
    assert_eq!(manifest.projects[0].clone_depth.as_deref(), Some("1"));
    assert_eq!(manifest.projects[0].sync_s.as_deref(), Some("yes"));
    assert!(!manifest.annotations[0].keep);
    assert!(manifest.annotations[1].keep);
}

#[test]
fn test_missing_project_name_is_schema_error() {
    let result = load(
        r#"
    <manifest>
        <project path="somewhere"/>
    </manifest>
    "#,
    );
    assert!(matches!(result, Err(LoadError::Schema)));
}

#[test]
fn test_include_cycle_is_detected() {
    let loading = vec!["dir/root.xml".to_string(), "dir/a.xml".to_string()];
    assert!(detect_include_cycle(&loading, &"dir/root.xml".to_string()));
    assert!(!detect_include_cycle(&loading, &"dir/b.xml".to_string()));
}
