use repo_sync::fileops::{resolve_under_root, MaterializeError};

fn parts(v: &[&str]) -> Vec<String> {
    v.iter().map(|s| s.to_string()).collect()
}

#[test]
fn test_resolve_inside_root() {
    let root = parts(&["tmp", "work"]);
    let got = resolve_under_root(&root, &parts(&["a", "b.txt"])).unwrap();
    assert_eq!(got, parts(&["tmp", "work", "a", "b.txt"]));
}

#[test]
fn test_resolve_normalizes_dot_and_empty_segments() {
    let root = parts(&["root"]);
    let got = resolve_under_root(&root, &parts(&["a", ".", "", "b", "..", "c"])).unwrap();
    assert_eq!(got, parts(&["root", "a", "c"]));
}

#[test]
fn test_escaping_dest_is_rejected_without_resolution() {
    // A destination that climbs out of the target root fails with a
    // containment error; no resolved path is ever produced for it.
    let root = parts(&["root"]);
    match resolve_under_root(&root, &parts(&["a", "..", "..", "evil"])) {
        Err(MaterializeError::PathContainment { path }) => {
            assert_eq!(path, parts(&["a", "..", "..", "evil"]));
        }
        _ => panic!("expected a containment error"),
    }
}
