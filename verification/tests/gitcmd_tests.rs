use repo_sync::gitcmd::{GitCommand, GitCommandBuilder};

#[test]
fn test_git_command_assembly() {
    let c = GitCommand::new("git")
        .arg("-C")
        .arg("/work/dir")
        .args(&["fetch", "--depth", "1"])
        .env("GIT_TRACE", "1")
        .dir("/work/dir");
    assert_eq!(c.program, "git");
    assert_eq!(c.args, vec!["-C", "/work/dir", "fetch", "--depth", "1"]);
    assert_eq!(c.env, vec![("GIT_TRACE".to_string(), "1".to_string())]);
    assert_eq!(c.dir.as_deref(), Some("/work/dir"));
}

#[test]
fn test_git_command_builder_shortcuts() {
    assert_eq!(GitCommandBuilder::git_config_get("user.name").args, vec!["config", "--get", "user.name"]);
    assert_eq!(GitCommandBuilder::git_config_set("k", "v").args, vec!["config", "--add", "k", "v"]);
    assert_eq!(GitCommandBuilder::git_config_unset("k").args, vec!["config", "--unset", "k"]);
    assert_eq!(GitCommandBuilder::git_clone("https://example.com/r.git", "/dst").args, vec!["clone", "https://example.com/r.git", "/dst"]);
    assert_eq!(GitCommandBuilder::git_checkout("main").args, vec!["checkout", "main"]);
    assert_eq!(GitCommandBuilder::git_pull().args, vec!["pull"]);
    assert_eq!(GitCommandBuilder::git_push("origin", "main").args, vec!["push", "origin", "main"]);
    let b = GitCommandBuilder {};
    assert_eq!(b.git_version().args, vec!["--version"]);
}
