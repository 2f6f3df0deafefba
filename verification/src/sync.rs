//! Synchronization decisions: the worker count, the per-project resolution of
//! remote URL and revision, the version-control command plan for one project,
//! and the keep-gated aggregation of per-project failures.

use vstd::prelude::*;
use vstd::string::StrSliceExecFns;
use vstd::string::StringExecFns;
use crate::model::{Manifest, Project, ProjectV};

verus! {

/// Options recognized by a sync invocation.
#[derive(Debug, Clone)]
pub struct SyncOptions {
    pub current_branch_only: bool,
    pub detach: bool,
    pub force: bool,
    pub jobs: Option<usize>,
    pub quiet: bool,
    pub smart_sync: bool,
    pub keep: bool,
}

/// Errors of the per-project sync path and of the aggregate run.
#[derive(Debug)]
pub enum SyncError {
    /// No remote in the manifest has the resolved name.
    RemoteNotFound { name: String },
    /// Neither the project nor any default element supplies a revision;
    /// `default_present` tells the two diagnostic cases apart.
    RevisionUnresolved { default_present: bool },
    /// An external version-control command failed; reported by the runner.
    VcsCommandFailed { message: String },
    /// The run failed as a whole: each pair names a project and its error.
    Aggregate { failures: Vec<(String, String)> },
}

// ---------------------------------------------------------------------------
// Worker count.
// ---------------------------------------------------------------------------

pub open spec fn spec_digit(c: char) -> bool {
    '0' <= c && c <= '9'
}

pub open spec fn spec_is_digits(s: Seq<char>) -> bool {
    s.len() > 0 && forall|i: int| 0 <= i < s.len() ==> spec_digit(s[i])
}

pub open spec fn spec_digits_val(s: Seq<char>) -> nat
    decreases s.len(),
{
    if s.len() == 0 {
        0
    } else {
        spec_digits_val(s.drop_last()) * 10 + (s.last() as u32 - '0' as u32) as nat
    }
}

/// The digit run of a worker-count text: the whole text, or what follows a
/// single leading plus sign, as integer parsing accepts.
pub open spec fn spec_jobs_digits(s: Seq<char>) -> Seq<char> {
    if s.len() > 0 && s[0] == '+' {
        s.drop_first()
    } else {
        s
    }
}

/// What the default's `sync-j` text contributes: its decimal value when it
/// is a plain in-range number (an optional leading plus allowed), else one.
pub open spec fn spec_parse_jobs_or_one(s: Seq<char>) -> nat {
    if spec_is_digits(spec_jobs_digits(s)) && spec_digits_val(spec_jobs_digits(s))
        <= usize::MAX as nat {
        spec_digits_val(spec_jobs_digits(s))
    } else {
        1
    }
}

/// The requested worker count: explicit option first, then the default
/// element's `sync-j`, then one.
pub open spec fn spec_requested_jobs(m: Manifest, o: SyncOptions) -> nat {
    match o.jobs {
        Some(j) => j as nat,
        None => match m.default {
            Some(d) => match d.sync_j {
                Some(s) => spec_parse_jobs_or_one(s@),
                None => 1,
            },
            None => 1,
        },
    }
}

/// The pool size: the request clamped into `1 ..= 4`.
pub open spec fn spec_clamp_jobs(requested: nat) -> nat {
    if requested < 1 {
        1
    } else if requested > 4 {
        4
    } else {
        requested
    }
}

/// The effective worker count is always between one and four; any request of
/// four or more is clamped to exactly four.
pub proof fn lemma_jobs_clamped(requested: nat)
    ensures
        1 <= spec_clamp_jobs(requested) <= 4,
        requested >= 4 ==> spec_clamp_jobs(requested) == 4,
        1 <= requested <= 4 ==> spec_clamp_jobs(requested) == requested,
{
}

/// Parses a decimal worker count, yielding one on anything that is not a
/// plain in-range number with at most one leading plus sign.
fn parse_jobs_or_one(s: &str) -> (r: usize)
    ensures
        r as nat == spec_parse_jobs_or_one(s@),
{
    let n = s.unicode_len();
    if n == 0 {
        return 1;
    }
    let start: usize = if s.get_char(0) == '+' {
        1
    } else {
        0
    };
    let ghost digits = spec_jobs_digits(s@);
    proof {
        assert(digits =~= s@.subrange(start as int, n as int));
    }
    if start == n {
        return 1;
    }
    let mut acc: usize = 0;
    let mut too_big: bool = false;
    let mut i: usize = start;
    while i < n
        invariant
            start <= i <= n,
            n == s@.len(),
            digits == spec_jobs_digits(s@),
            digits =~= s@.subrange(start as int, n as int),
            forall|j: int| start <= j < i ==> spec_digit(s@[j]),
            !too_big ==> acc as nat == spec_digits_val(s@.subrange(start as int, i as int)),
            too_big ==> spec_digits_val(s@.subrange(start as int, i as int))
                > usize::MAX as nat,
        decreases n - i,
    {
        let c = s.get_char(i);
        if c < '0' || c > '9' {
            proof {
                assert(digits[i - start] == s@[i as int]);
                assert(!spec_digit(digits[i - start]));
                assert(!spec_is_digits(digits));
            }
            return 1;
        }
        let d: usize = ((c as u32) - ('0' as u32)) as usize;
        proof {
            assert(s@.subrange(start as int, i as int + 1).drop_last() =~= s@.subrange(
                start as int,
                i as int,
            ));
            assert(s@.subrange(start as int, i as int + 1).last() == s@[i as int]);
        }
        if too_big || acc > usize::MAX / 10 || (acc == usize::MAX / 10 && d > usize::MAX % 10) {
            proof {
                let v = spec_digits_val(s@.subrange(start as int, i as int));
                if !too_big {
                    assert(acc as nat == v);
                    assert(v * 10 + d > usize::MAX as nat) by (nonlinear_arith)
                        requires
                            v == acc as nat,
                            acc > usize::MAX / 10 || (acc == usize::MAX / 10 && d > usize::MAX
                                % 10),
                            d < 10,
                            usize::MAX == (usize::MAX / 10) * 10 + usize::MAX % 10,
                    ;
                } else {
                    assert(v > usize::MAX as nat);
                    assert(v * 10 + d > usize::MAX as nat) by (nonlinear_arith)
                        requires
                            v > usize::MAX as nat,
                    ;
                }
            }
            too_big = true;
        } else {
            proof {
                assert(acc * 10 + d <= usize::MAX) by (nonlinear_arith)
                    requires
                        acc <= usize::MAX / 10,
                        acc < usize::MAX / 10 || d <= usize::MAX % 10,
                        d < 10,
                        usize::MAX == (usize::MAX / 10) * 10 + usize::MAX % 10,
                ;
            }
            acc = acc * 10 + d;
        }
        i = i + 1;
    }
    proof {
        assert(s@.subrange(start as int, n as int) =~= digits);
        assert(spec_is_digits(digits));
    }
    if too_big {
        1
    } else {
        acc
    }
}

/// The worker pool size for a run: the explicit `jobs` option, else the
/// default element's `sync-j` parsed as a number, else one; clamped to at
/// most four workers and at least one.
pub fn determine_jobs(manifest: &Manifest, options: &SyncOptions) -> (r: usize)
    ensures
        r as nat == spec_clamp_jobs(spec_requested_jobs(*manifest, *options)),
{
    let requested: usize = match &options.jobs {
        Some(j) => *j,
        None => match &manifest.default {
            Some(d) => match &d.sync_j {
                Some(s) => parse_jobs_or_one(s.as_str()),
                None => 1,
            },
            None => 1,
        },
    };
    if requested < 1 {
        1
    } else if requested > 4 {
        4
    } else {
        requested
    }
}

// ---------------------------------------------------------------------------
// Resolution of remote URL and revision.
// ---------------------------------------------------------------------------

/// The remote name a project resolves to: its own, else the default's, else
/// the literal fallback.
pub open spec fn spec_remote_name(p: Project, m: Manifest) -> Seq<char> {
    match p.remote {
        Some(r) => r@,
        None => match m.default {
            Some(d) => match d.remote {
                Some(r) => r@,
                None => "origin"@,
            },
            None => "origin"@,
        },
    }
}

/// The index of the first remote with the given name, if any.
pub open spec fn spec_find_remote(m: Manifest, name: Seq<char>) -> Option<int> {
    if exists|i: int| 0 <= i < m.remotes@.len() && m.remotes@[i].name@ == name {
        Some(
            choose|i: int|
                0 <= i < m.remotes@.len() && m.remotes@[i].name@ == name && forall|j: int|
                    0 <= j < i ==> m.remotes@[j].name@ != name,
        )
    } else {
        None
    }
}

/// The revision a project syncs to: its own, else the default's.
pub open spec fn spec_revision(p: Project, m: Manifest) -> Option<Seq<char>> {
    match p.revision {
        Some(r) => Some(r@),
        None => match m.default {
            Some(d) => match d.revision {
                Some(r) => Some(r@),
                None => None,
            },
            None => None,
        },
    }
}

/// Resolves a project's clone URL and revision against the manifest.
/// The URL is `{fetch}/{name}.git` for the first remote whose name matches;
/// a missing remote or an unresolvable revision is an error, and the
/// revision error records whether a default element was present at all.
pub fn resolve_project(project: &Project, manifest: &Manifest) -> (r: Result<
    (String, String),
    SyncError,
>)
    ensures
        match r {
            Ok((url, rev)) => {
                &&& spec_find_remote(*manifest, spec_remote_name(*project, *manifest)) is Some
                &&& url@ == manifest.remotes@[spec_find_remote(
                    *manifest,
                    spec_remote_name(*project, *manifest),
                )->0].fetch@ + "/"@ + project.name@ + ".git"@
                &&& spec_revision(*project, *manifest) == Some(rev@)
            },
            Err(e) => match e {
                SyncError::RemoteNotFound { name } => {
                    &&& name@ == spec_remote_name(*project, *manifest)
                    &&& spec_find_remote(*manifest, name@) is None
                },
                SyncError::RevisionUnresolved { default_present } => {
                    &&& spec_find_remote(
                        *manifest,
                        spec_remote_name(*project, *manifest),
                    ) is Some
                    &&& spec_revision(*project, *manifest) is None
                    &&& default_present == (manifest.default is Some)
                },
                _ => false,
            },
        },
{
    let name: String = match &project.remote {
        Some(r) => r.clone(),
        None => match &manifest.default {
            Some(d) => match &d.remote {
                Some(r) => r.clone(),
                None => "origin".to_owned(),
            },
            None => "origin".to_owned(),
        },
    };
    let mut i: usize = 0;
    let n = manifest.remotes.len();
    while i < n
        invariant
            i <= n,
            n == manifest.remotes@.len(),
            name@ == spec_remote_name(*project, *manifest),
            forall|j: int| 0 <= j < i ==> manifest.remotes@[j].name@ != name@,
        decreases n - i,
    {
        if manifest.remotes[i].name.eq(&name) {
            let url = manifest.remotes[i].fetch.clone().concat("/").concat(
                project.name.as_str(),
            ).concat(".git");
            proof {
                assert(spec_find_remote(*manifest, name@) == Some(i as int));
            }
            let rev: String = match &project.revision {
                Some(r) => r.clone(),
                None => match &manifest.default {
                    Some(d) => match &d.revision {
                        Some(r) => r.clone(),
                        None => {
                            return Err(
                                SyncError::RevisionUnresolved { default_present: true },
                            );
                        },
                    },
                    None => {
                        return Err(SyncError::RevisionUnresolved { default_present: false });
                    },
                },
            };
            return Ok((url, rev));
        }
        i = i + 1;
    }
    Err(SyncError::RemoteNotFound { name })
}

// ---------------------------------------------------------------------------
// Failure aggregation.
// ---------------------------------------------------------------------------

/// Inspects the failures collected from the worker pool.  With `keep` unset,
/// any failure turns the whole run into an aggregate error that names every
/// failing project; with `keep` set, failures are tolerated and the run
/// succeeds regardless.
pub fn handle_errors(errors: Vec<(String, String)>, keep: bool) -> (r: Result<(), SyncError>)
    ensures
        r is Ok <==> (keep || errors@.len() == 0),
        match r {
            Ok(()) => true,
            Err(e) => match e {
                SyncError::Aggregate { failures } => failures.deep_view() == errors.deep_view(),
                _ => false,
            },
        },
{
    if errors.len() > 0 && !keep {
        Err(SyncError::Aggregate { failures: errors })
    } else {
        Ok(())
    }
}

// ---------------------------------------------------------------------------
// The per-project command plan.
// ---------------------------------------------------------------------------

/// The on-disk directory of a project under the target root: its `path`
/// attribute, or its name when no path is given.
pub open spec fn spec_project_dir(p: Project) -> Seq<char> {
    match p.path {
        Some(pa) => pa@,
        None => p.name@,
    }
}

pub fn project_dir_name(project: &Project) -> (r: String)
    ensures
        r@ == spec_project_dir(*project),
{
    match &project.path {
        Some(pa) => pa.clone(),
        None => project.name.clone(),
    }
}

/// The update path for an existing checkout: a shallow prune-fetch of the
/// revision, then a hard reset to the fetched head; detaching appends an
/// explicit checkout of the revision.
pub open spec fn spec_update_plan(rev: Seq<char>, detach: bool) -> Seq<Seq<Seq<char>>> {
    let base = seq![
        seq!["fetch"@, "origin"@, "--prune"@, "--depth"@, "1"@, rev],
        seq!["reset"@, "--hard"@, "FETCH_HEAD"@],
    ];
    if detach {
        base.push(seq!["checkout"@, rev])
    } else {
        base
    }
}

/// The clone path for a fresh directory: initialize, register the remote,
/// shallow-fetch the revision, check out the fetched head; detaching appends
/// an explicit checkout of the revision.
pub open spec fn spec_clone_plan(url: Seq<char>, rev: Seq<char>, detach: bool) -> Seq<
    Seq<Seq<char>>,
> {
    let base = seq![
        seq!["init"@],
        seq!["remote"@, "add"@, "origin"@, url],
        seq!["fetch"@, "--depth"@, "1"@, "origin"@, rev],
        seq!["checkout"@, "FETCH_HEAD"@],
    ];
    if detach {
        base.push(seq!["checkout"@, rev])
    } else {
        base
    }
}

fn push_cmd1(plan: &mut Vec<Vec<String>>, a: &str)
    ensures
        final(plan).deep_view() == old(plan).deep_view().push(seq![a@]),
{
    let mut cmd: Vec<String> = Vec::new();
    cmd.push(a.to_owned());
    proof {
        assert(cmd.deep_view() =~= seq![a@]);
    }
    let ghost pre = *plan;
    plan.push(cmd);
    proof {
        crate::strutil::lemma_deep_view_push(pre, *plan, seq![a@]);
    }
}

fn push_cmd2(plan: &mut Vec<Vec<String>>, a: &str, b: &str)
    ensures
        final(plan).deep_view() == old(plan).deep_view().push(seq![a@, b@]),
{
    let mut cmd: Vec<String> = Vec::new();
    cmd.push(a.to_owned());
    cmd.push(b.to_owned());
    proof {
        assert(cmd.deep_view() =~= seq![a@, b@]);
    }
    let ghost pre = *plan;
    plan.push(cmd);
    proof {
        crate::strutil::lemma_deep_view_push(pre, *plan, seq![a@, b@]);
    }
}

fn push_cmd3(plan: &mut Vec<Vec<String>>, a: &str, b: &str, c: &str)
    ensures
        final(plan).deep_view() == old(plan).deep_view().push(seq![a@, b@, c@]),
{
    let mut cmd: Vec<String> = Vec::new();
    cmd.push(a.to_owned());
    cmd.push(b.to_owned());
    cmd.push(c.to_owned());
    proof {
        assert(cmd.deep_view() =~= seq![a@, b@, c@]);
    }
    let ghost pre = *plan;
    plan.push(cmd);
    proof {
        crate::strutil::lemma_deep_view_push(pre, *plan, seq![a@, b@, c@]);
    }
}

fn push_cmd4(plan: &mut Vec<Vec<String>>, a: &str, b: &str, c: &str, d: &String)
    ensures
        final(plan).deep_view() == old(plan).deep_view().push(seq![a@, b@, c@, d@]),
{
    let mut cmd: Vec<String> = Vec::new();
    cmd.push(a.to_owned());
    cmd.push(b.to_owned());
    cmd.push(c.to_owned());
    cmd.push(d.clone());
    proof {
        assert(cmd.deep_view() =~= seq![a@, b@, c@, d@]);
    }
    let ghost pre = *plan;
    plan.push(cmd);
    proof {
        crate::strutil::lemma_deep_view_push(pre, *plan, seq![a@, b@, c@, d@]);
    }
}

fn push_cmd5(plan: &mut Vec<Vec<String>>, a: &str, b: &str, c: &str, d: &str, e: &String)
    ensures
        final(plan).deep_view() == old(plan).deep_view().push(seq![a@, b@, c@, d@, e@]),
{
    let mut cmd: Vec<String> = Vec::new();
    cmd.push(a.to_owned());
    cmd.push(b.to_owned());
    cmd.push(c.to_owned());
    cmd.push(d.to_owned());
    cmd.push(e.clone());
    proof {
        assert(cmd.deep_view() =~= seq![a@, b@, c@, d@, e@]);
    }
    let ghost pre = *plan;
    plan.push(cmd);
    proof {
        crate::strutil::lemma_deep_view_push(pre, *plan, seq![a@, b@, c@, d@, e@]);
    }
}

fn push_cmd6(plan: &mut Vec<Vec<String>>, a: &str, b: &str, c: &str, d: &str, e: &str, f: &String)
    ensures
        final(plan).deep_view() == old(plan).deep_view().push(seq![a@, b@, c@, d@, e@, f@]),
{
    let mut cmd: Vec<String> = Vec::new();
    cmd.push(a.to_owned());
    cmd.push(b.to_owned());
    cmd.push(c.to_owned());
    cmd.push(d.to_owned());
    cmd.push(e.to_owned());
    cmd.push(f.clone());
    proof {
        assert(cmd.deep_view() =~= seq![a@, b@, c@, d@, e@, f@]);
    }
    let ghost pre = *plan;
    plan.push(cmd);
    proof {
        crate::strutil::lemma_deep_view_push(pre, *plan, seq![a@, b@, c@, d@, e@, f@]);
    }
}

/// Decides what the external version-control backend must run for one
/// project: resolution of remote URL and revision first, then the update
/// path when the project's directory already exists on disk, else the clone
/// path; a resolution failure is this project's failure alone.
pub fn plan_project_sync(
    project: &Project,
    manifest: &Manifest,
    target_exists: bool,
    options: &SyncOptions,
) -> (r: Result<Vec<Vec<String>>, SyncError>)
    ensures
        match r {
            Ok(plan) => {
                &&& resolve_ok(*project, *manifest)
                &&& plan.deep_view() == if target_exists {
                    spec_update_plan(spec_revision(*project, *manifest)->0, options.detach)
                } else {
                    spec_clone_plan(
                        spec_resolved_url(*project, *manifest),
                        spec_revision(*project, *manifest)->0,
                        options.detach,
                    )
                }
            },
            Err(e) => !(e matches SyncError::Aggregate { .. }) && !(e
                matches SyncError::VcsCommandFailed { .. }),
        },
        r is Ok <==> resolve_ok(*project, *manifest),
{
    let (url, rev) = match resolve_project(project, manifest) {
        Ok(ur) => ur,
        Err(e) => {
            return Err(e);
        },
    };
    let mut plan: Vec<Vec<String>> = Vec::new();
    proof {
        assert(plan.deep_view() =~= Seq::<Seq<Seq<char>>>::empty());
    }
    if target_exists {
        push_cmd6(&mut plan, "fetch", "origin", "--prune", "--depth", "1", &rev);
        push_cmd3(&mut plan, "reset", "--hard", "FETCH_HEAD");
        proof {
            assert(plan.deep_view() =~= seq![
                seq!["fetch"@, "origin"@, "--prune"@, "--depth"@, "1"@, rev@],
                seq!["reset"@, "--hard"@, "FETCH_HEAD"@],
            ]);
        }
    } else {
        push_cmd1(&mut plan, "init");
        push_cmd4(&mut plan, "remote", "add", "origin", &url);
        push_cmd5(&mut plan, "fetch", "--depth", "1", "origin", &rev);
        push_cmd2(&mut plan, "checkout", "FETCH_HEAD");
        proof {
            assert(plan.deep_view() =~= seq![
                seq!["init"@],
                seq!["remote"@, "add"@, "origin"@, url@],
                seq!["fetch"@, "--depth"@, "1"@, "origin"@, rev@],
                seq!["checkout"@, "FETCH_HEAD"@],
            ]);
        }
    }
    if options.detach {
        push_cmd2(&mut plan, "checkout", &rev);
    }
    Ok(plan)
}

/// Whether remote URL and revision both resolve for the project.
pub open spec fn resolve_ok(p: Project, m: Manifest) -> bool {
    &&& spec_find_remote(m, spec_remote_name(p, m)) is Some
    &&& spec_revision(p, m) is Some
}

/// The clone URL the project resolves to.
pub open spec fn spec_resolved_url(p: Project, m: Manifest) -> Seq<char> {
    m.remotes@[spec_find_remote(m, spec_remote_name(p, m))->0].fetch@ + "/"@ + p.name@ + ".git"@
}

// ---------------------------------------------------------------------------
// Project selection.
// ---------------------------------------------------------------------------

/// Whether the caller's name list selects the project.
pub open spec fn spec_name_selected(names: Seq<Seq<char>>, p: ProjectV) -> bool {
    exists|i: int| 0 <= i < names.len() && names[i] == p.name
}

/// The projects whose names appear in the list, in manifest order.
pub open spec fn spec_selected_projects(ps: Seq<ProjectV>, names: Seq<Seq<char>>) -> Seq<ProjectV>
    decreases ps.len(),
{
    if ps.len() == 0 {
        Seq::empty()
    } else {
        let rest = spec_selected_projects(ps.drop_last(), names);
        if spec_name_selected(names, ps.last()) {
            rest.push(ps.last())
        } else {
            rest
        }
    }
}

/// Restricts the manifest's projects to the caller-supplied name list,
/// keeping manifest order.
pub fn filter_projects(projects: &Vec<Project>, names: &Vec<String>) -> (r: Vec<Project>)
    ensures
        r.deep_view() == spec_selected_projects(projects.deep_view(), names.deep_view()),
{
    let mut r: Vec<Project> = Vec::new();
    let mut i: usize = 0;
    proof {
        assert(r.deep_view() =~= spec_selected_projects(
            projects.deep_view().take(0),
            names.deep_view(),
        ));
    }
    while i < projects.len()
        invariant
            i <= projects.len(),
            r.deep_view() == spec_selected_projects(
                projects.deep_view().take(i as int),
                names.deep_view(),
            ),
        decreases projects.len() - i,
    {
        proof {
            assert(projects.deep_view().take(i as int + 1).drop_last() =~= projects.deep_view()
                .take(i as int));
            assert(projects.deep_view().take(i as int + 1).last() == projects.deep_view()[
                i as int]);
        }
        let mut selected = false;
        let mut j: usize = 0;
        while j < names.len()
            invariant
                j <= names.len(),
                i < projects.len(),
                selected ==> spec_name_selected(
                    names.deep_view(),
                    projects.deep_view()[i as int],
                ),
                !selected ==> forall|k: int|
                    0 <= k < j ==> names.deep_view()[k] != projects.deep_view()[i as int].name,
            decreases names.len() - j,
        {
            if !selected && names[j].eq(&projects[i].name) {
                proof {
                    assert(names.deep_view()[j as int] == projects.deep_view()[i as int].name);
                    assert(spec_name_selected(
                        names.deep_view(),
                        projects.deep_view()[i as int],
                    ));
                }
                selected = true;
            }
            j = j + 1;
        }
        if selected {
            let ghost pre = r;
            r.push(crate::merge::clone_project(&projects[i]));
            proof {
                crate::strutil::lemma_deep_view_push(
                    pre,
                    r,
                    projects.deep_view()[i as int],
                );
            }
        }
        i = i + 1;
    }
    proof {
        assert(projects.deep_view().take(projects.len() as int) =~= projects.deep_view());
    }
    r
}

} // verus!
