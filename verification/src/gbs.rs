//! Options for the package-build command: a plain configuration value, a
//! builder that assembles it, and the exact command-line rendering.

use vstd::prelude::*;
use vstd::string::StringExecFns;
use crate::strutil::{
    join_comma, lemma_deep_view_push, spec_join, spec_nat_str, spec_str_lt, str_lt, u32_to_string,
};

verus! {

// ---------------------------------------------------------------------------
// Spec-level description of the rendered argument list.
// ---------------------------------------------------------------------------

/// A boolean switch renders as its flag alone, or as nothing.
pub open spec fn spec_flag(on: bool, f: Seq<char>) -> Seq<Seq<char>> {
    if on {
        seq![f]
    } else {
        Seq::empty()
    }
}

/// An optional value renders as the flag followed by the value.
pub open spec fn spec_opt(v: Option<Seq<char>>, f: Seq<char>) -> Seq<Seq<char>> {
    match v {
        Some(s) => seq![f, s],
        None => Seq::empty(),
    }
}

/// A positional value renders as itself alone.
pub open spec fn spec_pos(v: Option<Seq<char>>) -> Seq<Seq<char>> {
    match v {
        Some(s) => seq![s],
        None => Seq::empty(),
    }
}

/// Each element renders as the flag followed by that element.
pub open spec fn spec_each(vs: Seq<Seq<char>>, f: Seq<char>) -> Seq<Seq<char>>
    decreases vs.len(),
{
    if vs.len() == 0 {
        Seq::empty()
    } else {
        spec_each(vs.drop_last(), f) + seq![f, vs.last()]
    }
}

pub open spec fn spec_opt_each(v: Option<Seq<Seq<char>>>, f: Seq<char>) -> Seq<Seq<char>> {
    match v {
        Some(vs) => spec_each(vs, f),
        None => Seq::empty(),
    }
}

/// An optional number renders as the flag followed by its decimal form.
pub open spec fn spec_opt_num(v: Option<u32>, f: Seq<char>) -> Seq<Seq<char>> {
    match v {
        Some(n) => seq![f, spec_nat_str(n as nat)],
        None => Seq::empty(),
    }
}

/// An optional list renders as the flag followed by the comma-joined list.
pub open spec fn spec_opt_join(v: Option<Seq<Seq<char>>>, f: Seq<char>) -> Seq<Seq<char>> {
    match v {
        Some(vs) => seq![f, spec_join(vs, ","@)],
        None => Seq::empty(),
    }
}

/// One macro definition renders as `key value` in a single argument.
pub open spec fn spec_define_entry(p: (Seq<char>, Seq<char>)) -> Seq<char> {
    p.0 + " "@ + p.1
}

pub open spec fn spec_defines_list(ps: Seq<(Seq<char>, Seq<char>)>) -> Seq<Seq<char>>
    decreases ps.len(),
{
    if ps.len() == 0 {
        Seq::empty()
    } else {
        spec_defines_list(ps.drop_last()) + seq!["--define"@, spec_define_entry(ps.last())]
    }
}

/// Inserts a pair into a key-sorted sequence, after any equal keys.
pub open spec fn spec_pair_insert(
    p: (Seq<char>, Seq<char>),
    s: Seq<(Seq<char>, Seq<char>)>,
) -> Seq<(Seq<char>, Seq<char>)>
    decreases s.len(),
{
    if s.len() == 0 {
        seq![p]
    } else if spec_str_lt(p.0, s[0].0) {
        seq![p] + s
    } else {
        seq![s[0]] + spec_pair_insert(p, s.drop_first())
    }
}

/// Stable insertion sort of the definition pairs by key.
pub open spec fn spec_sort_pairs(s: Seq<(Seq<char>, Seq<char>)>) -> Seq<(Seq<char>, Seq<char>)>
    decreases s.len(),
{
    if s.len() == 0 {
        Seq::empty()
    } else {
        spec_pair_insert(s.last(), spec_sort_pairs(s.drop_last()))
    }
}

/// The macro definitions render sorted by key, each as `--define "key value"`.
pub open spec fn spec_opt_defines(v: Option<Seq<(Seq<char>, Seq<char>)>>) -> Seq<Seq<char>> {
    match v {
        Some(ps) => spec_defines_list(spec_sort_pairs(ps)),
        None => Seq::empty(),
    }
}

// ---------------------------------------------------------------------------
// The options value.
// ---------------------------------------------------------------------------

/// Options for one invocation of the package build.  Every field maps to one
/// fragment of the rendered command line, in a fixed order.
#[derive(Debug, Clone)]
pub struct GbsBuildOptions {
    // Positional argument: the git tree to build, kept last on the line.
    pub gitdir: Option<String>,
    // Build configuration.
    pub arch: Option<String>,
    pub dist: Option<String>,
    pub profile: Option<String>,
    pub repositories: Option<Vec<String>>,
    pub skip_conf_repos: bool,
    pub overwrite: bool,
    pub define: Option<Vec<(String, String)>>,
    pub debug: bool,
    pub baselibs: bool,
    pub clean: bool,
    pub incremental: bool,
    pub no_configure: bool,
    pub noinit: bool,
    pub ccache: bool,
    pub pkg_ccache: Option<String>,
    pub icecream: Option<u32>,
    pub threads: Option<u32>,
    pub skip_srcrpm: bool,
    // Build environment.
    pub buildroot: Option<String>,
    pub clean_once: bool,
    pub clean_repos: bool,
    pub fail_fast: bool,
    pub keepgoing: Option<u32>,
    pub extra_packs: Option<Vec<String>>,
    pub keep_packs: bool,
    pub use_higher_deps: bool,
    pub kvm: bool,
    pub vm_memory: Option<String>,
    pub vm_disk: Option<String>,
    pub vm_swap: Option<String>,
    pub vm_diskfilesystem: Option<String>,
    pub vm_initrd: Option<String>,
    pub vm_kernel: Option<String>,
    pub not_export_source: bool,
    pub full_build: bool,
    pub deps_build: bool,
    pub snapshot: Option<String>,
    // Git-tree options.
    pub commit: Option<String>,
    pub include_all: bool,
    pub packaging_dir: Option<String>,
    pub spec_file: Option<String>,
    pub upstream_branch: Option<String>,
    pub upstream_tag: Option<String>,
    pub fallback_to_native: bool,
    pub squash_patches_until: Option<String>,
    pub no_patch_export: bool,
    // Package selection.
    pub package_list: Option<Vec<String>>,
    pub package_from_file: Option<String>,
    pub binary_list: Option<Vec<String>>,
    pub binary_from_file: Option<String>,
    pub exclude: Option<Vec<String>>,
    pub exclude_from_file: Option<String>,
    pub deps: bool,
    pub rdeps: bool,
    pub disable_debuginfo: bool,
    pub style: Option<String>,
    pub export_only: bool,
    pub preordered_list: Option<String>,
    pub profiling: Option<String>,
    pub with_submodules: bool,
    pub release: Option<String>,
    pub nocumulate: bool,
}

/// The options value with nothing set.
pub open spec fn spec_default_options() -> GbsBuildOptions {
    GbsBuildOptions {
        gitdir: None,
        arch: None,
        dist: None,
        profile: None,
        repositories: None,
        skip_conf_repos: false,
        overwrite: false,
        define: None,
        debug: false,
        baselibs: false,
        clean: false,
        incremental: false,
        no_configure: false,
        noinit: false,
        ccache: false,
        pkg_ccache: None,
        icecream: None,
        threads: None,
        skip_srcrpm: false,
        buildroot: None,
        clean_once: false,
        clean_repos: false,
        fail_fast: false,
        keepgoing: None,
        extra_packs: None,
        keep_packs: false,
        use_higher_deps: false,
        kvm: false,
        vm_memory: None,
        vm_disk: None,
        vm_swap: None,
        vm_diskfilesystem: None,
        vm_initrd: None,
        vm_kernel: None,
        not_export_source: false,
        full_build: false,
        deps_build: false,
        snapshot: None,
        commit: None,
        include_all: false,
        packaging_dir: None,
        spec_file: None,
        upstream_branch: None,
        upstream_tag: None,
        fallback_to_native: false,
        squash_patches_until: None,
        no_patch_export: false,
        package_list: None,
        package_from_file: None,
        binary_list: None,
        binary_from_file: None,
        exclude: None,
        exclude_from_file: None,
        deps: false,
        rdeps: false,
        disable_debuginfo: false,
        style: None,
        export_only: false,
        preordered_list: None,
        profiling: None,
        with_submodules: false,
        release: None,
        nocumulate: false,
    }
}

impl Default for GbsBuildOptions {
    /// The options value with nothing set.
    fn default() -> (r: Self)
        ensures
            r == spec_default_options(),
    {
        GbsBuildOptions {
            gitdir: None,
            arch: None,
            dist: None,
            profile: None,
            repositories: None,
            skip_conf_repos: false,
            overwrite: false,
            define: None,
            debug: false,
            baselibs: false,
            clean: false,
            incremental: false,
            no_configure: false,
            noinit: false,
            ccache: false,
            pkg_ccache: None,
            icecream: None,
            threads: None,
            skip_srcrpm: false,
            buildroot: None,
            clean_once: false,
            clean_repos: false,
            fail_fast: false,
            keepgoing: None,
            extra_packs: None,
            keep_packs: false,
            use_higher_deps: false,
            kvm: false,
            vm_memory: None,
            vm_disk: None,
            vm_swap: None,
            vm_diskfilesystem: None,
            vm_initrd: None,
            vm_kernel: None,
            not_export_source: false,
            full_build: false,
            deps_build: false,
            snapshot: None,
            commit: None,
            include_all: false,
            packaging_dir: None,
            spec_file: None,
            upstream_branch: None,
            upstream_tag: None,
            fallback_to_native: false,
            squash_patches_until: None,
            no_patch_export: false,
            package_list: None,
            package_from_file: None,
            binary_list: None,
            binary_from_file: None,
            exclude: None,
            exclude_from_file: None,
            deps: false,
            rdeps: false,
            disable_debuginfo: false,
            style: None,
            export_only: false,
            preordered_list: None,
            profiling: None,
            with_submodules: false,
            release: None,
            nocumulate: false,
        }
    }
}

// ---------------------------------------------------------------------------
// The rendered argument list, one spec function per option group.
// ---------------------------------------------------------------------------

pub open spec fn spec_config_args_0(o: GbsBuildOptions) -> Seq<Seq<char>> {
    spec_opt(o.arch.deep_view(), "-A"@) + spec_opt(o.dist.deep_view(), "-D"@) + spec_opt(o.profile.deep_view(), "-P"@) + spec_opt_each(o.repositories.deep_view(), "-R"@)
}

pub open spec fn spec_config_args_1(o: GbsBuildOptions) -> Seq<Seq<char>> {
    spec_flag(o.skip_conf_repos, "--skip-conf-repos"@) + spec_flag(o.overwrite, "--overwrite"@) + spec_opt_defines(o.define.deep_view()) + spec_flag(o.debug, "--debug"@)
}

pub open spec fn spec_config_args_2(o: GbsBuildOptions) -> Seq<Seq<char>> {
    spec_flag(o.baselibs, "--baselibs"@)
}

pub open spec fn spec_config_args(o: GbsBuildOptions) -> Seq<Seq<char>> {
    spec_config_args_0(o) + spec_config_args_1(o) + spec_config_args_2(o)
}

pub open spec fn spec_env_args_0(o: GbsBuildOptions) -> Seq<Seq<char>> {
    spec_opt(o.buildroot.deep_view(), "-B"@) + spec_flag(o.clean, "-C"@) + spec_flag(o.clean_once, "--clean-once"@) + spec_flag(o.clean_repos, "--clean-repos"@)
}

pub open spec fn spec_env_args_1(o: GbsBuildOptions) -> Seq<Seq<char>> {
    spec_flag(o.fail_fast, "--fail-fast"@) + spec_opt_num(o.keepgoing, "--keepgoing"@) + spec_opt_join(o.extra_packs.deep_view(), "--extra-packs"@) + spec_flag(o.keep_packs, "--keep-packs"@)
}

pub open spec fn spec_env_args_2(o: GbsBuildOptions) -> Seq<Seq<char>> {
    spec_flag(o.use_higher_deps, "--use-higher-deps"@) + spec_flag(o.kvm, "--kvm"@) + spec_opt(o.vm_memory.deep_view(), "--vm-memory"@) + spec_opt(o.vm_disk.deep_view(), "--vm-disk"@)
}

pub open spec fn spec_env_args_3(o: GbsBuildOptions) -> Seq<Seq<char>> {
    spec_opt(o.vm_swap.deep_view(), "--vm-swap"@) + spec_opt(o.vm_diskfilesystem.deep_view(), "--vm-diskfilesystem"@) + spec_opt(o.vm_initrd.deep_view(), "--vm-initrd"@) + spec_opt(o.vm_kernel.deep_view(), "--vm-kernel"@)
}

pub open spec fn spec_env_args_4(o: GbsBuildOptions) -> Seq<Seq<char>> {
    spec_flag(o.not_export_source, "--not-export-source"@) + spec_flag(o.full_build, "--full-build"@) + spec_flag(o.deps_build, "--deps-build"@) + spec_opt(o.snapshot.deep_view(), "--snapshot"@)
}

pub open spec fn spec_env_args(o: GbsBuildOptions) -> Seq<Seq<char>> {
    spec_env_args_0(o) + spec_env_args_1(o) + spec_env_args_2(o) + spec_env_args_3(o) + spec_env_args_4(o)
}

pub open spec fn spec_speed_args_0(o: GbsBuildOptions) -> Seq<Seq<char>> {
    spec_flag(o.incremental, "--incremental"@) + spec_flag(o.no_configure, "--no-configure"@) + spec_flag(o.noinit, "--noinit"@) + spec_flag(o.ccache, "--ccache"@)
}

pub open spec fn spec_speed_args_1(o: GbsBuildOptions) -> Seq<Seq<char>> {
    spec_opt(o.pkg_ccache.deep_view(), "--pkg-ccache"@) + spec_opt_num(o.icecream, "--icecream"@) + spec_flag(o.skip_srcrpm, "--skip-srcrpm"@) + spec_opt_num(o.threads, "--threads"@)
}

pub open spec fn spec_speed_args(o: GbsBuildOptions) -> Seq<Seq<char>> {
    spec_speed_args_0(o) + spec_speed_args_1(o)
}

pub open spec fn spec_gittree_args_0(o: GbsBuildOptions) -> Seq<Seq<char>> {
    spec_opt(o.commit.deep_view(), "-c"@) + spec_flag(o.include_all, "--include-all"@) + spec_opt(o.packaging_dir.deep_view(), "--packaging-dir"@) + spec_opt(o.spec_file.deep_view(), "--spec"@)
}

pub open spec fn spec_gittree_args_1(o: GbsBuildOptions) -> Seq<Seq<char>> {
    spec_opt(o.upstream_branch.deep_view(), "--upstream-branch"@) + spec_opt(o.upstream_tag.deep_view(), "--upstream-tag"@) + spec_flag(o.fallback_to_native, "--fallback-to-native"@) + spec_opt(o.squash_patches_until.deep_view(), "--squash-patches-until"@)
}

pub open spec fn spec_gittree_args_2(o: GbsBuildOptions) -> Seq<Seq<char>> {
    spec_flag(o.no_patch_export, "--no-patch-export"@)
}

pub open spec fn spec_gittree_args(o: GbsBuildOptions) -> Seq<Seq<char>> {
    spec_gittree_args_0(o) + spec_gittree_args_1(o) + spec_gittree_args_2(o)
}

pub open spec fn spec_selection_args_0(o: GbsBuildOptions) -> Seq<Seq<char>> {
    spec_opt_each(o.package_list.deep_view(), "--package"@) + spec_opt(o.package_from_file.deep_view(), "--package-from-file"@) + spec_opt_each(o.binary_list.deep_view(), "--binary"@) + spec_opt(o.binary_from_file.deep_view(), "--binary-from-file"@)
}

pub open spec fn spec_selection_args_1(o: GbsBuildOptions) -> Seq<Seq<char>> {
    spec_opt_each(o.exclude.deep_view(), "--exclude"@) + spec_opt(o.exclude_from_file.deep_view(), "--exclude-from-file"@) + spec_flag(o.deps, "--deps"@) + spec_flag(o.rdeps, "--rdeps"@)
}

pub open spec fn spec_selection_args_2(o: GbsBuildOptions) -> Seq<Seq<char>> {
    spec_flag(o.disable_debuginfo, "--disable-debuginfo"@) + spec_opt(o.style.deep_view(), "--style"@) + spec_flag(o.export_only, "--export-only"@) + spec_opt(o.preordered_list.deep_view(), "--preordered-list"@)
}

pub open spec fn spec_selection_args_3(o: GbsBuildOptions) -> Seq<Seq<char>> {
    spec_opt(o.profiling.deep_view(), "--profiling"@) + spec_flag(o.with_submodules, "--with-submodules"@) + spec_opt(o.release.deep_view(), "--release"@) + spec_flag(o.nocumulate, "--nocumulate"@)
}

pub open spec fn spec_selection_args(o: GbsBuildOptions) -> Seq<Seq<char>> {
    spec_selection_args_0(o) + spec_selection_args_1(o) + spec_selection_args_2(o) + spec_selection_args_3(o)
}

/// The full rendered command line for an options value.
pub open spec fn spec_gbs_args(o: GbsBuildOptions) -> Seq<Seq<char>> {
    spec_config_args(o) + spec_env_args(o) + spec_speed_args(o) + spec_gittree_args(o) + spec_selection_args(o) + spec_pos(o.gitdir.deep_view())
}

// ---------------------------------------------------------------------------
// Rendering helpers.
// ---------------------------------------------------------------------------

fn push_flag(args: &mut Vec<String>, f: &str, on: bool)
    ensures
        final(args).deep_view() == old(args).deep_view() + spec_flag(on, f@),
{
    if on {
        args.push(f.to_owned());
        proof {
            lemma_deep_view_push(*old(args), *args, f@);
            assert(old(args).deep_view().push(f@) =~= old(args).deep_view() + spec_flag(on, f@));
        }
    } else {
        proof {
            assert(args.deep_view() =~= old(args).deep_view() + spec_flag(on, f@));
        }
    }
}

fn push_opt(args: &mut Vec<String>, f: &str, v: &Option<String>)
    ensures
        final(args).deep_view() == old(args).deep_view() + spec_opt(v.deep_view(), f@),
{
    match v {
        Some(s) => {
            args.push(f.to_owned());
            proof {
                lemma_deep_view_push(*old(args), *args, f@);
            }
            let ghost before = *args;
            args.push(s.clone());
            proof {
                lemma_deep_view_push(before, *args, s@);
                assert(old(args).deep_view().push(f@).push(s@) =~= old(args).deep_view()
                    + spec_opt(v.deep_view(), f@));
            }
        },
        None => {
            proof {
                assert(args.deep_view() =~= old(args).deep_view() + spec_opt(v.deep_view(), f@));
            }
        },
    }
}

fn push_pos(args: &mut Vec<String>, v: &Option<String>)
    ensures
        final(args).deep_view() == old(args).deep_view() + spec_pos(v.deep_view()),
{
    match v {
        Some(s) => {
            args.push(s.clone());
            proof {
                lemma_deep_view_push(*old(args), *args, s@);
                assert(old(args).deep_view().push(s@) =~= old(args).deep_view() + spec_pos(
                    v.deep_view(),
                ));
            }
        },
        None => {
            proof {
                assert(args.deep_view() =~= old(args).deep_view() + spec_pos(v.deep_view()));
            }
        },
    }
}

fn push_each(args: &mut Vec<String>, f: &str, v: &Option<Vec<String>>)
    ensures
        final(args).deep_view() == old(args).deep_view() + spec_opt_each(v.deep_view(), f@),
{
    match v {
        Some(vs) => {
            let mut i: usize = 0;
            proof {
                assert(args.deep_view() =~= old(args).deep_view() + spec_each(
                    vs.deep_view().take(0),
                    f@,
                ));
            }
            while i < vs.len()
                invariant
                    i <= vs.len(),
                    args.deep_view() == old(args).deep_view() + spec_each(
                        vs.deep_view().take(i as int),
                        f@,
                    ),
                decreases vs.len() - i,
            {
                let ghost before_f = *args;
                args.push(f.to_owned());
                proof {
                    lemma_deep_view_push(before_f, *args, f@);
                }
                let ghost before_v = *args;
                args.push(vs[i].clone());
                proof {
                    lemma_deep_view_push(before_v, *args, vs.deep_view()[i as int]);
                    assert(vs.deep_view().take(i as int + 1).drop_last() =~= vs.deep_view().take(
                        i as int,
                    ));
                    assert(args.deep_view() =~= old(args).deep_view() + spec_each(
                        vs.deep_view().take(i as int + 1),
                        f@,
                    ));
                }
                i = i + 1;
            }
            proof {
                assert(vs.deep_view().take(vs.len() as int) =~= vs.deep_view());
            }
        },
        None => {
            proof {
                assert(args.deep_view() =~= old(args).deep_view() + spec_opt_each(
                    v.deep_view(),
                    f@,
                ));
            }
        },
    }
}

fn push_num(args: &mut Vec<String>, f: &str, v: &Option<u32>)
    ensures
        final(args).deep_view() == old(args).deep_view() + spec_opt_num(*v, f@),
{
    match v {
        Some(n) => {
            args.push(f.to_owned());
            proof {
                lemma_deep_view_push(*old(args), *args, f@);
            }
            let ghost before = *args;
            let s = u32_to_string(*n);
            args.push(s);
            proof {
                lemma_deep_view_push(before, *args, spec_nat_str(*n as nat));
                assert(old(args).deep_view().push(f@).push(spec_nat_str(*n as nat)) =~= old(
                    args,
                ).deep_view() + spec_opt_num(*v, f@));
            }
        },
        None => {
            proof {
                assert(args.deep_view() =~= old(args).deep_view() + spec_opt_num(*v, f@));
            }
        },
    }
}

fn push_join(args: &mut Vec<String>, f: &str, v: &Option<Vec<String>>)
    ensures
        final(args).deep_view() == old(args).deep_view() + spec_opt_join(v.deep_view(), f@),
{
    match v {
        Some(vs) => {
            args.push(f.to_owned());
            proof {
                lemma_deep_view_push(*old(args), *args, f@);
            }
            let ghost before = *args;
            let joined = join_comma(vs);
            args.push(joined);
            proof {
                lemma_deep_view_push(before, *args, spec_join(vs.deep_view(), ","@));
                assert(old(args).deep_view().push(f@).push(spec_join(vs.deep_view(), ","@)) =~= old(
                    args,
                ).deep_view() + spec_opt_join(v.deep_view(), f@));
            }
        },
        None => {
            proof {
                assert(args.deep_view() =~= old(args).deep_view() + spec_opt_join(
                    v.deep_view(),
                    f@,
                ));
            }
        },
    }
}

/// Inserts a pair into a key-sorted vector, after any equal keys.
fn insert_pair(sorted: &Vec<(String, String)>, p: &(String, String)) -> (r: Vec<(String, String)>)
    ensures
        r.deep_view() == spec_pair_insert(p.deep_view(), sorted.deep_view()),
{
    let mut r: Vec<(String, String)> = Vec::new();
    let mut i: usize = 0;
    while i < sorted.len() && !str_lt(p.0.as_str(), sorted[i].0.as_str())
        invariant
            i <= sorted.len(),
            forall|j: int| 0 <= j < i ==> !spec_str_lt(p.deep_view().0, sorted.deep_view()[j].0),
            r@.len() == i,
            forall|j: int| 0 <= j < i ==> r@[j] == sorted@[j],
        decreases sorted.len() - i,
    {
        r.push((sorted[i].0.clone(), sorted[i].1.clone()));
        i = i + 1;
    }
    let k = i;
    r.push((p.0.clone(), p.1.clone()));
    while i < sorted.len()
        invariant
            k <= i <= sorted.len(),
            r@.len() == i + 1,
            forall|j: int| 0 <= j < k ==> r@[j] == sorted@[j],
            r@[k as int].deep_view() == p.deep_view(),
            forall|j: int| k < j <= i ==> r@[j] == sorted@[j - 1],
        decreases sorted.len() - i,
    {
        r.push((sorted[i].0.clone(), sorted[i].1.clone()));
        i = i + 1;
    }
    proof {
        let pv = p.deep_view();
        let sv = sorted.deep_view();
        lemma_pair_insert_at(pv, sv, k as int);
        assert forall|j: int| 0 <= j < r.deep_view().len() implies r.deep_view()[j] == (sv.take(
            k as int,
        ) + seq![pv] + sv.skip(k as int))[j] by {
            if j < k {
                assert(r@[j] == sorted@[j]);
            } else if j > k {
                assert(r@[j] == sorted@[j - 1]);
            }
        }
        assert(r.deep_view() =~= sv.take(k as int) + seq![pv] + sv.skip(k as int));
    }
    r
}

/// Where the first strictly-greater key sits, the insertion splits the
/// sequence there.
proof fn lemma_pair_insert_at(p: (Seq<char>, Seq<char>), s: Seq<(Seq<char>, Seq<char>)>, k: int)
    requires
        0 <= k <= s.len(),
        forall|j: int| 0 <= j < k ==> !spec_str_lt(p.0, s[j].0),
        k == s.len() || spec_str_lt(p.0, s[k].0),
    ensures
        spec_pair_insert(p, s) == s.take(k) + seq![p] + s.skip(k),
    decreases k,
{
    if s.len() == 0 {
        assert(spec_pair_insert(p, s) =~= s.take(k) + seq![p] + s.skip(k));
    } else if k == 0 {
        assert(spec_pair_insert(p, s) == seq![p] + s);
        assert(seq![p] + s =~= s.take(0) + seq![p] + s.skip(0));
    } else {
        let t = s.drop_first();
        assert forall|j: int| 0 <= j < k - 1 implies !spec_str_lt(p.0, t[j].0) by {
            assert(t[j] == s[j + 1]);
        }
        if k - 1 < t.len() {
            assert(t[k - 1] == s[k]);
        }
        lemma_pair_insert_at(p, t, k - 1);
        assert(!spec_str_lt(p.0, s[0].0));
        assert(spec_pair_insert(p, s) == seq![s[0]] + spec_pair_insert(p, t));
        assert(seq![s[0]] + (t.take(k - 1) + seq![p] + t.skip(k - 1)) =~= s.take(k) + seq![p]
            + s.skip(k));
    }
}

/// Sorts the definition pairs by key, stably.
fn sort_pairs(ps: &Vec<(String, String)>) -> (r: Vec<(String, String)>)
    ensures
        r.deep_view() == spec_sort_pairs(ps.deep_view()),
{
    let mut r: Vec<(String, String)> = Vec::new();
    let mut i: usize = 0;
    proof {
        assert(ps.deep_view().take(0) =~= Seq::<(Seq<char>, Seq<char>)>::empty());
        assert(r.deep_view() =~= spec_sort_pairs(ps.deep_view().take(0)));
    }
    while i < ps.len()
        invariant
            i <= ps.len(),
            r.deep_view() == spec_sort_pairs(ps.deep_view().take(i as int)),
        decreases ps.len() - i,
    {
        r = insert_pair(&r, &ps[i]);
        proof {
            assert(ps.deep_view().take(i as int + 1).drop_last() =~= ps.deep_view().take(i as int));
            assert(ps.deep_view().take(i as int + 1).last() == ps.deep_view()[i as int]);
        }
        i = i + 1;
    }
    proof {
        assert(ps.deep_view().take(ps.len() as int) =~= ps.deep_view());
    }
    r
}

fn push_defines(args: &mut Vec<String>, v: &Option<Vec<(String, String)>>)
    ensures
        final(args).deep_view() == old(args).deep_view() + spec_opt_defines(v.deep_view()),
{
    match v {
        Some(pairs) => {
            let sorted = sort_pairs(pairs);
            let mut i: usize = 0;
            proof {
                assert(args.deep_view() =~= old(args).deep_view() + spec_defines_list(
                    sorted.deep_view().take(0),
                ));
            }
            while i < sorted.len()
                invariant
                    i <= sorted.len(),
                    sorted.deep_view() == spec_sort_pairs(pairs.deep_view()),
                    args.deep_view() == old(args).deep_view() + spec_defines_list(
                        sorted.deep_view().take(i as int),
                    ),
                decreases sorted.len() - i,
            {
                let ghost before_f = *args;
                args.push("--define".to_owned());
                proof {
                    lemma_deep_view_push(before_f, *args, "--define"@);
                }
                let mut entry = sorted[i].0.clone();
                entry.append(" ");
                entry.append(sorted[i].1.as_str());
                let ghost before_e = *args;
                args.push(entry);
                proof {
                    lemma_deep_view_push(
                        before_e,
                        *args,
                        spec_define_entry(sorted.deep_view()[i as int]),
                    );
                    assert(sorted.deep_view().take(i as int + 1).drop_last() =~= sorted.deep_view()
                        .take(i as int));
                    assert(args.deep_view() =~= old(args).deep_view() + spec_defines_list(
                        sorted.deep_view().take(i as int + 1),
                    ));
                }
                i = i + 1;
            }
            proof {
                assert(sorted.deep_view().take(sorted.len() as int) =~= sorted.deep_view());
            }
        },
        None => {
            proof {
                assert(args.deep_view() =~= old(args).deep_view() + spec_opt_defines(
                    v.deep_view(),
                ));
            }
        },
    }
}

// ---------------------------------------------------------------------------
// Rendering and the builder.
// ---------------------------------------------------------------------------

impl GbsBuildOptions {
    /// A builder for assembling an options value step by step.
    pub fn builder() -> (r: GbsBuildOptionsBuilder)
        ensures
            r.options == spec_default_options(),
    {
        GbsBuildOptionsBuilder { options: GbsBuildOptions::default() }
    }

    fn push_config_args_0(&self, args: &mut Vec<String>)
        ensures
            final(args).deep_view() == old(args).deep_view() + spec_config_args_0(*self),
    {
        push_opt(args, "-A", &self.arch);
        proof {
            assert(args.deep_view() =~= old(args).deep_view() + (spec_opt(self.arch.deep_view(), "-A"@)));
        }
        push_opt(args, "-D", &self.dist);
        proof {
            assert(args.deep_view() =~= old(args).deep_view() + (spec_opt(self.arch.deep_view(), "-A"@) + spec_opt(self.dist.deep_view(), "-D"@)));
        }
        push_opt(args, "-P", &self.profile);
        proof {
            assert(args.deep_view() =~= old(args).deep_view() + (spec_opt(self.arch.deep_view(), "-A"@) + spec_opt(self.dist.deep_view(), "-D"@) + spec_opt(self.profile.deep_view(), "-P"@)));
        }
        push_each(args, "-R", &self.repositories);
        proof {
            assert(args.deep_view() =~= old(args).deep_view() + (spec_opt(self.arch.deep_view(), "-A"@) + spec_opt(self.dist.deep_view(), "-D"@) + spec_opt(self.profile.deep_view(), "-P"@) + spec_opt_each(self.repositories.deep_view(), "-R"@)));
        }
    }

    fn push_config_args_1(&self, args: &mut Vec<String>)
        ensures
            final(args).deep_view() == old(args).deep_view() + spec_config_args_1(*self),
    {
        push_flag(args, "--skip-conf-repos", self.skip_conf_repos);
        proof {
            assert(args.deep_view() =~= old(args).deep_view() + (spec_flag(self.skip_conf_repos, "--skip-conf-repos"@)));
        }
        push_flag(args, "--overwrite", self.overwrite);
        proof {
            assert(args.deep_view() =~= old(args).deep_view() + (spec_flag(self.skip_conf_repos, "--skip-conf-repos"@) + spec_flag(self.overwrite, "--overwrite"@)));
        }
        push_defines(args, &self.define);
        proof {
            assert(args.deep_view() =~= old(args).deep_view() + (spec_flag(self.skip_conf_repos, "--skip-conf-repos"@) + spec_flag(self.overwrite, "--overwrite"@) + spec_opt_defines(self.define.deep_view())));
        }
        push_flag(args, "--debug", self.debug);
        proof {
            assert(args.deep_view() =~= old(args).deep_view() + (spec_flag(self.skip_conf_repos, "--skip-conf-repos"@) + spec_flag(self.overwrite, "--overwrite"@) + spec_opt_defines(self.define.deep_view()) + spec_flag(self.debug, "--debug"@)));
        }
    }

    fn push_config_args_2(&self, args: &mut Vec<String>)
        ensures
            final(args).deep_view() == old(args).deep_view() + spec_config_args_2(*self),
    {
        push_flag(args, "--baselibs", self.baselibs);
        proof {
            assert(args.deep_view() =~= old(args).deep_view() + (spec_flag(self.baselibs, "--baselibs"@)));
        }
    }

    fn push_config_args(&self, args: &mut Vec<String>)
        ensures
            final(args).deep_view() == old(args).deep_view() + spec_config_args(*self),
    {
        self.push_config_args_0(args);
        proof {
            assert(args.deep_view() =~= old(args).deep_view() + (spec_config_args_0(*self)));
        }
        self.push_config_args_1(args);
        proof {
            assert(args.deep_view() =~= old(args).deep_view() + (spec_config_args_0(*self) + spec_config_args_1(*self)));
        }
        self.push_config_args_2(args);
        proof {
            assert(args.deep_view() =~= old(args).deep_view() + (spec_config_args_0(*self) + spec_config_args_1(*self) + spec_config_args_2(*self)));
        }
    }

    fn push_env_args_0(&self, args: &mut Vec<String>)
        ensures
            final(args).deep_view() == old(args).deep_view() + spec_env_args_0(*self),
    {
        push_opt(args, "-B", &self.buildroot);
        proof {
            assert(args.deep_view() =~= old(args).deep_view() + (spec_opt(self.buildroot.deep_view(), "-B"@)));
        }
        push_flag(args, "-C", self.clean);
        proof {
            assert(args.deep_view() =~= old(args).deep_view() + (spec_opt(self.buildroot.deep_view(), "-B"@) + spec_flag(self.clean, "-C"@)));
        }
        push_flag(args, "--clean-once", self.clean_once);
        proof {
            assert(args.deep_view() =~= old(args).deep_view() + (spec_opt(self.buildroot.deep_view(), "-B"@) + spec_flag(self.clean, "-C"@) + spec_flag(self.clean_once, "--clean-once"@)));
        }
        push_flag(args, "--clean-repos", self.clean_repos);
        proof {
            assert(args.deep_view() =~= old(args).deep_view() + (spec_opt(self.buildroot.deep_view(), "-B"@) + spec_flag(self.clean, "-C"@) + spec_flag(self.clean_once, "--clean-once"@) + spec_flag(self.clean_repos, "--clean-repos"@)));
        }
    }

    fn push_env_args_1(&self, args: &mut Vec<String>)
        ensures
            final(args).deep_view() == old(args).deep_view() + spec_env_args_1(*self),
    {
        push_flag(args, "--fail-fast", self.fail_fast);
        proof {
            assert(args.deep_view() =~= old(args).deep_view() + (spec_flag(self.fail_fast, "--fail-fast"@)));
        }
        push_num(args, "--keepgoing", &self.keepgoing);
        proof {
            assert(args.deep_view() =~= old(args).deep_view() + (spec_flag(self.fail_fast, "--fail-fast"@) + spec_opt_num(self.keepgoing, "--keepgoing"@)));
        }
        push_join(args, "--extra-packs", &self.extra_packs);
        proof {
            assert(args.deep_view() =~= old(args).deep_view() + (spec_flag(self.fail_fast, "--fail-fast"@) + spec_opt_num(self.keepgoing, "--keepgoing"@) + spec_opt_join(self.extra_packs.deep_view(), "--extra-packs"@)));
        }
        push_flag(args, "--keep-packs", self.keep_packs);
        proof {
            assert(args.deep_view() =~= old(args).deep_view() + (spec_flag(self.fail_fast, "--fail-fast"@) + spec_opt_num(self.keepgoing, "--keepgoing"@) + spec_opt_join(self.extra_packs.deep_view(), "--extra-packs"@) + spec_flag(self.keep_packs, "--keep-packs"@)));
        }
    }

    fn push_env_args_2(&self, args: &mut Vec<String>)
        ensures
            final(args).deep_view() == old(args).deep_view() + spec_env_args_2(*self),
    {
        push_flag(args, "--use-higher-deps", self.use_higher_deps);
        proof {
            assert(args.deep_view() =~= old(args).deep_view() + (spec_flag(self.use_higher_deps, "--use-higher-deps"@)));
        }
        push_flag(args, "--kvm", self.kvm);
        proof {
            assert(args.deep_view() =~= old(args).deep_view() + (spec_flag(self.use_higher_deps, "--use-higher-deps"@) + spec_flag(self.kvm, "--kvm"@)));
        }
        push_opt(args, "--vm-memory", &self.vm_memory);
        proof {
            assert(args.deep_view() =~= old(args).deep_view() + (spec_flag(self.use_higher_deps, "--use-higher-deps"@) + spec_flag(self.kvm, "--kvm"@) + spec_opt(self.vm_memory.deep_view(), "--vm-memory"@)));
        }
        push_opt(args, "--vm-disk", &self.vm_disk);
        proof {
            assert(args.deep_view() =~= old(args).deep_view() + (spec_flag(self.use_higher_deps, "--use-higher-deps"@) + spec_flag(self.kvm, "--kvm"@) + spec_opt(self.vm_memory.deep_view(), "--vm-memory"@) + spec_opt(self.vm_disk.deep_view(), "--vm-disk"@)));
        }
    }

    fn push_env_args_3(&self, args: &mut Vec<String>)
        ensures
            final(args).deep_view() == old(args).deep_view() + spec_env_args_3(*self),
    {
        push_opt(args, "--vm-swap", &self.vm_swap);
        proof {
            assert(args.deep_view() =~= old(args).deep_view() + (spec_opt(self.vm_swap.deep_view(), "--vm-swap"@)));
        }
        push_opt(args, "--vm-diskfilesystem", &self.vm_diskfilesystem);
        proof {
            assert(args.deep_view() =~= old(args).deep_view() + (spec_opt(self.vm_swap.deep_view(), "--vm-swap"@) + spec_opt(self.vm_diskfilesystem.deep_view(), "--vm-diskfilesystem"@)));
        }
        push_opt(args, "--vm-initrd", &self.vm_initrd);
        proof {
            assert(args.deep_view() =~= old(args).deep_view() + (spec_opt(self.vm_swap.deep_view(), "--vm-swap"@) + spec_opt(self.vm_diskfilesystem.deep_view(), "--vm-diskfilesystem"@) + spec_opt(self.vm_initrd.deep_view(), "--vm-initrd"@)));
        }
        push_opt(args, "--vm-kernel", &self.vm_kernel);
        proof {
            assert(args.deep_view() =~= old(args).deep_view() + (spec_opt(self.vm_swap.deep_view(), "--vm-swap"@) + spec_opt(self.vm_diskfilesystem.deep_view(), "--vm-diskfilesystem"@) + spec_opt(self.vm_initrd.deep_view(), "--vm-initrd"@) + spec_opt(self.vm_kernel.deep_view(), "--vm-kernel"@)));
        }
    }

    fn push_env_args_4(&self, args: &mut Vec<String>)
        ensures
            final(args).deep_view() == old(args).deep_view() + spec_env_args_4(*self),
    {
        push_flag(args, "--not-export-source", self.not_export_source);
        proof {
            assert(args.deep_view() =~= old(args).deep_view() + (spec_flag(self.not_export_source, "--not-export-source"@)));
        }
        push_flag(args, "--full-build", self.full_build);
        proof {
            assert(args.deep_view() =~= old(args).deep_view() + (spec_flag(self.not_export_source, "--not-export-source"@) + spec_flag(self.full_build, "--full-build"@)));
        }
        push_flag(args, "--deps-build", self.deps_build);
        proof {
            assert(args.deep_view() =~= old(args).deep_view() + (spec_flag(self.not_export_source, "--not-export-source"@) + spec_flag(self.full_build, "--full-build"@) + spec_flag(self.deps_build, "--deps-build"@)));
        }
        push_opt(args, "--snapshot", &self.snapshot);
        proof {
            assert(args.deep_view() =~= old(args).deep_view() + (spec_flag(self.not_export_source, "--not-export-source"@) + spec_flag(self.full_build, "--full-build"@) + spec_flag(self.deps_build, "--deps-build"@) + spec_opt(self.snapshot.deep_view(), "--snapshot"@)));
        }
    }

    fn push_env_args(&self, args: &mut Vec<String>)
        ensures
            final(args).deep_view() == old(args).deep_view() + spec_env_args(*self),
    {
        self.push_env_args_0(args);
        proof {
            assert(args.deep_view() =~= old(args).deep_view() + (spec_env_args_0(*self)));
        }
        self.push_env_args_1(args);
        proof {
            assert(args.deep_view() =~= old(args).deep_view() + (spec_env_args_0(*self) + spec_env_args_1(*self)));
        }
        self.push_env_args_2(args);
        proof {
            assert(args.deep_view() =~= old(args).deep_view() + (spec_env_args_0(*self) + spec_env_args_1(*self) + spec_env_args_2(*self)));
        }
        self.push_env_args_3(args);
        proof {
            assert(args.deep_view() =~= old(args).deep_view() + (spec_env_args_0(*self) + spec_env_args_1(*self) + spec_env_args_2(*self) + spec_env_args_3(*self)));
        }
        self.push_env_args_4(args);
        proof {
            assert(args.deep_view() =~= old(args).deep_view() + (spec_env_args_0(*self) + spec_env_args_1(*self) + spec_env_args_2(*self) + spec_env_args_3(*self) + spec_env_args_4(*self)));
        }
    }

    fn push_speed_args_0(&self, args: &mut Vec<String>)
        ensures
            final(args).deep_view() == old(args).deep_view() + spec_speed_args_0(*self),
    {
        push_flag(args, "--incremental", self.incremental);
        proof {
            assert(args.deep_view() =~= old(args).deep_view() + (spec_flag(self.incremental, "--incremental"@)));
        }
        push_flag(args, "--no-configure", self.no_configure);
        proof {
            assert(args.deep_view() =~= old(args).deep_view() + (spec_flag(self.incremental, "--incremental"@) + spec_flag(self.no_configure, "--no-configure"@)));
        }
        push_flag(args, "--noinit", self.noinit);
        proof {
            assert(args.deep_view() =~= old(args).deep_view() + (spec_flag(self.incremental, "--incremental"@) + spec_flag(self.no_configure, "--no-configure"@) + spec_flag(self.noinit, "--noinit"@)));
        }
        push_flag(args, "--ccache", self.ccache);
        proof {
            assert(args.deep_view() =~= old(args).deep_view() + (spec_flag(self.incremental, "--incremental"@) + spec_flag(self.no_configure, "--no-configure"@) + spec_flag(self.noinit, "--noinit"@) + spec_flag(self.ccache, "--ccache"@)));
        }
    }

    fn push_speed_args_1(&self, args: &mut Vec<String>)
        ensures
            final(args).deep_view() == old(args).deep_view() + spec_speed_args_1(*self),
    {
        push_opt(args, "--pkg-ccache", &self.pkg_ccache);
        proof {
            assert(args.deep_view() =~= old(args).deep_view() + (spec_opt(self.pkg_ccache.deep_view(), "--pkg-ccache"@)));
        }
        push_num(args, "--icecream", &self.icecream);
        proof {
            assert(args.deep_view() =~= old(args).deep_view() + (spec_opt(self.pkg_ccache.deep_view(), "--pkg-ccache"@) + spec_opt_num(self.icecream, "--icecream"@)));
        }
        push_flag(args, "--skip-srcrpm", self.skip_srcrpm);
        proof {
            assert(args.deep_view() =~= old(args).deep_view() + (spec_opt(self.pkg_ccache.deep_view(), "--pkg-ccache"@) + spec_opt_num(self.icecream, "--icecream"@) + spec_flag(self.skip_srcrpm, "--skip-srcrpm"@)));
        }
        push_num(args, "--threads", &self.threads);
        proof {
            assert(args.deep_view() =~= old(args).deep_view() + (spec_opt(self.pkg_ccache.deep_view(), "--pkg-ccache"@) + spec_opt_num(self.icecream, "--icecream"@) + spec_flag(self.skip_srcrpm, "--skip-srcrpm"@) + spec_opt_num(self.threads, "--threads"@)));
        }
    }

    fn push_speed_args(&self, args: &mut Vec<String>)
        ensures
            final(args).deep_view() == old(args).deep_view() + spec_speed_args(*self),
    {
        self.push_speed_args_0(args);
        proof {
            assert(args.deep_view() =~= old(args).deep_view() + (spec_speed_args_0(*self)));
        }
        self.push_speed_args_1(args);
        proof {
            assert(args.deep_view() =~= old(args).deep_view() + (spec_speed_args_0(*self) + spec_speed_args_1(*self)));
        }
    }

    fn push_gittree_args_0(&self, args: &mut Vec<String>)
        ensures
            final(args).deep_view() == old(args).deep_view() + spec_gittree_args_0(*self),
    {
        push_opt(args, "-c", &self.commit);
        proof {
            assert(args.deep_view() =~= old(args).deep_view() + (spec_opt(self.commit.deep_view(), "-c"@)));
        }
        push_flag(args, "--include-all", self.include_all);
        proof {
            assert(args.deep_view() =~= old(args).deep_view() + (spec_opt(self.commit.deep_view(), "-c"@) + spec_flag(self.include_all, "--include-all"@)));
        }
        push_opt(args, "--packaging-dir", &self.packaging_dir);
        proof {
            assert(args.deep_view() =~= old(args).deep_view() + (spec_opt(self.commit.deep_view(), "-c"@) + spec_flag(self.include_all, "--include-all"@) + spec_opt(self.packaging_dir.deep_view(), "--packaging-dir"@)));
        }
        push_opt(args, "--spec", &self.spec_file);
        proof {
            assert(args.deep_view() =~= old(args).deep_view() + (spec_opt(self.commit.deep_view(), "-c"@) + spec_flag(self.include_all, "--include-all"@) + spec_opt(self.packaging_dir.deep_view(), "--packaging-dir"@) + spec_opt(self.spec_file.deep_view(), "--spec"@)));
        }
    }

    fn push_gittree_args_1(&self, args: &mut Vec<String>)
        ensures
            final(args).deep_view() == old(args).deep_view() + spec_gittree_args_1(*self),
    {
        push_opt(args, "--upstream-branch", &self.upstream_branch);
        proof {
            assert(args.deep_view() =~= old(args).deep_view() + (spec_opt(self.upstream_branch.deep_view(), "--upstream-branch"@)));
        }
        push_opt(args, "--upstream-tag", &self.upstream_tag);
        proof {
            assert(args.deep_view() =~= old(args).deep_view() + (spec_opt(self.upstream_branch.deep_view(), "--upstream-branch"@) + spec_opt(self.upstream_tag.deep_view(), "--upstream-tag"@)));
        }
        push_flag(args, "--fallback-to-native", self.fallback_to_native);
        proof {
            assert(args.deep_view() =~= old(args).deep_view() + (spec_opt(self.upstream_branch.deep_view(), "--upstream-branch"@) + spec_opt(self.upstream_tag.deep_view(), "--upstream-tag"@) + spec_flag(self.fallback_to_native, "--fallback-to-native"@)));
        }
        push_opt(args, "--squash-patches-until", &self.squash_patches_until);
        proof {
            assert(args.deep_view() =~= old(args).deep_view() + (spec_opt(self.upstream_branch.deep_view(), "--upstream-branch"@) + spec_opt(self.upstream_tag.deep_view(), "--upstream-tag"@) + spec_flag(self.fallback_to_native, "--fallback-to-native"@) + spec_opt(self.squash_patches_until.deep_view(), "--squash-patches-until"@)));
        }
    }

    fn push_gittree_args_2(&self, args: &mut Vec<String>)
        ensures
            final(args).deep_view() == old(args).deep_view() + spec_gittree_args_2(*self),
    {
        push_flag(args, "--no-patch-export", self.no_patch_export);
        proof {
            assert(args.deep_view() =~= old(args).deep_view() + (spec_flag(self.no_patch_export, "--no-patch-export"@)));
        }
    }

    fn push_gittree_args(&self, args: &mut Vec<String>)
        ensures
            final(args).deep_view() == old(args).deep_view() + spec_gittree_args(*self),
    {
        self.push_gittree_args_0(args);
        proof {
            assert(args.deep_view() =~= old(args).deep_view() + (spec_gittree_args_0(*self)));
        }
        self.push_gittree_args_1(args);
        proof {
            assert(args.deep_view() =~= old(args).deep_view() + (spec_gittree_args_0(*self) + spec_gittree_args_1(*self)));
        }
        self.push_gittree_args_2(args);
        proof {
            assert(args.deep_view() =~= old(args).deep_view() + (spec_gittree_args_0(*self) + spec_gittree_args_1(*self) + spec_gittree_args_2(*self)));
        }
    }

    fn push_selection_args_0(&self, args: &mut Vec<String>)
        ensures
            final(args).deep_view() == old(args).deep_view() + spec_selection_args_0(*self),
    {
        push_each(args, "--package", &self.package_list);
        proof {
            assert(args.deep_view() =~= old(args).deep_view() + (spec_opt_each(self.package_list.deep_view(), "--package"@)));
        }
        push_opt(args, "--package-from-file", &self.package_from_file);
        proof {
            assert(args.deep_view() =~= old(args).deep_view() + (spec_opt_each(self.package_list.deep_view(), "--package"@) + spec_opt(self.package_from_file.deep_view(), "--package-from-file"@)));
        }
        push_each(args, "--binary", &self.binary_list);
        proof {
            assert(args.deep_view() =~= old(args).deep_view() + (spec_opt_each(self.package_list.deep_view(), "--package"@) + spec_opt(self.package_from_file.deep_view(), "--package-from-file"@) + spec_opt_each(self.binary_list.deep_view(), "--binary"@)));
        }
        push_opt(args, "--binary-from-file", &self.binary_from_file);
        proof {
            assert(args.deep_view() =~= old(args).deep_view() + (spec_opt_each(self.package_list.deep_view(), "--package"@) + spec_opt(self.package_from_file.deep_view(), "--package-from-file"@) + spec_opt_each(self.binary_list.deep_view(), "--binary"@) + spec_opt(self.binary_from_file.deep_view(), "--binary-from-file"@)));
        }
    }

    fn push_selection_args_1(&self, args: &mut Vec<String>)
        ensures
            final(args).deep_view() == old(args).deep_view() + spec_selection_args_1(*self),
    {
        push_each(args, "--exclude", &self.exclude);
        proof {
            assert(args.deep_view() =~= old(args).deep_view() + (spec_opt_each(self.exclude.deep_view(), "--exclude"@)));
        }
        push_opt(args, "--exclude-from-file", &self.exclude_from_file);
        proof {
            assert(args.deep_view() =~= old(args).deep_view() + (spec_opt_each(self.exclude.deep_view(), "--exclude"@) + spec_opt(self.exclude_from_file.deep_view(), "--exclude-from-file"@)));
        }
        push_flag(args, "--deps", self.deps);
        proof {
            assert(args.deep_view() =~= old(args).deep_view() + (spec_opt_each(self.exclude.deep_view(), "--exclude"@) + spec_opt(self.exclude_from_file.deep_view(), "--exclude-from-file"@) + spec_flag(self.deps, "--deps"@)));
        }
        push_flag(args, "--rdeps", self.rdeps);
        proof {
            assert(args.deep_view() =~= old(args).deep_view() + (spec_opt_each(self.exclude.deep_view(), "--exclude"@) + spec_opt(self.exclude_from_file.deep_view(), "--exclude-from-file"@) + spec_flag(self.deps, "--deps"@) + spec_flag(self.rdeps, "--rdeps"@)));
        }
    }

    fn push_selection_args_2(&self, args: &mut Vec<String>)
        ensures
            final(args).deep_view() == old(args).deep_view() + spec_selection_args_2(*self),
    {
        push_flag(args, "--disable-debuginfo", self.disable_debuginfo);
        proof {
            assert(args.deep_view() =~= old(args).deep_view() + (spec_flag(self.disable_debuginfo, "--disable-debuginfo"@)));
        }
        push_opt(args, "--style", &self.style);
        proof {
            assert(args.deep_view() =~= old(args).deep_view() + (spec_flag(self.disable_debuginfo, "--disable-debuginfo"@) + spec_opt(self.style.deep_view(), "--style"@)));
        }
        push_flag(args, "--export-only", self.export_only);
        proof {
            assert(args.deep_view() =~= old(args).deep_view() + (spec_flag(self.disable_debuginfo, "--disable-debuginfo"@) + spec_opt(self.style.deep_view(), "--style"@) + spec_flag(self.export_only, "--export-only"@)));
        }
        push_opt(args, "--preordered-list", &self.preordered_list);
        proof {
            assert(args.deep_view() =~= old(args).deep_view() + (spec_flag(self.disable_debuginfo, "--disable-debuginfo"@) + spec_opt(self.style.deep_view(), "--style"@) + spec_flag(self.export_only, "--export-only"@) + spec_opt(self.preordered_list.deep_view(), "--preordered-list"@)));
        }
    }

    fn push_selection_args_3(&self, args: &mut Vec<String>)
        ensures
            final(args).deep_view() == old(args).deep_view() + spec_selection_args_3(*self),
    {
        push_opt(args, "--profiling", &self.profiling);
        proof {
            assert(args.deep_view() =~= old(args).deep_view() + (spec_opt(self.profiling.deep_view(), "--profiling"@)));
        }
        push_flag(args, "--with-submodules", self.with_submodules);
        proof {
            assert(args.deep_view() =~= old(args).deep_view() + (spec_opt(self.profiling.deep_view(), "--profiling"@) + spec_flag(self.with_submodules, "--with-submodules"@)));
        }
        push_opt(args, "--release", &self.release);
        proof {
            assert(args.deep_view() =~= old(args).deep_view() + (spec_opt(self.profiling.deep_view(), "--profiling"@) + spec_flag(self.with_submodules, "--with-submodules"@) + spec_opt(self.release.deep_view(), "--release"@)));
        }
        push_flag(args, "--nocumulate", self.nocumulate);
        proof {
            assert(args.deep_view() =~= old(args).deep_view() + (spec_opt(self.profiling.deep_view(), "--profiling"@) + spec_flag(self.with_submodules, "--with-submodules"@) + spec_opt(self.release.deep_view(), "--release"@) + spec_flag(self.nocumulate, "--nocumulate"@)));
        }
    }

    fn push_selection_args(&self, args: &mut Vec<String>)
        ensures
            final(args).deep_view() == old(args).deep_view() + spec_selection_args(*self),
    {
        self.push_selection_args_0(args);
        proof {
            assert(args.deep_view() =~= old(args).deep_view() + (spec_selection_args_0(*self)));
        }
        self.push_selection_args_1(args);
        proof {
            assert(args.deep_view() =~= old(args).deep_view() + (spec_selection_args_0(*self) + spec_selection_args_1(*self)));
        }
        self.push_selection_args_2(args);
        proof {
            assert(args.deep_view() =~= old(args).deep_view() + (spec_selection_args_0(*self) + spec_selection_args_1(*self) + spec_selection_args_2(*self)));
        }
        self.push_selection_args_3(args);
        proof {
            assert(args.deep_view() =~= old(args).deep_view() + (spec_selection_args_0(*self) + spec_selection_args_1(*self) + spec_selection_args_2(*self) + spec_selection_args_3(*self)));
        }
    }

    /// Renders the options as the exact argument vector handed to the build
    /// command, group by group, the positional git tree last.
    pub fn to_args(&self) -> (args: Vec<String>)
        ensures
            args.deep_view() == spec_gbs_args(*self),
    {
        let mut args: Vec<String> = Vec::new();
        proof {
            assert(args.deep_view() =~= Seq::<Seq<char>>::empty());
        }
        self.push_config_args(&mut args);
        proof {
            assert(args.deep_view() =~= spec_config_args(*self));
        }
        self.push_env_args(&mut args);
        proof {
            assert(args.deep_view() =~= spec_config_args(*self) + spec_env_args(*self));
        }
        self.push_speed_args(&mut args);
        proof {
            assert(args.deep_view() =~= spec_config_args(*self) + spec_env_args(*self) + spec_speed_args(*self));
        }
        self.push_gittree_args(&mut args);
        proof {
            assert(args.deep_view() =~= spec_config_args(*self) + spec_env_args(*self) + spec_speed_args(*self) + spec_gittree_args(*self));
        }
        self.push_selection_args(&mut args);
        proof {
            assert(args.deep_view() =~= spec_config_args(*self) + spec_env_args(*self) + spec_speed_args(*self) + spec_gittree_args(*self) + spec_selection_args(*self));
        }
        push_pos(&mut args, &self.gitdir);
        proof {
            assert(args.deep_view() =~= spec_config_args(*self) + spec_env_args(*self) + spec_speed_args(*self) + spec_gittree_args(*self) + spec_selection_args(*self) + spec_pos(self.gitdir.deep_view()));
            assert(args.deep_view() == spec_gbs_args(*self));
        }
        args
    }
}

/// Assembles a [`GbsBuildOptions`] value; each method sets one field.
#[derive(Debug)]
pub struct GbsBuildOptionsBuilder {
    pub options: GbsBuildOptions,
}

impl Default for GbsBuildOptionsBuilder {
    /// A builder holding the options value with nothing set.
    fn default() -> (r: Self)
        ensures
            r.options == spec_default_options(),
    {
        GbsBuildOptionsBuilder { options: GbsBuildOptions::default() }
    }
}

impl GbsBuildOptionsBuilder {
    pub fn arch(self, arch: String) -> (r: Self)
        ensures
            r.options == (GbsBuildOptions { arch: Some(arch), ..self.options }),
    {
        let mut options = self.options;
        options.arch = Some(arch);
        GbsBuildOptionsBuilder { options }
    }

    pub fn dist(self, dist: String) -> (r: Self)
        ensures
            r.options == (GbsBuildOptions { dist: Some(dist), ..self.options }),
    {
        let mut options = self.options;
        options.dist = Some(dist);
        GbsBuildOptionsBuilder { options }
    }

    pub fn profile(self, profile: String) -> (r: Self)
        ensures
            r.options == (GbsBuildOptions { profile: Some(profile), ..self.options }),
    {
        let mut options = self.options;
        options.profile = Some(profile);
        GbsBuildOptionsBuilder { options }
    }

    pub fn repositories(self, repositories: Vec<String>) -> (r: Self)
        ensures
            r.options == (GbsBuildOptions {
                repositories: Some(repositories),
                ..self.options
            }),
    {
        let mut options = self.options;
        options.repositories = Some(repositories);
        GbsBuildOptionsBuilder { options }
    }

    /// Appends one repository to the list, creating the list if absent.
    #[verifier::rlimit(100)]
    pub fn repository(self, repository: String) -> (r: Self)
        ensures
            r.options.repositories.deep_view() == match self.options.repositories.deep_view() {
                Some(s) => Some(s.push(repository@)),
                None => Some(seq![repository@]),
            },
            (GbsBuildOptions { repositories: None, ..r.options }) == (GbsBuildOptions {
                repositories: None,
                ..self.options
            }),
    {
        let mut options = self.options;
        let prior = options.repositories;
        options.repositories = match prior {
            Some(mut v) => {
                let ghost pre = v;
                v.push(repository);
                proof {
                    lemma_deep_view_push(pre, v, repository@);
                }
                Some(v)
            },
            None => {
                let mut v: Vec<String> = Vec::new();
                v.push(repository);
                proof {
                    assert(v.deep_view() =~= seq![repository@]);
                }
                Some(v)
            },
        };
        GbsBuildOptionsBuilder { options }
    }

    pub fn skip_conf_repos(self, skip: bool) -> (r: Self)
        ensures
            r.options == (GbsBuildOptions { skip_conf_repos: skip, ..self.options }),
    {
        let mut options = self.options;
        options.skip_conf_repos = skip;
        GbsBuildOptionsBuilder { options }
    }

    pub fn overwrite(self, overwrite: bool) -> (r: Self)
        ensures
            r.options == (GbsBuildOptions { overwrite, ..self.options }),
    {
        let mut options = self.options;
        options.overwrite = overwrite;
        GbsBuildOptionsBuilder { options }
    }

    /// Sets the macro definitions; each pair renders as one `--define`.
    pub fn define(self, define: Vec<(String, String)>) -> (r: Self)
        ensures
            r.options == (GbsBuildOptions { define: Some(define), ..self.options }),
    {
        let mut options = self.options;
        options.define = Some(define);
        GbsBuildOptionsBuilder { options }
    }

    pub fn debug(self, debug: bool) -> (r: Self)
        ensures
            r.options == (GbsBuildOptions { debug, ..self.options }),
    {
        let mut options = self.options;
        options.debug = debug;
        GbsBuildOptionsBuilder { options }
    }

    pub fn baselibs(self, baselibs: bool) -> (r: Self)
        ensures
            r.options == (GbsBuildOptions { baselibs, ..self.options }),
    {
        let mut options = self.options;
        options.baselibs = baselibs;
        GbsBuildOptionsBuilder { options }
    }

    pub fn buildroot(self, buildroot: String) -> (r: Self)
        ensures
            r.options == (GbsBuildOptions { buildroot: Some(buildroot), ..self.options }),
    {
        let mut options = self.options;
        options.buildroot = Some(buildroot);
        GbsBuildOptionsBuilder { options }
    }

    pub fn clean(self, clean: bool) -> (r: Self)
        ensures
            r.options == (GbsBuildOptions { clean, ..self.options }),
    {
        let mut options = self.options;
        options.clean = clean;
        GbsBuildOptionsBuilder { options }
    }

    pub fn clean_once(self, clean_once: bool) -> (r: Self)
        ensures
            r.options == (GbsBuildOptions { clean_once, ..self.options }),
    {
        let mut options = self.options;
        options.clean_once = clean_once;
        GbsBuildOptionsBuilder { options }
    }

    pub fn clean_repos(self, clean_repos: bool) -> (r: Self)
        ensures
            r.options == (GbsBuildOptions { clean_repos, ..self.options }),
    {
        let mut options = self.options;
        options.clean_repos = clean_repos;
        GbsBuildOptionsBuilder { options }
    }

    pub fn fail_fast(self, fail_fast: bool) -> (r: Self)
        ensures
            r.options == (GbsBuildOptions { fail_fast, ..self.options }),
    {
        let mut options = self.options;
        options.fail_fast = fail_fast;
        GbsBuildOptionsBuilder { options }
    }

    pub fn keepgoing(self, keepgoing: u32) -> (r: Self)
        ensures
            r.options == (GbsBuildOptions { keepgoing: Some(keepgoing), ..self.options }),
    {
        let mut options = self.options;
        options.keepgoing = Some(keepgoing);
        GbsBuildOptionsBuilder { options }
    }

    pub fn extra_packs(self, extra_packs: Vec<String>) -> (r: Self)
        ensures
            r.options == (GbsBuildOptions { extra_packs: Some(extra_packs), ..self.options }),
    {
        let mut options = self.options;
        options.extra_packs = Some(extra_packs);
        GbsBuildOptionsBuilder { options }
    }

    pub fn keep_packs(self, keep_packs: bool) -> (r: Self)
        ensures
            r.options == (GbsBuildOptions { keep_packs, ..self.options }),
    {
        let mut options = self.options;
        options.keep_packs = keep_packs;
        GbsBuildOptionsBuilder { options }
    }

    pub fn use_higher_deps(self, use_higher_deps: bool) -> (r: Self)
        ensures
            r.options == (GbsBuildOptions { use_higher_deps, ..self.options }),
    {
        let mut options = self.options;
        options.use_higher_deps = use_higher_deps;
        GbsBuildOptionsBuilder { options }
    }

    pub fn kvm(self, kvm: bool) -> (r: Self)
        ensures
            r.options == (GbsBuildOptions { kvm, ..self.options }),
    {
        let mut options = self.options;
        options.kvm = kvm;
        GbsBuildOptionsBuilder { options }
    }

    pub fn vm_memory(self, vm_memory: String) -> (r: Self)
        ensures
            r.options == (GbsBuildOptions { vm_memory: Some(vm_memory), ..self.options }),
    {
        let mut options = self.options;
        options.vm_memory = Some(vm_memory);
        GbsBuildOptionsBuilder { options }
    }

    pub fn vm_disk(self, vm_disk: String) -> (r: Self)
        ensures
            r.options == (GbsBuildOptions { vm_disk: Some(vm_disk), ..self.options }),
    {
        let mut options = self.options;
        options.vm_disk = Some(vm_disk);
        GbsBuildOptionsBuilder { options }
    }

    pub fn vm_swap(self, vm_swap: String) -> (r: Self)
        ensures
            r.options == (GbsBuildOptions { vm_swap: Some(vm_swap), ..self.options }),
    {
        let mut options = self.options;
        options.vm_swap = Some(vm_swap);
        GbsBuildOptionsBuilder { options }
    }

    pub fn vm_diskfilesystem(self, vm_diskfilesystem: String) -> (r: Self)
        ensures
            r.options == (GbsBuildOptions {
                vm_diskfilesystem: Some(vm_diskfilesystem),
                ..self.options
            }),
    {
        let mut options = self.options;
        options.vm_diskfilesystem = Some(vm_diskfilesystem);
        GbsBuildOptionsBuilder { options }
    }

    pub fn vm_initrd(self, vm_initrd: String) -> (r: Self)
        ensures
            r.options == (GbsBuildOptions { vm_initrd: Some(vm_initrd), ..self.options }),
    {
        let mut options = self.options;
        options.vm_initrd = Some(vm_initrd);
        GbsBuildOptionsBuilder { options }
    }

    pub fn vm_kernel(self, vm_kernel: String) -> (r: Self)
        ensures
            r.options == (GbsBuildOptions { vm_kernel: Some(vm_kernel), ..self.options }),
    {
        let mut options = self.options;
        options.vm_kernel = Some(vm_kernel);
        GbsBuildOptionsBuilder { options }
    }

    pub fn not_export_source(self, not_export_source: bool) -> (r: Self)
        ensures
            r.options == (GbsBuildOptions { not_export_source, ..self.options }),
    {
        let mut options = self.options;
        options.not_export_source = not_export_source;
        GbsBuildOptionsBuilder { options }
    }

    pub fn full_build(self, full_build: bool) -> (r: Self)
        ensures
            r.options == (GbsBuildOptions { full_build, ..self.options }),
    {
        let mut options = self.options;
        options.full_build = full_build;
        GbsBuildOptionsBuilder { options }
    }

    pub fn deps_build(self, deps_build: bool) -> (r: Self)
        ensures
            r.options == (GbsBuildOptions { deps_build, ..self.options }),
    {
        let mut options = self.options;
        options.deps_build = deps_build;
        GbsBuildOptionsBuilder { options }
    }

    pub fn snapshot(self, snapshot: String) -> (r: Self)
        ensures
            r.options == (GbsBuildOptions { snapshot: Some(snapshot), ..self.options }),
    {
        let mut options = self.options;
        options.snapshot = Some(snapshot);
        GbsBuildOptionsBuilder { options }
    }

    pub fn incremental(self, incremental: bool) -> (r: Self)
        ensures
            r.options == (GbsBuildOptions { incremental, ..self.options }),
    {
        let mut options = self.options;
        options.incremental = incremental;
        GbsBuildOptionsBuilder { options }
    }

    pub fn no_configure(self, no_configure: bool) -> (r: Self)
        ensures
            r.options == (GbsBuildOptions { no_configure, ..self.options }),
    {
        let mut options = self.options;
        options.no_configure = no_configure;
        GbsBuildOptionsBuilder { options }
    }

    pub fn noinit(self, noinit: bool) -> (r: Self)
        ensures
            r.options == (GbsBuildOptions { noinit, ..self.options }),
    {
        let mut options = self.options;
        options.noinit = noinit;
        GbsBuildOptionsBuilder { options }
    }

    pub fn ccache(self, ccache: bool) -> (r: Self)
        ensures
            r.options == (GbsBuildOptions { ccache, ..self.options }),
    {
        let mut options = self.options;
        options.ccache = ccache;
        GbsBuildOptionsBuilder { options }
    }

    pub fn pkg_ccache(self, pkg_ccache: String) -> (r: Self)
        ensures
            r.options == (GbsBuildOptions { pkg_ccache: Some(pkg_ccache), ..self.options }),
    {
        let mut options = self.options;
        options.pkg_ccache = Some(pkg_ccache);
        GbsBuildOptionsBuilder { options }
    }

    pub fn icecream(self, icecream: u32) -> (r: Self)
        ensures
            r.options == (GbsBuildOptions { icecream: Some(icecream), ..self.options }),
    {
        let mut options = self.options;
        options.icecream = Some(icecream);
        GbsBuildOptionsBuilder { options }
    }

    pub fn threads(self, threads: u32) -> (r: Self)
        ensures
            r.options == (GbsBuildOptions { threads: Some(threads), ..self.options }),
    {
        let mut options = self.options;
        options.threads = Some(threads);
        GbsBuildOptionsBuilder { options }
    }

    pub fn skip_srcrpm(self, skip_srcrpm: bool) -> (r: Self)
        ensures
            r.options == (GbsBuildOptions { skip_srcrpm, ..self.options }),
    {
        let mut options = self.options;
        options.skip_srcrpm = skip_srcrpm;
        GbsBuildOptionsBuilder { options }
    }

    pub fn commit(self, commit: String) -> (r: Self)
        ensures
            r.options == (GbsBuildOptions { commit: Some(commit), ..self.options }),
    {
        let mut options = self.options;
        options.commit = Some(commit);
        GbsBuildOptionsBuilder { options }
    }

    pub fn include_all(self, include_all: bool) -> (r: Self)
        ensures
            r.options == (GbsBuildOptions { include_all, ..self.options }),
    {
        let mut options = self.options;
        options.include_all = include_all;
        GbsBuildOptionsBuilder { options }
    }

    pub fn packaging_dir(self, packaging_dir: String) -> (r: Self)
        ensures
            r.options == (GbsBuildOptions { packaging_dir: Some(packaging_dir), ..self.options }),
    {
        let mut options = self.options;
        options.packaging_dir = Some(packaging_dir);
        GbsBuildOptionsBuilder { options }
    }

    /// Names the spec file the build should use.
    pub fn spec_file(self, spec_file: String) -> (r: Self)
        ensures
            r.options == (GbsBuildOptions { spec_file: Some(spec_file), ..self.options }),
    {
        let mut options = self.options;
        options.spec_file = Some(spec_file);
        GbsBuildOptionsBuilder { options }
    }

    pub fn upstream_branch(self, upstream_branch: String) -> (r: Self)
        ensures
            r.options == (GbsBuildOptions {
                upstream_branch: Some(upstream_branch),
                ..self.options
            }),
    {
        let mut options = self.options;
        options.upstream_branch = Some(upstream_branch);
        GbsBuildOptionsBuilder { options }
    }

    pub fn upstream_tag(self, upstream_tag: String) -> (r: Self)
        ensures
            r.options == (GbsBuildOptions { upstream_tag: Some(upstream_tag), ..self.options }),
    {
        let mut options = self.options;
        options.upstream_tag = Some(upstream_tag);
        GbsBuildOptionsBuilder { options }
    }

    pub fn fallback_to_native(self, fallback_to_native: bool) -> (r: Self)
        ensures
            r.options == (GbsBuildOptions { fallback_to_native, ..self.options }),
    {
        let mut options = self.options;
        options.fallback_to_native = fallback_to_native;
        GbsBuildOptionsBuilder { options }
    }

    pub fn squash_patches_until(self, squash_patches_until: String) -> (r: Self)
        ensures
            r.options == (GbsBuildOptions {
                squash_patches_until: Some(squash_patches_until),
                ..self.options
            }),
    {
        let mut options = self.options;
        options.squash_patches_until = Some(squash_patches_until);
        GbsBuildOptionsBuilder { options }
    }

    pub fn no_patch_export(self, no_patch_export: bool) -> (r: Self)
        ensures
            r.options == (GbsBuildOptions { no_patch_export, ..self.options }),
    {
        let mut options = self.options;
        options.no_patch_export = no_patch_export;
        GbsBuildOptionsBuilder { options }
    }

    pub fn package_list(self, package_list: Vec<String>) -> (r: Self)
        ensures
            r.options == (GbsBuildOptions { package_list: Some(package_list), ..self.options }),
    {
        let mut options = self.options;
        options.package_list = Some(package_list);
        GbsBuildOptionsBuilder { options }
    }

    pub fn package_from_file(self, package_from_file: String) -> (r: Self)
        ensures
            r.options == (GbsBuildOptions {
                package_from_file: Some(package_from_file),
                ..self.options
            }),
    {
        let mut options = self.options;
        options.package_from_file = Some(package_from_file);
        GbsBuildOptionsBuilder { options }
    }

    pub fn binary_list(self, binary_list: Vec<String>) -> (r: Self)
        ensures
            r.options == (GbsBuildOptions { binary_list: Some(binary_list), ..self.options }),
    {
        let mut options = self.options;
        options.binary_list = Some(binary_list);
        GbsBuildOptionsBuilder { options }
    }

    pub fn binary_from_file(self, binary_from_file: String) -> (r: Self)
        ensures
            r.options == (GbsBuildOptions {
                binary_from_file: Some(binary_from_file),
                ..self.options
            }),
    {
        let mut options = self.options;
        options.binary_from_file = Some(binary_from_file);
        GbsBuildOptionsBuilder { options }
    }

    pub fn exclude(self, exclude: Vec<String>) -> (r: Self)
        ensures
            r.options == (GbsBuildOptions { exclude: Some(exclude), ..self.options }),
    {
        let mut options = self.options;
        options.exclude = Some(exclude);
        GbsBuildOptionsBuilder { options }
    }

    pub fn exclude_from_file(self, exclude_from_file: String) -> (r: Self)
        ensures
            r.options == (GbsBuildOptions {
                exclude_from_file: Some(exclude_from_file),
                ..self.options
            }),
    {
        let mut options = self.options;
        options.exclude_from_file = Some(exclude_from_file);
        GbsBuildOptionsBuilder { options }
    }

    pub fn deps(self, deps: bool) -> (r: Self)
        ensures
            r.options == (GbsBuildOptions { deps, ..self.options }),
    {
        let mut options = self.options;
        options.deps = deps;
        GbsBuildOptionsBuilder { options }
    }

    pub fn rdeps(self, rdeps: bool) -> (r: Self)
        ensures
            r.options == (GbsBuildOptions { rdeps, ..self.options }),
    {
        let mut options = self.options;
        options.rdeps = rdeps;
        GbsBuildOptionsBuilder { options }
    }

    pub fn disable_debuginfo(self, disable_debuginfo: bool) -> (r: Self)
        ensures
            r.options == (GbsBuildOptions { disable_debuginfo, ..self.options }),
    {
        let mut options = self.options;
        options.disable_debuginfo = disable_debuginfo;
        GbsBuildOptionsBuilder { options }
    }

    pub fn style(self, style: String) -> (r: Self)
        ensures
            r.options == (GbsBuildOptions { style: Some(style), ..self.options }),
    {
        let mut options = self.options;
        options.style = Some(style);
        GbsBuildOptionsBuilder { options }
    }

    pub fn export_only(self, export_only: bool) -> (r: Self)
        ensures
            r.options == (GbsBuildOptions { export_only, ..self.options }),
    {
        let mut options = self.options;
        options.export_only = export_only;
        GbsBuildOptionsBuilder { options }
    }

    pub fn preordered_list(self, preordered_list: String) -> (r: Self)
        ensures
            r.options == (GbsBuildOptions {
                preordered_list: Some(preordered_list),
                ..self.options
            }),
    {
        let mut options = self.options;
        options.preordered_list = Some(preordered_list);
        GbsBuildOptionsBuilder { options }
    }

    pub fn profiling(self, profiling: String) -> (r: Self)
        ensures
            r.options == (GbsBuildOptions { profiling: Some(profiling), ..self.options }),
    {
        let mut options = self.options;
        options.profiling = Some(profiling);
        GbsBuildOptionsBuilder { options }
    }

    pub fn with_submodules(self, with_submodules: bool) -> (r: Self)
        ensures
            r.options == (GbsBuildOptions { with_submodules, ..self.options }),
    {
        let mut options = self.options;
        options.with_submodules = with_submodules;
        GbsBuildOptionsBuilder { options }
    }

    pub fn release(self, release: String) -> (r: Self)
        ensures
            r.options == (GbsBuildOptions { release: Some(release), ..self.options }),
    {
        let mut options = self.options;
        options.release = Some(release);
        GbsBuildOptionsBuilder { options }
    }

    pub fn nocumulate(self, nocumulate: bool) -> (r: Self)
        ensures
            r.options == (GbsBuildOptions { nocumulate, ..self.options }),
    {
        let mut options = self.options;
        options.nocumulate = nocumulate;
        GbsBuildOptionsBuilder { options }
    }

    pub fn gitdir(self, gitdir: String) -> (r: Self)
        ensures
            r.options == (GbsBuildOptions { gitdir: Some(gitdir), ..self.options }),
    {
        let mut options = self.options;
        options.gitdir = Some(gitdir);
        GbsBuildOptionsBuilder { options }
    }

    /// Hands out the assembled options value.
    pub fn build(self) -> (r: GbsBuildOptions)
        ensures
            r == self.options,
    {
        self.options
    }
}

} // verus!
