//! The manifest merger: combines a base manifest with a local overlay,
//! applying guarded removals, attribute extensions, additive concatenation
//! and last-overlay-wins override of the single-valued elements.

use vstd::prelude::*;
use crate::model::{
    Annotation, CopyFile, ExtendProject, ExtendProjectV, Include, LinkFile, Manifest, ManifestV,
    Project, ProjectV, Remote, RemoveProject, RemoveProjectV, Submanifest,
};
use vstd::seq_lib::lemma_multiset_commutative;
use crate::strutil::{clone_opt_string, lemma_deep_view_push};

verus! {

/// Whether a remove-project record matches a project, by name (optionally
/// narrowed by path), or by path alone when no name is given.
pub open spec fn spec_remove_matches(rp: RemoveProjectV, p: ProjectV) -> bool {
    match rp.name {
        Some(n) => p.name == n && (match rp.path {
            Some(pa) => p.path == Some(pa),
            None => true,
        }),
        None => match rp.path {
            Some(pa) => p.path == Some(pa),
            None => false,
        },
    }
}

/// A matching project is removed only when the record carries no base
/// revision guard, or the project's revision equals the guard exactly.
pub open spec fn spec_removed_by(rp: RemoveProjectV, p: ProjectV) -> bool {
    spec_remove_matches(rp, p) && (match rp.base_rev {
        Some(b) => p.revision == Some(b),
        None => true,
    })
}

pub open spec fn spec_removed_by_any(rps: Seq<RemoveProjectV>, p: ProjectV) -> bool {
    exists|i: int| 0 <= i < rps.len() && spec_removed_by(rps[i], p)
}

/// One extension applied to one project: when the name matches and the path
/// guard (if any) equals the project's current path, the supplied fields
/// overwrite the project's; otherwise the project is untouched.
pub open spec fn spec_apply_extend(p: ProjectV, ep: ExtendProjectV) -> ProjectV {
    if p.name == ep.name && (match ep.path {
        Some(pa) => p.path == Some(pa),
        None => true,
    }) {
        ProjectV {
            path: if ep.dest_path is Some {
                ep.dest_path
            } else {
                p.path
            },
            groups: if ep.groups is Some {
                ep.groups
            } else {
                p.groups
            },
            revision: if ep.revision is Some {
                ep.revision
            } else {
                p.revision
            },
            remote: if ep.remote is Some {
                ep.remote
            } else {
                p.remote
            },
            dest_branch: if ep.dest_branch is Some {
                ep.dest_branch
            } else {
                p.dest_branch
            },
            upstream: if ep.upstream is Some {
                ep.upstream
            } else {
                p.upstream
            },
            ..p
        }
    } else {
        p
    }
}

/// All extensions of an overlay, applied in order.
pub open spec fn spec_apply_extends(p: ProjectV, eps: Seq<ExtendProjectV>) -> ProjectV
    decreases eps.len(),
{
    if eps.len() == 0 {
        p
    } else {
        spec_apply_extends(spec_apply_extend(p, eps[0]), eps.drop_first())
    }
}

/// The overlay's effect on the base project list: projects matched by an
/// unguarded (or correctly guarded) remove-project disappear, the survivors
/// pass through the extensions in order.
pub open spec fn spec_kept_extended(
    base: Seq<ProjectV>,
    rps: Seq<RemoveProjectV>,
    eps: Seq<ExtendProjectV>,
) -> Seq<ProjectV>
    decreases base.len(),
{
    if base.len() == 0 {
        Seq::empty()
    } else {
        let rest = spec_kept_extended(base.drop_last(), rps, eps);
        if spec_removed_by_any(rps, base.last()) {
            rest
        } else {
            rest.push(spec_apply_extends(base.last(), eps))
        }
    }
}

// ---------------------------------------------------------------------------
// Laws of removal and extension.
// ---------------------------------------------------------------------------

/// A remove-project with a base revision guard does not remove a project
/// whose current revision differs from the guard, and does remove a matching
/// project whose revision equals it.
pub proof fn lemma_remove_base_rev_guard(
    rp: RemoveProjectV,
    p: ProjectV,
    x: Seq<char>,
    y: Seq<char>,
)
    requires
        rp.base_rev == Some(x),
        p.revision == Some(y),
    ensures
        y != x ==> !spec_removed_by(rp, p),
        y == x && spec_remove_matches(rp, p) ==> spec_removed_by(rp, p),
{
}

/// An extension whose path guard does not match the project's current path
/// leaves the project unmodified; one whose guard matches (or that has no
/// guard) overwrites exactly the fields it supplies.
pub proof fn lemma_extend_path_guard(p: ProjectV, ep: ExtendProjectV)
    ensures
        (ep.path is Some && p.path != ep.path) ==> spec_apply_extend(p, ep) == p,
        p.name != ep.name ==> spec_apply_extend(p, ep) == p,
        (p.name == ep.name && (ep.path is None || p.path == ep.path)) ==> spec_apply_extend(p, ep)
            == (ProjectV {
            path: if ep.dest_path is Some {
                ep.dest_path
            } else {
                p.path
            },
            groups: if ep.groups is Some {
                ep.groups
            } else {
                p.groups
            },
            revision: if ep.revision is Some {
                ep.revision
            } else {
                p.revision
            },
            remote: if ep.remote is Some {
                ep.remote
            } else {
                p.remote
            },
            dest_branch: if ep.dest_branch is Some {
                ep.dest_branch
            } else {
                p.dest_branch
            },
            upstream: if ep.upstream is Some {
                ep.upstream
            } else {
                p.upstream
            },
            ..p
        }),
{
}

/// Extensions never change which project a record is about: the name is not
/// among the fields an extension may overwrite.
pub proof fn lemma_extends_preserve_name(p: ProjectV, eps: Seq<ExtendProjectV>)
    ensures
        spec_apply_extends(p, eps).name == p.name,
    decreases eps.len(),
{
    if eps.len() > 0 {
        lemma_extends_preserve_name(spec_apply_extend(p, eps[0]), eps.drop_first());
    }
}

/// Overlays whose operations all name other projects leave a project alone:
/// none of their removals can take it out and their extensions rewrite
/// nothing, whichever order the overlays are applied in.  This is the
/// per-project core of merge commutativity over disjoint targets; removing
/// and extending the same project stays order-dependent.
pub proof fn lemma_disjoint_overlay_leaves_project(
    p: ProjectV,
    rps: Seq<RemoveProjectV>,
    eps: Seq<ExtendProjectV>,
)
    requires
        forall|i: int|
            0 <= i < rps.len() ==> rps[i].name is Some && rps[i].name->0 != p.name,
        forall|i: int| 0 <= i < eps.len() ==> eps[i].name != p.name,
    ensures
        !spec_removed_by_any(rps, p),
        spec_apply_extends(p, eps) == p,
    decreases eps.len(),
{
    assert forall|i: int| 0 <= i < rps.len() implies !spec_removed_by(rps[i], p) by {
        assert(rps[i].name is Some);
    }
    if eps.len() > 0 {
        assert(spec_apply_extend(p, eps[0]) == p);
        lemma_disjoint_overlay_leaves_project(p, rps, eps.drop_first());
    }
}

// ---------------------------------------------------------------------------
// Order of overlays.
// ---------------------------------------------------------------------------

/// The effective project list after merging one overlay: the base list with
/// the overlay's removals and extensions applied, then the overlay's own
/// projects.  This is exactly what [`merge_manifests`] ensures of the
/// `projects` field.
pub open spec fn spec_merge_projects(base: Seq<ProjectV>, o: ManifestV) -> Seq<ProjectV> {
    spec_kept_extended(base, o.remove_projects, o.extend_projects) + o.projects
}

/// Whether an overlay's operations concern the project name: a removal of
/// that name, an extension of that name, or an added project bearing it.
pub open spec fn spec_overlay_targets(o: ManifestV, n: Seq<char>) -> bool {
    (exists|i: int| 0 <= i < o.remove_projects.len() && o.remove_projects[i].name == Some(n)) || (
    exists|i: int| 0 <= i < o.extend_projects.len() && o.extend_projects[i].name == n) || (
    exists|i: int| 0 <= i < o.projects.len() && o.projects[i].name == n)
}

/// Every removal of the overlay identifies its target by name.
pub open spec fn spec_named_removals(o: ManifestV) -> bool {
    forall|i: int| 0 <= i < o.remove_projects.len() ==> o.remove_projects[i].name is Some
}

/// No project name is targeted by both overlays.
pub open spec fn spec_disjoint_overlays(o1: ManifestV, o2: ManifestV) -> bool {
    forall|n: Seq<char>|
        !(#[trigger] spec_overlay_targets(o1, n) && #[trigger] spec_overlay_targets(o2, n))
}

/// An overlay whose operations do not concern a project's name neither
/// removes nor rewrites that project.
proof fn lemma_point_untouched(p: ProjectV, o: ManifestV)
    requires
        spec_named_removals(o),
        !spec_overlay_targets(o, p.name),
    ensures
        !spec_removed_by_any(o.remove_projects, p),
        spec_apply_extends(p, o.extend_projects) == p,
{
    assert forall|i: int| 0 <= i < o.remove_projects.len() implies o.remove_projects[i].name
        is Some && o.remove_projects[i].name->0 != p.name by {
        if o.remove_projects[i].name == Some(p.name) {
            assert(spec_overlay_targets(o, p.name));
        }
    }
    assert forall|i: int| 0 <= i < o.extend_projects.len() implies o.extend_projects[i].name
        != p.name by {
        if o.extend_projects[i].name == p.name {
            assert(spec_overlay_targets(o, p.name));
        }
    }
    lemma_disjoint_overlay_leaves_project(p, o.remove_projects, o.extend_projects);
}

/// Removal and extension distribute over concatenation of project lists.
proof fn lemma_kept_extended_concat(
    a: Seq<ProjectV>,
    b: Seq<ProjectV>,
    rps: Seq<RemoveProjectV>,
    eps: Seq<ExtendProjectV>,
)
    ensures
        spec_kept_extended(a + b, rps, eps) == spec_kept_extended(a, rps, eps)
            + spec_kept_extended(b, rps, eps),
    decreases b.len(),
{
    if b.len() == 0 {
        assert(a + b =~= a);
        assert(spec_kept_extended(a, rps, eps) + spec_kept_extended(b, rps, eps)
            =~= spec_kept_extended(a, rps, eps));
    } else {
        lemma_kept_extended_concat(a, b.drop_last(), rps, eps);
        assert((a + b).drop_last() =~= a + b.drop_last());
        assert((a + b).last() == b.last());
        if spec_removed_by_any(rps, b.last()) {
            assert(spec_kept_extended(a + b, rps, eps) == spec_kept_extended(
                a + b.drop_last(),
                rps,
                eps,
            ));
        } else {
            let y = spec_apply_extends(b.last(), eps);
            assert(spec_kept_extended(a + b, rps, eps) == spec_kept_extended(
                a + b.drop_last(),
                rps,
                eps,
            ).push(y));
            assert((spec_kept_extended(a, rps, eps) + spec_kept_extended(b.drop_last(), rps, eps))
                .push(y) =~= spec_kept_extended(a, rps, eps) + spec_kept_extended(
                b.drop_last(),
                rps,
                eps,
            ).push(y));
        }
    }
}

/// A list of projects none of which the overlay targets passes through the
/// overlay's removals and extensions unchanged.
proof fn lemma_kept_extended_untouched(ps: Seq<ProjectV>, o: ManifestV)
    requires
        spec_named_removals(o),
        forall|i: int| 0 <= i < ps.len() ==> !spec_overlay_targets(o, #[trigger] ps[i].name),
    ensures
        spec_kept_extended(ps, o.remove_projects, o.extend_projects) == ps,
    decreases ps.len(),
{
    if ps.len() > 0 {
        assert(!spec_overlay_targets(o, ps[ps.len() - 1].name));
        lemma_point_untouched(ps.last(), o);
        assert forall|i: int| 0 <= i < ps.drop_last().len() implies !spec_overlay_targets(
            o,
            #[trigger] ps.drop_last()[i].name,
        ) by {
            assert(ps.drop_last()[i] == ps[i]);
        }
        lemma_kept_extended_untouched(ps.drop_last(), o);
        assert(ps.drop_last().push(ps.last()) =~= ps);
    } else {
        assert(spec_kept_extended(ps, o.remove_projects, o.extend_projects) =~= ps);
    }
}

/// Two overlays with disjoint targets act on the base project list in
/// either order with the same result, project by project.
proof fn lemma_kept_extended_commutes(b: Seq<ProjectV>, o1: ManifestV, o2: ManifestV)
    requires
        spec_named_removals(o1),
        spec_named_removals(o2),
        spec_disjoint_overlays(o1, o2),
    ensures
        spec_kept_extended(
            spec_kept_extended(b, o1.remove_projects, o1.extend_projects),
            o2.remove_projects,
            o2.extend_projects,
        ) == spec_kept_extended(
            spec_kept_extended(b, o2.remove_projects, o2.extend_projects),
            o1.remove_projects,
            o1.extend_projects,
        ),
    decreases b.len(),
{
    let r1 = o1.remove_projects;
    let e1 = o1.extend_projects;
    let r2 = o2.remove_projects;
    let e2 = o2.extend_projects;
    if b.len() == 0 {
        assert(spec_kept_extended(b, r1, e1) =~= Seq::<ProjectV>::empty());
        assert(spec_kept_extended(b, r2, e2) =~= Seq::<ProjectV>::empty());
    } else {
        let x = b.last();
        lemma_kept_extended_commutes(b.drop_last(), o1, o2);
        let k1r = spec_kept_extended(b.drop_last(), r1, e1);
        let k2r = spec_kept_extended(b.drop_last(), r2, e2);
        if spec_overlay_targets(o1, x.name) {
            assert(!spec_overlay_targets(o2, x.name));
            lemma_point_untouched(x, o2);
            lemma_extends_preserve_name(x, e1);
            if spec_removed_by_any(r1, x) {
                assert(spec_kept_extended(b, r1, e1) == k1r);
                assert(spec_kept_extended(b, r2, e2) == k2r.push(x));
                assert((k2r.push(x)).drop_last() =~= k2r);
                assert((k2r.push(x)).last() == x);
                assert(spec_kept_extended(k2r.push(x), r1, e1) == spec_kept_extended(k2r, r1, e1));
            } else {
                let y = spec_apply_extends(x, e1);
                lemma_point_untouched(y, o2);
                assert(spec_kept_extended(b, r1, e1) == k1r.push(y));
                assert((k1r.push(y)).drop_last() =~= k1r);
                assert((k1r.push(y)).last() == y);
                assert(spec_kept_extended(k1r.push(y), r2, e2) == spec_kept_extended(
                    k1r,
                    r2,
                    e2,
                ).push(y));
                assert(spec_kept_extended(b, r2, e2) == k2r.push(x));
                assert((k2r.push(x)).drop_last() =~= k2r);
                assert((k2r.push(x)).last() == x);
                assert(spec_kept_extended(k2r.push(x), r1, e1) == spec_kept_extended(
                    k2r,
                    r1,
                    e1,
                ).push(y));
            }
        } else if spec_overlay_targets(o2, x.name) {
            assert(!spec_overlay_targets(o1, x.name));
            lemma_point_untouched(x, o1);
            lemma_extends_preserve_name(x, e2);
            if spec_removed_by_any(r2, x) {
                assert(spec_kept_extended(b, r2, e2) == k2r);
                assert(spec_kept_extended(b, r1, e1) == k1r.push(x));
                assert((k1r.push(x)).drop_last() =~= k1r);
                assert((k1r.push(x)).last() == x);
                assert(spec_kept_extended(k1r.push(x), r2, e2) == spec_kept_extended(k1r, r2, e2));
            } else {
                let y = spec_apply_extends(x, e2);
                lemma_point_untouched(y, o1);
                assert(spec_kept_extended(b, r2, e2) == k2r.push(y));
                assert((k2r.push(y)).drop_last() =~= k2r);
                assert((k2r.push(y)).last() == y);
                assert(spec_kept_extended(k2r.push(y), r1, e1) == spec_kept_extended(
                    k2r,
                    r1,
                    e1,
                ).push(y));
                assert(spec_kept_extended(b, r1, e1) == k1r.push(x));
                assert((k1r.push(x)).drop_last() =~= k1r);
                assert((k1r.push(x)).last() == x);
                assert(spec_kept_extended(k1r.push(x), r2, e2) == spec_kept_extended(
                    k1r,
                    r2,
                    e2,
                ).push(y));
            }
        } else {
            lemma_point_untouched(x, o1);
            lemma_point_untouched(x, o2);
            assert(spec_kept_extended(b, r1, e1) == k1r.push(x));
            assert((k1r.push(x)).drop_last() =~= k1r);
            assert((k1r.push(x)).last() == x);
            assert(spec_kept_extended(k1r.push(x), r2, e2) == spec_kept_extended(
                k1r,
                r2,
                e2,
            ).push(x));
            assert(spec_kept_extended(b, r2, e2) == k2r.push(x));
            assert((k2r.push(x)).drop_last() =~= k2r);
            assert((k2r.push(x)).last() == x);
            assert(spec_kept_extended(k2r.push(x), r1, e1) == spec_kept_extended(
                k2r,
                r1,
                e1,
            ).push(x));
        }
    }
}

/// Merging two overlays whose operations target disjoint project names (and
/// whose removals all carry a name) yields the same effective project
/// multiset in either application order; the sequences differ only in the
/// order of the appended overlay projects.  Removing and extending the same
/// project stays order-dependent.
pub proof fn lemma_merge_order_disjoint(base: Seq<ProjectV>, o1: ManifestV, o2: ManifestV)
    requires
        spec_named_removals(o1),
        spec_named_removals(o2),
        spec_disjoint_overlays(o1, o2),
    ensures
        spec_merge_projects(spec_merge_projects(base, o1), o2).to_multiset()
            == spec_merge_projects(spec_merge_projects(base, o2), o1).to_multiset(),
{
    let r1 = o1.remove_projects;
    let e1 = o1.extend_projects;
    let r2 = o2.remove_projects;
    let e2 = o2.extend_projects;
    let p1 = o1.projects;
    let p2 = o2.projects;
    let k1 = spec_kept_extended(base, r1, e1);
    let k2 = spec_kept_extended(base, r2, e2);
    lemma_kept_extended_concat(k1, p1, r2, e2);
    assert forall|i: int| 0 <= i < p1.len() implies !spec_overlay_targets(
        o2,
        #[trigger] p1[i].name,
    ) by {
        assert(spec_overlay_targets(o1, p1[i].name));
    }
    lemma_kept_extended_untouched(p1, o2);
    lemma_kept_extended_concat(k2, p2, r1, e1);
    assert forall|i: int| 0 <= i < p2.len() implies !spec_overlay_targets(
        o1,
        #[trigger] p2[i].name,
    ) by {
        assert(spec_overlay_targets(o2, p2[i].name));
    }
    lemma_kept_extended_untouched(p2, o1);
    lemma_kept_extended_commutes(base, o1, o2);
    let c = spec_kept_extended(k1, r2, e2);
    assert(spec_merge_projects(spec_merge_projects(base, o1), o2) =~= (c + p1) + p2);
    assert(spec_merge_projects(spec_merge_projects(base, o2), o1) =~= (c + p2) + p1);
    lemma_multiset_commutative(c + p1, p2);
    lemma_multiset_commutative(c, p1);
    lemma_multiset_commutative(c + p2, p1);
    lemma_multiset_commutative(c, p2);
    assert(((c + p1) + p2).to_multiset() =~= ((c + p2) + p1).to_multiset());
}

// ---------------------------------------------------------------------------
// Executable comparisons.
// ---------------------------------------------------------------------------

/// Whether an optional string holds exactly the given value.
fn opt_eq_some(o: &Option<String>, s: &String) -> (r: bool)
    ensures
        r == (o.deep_view() == Some(s@)),
{
    match o {
        Some(v) => v.eq(s),
        None => false,
    }
}

/// Whether a remove-project record matches and may remove the project.
fn removed_by(rp: &RemoveProject, p: &Project) -> (r: bool)
    ensures
        r == spec_removed_by(rp.deep_view(), p.deep_view()),
{
    let matches = match &rp.name {
        Some(n) => {
            if p.name.eq(n) {
                match &rp.path {
                    Some(pa) => opt_eq_some(&p.path, pa),
                    None => true,
                }
            } else {
                false
            }
        },
        None => match &rp.path {
            Some(pa) => opt_eq_some(&p.path, pa),
            None => false,
        },
    };
    if matches {
        match &rp.base_rev {
            Some(b) => opt_eq_some(&p.revision, b),
            None => true,
        }
    } else {
        false
    }
}

fn removed_by_any(rps: &Vec<RemoveProject>, p: &Project) -> (r: bool)
    ensures
        r == spec_removed_by_any(rps.deep_view(), p.deep_view()),
{
    let mut i: usize = 0;
    while i < rps.len()
        invariant
            i <= rps.len(),
            forall|j: int| 0 <= j < i ==> !spec_removed_by(rps.deep_view()[j], p.deep_view()),
        decreases rps.len() - i,
    {
        if removed_by(&rps[i], p) {
            proof {
                assert(spec_removed_by(rps.deep_view()[i as int], p.deep_view()));
            }
            return true;
        }
        i = i + 1;
    }
    false
}

/// Applies one extension to one project, in place.
fn apply_extend(p: &mut Project, ep: &ExtendProject)
    ensures
        final(p).deep_view() == spec_apply_extend(old(p).deep_view(), ep.deep_view()),
{
    let name_matches = p.name.eq(&ep.name);
    let guard_ok = match &ep.path {
        Some(pa) => opt_eq_some(&p.path, pa),
        None => true,
    };
    if name_matches && guard_ok {
        if let Some(dest_path) = &ep.dest_path {
            p.path = Some(dest_path.clone());
        }
        if let Some(groups) = &ep.groups {
            p.groups = Some(groups.clone());
        }
        if let Some(revision) = &ep.revision {
            p.revision = Some(revision.clone());
        }
        if let Some(remote) = &ep.remote {
            p.remote = Some(remote.clone());
        }
        if let Some(dest_branch) = &ep.dest_branch {
            p.dest_branch = Some(dest_branch.clone());
        }
        if let Some(upstream) = &ep.upstream {
            p.upstream = Some(upstream.clone());
        }
    }
}

/// Applies every extension of the overlay, in order.
fn apply_extends(p: &mut Project, eps: &Vec<ExtendProject>)
    ensures
        final(p).deep_view() == spec_apply_extends(old(p).deep_view(), eps.deep_view()),
{
    let mut i: usize = 0;
    proof {
        assert(eps.deep_view().skip(0) =~= eps.deep_view());
    }
    while i < eps.len()
        invariant
            i <= eps.len(),
            spec_apply_extends(old(p).deep_view(), eps.deep_view()) == spec_apply_extends(
                p.deep_view(),
                eps.deep_view().skip(i as int),
            ),
        decreases eps.len() - i,
    {
        proof {
            assert(eps.deep_view().skip(i as int)[0] == eps.deep_view()[i as int]);
            assert(eps.deep_view().skip(i as int).drop_first() =~= eps.deep_view().skip(
                i as int + 1,
            ));
        }
        apply_extend(p, &eps[i]);
        i = i + 1;
    }
}
/// An owned copy of the element, equal in view to the original.
fn clone_remote(p: &Remote) -> (r: Remote)
    ensures
        r.deep_view() == p.deep_view(),
{
    Remote {
        name: p.name.clone(),
        alias: clone_opt_string(&p.alias),
        fetch: p.fetch.clone(),
        pushurl: clone_opt_string(&p.pushurl),
        review: clone_opt_string(&p.review),
        revision: clone_opt_string(&p.revision),
    }
}

pub(crate) fn append_remotes(dst: &mut Vec<Remote>, src: &Vec<Remote>)
    ensures
        final(dst).deep_view() == old(dst).deep_view() + src.deep_view(),
{
    let mut i: usize = 0;
    proof {
        assert(dst.deep_view() =~= old(dst).deep_view() + src.deep_view().take(0));
    }
    while i < src.len()
        invariant
            i <= src.len(),
            dst.deep_view() == old(dst).deep_view() + src.deep_view().take(i as int),
        decreases src.len() - i,
    {
        let ghost pre = *dst;
        dst.push(clone_remote(&src[i]));
        proof {
            lemma_deep_view_push(pre, *dst, src.deep_view()[i as int]);
            assert(old(dst).deep_view() + src.deep_view().take(i as int + 1) =~= (old(
                dst,
            ).deep_view() + src.deep_view().take(i as int)).push(src.deep_view()[i as int]));
        }
        i = i + 1;
    }
    proof {
        assert(src.deep_view().take(src.len() as int) =~= src.deep_view());
    }
}

/// An owned copy of the element, equal in view to the original.
pub(crate) fn clone_project(p: &Project) -> (r: Project)
    ensures
        r.deep_view() == p.deep_view(),
{
    Project {
        name: p.name.clone(),
        path: clone_opt_string(&p.path),
        remote: clone_opt_string(&p.remote),
        revision: clone_opt_string(&p.revision),
        dest_branch: clone_opt_string(&p.dest_branch),
        groups: clone_opt_string(&p.groups),
        sync_c: clone_opt_string(&p.sync_c),
        sync_s: clone_opt_string(&p.sync_s),
        sync_tags: clone_opt_string(&p.sync_tags),
        upstream: clone_opt_string(&p.upstream),
        clone_depth: clone_opt_string(&p.clone_depth),
        force_path: clone_opt_string(&p.force_path),
    }
}

pub(crate) fn append_projects(dst: &mut Vec<Project>, src: &Vec<Project>)
    ensures
        final(dst).deep_view() == old(dst).deep_view() + src.deep_view(),
{
    let mut i: usize = 0;
    proof {
        assert(dst.deep_view() =~= old(dst).deep_view() + src.deep_view().take(0));
    }
    while i < src.len()
        invariant
            i <= src.len(),
            dst.deep_view() == old(dst).deep_view() + src.deep_view().take(i as int),
        decreases src.len() - i,
    {
        let ghost pre = *dst;
        dst.push(clone_project(&src[i]));
        proof {
            lemma_deep_view_push(pre, *dst, src.deep_view()[i as int]);
            assert(old(dst).deep_view() + src.deep_view().take(i as int + 1) =~= (old(
                dst,
            ).deep_view() + src.deep_view().take(i as int)).push(src.deep_view()[i as int]));
        }
        i = i + 1;
    }
    proof {
        assert(src.deep_view().take(src.len() as int) =~= src.deep_view());
    }
}

/// An owned copy of the element, equal in view to the original.
fn clone_submanifest(p: &Submanifest) -> (r: Submanifest)
    ensures
        r.deep_view() == p.deep_view(),
{
    Submanifest {
        name: p.name.clone(),
        remote: clone_opt_string(&p.remote),
        project: clone_opt_string(&p.project),
        manifest_name: clone_opt_string(&p.manifest_name),
        revision: clone_opt_string(&p.revision),
        path: clone_opt_string(&p.path),
        groups: clone_opt_string(&p.groups),
        default_groups: clone_opt_string(&p.default_groups),
    }
}

pub(crate) fn append_submanifests(dst: &mut Vec<Submanifest>, src: &Vec<Submanifest>)
    ensures
        final(dst).deep_view() == old(dst).deep_view() + src.deep_view(),
{
    let mut i: usize = 0;
    proof {
        assert(dst.deep_view() =~= old(dst).deep_view() + src.deep_view().take(0));
    }
    while i < src.len()
        invariant
            i <= src.len(),
            dst.deep_view() == old(dst).deep_view() + src.deep_view().take(i as int),
        decreases src.len() - i,
    {
        let ghost pre = *dst;
        dst.push(clone_submanifest(&src[i]));
        proof {
            lemma_deep_view_push(pre, *dst, src.deep_view()[i as int]);
            assert(old(dst).deep_view() + src.deep_view().take(i as int + 1) =~= (old(
                dst,
            ).deep_view() + src.deep_view().take(i as int)).push(src.deep_view()[i as int]));
        }
        i = i + 1;
    }
    proof {
        assert(src.deep_view().take(src.len() as int) =~= src.deep_view());
    }
}

/// An owned copy of the element, equal in view to the original.
fn clone_remove_project(p: &RemoveProject) -> (r: RemoveProject)
    ensures
        r.deep_view() == p.deep_view(),
{
    RemoveProject {
        name: clone_opt_string(&p.name),
        path: clone_opt_string(&p.path),
        optional: clone_opt_string(&p.optional),
        base_rev: clone_opt_string(&p.base_rev),
    }
}

pub(crate) fn append_remove_projects(dst: &mut Vec<RemoveProject>, src: &Vec<RemoveProject>)
    ensures
        final(dst).deep_view() == old(dst).deep_view() + src.deep_view(),
{
    let mut i: usize = 0;
    proof {
        assert(dst.deep_view() =~= old(dst).deep_view() + src.deep_view().take(0));
    }
    while i < src.len()
        invariant
            i <= src.len(),
            dst.deep_view() == old(dst).deep_view() + src.deep_view().take(i as int),
        decreases src.len() - i,
    {
        let ghost pre = *dst;
        dst.push(clone_remove_project(&src[i]));
        proof {
            lemma_deep_view_push(pre, *dst, src.deep_view()[i as int]);
            assert(old(dst).deep_view() + src.deep_view().take(i as int + 1) =~= (old(
                dst,
            ).deep_view() + src.deep_view().take(i as int)).push(src.deep_view()[i as int]));
        }
        i = i + 1;
    }
    proof {
        assert(src.deep_view().take(src.len() as int) =~= src.deep_view());
    }
}

/// An owned copy of the element, equal in view to the original.
fn clone_extend_project(p: &ExtendProject) -> (r: ExtendProject)
    ensures
        r.deep_view() == p.deep_view(),
{
    ExtendProject {
        name: p.name.clone(),
        path: clone_opt_string(&p.path),
        dest_path: clone_opt_string(&p.dest_path),
        groups: clone_opt_string(&p.groups),
        revision: clone_opt_string(&p.revision),
        remote: clone_opt_string(&p.remote),
        dest_branch: clone_opt_string(&p.dest_branch),
        upstream: clone_opt_string(&p.upstream),
        base_rev: clone_opt_string(&p.base_rev),
    }
}

pub(crate) fn append_extend_projects(dst: &mut Vec<ExtendProject>, src: &Vec<ExtendProject>)
    ensures
        final(dst).deep_view() == old(dst).deep_view() + src.deep_view(),
{
    let mut i: usize = 0;
    proof {
        assert(dst.deep_view() =~= old(dst).deep_view() + src.deep_view().take(0));
    }
    while i < src.len()
        invariant
            i <= src.len(),
            dst.deep_view() == old(dst).deep_view() + src.deep_view().take(i as int),
        decreases src.len() - i,
    {
        let ghost pre = *dst;
        dst.push(clone_extend_project(&src[i]));
        proof {
            lemma_deep_view_push(pre, *dst, src.deep_view()[i as int]);
            assert(old(dst).deep_view() + src.deep_view().take(i as int + 1) =~= (old(
                dst,
            ).deep_view() + src.deep_view().take(i as int)).push(src.deep_view()[i as int]));
        }
        i = i + 1;
    }
    proof {
        assert(src.deep_view().take(src.len() as int) =~= src.deep_view());
    }
}

/// An owned copy of the element, equal in view to the original.
fn clone_include(p: &Include) -> (r: Include)
    ensures
        r.deep_view() == p.deep_view(),
{
    Include {
        name: p.name.clone(),
        groups: clone_opt_string(&p.groups),
        revision: clone_opt_string(&p.revision),
    }
}

pub(crate) fn append_includes(dst: &mut Vec<Include>, src: &Vec<Include>)
    ensures
        final(dst).deep_view() == old(dst).deep_view() + src.deep_view(),
{
    let mut i: usize = 0;
    proof {
        assert(dst.deep_view() =~= old(dst).deep_view() + src.deep_view().take(0));
    }
    while i < src.len()
        invariant
            i <= src.len(),
            dst.deep_view() == old(dst).deep_view() + src.deep_view().take(i as int),
        decreases src.len() - i,
    {
        let ghost pre = *dst;
        dst.push(clone_include(&src[i]));
        proof {
            lemma_deep_view_push(pre, *dst, src.deep_view()[i as int]);
            assert(old(dst).deep_view() + src.deep_view().take(i as int + 1) =~= (old(
                dst,
            ).deep_view() + src.deep_view().take(i as int)).push(src.deep_view()[i as int]));
        }
        i = i + 1;
    }
    proof {
        assert(src.deep_view().take(src.len() as int) =~= src.deep_view());
    }
}

/// An owned copy of the element, equal in view to the original.
fn clone_copyfile(p: &CopyFile) -> (r: CopyFile)
    ensures
        r.deep_view() == p.deep_view(),
{
    CopyFile {
        src: p.src.clone(),
        dest: p.dest.clone(),
    }
}

pub(crate) fn append_copyfiles(dst: &mut Vec<CopyFile>, src: &Vec<CopyFile>)
    ensures
        final(dst).deep_view() == old(dst).deep_view() + src.deep_view(),
{
    let mut i: usize = 0;
    proof {
        assert(dst.deep_view() =~= old(dst).deep_view() + src.deep_view().take(0));
    }
    while i < src.len()
        invariant
            i <= src.len(),
            dst.deep_view() == old(dst).deep_view() + src.deep_view().take(i as int),
        decreases src.len() - i,
    {
        let ghost pre = *dst;
        dst.push(clone_copyfile(&src[i]));
        proof {
            lemma_deep_view_push(pre, *dst, src.deep_view()[i as int]);
            assert(old(dst).deep_view() + src.deep_view().take(i as int + 1) =~= (old(
                dst,
            ).deep_view() + src.deep_view().take(i as int)).push(src.deep_view()[i as int]));
        }
        i = i + 1;
    }
    proof {
        assert(src.deep_view().take(src.len() as int) =~= src.deep_view());
    }
}

/// An owned copy of the element, equal in view to the original.
fn clone_linkfile(p: &LinkFile) -> (r: LinkFile)
    ensures
        r.deep_view() == p.deep_view(),
{
    LinkFile {
        src: p.src.clone(),
        dest: p.dest.clone(),
    }
}

pub(crate) fn append_linkfiles(dst: &mut Vec<LinkFile>, src: &Vec<LinkFile>)
    ensures
        final(dst).deep_view() == old(dst).deep_view() + src.deep_view(),
{
    let mut i: usize = 0;
    proof {
        assert(dst.deep_view() =~= old(dst).deep_view() + src.deep_view().take(0));
    }
    while i < src.len()
        invariant
            i <= src.len(),
            dst.deep_view() == old(dst).deep_view() + src.deep_view().take(i as int),
        decreases src.len() - i,
    {
        let ghost pre = *dst;
        dst.push(clone_linkfile(&src[i]));
        proof {
            lemma_deep_view_push(pre, *dst, src.deep_view()[i as int]);
            assert(old(dst).deep_view() + src.deep_view().take(i as int + 1) =~= (old(
                dst,
            ).deep_view() + src.deep_view().take(i as int)).push(src.deep_view()[i as int]));
        }
        i = i + 1;
    }
    proof {
        assert(src.deep_view().take(src.len() as int) =~= src.deep_view());
    }
}

/// An owned copy of the element, equal in view to the original.
fn clone_annotation(p: &Annotation) -> (r: Annotation)
    ensures
        r.deep_view() == p.deep_view(),
{
    Annotation {
        name: p.name.clone(),
        value: p.value.clone(),
        keep: p.keep,
    }
}

pub(crate) fn append_annotations(dst: &mut Vec<Annotation>, src: &Vec<Annotation>)
    ensures
        final(dst).deep_view() == old(dst).deep_view() + src.deep_view(),
{
    let mut i: usize = 0;
    proof {
        assert(dst.deep_view() =~= old(dst).deep_view() + src.deep_view().take(0));
    }
    while i < src.len()
        invariant
            i <= src.len(),
            dst.deep_view() == old(dst).deep_view() + src.deep_view().take(i as int),
        decreases src.len() - i,
    {
        let ghost pre = *dst;
        dst.push(clone_annotation(&src[i]));
        proof {
            lemma_deep_view_push(pre, *dst, src.deep_view()[i as int]);
            assert(old(dst).deep_view() + src.deep_view().take(i as int + 1) =~= (old(
                dst,
            ).deep_view() + src.deep_view().take(i as int)).push(src.deep_view()[i as int]));
        }
        i = i + 1;
    }
    proof {
        assert(src.deep_view().take(src.len() as int) =~= src.deep_view());
    }
}

/// Merges a local overlay into the base manifest: removals first, then
/// extensions over the survivors, then additive concatenation of the list
/// elements and last-overlay-wins override of the single-valued ones.  The
/// overlay's own projects are appended after its removals and extensions ran,
/// so they are not subject to them.
pub fn merge_manifests(base: &mut Manifest, local: Manifest)
    ensures
        final(base).deep_view().projects == spec_kept_extended(
            old(base).deep_view().projects,
            local.deep_view().remove_projects,
            local.deep_view().extend_projects,
        ) + local.deep_view().projects,
        final(base).deep_view().remotes == old(base).deep_view().remotes
            + local.deep_view().remotes,
        final(base).deep_view().submanifests == old(base).deep_view().submanifests
            + local.deep_view().submanifests,
        final(base).deep_view().remove_projects == old(base).deep_view().remove_projects
            + local.deep_view().remove_projects,
        final(base).deep_view().extend_projects == old(base).deep_view().extend_projects
            + local.deep_view().extend_projects,
        final(base).deep_view().includes == old(base).deep_view().includes
            + local.deep_view().includes,
        final(base).deep_view().default == if local.default is Some {
            local.deep_view().default
        } else {
            old(base).deep_view().default
        },
        final(base).deep_view().manifest_server == if local.manifest_server is Some {
            local.deep_view().manifest_server
        } else {
            old(base).deep_view().manifest_server
        },
        final(base).deep_view().repo_hooks == if local.repo_hooks is Some {
            local.deep_view().repo_hooks
        } else {
            old(base).deep_view().repo_hooks
        },
        final(base).deep_view().superproject == if local.superproject is Some {
            local.deep_view().superproject
        } else {
            old(base).deep_view().superproject
        },
        final(base).deep_view().contactinfo == if local.contactinfo is Some {
            local.deep_view().contactinfo
        } else {
            old(base).deep_view().contactinfo
        },
        final(base).deep_view().copyfiles == old(base).deep_view().copyfiles
            + local.deep_view().copyfiles,
        final(base).deep_view().linkfiles == old(base).deep_view().linkfiles
            + local.deep_view().linkfiles,
        final(base).deep_view().annotations == old(base).deep_view().annotations
            + local.deep_view().annotations,
        final(base).deep_view().notice == old(base).deep_view().notice,
{
    let mut kept: Vec<Project> = Vec::new();
    let mut i: usize = 0;
    proof {
        assert(kept.deep_view() =~= spec_kept_extended(
            old(base).deep_view().projects.take(0),
            local.deep_view().remove_projects,
            local.deep_view().extend_projects,
        ));
    }
    while i < base.projects.len()
        invariant
            i <= base.projects.len(),
            base.projects.deep_view() == old(base).deep_view().projects,
            local.remove_projects.deep_view() == local.deep_view().remove_projects,
            local.extend_projects.deep_view() == local.deep_view().extend_projects,
            kept.deep_view() == spec_kept_extended(
                old(base).deep_view().projects.take(i as int),
                local.deep_view().remove_projects,
                local.deep_view().extend_projects,
            ),
        decreases base.projects.len() - i,
    {
        proof {
            assert(old(base).deep_view().projects.take(i as int + 1).drop_last() =~= old(
                base,
            ).deep_view().projects.take(i as int));
            assert(old(base).deep_view().projects.take(i as int + 1).last() == old(
                base,
            ).deep_view().projects[i as int]);
        }
        if !removed_by_any(&local.remove_projects, &base.projects[i]) {
            let mut q = clone_project(&base.projects[i]);
            apply_extends(&mut q, &local.extend_projects);
            let ghost pre = kept;
            kept.push(q);
            proof {
                lemma_deep_view_push(
                    pre,
                    kept,
                    spec_apply_extends(
                        old(base).deep_view().projects[i as int],
                        local.deep_view().extend_projects,
                    ),
                );
            }
        }
        i = i + 1;
    }
    proof {
        assert(old(base).deep_view().projects.take(base.projects.len() as int) =~= old(
            base,
        ).deep_view().projects);
    }
    base.projects = kept;
    append_projects(&mut base.projects, &local.projects);
    append_remotes(&mut base.remotes, &local.remotes);
    append_submanifests(&mut base.submanifests, &local.submanifests);
    append_remove_projects(&mut base.remove_projects, &local.remove_projects);
    append_extend_projects(&mut base.extend_projects, &local.extend_projects);
    append_includes(&mut base.includes, &local.includes);
    append_copyfiles(&mut base.copyfiles, &local.copyfiles);
    append_linkfiles(&mut base.linkfiles, &local.linkfiles);
    append_annotations(&mut base.annotations, &local.annotations);
    match local.default {
        Some(d) => {
            base.default = Some(d);
        },
        None => {},
    }
    match local.manifest_server {
        Some(m) => {
            base.manifest_server = Some(m);
        },
        None => {},
    }
    match local.repo_hooks {
        Some(h) => {
            base.repo_hooks = Some(h);
        },
        None => {},
    }
    match local.superproject {
        Some(sp) => {
            base.superproject = Some(sp);
        },
        None => {},
    }
    match local.contactinfo {
        Some(c) => {
            base.contactinfo = Some(c);
        },
        None => {},
    }
}

} // verus!
