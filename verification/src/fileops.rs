//! File-directive safety for the materializer.  A copy or link directive
//! names paths relative to the target root; they are resolved lexically and
//! any directive whose resolved path climbs out of the root is rejected
//! before anything touches the filesystem.

use vstd::prelude::*;
use vstd::string::StrSliceExecFns;

verus! {

/// Errors of the materialization step.
#[derive(Debug)]
pub enum MaterializeError {
    /// The directive's resolved path lies outside the target root; the
    /// offending relative path is carried as its segments.
    PathContainment { path: Vec<String> },
    /// The filesystem is not in the shape the directive needs (source
    /// missing, destination of the wrong kind); reported by the caller that
    /// inspected the disk.
    FileState { message: String },
}

/// Lexical normalization of relative path segments: empty and `.` segments
/// vanish, `..` removes the segment before it, and a `..` with nothing left
/// to remove means the path climbs out of the directory it starts from.
pub open spec fn spec_normalize(parts: Seq<Seq<char>>) -> Option<Seq<Seq<char>>>
    decreases parts.len(),
{
    if parts.len() == 0 {
        Some(Seq::empty())
    } else {
        match spec_normalize(parts.drop_last()) {
            None => None,
            Some(rest) => {
                let last = parts.last();
                if last.len() == 0 || last == seq!['.'] {
                    Some(rest)
                } else if last == seq!['.', '.'] {
                    if rest.len() == 0 {
                        None
                    } else {
                        Some(rest.drop_last())
                    }
                } else {
                    Some(rest.push(last))
                }
            },
        }
    }
}

/// A normalized path stays within whatever directory it is resolved against:
/// the resolved form is the root's segments followed by the normalized
/// relative segments, and a relative path without a normal form has no
/// resolved place under the root at all.
pub proof fn lemma_normalized_is_contained(root: Seq<Seq<char>>, rel: Seq<Seq<char>>)
    ensures
        spec_normalize(rel) is Some ==> (root + spec_normalize(rel)->0).take(root.len() as int)
            =~= root,
{
}

fn segment_is(s: &String, a: char) -> (r: bool)
    ensures
        r == (s@ =~= seq![a]),
{
    let res = s.as_str().unicode_len() == 1 && s.as_str().get_char(0) == a;
    proof {
        if res {
            assert(s@ =~= seq![a]);
        }
    }
    res
}

fn segment_is2(s: &String, a: char, b: char) -> (r: bool)
    ensures
        r == (s@ =~= seq![a, b]),
{
    let res = s.as_str().unicode_len() == 2 && s.as_str().get_char(0) == a && s.as_str().get_char(
        1,
    ) == b;
    proof {
        if res {
            assert(s@ =~= seq![a, b]);
        }
    }
    res
}

/// Resolves a directive's relative path against the target root, lexically.
/// The result is the root's segments followed by the normalized relative
/// segments; a path that climbs out of the root is rejected with a
/// containment error, and nothing is resolved for it.
pub fn resolve_under_root(root: &Vec<String>, rel: &Vec<String>) -> (r: Result<
    Vec<String>,
    MaterializeError,
>)
    ensures
        match r {
            Ok(resolved) => {
                &&& spec_normalize(rel.deep_view()) is Some
                &&& resolved.deep_view() == root.deep_view() + spec_normalize(rel.deep_view())->0
            },
            Err(e) => {
                &&& spec_normalize(rel.deep_view()) is None
                &&& e matches MaterializeError::PathContainment { path } && path.deep_view()
                    == rel.deep_view()
            },
        },
{
    let mut acc: Vec<String> = Vec::new();
    let mut i: usize = 0;
    proof {
        assert(rel.deep_view().take(0) =~= Seq::<Seq<char>>::empty());
        assert(acc.deep_view() =~= Seq::<Seq<char>>::empty());
    }
    while i < rel.len()
        invariant
            i <= rel.len(),
            spec_normalize(rel.deep_view().take(i as int)) == Some(acc.deep_view()),
        decreases rel.len() - i,
    {
        proof {
            assert(rel.deep_view().take(i as int + 1).drop_last() =~= rel.deep_view().take(
                i as int,
            ));
            assert(rel.deep_view().take(i as int + 1).last() == rel.deep_view()[i as int]);
        }
        let seg = &rel[i];
        if seg.as_str().unicode_len() == 0 || segment_is(seg, '.') {
            // the segment vanishes
        } else if segment_is2(seg, '.', '.') {
            if acc.len() == 0 {
                proof {
                    assert(spec_normalize(rel.deep_view().take(i as int + 1)) is None);
                    lemma_normalize_none_extends(rel.deep_view(), i as int + 1);
                }
                return Err(MaterializeError::PathContainment { path: crate::strutil::clone_string_vec(rel) });
            }
            let ghost pre = acc.deep_view();
            acc.pop();
            proof {
                assert(acc.deep_view() =~= pre.drop_last());
            }
        } else {
            let ghost pre = acc;
            acc.push(seg.clone());
            proof {
                crate::strutil::lemma_deep_view_push(pre, acc, rel.deep_view()[i as int]);
            }
        }
        i = i + 1;
    }
    proof {
        assert(rel.deep_view().take(rel.len() as int) =~= rel.deep_view());
    }
    let mut resolved = crate::strutil::clone_string_vec(root);
    let mut j: usize = 0;
    proof {
        assert(resolved.deep_view() =~= root.deep_view() + acc.deep_view().take(0));
    }
    while j < acc.len()
        invariant
            j <= acc.len(),
            resolved.deep_view() == root.deep_view() + acc.deep_view().take(j as int),
            spec_normalize(rel.deep_view()) == Some(acc.deep_view()),
        decreases acc.len() - j,
    {
        let ghost pre = resolved;
        resolved.push(acc[j].clone());
        proof {
            crate::strutil::lemma_deep_view_push(pre, resolved, acc.deep_view()[j as int]);
            assert(root.deep_view() + acc.deep_view().take(j as int + 1) =~= (root.deep_view()
                + acc.deep_view().take(j as int)).push(acc.deep_view()[j as int]));
        }
        j = j + 1;
    }
    proof {
        assert(acc.deep_view().take(acc.len() as int) =~= acc.deep_view());
    }
    Ok(resolved)
}

/// Once a prefix of the segments has no normal form, no extension of it has
/// one either.
proof fn lemma_normalize_none_extends(parts: Seq<Seq<char>>, k: int)
    requires
        0 <= k <= parts.len(),
        spec_normalize(parts.take(k)) is None,
    ensures
        spec_normalize(parts) is None,
    decreases parts.len() - k,
{
    if k < parts.len() {
        assert(parts.take(k + 1).drop_last() =~= parts.take(k));
        assert(spec_normalize(parts.take(k + 1)) is None);
        lemma_normalize_none_extends(parts, k + 1);
    } else {
        assert(parts.take(k) =~= parts);
    }
}

/// The verdict on a materialization pass, under the keep policy: with
/// `keep` unset the first failure aborts the whole step with that failure;
/// with `keep` set failures are tolerated and the step succeeds regardless.
pub fn materialize_outcome(first_failure: Option<MaterializeError>, keep: bool) -> (r: Result<
    (),
    MaterializeError,
>)
    ensures
        r is Ok <==> (keep || first_failure is None),
        r is Err ==> r == Err::<(), MaterializeError>(first_failure->0),
{
    match first_failure {
        Some(e) => {
            if keep {
                Ok(())
            } else {
                Err(e)
            }
        },
        None => Ok(()),
    }
}

} // verus!
