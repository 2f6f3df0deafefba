//! Small verified string helpers: decimal rendering of integers, list
//! joining, lexicographic comparison and owned copies of optional strings.

use vstd::prelude::*;
use vstd::string::StrSliceExecFns;
use vstd::string::StringExecFns;

verus! {

/// The decimal digit character for a value below ten.
pub open spec fn digit_char(d: nat) -> char {
    if d == 0 {
        '0'
    } else if d == 1 {
        '1'
    } else if d == 2 {
        '2'
    } else if d == 3 {
        '3'
    } else if d == 4 {
        '4'
    } else if d == 5 {
        '5'
    } else if d == 6 {
        '6'
    } else if d == 7 {
        '7'
    } else if d == 8 {
        '8'
    } else {
        '9'
    }
}

/// The decimal rendering of a natural number, most significant digit first.
pub open spec fn spec_nat_str(n: nat) -> Seq<char>
    decreases n,
{
    if n < 10 {
        seq![digit_char(n)]
    } else {
        spec_nat_str(n / 10) + seq![digit_char(n % 10)]
    }
}

fn digit_str(d: u32) -> (r: &'static str)
    requires
        d < 10,
    ensures
        r@ == seq![digit_char(d as nat)],
{
    let r = if d == 0 {
        "0"
    } else if d == 1 {
        "1"
    } else if d == 2 {
        "2"
    } else if d == 3 {
        "3"
    } else if d == 4 {
        "4"
    } else if d == 5 {
        "5"
    } else if d == 6 {
        "6"
    } else if d == 7 {
        "7"
    } else if d == 8 {
        "8"
    } else {
        "9"
    };
    proof {
        reveal_strlit("0");
        reveal_strlit("1");
        reveal_strlit("2");
        reveal_strlit("3");
        reveal_strlit("4");
        reveal_strlit("5");
        reveal_strlit("6");
        reveal_strlit("7");
        reveal_strlit("8");
        reveal_strlit("9");
        assert(r@ =~= seq![digit_char(d as nat)]);
    }
    r
}

/// Renders a number in decimal, as std's formatting would.
pub fn u32_to_string(n: u32) -> (s: String)
    ensures
        s@ == spec_nat_str(n as nat),
    decreases n,
{
    if n < 10 {
        digit_str(n).to_owned()
    } else {
        let mut s = u32_to_string(n / 10);
        s.append(digit_str(n % 10));
        s
    }
}

/// The elements of `vs` joined by `sep`; empty when `vs` is empty.
pub open spec fn spec_join(vs: Seq<Seq<char>>, sep: Seq<char>) -> Seq<char>
    decreases vs.len(),
{
    if vs.len() == 0 {
        Seq::empty()
    } else if vs.len() == 1 {
        vs[0]
    } else {
        vs[0] + sep + spec_join(vs.drop_first(), sep)
    }
}

/// Joins strings with a comma, as `[..].join(",")` does.
pub fn join_comma(vs: &Vec<String>) -> (r: String)
    ensures
        r@ == spec_join(vs.deep_view(), ","@),
{
    let mut r = String::new();
    let mut i: usize = 0;
    while i < vs.len()
        invariant
            i <= vs.len(),
            r@ == spec_join(vs.deep_view().take(i as int), ","@),
        decreases vs.len() - i,
    {
        if i > 0 {
            r.append(",");
        }
        r.append(vs[i].as_str());
        i = i + 1;
        proof {
            lemma_join_take_step(vs.deep_view(), ","@, i as int);
        }
    }
    proof {
        assert(vs.deep_view().take(vs.len() as int) =~= vs.deep_view());
    }
    r
}

proof fn lemma_join_take_step(vs: Seq<Seq<char>>, sep: Seq<char>, i: int)
    requires
        0 < i <= vs.len(),
    ensures
        spec_join(vs.take(i), sep) == if i == 1 {
            vs[0]
        } else {
            spec_join(vs.take(i - 1), sep) + sep + vs[i - 1]
        },
    decreases i,
{
    let t = vs.take(i);
    if i == 1 {
        assert(t.len() == 1);
        assert(spec_join(t, sep) == t[0]);
        assert(t[0] == vs[0]);
    } else {
        // Both sides place vs[0] first; peel it and recurse on the tail.
        let tail = vs.drop_first();
        assert(t.drop_first() =~= tail.take(i - 1));
        lemma_join_take_step(tail, sep, i - 1);
        if i - 1 == 1 {
            assert(spec_join(t, sep) == t[0] + sep + spec_join(t.drop_first(), sep));
            assert(t.drop_first().len() == 1);
            assert(spec_join(t.drop_first(), sep) == tail[0]);
            assert(vs.take(i - 1).len() == 1);
            assert(spec_join(vs.take(i - 1), sep) == vs[0]);
        } else {
            assert(spec_join(t, sep) == t[0] + sep + spec_join(tail.take(i - 1), sep));
            assert(spec_join(tail.take(i - 1), sep) == spec_join(tail.take(i - 2), sep) + sep
                + tail[i - 2]);
            assert(vs.take(i - 1).drop_first() =~= tail.take(i - 2));
            assert(vs.take(i - 1).len() == i - 1);
            assert(spec_join(vs.take(i - 1), sep) == vs[0] + sep + spec_join(tail.take(i - 2), sep));
            assert(t[0] + sep + (spec_join(tail.take(i - 2), sep) + sep + tail[i - 2]) =~= (vs[0]
                + sep + spec_join(tail.take(i - 2), sep)) + sep + vs[i - 1]);
        }
    }
}

/// Strict lexicographic order on character sequences, by code point; this is
/// the order `String` comparison gives, since UTF-8 preserves it.
pub open spec fn spec_str_lt(a: Seq<char>, b: Seq<char>) -> bool
    decreases a.len(),
{
    if b.len() == 0 {
        false
    } else if a.len() == 0 {
        true
    } else if (a[0] as u32) < (b[0] as u32) {
        true
    } else if (a[0] as u32) > (b[0] as u32) {
        false
    } else {
        spec_str_lt(a.drop_first(), b.drop_first())
    }
}

/// Compares two strings lexicographically by code point.
pub fn str_lt(a: &str, b: &str) -> (r: bool)
    ensures
        r == spec_str_lt(a@, b@),
{
    let alen = a.unicode_len();
    let blen = b.unicode_len();
    let mut i: usize = 0;
    proof {
        assert(a@.skip(0) =~= a@);
        assert(b@.skip(0) =~= b@);
    }
    loop
        invariant
            i <= alen,
            i <= blen,
            alen == a@.len(),
            blen == b@.len(),
            spec_str_lt(a@, b@) == spec_str_lt(a@.skip(i as int), b@.skip(i as int)),
        decreases alen - i,
    {
        if i >= blen {
            proof {
                assert(b@.skip(i as int).len() == 0);
            }
            return false;
        }
        if i >= alen {
            proof {
                assert(a@.skip(i as int).len() == 0);
                assert(b@.skip(i as int).len() > 0);
            }
            return true;
        }
        let ca = a.get_char(i);
        let cb = b.get_char(i);
        proof {
            assert(a@.skip(i as int)[0] == a@[i as int]);
            assert(b@.skip(i as int)[0] == b@[i as int]);
            assert(a@.skip(i as int).drop_first() =~= a@.skip(i as int + 1));
            assert(b@.skip(i as int).drop_first() =~= b@.skip(i as int + 1));
        }
        if (ca as u32) < (cb as u32) {
            return true;
        }
        if (ca as u32) > (cb as u32) {
            return false;
        }
        i = i + 1;
    }
}

/// Pushing one element extends a vector's deep view by that element's view.
pub proof fn lemma_deep_view_push<T: DeepView>(v1: Vec<T>, v2: Vec<T>, xv: T::V)
    requires
        v2@.len() == v1@.len() + 1,
        forall|i: int| 0 <= i < v1@.len() ==> v2@[i] == v1@[i],
        v2@[v1@.len() as int].deep_view() == xv,
    ensures
        v2.deep_view() == v1.deep_view().push(xv),
{
    assert forall|i: int| 0 <= i < v2.deep_view().len() implies v2.deep_view()[i]
        == v1.deep_view().push(xv)[i] by {
        if i < v1@.len() {
            assert(v2@[i] == v1@[i]);
        }
    }
    assert(v2.deep_view() =~= v1.deep_view().push(xv));
}

/// An owned copy of an optional string, equal to the original.
pub fn clone_opt_string(o: &Option<String>) -> (r: Option<String>)
    ensures
        r.deep_view() == o.deep_view(),
{
    match o {
        Some(s) => Some(s.clone()),
        None => None,
    }
}

/// An owned copy of a string vector, equal to the original.
pub fn clone_string_vec(v: &Vec<String>) -> (r: Vec<String>)
    ensures
        r.deep_view() == v.deep_view(),
{
    let mut r: Vec<String> = Vec::new();
    let mut i: usize = 0;
    while i < v.len()
        invariant
            i <= v.len(),
            r@.len() == i,
            forall|j: int| 0 <= j < i ==> r@[j] == v@[j],
        decreases v.len() - i,
    {
        r.push(v[i].clone());
        i = i + 1;
    }
    proof {
        assert forall|j: int| 0 <= j < v@.len() implies r.deep_view()[j] == v.deep_view()[j] by {
            assert(r@[j] == v@[j]);
        }
        assert(r.deep_view() =~= v.deep_view());
    }
    r
}

} // verus!
