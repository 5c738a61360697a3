//! Absolute, normalized filesystem paths as vectors of components.
//!
//! A path is held as its components: `/proj/src/foo.js` is
//! `["proj", "src", "foo.js"]` and the root directory is the empty vector.
//! Splitting a path string drops empty segments, so `//a//` and `/a` name the
//! same path. Relative steps (`.` and `..`) are applied by [`apply_segments`],
//! which clamps `..` at the root as an operating system does.

use vstd::prelude::*;
use vstd::string::StrSliceExecFns;

use crate::strutil;

verus! {

/// The components of `s` from position `i` on, split at `/`, empty segments dropped.
pub open spec fn spec_split_from(s: Seq<char>, i: int) -> Seq<Seq<char>>
    decreases s.len() - i,
    via spec_split_from_decreases
{
    if i < 0 || i >= s.len() {
        Seq::empty()
    } else {
        match strutil::spec_find_char(s, '/', i) {
            None => seq![s.subrange(i, s.len() as int)],
            Some(j) => if j == i {
                spec_split_from(s, i + 1)
            } else {
                seq![s.subrange(i, j)] + spec_split_from(s, j + 1)
            },
        }
    }
}

#[via_fn]
proof fn spec_split_from_decreases(s: Seq<char>, i: int) {
    if 0 <= i < s.len() {
        strutil::lemma_find_char_bounds(s, '/', i);
    }
}

/// The components of the path string `s`.
pub open spec fn spec_split_path(s: Seq<char>) -> Seq<Seq<char>> {
    spec_split_from(s, 0)
}

/// Splits a path string into its components.
pub fn split_path(s: &str) -> (r: Vec<String>)
    ensures
        r.deep_view() == spec_split_path(s@),
{
    let r = split_from(s, 0);
    r
}

fn split_from(s: &str, i: usize) -> (r: Vec<String>)
    requires
        i <= s@.len(),
    ensures
        r.deep_view() == spec_split_from(s@, i as int),
    decreases s@.len() - i,
{
    let len = s.unicode_len();
    if i >= len {
        let r: Vec<String> = Vec::new();
        assert(r.deep_view() =~= spec_split_from(s@, i as int));
        return r;
    }
    match strutil::find_char(s, '/', i) {
        None => {
            let comp = strutil::substring(s, i, len);
            let mut r: Vec<String> = Vec::new();
            r.push(comp);
            assert(r.deep_view() =~= spec_split_from(s@, i as int));
            r
        },
        Some(j) => {
            if j == i {
                let r = split_from(s, i + 1);
                r
            } else {
                let comp = strutil::substring(s, i, j);
                let rest = split_from(s, j + 1);
                let mut r: Vec<String> = Vec::new();
                r.push(comp);
                let mut k: usize = 0;
                while k < rest.len()
                    invariant
                        r.deep_view() =~= seq![s@.subrange(i as int, j as int)]
                            + rest.deep_view().subrange(0, k as int),
                        k <= rest.len(),
                    decreases rest.len() - k,
                {
                    let c = rest[k].clone();
                    assert(c.deep_view() == rest.deep_view()[k as int]);
                    let ghost prev = r.deep_view();
                    r.push(c);
                    proof {
                        assert(rest.deep_view().len() == rest.len());
                        assert(r.deep_view() =~= prev.push(rest.deep_view()[k as int]));
                        assert(r.deep_view() =~= seq![s@.subrange(i as int, j as int)]
                            + rest.deep_view().subrange(0, k as int + 1));
                    }
                    k += 1;
                }
                assert(rest.deep_view().subrange(0, rest.len() as int) =~= rest.deep_view());
                assert(r.deep_view() =~= spec_split_from(s@, i as int));
                r
            }
        },
    }
}

/// The path string of the components `p`: `/` followed by the components,
/// `/`-separated; the root renders as `/`.
pub open spec fn spec_path_string(p: Seq<Seq<char>>) -> Seq<char>
    decreases p.len(),
{
    if p.len() == 0 {
        seq!['/']
    } else if p.len() == 1 {
        seq!['/'] + p[0]
    } else {
        spec_path_string(p.drop_last()) + seq!['/'] + p.last()
    }
}

/// Renders components as a path string.
pub fn path_to_string(p: &Vec<String>) -> (r: String)
    ensures
        r@ == spec_path_string(p.deep_view()),
{
    if p.len() == 0 {
        let r = "/".to_owned();
        proof {
            reveal_strlit("/");
            assert("/"@ =~= seq!['/']);
        }
        return r;
    }
    let mut r = String::new();
    let mut k: usize = 0;
    proof {
        reveal_strlit("/");
        assert("/"@ =~= seq!['/']);
    }
    while k < p.len()
        invariant
            k <= p.len(),
            k > 0 ==> r@ == spec_path_string(p.deep_view().subrange(0, k as int)),
            k == 0 ==> r@ == Seq::<char>::empty(),
            "/"@ == seq!['/'],
            p.len() > 0,
        decreases p.len() - k,
    {
        r.append("/");
        r.append(p[k].as_str());
        proof {
            let pv = p.deep_view();
            assert(p[k as int].deep_view() == pv[k as int]);
            if k == 0 {
                assert(r@ =~= spec_path_string(pv.subrange(0, 1)));
            } else {
                assert(pv.subrange(0, k as int + 1).drop_last() =~= pv.subrange(0, k as int));
                assert(pv.subrange(0, k as int + 1).last() == pv[k as int]);
                assert(r@ =~= spec_path_string(pv.subrange(0, k as int + 1)));
            }
        }
        k += 1;
    }
    assert(p.deep_view().subrange(0, p.len() as int) =~= p.deep_view());
    r
}

/// Whether a component moves nowhere (`.`).
pub open spec fn is_dot(c: Seq<char>) -> bool {
    c == seq!['.']
}

/// Whether a component moves to the parent directory (`..`).
pub open spec fn is_dot_dot(c: Seq<char>) -> bool {
    c == seq!['.', '.']
}

/// The components of `base` after applying the relative steps `segs` in
/// order: `.` stays, `..` drops the last component (staying at the root when
/// there is none), and any other segment descends into it.
pub open spec fn spec_apply_segments(base: Seq<Seq<char>>, segs: Seq<Seq<char>>) -> Seq<Seq<char>>
    decreases segs.len(),
{
    if segs.len() == 0 {
        base
    } else {
        let rest = segs.drop_first();
        if is_dot(segs.first()) {
            spec_apply_segments(base, rest)
        } else if is_dot_dot(segs.first()) {
            spec_apply_segments(if base.len() == 0 {
                base
            } else {
                base.drop_last()
            }, rest)
        } else {
            spec_apply_segments(base.push(segs.first()), rest)
        }
    }
}

/// Applies the relative steps `segs` to `base`.
pub fn apply_segments(base: &Vec<String>, segs: &Vec<String>) -> (r: Vec<String>)
    ensures
        r.deep_view() == spec_apply_segments(base.deep_view(), segs.deep_view()),
{
    let mut r = base.clone();
    assert(r.deep_view() =~= base.deep_view());
    let mut k: usize = 0;
    assert(segs.deep_view().skip(0) =~= segs.deep_view());
    while k < segs.len()
        invariant
            k <= segs.len(),
            spec_apply_segments(base.deep_view(), segs.deep_view()) == spec_apply_segments(
                r.deep_view(),
                segs.deep_view().skip(k as int),
            ),
        decreases segs.len() - k,
    {
        let ghost pre = r.deep_view();
        let ghost tail = segs.deep_view().skip(k as int);
        proof {
            assert(tail.first() == segs.deep_view()[k as int]);
            assert(tail.drop_first() =~= segs.deep_view().skip(k as int + 1));
            assert(segs[k as int].deep_view() == segs.deep_view()[k as int]);
        }
        proof {
            reveal_strlit(".");
            reveal_strlit("..");
            assert(("."@) =~= seq!['.']);
            assert((".."@) =~= seq!['.', '.']);
        }
        if strutil::str_eq(segs[k].as_str(), ".") {
            proof {
                assert(is_dot(tail.first()));
            }
        } else if strutil::str_eq(segs[k].as_str(), "..") {
            proof {
                assert(is_dot_dot(tail.first()));
                assert(!is_dot(tail.first()));
            }
            if r.len() > 0 {
                r.pop();
                assert(r.deep_view() =~= pre.drop_last());
            }
        } else {
            proof {
                assert(!is_dot(tail.first()));
                assert(!is_dot_dot(tail.first()));
            }
            let c = segs[k].clone();
            r.push(c);
            assert(r.deep_view() =~= pre.push(tail.first()));
        }
        k += 1;
    }
    assert(segs.deep_view().skip(segs.len() as int) =~= Seq::<Seq<char>>::empty());
    r
}

/// The parent directory of `p`: the root is its own parent.
pub open spec fn spec_parent(p: Seq<Seq<char>>) -> Seq<Seq<char>> {
    if p.len() == 0 {
        p
    } else {
        p.drop_last()
    }
}

/// Drops the last component, staying at the root when there is none.
pub fn parent(p: &Vec<String>) -> (r: Vec<String>)
    ensures
        r.deep_view() == spec_parent(p.deep_view()),
{
    let mut r = p.clone();
    assert(r.deep_view() =~= p.deep_view());
    if r.len() > 0 {
        let ghost pre = r.deep_view();
        r.pop();
        assert(r.deep_view() =~= pre.drop_last());
    }
    r
}

/// `p` with `c` appended.
pub fn child(p: &Vec<String>, c: &str) -> (r: Vec<String>)
    ensures
        r.deep_view() == p.deep_view().push(c@),
{
    let mut r = p.clone();
    assert(r.deep_view() =~= p.deep_view());
    r.push(c.to_owned());
    assert(r.deep_view() =~= p.deep_view().push(c@));
    r
}

/// Whether two component vectors name the same path.
pub fn path_eq(a: &Vec<String>, b: &Vec<String>) -> (r: bool)
    ensures
        r == (a.deep_view() == b.deep_view()),
{
    if a.len() != b.len() {
        assert(a.deep_view().len() != b.deep_view().len());
        return false;
    }
    let mut k: usize = 0;
    while k < a.len()
        invariant
            k <= a.len(),
            a.len() == b.len(),
            forall|j: int| 0 <= j < k ==> a.deep_view()[j] == b.deep_view()[j],
        decreases a.len() - k,
    {
        proof {
            assert(a[k as int].deep_view() == a.deep_view()[k as int]);
            assert(b[k as int].deep_view() == b.deep_view()[k as int]);
        }
        if !strutil::str_eq(a[k].as_str(), b[k].as_str()) {
            return false;
        }
        k += 1;
    }
    assert(a.deep_view() =~= b.deep_view());
    true
}

} // verus!
