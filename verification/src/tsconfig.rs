//! The fields of a `tsconfig.json` that resolution consumes, and the
//! matching of specifiers against its `compilerOptions.paths` map.
//!
//! A `paths` map takes a bare specifier to an ordered list of candidate
//! substitutions, matched like `exports` keys: exact first, then single-`*`
//! patterns with the longest literal prefix winning. A `tsconfig.json` may
//! extend another configuration file; the chain is merged child-first
//! elsewhere, one file's fields being read here.

use vstd::prelude::*;

use crate::json::{spec_obj_get, JsonValue};
use crate::package_json::{
    best_pattern, spec_best_pattern, spec_star_replace, spec_str_field, star_replace,
};
use crate::strutil;

verus! {

broadcast use vstd::string::group_string_axioms;

/// The fields of one `tsconfig.json` file that resolution reads.
#[derive(PartialEq, Debug)]
pub struct TsConfigFile {
    /// The configuration this one extends, as written.
    pub extends: Option<String>,
    /// The base directory for `paths` substitutions, as written.
    pub base_url: Option<String>,
    /// The raw `compilerOptions.paths` map.
    pub paths: Option<JsonValue>,
}

/// The fields the JSON document `v` defines.
pub open spec fn spec_interpret_ts(v: JsonValue) -> TsConfigFile {
    match v {
        JsonValue::Object(entries) => TsConfigFile {
            extends: spec_str_field(spec_obj_get(entries@, "extends"@)),
            base_url: match spec_obj_get(entries@, "compilerOptions"@) {
                Some(JsonValue::Object(co)) => spec_str_field(spec_obj_get(co@, "baseUrl"@)),
                _ => None,
            },
            paths: match spec_obj_get(entries@, "compilerOptions"@) {
                Some(JsonValue::Object(co)) => spec_obj_get(co@, "paths"@),
                _ => None,
            },
        },
        _ => TsConfigFile { extends: None, base_url: None, paths: None },
    }
}

/// Accumulator state for a field while scanning members.
pub open spec fn ts_field_inv(
    acc: Option<Option<JsonValue>>,
    remaining: Seq<(String, JsonValue)>,
    orig: Seq<(String, JsonValue)>,
    key: Seq<char>,
) -> bool {
    match acc {
        Some(x) => x == spec_obj_get(orig, key),
        None => spec_obj_get(orig, key) == spec_obj_get(remaining, key),
    }
}

/// One step of a member lookup: the first member decides or the rest do.
proof fn lemma_ts_obj_get_unfold(pre: Seq<(String, JsonValue)>, key: Seq<char>)
    requires
        pre.len() > 0,
    ensures
        spec_obj_get(pre, key) == if pre.first().0@ == key {
            Some(pre.first().1)
        } else {
            spec_obj_get(pre.drop_first(), key)
        },
{
}

/// Pulls the first members named by the two keys out of an object.
fn extract_two(entries: Vec<(String, JsonValue)>, key_a: &str, key_b: &str) -> (r: (
    Option<JsonValue>,
    Option<JsonValue>,
))
    requires
        key_a@ != key_b@,
    ensures
        r.0 == spec_obj_get(entries@, key_a@),
        r.1 == spec_obj_get(entries@, key_b@),
{
    let mut entries = entries;
    let ghost orig = entries@;
    let mut a: Option<Option<JsonValue>> = None;
    let mut b: Option<Option<JsonValue>> = None;
    while entries.len() > 0
        invariant
            ts_field_inv(a, entries@, orig, key_a@),
            ts_field_inv(b, entries@, orig, key_b@),
            key_a@ != key_b@,
        decreases entries@.len(),
    {
        let ghost pre = entries@;
        let (k, val) = entries.remove(0);
        proof {
            assert(pre.first() == pre[0]);
            assert(entries@ =~= pre.drop_first());
            lemma_ts_obj_get_unfold(pre, key_a@);
            lemma_ts_obj_get_unfold(pre, key_b@);
        }
        if strutil::str_eq(k.as_str(), key_a) {
            if a.is_none() {
                a = Some(Some(val));
            }
        } else if strutil::str_eq(k.as_str(), key_b) {
            if b.is_none() {
                b = Some(Some(val));
            }
        }
    }
    proof {
        assert(spec_obj_get(entries@, key_a@) is None);
        assert(spec_obj_get(entries@, key_b@) is None);
    }
    let ra = match a {
        Some(x) => x,
        None => None,
    };
    let rb = match b {
        Some(x) => x,
        None => None,
    };
    (ra, rb)
}

/// Reads the resolution-relevant fields out of a parsed document.
pub fn interpret_ts(v: JsonValue) -> (r: TsConfigFile)
    ensures
        r == spec_interpret_ts(v),
{
    let ghost v0 = v;
    match v {
        JsonValue::Object(entries) => {
            let ghost e0 = entries;
            proof {
                assert(v0 == JsonValue::Object(e0));
                reveal_strlit("extends");
                reveal_strlit("compilerOptions");
                reveal_strlit("baseUrl");
                reveal_strlit("paths");
                assert("extends"@.len() == 7);
                assert("compilerOptions"@.len() == 15);
                assert("baseUrl"@.len() == 7);
                assert("paths"@.len() == 5);
                assert("extends"@[0] == 'e' && "baseUrl"@[0] == 'b');
            }
            let (ext, co) = extract_two(entries, "extends", "compilerOptions");
            let extends = match ext {
                Some(JsonValue::String(s)) => Some(s),
                _ => None,
            };
            let (base_url, paths) = match co {
                Some(JsonValue::Object(coe)) => {
                    let (bu, pa) = extract_two(coe, "baseUrl", "paths");
                    let bus = match bu {
                        Some(JsonValue::String(s)) => Some(s),
                        _ => None,
                    };
                    (bus, pa)
                },
                _ => (None, None),
            };
            TsConfigFile { extends, base_url, paths }
        },
        _ => TsConfigFile { extends: None, base_url: None, paths: None },
    }
}

/// The candidate strings a `paths` value contributes, in order, each `*`
/// replaced when a wildcard matched.
pub open spec fn spec_strings_sub(items: Seq<JsonValue>, star: Option<Seq<char>>) -> Seq<Seq<char>>
    decreases items.len(),
{
    if items.len() == 0 {
        Seq::empty()
    } else {
        (match items.first() {
            JsonValue::String(s) => match star {
                None => seq![s@],
                Some(st) => seq![spec_star_replace(s@, st)],
            },
            _ => Seq::empty(),
        }) + spec_strings_sub(items.drop_first(), star)
    }
}

/// The substitutions the `paths` map offers for `request`, in order: the
/// exact key's list, else the best matching pattern key's list with each
/// `*` replaced by the matched text; no match offers nothing.
pub open spec fn spec_paths_candidates(paths: JsonValue, request: Seq<char>) -> Seq<Seq<char>> {
    match paths {
        JsonValue::Object(entries) => match spec_obj_get(entries@, request) {
            Some(v) => match v {
                JsonValue::Array(items) => spec_strings_sub(items@, None),
                _ => Seq::empty(),
            },
            None => match spec_best_pattern(entries@, request) {
                Some(h) => match h.value {
                    JsonValue::Array(items) => spec_strings_sub(items@, Some(h.star)),
                    _ => Seq::empty(),
                },
                None => Seq::empty(),
            },
        },
        _ => Seq::empty(),
    }
}

/// Collects the string items of an array, substituting the wildcard match.
fn strings_sub(items: &Vec<JsonValue>, star: &Option<String>) -> (r: Vec<String>)
    ensures
        r.deep_view() == spec_strings_sub(items@, crate::package_json::spec_star_of(*star)),
{
    let ghost starv = crate::package_json::spec_star_of(*star);
    let mut r: Vec<String> = Vec::new();
    let mut i: usize = 0;
    assert(items@.skip(0) =~= items@);
    assert(r.deep_view() =~= Seq::<Seq<char>>::empty());
    while i < items.len()
        invariant
            i <= items@.len(),
            starv == crate::package_json::spec_star_of(*star),
            spec_strings_sub(items@, starv) == r.deep_view() + spec_strings_sub(
                items@.skip(i as int),
                starv,
            ),
        decreases items@.len() - i,
    {
        proof {
            assert(items@.skip(i as int).first() == items@[i as int]);
            assert(items@.skip(i as int).drop_first() =~= items@.skip(i as int + 1));
        }
        let ghost pre = r.deep_view();
        match &items[i] {
            JsonValue::String(s) => {
                match star {
                    None => {
                        let c = s.clone();
                        r.push(c);
                        assert(r.deep_view() =~= pre.push(items@[i as int]->String_0@));
                    },
                    Some(st) => {
                        let c = star_replace(s.as_str(), st.as_str());
                        r.push(c);
                        assert(r.deep_view() =~= pre.push(
                            spec_star_replace(items@[i as int]->String_0@, st@),
                        ));
                    },
                }
            },
            _ => {},
        }
        proof {
            assert(spec_strings_sub(items@, starv) =~= r.deep_view() + spec_strings_sub(
                items@.skip(i as int + 1),
                starv,
            ));
        }
        i += 1;
    }
    assert(items@.skip(items@.len() as int) =~= Seq::<JsonValue>::empty());
    assert(r.deep_view() =~= r.deep_view() + spec_strings_sub(
        items@.skip(items@.len() as int),
        starv,
    ));
    r
}

/// The substitutions to try for `request`, in order.
pub fn paths_candidates(paths: &JsonValue, request: &str) -> (r: Vec<String>)
    ensures
        r.deep_view() == spec_paths_candidates(*paths, request@),
{
    match paths {
        JsonValue::Object(entries) => {
            match crate::json::obj_get(entries, request) {
                Some(v) => match v {
                    JsonValue::Array(items) => {
                        let r = strings_sub(items, &None);
                        r
                    },
                    _ => {
                        let r: Vec<String> = Vec::new();
                        assert(r.deep_view() =~= Seq::<Seq<char>>::empty());
                        r
                    },
                },
                None => {
                    match best_pattern(entries, request) {
                        Some((i, star)) => {
                            match &entries[i].1 {
                                JsonValue::Array(items) => {
                                    let r = strings_sub(items, &Some(star));
                                    r
                                },
                                _ => {
                                    let r: Vec<String> = Vec::new();
                                    assert(r.deep_view() =~= Seq::<Seq<char>>::empty());
                                    r
                                },
                            }
                        },
                        None => {
                            let r: Vec<String> = Vec::new();
                            assert(r.deep_view() =~= Seq::<Seq<char>>::empty());
                            r
                        },
                    }
                },
            }
        },
        _ => {
            let r: Vec<String> = Vec::new();
            assert(r.deep_view() =~= Seq::<Seq<char>>::empty());
            r
        },
    }
}

} // verus!
