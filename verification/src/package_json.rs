//! The fields of a `package.json` that resolution consumes, and the
//! resolution of its `exports` map.
//!
//! The `exports` map is matched as Node.js does: an exact subpath key first,
//! then pattern keys with a single `*` wildcard where the longest literal
//! prefix wins; the value found is walked through nested condition objects,
//! taking the first member whose name is a recognized condition (or
//! `default`), until a `./`-relative target string is reached, whose `*`s are
//! replaced by the matched wildcard text. A package whose map does not cover
//! a requested subpath has opted into an export boundary, and the request
//! fails with [`PackageJsonError::PackagePathNotExported`].

use vstd::prelude::*;
use vstd::string::StrSliceExecFns;

use crate::error::PackageJsonError;
use crate::json::{spec_obj_get, JsonValue};
use crate::strutil;

verus! {

broadcast use vstd::string::group_string_axioms;

/// How deep nested condition objects are followed before the target is
/// treated as malformed.
pub open spec fn target_fuel() -> nat {
    32
}

/// `t` with every `*` replaced by `star`.
pub open spec fn spec_star_replace(t: Seq<char>, star: Seq<char>) -> Seq<char>
    decreases t.len(),
{
    if t.len() == 0 {
        t
    } else if t.first() == '*' {
        star + spec_star_replace(t.drop_first(), star)
    } else {
        seq![t.first()] + spec_star_replace(t.drop_first(), star)
    }
}

fn star_replace_from(t: &str, i: usize, star: &str) -> (r: String)
    requires
        i <= t@.len(),
    ensures
        r@ == spec_star_replace(t@.skip(i as int), star@),
    decreases t@.len() - i,
{
    let len = t.unicode_len();
    if i >= len {
        let r = String::new();
        assert(t@.skip(i as int) =~= Seq::<char>::empty());
        assert(r@ =~= spec_star_replace(t@.skip(i as int), star@));
        return r;
    }
    proof {
        assert(t@.skip(i as int).first() == t@[i as int]);
        assert(t@.skip(i as int).drop_first() =~= t@.skip(i as int + 1));
    }
    let c = t.get_char(i);
    let rest = star_replace_from(t, i + 1, star);
    if c == '*' {
        let r = strutil::concat_str(star, rest.as_str());
        r
    } else {
        let one = strutil::substring(t, i, i + 1);
        assert(one@ =~= seq![t@[i as int]]);
        let r = strutil::concat_str(one.as_str(), rest.as_str());
        r
    }
}

/// Replaces every `*` in `t` by `star`.
pub fn star_replace(t: &str, star: &str) -> (r: String)
    ensures
        r@ == spec_star_replace(t@, star@),
{
    let r = star_replace_from(t, 0, star);
    assert(t@.skip(0) =~= t@);
    r
}

/// What the single `*` of the pattern key `pat` matched in `request`, when
/// the pattern's literal prefix and suffix frame `request`.
pub open spec fn spec_pattern_match(pat: Seq<char>, request: Seq<char>) -> Option<Seq<char>> {
    match strutil::spec_find_char(pat, '*', 0) {
        None => None,
        Some(st) => {
            let prefix = pat.subrange(0, st);
            let suffix = pat.subrange(st + 1, pat.len() as int);
            if request.len() >= prefix.len() + suffix.len() && strutil::spec_starts_with(
                request,
                prefix,
            ) && strutil::spec_ends_with(request, suffix) {
                Some(request.subrange(prefix.len() as int, request.len() - suffix.len()))
            } else {
                None
            }
        },
    }
}

/// Matches `request` against the pattern key `pat`.
pub fn pattern_match(pat: &str, request: &str) -> (r: Option<String>)
    ensures
        match r {
            Some(star) => spec_pattern_match(pat@, request@) == Some(star@),
            None => spec_pattern_match(pat@, request@) is None,
        },
{
    let plen = pat.unicode_len();
    let rlen = request.unicode_len();
    match strutil::find_char(pat, '*', 0) {
        None => None,
        Some(st) => {
            proof {
                strutil::lemma_find_char_bounds(pat@, '*', 0);
            }
            let prefix = strutil::substring(pat, 0, st);
            let suffix = strutil::substring(pat, st + 1, plen);
            if rlen >= plen - 1 && strutil::starts_with(request, prefix.as_str())
                && strutil::ends_with(request, suffix.as_str()) {
                assert(request@.len() >= prefix@.len() + suffix@.len());
                let star = strutil::substring(request, st, rlen - (plen - 1 - st));
                assert(star@ == request@.subrange(
                    prefix@.len() as int,
                    request@.len() - suffix@.len(),
                ));
                Some(star)
            } else {
                assert(rlen >= plen - 1 <==> request@.len() >= prefix@.len() + suffix@.len());
                None
            }
        },
    }
}

/// A pattern key that matched: where its `*` sits, the member's value, and
/// what the `*` matched.
pub ghost struct PatternHit {
    pub prefix_len: int,
    pub value: JsonValue,
    pub star: Seq<char>,
}

/// The position of the `*` in a pattern key.
pub open spec fn spec_star_pos(pat: Seq<char>) -> int {
    match strutil::spec_find_char(pat, '*', 0) {
        Some(st) => st,
        None => -1,
    }
}

/// The matching pattern member with the longest literal prefix; among equals
/// the earliest wins.
pub open spec fn spec_best_pattern(entries: Seq<(String, JsonValue)>, request: Seq<char>) -> Option<
    PatternHit,
>
    decreases entries.len(),
{
    if entries.len() == 0 {
        None
    } else {
        let prev = spec_best_pattern(entries.drop_last(), request);
        match spec_pattern_match(entries.last().0@, request) {
            None => prev,
            Some(star) => {
                let plen = spec_star_pos(entries.last().0@);
                match prev {
                    Some(h) => if h.prefix_len >= plen {
                        prev
                    } else {
                        Some(PatternHit { prefix_len: plen, value: entries.last().1, star })
                    },
                    None => Some(PatternHit { prefix_len: plen, value: entries.last().1, star }),
                }
            },
        }
    }
}

/// Finds the best matching pattern member: its position and what `*` matched.
pub fn best_pattern(entries: &Vec<(String, JsonValue)>, request: &str) -> (r: Option<(
    usize,
    String,
)>)
    ensures
        match r {
            Some((i, star)) => i < entries@.len() && spec_best_pattern(entries@, request@)
                == Some(
                PatternHit {
                    prefix_len: spec_star_pos(entries@[i as int].0@),
                    value: entries@[i as int].1,
                    star: star@,
                },
            ),
            None => spec_best_pattern(entries@, request@) is None,
        },
{
    let mut best: Option<(usize, String)> = None;
    let mut best_len: usize = 0;
    let mut i: usize = 0;
    assert(entries@.take(0) =~= Seq::<(String, JsonValue)>::empty());
    while i < entries.len()
        invariant
            i <= entries@.len(),
            match best {
                Some((b, ref star)) => b < i && spec_best_pattern(entries@.take(i as int), request@)
                    == Some(
                    PatternHit {
                        prefix_len: spec_star_pos(entries@[b as int].0@),
                        value: entries@[b as int].1,
                        star: star@,
                    },
                ) && best_len == spec_star_pos(entries@[b as int].0@),
                None => spec_best_pattern(entries@.take(i as int), request@) is None,
            },
        decreases entries@.len() - i,
    {
        proof {
            assert(entries@.take(i as int + 1).drop_last() =~= entries@.take(i as int));
            assert(entries@.take(i as int + 1).last() == entries@[i as int]);
        }
        match pattern_match(entries[i].0.as_str(), request) {
            None => {},
            Some(star) => {
                proof {
                    strutil::lemma_find_char_bounds(entries@[i as int].0@, '*', 0);
                }
                let st = strutil::find_char(entries[i].0.as_str(), '*', 0).unwrap();
                match best {
                    Some(_) => {
                        if best_len < st {
                            best = Some((i, star));
                            best_len = st;
                        }
                    },
                    None => {
                        best = Some((i, star));
                        best_len = st;
                    },
                }
            },
        }
        i += 1;
    }
    assert(entries@.take(entries@.len() as int) =~= entries@);
    best
}

/// Whether `key` is `default` or one of the recognized conditions.
pub open spec fn spec_cond_matches(key: Seq<char>, conditions: Seq<Seq<char>>) -> bool {
    key == "default"@ || conditions.contains(key)
}

/// Tests a condition-object member name against the recognized conditions.
pub fn cond_matches(key: &str, conditions: &Vec<String>) -> (r: bool)
    ensures
        r == spec_cond_matches(key@, conditions.deep_view()),
{
    if strutil::str_eq(key, "default") {
        return true;
    }
    let mut i: usize = 0;
    while i < conditions.len()
        invariant
            i <= conditions@.len(),
            forall|j: int| 0 <= j < i ==> conditions@[j]@ != key@,
        decreases conditions@.len() - i,
    {
        proof {
            assert(conditions@[i as int].deep_view() == conditions.deep_view()[i as int]);
        }
        if strutil::str_eq(conditions[i].as_str(), key) {
            assert(conditions.deep_view()[i as int] == key@);
            return true;
        }
        i += 1;
    }
    assert forall|j: int| 0 <= j < conditions.deep_view().len() implies conditions.deep_view()[j]
        != key@ by {
        assert(conditions@[j].deep_view() == conditions.deep_view()[j]);
    }
    false
}

/// The target string an `exports` value yields: a string must be
/// `./`-relative (its `*`s replaced by the match), `null` blocks the path,
/// and an object is walked by [`spec_target_conds`].
pub open spec fn spec_resolve_target(
    v: JsonValue,
    star: Option<Seq<char>>,
    conditions: Seq<Seq<char>>,
    fuel: nat,
) -> Result<Seq<char>, PackageJsonError>
    decreases fuel, 0nat,
{
    match v {
        JsonValue::String(t) => if strutil::spec_starts_with(t@, "./"@) {
            match star {
                None => Ok(t@),
                Some(s) => Ok(spec_star_replace(t@, s)),
            }
        } else {
            Err(PackageJsonError::InvalidPackageTarget)
        },
        JsonValue::Null => Err(PackageJsonError::PackagePathNotExported),
        JsonValue::Object(entries) => if fuel == 0 {
            Err(PackageJsonError::InvalidPackageTarget)
        } else {
            spec_target_conds(entries@, star, conditions, (fuel - 1) as nat)
        },
        _ => Err(PackageJsonError::InvalidPackageTarget),
    }
}

/// The first member of a condition object whose name is recognized decides;
/// a condition object without a recognized member blocks the path.
pub open spec fn spec_target_conds(
    entries: Seq<(String, JsonValue)>,
    star: Option<Seq<char>>,
    conditions: Seq<Seq<char>>,
    fuel: nat,
) -> Result<Seq<char>, PackageJsonError>
    decreases fuel, entries.len() + 1,
{
    if entries.len() == 0 {
        Err(PackageJsonError::PackagePathNotExported)
    } else if spec_cond_matches(entries.first().0@, conditions) {
        spec_resolve_target(entries.first().1, star, conditions, fuel)
    } else {
        spec_target_conds(entries.drop_first(), star, conditions, fuel)
    }
}

/// Walks an `exports` value to its target string.
pub fn resolve_target(
    v: &JsonValue,
    star: &Option<String>,
    conditions: &Vec<String>,
    fuel: u32,
) -> (r: Result<String, PackageJsonError>)
    ensures
        match r {
            Ok(t) => spec_resolve_target(*v, spec_star_of(*star), conditions.deep_view(), fuel as nat)
                == Ok::<Seq<char>, PackageJsonError>(t@),
            Err(e) => spec_resolve_target(
                *v,
                spec_star_of(*star),
                conditions.deep_view(),
                fuel as nat,
            ) == Err::<Seq<char>, PackageJsonError>(e),
        },
    decreases fuel,
{
    match v {
        JsonValue::String(t) => {
            proof {
                reveal_strlit("./");
            }
            if strutil::starts_with(t.as_str(), "./") {
                match star {
                    None => Ok(t.clone()),
                    Some(s) => Ok(star_replace(t.as_str(), s.as_str())),
                }
            } else {
                Err(PackageJsonError::InvalidPackageTarget)
            }
        },
        JsonValue::Null => Err(PackageJsonError::PackagePathNotExported),
        JsonValue::Object(entries) => {
            if fuel == 0 {
                return Err(PackageJsonError::InvalidPackageTarget);
            }
            let ghost inner_fuel = (fuel - 1) as nat;
            proof {
                assert(spec_resolve_target(
                    *v,
                    spec_star_of(*star),
                    conditions.deep_view(),
                    fuel as nat,
                ) == spec_target_conds(
                    entries@,
                    spec_star_of(*star),
                    conditions.deep_view(),
                    inner_fuel,
                ));
            }
            let mut i: usize = 0;
            assert(entries@.skip(0) =~= entries@);
            while i < entries.len()
                invariant
                    i <= entries@.len(),
                    fuel >= 1,
                    inner_fuel == (fuel - 1) as nat,
                    spec_resolve_target(
                        *v,
                        spec_star_of(*star),
                        conditions.deep_view(),
                        fuel as nat,
                    ) == spec_target_conds(
                        entries@,
                        spec_star_of(*star),
                        conditions.deep_view(),
                        inner_fuel,
                    ),
                    spec_target_conds(
                        entries@,
                        spec_star_of(*star),
                        conditions.deep_view(),
                        inner_fuel,
                    ) == spec_target_conds(
                        entries@.skip(i as int),
                        spec_star_of(*star),
                        conditions.deep_view(),
                        inner_fuel,
                    ),
                decreases entries@.len() - i,
            {
                proof {
                    assert(entries@.skip(i as int).first() == entries@[i as int]);
                    assert(entries@.skip(i as int).drop_first() =~= entries@.skip(i as int + 1));
                }
                if cond_matches(entries[i].0.as_str(), conditions) {
                    proof {
                        assert(spec_target_conds(
                            entries@.skip(i as int),
                            spec_star_of(*star),
                            conditions.deep_view(),
                            inner_fuel,
                        ) == spec_resolve_target(
                            entries@[i as int].1,
                            spec_star_of(*star),
                            conditions.deep_view(),
                            inner_fuel,
                        ));
                    }
                    return resolve_target(&entries[i].1, star, conditions, fuel - 1);
                }
                i += 1;
            }
            assert(entries@.skip(entries@.len() as int) =~= Seq::<(String, JsonValue)>::empty());
            Err(PackageJsonError::PackagePathNotExported)
        },
        _ => Err(PackageJsonError::InvalidPackageTarget),
    }
}

/// The modelled wildcard match held by an `Option<String>`.
pub open spec fn spec_star_of(star: Option<String>) -> Option<Seq<char>> {
    match star {
        None => None,
        Some(s) => Some(s@),
    }
}

/// Whether the map's first key starts with `.`: such a map lists subpaths,
/// any other shape describes the package root alone.
pub open spec fn spec_first_key_dot(entries: Seq<(String, JsonValue)>) -> bool {
    entries.len() > 0 && entries[0].0@.len() > 0 && entries[0].0@[0] == '.'
}

/// The relative target the `exports` value of a package yields for the
/// subpath key `subkey` (`.` or `./<subpath>`) under `conditions`.
pub open spec fn spec_resolve_exports(
    exports: JsonValue,
    subkey: Seq<char>,
    conditions: Seq<Seq<char>>,
) -> Result<Seq<char>, PackageJsonError> {
    match exports {
        JsonValue::Object(entries) => if spec_first_key_dot(entries@) {
            match spec_obj_get(entries@, subkey) {
                Some(v) => spec_resolve_target(v, None, conditions, target_fuel()),
                None => match spec_best_pattern(entries@, subkey) {
                    Some(h) => spec_resolve_target(
                        h.value,
                        Some(h.star),
                        conditions,
                        target_fuel(),
                    ),
                    None => Err(PackageJsonError::PackagePathNotExported),
                },
            }
        } else {
            if subkey == "."@ {
                spec_resolve_target(exports, None, conditions, target_fuel())
            } else {
                Err(PackageJsonError::PackagePathNotExported)
            }
        },
        _ => if subkey == "."@ {
            spec_resolve_target(exports, None, conditions, target_fuel())
        } else {
            Err(PackageJsonError::PackagePathNotExported)
        },
    }
}

/// Resolves `subkey` through a package's `exports` value.
pub fn resolve_exports(exports: &JsonValue, subkey: &str, conditions: &Vec<String>) -> (r: Result<
    String,
    PackageJsonError,
>)
    ensures
        match r {
            Ok(t) => spec_resolve_exports(*exports, subkey@, conditions.deep_view()) == Ok::<
                Seq<char>,
                PackageJsonError,
            >(t@),
            Err(e) => spec_resolve_exports(*exports, subkey@, conditions.deep_view()) == Err::<
                Seq<char>,
                PackageJsonError,
            >(e),
        },
{
    assert(target_fuel() == 32);
    match exports {
        JsonValue::Object(entries) => {
            let first_dot = if entries.len() > 0 {
                let k = entries[0].0.as_str();
                k.unicode_len() > 0 && k.get_char(0) == '.'
            } else {
                false
            };
            if first_dot {
                match crate::json::obj_get(entries, subkey) {
                    Some(v) => resolve_target(v, &None, conditions, 32),
                    None => {
                        match best_pattern(entries, subkey) {
                            Some((i, star)) => resolve_target(
                                &entries[i].1,
                                &Some(star),
                                conditions,
                                32,
                            ),
                            None => Err(PackageJsonError::PackagePathNotExported),
                        }
                    },
                }
            } else {
                proof {
                    reveal_strlit(".");
                }
                if strutil::str_eq(subkey, ".") {
                    resolve_target(exports, &None, conditions, 32)
                } else {
                    Err(PackageJsonError::PackagePathNotExported)
                }
            }
        },
        _ => {
            proof {
                reveal_strlit(".");
            }
            if strutil::str_eq(subkey, ".") {
                resolve_target(exports, &None, conditions, 32)
            } else {
                Err(PackageJsonError::PackagePathNotExported)
            }
        },
    }
}

/// The subpath key a request maps to in an `exports` map: `.` for the
/// package root, `./<subpath>` otherwise.
pub open spec fn spec_exports_key(subpath: Seq<char>) -> Seq<char> {
    if subpath.len() == 0 {
        "."@
    } else {
        "./"@ + subpath
    }
}

/// Builds the subpath key for a request.
pub fn exports_key(subpath: &str) -> (r: String)
    ensures
        r@ == spec_exports_key(subpath@),
{
    if subpath.unicode_len() == 0 {
        ".".to_owned()
    } else {
        strutil::concat_str("./", subpath)
    }
}

/// The fields of a `package.json` that resolution reads. A field whose first
/// member in the document does not have the expected shape counts as absent.
#[derive(PartialEq, Debug)]
pub struct PackageJson {
    pub name: Option<String>,
    pub version: Option<String>,
    pub main: Option<String>,
    pub module: Option<String>,
    pub browser: Option<JsonValue>,
    pub exports: Option<JsonValue>,
}

/// The string a member value contributes to a string-typed field.
pub open spec fn spec_str_field(v: Option<JsonValue>) -> Option<String> {
    match v {
        Some(JsonValue::String(s)) => Some(s),
        _ => None,
    }
}

/// The fields the JSON document `v` defines.
pub open spec fn spec_interpret_pkg(v: JsonValue) -> PackageJson {
    match v {
        JsonValue::Object(entries) => PackageJson {
            name: spec_str_field(spec_obj_get(entries@, "name"@)),
            version: spec_str_field(spec_obj_get(entries@, "version"@)),
            main: spec_str_field(spec_obj_get(entries@, "main"@)),
            module: spec_str_field(spec_obj_get(entries@, "module"@)),
            browser: spec_obj_get(entries@, "browser"@),
            exports: spec_obj_get(entries@, "exports"@),
        },
        _ => PackageJson {
            name: None,
            version: None,
            main: None,
            module: None,
            browser: None,
            exports: None,
        },
    }
}

/// Reads the resolution-relevant fields out of a parsed document.
pub fn interpret_pkg(v: JsonValue) -> (r: PackageJson)
    ensures
        r == spec_interpret_pkg(v),
{
    let ghost v0 = v;
    match v {
        JsonValue::Object(mut entries) => {
            let ghost e0 = entries;
            let ghost orig = entries@;
            proof {
                assert(v0 == JsonValue::Object(e0));
            }
            let mut name: Option<Option<String>> = None;
            let mut version: Option<Option<String>> = None;
            let mut main: Option<Option<String>> = None;
            let mut module: Option<Option<String>> = None;
            let mut browser: Option<Option<JsonValue>> = None;
            let mut exports: Option<Option<JsonValue>> = None;
            while entries.len() > 0
                invariant
                    field_inv_str(name, entries@, orig, "name"@),
                    field_inv_str(version, entries@, orig, "version"@),
                    field_inv_str(main, entries@, orig, "main"@),
                    field_inv_str(module, entries@, orig, "module"@),
                    field_inv_val(browser, entries@, orig, "browser"@),
                    field_inv_val(exports, entries@, orig, "exports"@),
                decreases entries@.len(),
            {
                let ghost pre = entries@;
                let (k, val) = entries.remove(0);
                proof {
                    reveal_strlit("name");
                    reveal_strlit("version");
                    reveal_strlit("main");
                    reveal_strlit("module");
                    reveal_strlit("browser");
                    reveal_strlit("exports");
                    assert("name"@[0] == 'n' && "name"@.len() == 4);
                    assert("version"@[0] == 'v' && "version"@.len() == 7);
                    assert("main"@[0] == 'm' && "main"@.len() == 4);
                    assert("module"@[0] == 'm' && "module"@.len() == 6);
                    assert("browser"@[0] == 'b' && "browser"@.len() == 7);
                    assert("exports"@[0] == 'e' && "exports"@.len() == 7);
                    assert(pre.first() == pre[0]);
                    assert(entries@ =~= pre.drop_first());
                    lemma_obj_get_unfold(pre, "name"@);
                    lemma_obj_get_unfold(pre, "version"@);
                    lemma_obj_get_unfold(pre, "main"@);
                    lemma_obj_get_unfold(pre, "module"@);
                    lemma_obj_get_unfold(pre, "browser"@);
                    lemma_obj_get_unfold(pre, "exports"@);
                }
                if strutil::str_eq(k.as_str(), "name") {
                    if name.is_none() {
                        name = Some(str_field_of(val));
                    }
                } else if strutil::str_eq(k.as_str(), "version") {
                    if version.is_none() {
                        version = Some(str_field_of(val));
                    }
                } else if strutil::str_eq(k.as_str(), "main") {
                    if main.is_none() {
                        main = Some(str_field_of(val));
                    }
                } else if strutil::str_eq(k.as_str(), "module") {
                    if module.is_none() {
                        module = Some(str_field_of(val));
                    }
                } else if strutil::str_eq(k.as_str(), "browser") {
                    if browser.is_none() {
                        browser = Some(Some(val));
                    }
                } else if strutil::str_eq(k.as_str(), "exports") {
                    if exports.is_none() {
                        exports = Some(Some(val));
                    }
                }
            }
            proof {
                assert(entries@.len() == 0);
                assert(spec_obj_get(entries@, "name"@) is None);
                assert(spec_obj_get(entries@, "version"@) is None);
                assert(spec_obj_get(entries@, "main"@) is None);
                assert(spec_obj_get(entries@, "module"@) is None);
                assert(spec_obj_get(entries@, "browser"@) is None);
                assert(spec_obj_get(entries@, "exports"@) is None);
            }
            let r = PackageJson {
                name: flatten_str(name),
                version: flatten_str(version),
                main: flatten_str(main),
                module: flatten_str(module),
                browser: flatten_val(browser),
                exports: flatten_val(exports),
            };
            r
        },
        _ => PackageJson {
            name: None,
            version: None,
            main: None,
            module: None,
            browser: None,
            exports: None,
        },
    }
}

/// Accumulator state for a string-typed field while scanning members.
pub open spec fn field_inv_str(
    acc: Option<Option<String>>,
    remaining: Seq<(String, JsonValue)>,
    orig: Seq<(String, JsonValue)>,
    key: Seq<char>,
) -> bool {
    match acc {
        Some(x) => x == spec_str_field(spec_obj_get(orig, key)),
        None => spec_obj_get(orig, key) == spec_obj_get(remaining, key),
    }
}

/// Accumulator state for a value-typed field while scanning members.
pub open spec fn field_inv_val(
    acc: Option<Option<JsonValue>>,
    remaining: Seq<(String, JsonValue)>,
    orig: Seq<(String, JsonValue)>,
    key: Seq<char>,
) -> bool {
    match acc {
        Some(x) => x == spec_obj_get(orig, key),
        None => spec_obj_get(orig, key) == spec_obj_get(remaining, key),
    }
}

/// One step of a member lookup: the first member decides or the rest do.
proof fn lemma_obj_get_unfold(pre: Seq<(String, JsonValue)>, key: Seq<char>)
    requires
        pre.len() > 0,
    ensures
        spec_obj_get(pre, key) == if pre.first().0@ == key {
            Some(pre.first().1)
        } else {
            spec_obj_get(pre.drop_first(), key)
        },
{
}

fn str_field_of(v: JsonValue) -> (r: Option<String>)
    ensures
        r == spec_str_field(Some(v)),
{
    match v {
        JsonValue::String(s) => Some(s),
        _ => None,
    }
}

fn flatten_str(acc: Option<Option<String>>) -> (r: Option<String>)
    ensures
        r == (match acc {
            Some(x) => x,
            None => None::<String>,
        }),
{
    match acc {
        Some(x) => x,
        None => None,
    }
}

fn flatten_val(acc: Option<Option<JsonValue>>) -> (r: Option<JsonValue>)
    ensures
        r == (match acc {
            Some(x) => x,
            None => None::<JsonValue>,
        }),
{
    match acc {
        Some(x) => x,
        None => None,
    }
}


} // verus!
