//! The per-epoch cache of filesystem facts.
//!
//! Within one cache epoch every fact — a path's kind, its canonical path,
//! the parsed `package.json` of a directory, the parsed `tsconfig.json` at a
//! path — is computed at most once per distinct path and memoized. The
//! cache's well-formedness ties every stored fact to the modelled
//! filesystem state, so a memoized answer is always the answer the
//! filesystem itself would give; entries are added and never mutated, and a
//! new build gets a fresh cache.

use vstd::prelude::*;

use crate::fs::{spec_kind, spec_read, spec_realpath, FileKind, FileSystem, FollowedEntry, FsModel,
    IoErrorKind, spec_follow, link_fuel};
use crate::json::{json_of, parse_json, JsonSyntaxError};
use crate::package_json::{interpret_pkg, spec_interpret_pkg, PackageJson};
use crate::paths;
use crate::tsconfig::{interpret_ts, spec_interpret_ts, TsConfigFile};

verus! {

/// What is known about the `package.json` of one directory.
#[derive(PartialEq, Debug)]
pub enum PkgFact {
    /// There is no `package.json` there.
    Missing,
    /// Reading it failed otherwise.
    Io(IoErrorKind),
    /// It is not valid JSON.
    Bad(JsonSyntaxError),
    /// Its parsed resolution-relevant fields.
    Pkg(PackageJson),
}

/// What is known about the `tsconfig.json` at one path.
#[derive(PartialEq, Debug)]
pub enum TsFact {
    Missing,
    Io(IoErrorKind),
    Bad(JsonSyntaxError),
    Ts(TsConfigFile),
}

/// The `package.json` fact of the directory `dir` in the filesystem `m`.
pub open spec fn spec_pkg_fact(m: FsModel, dir: Seq<Seq<char>>) -> PkgFact {
    match spec_read(m, dir.push("package.json"@)) {
        Err(IoErrorKind::NotFound) => PkgFact::Missing,
        Err(k) => PkgFact::Io(k),
        Ok(text) => match json_of(text) {
            Err(e) => PkgFact::Bad(e),
            Ok(v) => PkgFact::Pkg(spec_interpret_pkg(v)),
        },
    }
}

/// The `tsconfig.json` fact of the file `file` in the filesystem `m`.
pub open spec fn spec_ts_fact(m: FsModel, file: Seq<Seq<char>>) -> TsFact {
    match spec_read(m, file) {
        Err(IoErrorKind::NotFound) => TsFact::Missing,
        Err(k) => TsFact::Io(k),
        Ok(text) => match json_of(text) {
            Err(e) => TsFact::Bad(e),
            Ok(v) => TsFact::Ts(spec_interpret_ts(v)),
        },
    }
}

/// Memoized filesystem facts, each entry keyed by a component path.
pub struct PathCache {
    pub kinds: Vec<(Vec<String>, FileKind)>,
    pub realpaths: Vec<(Vec<String>, Vec<String>)>,
    pub packages: Vec<(Vec<String>, PkgFact)>,
    pub tsconfigs: Vec<(Vec<String>, TsFact)>,
}

impl PathCache {
    /// Every memoized fact is the fact the filesystem `m` gives.
    pub open spec fn wf(&self, m: FsModel) -> bool {
        &&& forall|i: int|
            0 <= i < self.kinds@.len() ==> #[trigger] self.kinds@[i].1 == spec_kind(
                m,
                self.kinds@[i].0.deep_view(),
            )
        &&& forall|i: int|
            0 <= i < self.realpaths@.len() ==> #[trigger] self.realpaths@[i].1.deep_view()
                == spec_realpath(m, self.realpaths@[i].0.deep_view())
        &&& forall|i: int|
            0 <= i < self.packages@.len() ==> #[trigger] self.packages@[i].1 == spec_pkg_fact(
                m,
                self.packages@[i].0.deep_view(),
            )
        &&& forall|i: int|
            0 <= i < self.tsconfigs@.len() ==> #[trigger] self.tsconfigs@[i].1 == spec_ts_fact(
                m,
                self.tsconfigs@[i].0.deep_view(),
            )
    }

    /// A fresh, empty cache: the start of a cache epoch.
    pub fn new() -> (r: PathCache)
        ensures
            forall|m: FsModel| r.wf(m),
    {
        PathCache {
            kinds: Vec::new(),
            realpaths: Vec::new(),
            packages: Vec::new(),
            tsconfigs: Vec::new(),
        }
    }

    /// The kind of `path`, memoized.
    pub fn kind_of<F: FileSystem>(&mut self, fs: &F, path: &Vec<String>) -> (k: FileKind)
        requires
            fs.wf(),
            old(self).wf(fs.model()),
        ensures
            final(self).wf(fs.model()),
            k == spec_kind(fs.model(), path.deep_view()),
    {
        let mut i: usize = 0;
        while i < self.kinds.len()
            invariant
                *self == *old(self),
                old(self).wf(fs.model()),
                i <= self.kinds@.len(),
            decreases self.kinds@.len() - i,
        {
            if paths::path_eq(&self.kinds[i].0, path) {
                return self.kinds[i].1;
            }
            i += 1;
        }
        let k = fs.kind(path);
        let key = path.clone();
        assert(key.deep_view() =~= path.deep_view());
        let ghost pre = self.kinds@;
        self.kinds.push((key, k));
        proof {
            assert forall|j: int|
                0 <= j < self.kinds@.len() implies #[trigger] self.kinds@[j].1 == spec_kind(
                fs.model(),
                self.kinds@[j].0.deep_view(),
            ) by {
                if j < pre.len() {
                    assert(pre[j].1 == spec_kind(fs.model(), pre[j].0.deep_view()));
                }
            }
        }
        k
    }

    /// The canonical path of `path`, memoized.
    pub fn realpath_of<F: FileSystem>(&mut self, fs: &F, path: &Vec<String>) -> (r: Vec<String>)
        requires
            fs.wf(),
            old(self).wf(fs.model()),
        ensures
            final(self).wf(fs.model()),
            r.deep_view() == spec_realpath(fs.model(), path.deep_view()),
    {
        let mut i: usize = 0;
        while i < self.realpaths.len()
            invariant
                *self == *old(self),
                old(self).wf(fs.model()),
                i <= self.realpaths@.len(),
            decreases self.realpaths@.len() - i,
        {
            if paths::path_eq(&self.realpaths[i].0, path) {
                let r = self.realpaths[i].1.clone();
                assert(r.deep_view() =~= self.realpaths@[i as int].1.deep_view());
                return r;
            }
            i += 1;
        }
        let r = compute_realpath(fs, path);
        let key = path.clone();
        assert(key.deep_view() =~= path.deep_view());
        let ghost pre = self.realpaths@;
        let stored = r.clone();
        assert(stored.deep_view() =~= r.deep_view());
        self.realpaths.push((key, stored));
        proof {
            assert forall|j: int|
                0 <= j < self.realpaths@.len() implies #[trigger] self.realpaths@[
                j].1.deep_view() == spec_realpath(fs.model(), self.realpaths@[j].0.deep_view())
            by {
                if j < pre.len() {
                    assert(pre[j].1.deep_view() == spec_realpath(
                        fs.model(),
                        pre[j].0.deep_view(),
                    ));
                }
            }
        }
        r
    }

    /// The `package.json` fact of the directory `dir`, memoized.
    pub fn package_in<'a, F: FileSystem>(&'a mut self, fs: &F, dir: &Vec<String>) -> (r: &'a PkgFact)
        requires
            fs.wf(),
            old(self).wf(fs.model()),
        ensures
            final(self).wf(fs.model()),
            *r == spec_pkg_fact(fs.model(), dir.deep_view()),
    {
        let mut i: usize = 0;
        while i < self.packages.len()
            invariant
                *self == *old(self),
                old(self).wf(fs.model()),
                i <= self.packages@.len(),
            decreases self.packages@.len() - i,
        {
            if paths::path_eq(&self.packages[i].0, dir) {
                return &self.packages[i].1;
            }
            i += 1;
        }
        let pj = paths::child(dir, "package.json");
        let fact = match fs.read_to_string(&pj) {
            Err(IoErrorKind::NotFound) => PkgFact::Missing,
            Err(k) => PkgFact::Io(k),
            Ok(text) => match parse_json(text.as_str()) {
                Err(e) => PkgFact::Bad(e),
                Ok(v) => PkgFact::Pkg(interpret_pkg(v)),
            },
        };
        let key = dir.clone();
        assert(key.deep_view() =~= dir.deep_view());
        let ghost pre = self.packages@;
        self.packages.push((key, fact));
        proof {
            assert forall|j: int|
                0 <= j < self.packages@.len() implies #[trigger] self.packages@[j].1
                == spec_pkg_fact(fs.model(), self.packages@[j].0.deep_view()) by {
                if j < pre.len() {
                    assert(pre[j].1 == spec_pkg_fact(fs.model(), pre[j].0.deep_view()));
                }
            }
        }
        let n = self.packages.len() - 1;
        &self.packages[n].1
    }

    /// The `tsconfig.json` fact at the path `file`, memoized.
    pub fn tsconfig_at<'a, F: FileSystem>(&'a mut self, fs: &F, file: &Vec<String>) -> (r: &'a TsFact)
        requires
            fs.wf(),
            old(self).wf(fs.model()),
        ensures
            final(self).wf(fs.model()),
            *r == spec_ts_fact(fs.model(), file.deep_view()),
    {
        let mut i: usize = 0;
        while i < self.tsconfigs.len()
            invariant
                *self == *old(self),
                old(self).wf(fs.model()),
                i <= self.tsconfigs@.len(),
            decreases self.tsconfigs@.len() - i,
        {
            if paths::path_eq(&self.tsconfigs[i].0, file) {
                return &self.tsconfigs[i].1;
            }
            i += 1;
        }
        let fact = match fs.read_to_string(file) {
            Err(IoErrorKind::NotFound) => TsFact::Missing,
            Err(k) => TsFact::Io(k),
            Ok(text) => match parse_json(text.as_str()) {
                Err(e) => TsFact::Bad(e),
                Ok(v) => TsFact::Ts(interpret_ts(v)),
            },
        };
        let key = file.clone();
        assert(key.deep_view() =~= file.deep_view());
        let ghost pre = self.tsconfigs@;
        self.tsconfigs.push((key, fact));
        proof {
            assert forall|j: int|
                0 <= j < self.tsconfigs@.len() implies #[trigger] self.tsconfigs@[j].1
                == spec_ts_fact(fs.model(), self.tsconfigs@[j].0.deep_view()) by {
                if j < pre.len() {
                    assert(pre[j].1 == spec_ts_fact(fs.model(), pre[j].0.deep_view()));
                }
            }
        }
        let n = self.tsconfigs.len() - 1;
        &self.tsconfigs[n].1
    }
}

/// Follows the chain of symbolic links at `path`, as [`spec_realpath`] does.
fn compute_realpath<F: FileSystem>(fs: &F, path: &Vec<String>) -> (r: Vec<String>)
    requires
        fs.wf(),
    ensures
        r.deep_view() == spec_realpath(fs.model(), path.deep_view()),
{
    let mut cur: Vec<String> = path.clone();
    let mut fuel: usize = 32;
    assert(cur.deep_view() =~= path.deep_view());
    assert(link_fuel() == 32);
    loop
        invariant
            fs.wf(),
            fuel <= 32,
            spec_follow(fs.model(), path.deep_view(), link_fuel()) == spec_follow(
                fs.model(),
                cur.deep_view(),
                fuel as nat,
            ),
        decreases fuel,
    {
        let k = fs.kind(&cur);
        if !k.is_symlink {
            if k.is_file || k.is_dir {
                proof {
                    lemma_follow_found(fs.model(), cur.deep_view(), fuel as nat);
                }
                return cur;
            } else {
                proof {
                    lemma_follow_missing(fs.model(), cur.deep_view(), fuel as nat);
                }
                let r = path.clone();
                assert(r.deep_view() =~= path.deep_view());
                return r;
            }
        }
        if fuel == 0 {
            let r = path.clone();
            assert(r.deep_view() =~= path.deep_view());
            return r;
        }
        match fs.read_link(&cur) {
            Ok(t) => {
                proof {
                    lemma_follow_link(fs.model(), cur.deep_view(), t.deep_view(), fuel as nat);
                }
                cur = t;
                fuel -= 1;
            },
            Err(_) => {
                // A link that was just classified cannot fail to be read in
                // the modelled filesystem; answer conservatively.
                let r = path.clone();
                assert(r.deep_view() =~= path.deep_view());
                assert(false);
                return r;
            },
        }
    }
}

/// A path whose kind has the file or directory flag and not the link flag
/// holds a non-link entry.
proof fn lemma_follow_found(m: FsModel, p: Seq<Seq<char>>, fuel: nat)
    requires
        !spec_kind(m, p).is_symlink,
        spec_kind(m, p).is_file || spec_kind(m, p).is_dir,
    ensures
        spec_follow(m, p, fuel) == (FollowedEntry::Found { path: p, entry: m[p] }),
{
}

/// A path with the empty kind is absent.
proof fn lemma_follow_missing(m: FsModel, p: Seq<Seq<char>>, fuel: nat)
    requires
        !spec_kind(m, p).is_symlink,
        !spec_kind(m, p).is_file,
        !spec_kind(m, p).is_dir,
    ensures
        spec_follow(m, p, fuel) == FollowedEntry::Missing,
{
}

/// Following a link steps to its target.
proof fn lemma_follow_link(m: FsModel, p: Seq<Seq<char>>, t: Seq<Seq<char>>, fuel: nat)
    requires
        spec_kind(m, p).is_symlink,
        crate::fs::spec_read_link(m, p) == Ok::<Seq<Seq<char>>, IoErrorKind>(t),
        fuel > 0,
    ensures
        spec_follow(m, p, fuel) == spec_follow(m, t, (fuel - 1) as nat),
{
}

} // verus!
