//! The resolution algorithm.
//!
//! `resolve` takes a raw specifier, the path of the file that holds it and a
//! resolution mode, and finds the file the specifier names: relative and
//! absolute paths against the referencing file's directory with extension
//! and `index.*` probing, bare names through tsconfig path mappings and the
//! `node_modules` directories of every ancestor, package roots through
//! `exports` maps, entry fields and the browser field, and the final file
//! through its chain of symbolic links. Every result — success or typed
//! error — and the full invalidation record are pinned to [`spec_resolve`],
//! a function of the modelled filesystem, the configuration and the inputs
//! alone; repeated calls therefore return identical results and record
//! identical invalidation sets.
//!
//! Recursion into the resolver from a tsconfig `extends` chain is bounded:
//! a chain deeper than the fuel (a circular `extends` among them) ends in
//! [`crate::error::ResolverError::TsConfigExtendsNotFound`].

use vstd::prelude::*;
use vstd::string::StrSliceExecFns;

use crate::cache::{spec_pkg_fact, spec_ts_fact, PathCache, PkgFact, TsFact};
use crate::error::{ErrorModel, JsonError, JsonErrorModel, ResolverError};
use crate::fs::{spec_kind, spec_read, spec_realpath, FileSystem, FsModel, IoErrorKind};
use crate::invalidations::{
    inv_change1, inv_create1, lemma_union_assoc, lemma_union_empty, lemma_with_change_union,
    lemma_with_create_union, CreateInvModel, FileCreateInvalidation, InvModel, Invalidations,
};
use crate::json::{JsonSyntaxError, JsonValue};
use crate::package_json::{
    resolve_exports, spec_exports_key, spec_resolve_exports, exports_key, PackageJson,
};
use crate::paths;
use crate::specifier::{parse_specifier, spec_parse_specifier, Specifier, SpecifierModel};
use crate::strutil;
use crate::tsconfig::{paths_candidates, spec_paths_candidates, TsConfigFile};
use crate::error::IOError;

verus! {

broadcast use vstd::string::group_string_axioms;

/// How deep tsconfig `extends` chains may re-enter the resolver.
pub open spec fn resolve_fuel() -> nat {
    8
}

/// Whether the resolution site is an ECMAScript `import` or a CommonJS
/// `require`: decides the entry-field order and the `exports` condition.
#[derive(Clone, Copy, PartialEq, Eq, Structural, Debug)]
pub enum ResolutionMode {
    Esm,
    Cjs,
}

/// Resolver configuration: the ordered extension-probe list, the extra
/// `exports` conditions, and whether the build targets a browser.
pub struct ResolverConfig {
    /// Extensions probed in order, each with its leading dot.
    pub extensions: Vec<String>,
    /// Extra conditions recognized in `exports` maps, in order.
    pub conditions: Vec<String>,
    /// Whether the browser field and the `browser` condition apply.
    pub browser: bool,
}

/// The modelled form of a [`ResolverConfig`].
pub ghost struct ConfigModel {
    pub extensions: Seq<Seq<char>>,
    pub conditions: Seq<Seq<char>>,
    pub browser: bool,
}

impl ResolverConfig {
    pub open spec fn model(&self) -> ConfigModel {
        ConfigModel {
            extensions: self.extensions.deep_view(),
            conditions: self.conditions.deep_view(),
            browser: self.browser,
        }
    }
}

/// What a resolution found.
#[derive(PartialEq, Debug)]
pub enum ResolvedModule {
    /// A file, canonical after following symbolic links, with the name and
    /// version of the package it came from when a bare specifier led there.
    Path { path: Vec<String>, package: Option<String>, version: Option<String> },
    /// A module the runtime provides.
    Builtin { name: String },
}

/// The modelled form of a [`ResolvedModule`].
pub ghost enum ResolutionModel {
    Path { path: Seq<Seq<char>>, package: Option<Seq<char>>, version: Option<Seq<char>> },
    Builtin { name: Seq<char> },
}

impl ResolvedModule {
    pub open spec fn model(&self) -> ResolutionModel {
        match self {
            ResolvedModule::Path { path, package, version } => ResolutionModel::Path {
                path: path.deep_view(),
                package: spec_opt_view(*package),
                version: spec_opt_view(*version),
            },
            ResolvedModule::Builtin { name } => ResolutionModel::Builtin { name: name@ },
        }
    }
}

/// The modelled form of a resolution's return value.
pub open spec fn res_model(r: Result<ResolvedModule, ResolverError>) -> Result<
    ResolutionModel,
    ErrorModel,
> {
    match r {
        Ok(x) => Ok(x.model()),
        Err(e) => Err(e.model()),
    }
}

/// The characters an optional string holds.
pub open spec fn spec_opt_view(o: Option<String>) -> Option<Seq<char>> {
    match o {
        Some(s) => Some(s@),
        None => None,
    }
}

/// The module a found file denotes: its canonical path after following the
/// chain of symbolic links, so files reached through different links share
/// one identity.
pub open spec fn spec_found(
    m: FsModel,
    path: Seq<Seq<char>>,
    package: Option<Seq<char>>,
    version: Option<Seq<char>>,
) -> ResolutionModel {
    ResolutionModel::Path { path: spec_realpath(m, path), package, version }
}

/// A resolution outcome: the result and the invalidations it recorded.
pub ghost struct ResolveOutcome {
    pub result: Result<ResolutionModel, ErrorModel>,
    pub inv: InvModel,
}

/// How an attempt to load one path ended.
pub ghost enum LoadStatus {
    Found { path: Seq<Seq<char>> },
    NotFound,
    Failed { err: ErrorModel },
}

/// A load attempt's outcome: its status and the invalidations it recorded.
pub ghost struct LoadOutcome {
    pub status: LoadStatus,
    pub inv: InvModel,
}

/// How an executable load attempt ended.
pub enum Loaded {
    Found(Vec<String>),
    NotFound,
    Failed(ResolverError),
}

impl Loaded {
    pub open spec fn model(&self) -> LoadStatus {
        match self {
            Loaded::Found(p) => LoadStatus::Found { path: p.deep_view() },
            Loaded::NotFound => LoadStatus::NotFound,
            Loaded::Failed(e) => LoadStatus::Failed { err: e.model() },
        }
    }
}

// ---------------------------------------------------------------------------
// Probing single paths
// ---------------------------------------------------------------------------

/// Probes `p` for a file: a hit records that the file's content was relied
/// on, a wholly absent path records that its creation would matter, and a
/// path occupied by something else records nothing.
pub open spec fn spec_probe_file(m: FsModel, p: Seq<Seq<char>>) -> (bool, InvModel) {
    let k = spec_kind(m, p);
    if k.is_file {
        (true, inv_change1(p))
    } else if !k.is_dir && !k.is_symlink {
        (false, inv_create1(CreateInvModel::Path { path: p }))
    } else {
        (false, InvModel::empty())
    }
}

/// Probes `p` for a directory, with the same recording discipline.
pub open spec fn spec_probe_dir(m: FsModel, p: Seq<Seq<char>>) -> (bool, InvModel) {
    let k = spec_kind(m, p);
    if k.is_dir {
        (true, InvModel::empty())
    } else if !k.is_file && !k.is_symlink {
        (false, inv_create1(CreateInvModel::Path { path: p }))
    } else {
        (false, InvModel::empty())
    }
}

fn probe_file<F: FileSystem>(
    fs: &F,
    cache: &mut PathCache,
    inv: &mut Invalidations,
    p: &Vec<String>,
) -> (b: bool)
    requires
        fs.wf(),
        old(cache).wf(fs.model()),
    ensures
        final(cache).wf(fs.model()),
        b == spec_probe_file(fs.model(), p.deep_view()).0,
        final(inv).model() == old(inv).model().union(spec_probe_file(fs.model(), p.deep_view()).1),
{
    let k = cache.kind_of(fs, p);
    if k.is_file {
        inv.invalidate_on_file_change(p);
        proof {
            lemma_with_change_union(old(inv).model(), p.deep_view());
        }
        true
    } else if !k.is_dir && !k.is_symlink {
        inv.invalidate_on_file_create(p);
        proof {
            lemma_with_create_union(
                old(inv).model(),
                CreateInvModel::Path { path: p.deep_view() },
            );
        }
        false
    } else {
        proof {
            lemma_union_empty(old(inv).model());
        }
        false
    }
}

fn probe_dir<F: FileSystem>(
    fs: &F,
    cache: &mut PathCache,
    inv: &mut Invalidations,
    p: &Vec<String>,
) -> (b: bool)
    requires
        fs.wf(),
        old(cache).wf(fs.model()),
    ensures
        final(cache).wf(fs.model()),
        b == spec_probe_dir(fs.model(), p.deep_view()).0,
        final(inv).model() == old(inv).model().union(spec_probe_dir(fs.model(), p.deep_view()).1),
{
    let k = cache.kind_of(fs, p);
    if k.is_dir {
        proof {
            lemma_union_empty(old(inv).model());
        }
        true
    } else if !k.is_file && !k.is_symlink {
        inv.invalidate_on_file_create(p);
        proof {
            lemma_with_create_union(
                old(inv).model(),
                CreateInvModel::Path { path: p.deep_view() },
            );
        }
        false
    } else {
        proof {
            lemma_union_empty(old(inv).model());
        }
        false
    }
}

// ---------------------------------------------------------------------------
// Loading a path as a file, with extension and index probing
// ---------------------------------------------------------------------------

/// The path with `ext` appended to its last component.
pub open spec fn spec_ext_path(p: Seq<Seq<char>>, ext: Seq<char>) -> Seq<Seq<char>> {
    if p.len() == 0 {
        p
    } else {
        p.drop_last().push(p.last() + ext)
    }
}

fn ext_path(p: &Vec<String>, ext: &str) -> (r: Vec<String>)
    ensures
        r.deep_view() == spec_ext_path(p.deep_view(), ext@),
{
    if p.len() == 0 {
        let r = p.clone();
        assert(r.deep_view() =~= p.deep_view());
        return r;
    }
    let mut r = p.clone();
    assert(r.deep_view() =~= p.deep_view());
    let ghost pre = r.deep_view();
    let last = r.pop().unwrap();
    assert(r.deep_view() =~= pre.drop_last());
    let with_ext = strutil::concat_str(last.as_str(), ext);
    r.push(with_ext);
    assert(r.deep_view() =~= pre.drop_last().push(pre.last() + ext@));
    r
}

/// Probes the extension candidates of `p` from position `i` on.
pub open spec fn spec_load_exts(m: FsModel, c: ConfigModel, p: Seq<Seq<char>>, i: int) -> LoadOutcome
    decreases c.extensions.len() - i,
{
    if i < 0 || i >= c.extensions.len() {
        LoadOutcome { status: LoadStatus::NotFound, inv: InvModel::empty() }
    } else {
        let t = spec_ext_path(p, c.extensions[i]);
        let pr = spec_probe_file(m, t);
        if pr.0 {
            LoadOutcome { status: LoadStatus::Found { path: t }, inv: pr.1 }
        } else {
            let rest = spec_load_exts(m, c, p, i + 1);
            LoadOutcome { status: rest.status, inv: pr.1.union(rest.inv) }
        }
    }
}

fn load_exts<F: FileSystem>(
    fs: &F,
    cache: &mut PathCache,
    cfg: &ResolverConfig,
    inv: &mut Invalidations,
    p: &Vec<String>,
    i: usize,
) -> (r: Loaded)
    requires
        fs.wf(),
        old(cache).wf(fs.model()),
    ensures
        final(cache).wf(fs.model()),
        r.model() == spec_load_exts(fs.model(), cfg.model(), p.deep_view(), i as int).status,
        final(inv).model() == old(inv).model().union(
            spec_load_exts(fs.model(), cfg.model(), p.deep_view(), i as int).inv,
        ),
    decreases cfg.extensions@.len() - i,
{
    if i >= cfg.extensions.len() {
        proof {
            lemma_union_empty(old(inv).model());
        }
        return Loaded::NotFound;
    }
    proof {
        assert(cfg.extensions@[i as int].deep_view() == cfg.model().extensions[i as int]);
    }
    let t = ext_path(p, cfg.extensions[i].as_str());
    let ghost pr = spec_probe_file(fs.model(), t.deep_view());
    if probe_file(fs, cache, inv, &t) {
        return Loaded::Found(t);
    }
    let ghost mid = inv.model();
    let r = load_exts(fs, cache, cfg, inv, p, i + 1);
    proof {
        lemma_union_assoc(
            old(inv).model(),
            pr.1,
            spec_load_exts(fs.model(), cfg.model(), p.deep_view(), i as int + 1).inv,
        );
    }
    r
}

/// Loads `p` as a file: the exact path first, then each extension.
pub open spec fn spec_load_file(m: FsModel, c: ConfigModel, p: Seq<Seq<char>>) -> LoadOutcome {
    let pr = spec_probe_file(m, p);
    if pr.0 {
        LoadOutcome { status: LoadStatus::Found { path: p }, inv: pr.1 }
    } else {
        let rest = spec_load_exts(m, c, p, 0);
        LoadOutcome { status: rest.status, inv: pr.1.union(rest.inv) }
    }
}

fn load_file<F: FileSystem>(
    fs: &F,
    cache: &mut PathCache,
    cfg: &ResolverConfig,
    inv: &mut Invalidations,
    p: &Vec<String>,
) -> (r: Loaded)
    requires
        fs.wf(),
        old(cache).wf(fs.model()),
    ensures
        final(cache).wf(fs.model()),
        r.model() == spec_load_file(fs.model(), cfg.model(), p.deep_view()).status,
        final(inv).model() == old(inv).model().union(
            spec_load_file(fs.model(), cfg.model(), p.deep_view()).inv,
        ),
{
    let ghost pr = spec_probe_file(fs.model(), p.deep_view());
    if probe_file(fs, cache, inv, p) {
        let r = p.clone();
        assert(r.deep_view() =~= p.deep_view());
        return Loaded::Found(r);
    }
    let r = load_exts(fs, cache, cfg, inv, p, 0);
    proof {
        lemma_union_assoc(
            old(inv).model(),
            pr.1,
            spec_load_exts(fs.model(), cfg.model(), p.deep_view(), 0).inv,
        );
    }
    r
}

/// The `index` file candidate of `dir` for one extension.
pub open spec fn spec_index_path(dir: Seq<Seq<char>>, ext: Seq<char>) -> Seq<Seq<char>> {
    dir.push("index"@ + ext)
}

/// Probes `index.*` inside `dir` from extension `i` on.
pub open spec fn spec_load_index(m: FsModel, c: ConfigModel, dir: Seq<Seq<char>>, i: int) -> LoadOutcome
    decreases c.extensions.len() - i,
{
    if i < 0 || i >= c.extensions.len() {
        LoadOutcome { status: LoadStatus::NotFound, inv: InvModel::empty() }
    } else {
        let t = spec_index_path(dir, c.extensions[i]);
        let pr = spec_probe_file(m, t);
        if pr.0 {
            LoadOutcome { status: LoadStatus::Found { path: t }, inv: pr.1 }
        } else {
            let rest = spec_load_index(m, c, dir, i + 1);
            LoadOutcome { status: rest.status, inv: pr.1.union(rest.inv) }
        }
    }
}

fn load_index<F: FileSystem>(
    fs: &F,
    cache: &mut PathCache,
    cfg: &ResolverConfig,
    inv: &mut Invalidations,
    dir: &Vec<String>,
    i: usize,
) -> (r: Loaded)
    requires
        fs.wf(),
        old(cache).wf(fs.model()),
    ensures
        final(cache).wf(fs.model()),
        r.model() == spec_load_index(fs.model(), cfg.model(), dir.deep_view(), i as int).status,
        final(inv).model() == old(inv).model().union(
            spec_load_index(fs.model(), cfg.model(), dir.deep_view(), i as int).inv,
        ),
    decreases cfg.extensions@.len() - i,
{
    if i >= cfg.extensions.len() {
        proof {
            lemma_union_empty(old(inv).model());
        }
        return Loaded::NotFound;
    }
    proof {
        assert(cfg.extensions@[i as int].deep_view() == cfg.model().extensions[i as int]);
    }
    let name = strutil::concat_str("index", cfg.extensions[i].as_str());
    let t = paths::child(dir, name.as_str());
    proof {
        reveal_strlit("index");
        assert(t.deep_view() =~= spec_index_path(dir.deep_view(), cfg.model().extensions[i as int]));
    }
    let ghost pr = spec_probe_file(fs.model(), t.deep_view());
    if probe_file(fs, cache, inv, &t) {
        return Loaded::Found(t);
    }
    let r = load_index(fs, cache, cfg, inv, dir, i + 1);
    proof {
        lemma_union_assoc(
            old(inv).model(),
            pr.1,
            spec_load_index(fs.model(), cfg.model(), dir.deep_view(), i as int + 1).inv,
        );
    }
    r
}

// ---------------------------------------------------------------------------
// Directories: package.json entry fields and index probing
// ---------------------------------------------------------------------------

/// The entry field that applies: the browser field (as a string) when the
/// build targets a browser, then `module` before `main` for `import` sites
/// and `main` before `module` for `require` sites.
pub open spec fn spec_entry_field(c: ConfigModel, mode: ResolutionMode, pkg: PackageJson) -> Option<
    (Seq<char>, String),
> {
    if c.browser && pkg.browser matches Some(JsonValue::String(_)) {
        match pkg.browser {
            Some(JsonValue::String(s)) => Some(("browser"@, s)),
            _ => None,
        }
    } else if mode is Esm {
        match pkg.module {
            Some(v) => Some(("module"@, v)),
            None => match pkg.main {
                Some(v) => Some(("main"@, v)),
                None => None,
            },
        }
    } else {
        match pkg.main {
            Some(v) => Some(("main"@, v)),
            None => match pkg.module {
                Some(v) => Some(("module"@, v)),
                None => None,
            },
        }
    }
}

/// What reading a directory's `package.json` records: a successful read is
/// content the result depends on, a missing file is an absence that its
/// creation would overturn, any other failure records nothing.
pub open spec fn spec_pkg_read_inv(m: FsModel, dir: Seq<Seq<char>>) -> InvModel {
    let pf = dir.push("package.json"@);
    match spec_read(m, pf) {
        Ok(_) => inv_change1(pf),
        Err(IoErrorKind::NotFound) => inv_create1(CreateInvModel::Path { path: pf }),
        Err(_) => InvModel::empty(),
    }
}

/// The package context for error reporting: the module name and the path of
/// its `package.json`.
pub ghost struct PkgCtxModel {
    pub module: Seq<char>,
    pub package_path: Seq<Seq<char>>,
}

pub open spec fn spec_ctx_model(ctx: Option<(String, Vec<String>)>) -> Option<PkgCtxModel> {
    match ctx {
        Some((module, pp)) => Some(
            PkgCtxModel { module: module@, package_path: pp.deep_view() },
        ),
        None => None,
    }
}

/// Loads the directory `dir`: its `package.json` entry field first, then
/// `index.*`. With a package context, a present entry field that does not
/// load is an error naming the field; without one it falls back to the
/// index probes.
pub open spec fn spec_load_dir(
    m: FsModel,
    c: ConfigModel,
    mode: ResolutionMode,
    dir: Seq<Seq<char>>,
    ctx: Option<PkgCtxModel>,
) -> LoadOutcome {
    let iv0 = spec_pkg_read_inv(m, dir);
    let pf = dir.push("package.json"@);
    match spec_pkg_fact(m, dir) {
        PkgFact::Io(k) => LoadOutcome {
            status: LoadStatus::Failed { err: ErrorModel::IOError { kind: k } },
            inv: iv0,
        },
        PkgFact::Bad(e) => LoadOutcome {
            status: LoadStatus::Failed {
                err: ErrorModel::JsonError {
                    error: JsonErrorModel {
                        path: pf,
                        line: e.line as nat,
                        column: e.column as nat,
                        message: e.message@,
                    },
                },
            },
            inv: iv0,
        },
        PkgFact::Missing => {
            let idx = spec_load_index(m, c, dir, 0);
            LoadOutcome { status: idx.status, inv: iv0.union(idx.inv) }
        },
        PkgFact::Pkg(pkg) => match spec_entry_field(c, mode, pkg) {
            None => {
                let idx = spec_load_index(m, c, dir, 0);
                LoadOutcome { status: idx.status, inv: iv0.union(idx.inv) }
            },
            Some((field, value)) => {
                let t = paths::spec_apply_segments(dir, paths::spec_split_path(value@));
                let lf = spec_load_file(m, c, t);
                match lf.status {
                    LoadStatus::Found { path } => LoadOutcome {
                        status: lf.status,
                        inv: iv0.union(lf.inv),
                    },
                    LoadStatus::Failed { err } => LoadOutcome {
                        status: lf.status,
                        inv: iv0.union(lf.inv),
                    },
                    LoadStatus::NotFound => match ctx {
                        Some(cm) => LoadOutcome {
                            status: LoadStatus::Failed {
                                err: ErrorModel::ModuleEntryNotFound {
                                    module: cm.module,
                                    entry_path: t,
                                    package_path: cm.package_path,
                                    field,
                                },
                            },
                            inv: iv0.union(lf.inv),
                        },
                        None => {
                            let idx = spec_load_index(m, c, dir, 0);
                            LoadOutcome {
                                status: idx.status,
                                inv: iv0.union(lf.inv).union(idx.inv),
                            }
                        },
                    },
                }
            },
        },
    }
}

/// What `load_dir` learned from the `package.json` fact before probing.
enum DirStep {
    Io(IoErrorKind),
    Bad(JsonSyntaxError),
    NoPkg,
    NoEntry,
    Entry(String, String),
}

fn entry_field(cfg: &ResolverConfig, mode: ResolutionMode, pkg: &PackageJson) -> (r: Option<(
    String,
    String,
)>)
    ensures
        match (r, spec_entry_field(cfg.model(), mode, *pkg)) {
            (Some((f, v)), Some(sp)) => f@ == sp.0 && v == sp.1,
            (None, None) => true,
            _ => false,
        },
{
    if cfg.browser {
        match &pkg.browser {
            Some(JsonValue::String(s)) => {
                return Some(("browser".to_owned(), s.clone()));
            },
            _ => {},
        }
    }
    match mode {
        ResolutionMode::Esm => {
            match &pkg.module {
                Some(v) => Some(("module".to_owned(), v.clone())),
                None => match &pkg.main {
                    Some(v) => Some(("main".to_owned(), v.clone())),
                    None => None,
                },
            }
        },
        ResolutionMode::Cjs => {
            match &pkg.main {
                Some(v) => Some(("main".to_owned(), v.clone())),
                None => match &pkg.module {
                    Some(v) => Some(("module".to_owned(), v.clone())),
                    None => None,
                },
            }
        },
    }
}

fn load_dir<F: FileSystem>(
    fs: &F,
    cache: &mut PathCache,
    cfg: &ResolverConfig,
    inv: &mut Invalidations,
    mode: ResolutionMode,
    dir: &Vec<String>,
    ctx: &Option<(String, Vec<String>)>,
) -> (r: Loaded)
    requires
        fs.wf(),
        old(cache).wf(fs.model()),
    ensures
        final(cache).wf(fs.model()),
        r.model() == spec_load_dir(
            fs.model(),
            cfg.model(),
            mode,
            dir.deep_view(),
            spec_ctx_model(*ctx),
        ).status,
        final(inv).model() == old(inv).model().union(
            spec_load_dir(fs.model(), cfg.model(), mode, dir.deep_view(), spec_ctx_model(*ctx)).inv,
        ),
{
    let ghost m = fs.model();
    let ghost iv0 = spec_pkg_read_inv(m, dir.deep_view());
    let pf = paths::child(dir, "package.json");
    let step: DirStep = {
        let fact = cache.package_in(fs, dir);
        match fact {
            PkgFact::Missing => DirStep::NoPkg,
            PkgFact::Io(k) => DirStep::Io(*k),
            PkgFact::Bad(e) => DirStep::Bad(
                JsonSyntaxError { line: e.line, column: e.column, message: e.message.clone() },
            ),
            PkgFact::Pkg(p) => match entry_field(cfg, mode, p) {
                None => DirStep::NoEntry,
                Some((f, v)) => DirStep::Entry(f, v),
            },
        }
    };
    let ghost fact = spec_pkg_fact(m, dir.deep_view());
    // record the package.json read through the funnel
    match &step {
        DirStep::Io(k) => {
            proof {
                lemma_union_empty(old(inv).model());
            }
            return Loaded::Failed(ResolverError::IOError(IOError { kind: *k }));
        },
        DirStep::Bad(e) => {
            inv.invalidate_on_file_change(&pf);
            proof {
                lemma_with_change_union(old(inv).model(), pf.deep_view());
            }
            let err = JsonError::new(pf, e.line, e.column, e.message.clone());
            return Loaded::Failed(ResolverError::JsonError(err));
        },
        _ => {},
    }
    // Missing package.json records a create invalidation; a parsed one a
    // change invalidation.
    let is_missing = matches!(step, DirStep::NoPkg);
    if is_missing {
        inv.invalidate_on_file_create(&pf);
        proof {
            lemma_with_create_union(
                old(inv).model(),
                CreateInvModel::Path { path: pf.deep_view() },
            );
        }
    } else {
        inv.invalidate_on_file_change(&pf);
        proof {
            lemma_with_change_union(old(inv).model(), pf.deep_view());
        }
    }
    let ghost after_read = old(inv).model().union(iv0);
    match step {
        DirStep::Entry(field, value) => {
            let segs = paths::split_path(value.as_str());
            let t = paths::apply_segments(dir, &segs);
            let ghost lf = spec_load_file(m, cfg.model(), t.deep_view());
            let loaded = load_file(fs, cache, cfg, inv, &t);
            proof {
                lemma_union_assoc(old(inv).model(), iv0, lf.inv);
            }
            match loaded {
                Loaded::Found(p) => Loaded::Found(p),
                Loaded::Failed(e) => Loaded::Failed(e),
                Loaded::NotFound => {
                    match ctx {
                        Some((module, pp)) => {
                            let e = ResolverError::ModuleEntryNotFound {
                                module: module.clone(),
                                entry_path: t,
                                package_path: pp.clone(),
                                field,
                            };
                            proof {
                                assert(pp.deep_view() =~= spec_ctx_model(
                                    *ctx,
                                ).unwrap().package_path);
                            }
                            Loaded::Failed(e)
                        },
                        None => {
                            let ghost idx = spec_load_index(m, cfg.model(), dir.deep_view(), 0);
                            let r = load_index(fs, cache, cfg, inv, dir, 0);
                            proof {
                                lemma_union_assoc(old(inv).model(), iv0.union(lf.inv), idx.inv);
                            }
                            r
                        },
                    }
                },
            }
        },
        DirStep::NoPkg => {
            let ghost idx = spec_load_index(m, cfg.model(), dir.deep_view(), 0);
            let r = load_index(fs, cache, cfg, inv, dir, 0);
            proof {
                lemma_union_assoc(old(inv).model(), iv0, idx.inv);
            }
            r
        },
        DirStep::NoEntry => {
            let ghost idx = spec_load_index(m, cfg.model(), dir.deep_view(), 0);
            let r = load_index(fs, cache, cfg, inv, dir, 0);
            proof {
                lemma_union_assoc(old(inv).model(), iv0, idx.inv);
            }
            r
        },
        _ => {
            // Io and Bad returned above.
            proof {
                assert(false);
            }
            Loaded::NotFound
        },
    }
}

/// Loads `target` as a file or a directory: the exact file and its
/// extension candidates first, then, when `target` is a directory, its
/// entry field or `index.*`.
pub open spec fn spec_load_path(
    m: FsModel,
    c: ConfigModel,
    mode: ResolutionMode,
    target: Seq<Seq<char>>,
    ctx: Option<PkgCtxModel>,
) -> LoadOutcome {
    let lf = spec_load_file(m, c, target);
    match lf.status {
        LoadStatus::Found { path } => lf,
        LoadStatus::Failed { err } => lf,
        LoadStatus::NotFound => {
            if spec_kind(m, target).is_dir {
                let ld = spec_load_dir(m, c, mode, target, ctx);
                LoadOutcome { status: ld.status, inv: lf.inv.union(ld.inv) }
            } else {
                lf
            }
        },
    }
}

fn load_path<F: FileSystem>(
    fs: &F,
    cache: &mut PathCache,
    cfg: &ResolverConfig,
    inv: &mut Invalidations,
    mode: ResolutionMode,
    target: &Vec<String>,
    ctx: &Option<(String, Vec<String>)>,
) -> (r: Loaded)
    requires
        fs.wf(),
        old(cache).wf(fs.model()),
    ensures
        final(cache).wf(fs.model()),
        r.model() == spec_load_path(
            fs.model(),
            cfg.model(),
            mode,
            target.deep_view(),
            spec_ctx_model(*ctx),
        ).status,
        final(inv).model() == old(inv).model().union(
            spec_load_path(
                fs.model(),
                cfg.model(),
                mode,
                target.deep_view(),
                spec_ctx_model(*ctx),
            ).inv,
        ),
{
    let ghost m = fs.model();
    let ghost lf = spec_load_file(m, cfg.model(), target.deep_view());
    let loaded = load_file(fs, cache, cfg, inv, target);
    match loaded {
        Loaded::Found(p) => Loaded::Found(p),
        Loaded::Failed(e) => Loaded::Failed(e),
        Loaded::NotFound => {
            let k = cache.kind_of(fs, target);
            if k.is_dir {
                let ghost ld = spec_load_dir(
                    m,
                    cfg.model(),
                    mode,
                    target.deep_view(),
                    spec_ctx_model(*ctx),
                );
                let r = load_dir(fs, cache, cfg, inv, mode, target, ctx);
                proof {
                    lemma_union_assoc(old(inv).model(), lf.inv, ld.inv);
                }
                r
            } else {
                Loaded::NotFound
            }
        },
    }
}

// ---------------------------------------------------------------------------
// Packages: exports maps, entry fields, browser remapping
// ---------------------------------------------------------------------------

/// The conditions recognized in `exports` maps, in order: the mode's own
/// condition, `browser` when the build targets one, then the configured
/// extra conditions (`default` always matches).
pub open spec fn spec_conditions(c: ConfigModel, mode: ResolutionMode) -> Seq<Seq<char>> {
    seq![if mode is Esm { "import"@ } else { "require"@ }] + (if c.browser {
        seq!["browser"@]
    } else {
        Seq::empty()
    }) + c.conditions
}

fn conditions(cfg: &ResolverConfig, mode: ResolutionMode) -> (r: Vec<String>)
    ensures
        r.deep_view() == spec_conditions(cfg.model(), mode),
{
    let mut r: Vec<String> = Vec::new();
    match mode {
        ResolutionMode::Esm => r.push("import".to_owned()),
        ResolutionMode::Cjs => r.push("require".to_owned()),
    }
    if cfg.browser {
        r.push("browser".to_owned());
    }
    let ghost prefix = r.deep_view();
    proof {
        assert(prefix =~= spec_conditions(cfg.model(), mode).take(prefix.len() as int));
        assert(spec_conditions(cfg.model(), mode).len() == prefix.len()
            + cfg.model().conditions.len());
    }
    let mut i: usize = 0;
    while i < cfg.conditions.len()
        invariant
            i <= cfg.conditions@.len(),
            r.deep_view() =~= prefix + cfg.model().conditions.take(i as int),
            prefix == spec_conditions(cfg.model(), mode).take(prefix.len() as int),
            spec_conditions(cfg.model(), mode).len() == prefix.len()
                + cfg.model().conditions.len(),
            spec_conditions(cfg.model(), mode).skip(prefix.len() as int)
                =~= cfg.model().conditions,
        decreases cfg.conditions@.len() - i,
    {
        let c = cfg.conditions[i].clone();
        proof {
            assert(cfg.conditions@[i as int].deep_view() == cfg.model().conditions[i as int]);
        }
        let ghost pre = r.deep_view();
        r.push(c);
        proof {
            assert(r.deep_view() =~= pre.push(cfg.model().conditions[i as int]));
            assert(cfg.model().conditions.take(i as int + 1) =~= cfg.model().conditions.take(
                i as int,
            ).push(cfg.model().conditions[i as int]));
            assert(r.deep_view() =~= prefix + cfg.model().conditions.take(i as int + 1));
        }
        i += 1;
    }
    proof {
        assert(cfg.model().conditions.take(cfg.model().conditions.len() as int)
            =~= cfg.model().conditions);
        assert(r.deep_view() =~= spec_conditions(cfg.model(), mode));
    }
    r
}

/// The effective subpath inside a package, after the browser field's map
/// remapped it (an exact `./<subpath>` key with a string value).
pub open spec fn spec_browser_subpath(c: ConfigModel, pkg: PackageJson, subpath: Seq<char>) -> Seq<
    char,
> {
    if c.browser {
        match pkg.browser {
            Some(JsonValue::Object(bm)) => match crate::json::spec_obj_get(
                bm@,
                spec_exports_key(subpath),
            ) {
                Some(JsonValue::String(repl)) => repl@,
                _ => subpath,
            },
            _ => subpath,
        }
    } else {
        subpath
    }
}

/// Resolves a request inside the package rooted at `pkg_dir`: through its
/// `exports` map when it has one (the boundary: an uncovered subpath fails),
/// else the package root through its entry fields and a subpath directly,
/// remapped by the browser field's map when configured.
pub open spec fn spec_resolve_package(
    m: FsModel,
    c: ConfigModel,
    mode: ResolutionMode,
    pkg_dir: Seq<Seq<char>>,
    name: Seq<char>,
    subpath: Seq<char>,
) -> ResolveOutcome {
    let iv0 = spec_pkg_read_inv(m, pkg_dir);
    let pf = pkg_dir.push("package.json"@);
    match spec_pkg_fact(m, pkg_dir) {
        PkgFact::Io(k) => ResolveOutcome {
            result: Err(ErrorModel::IOError { kind: k }),
            inv: iv0,
        },
        PkgFact::Bad(e) => ResolveOutcome {
            result: Err(
                ErrorModel::JsonError {
                    error: JsonErrorModel {
                        path: pf,
                        line: e.line as nat,
                        column: e.column as nat,
                        message: e.message@,
                    },
                },
            ),
            inv: iv0,
        },
        PkgFact::Missing => {
            let target = paths::spec_apply_segments(pkg_dir, paths::spec_split_path(subpath));
            let lp = spec_load_path(m, c, mode, target, None);
            match lp.status {
                LoadStatus::Found { path } => ResolveOutcome {
                    result: Ok(spec_found(m, path, Some(name), None)),
                    inv: iv0.union(lp.inv),
                },
                LoadStatus::NotFound => ResolveOutcome {
                    result: Err(
                        ErrorModel::ModuleSubpathNotFound {
                            module: name,
                            path: target,
                            package_path: pf,
                        },
                    ),
                    inv: iv0.union(lp.inv),
                },
                LoadStatus::Failed { err } => ResolveOutcome {
                    result: Err(err),
                    inv: iv0.union(lp.inv),
                },
            }
        },
        PkgFact::Pkg(pkg) => {
            let version = spec_opt_view(pkg.version);
            if pkg.exports is Some {
                let exp = pkg.exports.unwrap();
                let subkey = spec_exports_key(subpath);
                match spec_resolve_exports(exp, subkey, spec_conditions(c, mode)) {
                    Err(pe) => ResolveOutcome {
                        result: Err(
                            ErrorModel::PackageJsonError { module: name, path: subkey, error: pe },
                        ),
                        inv: iv0,
                    },
                    Ok(rel) => {
                        let target = paths::spec_apply_segments(
                            pkg_dir,
                            paths::spec_split_path(rel),
                        );
                        let pr = spec_probe_file(m, target);
                        if pr.0 {
                            ResolveOutcome {
                                result: Ok(spec_found(m, target, Some(name), version)),
                                inv: iv0.union(pr.1),
                            }
                        } else {
                            ResolveOutcome {
                                result: Err(
                                    ErrorModel::ModuleSubpathNotFound {
                                        module: name,
                                        path: target,
                                        package_path: pf,
                                    },
                                ),
                                inv: iv0.union(pr.1),
                            }
                        }
                    },
                }
            } else if subpath.len() == 0 {
                let ld = spec_load_dir(
                    m,
                    c,
                    mode,
                    pkg_dir,
                    Some(PkgCtxModel { module: name, package_path: pf }),
                );
                match ld.status {
                    LoadStatus::Found { path } => ResolveOutcome {
                        result: Ok(spec_found(m, path, Some(name), version)),
                        inv: ld.inv,
                    },
                    LoadStatus::NotFound => ResolveOutcome {
                        result: Err(
                            ErrorModel::ModuleSubpathNotFound {
                                module: name,
                                path: pkg_dir,
                                package_path: pf,
                            },
                        ),
                        inv: ld.inv,
                    },
                    LoadStatus::Failed { err } => ResolveOutcome { result: Err(err), inv: ld.inv },
                }
            } else {
                let eff = spec_browser_subpath(c, pkg, subpath);
                let target = paths::spec_apply_segments(pkg_dir, paths::spec_split_path(eff));
                let lp = spec_load_path(m, c, mode, target, None);
                match lp.status {
                    LoadStatus::Found { path } => ResolveOutcome {
                        result: Ok(spec_found(m, path, Some(name), version)),
                        inv: iv0.union(lp.inv),
                    },
                    LoadStatus::NotFound => ResolveOutcome {
                        result: Err(
                            ErrorModel::ModuleSubpathNotFound {
                                module: name,
                                path: target,
                                package_path: pf,
                            },
                        ),
                        inv: iv0.union(lp.inv),
                    },
                    LoadStatus::Failed { err } => ResolveOutcome {
                        result: Err(err),
                        inv: iv0.union(lp.inv),
                    },
                }
            }
        },
    }
}

/// What `resolve_package` learned from the `package.json` fact.
enum PkgStep {
    Io(IoErrorKind),
    Bad(JsonSyntaxError),
    Missing,
    Exports(Result<String, crate::error::PackageJsonError>),
    Root,
    Sub(String),
}

fn resolve_package<F: FileSystem>(
    fs: &F,
    cache: &mut PathCache,
    cfg: &ResolverConfig,
    inv: &mut Invalidations,
    mode: ResolutionMode,
    pkg_dir: &Vec<String>,
    name: &str,
    subpath: &str,
) -> (r: Result<ResolvedModule, ResolverError>)
    requires
        fs.wf(),
        old(cache).wf(fs.model()),
    ensures
        final(cache).wf(fs.model()),
        res_model(r) == spec_resolve_package(
            fs.model(),
            cfg.model(),
            mode,
            pkg_dir.deep_view(),
            name@,
            subpath@,
        ).result,
        final(inv).model() == old(inv).model().union(
            spec_resolve_package(
                fs.model(),
                cfg.model(),
                mode,
                pkg_dir.deep_view(),
                name@,
                subpath@,
            ).inv,
        ),
{
    let ghost m = fs.model();
    let ghost iv0 = spec_pkg_read_inv(m, pkg_dir.deep_view());
    let pf = paths::child(pkg_dir, "package.json");
    let subkey = exports_key(subpath);
    let conds = conditions(cfg, mode);
    let (step, ver): (PkgStep, Option<String>) = {
        let fact = cache.package_in(fs, pkg_dir);
        let ver: Option<String> = match fact {
            PkgFact::Pkg(pkg) => match &pkg.version {
                Some(v) => Some(v.clone()),
                None => None,
            },
            _ => None,
        };
        let step = match fact {
            PkgFact::Io(k) => PkgStep::Io(*k),
            PkgFact::Bad(e) => PkgStep::Bad(
                JsonSyntaxError { line: e.line, column: e.column, message: e.message.clone() },
            ),
            PkgFact::Missing => PkgStep::Missing,
            PkgFact::Pkg(pkg) => match &pkg.exports {
                Some(exp) => PkgStep::Exports(resolve_exports(exp, subkey.as_str(), &conds)),
                None => {
                    if subpath.unicode_len() == 0 {
                        PkgStep::Root
                    } else {
                        let eff: String = if cfg.browser {
                            match &pkg.browser {
                                Some(JsonValue::Object(bm)) => match crate::json::obj_get(
                                    bm,
                                    subkey.as_str(),
                                ) {
                                    Some(JsonValue::String(repl)) => repl.clone(),
                                    _ => subpath.to_owned(),
                                },
                                _ => subpath.to_owned(),
                            }
                        } else {
                            subpath.to_owned()
                        };
                        PkgStep::Sub(eff)
                    }
                },
            },
        };
        (step, ver)
    };
    // record the package.json read through the funnel
    match &step {
        PkgStep::Io(k) => {
            proof {
                lemma_union_empty(old(inv).model());
            }
            return Err(ResolverError::IOError(IOError { kind: *k }));
        },
        PkgStep::Missing => {
            inv.invalidate_on_file_create(&pf);
            proof {
                lemma_with_create_union(
                    old(inv).model(),
                    CreateInvModel::Path { path: pf.deep_view() },
                );
            }
        },
        _ => {
            inv.invalidate_on_file_change(&pf);
            proof {
                lemma_with_change_union(old(inv).model(), pf.deep_view());
            }
        },
    }
    let ghost after_read = old(inv).model().union(iv0);
    match step {
        PkgStep::Io(_) => {
            // returned above, before the funnel record
            proof {
                assert(false);
            }
            Err(ResolverError::UnknownError)
        },
        PkgStep::Bad(e) => {
            let err = JsonError::new(pf, e.line, e.column, e.message.clone());
            Err(ResolverError::JsonError(err))
        },
        PkgStep::Missing => {
            let segs = paths::split_path(subpath);
            let target = paths::apply_segments(pkg_dir, &segs);
            let ghost lp = spec_load_path(m, cfg.model(), mode, target.deep_view(), None);
            let loaded = load_path(fs, cache, cfg, inv, mode, &target, &None);
            proof {
                lemma_union_assoc(old(inv).model(), iv0, lp.inv);
            }
            match loaded {
                Loaded::Found(p) => {
                    let rp = cache.realpath_of(fs, &p);
                    Ok(ResolvedModule::Path { path: rp, package: Some(name.to_owned()), version: None })
                },
                Loaded::NotFound => Err(
                    ResolverError::ModuleSubpathNotFound {
                        module: name.to_owned(),
                        path: target,
                        package_path: pf,
                    },
                ),
                Loaded::Failed(e) => Err(e),
            }
        },
        PkgStep::Exports(res) => {
            match res {
                Err(pe) => Err(
                    ResolverError::PackageJsonError {
                        module: name.to_owned(),
                        path: subkey,
                        error: pe,
                    },
                ),
                Ok(rel) => {
                    let segs = paths::split_path(rel.as_str());
                    let target = paths::apply_segments(pkg_dir, &segs);
                    let ghost pr = spec_probe_file(m, target.deep_view());
                    let hit = probe_file(fs, cache, inv, &target);
                    proof {
                        lemma_union_assoc(old(inv).model(), iv0, pr.1);
                    }
                    if hit {
                        let rp = cache.realpath_of(fs, &target);
                        Ok(ResolvedModule::Path { path: rp, package: Some(name.to_owned()), version: ver })
                    } else {
                        Err(
                            ResolverError::ModuleSubpathNotFound {
                                module: name.to_owned(),
                                path: target,
                                package_path: pf,
                            },
                        )
                    }
                },
            }
        },
        PkgStep::Root => {
            let ctx = Some((name.to_owned(), pf.clone()));
            let ghost ld = spec_load_dir(
                m,
                cfg.model(),
                mode,
                pkg_dir.deep_view(),
                spec_ctx_model(ctx),
            );
            proof {
                assert(pf.deep_view() =~= pkg_dir.deep_view().push("package.json"@));
                assert(spec_ctx_model(ctx) == Some(
                    PkgCtxModel { module: name@, package_path: pkg_dir.deep_view().push("package.json"@) },
                ));
            }
            // The directory loader records the package.json read itself; the
            // record just made is the same set element, so the union below
            // absorbs it.
            let loaded = load_dir(fs, cache, cfg, inv, mode, pkg_dir, &ctx);
            proof {
                lemma_union_assoc(old(inv).model(), iv0, ld.inv);
                assert(iv0.union(ld.inv) =~~= ld.inv) by {
                    assert(iv0.union(ld.inv).create =~= ld.inv.create);
                    assert(iv0.union(ld.inv).change =~= ld.inv.change);
                }
                assert(old(inv).model().union(iv0).union(ld.inv) == old(inv).model().union(ld.inv));
            }
            match loaded {
                Loaded::Found(p) => {
                    let rp = cache.realpath_of(fs, &p);
                    Ok(ResolvedModule::Path { path: rp, package: Some(name.to_owned()), version: ver })
                },
                Loaded::NotFound => Err(
                    ResolverError::ModuleSubpathNotFound {
                        module: name.to_owned(),
                        path: pkg_dir.clone(),
                        package_path: pf,
                    },
                ),
                Loaded::Failed(e) => Err(e),
            }
        },
        PkgStep::Sub(eff) => {
            let segs = paths::split_path(eff.as_str());
            let target = paths::apply_segments(pkg_dir, &segs);
            let ghost lp = spec_load_path(m, cfg.model(), mode, target.deep_view(), None);
            let loaded = load_path(fs, cache, cfg, inv, mode, &target, &None);
            proof {
                lemma_union_assoc(old(inv).model(), iv0, lp.inv);
            }
            match loaded {
                Loaded::Found(p) => {
                    let rp = cache.realpath_of(fs, &p);
                    Ok(ResolvedModule::Path { path: rp, package: Some(name.to_owned()), version: ver })
                },
                Loaded::NotFound => Err(
                    ResolverError::ModuleSubpathNotFound {
                        module: name.to_owned(),
                        path: target,
                        package_path: pf,
                    },
                ),
                Loaded::Failed(e) => Err(e),
            }
        },
    }
}

// ---------------------------------------------------------------------------
// The node_modules ancestor walk
// ---------------------------------------------------------------------------

/// Walks `node_modules` directories from `dir` up through every ancestor
/// until one holds the package, resolving inside the first hit; exhausting
/// the chain is [`crate::error::ResolverError::ModuleNotFound`].
pub open spec fn spec_walk_modules(
    m: FsModel,
    c: ConfigModel,
    mode: ResolutionMode,
    dir: Seq<Seq<char>>,
    name: Seq<char>,
    subpath: Seq<char>,
) -> ResolveOutcome
    decreases dir.len(),
{
    let pkg_dir = paths::spec_apply_segments(
        dir.push("node_modules"@),
        paths::spec_split_path(name),
    );
    let pr = spec_probe_dir(m, pkg_dir);
    if pr.0 {
        let rp = spec_resolve_package(m, c, mode, pkg_dir, name, subpath);
        ResolveOutcome { result: rp.result, inv: pr.1.union(rp.inv) }
    } else if dir.len() == 0 {
        ResolveOutcome { result: Err(ErrorModel::ModuleNotFound { module: name }), inv: pr.1 }
    } else {
        let rest = spec_walk_modules(m, c, mode, dir.drop_last(), name, subpath);
        ResolveOutcome { result: rest.result, inv: pr.1.union(rest.inv) }
    }
}

fn walk_modules<F: FileSystem>(
    fs: &F,
    cache: &mut PathCache,
    cfg: &ResolverConfig,
    inv: &mut Invalidations,
    mode: ResolutionMode,
    dir: &Vec<String>,
    name: &str,
    subpath: &str,
) -> (r: Result<ResolvedModule, ResolverError>)
    requires
        fs.wf(),
        old(cache).wf(fs.model()),
    ensures
        final(cache).wf(fs.model()),
        res_model(r) == spec_walk_modules(
            fs.model(),
            cfg.model(),
            mode,
            dir.deep_view(),
            name@,
            subpath@,
        ).result,
        final(inv).model() == old(inv).model().union(
            spec_walk_modules(fs.model(), cfg.model(), mode, dir.deep_view(), name@, subpath@).inv,
        ),
    decreases dir@.len(),
{
    let ghost m = fs.model();
    let nm = paths::child(dir, "node_modules");
    let segs = paths::split_path(name);
    let pkg_dir = paths::apply_segments(&nm, &segs);
    let ghost pr = spec_probe_dir(m, pkg_dir.deep_view());
    let hit = probe_dir(fs, cache, inv, &pkg_dir);
    if hit {
        let ghost rp = spec_resolve_package(
            m,
            cfg.model(),
            mode,
            pkg_dir.deep_view(),
            name@,
            subpath@,
        );
        let r = resolve_package(fs, cache, cfg, inv, mode, &pkg_dir, name, subpath);
        proof {
            lemma_union_assoc(old(inv).model(), pr.1, rp.inv);
        }
        r
    } else if dir.len() == 0 {
        Err(ResolverError::ModuleNotFound { module: name.to_owned() })
    } else {
        let parent = paths::parent(dir);
        let ghost rest = spec_walk_modules(
            m,
            cfg.model(),
            mode,
            parent.deep_view(),
            name@,
            subpath@,
        );
        let r = walk_modules(fs, cache, cfg, inv, mode, &parent, name, subpath);
        proof {
            lemma_union_assoc(old(inv).model(), pr.1, rest.inv);
        }
        r
    }
}

// ---------------------------------------------------------------------------
// tsconfig discovery, extends chains and path candidates
// ---------------------------------------------------------------------------

/// The effective tsconfig: the directory its substitutions resolve against
/// and its `paths` map, the nearest in the `extends` chain that defines one.
pub ghost struct EffTs {
    pub base: Seq<Seq<char>>,
    pub paths: Option<JsonValue>,
}

/// The candidate substitutions an effective tsconfig offers a request.
pub open spec fn spec_eff_candidates(eff: EffTs, request: Seq<char>) -> Seq<Seq<char>> {
    match eff.paths {
        Some(p) => spec_paths_candidates(p, request),
        None => Seq::empty(),
    }
}

/// What reading a tsconfig file records.
pub open spec fn spec_ts_read_inv(m: FsModel, file: Seq<Seq<char>>) -> InvModel {
    match spec_read(m, file) {
        Ok(_) => inv_change1(file),
        Err(IoErrorKind::NotFound) => inv_create1(CreateInvModel::Path { path: file }),
        Err(_) => InvModel::empty(),
    }
}

/// The base directory the file's own substitutions resolve against.
pub open spec fn spec_ts_own_base(ts: TsConfigFile, file: Seq<Seq<char>>) -> Seq<Seq<char>> {
    match ts.base_url {
        Some(b) => paths::spec_apply_segments(
            paths::spec_parent(file),
            paths::spec_split_path(b@),
        ),
        None => paths::spec_parent(file),
    }
}

/// Loads the tsconfig at `file` and its `extends` chain, merged child-first:
/// the nearest `paths` wins, together with its own base directory. A link of
/// the chain that cannot be resolved or loaded surfaces as
/// `TsConfigExtendsNotFound` naming the file whose `extends` failed; a chain
/// deeper than `fuel` does too, wrapping `UnknownError`.
pub open spec fn spec_ts_chain(
    m: FsModel,
    c: ConfigModel,
    mode: ResolutionMode,
    file: Seq<Seq<char>>,
    fuel: nat,
) -> (Result<EffTs, ErrorModel>, InvModel)
    decreases fuel, 0nat, 0nat,
{
    let iv0 = spec_ts_read_inv(m, file);
    match spec_ts_fact(m, file) {
        TsFact::Io(k) => (Err(ErrorModel::IOError { kind: k }), iv0),
        TsFact::Missing => (Err(ErrorModel::IOError { kind: IoErrorKind::NotFound }), iv0),
        TsFact::Bad(e) => (
            Err(
                ErrorModel::JsonError {
                    error: JsonErrorModel {
                        path: file,
                        line: e.line as nat,
                        column: e.column as nat,
                        message: e.message@,
                    },
                },
            ),
            iv0,
        ),
        TsFact::Ts(ts) => {
            let own_base = spec_ts_own_base(ts, file);
            match ts.extends {
                None => (Ok(EffTs { base: own_base, paths: ts.paths }), iv0),
                Some(ext) => {
                    if fuel == 0 {
                        (
                            Err(
                                ErrorModel::TsConfigExtendsNotFound {
                                    tsconfig: file,
                                    error: Box::new(ErrorModel::UnknownError),
                                },
                            ),
                            iv0,
                        )
                    } else {
                        let inner = spec_resolve_inner(m, c, mode, ext@, file, (fuel - 1) as nat);
                        match inner.result {
                            Err(e) => (
                                Err(
                                    ErrorModel::TsConfigExtendsNotFound {
                                        tsconfig: file,
                                        error: Box::new(e),
                                    },
                                ),
                                iv0.union(inner.inv),
                            ),
                            Ok(ResolutionModel::Builtin { .. }) => (
                                Err(
                                    ErrorModel::TsConfigExtendsNotFound {
                                        tsconfig: file,
                                        error: Box::new(ErrorModel::UnknownError),
                                    },
                                ),
                                iv0.union(inner.inv),
                            ),
                            Ok(ResolutionModel::Path { path: base_file, .. }) => {
                                let par = spec_ts_chain(m, c, mode, base_file, (fuel - 1) as nat);
                                match par.0 {
                                    Err(e) => (
                                        Err(
                                            ErrorModel::TsConfigExtendsNotFound {
                                                tsconfig: file,
                                                error: Box::new(e),
                                            },
                                        ),
                                        iv0.union(inner.inv).union(par.1),
                                    ),
                                    Ok(pe) => (
                                        Ok(
                                            if ts.paths is Some {
                                                EffTs { base: own_base, paths: ts.paths }
                                            } else {
                                                pe
                                            },
                                        ),
                                        iv0.union(inner.inv).union(par.1),
                                    ),
                                }
                            },
                        }
                    }
                },
            }
        },
    }
}

/// Finds the nearest `tsconfig.json` at or above `dir` and loads its chain;
/// none anywhere is no configuration.
pub open spec fn spec_tsconfig_lookup(
    m: FsModel,
    c: ConfigModel,
    mode: ResolutionMode,
    dir: Seq<Seq<char>>,
    fuel: nat,
) -> (Result<Option<EffTs>, ErrorModel>, InvModel)
    decreases fuel, 1nat, dir.len() + 1,
{
    let tsfile = dir.push("tsconfig.json"@);
    let pr = spec_probe_file(m, tsfile);
    if pr.0 {
        let ch = spec_ts_chain(m, c, mode, tsfile, fuel);
        match ch.0 {
            Ok(eff) => (Ok(Some(eff)), pr.1.union(ch.1)),
            Err(e) => (Err(e), pr.1.union(ch.1)),
        }
    } else if dir.len() == 0 {
        (Ok(None), pr.1)
    } else {
        let rest = spec_tsconfig_lookup(m, c, mode, dir.drop_last(), fuel);
        (rest.0, pr.1.union(rest.1))
    }
}

/// Tries each substitution as a path against `base`; the first that loads
/// wins, a failure aborts, exhaustion falls through.
pub open spec fn spec_try_candidates(
    m: FsModel,
    c: ConfigModel,
    mode: ResolutionMode,
    base: Seq<Seq<char>>,
    cands: Seq<Seq<char>>,
    i: int,
) -> LoadOutcome
    decreases cands.len() - i,
{
    if i < 0 || i >= cands.len() {
        LoadOutcome { status: LoadStatus::NotFound, inv: InvModel::empty() }
    } else {
        let target = paths::spec_apply_segments(base, paths::spec_split_path(cands[i]));
        let lp = spec_load_path(m, c, mode, target, None);
        match lp.status {
            LoadStatus::Found { path } => lp,
            LoadStatus::Failed { err } => lp,
            LoadStatus::NotFound => {
                let rest = spec_try_candidates(m, c, mode, base, cands, i + 1);
                LoadOutcome { status: rest.status, inv: lp.inv.union(rest.inv) }
            },
        }
    }
}

fn try_candidates<F: FileSystem>(
    fs: &F,
    cache: &mut PathCache,
    cfg: &ResolverConfig,
    inv: &mut Invalidations,
    mode: ResolutionMode,
    base: &Vec<String>,
    cands: &Vec<String>,
    i: usize,
) -> (r: Loaded)
    requires
        fs.wf(),
        old(cache).wf(fs.model()),
    ensures
        final(cache).wf(fs.model()),
        r.model() == spec_try_candidates(
            fs.model(),
            cfg.model(),
            mode,
            base.deep_view(),
            cands.deep_view(),
            i as int,
        ).status,
        final(inv).model() == old(inv).model().union(
            spec_try_candidates(
                fs.model(),
                cfg.model(),
                mode,
                base.deep_view(),
                cands.deep_view(),
                i as int,
            ).inv,
        ),
    decreases cands@.len() - i,
{
    let ghost m = fs.model();
    if i >= cands.len() {
        proof {
            lemma_union_empty(old(inv).model());
        }
        return Loaded::NotFound;
    }
    proof {
        assert(cands@[i as int].deep_view() == cands.deep_view()[i as int]);
    }
    let segs = paths::split_path(cands[i].as_str());
    let target = paths::apply_segments(base, &segs);
    let ghost lp = spec_load_path(m, cfg.model(), mode, target.deep_view(), None);
    let loaded = load_path(fs, cache, cfg, inv, mode, &target, &None);
    match loaded {
        Loaded::Found(p) => Loaded::Found(p),
        Loaded::Failed(e) => Loaded::Failed(e),
        Loaded::NotFound => {
            let ghost rest = spec_try_candidates(
                m,
                cfg.model(),
                mode,
                base.deep_view(),
                cands.deep_view(),
                i as int + 1,
            );
            let r = try_candidates(fs, cache, cfg, inv, mode, base, cands, i + 1);
            proof {
                lemma_union_assoc(old(inv).model(), lp.inv, rest.inv);
            }
            r
        },
    }
}

/// What the executable tsconfig chain walk hands back: the base directory
/// and the already-matched candidate substitutions.
enum TsStep {
    Io(IoErrorKind),
    Missing,
    Bad(JsonSyntaxError),
    Ts { extends: Option<String>, base_url: Option<String>, cands: Option<Vec<String>> },
}

#[verifier::rlimit(90)]
fn ts_chain<F: FileSystem>(
    fs: &F,
    cache: &mut PathCache,
    cfg: &ResolverConfig,
    inv: &mut Invalidations,
    mode: ResolutionMode,
    file: &Vec<String>,
    request: &str,
    fuel: u32,
) -> (r: Result<(Vec<String>, Vec<String>), ResolverError>)
    requires
        fs.wf(),
        old(cache).wf(fs.model()),
    ensures
        final(cache).wf(fs.model()),
        ({
            let sp = spec_ts_chain(fs.model(), cfg.model(), mode, file.deep_view(), fuel as nat);
            &&& match (r, sp.0) {
                (Ok((base, cands)), Ok(eff)) => base.deep_view() == eff.base && cands.deep_view()
                    == spec_eff_candidates(eff, request@),
                (Err(e), Err(se)) => e.model() == se,
                _ => false,
            }
            &&& final(inv).model() == old(inv).model().union(sp.1)
        }),
    decreases fuel, 0nat, 1nat,
{
    let ghost m = fs.model();
    let ghost iv0 = spec_ts_read_inv(m, file.deep_view());
    let step: TsStep = {
        let fact = cache.tsconfig_at(fs, file);
        match fact {
            TsFact::Io(k) => TsStep::Io(*k),
            TsFact::Missing => TsStep::Missing,
            TsFact::Bad(e) => TsStep::Bad(
                JsonSyntaxError { line: e.line, column: e.column, message: e.message.clone() },
            ),
            TsFact::Ts(ts) => TsStep::Ts {
                extends: match &ts.extends {
                    Some(s) => Some(s.clone()),
                    None => None,
                },
                base_url: match &ts.base_url {
                    Some(s) => Some(s.clone()),
                    None => None,
                },
                cands: match &ts.paths {
                    Some(p) => Some(paths_candidates(p, request)),
                    None => None,
                },
            },
        }
    };
    // the funnel record for this read
    match &step {
        TsStep::Io(_) => {
            proof {
                lemma_union_empty(old(inv).model());
            }
        },
        TsStep::Missing => {
            inv.invalidate_on_file_create(file);
            proof {
                lemma_with_create_union(
                    old(inv).model(),
                    CreateInvModel::Path { path: file.deep_view() },
                );
            }
        },
        _ => {
            inv.invalidate_on_file_change(file);
            proof {
                lemma_with_change_union(old(inv).model(), file.deep_view());
            }
        },
    }
    match step {
        TsStep::Io(k) => {
            proof {
                assert(spec_ts_read_inv(m, file.deep_view()) == InvModel::empty());
            }
            Err(ResolverError::IOError(IOError { kind: k }))
        },
        TsStep::Missing => Err(ResolverError::IOError(IOError { kind: IoErrorKind::NotFound })),
        TsStep::Bad(e) => {
            let fc = file.clone();
            assert(fc.deep_view() =~= file.deep_view());
            let err = JsonError::new(fc, e.line, e.column, e.message.clone());
            Err(ResolverError::JsonError(err))
        },
        TsStep::Ts { extends, base_url, cands } => {
            let own_base = match &base_url {
                Some(b) => {
                    let segs = paths::split_path(b.as_str());
                    let par = paths::parent(file);
                    paths::apply_segments(&par, &segs)
                },
                None => paths::parent(file),
            };
            match extends {
                None => {
                    let out_cands = match cands {
                        Some(cs) => cs,
                        None => {
                            let e: Vec<String> = Vec::new();
                            assert(e.deep_view() =~= Seq::<Seq<char>>::empty());
                            e
                        },
                    };
                    Ok((own_base, out_cands))
                },
                Some(ext) => {
                    if fuel == 0 {
                        let fc = file.clone();
                        assert(fc.deep_view() =~= file.deep_view());
                        proof {
                            assert(ResolverError::UnknownError.model()
                                == ErrorModel::UnknownError);
                        }
                        return Err(
                            ResolverError::TsConfigExtendsNotFound {
                                tsconfig: fc,
                                error: Box::new(ResolverError::UnknownError),
                            },
                        );
                    }
                    let ghost inner_sp = spec_resolve_inner(
                        m,
                        cfg.model(),
                        mode,
                        ext@,
                        file.deep_view(),
                        (fuel - 1) as nat,
                    );
                    let inner = resolve_inner(
                        fs,
                        cache,
                        cfg,
                        inv,
                        mode,
                        ext.as_str(),
                        file,
                        fuel - 1,
                    );
                    proof {
                        lemma_union_assoc(old(inv).model(), iv0, inner_sp.inv);
                    }
                    match inner {
                        Err(e) => {
                            let fc = file.clone();
                            assert(fc.deep_view() =~= file.deep_view());
                            Err(
                                ResolverError::TsConfigExtendsNotFound {
                                    tsconfig: fc,
                                    error: Box::new(e),
                                },
                            )
                        },
                        Ok(ResolvedModule::Builtin { .. }) => {
                            let fc = file.clone();
                            assert(fc.deep_view() =~= file.deep_view());
                            proof {
                                assert(ResolverError::UnknownError.model()
                                    == ErrorModel::UnknownError);
                            }
                            Err(
                                ResolverError::TsConfigExtendsNotFound {
                                    tsconfig: fc,
                                    error: Box::new(ResolverError::UnknownError),
                                },
                            )
                        },
                        Ok(ResolvedModule::Path { path: base_file, .. }) => {
                            let ghost par_sp = spec_ts_chain(
                                m,
                                cfg.model(),
                                mode,
                                base_file.deep_view(),
                                (fuel - 1) as nat,
                            );
                            let par = ts_chain(
                                fs,
                                cache,
                                cfg,
                                inv,
                                mode,
                                &base_file,
                                request,
                                fuel - 1,
                            );
                            proof {
                                lemma_union_assoc(
                                    old(inv).model(),
                                    iv0.union(inner_sp.inv),
                                    par_sp.1,
                                );
                            }
                            match par {
                                Err(e) => {
                                    let fc = file.clone();
                                    assert(fc.deep_view() =~= file.deep_view());
                                    Err(
                                        ResolverError::TsConfigExtendsNotFound {
                                            tsconfig: fc,
                                            error: Box::new(e),
                                        },
                                    )
                                },
                                Ok((pbase, pcands)) => {
                                    match cands {
                                        Some(cs) => Ok((own_base, cs)),
                                        None => Ok((pbase, pcands)),
                                    }
                                },
                            }
                        },
                    }
                },
            }
        },
    }
}

fn tsconfig_lookup<F: FileSystem>(
    fs: &F,
    cache: &mut PathCache,
    cfg: &ResolverConfig,
    inv: &mut Invalidations,
    mode: ResolutionMode,
    dir: &Vec<String>,
    request: &str,
    fuel: u32,
) -> (r: Result<Option<(Vec<String>, Vec<String>)>, ResolverError>)
    requires
        fs.wf(),
        old(cache).wf(fs.model()),
    ensures
        final(cache).wf(fs.model()),
        ({
            let sp = spec_tsconfig_lookup(
                fs.model(),
                cfg.model(),
                mode,
                dir.deep_view(),
                fuel as nat,
            );
            &&& match (r, sp.0) {
                (Ok(Some((base, cands))), Ok(Some(eff))) => base.deep_view() == eff.base
                    && cands.deep_view() == spec_eff_candidates(eff, request@),
                (Ok(None), Ok(None)) => true,
                (Err(e), Err(se)) => e.model() == se,
                _ => false,
            }
            &&& final(inv).model() == old(inv).model().union(sp.1)
        }),
    decreases fuel, 1nat, dir@.len() + 2,
{
    let ghost m = fs.model();
    let tsfile = paths::child(dir, "tsconfig.json");
    let ghost pr = spec_probe_file(m, tsfile.deep_view());
    let hit = probe_file(fs, cache, inv, &tsfile);
    if hit {
        let ghost ch = spec_ts_chain(m, cfg.model(), mode, tsfile.deep_view(), fuel as nat);
        let r = ts_chain(fs, cache, cfg, inv, mode, &tsfile, request, fuel);
        proof {
            lemma_union_assoc(old(inv).model(), pr.1, ch.1);
        }
        match r {
            Ok(pair) => Ok(Some(pair)),
            Err(e) => Err(e),
        }
    } else if dir.len() == 0 {
        Ok(None)
    } else {
        let parent = paths::parent(dir);
        let ghost rest = spec_tsconfig_lookup(
            m,
            cfg.model(),
            mode,
            parent.deep_view(),
            fuel as nat,
        );
        let r = tsconfig_lookup(fs, cache, cfg, inv, mode, &parent, request, fuel);
        proof {
            lemma_union_assoc(old(inv).model(), pr.1, rest.1);
        }
        r
    }
}

// ---------------------------------------------------------------------------
// Bare specifiers and the entry points
// ---------------------------------------------------------------------------

/// Resolves a bare specifier: tsconfig path substitutions first, then the
/// `node_modules` ancestor walk; a walk that found the package nowhere also
/// records that creating `node_modules/<name>` anywhere above the
/// referencing directory would matter.
pub open spec fn spec_resolve_bare(
    m: FsModel,
    c: ConfigModel,
    mode: ResolutionMode,
    specifier: Seq<char>,
    from: Seq<Seq<char>>,
    name: Seq<char>,
    subpath: Seq<char>,
    fuel: nat,
) -> ResolveOutcome
    decreases fuel, 2nat, 0nat,
{
    let from_dir = paths::spec_parent(from);
    let ts = spec_tsconfig_lookup(m, c, mode, from_dir, fuel);
    match ts.0 {
        Err(e) => ResolveOutcome { result: Err(e), inv: ts.1 },
        Ok(opt) => {
            let base = match opt {
                Some(eff) => eff.base,
                None => from_dir,
            };
            let cands = match opt {
                Some(eff) => spec_eff_candidates(eff, specifier),
                None => Seq::empty(),
            };
            let tc = spec_try_candidates(m, c, mode, base, cands, 0);
            match tc.status {
                LoadStatus::Found { path } => ResolveOutcome {
                    result: Ok(spec_found(m, path, None, None)),
                    inv: ts.1.union(tc.inv),
                },
                LoadStatus::Failed { err } => ResolveOutcome {
                    result: Err(err),
                    inv: ts.1.union(tc.inv),
                },
                LoadStatus::NotFound => {
                    let w = spec_walk_modules(m, c, mode, from_dir, name, subpath);
                    let base_inv = ts.1.union(tc.inv).union(w.inv);
                    if w.result matches Err(ErrorModel::ModuleNotFound { .. }) {
                        ResolveOutcome {
                            result: w.result,
                            inv: base_inv.union(
                                inv_create1(
                                    CreateInvModel::FileName {
                                        file_name: "node_modules/"@ + name,
                                        above: from_dir,
                                    },
                                ),
                            ),
                        }
                    } else {
                        ResolveOutcome { result: w.result, inv: base_inv }
                    }
                },
            }
        },
    }
}

fn resolve_bare<F: FileSystem>(
    fs: &F,
    cache: &mut PathCache,
    cfg: &ResolverConfig,
    inv: &mut Invalidations,
    mode: ResolutionMode,
    specifier: &str,
    from: &Vec<String>,
    name: &str,
    subpath: &str,
    fuel: u32,
) -> (r: Result<ResolvedModule, ResolverError>)
    requires
        fs.wf(),
        old(cache).wf(fs.model()),
    ensures
        final(cache).wf(fs.model()),
        res_model(r) == spec_resolve_bare(
            fs.model(),
            cfg.model(),
            mode,
            specifier@,
            from.deep_view(),
            name@,
            subpath@,
            fuel as nat,
        ).result,
        final(inv).model() == old(inv).model().union(
            spec_resolve_bare(
                fs.model(),
                cfg.model(),
                mode,
                specifier@,
                from.deep_view(),
                name@,
                subpath@,
                fuel as nat,
            ).inv,
        ),
    decreases fuel, 2nat, 0nat,
{
    let ghost m = fs.model();
    let from_dir = paths::parent(from);
    let ghost ts = spec_tsconfig_lookup(m, cfg.model(), mode, from_dir.deep_view(), fuel as nat);
    let looked = tsconfig_lookup(fs, cache, cfg, inv, mode, &from_dir, specifier, fuel);
    match looked {
        Err(e) => Err(e),
        Ok(opt) => {
            let (base, cands) = match opt {
                Some((b, cs)) => (b, cs),
                None => {
                    let e: Vec<String> = Vec::new();
                    assert(e.deep_view() =~= Seq::<Seq<char>>::empty());
                    let fd = from_dir.clone();
                    assert(fd.deep_view() =~= from_dir.deep_view());
                    (fd, e)
                },
            };
            let ghost tc = spec_try_candidates(
                m,
                cfg.model(),
                mode,
                base.deep_view(),
                cands.deep_view(),
                0,
            );
            let tried = try_candidates(fs, cache, cfg, inv, mode, &base, &cands, 0);
            proof {
                lemma_union_assoc(old(inv).model(), ts.1, tc.inv);
            }
            match tried {
                Loaded::Found(p) => {
                    let rp = cache.realpath_of(fs, &p);
                    Ok(ResolvedModule::Path { path: rp, package: None, version: None })
                },
                Loaded::Failed(e) => Err(e),
                Loaded::NotFound => {
                    let ghost w = spec_walk_modules(
                        m,
                        cfg.model(),
                        mode,
                        from_dir.deep_view(),
                        name@,
                        subpath@,
                    );
                    let walked = walk_modules(fs, cache, cfg, inv, mode, &from_dir, name, subpath);
                    proof {
                        lemma_union_assoc(old(inv).model(), ts.1.union(tc.inv), w.inv);
                    }
                    if matches!(walked, Err(ResolverError::ModuleNotFound { .. })) {
                        let fname = strutil::concat_str("node_modules/", name);
                        inv.invalidate_on_file_create_above(fname.as_str(), &from_dir);
                        proof {
                            lemma_with_create_union(
                                old(inv).model().union(ts.1.union(tc.inv).union(w.inv)),
                                CreateInvModel::FileName {
                                    file_name: "node_modules/"@ + name@,
                                    above: from_dir.deep_view(),
                                },
                            );
                            lemma_union_assoc(
                                old(inv).model(),
                                ts.1.union(tc.inv).union(w.inv),
                                inv_create1(
                                    CreateInvModel::FileName {
                                        file_name: "node_modules/"@ + name@,
                                        above: from_dir.deep_view(),
                                    },
                                ),
                            );
                        }
                        walked
                    } else {
                        walked
                    }
                },
            }
        },
    }
}

/// The resolution of `specifier` from the file `from` (as components), with
/// `fuel` bounding tsconfig re-entry.
pub open spec fn spec_resolve_inner(
    m: FsModel,
    c: ConfigModel,
    mode: ResolutionMode,
    specifier: Seq<char>,
    from: Seq<Seq<char>>,
    fuel: nat,
) -> ResolveOutcome
    decreases fuel, 3nat, 0nat,
{
    match spec_parse_specifier(specifier) {
        Err(e) => ResolveOutcome {
            result: Err(ErrorModel::InvalidSpecifier { error: e }),
            inv: InvModel::empty(),
        },
        Ok(sp) => match sp {
            SpecifierModel::Relative { path } => {
                let target = paths::spec_apply_segments(
                    paths::spec_parent(from),
                    paths::spec_split_path(path),
                );
                spec_finish_path(m, specifier, from, spec_load_path(m, c, mode, target, None))
            },
            SpecifierModel::Absolute { path } => {
                let target = paths::spec_apply_segments(
                    Seq::empty(),
                    paths::spec_split_path(path),
                );
                spec_finish_path(m, specifier, from, spec_load_path(m, c, mode, target, None))
            },
            SpecifierModel::Builtin { name } => ResolveOutcome {
                result: Ok(ResolutionModel::Builtin { name }),
                inv: InvModel::empty(),
            },
            SpecifierModel::Url { scheme, rest } => {
                if scheme == "node"@ {
                    ResolveOutcome {
                        result: Ok(ResolutionModel::Builtin { name: rest }),
                        inv: InvModel::empty(),
                    }
                } else {
                    ResolveOutcome {
                        result: Err(ErrorModel::UnknownScheme { scheme }),
                        inv: InvModel::empty(),
                    }
                }
            },
            SpecifierModel::Bare { name, subpath } => spec_resolve_bare(
                m,
                c,
                mode,
                specifier,
                from,
                name,
                subpath,
                fuel,
            ),
        },
    }
}

/// Maps a load outcome onto the resolution result for path specifiers.
pub open spec fn spec_finish_path(
    m: FsModel,
    specifier: Seq<char>,
    from: Seq<Seq<char>>,
    lp: LoadOutcome,
) -> ResolveOutcome {
    match lp.status {
        LoadStatus::Found { path } => ResolveOutcome {
            result: Ok(spec_found(m, path, None, None)),
            inv: lp.inv,
        },
        LoadStatus::NotFound => ResolveOutcome {
            result: Err(ErrorModel::FileNotFound { relative: specifier, from }),
            inv: lp.inv,
        },
        LoadStatus::Failed { err } => ResolveOutcome { result: Err(err), inv: lp.inv },
    }
}

fn resolve_inner<F: FileSystem>(
    fs: &F,
    cache: &mut PathCache,
    cfg: &ResolverConfig,
    inv: &mut Invalidations,
    mode: ResolutionMode,
    specifier: &str,
    from: &Vec<String>,
    fuel: u32,
) -> (r: Result<ResolvedModule, ResolverError>)
    requires
        fs.wf(),
        old(cache).wf(fs.model()),
    ensures
        final(cache).wf(fs.model()),
        res_model(r) == spec_resolve_inner(
            fs.model(),
            cfg.model(),
            mode,
            specifier@,
            from.deep_view(),
            fuel as nat,
        ).result,
        final(inv).model() == old(inv).model().union(
            spec_resolve_inner(
                fs.model(),
                cfg.model(),
                mode,
                specifier@,
                from.deep_view(),
                fuel as nat,
            ).inv,
        ),
    decreases fuel, 3nat, 0nat,
{
    let ghost m = fs.model();
    let parsed = parse_specifier(specifier);
    match parsed {
        Err(e) => {
            proof {
                lemma_union_empty(old(inv).model());
            }
            Err(ResolverError::InvalidSpecifier(e))
        },
        Ok(Specifier::Relative { path }) => {
            let from_dir = paths::parent(from);
            let segs = paths::split_path(path.as_str());
            let target = paths::apply_segments(&from_dir, &segs);
            finish_path(fs, cache, cfg, inv, mode, specifier, from, &target)
        },
        Ok(Specifier::Absolute { path }) => {
            let root: Vec<String> = Vec::new();
            assert(root.deep_view() =~= Seq::<Seq<char>>::empty());
            let segs = paths::split_path(path.as_str());
            let target = paths::apply_segments(&root, &segs);
            finish_path(fs, cache, cfg, inv, mode, specifier, from, &target)
        },
        Ok(Specifier::Builtin { name }) => {
            proof {
                lemma_union_empty(old(inv).model());
            }
            Ok(ResolvedModule::Builtin { name })
        },
        Ok(Specifier::Url { scheme, rest }) => {
            proof {
                lemma_union_empty(old(inv).model());
            }
            if strutil::str_eq(scheme.as_str(), "node") {
                Ok(ResolvedModule::Builtin { name: rest })
            } else {
                Err(ResolverError::UnknownScheme { scheme })
            }
        },
        Ok(Specifier::Bare { name, subpath }) => {
            let r = resolve_bare(
                fs,
                cache,
                cfg,
                inv,
                mode,
                specifier,
                from,
                name.as_str(),
                subpath.as_str(),
                fuel,
            );
            r
        },
    }
}

fn finish_path<F: FileSystem>(
    fs: &F,
    cache: &mut PathCache,
    cfg: &ResolverConfig,
    inv: &mut Invalidations,
    mode: ResolutionMode,
    specifier: &str,
    from: &Vec<String>,
    target: &Vec<String>,
) -> (r: Result<ResolvedModule, ResolverError>)
    requires
        fs.wf(),
        old(cache).wf(fs.model()),
    ensures
        final(cache).wf(fs.model()),
        res_model(r) == spec_finish_path(
            fs.model(),
            specifier@,
            from.deep_view(),
            spec_load_path(fs.model(), cfg.model(), mode, target.deep_view(), None),
        ).result,
        final(inv).model() == old(inv).model().union(
            spec_finish_path(
                fs.model(),
                specifier@,
                from.deep_view(),
                spec_load_path(fs.model(), cfg.model(), mode, target.deep_view(), None),
            ).inv,
        ),
{
    let loaded = load_path(fs, cache, cfg, inv, mode, target, &None);
    match loaded {
        Loaded::Found(p) => {
            let rp = cache.realpath_of(fs, &p);
            Ok(ResolvedModule::Path { path: rp, package: None, version: None })
        },
        Loaded::NotFound => Err(
            ResolverError::FileNotFound { relative: specifier.to_owned(), from: from.clone() },
        ),
        Loaded::Failed(e) => Err(e),
    }
}


// ---------------------------------------------------------------------------
// Finding the package.json that governs a file
// ---------------------------------------------------------------------------

/// The nearest `package.json` at or above `dir`: its path, or the failure
/// naming `from`, with the probes recorded on the way.
pub open spec fn spec_find_package(
    m: FsModel,
    dir: Seq<Seq<char>>,
    from: Seq<Seq<char>>,
) -> (Result<Seq<Seq<char>>, ErrorModel>, InvModel)
    decreases dir.len(),
{
    let pf = dir.push("package.json"@);
    let pr = spec_probe_file(m, pf);
    if pr.0 {
        (Ok(pf), pr.1)
    } else if dir.len() == 0 {
        (
            (Err(ErrorModel::PackageJsonNotFound { from })),
            pr.1.union(
                inv_create1(
                    CreateInvModel::FileName { file_name: "package.json"@, above: from },
                ),
            ),
        )
    } else {
        let rest = spec_find_package(m, dir.drop_last(), from);
        (rest.0, pr.1.union(rest.1))
    }
}

fn find_package<F: FileSystem>(
    fs: &F,
    cache: &mut PathCache,
    inv: &mut Invalidations,
    dir: &Vec<String>,
    from: &Vec<String>,
) -> (r: Result<Vec<String>, ResolverError>)
    requires
        fs.wf(),
        old(cache).wf(fs.model()),
    ensures
        final(cache).wf(fs.model()),
        ({
            let sp = spec_find_package(fs.model(), dir.deep_view(), from.deep_view());
            &&& match (r, sp.0) {
                (Ok(p), Ok(q)) => p.deep_view() == q,
                (Err(e), Err(se)) => e.model() == se,
                _ => false,
            }
            &&& final(inv).model() == old(inv).model().union(sp.1)
        }),
    decreases dir@.len(),
{
    let ghost m = fs.model();
    let pf = paths::child(dir, "package.json");
    let ghost pr = spec_probe_file(m, pf.deep_view());
    let hit = probe_file(fs, cache, inv, &pf);
    if hit {
        Ok(pf)
    } else if dir.len() == 0 {
        let fc = from.clone();
        assert(fc.deep_view() =~= from.deep_view());
        inv.invalidate_on_file_create_above("package.json", from);
        proof {
            lemma_with_create_union(
                old(inv).model().union(pr.1),
                CreateInvModel::FileName { file_name: "package.json"@, above: from.deep_view() },
            );
            lemma_union_assoc(
                old(inv).model(),
                pr.1,
                inv_create1(
                    CreateInvModel::FileName {
                        file_name: "package.json"@,
                        above: from.deep_view(),
                    },
                ),
            );
        }
        Err(ResolverError::PackageJsonNotFound { from: fc })
    } else {
        let parent = paths::parent(dir);
        let ghost rest = spec_find_package(m, parent.deep_view(), from.deep_view());
        let r = find_package(fs, cache, inv, &parent, from);
        proof {
            lemma_union_assoc(old(inv).model(), pr.1, rest.1);
        }
        r
    }
}

/// The resolution of `specifier` from the file path string `from`: what
/// [`Resolver::resolve`] returns and records, as a function of the modelled
/// filesystem, the configuration, the mode and the two strings alone.
pub open spec fn spec_resolve(
    m: FsModel,
    c: ConfigModel,
    mode: ResolutionMode,
    specifier: Seq<char>,
    from: Seq<char>,
) -> ResolveOutcome {
    spec_resolve_inner(m, c, mode, specifier, paths::spec_split_path(from), resolve_fuel())
}

/// The resolver: a filesystem, a configuration, and the epoch's cache.
pub struct Resolver<F: FileSystem> {
    pub fs: F,
    pub config: ResolverConfig,
    pub cache: PathCache,
}

impl<F: FileSystem> Resolver<F> {
    /// The resolver's representation is consistent: the filesystem's is, and
    /// every cached fact agrees with the modelled filesystem.
    pub open spec fn wf(&self) -> bool {
        self.fs.wf() && self.cache.wf(self.fs.model())
    }

    /// A resolver over `fs` with a fresh cache epoch.
    pub fn new(fs: F, config: ResolverConfig) -> (r: Resolver<F>)
        requires
            fs.wf(),
        ensures
            r.wf(),
            r.fs == fs,
            r.config == config,
    {
        Resolver { fs, config, cache: PathCache::new() }
    }

    /// Finds the `package.json` that governs the file `from`: the nearest
    /// one in `from`'s directory or any ancestor. Every probe is recorded;
    /// finding none also records that a `package.json` created anywhere
    /// above `from` would matter, and is
    /// [`crate::error::ResolverError::PackageJsonNotFound`].
    pub fn find_package_json(&mut self, from: &str, inv: &mut Invalidations) -> (r: Result<
        Vec<String>,
        ResolverError,
    >)
        requires
            old(self).wf(),
        ensures
            final(self).wf(),
            final(self).fs == old(self).fs,
            final(self).config == old(self).config,
            ({
                let sp = spec_find_package(
                    old(self).fs.model(),
                    paths::spec_parent(paths::spec_split_path(from@)),
                    paths::spec_split_path(from@),
                );
                &&& match (r, sp.0) {
                    (Ok(p), Ok(q)) => p.deep_view() == q,
                    (Err(e), Err(se)) => e.model() == se,
                    _ => false,
                }
                &&& final(inv).model() == old(inv).model().union(sp.1)
            }),
    {
        let from_path = paths::split_path(from);
        let dir = paths::parent(&from_path);
        find_package(&self.fs, &mut self.cache, inv, &dir, &from_path)
    }

    /// Resolves `specifier` as written in the file `from`, recording into
    /// `inv` every filesystem fact the answer depends on. The result and the
    /// record are [`spec_resolve`] of the filesystem state and the inputs:
    /// within one cache epoch, repeated calls return identical results and
    /// record identical invalidation sets.
    pub fn resolve(
        &mut self,
        specifier: &str,
        from: &str,
        mode: ResolutionMode,
        inv: &mut Invalidations,
    ) -> (r: Result<ResolvedModule, ResolverError>)
        requires
            old(self).wf(),
        ensures
            final(self).wf(),
            final(self).fs == old(self).fs,
            final(self).config == old(self).config,
            res_model(r) == spec_resolve(
                old(self).fs.model(),
                old(self).config.model(),
                mode,
                specifier@,
                from@,
            ).result,
            final(inv).model() == old(inv).model().union(
                spec_resolve(
                    old(self).fs.model(),
                    old(self).config.model(),
                    mode,
                    specifier@,
                    from@,
                ).inv,
            ),
    {
        let from_path = paths::split_path(from);
        let r = resolve_inner(
            &self.fs,
            &mut self.cache,
            &self.config,
            inv,
            mode,
            specifier,
            &from_path,
            8,
        );
        proof {
            assert(resolve_fuel() == 8);
        }
        r
    }
}


} // verus!
