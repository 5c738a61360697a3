//! The laws the resolver obeys, stated and proved once for all inputs.

use vstd::prelude::*;

use crate::error::ResolverError;
use crate::fs::{spec_kind, spec_read, spec_realpath, FileKind, FsModel, IoErrorKind};
use crate::invalidations::{CreateInvModel, InvModel};
use crate::resolver::{
    res_model, spec_found, spec_pkg_read_inv, spec_probe_file, spec_resolve, ConfigModel,
    ResolutionMode, ResolvedModule,
};

verus! {

/// Idempotence: a resolution is a pure function of the filesystem state, the
/// configuration, the mode, the specifier and the referencing file. Any two
/// calls of `Resolver::resolve` on those same inputs — with the cache in any
/// state of the same epoch — return the same result, and starting from equal
/// invalidation records they leave equal invalidation records.
pub proof fn lemma_resolve_idempotent(
    m: FsModel,
    c: ConfigModel,
    mode: ResolutionMode,
    specifier: Seq<char>,
    from: Seq<char>,
    r1: Result<ResolvedModule, ResolverError>,
    r2: Result<ResolvedModule, ResolverError>,
    inv_before_1: InvModel,
    inv_after_1: InvModel,
    inv_before_2: InvModel,
    inv_after_2: InvModel,
)
    requires
        res_model(r1) == spec_resolve(m, c, mode, specifier, from).result,
        res_model(r2) == spec_resolve(m, c, mode, specifier, from).result,
        inv_after_1 == inv_before_1.union(spec_resolve(m, c, mode, specifier, from).inv),
        inv_after_2 == inv_before_2.union(spec_resolve(m, c, mode, specifier, from).inv),
    ensures
        res_model(r1) == res_model(r2),
        inv_before_1 == inv_before_2 ==> inv_after_1 == inv_after_2,
{
}

/// Symlink identity: the identity of a found file is its canonical path, so
/// two files whose chains of symbolic links end at the same real file are
/// the same module, whichever link a specifier led through.
pub proof fn lemma_symlink_identity(
    m: FsModel,
    link1: Seq<Seq<char>>,
    link2: Seq<Seq<char>>,
    package: Option<Seq<char>>,
    version: Option<Seq<char>>,
)
    requires
        spec_realpath(m, link1) == spec_realpath(m, link2),
    ensures
        spec_found(m, link1, package, version) == spec_found(m, link2, package, version),
{
}

/// Invalidation asymmetry: a probe that finds its file records that file
/// under content-change invalidation and nothing under create invalidation;
/// a probe of a wholly absent path records that path under create
/// invalidation and nothing under change. Presence changes invalidate
/// positive results, absence must be overturned by creation.
pub proof fn lemma_probe_asymmetry(m: FsModel, p: Seq<Seq<char>>)
    ensures
        spec_probe_file(m, p).0 ==> spec_probe_file(m, p).1 == (InvModel {
            create: Set::empty(),
            change: Set::empty().insert(p),
            startup: false,
        }),
        spec_kind(m, p) == (FileKind { is_file: false, is_dir: false, is_symlink: false })
            ==> spec_probe_file(m, p).1 == (InvModel {
            create: Set::<CreateInvModel>::empty().insert(CreateInvModel::Path { path: p }),
            change: Set::empty(),
            startup: false,
        }),
{
}

/// The same asymmetry at the read funnel every `package.json` passes
/// through: a read that succeeds records the file under content-change
/// invalidation; a read that fails because the file is absent records it
/// under create invalidation; any other failure is a structural error, not
/// an absence that could later appear, and records nothing.
pub proof fn lemma_read_funnel_asymmetry(m: FsModel, dir: Seq<Seq<char>>)
    ensures
        ({
            let pf = dir.push("package.json"@);
            match spec_read(m, pf) {
                Ok(_) => spec_pkg_read_inv(m, dir) == (InvModel {
                    create: Set::empty(),
                    change: Set::empty().insert(pf),
                    startup: false,
                }),
                Err(IoErrorKind::NotFound) => spec_pkg_read_inv(m, dir) == (InvModel {
                    create: Set::<CreateInvModel>::empty().insert(
                        CreateInvModel::Path { path: pf },
                    ),
                    change: Set::empty(),
                    startup: false,
                }),
                Err(_) => spec_pkg_read_inv(m, dir) == InvModel::empty(),
            }
        }),
{
}

} // verus!
