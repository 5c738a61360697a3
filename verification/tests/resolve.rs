//! End-to-end resolution scenarios against an in-memory project tree.

use parcel_resolver::error::{PackageJsonError, ResolverError, SpecifierError};
use parcel_resolver::invalidations::{FileCreateInvalidation, Invalidations};
use parcel_resolver::memfs::InMemoryFileSystem;
use parcel_resolver::paths::{path_to_string, split_path};
use parcel_resolver::resolver::{ResolutionMode, ResolvedModule, Resolver, ResolverConfig};

fn config() -> ResolverConfig {
    ResolverConfig {
        extensions: vec![".js".to_string(), ".json".to_string()],
        conditions: vec![],
        browser: false,
    }
}

fn resolved_path(r: &ResolvedModule) -> String {
    match r {
        ResolvedModule::Path { path, .. } => path_to_string(path),
        ResolvedModule::Builtin { name } => panic!("expected a path, got builtin {}", name),
    }
}

/// Project root `/proj` with `/proj/package.json {"name":"app"}` and
/// `/proj/src/foo.js`: `"./foo"` from `/proj/src/entry.js` in CommonJS mode
/// with extensions `.js`/`.json` is `/proj/src/foo.js`.
#[test]
fn relative_specifier_with_extension_probing() {
    let mut fs = InMemoryFileSystem::new();
    fs.add_dir("/proj");
    fs.add_dir("/proj/src");
    fs.add_file("/proj/package.json", "{\"name\":\"app\"}");
    fs.add_file("/proj/src/foo.js", "module.exports = 1;");
    fs.add_file("/proj/src/entry.js", "require('./foo');");
    let mut resolver = Resolver::new(fs, config());
    let mut inv = Invalidations::new();
    let r = resolver
        .resolve("./foo", "/proj/src/entry.js", ResolutionMode::Cjs, &mut inv)
        .unwrap();
    assert_eq!(resolved_path(&r), "/proj/src/foo.js");
}

/// A successful probe lands in the change set; the missed candidate before
/// it lands in the create set, and in neither the other way around.
#[test]
fn invalidation_asymmetry() {
    let mut fs = InMemoryFileSystem::new();
    fs.add_dir("/proj");
    fs.add_dir("/proj/src");
    fs.add_file("/proj/src/foo.js", "");
    let mut resolver = Resolver::new(fs, config());

    let mut inv = Invalidations::new();
    resolver
        .resolve("./foo", "/proj/src/entry.js", ResolutionMode::Cjs, &mut inv)
        .unwrap();
    let foo = split_path("/proj/src/foo");
    let foo_js = split_path("/proj/src/foo.js");
    assert!(inv.invalidate_on_file_change.contains(&foo_js));
    assert!(!inv.invalidate_on_file_change.contains(&foo));
    assert!(inv
        .invalidate_on_file_create
        .contains(&FileCreateInvalidation::Path(foo.clone())));
    assert!(!inv
        .invalidate_on_file_create
        .contains(&FileCreateInvalidation::Path(foo_js.clone())));

    // A failed resolution records the missing candidates only under create.
    let mut inv2 = Invalidations::new();
    let err = resolver
        .resolve("./nope", "/proj/src/entry.js", ResolutionMode::Cjs, &mut inv2)
        .unwrap_err();
    assert!(matches!(err, ResolverError::FileNotFound { .. }));
    let nope_js = split_path("/proj/src/nope.js");
    assert!(inv2
        .invalidate_on_file_create
        .contains(&FileCreateInvalidation::Path(nope_js.clone())));
    assert!(!inv2.invalidate_on_file_change.contains(&nope_js));
}

/// Repeated resolutions within one cache epoch return identical results and
/// record identical invalidation sets.
#[test]
fn idempotent_within_epoch() {
    let mut fs = InMemoryFileSystem::new();
    fs.add_dir("/proj");
    fs.add_dir("/proj/src");
    fs.add_file("/proj/src/foo.js", "");
    let mut resolver = Resolver::new(fs, config());

    let mut inv1 = Invalidations::new();
    let r1 = resolver.resolve("./foo", "/proj/src/entry.js", ResolutionMode::Cjs, &mut inv1);
    let mut inv2 = Invalidations::new();
    let r2 = resolver.resolve("./foo", "/proj/src/entry.js", ResolutionMode::Cjs, &mut inv2);
    assert_eq!(r1, r2);
    assert_eq!(inv1.invalidate_on_file_create, inv2.invalidate_on_file_create);
    assert_eq!(inv1.invalidate_on_file_change, inv2.invalidate_on_file_change);
    assert_eq!(inv1.invalidate_on_startup, inv2.invalidate_on_startup);
}

/// `"exports": {"./a": "./a.js"}` exports `pkg/a` and nothing else: `pkg/b`
/// and the bare `pkg` fail with the package's own boundary error.
#[test]
fn exports_boundary() {
    let mut fs = InMemoryFileSystem::new();
    fs.add_dir("/proj");
    fs.add_dir("/proj/node_modules");
    fs.add_dir("/proj/node_modules/pkg");
    fs.add_file(
        "/proj/node_modules/pkg/package.json",
        "{\"name\":\"pkg\",\"exports\":{\"./a\":\"./a.js\"}}",
    );
    fs.add_file("/proj/node_modules/pkg/a.js", "");
    fs.add_file("/proj/node_modules/pkg/b.js", "");
    let mut resolver = Resolver::new(fs, config());
    let mut inv = Invalidations::new();

    let ok = resolver
        .resolve("pkg/a", "/proj/index.js", ResolutionMode::Cjs, &mut inv)
        .unwrap();
    assert_eq!(resolved_path(&ok), "/proj/node_modules/pkg/a.js");

    let err = resolver
        .resolve("pkg/b", "/proj/index.js", ResolutionMode::Cjs, &mut inv)
        .unwrap_err();
    match err {
        ResolverError::PackageJsonError { module, error, .. } => {
            assert_eq!(module, "pkg");
            assert_eq!(error, PackageJsonError::PackagePathNotExported);
        },
        other => panic!("expected PackageJsonError, got {:?}", other),
    }

    let err = resolver
        .resolve("pkg", "/proj/index.js", ResolutionMode::Cjs, &mut inv)
        .unwrap_err();
    match err {
        ResolverError::PackageJsonError { module, error, .. } => {
            assert_eq!(module, "pkg");
            assert_eq!(error, PackageJsonError::PackagePathNotExported);
        },
        other => panic!("expected PackageJsonError, got {:?}", other),
    }
}

/// `exports` conditions select by resolution mode, in declaration order.
#[test]
fn exports_conditions_by_mode() {
    let mut fs = InMemoryFileSystem::new();
    fs.add_dir("/p");
    fs.add_dir("/p/node_modules");
    fs.add_dir("/p/node_modules/dual");
    fs.add_file(
        "/p/node_modules/dual/package.json",
        "{\"exports\":{\".\":{\"import\":\"./esm.js\",\"require\":\"./cjs.js\"}}}",
    );
    fs.add_file("/p/node_modules/dual/esm.js", "");
    fs.add_file("/p/node_modules/dual/cjs.js", "");
    let mut resolver = Resolver::new(fs, config());
    let mut inv = Invalidations::new();
    let esm = resolver
        .resolve("dual", "/p/main.js", ResolutionMode::Esm, &mut inv)
        .unwrap();
    assert_eq!(resolved_path(&esm), "/p/node_modules/dual/esm.js");
    let cjs = resolver
        .resolve("dual", "/p/main.js", ResolutionMode::Cjs, &mut inv)
        .unwrap();
    assert_eq!(resolved_path(&cjs), "/p/node_modules/dual/cjs.js");
}

/// A pattern key's `*` carries into the target.
#[test]
fn exports_pattern_key() {
    let mut fs = InMemoryFileSystem::new();
    fs.add_dir("/p");
    fs.add_dir("/p/node_modules");
    fs.add_dir("/p/node_modules/pkg");
    fs.add_dir("/p/node_modules/pkg/src");
    fs.add_dir("/p/node_modules/pkg/src/features");
    fs.add_file(
        "/p/node_modules/pkg/package.json",
        "{\"exports\":{\"./features/*\":\"./src/features/*.js\"}}",
    );
    fs.add_file("/p/node_modules/pkg/src/features/x.js", "");
    let mut resolver = Resolver::new(fs, config());
    let mut inv = Invalidations::new();
    let r = resolver
        .resolve("pkg/features/x", "/p/main.js", ResolutionMode::Cjs, &mut inv)
        .unwrap();
    assert_eq!(resolved_path(&r), "/p/node_modules/pkg/src/features/x.js");
}

/// `/root/a/b/from.js` requiring `"leftpad"` walks `/root/a/b/node_modules`,
/// `/root/a/node_modules`, `/root/node_modules` in that order; an
/// intermediate `node_modules` without the package is not a match.
#[test]
fn ancestor_node_modules_walk() {
    let mut fs = InMemoryFileSystem::new();
    fs.add_dir("/root");
    fs.add_dir("/root/a");
    fs.add_dir("/root/a/b");
    fs.add_dir("/root/a/node_modules");
    fs.add_dir("/root/node_modules");
    fs.add_dir("/root/node_modules/leftpad");
    fs.add_file(
        "/root/node_modules/leftpad/package.json",
        "{\"name\":\"leftpad\",\"main\":\"index.js\"}",
    );
    fs.add_file("/root/node_modules/leftpad/index.js", "");
    fs.add_file("/root/a/b/from.js", "");
    let mut resolver = Resolver::new(fs, config());
    let mut inv = Invalidations::new();
    let r = resolver
        .resolve("leftpad", "/root/a/b/from.js", ResolutionMode::Cjs, &mut inv)
        .unwrap();
    assert_eq!(resolved_path(&r), "/root/node_modules/leftpad/index.js");
    match &r {
        ResolvedModule::Path { package, version, .. } => {
            assert_eq!(package.as_deref(), Some("leftpad"));
            assert_eq!(version.as_deref(), None);
        },
        _ => panic!("expected a path"),
    }

    // A package found nowhere is ModuleNotFound, and the record asks to be
    // told if node_modules/<name> appears anywhere above.
    let mut inv2 = Invalidations::new();
    let err = resolver
        .resolve("missingpkg", "/root/a/b/from.js", ResolutionMode::Cjs, &mut inv2)
        .unwrap_err();
    assert_eq!(err, ResolverError::ModuleNotFound { module: "missingpkg".to_string() });
    assert!(inv2.invalidate_on_file_create.contains(
        &FileCreateInvalidation::FileName {
            file_name: "node_modules/missingpkg".to_string(),
            above: split_path("/root/a/b"),
        }
    ));
}

/// A tsconfig whose `extends` chain defines `"paths": {"@app/*": ["src/*"]}`
/// resolves `"@app/foo"` to `src/foo.*`; an unresolvable `extends` surfaces
/// as `TsConfigExtendsNotFound` wrapping the cause.
#[test]
fn tsconfig_extends_chain() {
    let mut fs = InMemoryFileSystem::new();
    fs.add_dir("/app");
    fs.add_dir("/app/src");
    fs.add_file("/app/tsconfig.json", "{\"extends\":\"./base.json\"}");
    fs.add_file(
        "/app/base.json",
        "{\"compilerOptions\":{\"paths\":{\"@app/*\":[\"src/*\"]}}}",
    );
    fs.add_file("/app/src/foo.js", "");
    fs.add_file("/app/entry.js", "");
    let mut resolver = Resolver::new(fs, config());
    let mut inv = Invalidations::new();
    let r = resolver
        .resolve("@app/foo", "/app/entry.js", ResolutionMode::Esm, &mut inv)
        .unwrap();
    assert_eq!(resolved_path(&r), "/app/src/foo.js");
}

#[test]
fn tsconfig_extends_not_found_wraps_cause() {
    let mut fs = InMemoryFileSystem::new();
    fs.add_dir("/app");
    fs.add_file("/app/tsconfig.json", "{\"extends\":\"./base.json\"}");
    fs.add_file("/app/entry.js", "");
    let mut resolver = Resolver::new(fs, config());
    let mut inv = Invalidations::new();
    let err = resolver
        .resolve("@app/foo", "/app/entry.js", ResolutionMode::Esm, &mut inv)
        .unwrap_err();
    match err {
        ResolverError::TsConfigExtendsNotFound { tsconfig, error } => {
            assert_eq!(tsconfig, split_path("/app/tsconfig.json"));
            assert!(matches!(*error, ResolverError::FileNotFound { .. }));
        },
        other => panic!("expected TsConfigExtendsNotFound, got {:?}", other),
    }
}

/// A circular `extends` chain ends in `TsConfigExtendsNotFound` rather than
/// spinning.
#[test]
fn tsconfig_extends_circular() {
    let mut fs = InMemoryFileSystem::new();
    fs.add_dir("/app");
    fs.add_file("/app/tsconfig.json", "{\"extends\":\"./other.json\"}");
    fs.add_file("/app/other.json", "{\"extends\":\"./tsconfig.json\"}");
    fs.add_file("/app/entry.js", "");
    let mut resolver = Resolver::new(fs, config());
    let mut inv = Invalidations::new();
    let err = resolver
        .resolve("@app/foo", "/app/entry.js", ResolutionMode::Esm, &mut inv)
        .unwrap_err();
    assert!(matches!(err, ResolverError::TsConfigExtendsNotFound { .. }));
}

/// Two links to the same real file resolve to the same module identity.
#[test]
fn symlink_identity() {
    let mut fs = InMemoryFileSystem::new();
    fs.add_dir("/pkg");
    fs.add_dir("/a");
    fs.add_file("/pkg/real.js", "");
    fs.add_symlink("/a/link1.js", "/pkg/real.js");
    fs.add_symlink("/a/link2.js", "/pkg/real.js");
    fs.add_file("/a/x.js", "");
    let mut resolver = Resolver::new(fs, config());
    let mut inv = Invalidations::new();
    let r1 = resolver
        .resolve("./link1.js", "/a/x.js", ResolutionMode::Cjs, &mut inv)
        .unwrap();
    let r2 = resolver
        .resolve("./link2.js", "/a/x.js", ResolutionMode::Cjs, &mut inv)
        .unwrap();
    assert_eq!(resolved_path(&r1), "/pkg/real.js");
    assert_eq!(r1, r2);
}

/// Builtins, URL schemes and malformed specifiers.
#[test]
fn builtins_and_schemes() {
    let fs = InMemoryFileSystem::new();
    let mut resolver = Resolver::new(fs, config());
    let mut inv = Invalidations::new();

    let r = resolver.resolve("fs", "/x/a.js", ResolutionMode::Cjs, &mut inv).unwrap();
    assert_eq!(r, ResolvedModule::Builtin { name: "fs".to_string() });

    let r = resolver.resolve("node:path", "/x/a.js", ResolutionMode::Cjs, &mut inv).unwrap();
    assert_eq!(r, ResolvedModule::Builtin { name: "path".to_string() });

    let err = resolver.resolve("foo:bar", "/x/a.js", ResolutionMode::Cjs, &mut inv).unwrap_err();
    assert_eq!(err, ResolverError::UnknownScheme { scheme: "foo".to_string() });

    let err = resolver.resolve("", "/x/a.js", ResolutionMode::Cjs, &mut inv).unwrap_err();
    assert_eq!(err, ResolverError::InvalidSpecifier(SpecifierError::Empty));
}

/// Malformed `package.json` aborts the resolution with a positioned error.
#[test]
fn malformed_package_json() {
    let mut fs = InMemoryFileSystem::new();
    fs.add_dir("/p");
    fs.add_dir("/p/node_modules");
    fs.add_dir("/p/node_modules/bad");
    fs.add_file("/p/node_modules/bad/package.json", "{not json");
    let mut resolver = Resolver::new(fs, config());
    let mut inv = Invalidations::new();
    let err = resolver
        .resolve("bad", "/p/main.js", ResolutionMode::Cjs, &mut inv)
        .unwrap_err();
    match err {
        ResolverError::JsonError(e) => {
            assert_eq!(e.path, split_path("/p/node_modules/bad/package.json"));
            assert_eq!(e.line, 1);
        },
        other => panic!("expected JsonError, got {:?}", other),
    }
}

/// A package entry field that names a missing file is reported with the
/// field's name.
#[test]
fn module_entry_not_found() {
    let mut fs = InMemoryFileSystem::new();
    fs.add_dir("/p");
    fs.add_dir("/p/node_modules");
    fs.add_dir("/p/node_modules/broken");
    fs.add_file("/p/node_modules/broken/package.json", "{\"main\":\"gone.js\"}");
    let mut resolver = Resolver::new(fs, config());
    let mut inv = Invalidations::new();
    let err = resolver
        .resolve("broken", "/p/main.js", ResolutionMode::Cjs, &mut inv)
        .unwrap_err();
    match err {
        ResolverError::ModuleEntryNotFound { module, field, .. } => {
            assert_eq!(module, "broken");
            assert_eq!(field, "main");
        },
        other => panic!("expected ModuleEntryNotFound, got {:?}", other),
    }
}

/// The browser field replaces the entry point for browser builds.
#[test]
fn browser_field_replaces_main() {
    let mut fs = InMemoryFileSystem::new();
    fs.add_dir("/p");
    fs.add_dir("/p/node_modules");
    fs.add_dir("/p/node_modules/iso");
    fs.add_file(
        "/p/node_modules/iso/package.json",
        "{\"main\":\"./index.js\",\"browser\":\"./browser.js\"}",
    );
    fs.add_file("/p/node_modules/iso/index.js", "");
    fs.add_file("/p/node_modules/iso/browser.js", "");

    let browser_config = ResolverConfig {
        extensions: vec![".js".to_string()],
        conditions: vec![],
        browser: true,
    };
    let mut resolver = Resolver::new(fs, browser_config);
    let mut inv = Invalidations::new();
    let r = resolver.resolve("iso", "/p/main.js", ResolutionMode::Cjs, &mut inv).unwrap();
    assert_eq!(resolved_path(&r), "/p/node_modules/iso/browser.js");
}

/// A directory without an entry field falls back to its index file; an ESM
/// site prefers the `module` field.
#[test]
fn directory_index_and_module_field() {
    let mut fs = InMemoryFileSystem::new();
    fs.add_dir("/p");
    fs.add_dir("/p/lib");
    fs.add_file("/p/lib/index.js", "");
    fs.add_dir("/p/node_modules");
    fs.add_dir("/p/node_modules/esmpkg");
    fs.add_file(
        "/p/node_modules/esmpkg/package.json",
        "{\"main\":\"./cjs.js\",\"module\":\"./esm.js\"}",
    );
    fs.add_file("/p/node_modules/esmpkg/cjs.js", "");
    fs.add_file("/p/node_modules/esmpkg/esm.js", "");
    let mut resolver = Resolver::new(fs, config());
    let mut inv = Invalidations::new();

    let r = resolver.resolve("./lib", "/p/main.js", ResolutionMode::Cjs, &mut inv).unwrap();
    assert_eq!(resolved_path(&r), "/p/lib/index.js");

    let r = resolver.resolve("esmpkg", "/p/main.js", ResolutionMode::Esm, &mut inv).unwrap();
    assert_eq!(resolved_path(&r), "/p/node_modules/esmpkg/esm.js");
    let r = resolver.resolve("esmpkg", "/p/main.js", ResolutionMode::Cjs, &mut inv).unwrap();
    assert_eq!(resolved_path(&r), "/p/node_modules/esmpkg/cjs.js");
}

/// An absolute specifier resolves against the filesystem root.
#[test]
fn absolute_specifier() {
    let mut fs = InMemoryFileSystem::new();
    fs.add_dir("/lib");
    fs.add_file("/lib/x.js", "");
    let mut resolver = Resolver::new(fs, config());
    let mut inv = Invalidations::new();
    let r = resolver.resolve("/lib/x", "/elsewhere/a.js", ResolutionMode::Cjs, &mut inv).unwrap();
    assert_eq!(resolved_path(&r), "/lib/x.js");
}

/// A package directory without a `package.json` still serves its files and
/// its index; a missing subpath is `ModuleSubpathNotFound`.
#[test]
fn package_without_manifest() {
    let mut fs = InMemoryFileSystem::new();
    fs.add_dir("/p");
    fs.add_dir("/p/node_modules");
    fs.add_dir("/p/node_modules/raw");
    fs.add_file("/p/node_modules/raw/index.js", "");
    fs.add_file("/p/node_modules/raw/util.js", "");
    let mut resolver = Resolver::new(fs, config());
    let mut inv = Invalidations::new();

    let r = resolver.resolve("raw", "/p/main.js", ResolutionMode::Cjs, &mut inv).unwrap();
    assert_eq!(resolved_path(&r), "/p/node_modules/raw/index.js");
    let r = resolver.resolve("raw/util", "/p/main.js", ResolutionMode::Cjs, &mut inv).unwrap();
    assert_eq!(resolved_path(&r), "/p/node_modules/raw/util.js");

    let err = resolver.resolve("raw/gone", "/p/main.js", ResolutionMode::Cjs, &mut inv).unwrap_err();
    match err {
        ResolverError::ModuleSubpathNotFound { module, .. } => assert_eq!(module, "raw"),
        other => panic!("expected ModuleSubpathNotFound, got {:?}", other),
    }
}

/// The browser field's map remaps specific subpaths for browser builds.
#[test]
fn browser_field_remaps_subpath() {
    let mut fs = InMemoryFileSystem::new();
    fs.add_dir("/p");
    fs.add_dir("/p/node_modules");
    fs.add_dir("/p/node_modules/iso2");
    fs.add_file(
        "/p/node_modules/iso2/package.json",
        "{\"browser\":{\"./net.js\":\"./net-browser.js\"}}",
    );
    fs.add_file("/p/node_modules/iso2/net.js", "");
    fs.add_file("/p/node_modules/iso2/net-browser.js", "");
    let browser_config = ResolverConfig {
        extensions: vec![".js".to_string()],
        conditions: vec![],
        browser: true,
    };
    let mut resolver = Resolver::new(fs, browser_config);
    let mut inv = Invalidations::new();
    let r = resolver.resolve("iso2/net.js", "/p/main.js", ResolutionMode::Cjs, &mut inv).unwrap();
    assert_eq!(resolved_path(&r), "/p/node_modules/iso2/net-browser.js");
}

/// A package's version travels with the resolution when its manifest has
/// one.
#[test]
fn package_version_metadata() {
    let mut fs = InMemoryFileSystem::new();
    fs.add_dir("/p");
    fs.add_dir("/p/node_modules");
    fs.add_dir("/p/node_modules/vpkg");
    fs.add_file(
        "/p/node_modules/vpkg/package.json",
        "{\"name\":\"vpkg\",\"version\":\"1.2.3\",\"main\":\"index.js\"}",
    );
    fs.add_file("/p/node_modules/vpkg/index.js", "");
    let mut resolver = Resolver::new(fs, config());
    let mut inv = Invalidations::new();
    let r = resolver.resolve("vpkg", "/p/main.js", ResolutionMode::Cjs, &mut inv).unwrap();
    match &r {
        ResolvedModule::Path { package, version, .. } => {
            assert_eq!(package.as_deref(), Some("vpkg"));
            assert_eq!(version.as_deref(), Some("1.2.3"));
        },
        _ => panic!("expected a path"),
    }
}

/// The nearest `package.json` above a file is found by the ancestor walk;
/// finding none is its own error and records the watch that would overturn
/// it.
#[test]
fn find_package_json_walk() {
    let mut fs = InMemoryFileSystem::new();
    fs.add_dir("/proj");
    fs.add_dir("/proj/src");
    fs.add_file("/proj/package.json", "{\"name\":\"app\"}");
    fs.add_file("/proj/src/entry.js", "");
    let mut resolver = Resolver::new(fs, config());
    let mut inv = Invalidations::new();
    let found = resolver.find_package_json("/proj/src/entry.js", &mut inv).unwrap();
    assert_eq!(path_to_string(&found), "/proj/package.json");

    let mut other = InMemoryFileSystem::new();
    other.add_dir("/bare");
    other.add_file("/bare/entry.js", "");
    let mut resolver = Resolver::new(other, config());
    let mut inv = Invalidations::new();
    let err = resolver.find_package_json("/bare/entry.js", &mut inv).unwrap_err();
    assert_eq!(err, ResolverError::PackageJsonNotFound { from: split_path("/bare/entry.js") });
    assert!(inv.invalidate_on_file_create.contains(&FileCreateInvalidation::FileName {
        file_name: "package.json".to_string(),
        above: split_path("/bare/entry.js"),
    }));
}

/// Merged invalidation records are set unions.
#[test]
fn invalidations_extend_is_union() {
    let mut a = Invalidations::new();
    let mut b = Invalidations::new();
    let p1 = split_path("/x/a.js");
    let p2 = split_path("/x/b.js");
    a.invalidate_on_file_change(&p1);
    b.invalidate_on_file_change(&p1);
    b.invalidate_on_file_change(&p2);
    b.invalidate_on_startup();
    a.extend(&b);
    assert_eq!(a.invalidate_on_file_change.len(), 2);
    assert!(a.invalidate_on_startup);
    // inserting an element twice leaves the set unchanged
    a.invalidate_on_file_change(&p2);
    assert_eq!(a.invalidate_on_file_change.len(), 2);
}
