//! The pure pieces, exercised directly.

use parcel_resolver::error::{PackageJsonError, SpecifierError};
use parcel_resolver::invalidations::{FileCreateInvalidation, Invalidations};
use parcel_resolver::fs::{FileKind, FileSystem, IoErrorKind};
use parcel_resolver::json::{parse_json, JsonValue};
use parcel_resolver::mdx::{insert_toc, is_url, toc, MdHeading, TocNode};
use parcel_resolver::memfs::InMemoryFileSystem;
use parcel_resolver::package_json::{exports_key, pattern_match, resolve_exports, star_replace};
use parcel_resolver::paths::{apply_segments, parent, path_to_string, split_path};
use parcel_resolver::specifier::{is_builtin, parse_specifier, Specifier};
use parcel_resolver::transform::{Config, EnvContext, SourceType, Type};

#[test]
fn split_and_render_paths() {
    assert_eq!(split_path("/proj/src/foo.js"), vec!["proj", "src", "foo.js"]);
    assert_eq!(split_path("//a//b/"), vec!["a", "b"]);
    assert_eq!(split_path("/"), Vec::<String>::new());
    assert_eq!(path_to_string(&split_path("/proj/src/foo.js")), "/proj/src/foo.js");
    assert_eq!(path_to_string(&Vec::new()), "/");
}

#[test]
fn segments_apply_dots() {
    let base = split_path("/a/b/c");
    let segs = split_path("../.././d");
    assert_eq!(path_to_string(&apply_segments(&base, &segs)), "/a/d");
    // `..` clamps at the root
    let above = split_path("../../../../x");
    assert_eq!(path_to_string(&apply_segments(&parent(&base), &above)), "/x");
}

#[test]
fn specifier_classification() {
    assert_eq!(
        parse_specifier("./x.js"),
        Ok(Specifier::Relative { path: "./x.js".to_string() })
    );
    assert_eq!(
        parse_specifier("/abs/x.js"),
        Ok(Specifier::Absolute { path: "/abs/x.js".to_string() })
    );
    assert_eq!(
        parse_specifier("axios"),
        Ok(Specifier::Bare { name: "axios".to_string(), subpath: "".to_string() })
    );
    assert_eq!(
        parse_specifier("axios/lib/core"),
        Ok(Specifier::Bare { name: "axios".to_string(), subpath: "lib/core".to_string() })
    );
    assert_eq!(
        parse_specifier("@parcel/core"),
        Ok(Specifier::Bare { name: "@parcel/core".to_string(), subpath: "".to_string() })
    );
    assert_eq!(
        parse_specifier("@parcel/core/lib/x"),
        Ok(Specifier::Bare { name: "@parcel/core".to_string(), subpath: "lib/x".to_string() })
    );
    assert_eq!(parse_specifier("fs"), Ok(Specifier::Builtin { name: "fs".to_string() }));
    assert_eq!(
        parse_specifier("https://example.com/x.js"),
        Ok(Specifier::Url {
            scheme: "https".to_string(),
            rest: "//example.com/x.js".to_string()
        })
    );
    assert_eq!(parse_specifier(""), Err(SpecifierError::Empty));
    assert_eq!(parse_specifier("@scope"), Err(SpecifierError::InvalidPackageSpecifier));
    assert_eq!(parse_specifier("#internal"), Err(SpecifierError::InvalidPackageSpecifier));
    assert!(is_builtin("path"));
    assert!(!is_builtin("leftpad"));
}

#[test]
fn json_parsing_and_order() {
    let v = parse_json("{\"b\":1,\"a\":\"x\"}").unwrap();
    match v {
        JsonValue::Object(entries) => {
            // document order is kept
            assert_eq!(entries[0].0, "b");
            assert_eq!(entries[1].0, "a");
            assert_eq!(entries[1].1, JsonValue::String("x".to_string()));
        },
        other => panic!("expected an object, got {:?}", other),
    }
    let err = parse_json("{\"a\": }").unwrap_err();
    assert_eq!(err.line, 1);
    assert!(err.column > 0);
}

#[test]
fn exports_map_matching() {
    let exports = JsonValue::Object(vec![
        (".".to_string(), JsonValue::String("./main.js".to_string())),
        ("./a".to_string(), JsonValue::String("./a.js".to_string())),
        ("./features/*".to_string(), JsonValue::String("./src/*.mjs".to_string())),
    ]);
    let conds: Vec<String> = vec!["require".to_string()];
    assert_eq!(resolve_exports(&exports, ".", &conds), Ok("./main.js".to_string()));
    assert_eq!(resolve_exports(&exports, "./a", &conds), Ok("./a.js".to_string()));
    assert_eq!(
        resolve_exports(&exports, "./features/x", &conds),
        Ok("./src/x.mjs".to_string())
    );
    assert_eq!(
        resolve_exports(&exports, "./b", &conds),
        Err(PackageJsonError::PackagePathNotExported)
    );
    // a target outside the package is refused
    let bad = JsonValue::Object(vec![(
        "./a".to_string(),
        JsonValue::String("/etc/passwd".to_string()),
    )]);
    assert_eq!(
        resolve_exports(&bad, "./a", &conds),
        Err(PackageJsonError::InvalidPackageTarget)
    );
    // `null` blocks a path
    let blocked = JsonValue::Object(vec![("./a".to_string(), JsonValue::Null)]);
    assert_eq!(
        resolve_exports(&blocked, "./a", &conds),
        Err(PackageJsonError::PackagePathNotExported)
    );
    assert_eq!(exports_key(""), ".");
    assert_eq!(exports_key("a/b"), "./a/b");
}

#[test]
fn patterns_and_stars() {
    assert_eq!(pattern_match("./features/*", "./features/x/y"), Some("x/y".to_string()));
    assert_eq!(pattern_match("./features/*.js", "./features/x.js"), Some("x".to_string()));
    assert_eq!(pattern_match("./features/*", "./other/x"), None);
    assert_eq!(pattern_match("./exact", "./exact"), None);
    assert_eq!(star_replace("./src/*/impl/*.js", "x"), "./src/x/impl/x.js");
}

#[test]
fn memfs_kinds_and_links() {
    let mut fs = InMemoryFileSystem::new();
    fs.add_dir("/d");
    fs.add_file("/d/f.txt", "hello");
    fs.add_symlink("/d/l", "/d/f.txt");
    fs.add_symlink("/d/loop", "/d/loop");

    assert_eq!(fs.kind(&split_path("/d")), FileKind { is_file: false, is_dir: true, is_symlink: false });
    assert_eq!(
        fs.kind(&split_path("/d/f.txt")),
        FileKind { is_file: true, is_dir: false, is_symlink: false }
    );
    assert_eq!(
        fs.kind(&split_path("/d/l")),
        FileKind { is_file: true, is_dir: false, is_symlink: true }
    );
    assert_eq!(
        fs.kind(&split_path("/d/loop")),
        FileKind { is_file: false, is_dir: false, is_symlink: true }
    );
    assert_eq!(fs.kind(&split_path("/d/missing")), FileKind { is_file: false, is_dir: false, is_symlink: false });

    assert_eq!(fs.read_to_string(&split_path("/d/l")).unwrap(), "hello");
    assert_eq!(
        fs.read_to_string(&split_path("/d/missing")).unwrap_err(),
        IoErrorKind::NotFound
    );
    assert_eq!(fs.read_link(&split_path("/d/l")).unwrap(), split_path("/d/f.txt"));
    assert_eq!(fs.read_link(&split_path("/d/f.txt")).unwrap_err(), IoErrorKind::Other);
}

#[test]
fn toc_nesting() {
    let headings = vec![
        MdHeading { level: 1, title: "Top".to_string() },
        MdHeading { level: 2, title: "Sub".to_string() },
        MdHeading { level: 3, title: "SubSub".to_string() },
        MdHeading { level: 2, title: "Sub2".to_string() },
        MdHeading { level: 1, title: "Top2".to_string() },
    ];
    let tree = toc(&headings);
    assert_eq!(tree.len(), 2);
    assert_eq!(tree[0].title, "Top");
    assert_eq!(tree[0].children.len(), 2);
    assert_eq!(tree[0].children[0].title, "Sub");
    assert_eq!(tree[0].children[0].children[0].title, "SubSub");
    assert_eq!(tree[0].children[1].title, "Sub2");
    assert_eq!(tree[1].title, "Top2");

    let mut forest: Vec<TocNode> = Vec::new();
    insert_toc(
        &mut forest,
        TocNode { title: "A".to_string(), level: 2, children: vec![] },
        64,
    );
    assert_eq!(forest.len(), 1);
}

#[test]
fn url_attributes() {
    assert!(is_url("img", "src"));
    assert!(is_url("a", "href"));
    assert!(is_url("use", "xlink:href"));
    assert!(is_url("video", "poster"));
    assert!(!is_url("img", "href"));
    assert!(!is_url("div", "src"));
}

#[test]
fn invalidation_record_methods() {
    let mut inv = Invalidations::new();
    inv.invalidate_on_glob_create("node_modules/**");
    inv.invalidate_on_glob_create("node_modules/**");
    inv.invalidate_on_file_create_above("package.json", &split_path("/p/src"));
    assert_eq!(inv.invalidate_on_file_create.len(), 2);
    assert!(inv
        .invalidate_on_file_create
        .contains(&FileCreateInvalidation::Glob("node_modules/**".to_string())));
    assert!(!inv.invalidate_on_startup);
    inv.invalidate_on_startup();
    assert!(inv.invalidate_on_startup);
}

#[test]
fn transform_switches() {
    let node = Config {
        context: EnvContext::Node,
        asset_type: Type::Ts,
        source_type: SourceType::Module,
        is_library: false,
        react_refresh: true,
        inline_fs: true,
    };
    assert!(!node.is_browser());
    assert!(node.is_node());
    assert!(node.is_server());
    assert!(node.node_replacer());
    assert!(!node.insert_node_globals());
    assert!(!node.replace_env());
    assert!(!node.inline_fs());
    assert!(!node.react_refresh());
    assert!(node.is_type_script());
    assert!(!node.is_jsx());

    let browser = Config { context: EnvContext::Browser, asset_type: Type::Jsx, ..node };
    assert!(browser.is_browser());
    assert!(browser.react_refresh());
    assert!(browser.inline_fs());
    assert!(browser.is_jsx());
    assert!(!browser.is_type_script());

    let worker = Config { context: EnvContext::WebWorker, ..node };
    assert!(worker.is_worker());
    assert!(!worker.react_refresh());
}
