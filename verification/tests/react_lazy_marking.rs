//! Dependencies created inside a `React.lazy` call are flagged.

use parcel_resolver::react_lazy::{
    CallNode, Callee, Collect, DependencyDescriptor, DependencyFlags, DependencyKind, Ident,
    Import, ReactLazy,
};

fn lazy_dep() -> DependencyDescriptor {
    DependencyDescriptor {
        specifier: "./lazy".to_string(),
        kind: DependencyKind::DynamicImport,
        flags: DependencyFlags::empty(),
        placeholder: None,
    }
}

fn run(imports: Vec<(Ident, Import)>, calls: Vec<CallNode>) {
    let collect = Collect { imports };
    let mut pass = ReactLazy::new(collect, vec![lazy_dep()]);
    pass.visit_module(&calls);
    let deps = pass.into_deps();
    assert_eq!(deps[0].flags, DependencyFlags { react_lazy: true });
}

fn dynamic_import(specifier: &str) -> CallNode {
    CallNode {
        callee: Callee::Import,
        arg0: Some(specifier.to_string()),
        children: vec![],
    }
}

#[test]
fn test_named_import() {
    let code = r#"
import {lazy} from 'react';

const Foo = lazy(() => import('./lazy'));
    "#;
    assert!(code.contains("lazy(() => import('./lazy'))"));
    // `lazy` is bound to the `lazy` export of react; the call wraps a
    // dynamic import of ./lazy.
    let imports = vec![(
        Ident { sym: "lazy".to_string(), ctxt: 1 },
        Import { source: "react".to_string(), specifier: "lazy".to_string() },
    )];
    let calls = vec![CallNode {
        callee: Callee::Ident(Ident { sym: "lazy".to_string(), ctxt: 1 }),
        arg0: None,
        children: vec![dynamic_import("./lazy")],
    }];
    run(imports, calls);
}

#[test]
fn test_namespace_import() {
    let code = r#"
  import * as React from 'react';

  const Foo = React.lazy(() => import('./lazy'));
      "#;
    assert!(code.contains("React.lazy"));
    let imports = vec![(
        Ident { sym: "React".to_string(), ctxt: 1 },
        Import { source: "react".to_string(), specifier: "*".to_string() },
    )];
    let calls = vec![CallNode {
        callee: Callee::Member {
            obj: Ident { sym: "React".to_string(), ctxt: 1 },
            prop: "lazy".to_string(),
        },
        arg0: None,
        children: vec![dynamic_import("./lazy")],
    }];
    run(imports, calls);
}

#[test]
fn test_default_import() {
    let code = r#"
  import React from 'react';

  const Foo = React.lazy(() => import('./lazy'));
      "#;
    assert!(code.contains("React.lazy"));
    let imports = vec![(
        Ident { sym: "React".to_string(), ctxt: 1 },
        Import { source: "react".to_string(), specifier: "default".to_string() },
    )];
    let calls = vec![CallNode {
        callee: Callee::Member {
            obj: Ident { sym: "React".to_string(), ctxt: 1 },
            prop: "lazy".to_string(),
        },
        arg0: None,
        children: vec![dynamic_import("./lazy")],
    }];
    run(imports, calls);
}

#[test]
fn test_lazy_from_other_package_not_marked() {
    let imports = vec![(
        Ident { sym: "lazy".to_string(), ctxt: 1 },
        Import { source: "preact".to_string(), specifier: "lazy".to_string() },
    )];
    let collect = Collect { imports };
    let calls = vec![CallNode {
        callee: Callee::Ident(Ident { sym: "lazy".to_string(), ctxt: 1 }),
        arg0: None,
        children: vec![dynamic_import("./lazy")],
    }];
    let mut pass = ReactLazy::new(collect, vec![lazy_dep()]);
    pass.visit_module(&calls);
    let deps = pass.into_deps();
    assert_eq!(deps[0].flags, DependencyFlags::empty());
}

#[test]
fn test_dynamic_import_outside_lazy_not_marked() {
    let imports = vec![(
        Ident { sym: "lazy".to_string(), ctxt: 1 },
        Import { source: "react".to_string(), specifier: "lazy".to_string() },
    )];
    let collect = Collect { imports };
    // the import is a sibling of the lazy call, not inside it
    let calls = vec![
        CallNode {
            callee: Callee::Ident(Ident { sym: "lazy".to_string(), ctxt: 1 }),
            arg0: None,
            children: vec![],
        },
        dynamic_import("./lazy"),
    ];
    let mut pass = ReactLazy::new(collect, vec![lazy_dep()]);
    pass.visit_module(&calls);
    let deps = pass.into_deps();
    assert_eq!(deps[0].flags, DependencyFlags::empty());
}
