//! Marking of dependencies created inside a `React.lazy` call.
//!
//! The pass reads from a module only what the decision needs: the imports in
//! scope (which binding came from which package, under which imported name)
//! and the tree of call expressions, each with its callee shape, its first
//! string argument and its nested calls. A dynamic import whose specifier is
//! requested inside a `lazy(...)` call of the `react` package has its
//! dependency flagged.

use vstd::prelude::*;

use crate::strutil;

verus! {

broadcast use vstd::string::group_string_axioms;

/// A resolved identifier: its name and its syntax context.
#[derive(PartialEq, Eq, Debug)]
pub struct Ident {
    pub sym: String,
    pub ctxt: u32,
}

/// One import in scope: the package it came from and the imported name
/// (`*` for a namespace import, `default` for a default import).
#[derive(PartialEq, Eq, Debug)]
pub struct Import {
    pub source: String,
    pub specifier: String,
}

/// What a collection pass gathered from the module: which identifier binds
/// which import.
#[derive(PartialEq, Eq, Debug)]
pub struct Collect {
    pub imports: Vec<(Ident, Import)>,
}

/// The shape of a call's callee, as far as the decision reads it.
#[derive(PartialEq, Eq, Debug)]
pub enum Callee {
    /// A plain identifier: `lazy(...)`, `require(...)`.
    Ident(Ident),
    /// A member of an identifier: `React.lazy(...)`.
    Member { obj: Ident, prop: String },
    /// The `import(...)` form itself.
    Import,
    /// Anything else.
    Other,
}

/// One call expression: its callee, its first argument when that is a
/// string, and the calls nested anywhere under it, in source order.
#[derive(PartialEq, Eq, Debug)]
pub struct CallNode {
    pub callee: Callee,
    pub arg0: Option<String>,
    pub children: Vec<CallNode>,
}

/// The ways a dependency enters a module.
#[derive(Clone, Copy, PartialEq, Eq, Structural, Debug)]
pub enum DependencyKind {
    Import,
    Require,
    DynamicImport,
}

/// The flags attached to a dependency.
#[derive(Clone, Copy, PartialEq, Eq, Structural, Debug)]
pub struct DependencyFlags {
    pub react_lazy: bool,
}

impl DependencyFlags {
    pub fn empty() -> (r: DependencyFlags)
        ensures
            r == (DependencyFlags { react_lazy: false }),
    {
        DependencyFlags { react_lazy: false }
    }
}

/// One dependency a module declares.
#[derive(PartialEq, Eq, Debug)]
pub struct DependencyDescriptor {
    pub specifier: String,
    pub kind: DependencyKind,
    pub flags: DependencyFlags,
    pub placeholder: Option<String>,
}

/// The import bound to `id`, if any: the first matching entry.
pub open spec fn spec_lookup_import(imports: Seq<(Ident, Import)>, id: Ident) -> Option<Import>
    decreases imports.len(),
{
    if imports.len() == 0 {
        None
    } else if imports.first().0.sym@ == id.sym@ && imports.first().0.ctxt == id.ctxt {
        Some(imports.first().1)
    } else {
        spec_lookup_import(imports.drop_first(), id)
    }
}

/// Whether the callee refers to the `lazy` export of the `react` package:
/// a binding imported as `lazy`, or the `lazy` member of a namespace or
/// default import of `react`.
pub open spec fn spec_is_lazy_callee(imports: Seq<(Ident, Import)>, callee: Callee) -> bool {
    match callee {
        Callee::Ident(id) => match spec_lookup_import(imports, id) {
            Some(imp) => imp.source@ == "react"@ && imp.specifier@ == "lazy"@,
            None => false,
        },
        Callee::Member { obj, prop } => match spec_lookup_import(imports, obj) {
            Some(imp) => imp.source@ == "react"@ && (imp.specifier@ == "*"@ || imp.specifier@
                == "default"@) && prop@ == "lazy"@,
            None => false,
        },
        _ => false,
    }
}

/// Whether the callee requests a module: `import(...)` or `require(...)`.
pub open spec fn spec_is_import_callee(callee: Callee) -> bool {
    match callee {
        Callee::Import => true,
        Callee::Ident(id) => id.sym@ == "require"@,
        _ => false,
    }
}

/// `d` with its react-lazy flag set when it is the dynamic import of
/// `specifier` (directly or through its placeholder).
pub open spec fn spec_marked(d: DependencyDescriptor, specifier: Seq<char>) -> DependencyDescriptor {
    if d.kind is DynamicImport && (d.specifier@ == specifier || (d.placeholder matches Some(p)
        && p@ == specifier)) {
        DependencyDescriptor { flags: DependencyFlags { react_lazy: true }, ..d }
    } else {
        d
    }
}

/// Every dependency marked against `specifier`.
pub open spec fn spec_mark_all(deps: Seq<DependencyDescriptor>, specifier: Seq<char>) -> Seq<
    DependencyDescriptor,
> {
    Seq::new(deps.len(), |i: int| spec_marked(deps[i], specifier))
}

/// The dependencies after visiting one call: a `lazy` callee visits its
/// children with the flag raised; any other call visits its children first
/// and then, inside a `lazy` call, a module request with a string argument
/// marks the matching dependencies. `fuel` bounds the tree depth.
pub open spec fn spec_visit_call(
    imports: Seq<(Ident, Import)>,
    deps: Seq<DependencyDescriptor>,
    in_lazy: bool,
    node: CallNode,
    fuel: nat,
) -> Seq<DependencyDescriptor>
    decreases fuel, 0nat,
{
    if fuel == 0 {
        deps
    } else if spec_is_lazy_callee(imports, node.callee) {
        spec_visit_calls(imports, deps, true, node.children@, (fuel - 1) as nat)
    } else {
        let d2 = spec_visit_calls(imports, deps, in_lazy, node.children@, (fuel - 1) as nat);
        if in_lazy && spec_is_import_callee(node.callee) && node.arg0 is Some {
            spec_mark_all(d2, node.arg0->Some_0@)
        } else {
            d2
        }
    }
}

/// The dependencies after visiting each call in order.
pub open spec fn spec_visit_calls(
    imports: Seq<(Ident, Import)>,
    deps: Seq<DependencyDescriptor>,
    in_lazy: bool,
    nodes: Seq<CallNode>,
    fuel: nat,
) -> Seq<DependencyDescriptor>
    decreases fuel, nodes.len() + 1,
{
    if nodes.len() == 0 {
        deps
    } else {
        let d1 = spec_visit_call(imports, deps, in_lazy, nodes.first(), fuel);
        spec_visit_calls(imports, d1, in_lazy, nodes.drop_first(), fuel)
    }
}

/// This pass marks dependencies created inside a `React.lazy` call.
pub struct ReactLazy {
    pub collect: Collect,
    pub deps: Vec<DependencyDescriptor>,
    pub in_lazy: bool,
}

impl ReactLazy {
    /// A pass over the given collection results, marking the given
    /// dependencies.
    pub fn new(collect: Collect, deps: Vec<DependencyDescriptor>) -> (r: ReactLazy)
        ensures
            r.collect == collect,
            r.deps == deps,
            !r.in_lazy,
    {
        ReactLazy { collect, deps, in_lazy: false }
    }

    /// The marked dependencies, handed back.
    pub fn into_deps(self) -> (r: Vec<DependencyDescriptor>)
        ensures
            r == self.deps,
    {
        self.deps
    }

    /// Visits the top-level calls of a module, in order.
    pub fn visit_module(&mut self, calls: &Vec<CallNode>)
        ensures
            final(self).collect == old(self).collect,
            final(self).deps@ == spec_visit_calls(
                old(self).collect.imports@,
                old(self).deps@,
                old(self).in_lazy,
                calls@,
                64,
            ),
    {
        self.visit_calls_from(calls, 0, 64);
        proof {
            assert(calls@.skip(0) =~= calls@);
        }
    }

    fn visit_calls_from(&mut self, calls: &Vec<CallNode>, i: usize, fuel: u32)
        requires
            i <= calls@.len(),
        ensures
            final(self).collect == old(self).collect,
            final(self).in_lazy == old(self).in_lazy,
            final(self).deps@ == spec_visit_calls(
                old(self).collect.imports@,
                old(self).deps@,
                old(self).in_lazy,
                calls@.skip(i as int),
                fuel as nat,
            ),
        decreases fuel, calls@.len() - i, 1nat,
    {
        if i >= calls.len() {
            proof {
                assert(calls@.skip(i as int) =~= Seq::<CallNode>::empty());
            }
            return ;
        }
        proof {
            assert(calls@.skip(i as int).first() == calls@[i as int]);
            assert(calls@.skip(i as int).drop_first() =~= calls@.skip(i as int + 1));
        }
        self.visit_call(&calls[i], fuel);
        self.visit_calls_from(calls, i + 1, fuel);
    }

    /// Visits one call, as the original visitor does: a `lazy` callee raises
    /// the flag around its children; afterwards, inside a lazy call, a
    /// module request with a string argument marks the dependencies.
    pub fn visit_call(&mut self, node: &CallNode, fuel: u32)
        ensures
            final(self).collect == old(self).collect,
            final(self).in_lazy == old(self).in_lazy,
            final(self).deps@ == spec_visit_call(
                old(self).collect.imports@,
                old(self).deps@,
                old(self).in_lazy,
                *node,
                fuel as nat,
            ),
        decreases fuel, 0nat, 0nat,
    {
        if fuel == 0 {
            return ;
        }
        if self.is_lazy_callee(&node.callee) {
            let saved = self.in_lazy;
            self.in_lazy = true;
            self.visit_calls_from(&node.children, 0, fuel - 1);
            self.in_lazy = saved;
            proof {
                assert(node.children@.skip(0) =~= node.children@);
            }
            return ;
        }
        self.visit_calls_from(&node.children, 0, fuel - 1);
        proof {
            assert(node.children@.skip(0) =~= node.children@);
        }
        if !self.in_lazy {
            return ;
        }
        let is_import = match &node.callee {
            Callee::Import => true,
            Callee::Ident(id) => strutil::str_eq(id.sym.as_str(), "require"),
            _ => false,
        };
        if !is_import {
            return ;
        }
        match &node.arg0 {
            Some(specifier) => {
                self.mark_all(specifier.as_str());
            },
            None => {},
        }
    }

    fn is_lazy_callee(&self, callee: &Callee) -> (r: bool)
        ensures
            r == spec_is_lazy_callee(self.collect.imports@, *callee),
    {
        match callee {
            Callee::Ident(id) => {
                match self.lookup_import(id) {
                    Some(k) => {
                        let imp = &self.collect.imports[k].1;
                        strutil::str_eq(imp.source.as_str(), "react") && strutil::str_eq(
                            imp.specifier.as_str(),
                            "lazy",
                        )
                    },
                    None => false,
                }
            },
            Callee::Member { obj, prop } => {
                match self.lookup_import(obj) {
                    Some(k) => {
                        let imp = &self.collect.imports[k].1;
                        strutil::str_eq(imp.source.as_str(), "react") && (strutil::str_eq(
                            imp.specifier.as_str(),
                            "*",
                        ) || strutil::str_eq(imp.specifier.as_str(), "default")) && strutil::str_eq(
                            prop.as_str(),
                            "lazy",
                        )
                    },
                    None => false,
                }
            },
            _ => false,
        }
    }

    fn lookup_import(&self, id: &Ident) -> (r: Option<usize>)
        ensures
            match r {
                Some(k) => k < self.collect.imports@.len() && spec_lookup_import(
                    self.collect.imports@,
                    *id,
                ) == Some(self.collect.imports@[k as int].1),
                None => spec_lookup_import(self.collect.imports@, *id) is None,
            },
    {
        let imports = &self.collect.imports;
        let mut k: usize = 0;
        assert(imports@.skip(0) =~= imports@);
        while k < imports.len()
            invariant
                k <= imports@.len(),
                imports@ == self.collect.imports@,
                spec_lookup_import(imports@, *id) == spec_lookup_import(
                    imports@.skip(k as int),
                    *id,
                ),
            decreases imports@.len() - k,
        {
            proof {
                assert(imports@.skip(k as int).first() == imports@[k as int]);
                assert(imports@.skip(k as int).drop_first() =~= imports@.skip(k as int + 1));
            }
            if strutil::str_eq(imports[k].0.sym.as_str(), id.sym.as_str()) && imports[k].0.ctxt
                == id.ctxt {
                proof {
                    assert(imports@.skip(k as int).first().0.sym@ == id.sym@);
                    assert(spec_lookup_import(imports@.skip(k as int), *id) == Some(
                        imports@[k as int].1,
                    ));
                    assert(imports@ == self.collect.imports@);
                    assert(spec_lookup_import(self.collect.imports@, *id) == Some(
                        self.collect.imports@[k as int].1,
                    ));
                }
                return Some(k);
            }
            k += 1;
        }
        assert(imports@.skip(imports@.len() as int) =~= Seq::<(Ident, Import)>::empty());
        None
    }

    fn mark_all(&mut self, specifier: &str)
        ensures
            final(self).collect == old(self).collect,
            final(self).in_lazy == old(self).in_lazy,
            final(self).deps@ == spec_mark_all(old(self).deps@, specifier@),
    {
        let mut out: Vec<DependencyDescriptor> = Vec::new();
        let ghost orig = self.deps@;
        assert(out@ =~= Seq::<DependencyDescriptor>::empty());
        while self.deps.len() > 0
            invariant
                self.collect == old(self).collect,
                self.in_lazy == old(self).in_lazy,
                out@.len() + self.deps@.len() == orig.len(),
                self.deps@ =~= orig.skip(out@.len() as int),
                out@ =~= spec_mark_all(orig, specifier@).take(out@.len() as int),
            decreases self.deps@.len(),
        {
            let ghost pre = self.deps@;
            let d = self.deps.remove(0);
            proof {
                assert(pre.first() == pre[0]);
                assert(self.deps@ =~= pre.drop_first());
                assert(orig[out@.len() as int] == d);
                assert(pre.drop_first() =~= orig.skip(out@.len() as int + 1));
            }
            let is_dyn = matches!(d.kind, DependencyKind::DynamicImport);
            let spec_match = strutil::str_eq(d.specifier.as_str(), specifier) || (match
                &d.placeholder {
                Some(p) => strutil::str_eq(p.as_str(), specifier),
                None => false,
            });
            let ghost glen = out@.len() as int;
            if is_dyn && spec_match {
                let marked = DependencyDescriptor {
                    flags: DependencyFlags { react_lazy: true },
                    ..d
                };
                out.push(marked);
            } else {
                out.push(d);
            }
            proof {
                assert(out@ =~= spec_mark_all(orig, specifier@).take(glen + 1));
            }
        }
        self.deps = out;
        proof {
            assert(spec_mark_all(orig, specifier@).take(self.deps@.len() as int) =~= spec_mark_all(
                orig,
                specifier@,
            ));
            assert(self.deps@ =~= spec_mark_all(orig, specifier@));
        }
    }
}

} // verus!
