//! The transform-facing configuration: what kind of asset is being
//! processed, which environment it targets, and the switches the pipeline
//! derives from them.

use vstd::prelude::*;

verus! {

/// The syntax of the asset being transformed.
#[derive(Clone, Copy, PartialEq, Eq, Structural, Debug)]
pub enum Type {
    Js,
    Jsx,
    Ts,
    Tsx,
    Mdx,
}

impl Default for Type {
    fn default() -> (r: Type)
        ensures
            r == Type::Js,
    {
        Type::Js
    }
}

/// The environment the output runs in.
#[derive(Clone, Copy, PartialEq, Eq, Structural, Debug)]
pub enum EnvContext {
    Browser,
    WebWorker,
    ServiceWorker,
    Worklet,
    Node,
    ElectronRenderer,
    ElectronMain,
    EdgeRoutine,
    ReactClient,
    ReactServer,
}

impl Default for EnvContext {
    fn default() -> (r: EnvContext)
        ensures
            r == EnvContext::Browser,
    {
        EnvContext::Browser
    }
}

/// Whether the source is an ECMAScript module or a classic script.
#[derive(Clone, Copy, PartialEq, Eq, Structural, Debug)]
pub enum SourceType {
    Module,
    Script,
}

/// The switches of one transform run that this library decides.
#[derive(Clone, Copy, PartialEq, Eq, Structural, Debug)]
pub struct Config {
    pub context: EnvContext,
    pub asset_type: Type,
    pub source_type: SourceType,
    pub is_library: bool,
    pub react_refresh: bool,
    pub inline_fs: bool,
}

/// Whether the context renders in a browser-like environment.
pub open spec fn spec_is_browser(c: EnvContext) -> bool {
    c is Browser || c is WebWorker || c is ServiceWorker || c is Worklet || c is ElectronRenderer
        || c is ReactClient
}

/// Whether the context runs under Node.
pub open spec fn spec_is_node(c: EnvContext) -> bool {
    c is Node || c is ElectronMain || c is ElectronRenderer || c is ReactServer
}

/// Whether the context is a server.
pub open spec fn spec_is_server(c: EnvContext) -> bool {
    c is Node || c is ReactServer
}

/// Whether the context is a worker.
pub open spec fn spec_is_worker(c: EnvContext) -> bool {
    c is WebWorker || c is ServiceWorker
}

impl Config {
    pub fn is_browser(&self) -> (r: bool)
        ensures
            r == spec_is_browser(self.context),
    {
        matches!(
            self.context,
            EnvContext::Browser | EnvContext::WebWorker | EnvContext::ServiceWorker
                | EnvContext::Worklet | EnvContext::ElectronRenderer | EnvContext::ReactClient
        )
    }

    pub fn is_node(&self) -> (r: bool)
        ensures
            r == spec_is_node(self.context),
    {
        matches!(
            self.context,
            EnvContext::Node | EnvContext::ElectronMain | EnvContext::ElectronRenderer
                | EnvContext::ReactServer
        )
    }

    pub fn is_server(&self) -> (r: bool)
        ensures
            r == spec_is_server(self.context),
    {
        matches!(self.context, EnvContext::Node | EnvContext::ReactServer)
    }

    pub fn is_worker(&self) -> (r: bool)
        ensures
            r == spec_is_worker(self.context),
    {
        matches!(self.context, EnvContext::WebWorker | EnvContext::ServiceWorker)
    }

    pub fn is_worklet(&self) -> (r: bool)
        ensures
            r == (self.context is Worklet),
    {
        matches!(self.context, EnvContext::Worklet)
    }

    /// React fast refresh runs only for browser application code outside
    /// workers and worklets, and only when asked for.
    pub fn react_refresh(&self) -> (r: bool)
        ensures
            r == (spec_is_browser(self.context) && !self.is_library && !spec_is_worker(
                self.context,
            ) && !(self.context is Worklet) && self.react_refresh),
    {
        self.is_browser() && !self.is_library && !self.is_worker() && !self.is_worklet()
            && self.react_refresh
    }

    /// `readFileSync` inlining runs only off Node, for module sources, when
    /// asked for.
    pub fn inline_fs(&self) -> (r: bool)
        ensures
            r == (self.inline_fs && !spec_is_node(self.context) && self.source_type
                != SourceType::Script),
    {
        self.inline_fs && !self.is_node() && !matches!(self.source_type, SourceType::Script)
    }

    /// `__dirname`/`__filename` replacement runs under Node.
    pub fn node_replacer(&self) -> (r: bool)
        ensures
            r == spec_is_node(self.context),
    {
        self.is_node()
    }

    /// Node globals are polyfilled off Node, for module sources.
    pub fn insert_node_globals(&self) -> (r: bool)
        ensures
            r == (!spec_is_node(self.context) && self.source_type != SourceType::Script),
    {
        !self.is_node() && !matches!(self.source_type, SourceType::Script)
    }

    /// `process.env` is inlined off Node, and for React server code.
    pub fn replace_env(&self) -> (r: bool)
        ensures
            r == (!spec_is_node(self.context) || self.context is ReactServer),
    {
        !self.is_node() || matches!(self.context, EnvContext::ReactServer)
    }

    pub fn is_jsx(&self) -> (r: bool)
        ensures
            r == (self.asset_type is Jsx || self.asset_type is Tsx || self.asset_type is Mdx),
    {
        matches!(self.asset_type, Type::Jsx | Type::Tsx | Type::Mdx)
    }

    pub fn is_type_script(&self) -> (r: bool)
        ensures
            r == (self.asset_type is Ts || self.asset_type is Tsx),
    {
        matches!(self.asset_type, Type::Ts | Type::Tsx)
    }
}

} // verus!
