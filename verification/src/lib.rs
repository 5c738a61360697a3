//! A module-specifier resolver with Node.js-compatible semantics.
//!
//! Given a specifier string as it appears in an `import` or `require`
//! statement and the path of the file that contains it, the resolver locates
//! the file on disk that the specifier refers to, following relative and
//! absolute paths, `node_modules` ancestor walks, package `exports` maps,
//! entry fields, tsconfig path mappings and symlinks. Every filesystem fact a
//! resolution depends on is recorded so that a caller can invalidate cached
//! results when the filesystem changes.

pub mod cache;
pub mod error;
pub mod fs;
pub mod invalidations;
pub mod json;
pub mod laws;
pub mod mdx;
pub mod memfs;
pub mod package_json;
pub mod paths;
pub mod react_lazy;
pub mod resolver;
pub mod transform;
pub mod specifier;
pub mod strutil;
pub mod tsconfig;
