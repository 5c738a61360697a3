//! The closed set of typed failures a resolution can end in.
//!
//! Every dead end of the algorithm maps to one of these variants, each
//! carrying the structured context (which package, which field, which path)
//! a diagnostic needs; no raw I/O or parse failure crosses the resolver
//! boundary. Paths are carried as component vectors, as everywhere in this
//! crate.

use vstd::prelude::*;

use crate::fs::IoErrorKind;

verus! {

/// Why a specifier string could not be parsed at all.
#[derive(Clone, Copy, PartialEq, Eq, Structural, Debug)]
pub enum SpecifierError {
    /// The specifier was empty.
    Empty,
    /// The specifier was not a well-formed package reference.
    InvalidPackageSpecifier,
}

/// Why a package's `exports` map refused a request.
#[derive(Clone, Copy, PartialEq, Eq, Structural, Debug)]
pub enum PackageJsonError {
    /// The map constrains the package's paths and the requested one is not listed.
    PackagePathNotExported,
    /// A matched target does not stay inside the package.
    InvalidPackageTarget,
}

/// An error parsing JSON.
#[derive(Clone, PartialEq, Eq, Debug)]
pub struct JsonError {
    /// Path of the JSON file.
    pub path: Vec<String>,
    /// Line number of the error.
    pub line: usize,
    /// Column number of the error.
    pub column: usize,
    /// Reason for the error.
    pub message: String,
}

/// The modelled form of a [`JsonError`].
pub ghost struct JsonErrorModel {
    pub path: Seq<Seq<char>>,
    pub line: nat,
    pub column: nat,
    pub message: Seq<char>,
}

impl JsonError {
    pub open spec fn model(&self) -> JsonErrorModel {
        JsonErrorModel {
            path: self.path.deep_view(),
            line: self.line as nat,
            column: self.column as nat,
            message: self.message@,
        }
    }

    pub fn new(path: Vec<String>, line: usize, column: usize, message: String) -> (r: JsonError)
        ensures
            r.model() == (JsonErrorModel {
                path: path.deep_view(),
                line: line as nat,
                column: column as nat,
                message: message@,
            }),
    {
        JsonError { path, line, column, message }
    }
}

/// An I/O failure, compared by kind alone.
#[derive(Clone, Copy, PartialEq, Eq, Structural, Debug)]
pub struct IOError {
    pub kind: IoErrorKind,
}

/// An error that occurred during resolution.
#[derive(PartialEq, Debug)]
pub enum ResolverError {
    /// An unknown URL scheme was found in the specifier.
    UnknownScheme { scheme: String },
    /// An unknown error occurred.
    UnknownError,
    /// A file was not found.
    FileNotFound { relative: String, from: Vec<String> },
    /// A node_modules directory containing the package was not found.
    ModuleNotFound { module: String },
    /// A package.json entry field pointed to a non-existent file.
    ModuleEntryNotFound {
        /// The node_modules package name.
        module: String,
        /// Path named by the entry field.
        entry_path: Vec<String>,
        /// Path of the package.json.
        package_path: Vec<String>,
        /// The package.json field the entry came from.
        field: String,
    },
    /// A sub-path could not be found within a node_modules package.
    ModuleSubpathNotFound {
        /// The node_modules package name.
        module: String,
        /// Path of the non-existent file.
        path: Vec<String>,
        /// Path of the package.json.
        package_path: Vec<String>,
    },
    /// An error parsing JSON.
    JsonError(JsonError),
    /// An I/O error.
    IOError(IOError),
    /// A sub-path was not exported from a package.json.
    PackageJsonError {
        /// The node_modules package name.
        module: String,
        /// The sub-path that is not exported.
        path: String,
        /// Reason the path was not exported.
        error: PackageJsonError,
    },
    /// A package.json file could not be found above the given path.
    PackageJsonNotFound { from: Vec<String> },
    /// Could not parse the specifier.
    InvalidSpecifier(SpecifierError),
    /// Could not find an extended tsconfig.json file.
    TsConfigExtendsNotFound {
        /// Path of the tsconfig.json with the "extends" field.
        tsconfig: Vec<String>,
        /// Original error resolving the extends specifier.
        error: Box<ResolverError>,
    },
}

/// The modelled form of a [`ResolverError`], with every string a character
/// sequence and every path a sequence of components.
pub ghost enum ErrorModel {
    UnknownScheme { scheme: Seq<char> },
    UnknownError,
    FileNotFound { relative: Seq<char>, from: Seq<Seq<char>> },
    ModuleNotFound { module: Seq<char> },
    ModuleEntryNotFound {
        module: Seq<char>,
        entry_path: Seq<Seq<char>>,
        package_path: Seq<Seq<char>>,
        field: Seq<char>,
    },
    ModuleSubpathNotFound {
        module: Seq<char>,
        path: Seq<Seq<char>>,
        package_path: Seq<Seq<char>>,
    },
    JsonError { error: JsonErrorModel },
    IOError { kind: IoErrorKind },
    PackageJsonError { module: Seq<char>, path: Seq<char>, error: PackageJsonError },
    PackageJsonNotFound { from: Seq<Seq<char>> },
    InvalidSpecifier { error: SpecifierError },
    TsConfigExtendsNotFound { tsconfig: Seq<Seq<char>>, error: Box<ErrorModel> },
}

impl ResolverError {
    /// The modelled form of this error.
    pub open spec fn model(&self) -> ErrorModel
        decreases self,
    {
        match self {
            ResolverError::UnknownScheme { scheme } => ErrorModel::UnknownScheme {
                scheme: scheme@,
            },
            ResolverError::UnknownError => ErrorModel::UnknownError,
            ResolverError::FileNotFound { relative, from } => ErrorModel::FileNotFound {
                relative: relative@,
                from: from.deep_view(),
            },
            ResolverError::ModuleNotFound { module } => ErrorModel::ModuleNotFound {
                module: module@,
            },
            ResolverError::ModuleEntryNotFound { module, entry_path, package_path, field } => {
                ErrorModel::ModuleEntryNotFound {
                    module: module@,
                    entry_path: entry_path.deep_view(),
                    package_path: package_path.deep_view(),
                    field: field@,
                }
            },
            ResolverError::ModuleSubpathNotFound { module, path, package_path } => {
                ErrorModel::ModuleSubpathNotFound {
                    module: module@,
                    path: path.deep_view(),
                    package_path: package_path.deep_view(),
                }
            },
            ResolverError::JsonError(e) => ErrorModel::JsonError { error: e.model() },
            ResolverError::IOError(e) => ErrorModel::IOError { kind: e.kind },
            ResolverError::PackageJsonError { module, path, error } => {
                ErrorModel::PackageJsonError { module: module@, path: path@, error: *error }
            },
            ResolverError::PackageJsonNotFound { from } => ErrorModel::PackageJsonNotFound {
                from: from.deep_view(),
            },
            ResolverError::InvalidSpecifier(e) => ErrorModel::InvalidSpecifier { error: *e },
            ResolverError::TsConfigExtendsNotFound { tsconfig, error } => {
                ErrorModel::TsConfigExtendsNotFound {
                    tsconfig: tsconfig.deep_view(),
                    error: Box::new(error.model()),
                }
            },
        }
    }
}

} // verus!
