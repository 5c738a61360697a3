//! Classification of raw specifier strings.
//!
//! A specifier as written in an `import` or `require` statement is decomposed
//! into its structural form — relative, absolute, bare package name
//! (optionally scoped) with a subpath, URL scheme, or builtin module — with
//! no filesystem interaction.

use vstd::prelude::*;
use vstd::string::StrSliceExecFns;

use crate::error::SpecifierError;
use crate::strutil;

verus! {

/// The structural form of a specifier.
#[derive(PartialEq, Debug)]
pub enum Specifier {
    /// `./x`, `../x`, `.` — resolved against the referencing file's directory.
    Relative { path: String },
    /// `/x` — resolved against the filesystem root.
    Absolute { path: String },
    /// A package name, optionally scoped, with the subpath after it (empty
    /// for the package root).
    Bare { name: String, subpath: String },
    /// A module provided by the runtime.
    Builtin { name: String },
    /// A specifier with a URL scheme, such as `node:fs`.
    Url { scheme: String, rest: String },
}

/// The modelled form of a [`Specifier`].
pub ghost enum SpecifierModel {
    Relative { path: Seq<char> },
    Absolute { path: Seq<char> },
    Bare { name: Seq<char>, subpath: Seq<char> },
    Builtin { name: Seq<char> },
    Url { scheme: Seq<char>, rest: Seq<char> },
}

impl Specifier {
    /// The modelled form of this specifier.
    pub open spec fn model(&self) -> SpecifierModel {
        match self {
            Specifier::Relative { path } => SpecifierModel::Relative { path: path@ },
            Specifier::Absolute { path } => SpecifierModel::Absolute { path: path@ },
            Specifier::Bare { name, subpath } => SpecifierModel::Bare {
                name: name@,
                subpath: subpath@,
            },
            Specifier::Builtin { name } => SpecifierModel::Builtin { name: name@ },
            Specifier::Url { scheme, rest } => SpecifierModel::Url {
                scheme: scheme@,
                rest: rest@,
            },
        }
    }
}

/// Whether `name` is a module the Node.js runtime provides.
pub open spec fn spec_is_builtin(name: Seq<char>) -> bool {
    ||| name == "assert"@
    ||| name == "buffer"@
    ||| name == "child_process"@
    ||| name == "cluster"@
    ||| name == "console"@
    ||| name == "constants"@
    ||| name == "crypto"@
    ||| name == "dgram"@
    ||| name == "dns"@
    ||| name == "events"@
    ||| name == "fs"@
    ||| name == "http"@
    ||| name == "https"@
    ||| name == "module"@
    ||| name == "net"@
    ||| name == "os"@
    ||| name == "path"@
    ||| name == "process"@
    ||| name == "querystring"@
    ||| name == "readline"@
    ||| name == "stream"@
    ||| name == "string_decoder"@
    ||| name == "timers"@
    ||| name == "tls"@
    ||| name == "tty"@
    ||| name == "url"@
    ||| name == "util"@
    ||| name == "vm"@
    ||| name == "worker_threads"@
    ||| name == "zlib"@
}

/// Tests `name` against the runtime's module list.
pub fn is_builtin(name: &str) -> (r: bool)
    ensures
        r == spec_is_builtin(name@),
{
    strutil::str_eq(name, "assert") || strutil::str_eq(name, "buffer") || strutil::str_eq(
        name,
        "child_process",
    ) || strutil::str_eq(name, "cluster") || strutil::str_eq(name, "console") || strutil::str_eq(
        name,
        "constants",
    ) || strutil::str_eq(name, "crypto") || strutil::str_eq(name, "dgram") || strutil::str_eq(
        name,
        "dns",
    ) || strutil::str_eq(name, "events") || strutil::str_eq(name, "fs") || strutil::str_eq(
        name,
        "http",
    ) || strutil::str_eq(name, "https") || strutil::str_eq(name, "module") || strutil::str_eq(
        name,
        "net",
    ) || strutil::str_eq(name, "os") || strutil::str_eq(name, "path") || strutil::str_eq(
        name,
        "process",
    ) || strutil::str_eq(name, "querystring") || strutil::str_eq(name, "readline")
        || strutil::str_eq(name, "stream") || strutil::str_eq(name, "string_decoder")
        || strutil::str_eq(name, "timers") || strutil::str_eq(name, "tls") || strutil::str_eq(
        name,
        "tty",
    ) || strutil::str_eq(name, "url") || strutil::str_eq(name, "util") || strutil::str_eq(
        name,
        "vm",
    ) || strutil::str_eq(name, "worker_threads") || strutil::str_eq(name, "zlib")
}

/// The structural form of the specifier `s`: relative and absolute paths by
/// their first character, then URL schemes (a `:` before any `/`), then
/// scoped and plain package names split at the first `/` after the name,
/// with a plain slash-free name that the runtime provides classified as
/// builtin. An empty specifier, a lone scope, an empty scheme, and an
/// imports-map reference (`#`) are rejected.
pub open spec fn spec_parse_specifier(s: Seq<char>) -> Result<SpecifierModel, SpecifierError> {
    if s.len() == 0 {
        Err(SpecifierError::Empty)
    } else if s[0] == '/' {
        Ok(SpecifierModel::Absolute { path: s })
    } else if s[0] == '.' {
        Ok(SpecifierModel::Relative { path: s })
    } else if s[0] == '#' {
        Err(SpecifierError::InvalidPackageSpecifier)
    } else {
        let colon = strutil::spec_find_char(s, ':', 0);
        let slash = strutil::spec_find_char(s, '/', 0);
        if colon is Some && (slash is None || colon.unwrap() < slash.unwrap()) {
            if colon.unwrap() == 0 {
                Err(SpecifierError::InvalidPackageSpecifier)
            } else {
                Ok(
                    SpecifierModel::Url {
                        scheme: s.subrange(0, colon.unwrap()),
                        rest: s.subrange(colon.unwrap() + 1, s.len() as int),
                    },
                )
            }
        } else if s[0] == '@' {
            match slash {
                None => Err(SpecifierError::InvalidPackageSpecifier),
                Some(j) => match strutil::spec_find_char(s, '/', j + 1) {
                    None => Ok(SpecifierModel::Bare { name: s, subpath: Seq::empty() }),
                    Some(k) => Ok(
                        SpecifierModel::Bare {
                            name: s.subrange(0, k),
                            subpath: s.subrange(k + 1, s.len() as int),
                        },
                    ),
                },
            }
        } else {
            match slash {
                None => if spec_is_builtin(s) {
                    Ok(SpecifierModel::Builtin { name: s })
                } else {
                    Ok(SpecifierModel::Bare { name: s, subpath: Seq::empty() })
                },
                Some(j) => Ok(
                    SpecifierModel::Bare {
                        name: s.subrange(0, j),
                        subpath: s.subrange(j + 1, s.len() as int),
                    },
                ),
            }
        }
    }
}

/// Classifies a raw specifier string.
pub fn parse_specifier(s: &str) -> (r: Result<Specifier, SpecifierError>)
    ensures
        match r {
            Ok(sp) => spec_parse_specifier(s@) == Ok::<SpecifierModel, SpecifierError>(sp.model()),
            Err(e) => spec_parse_specifier(s@) == Err::<SpecifierModel, SpecifierError>(e),
        },
{
    let len = s.unicode_len();
    if len == 0 {
        return Err(SpecifierError::Empty);
    }
    let first = s.get_char(0);
    if first == '/' {
        return Ok(Specifier::Absolute { path: s.to_owned() });
    }
    if first == '.' {
        return Ok(Specifier::Relative { path: s.to_owned() });
    }
    if first == '#' {
        return Err(SpecifierError::InvalidPackageSpecifier);
    }
    let colon = strutil::find_char(s, ':', 0);
    let slash = strutil::find_char(s, '/', 0);
    let is_scheme = match (colon, slash) {
        (Some(c), None) => true,
        (Some(c), Some(j)) => c < j,
        _ => false,
    };
    if is_scheme {
        let c = colon.unwrap();
        if c == 0 {
            return Err(SpecifierError::InvalidPackageSpecifier);
        }
        let scheme = strutil::substring(s, 0, c);
        let rest = strutil::substring(s, c + 1, len);
        return Ok(Specifier::Url { scheme, rest });
    }
    if first == '@' {
        match slash {
            None => Err(SpecifierError::InvalidPackageSpecifier),
            Some(j) => {
                match strutil::find_char(s, '/', j + 1) {
                    None => {
                        let subpath = String::new();
                        assert(subpath@ =~= Seq::<char>::empty());
                        Ok(Specifier::Bare { name: s.to_owned(), subpath })
                    },
                    Some(k) => {
                        let name = strutil::substring(s, 0, k);
                        let subpath = strutil::substring(s, k + 1, len);
                        Ok(Specifier::Bare { name, subpath })
                    },
                }
            },
        }
    } else {
        match slash {
            None => {
                if is_builtin(s) {
                    Ok(Specifier::Builtin { name: s.to_owned() })
                } else {
                    Ok(Specifier::Bare { name: s.to_owned(), subpath: String::new() })
                }
            },
            Some(j) => {
                let name = strutil::substring(s, 0, j);
                let subpath = strutil::substring(s, j + 1, len);
                Ok(Specifier::Bare { name, subpath })
            },
        }
    }
}

} // verus!
