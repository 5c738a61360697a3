//! The filesystem abstraction the resolver reads through.
//!
//! A filesystem is modelled as a partial map from component paths to entries:
//! a file with its text, a directory, or a symbolic link with its target
//! path. The [`FileSystem`] trait asks of an implementation exactly three
//! operations — read a file as text, classify a path, and read a link — each
//! specified against that model, so everything the resolver concludes holds
//! of the modelled state.

use vstd::prelude::*;

verus! {

/// How many links a chain may pass through before it is treated as a cycle.
pub open spec fn link_fuel() -> nat {
    32
}

/// Path metadata: whether the path is a file, a directory, and whether it is
/// a symbolic link (in which case the file and directory flags describe the
/// link's target).
#[derive(Clone, Copy, PartialEq, Eq, Structural, Debug)]
pub struct FileKind {
    pub is_file: bool,
    pub is_dir: bool,
    pub is_symlink: bool,
}

impl FileKind {
    /// The kind of a path that does not exist.
    pub fn empty() -> (r: FileKind)
        ensures
            r == (FileKind { is_file: false, is_dir: false, is_symlink: false }),
    {
        FileKind { is_file: false, is_dir: false, is_symlink: false }
    }
}

/// The kinds of I/O failure the resolver distinguishes: a missing path, and
/// everything else.
#[derive(Clone, Copy, PartialEq, Eq, Structural, Debug, Hash)]
pub enum IoErrorKind {
    NotFound,
    Other,
}

/// One modelled filesystem entry.
pub ghost enum FsEntryModel {
    File { text: Seq<char> },
    Dir,
    Symlink { target: Seq<Seq<char>> },
}

/// A filesystem state: a partial map from component paths to entries.
pub type FsModel = Map<Seq<Seq<char>>, FsEntryModel>;

/// Where a chain of symbolic links starting at `p` ends.
pub ghost enum FollowedEntry {
    Found { path: Seq<Seq<char>>, entry: FsEntryModel },
    Missing,
    TooManyLinks,
}

/// Follows symbolic links from `p` until a non-link entry, a missing path,
/// or `fuel` exhausted.
pub open spec fn spec_follow(m: FsModel, p: Seq<Seq<char>>, fuel: nat) -> FollowedEntry
    decreases fuel,
{
    if !m.contains_key(p) {
        FollowedEntry::Missing
    } else {
        match m[p] {
            FsEntryModel::Symlink { target } => if fuel == 0 {
                FollowedEntry::TooManyLinks
            } else {
                spec_follow(m, target, (fuel - 1) as nat)
            },
            entry => FollowedEntry::Found { path: p, entry },
        }
    }
}

/// The kind of `p` in `m`: a link is reported as one, classified by what it
/// finally points at.
pub open spec fn spec_kind(m: FsModel, p: Seq<Seq<char>>) -> FileKind {
    if !m.contains_key(p) {
        FileKind { is_file: false, is_dir: false, is_symlink: false }
    } else {
        match m[p] {
            FsEntryModel::File { .. } => FileKind { is_file: true, is_dir: false, is_symlink: false },
            FsEntryModel::Dir => FileKind { is_file: false, is_dir: true, is_symlink: false },
            FsEntryModel::Symlink { .. } => match spec_follow(m, p, link_fuel()) {
                FollowedEntry::Found { entry: FsEntryModel::File { .. }, .. } => FileKind {
                    is_file: true,
                    is_dir: false,
                    is_symlink: true,
                },
                FollowedEntry::Found { entry: FsEntryModel::Dir, .. } => FileKind {
                    is_file: false,
                    is_dir: true,
                    is_symlink: true,
                },
                _ => FileKind { is_file: false, is_dir: false, is_symlink: true },
            },
        }
    }
}

/// The text read at `p`, following links; a directory or a link cycle reads
/// as `Other`, a missing path as `NotFound`.
pub open spec fn spec_read(m: FsModel, p: Seq<Seq<char>>) -> Result<Seq<char>, IoErrorKind> {
    match spec_follow(m, p, link_fuel()) {
        FollowedEntry::Found { entry: FsEntryModel::File { text }, .. } => Ok(text),
        FollowedEntry::Found { .. } => Err(IoErrorKind::Other),
        FollowedEntry::Missing => Err(IoErrorKind::NotFound),
        FollowedEntry::TooManyLinks => Err(IoErrorKind::Other),
    }
}

/// The link target of `p`: an error unless `p` itself is a symbolic link.
pub open spec fn spec_read_link(m: FsModel, p: Seq<Seq<char>>) -> Result<
    Seq<Seq<char>>,
    IoErrorKind,
> {
    if !m.contains_key(p) {
        Err(IoErrorKind::NotFound)
    } else {
        match m[p] {
            FsEntryModel::Symlink { target } => Ok(target),
            _ => Err(IoErrorKind::Other),
        }
    }
}

/// The canonical path of `p`: where its chain of links ends, or `p` itself
/// when `p` is missing or the chain does not end.
pub open spec fn spec_realpath(m: FsModel, p: Seq<Seq<char>>) -> Seq<Seq<char>> {
    match spec_follow(m, p, link_fuel()) {
        FollowedEntry::Found { path, .. } => path,
        _ => p,
    }
}

/// A provider of filesystem facts. Implementations must answer exactly as
/// the modelled state does, so that what is proved of the resolver holds of
/// the filesystem a resolution actually read.
pub trait FileSystem: Sized {
    /// The modelled filesystem state.
    spec fn model(&self) -> FsModel;

    /// Whether the implementation's representation is consistent.
    spec fn wf(&self) -> bool;

    /// Reads the file at `path` as text, following symbolic links.
    fn read_to_string(&self, path: &Vec<String>) -> (r: Result<String, IoErrorKind>)
        requires
            self.wf(),
        ensures
            match r {
                Ok(text) => spec_read(self.model(), path.deep_view()) == Ok::<
                    Seq<char>,
                    IoErrorKind,
                >(text@),
                Err(kind) => spec_read(self.model(), path.deep_view()) == Err::<
                    Seq<char>,
                    IoErrorKind,
                >(kind),
            },
    ;

    /// Classifies `path`.
    fn kind(&self, path: &Vec<String>) -> (r: FileKind)
        requires
            self.wf(),
        ensures
            r == spec_kind(self.model(), path.deep_view()),
    ;

    /// Reads the target of the symbolic link at `path`.
    fn read_link(&self, path: &Vec<String>) -> (r: Result<Vec<String>, IoErrorKind>)
        requires
            self.wf(),
        ensures
            match r {
                Ok(target) => spec_read_link(self.model(), path.deep_view()) == Ok::<
                    Seq<Seq<char>>,
                    IoErrorKind,
                >(target.deep_view()),
                Err(kind) => spec_read_link(self.model(), path.deep_view()) == Err::<
                    Seq<Seq<char>>,
                    IoErrorKind,
                >(kind),
            },
    ;
}

} // verus!
