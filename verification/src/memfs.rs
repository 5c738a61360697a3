//! An in-memory filesystem: a fixture for tests and for resolving against a
//! snapshot of a project tree.

use vstd::prelude::*;

use crate::fs::{
    spec_follow, spec_kind, spec_read, spec_read_link, FileKind, FileSystem, FollowedEntry,
    FsEntryModel, FsModel, IoErrorKind,
};
use crate::paths;

verus! {

/// One stored entry.
pub enum FsEntry {
    File { text: String },
    Dir,
    Symlink { target: Vec<String> },
}

impl FsEntry {
    /// The modelled form of this entry.
    pub open spec fn model(&self) -> FsEntryModel {
        match self {
            FsEntry::File { text } => FsEntryModel::File { text: text@ },
            FsEntry::Dir => FsEntryModel::Dir,
            FsEntry::Symlink { target } => FsEntryModel::Symlink { target: target.deep_view() },
        }
    }
}

/// A filesystem held wholly in memory, as a list of path/entry pairs with
/// pairwise-distinct paths.
pub struct InMemoryFileSystem {
    pub entries: Vec<(Vec<String>, FsEntry)>,
}

/// Whether the keys of `s` are pairwise distinct.
pub open spec fn nodup_keys(s: Seq<(Vec<String>, FsEntry)>) -> bool {
    forall|i: int, j: int|
        0 <= i < j < s.len() ==> s[i].0.deep_view() != s[j].0.deep_view()
}

/// The map that the entry list `s` denotes.
pub open spec fn spec_fs_map(s: Seq<(Vec<String>, FsEntry)>) -> FsModel
    decreases s.len(),
{
    if s.len() == 0 {
        Map::empty()
    } else {
        spec_fs_map(s.drop_last()).insert(s.last().0.deep_view(), s.last().1.model())
    }
}

/// A path is in the map exactly when some entry holds it.
pub proof fn lemma_fs_map_contains(s: Seq<(Vec<String>, FsEntry)>)
    ensures
        forall|p: Seq<Seq<char>>|
            #[trigger] spec_fs_map(s).contains_key(p) <==> exists|i: int|
                0 <= i < s.len() && s[i].0.deep_view() == p,
    decreases s.len(),
{
    if s.len() == 0 {
    } else {
        lemma_fs_map_contains(s.drop_last());
        assert forall|p: Seq<Seq<char>>| #[trigger]
            spec_fs_map(s).contains_key(p) implies exists|i: int|
            0 <= i < s.len() && s[i].0.deep_view() == p by {
            if p == s.last().0.deep_view() {
                assert(s[s.len() - 1].0.deep_view() == p);
            } else {
                assert(spec_fs_map(s.drop_last()).contains_key(p));
                let i = choose|i: int|
                    0 <= i < s.drop_last().len() && s.drop_last()[i].0.deep_view() == p;
                assert(s.drop_last()[i] == s[i]);
                assert(s[i].0.deep_view() == p);
            }
        }
        assert forall|p: Seq<Seq<char>>|
            (exists|i: int| 0 <= i < s.len() && s[i].0.deep_view() == p) implies #[trigger]
            spec_fs_map(s).contains_key(p) by {
            let i = choose|i: int| 0 <= i < s.len() && s[i].0.deep_view() == p;
            if i == s.len() - 1 {
                assert(p == s.last().0.deep_view());
            } else {
                assert(s.drop_last()[i] == s[i]);
                assert(s.drop_last()[i].0.deep_view() == p);
                assert(spec_fs_map(s.drop_last()).contains_key(p));
            }
        }
    }
}

/// With pairwise-distinct keys, each entry's value is what the map holds.
pub proof fn lemma_fs_map_value(s: Seq<(Vec<String>, FsEntry)>, i: int)
    requires
        nodup_keys(s),
        0 <= i < s.len(),
    ensures
        spec_fs_map(s).contains_key(s[i].0.deep_view()),
        spec_fs_map(s)[s[i].0.deep_view()] == s[i].1.model(),
    decreases s.len(),
{
    if i == s.len() - 1 {
    } else {
        assert(s.drop_last()[i] == s[i]);
        lemma_fs_map_value(s.drop_last(), i);
        assert(s[i].0.deep_view() != s.last().0.deep_view());
    }
}

impl InMemoryFileSystem {
    /// An empty filesystem.
    pub fn new() -> (r: InMemoryFileSystem)
        ensures
            r.wf(),
            r.model() == Map::<Seq<Seq<char>>, FsEntryModel>::empty(),
    {
        let entries: Vec<(Vec<String>, FsEntry)> = Vec::new();
        InMemoryFileSystem { entries }
    }

    /// Whether an entry for `path` exists.
    pub fn contains_path(&self, path: &Vec<String>) -> (r: bool)
        requires
            self.wf(),
        ensures
            r == self.model().contains_key(path.deep_view()),
    {
        match self.lookup(path) {
            Some(_) => true,
            None => false,
        }
    }

    /// Adds an entry for a path not yet present.
    pub fn add_entry(&mut self, path: Vec<String>, entry: FsEntry)
        requires
            old(self).wf(),
            !old(self).model().contains_key(path.deep_view()),
        ensures
            final(self).wf(),
            final(self).model() == old(self).model().insert(path.deep_view(), entry.model()),
    {
        proof {
            lemma_fs_map_contains(self.entries@);
        }
        let ghost pre = self.entries@;
        let ghost key = path.deep_view();
        self.entries.push((path, entry));
        proof {
            let post = self.entries@;
            assert(post.drop_last() =~= pre);
            assert(forall|i: int| 0 <= i < pre.len() ==> pre[i].0.deep_view() != key);
            assert(nodup_keys(post));
        }
    }

    /// Adds a regular file, given path and text.
    pub fn add_file(&mut self, path: &str, text: &str)
        requires
            old(self).wf(),
            !old(self).model().contains_key(paths::spec_split_path(path@)),
        ensures
            final(self).wf(),
            final(self).model() == old(self).model().insert(
                paths::spec_split_path(path@),
                FsEntryModel::File { text: text@ },
            ),
    {
        let key = paths::split_path(path);
        self.add_entry(key, FsEntry::File { text: text.to_owned() });
    }

    /// Adds a directory.
    pub fn add_dir(&mut self, path: &str)
        requires
            old(self).wf(),
            !old(self).model().contains_key(paths::spec_split_path(path@)),
        ensures
            final(self).wf(),
            final(self).model() == old(self).model().insert(
                paths::spec_split_path(path@),
                FsEntryModel::Dir,
            ),
    {
        let key = paths::split_path(path);
        self.add_entry(key, FsEntry::Dir);
    }

    /// Adds a symbolic link, given path and target path.
    pub fn add_symlink(&mut self, path: &str, target: &str)
        requires
            old(self).wf(),
            !old(self).model().contains_key(paths::spec_split_path(path@)),
        ensures
            final(self).wf(),
            final(self).model() == old(self).model().insert(
                paths::spec_split_path(path@),
                FsEntryModel::Symlink { target: paths::spec_split_path(target@) },
            ),
    {
        let key = paths::split_path(path);
        let t = paths::split_path(target);
        self.add_entry(key, FsEntry::Symlink { target: t });
    }

    /// The position of the entry for `path`, if any.
    fn lookup(&self, path: &Vec<String>) -> (r: Option<usize>)
        requires
            self.wf(),
        ensures
            match r {
                Some(i) => i < self.entries@.len() && self.entries@[i as int].0.deep_view()
                    == path.deep_view() && self.model().contains_key(path.deep_view())
                    && self.model()[path.deep_view()] == self.entries@[i as int].1.model(),
                None => !self.model().contains_key(path.deep_view()),
            },
    {
        proof {
            lemma_fs_map_contains(self.entries@);
        }
        let mut i: usize = 0;
        while i < self.entries.len()
            invariant
                self.wf(),
                i <= self.entries@.len(),
                forall|j: int|
                    0 <= j < i ==> self.entries@[j].0.deep_view() != path.deep_view(),
            decreases self.entries@.len() - i,
        {
            if paths::path_eq(&self.entries[i].0, path) {
                proof {
                    lemma_fs_map_value(self.entries@, i as int);
                }
                return Some(i);
            }
            i += 1;
        }
        proof {
            lemma_fs_map_contains(self.entries@);
        }
        None
    }

    /// Follows links from `start`, mirroring [`spec_follow`].
    fn follow(&self, start: &Vec<String>) -> (r: MemFollowed)
        requires
            self.wf(),
        ensures
            match r {
                MemFollowed::Found { index } => index < self.entries@.len() && spec_follow(
                    self.model(),
                    start.deep_view(),
                    crate::fs::link_fuel(),
                ) == (FollowedEntry::Found {
                    path: self.entries@[index as int].0.deep_view(),
                    entry: self.entries@[index as int].1.model(),
                }),
                MemFollowed::Missing => spec_follow(
                    self.model(),
                    start.deep_view(),
                    crate::fs::link_fuel(),
                ) == FollowedEntry::Missing,
                MemFollowed::TooManyLinks => spec_follow(
                    self.model(),
                    start.deep_view(),
                    crate::fs::link_fuel(),
                ) == FollowedEntry::TooManyLinks,
            },
    {
        let mut cur: Vec<String> = start.clone();
        let mut fuel: usize = 32;
        assert(cur.deep_view() =~= start.deep_view());
        assert(crate::fs::link_fuel() == 32);
        loop
            invariant
                self.wf(),
                fuel <= 32,
                spec_follow(self.model(), start.deep_view(), crate::fs::link_fuel())
                    == spec_follow(self.model(), cur.deep_view(), fuel as nat),
            decreases fuel,
        {
            match self.lookup(&cur) {
                None => {
                    return MemFollowed::Missing;
                },
                Some(i) => {
                    match &self.entries[i].1 {
                        FsEntry::Symlink { target } => {
                            if fuel == 0 {
                                return MemFollowed::TooManyLinks;
                            }
                            let next = target.clone();
                            assert(next.deep_view() =~= target.deep_view());
                            cur = next;
                            fuel -= 1;
                        },
                        _ => {
                            return MemFollowed::Found { index: i };
                        },
                    }
                },
            }
        }
    }
}

/// Where an in-memory link chain ended: used by [`InMemoryFileSystem::follow`].
enum MemFollowed {
    Found { index: usize },
    Missing,
    TooManyLinks,
}

impl FileSystem for InMemoryFileSystem {
    open spec fn model(&self) -> FsModel {
        spec_fs_map(self.entries@)
    }

    open spec fn wf(&self) -> bool {
        nodup_keys(self.entries@)
    }

    fn read_to_string(&self, path: &Vec<String>) -> (r: Result<String, IoErrorKind>) {
        match self.follow(path) {
            MemFollowed::Found { index } => match &self.entries[index].1 {
                FsEntry::File { text } => Ok(text.clone()),
                _ => Err(IoErrorKind::Other),
            },
            MemFollowed::Missing => Err(IoErrorKind::NotFound),
            MemFollowed::TooManyLinks => Err(IoErrorKind::Other),
        }
    }

    fn kind(&self, path: &Vec<String>) -> (r: FileKind) {
        match self.lookup(path) {
            None => FileKind::empty(),
            Some(i) => match &self.entries[i].1 {
                FsEntry::File { .. } => FileKind { is_file: true, is_dir: false, is_symlink: false },
                FsEntry::Dir => FileKind { is_file: false, is_dir: true, is_symlink: false },
                FsEntry::Symlink { .. } => {
                    match self.follow(path) {
                        MemFollowed::Found { index } => match &self.entries[index].1 {
                            FsEntry::File { .. } => FileKind {
                                is_file: true,
                                is_dir: false,
                                is_symlink: true,
                            },
                            FsEntry::Dir => FileKind {
                                is_file: false,
                                is_dir: true,
                                is_symlink: true,
                            },
                            FsEntry::Symlink { .. } => FileKind {
                                is_file: false,
                                is_dir: false,
                                is_symlink: true,
                            },
                        },
                        _ => FileKind { is_file: false, is_dir: false, is_symlink: true },
                    }
                },
            },
        }
    }

    fn read_link(&self, path: &Vec<String>) -> (r: Result<Vec<String>, IoErrorKind>) {
        match self.lookup(path) {
            None => Err(IoErrorKind::NotFound),
            Some(i) => match &self.entries[i].1 {
                FsEntry::Symlink { target } => Ok(target.clone()),
                _ => Err(IoErrorKind::Other),
            },
        }
    }
}

} // verus!
