//! The record of which filesystem facts a resolution depended on.
//!
//! Each fact the resolver observes is translated into the class of
//! filesystem event that would make it wrong: a successful read must be
//! re-examined when that file changes, and a miss must be re-examined when
//! the file appears. The three accumulators are sets; inserting a fact twice
//! leaves them unchanged.

use vstd::prelude::*;

use crate::paths;
use crate::strutil;

verus! {

/// A filesystem event class that would invalidate a negative fact.
#[derive(Clone, PartialEq, Eq, Debug)]
pub enum FileCreateInvalidation {
    /// Invalidate if this path is created.
    Path(Vec<String>),
    /// Invalidate if a file of the given name is created anywhere above the
    /// given path in the directory hierarchy.
    FileName { file_name: String, above: Vec<String> },
    /// Invalidate if a file matching the given glob is created.
    Glob(String),
}

/// The modelled form of a [`FileCreateInvalidation`].
pub ghost enum CreateInvModel {
    Path { path: Seq<Seq<char>> },
    FileName { file_name: Seq<char>, above: Seq<Seq<char>> },
    Glob { glob: Seq<char> },
}

impl FileCreateInvalidation {
    /// A copy of this event class.
    pub fn duplicate(&self) -> (r: FileCreateInvalidation)
        ensures
            r.model() == self.model(),
    {
        match self {
            FileCreateInvalidation::Path(p) => FileCreateInvalidation::Path(p.clone()),
            FileCreateInvalidation::FileName { file_name, above } => {
                FileCreateInvalidation::FileName {
                    file_name: file_name.clone(),
                    above: above.clone(),
                }
            },
            FileCreateInvalidation::Glob(g) => FileCreateInvalidation::Glob(g.clone()),
        }
    }

    /// The modelled form of this event class.
    pub open spec fn model(&self) -> CreateInvModel {
        match self {
            FileCreateInvalidation::Path(p) => CreateInvModel::Path { path: p.deep_view() },
            FileCreateInvalidation::FileName { file_name, above } => CreateInvModel::FileName {
                file_name: file_name@,
                above: above.deep_view(),
            },
            FileCreateInvalidation::Glob(g) => CreateInvModel::Glob { glob: g@ },
        }
    }
}

/// Whether two event classes are the same.
pub fn create_inv_eq(a: &FileCreateInvalidation, b: &FileCreateInvalidation) -> (r: bool)
    ensures
        r == (a.model() == b.model()),
{
    match (a, b) {
        (FileCreateInvalidation::Path(p), FileCreateInvalidation::Path(q)) => paths::path_eq(p, q),
        (
            FileCreateInvalidation::FileName { file_name: f1, above: a1 },
            FileCreateInvalidation::FileName { file_name: f2, above: a2 },
        ) => strutil::str_eq(f1.as_str(), f2.as_str()) && paths::path_eq(a1, a2),
        (FileCreateInvalidation::Glob(g1), FileCreateInvalidation::Glob(g2)) => strutil::str_eq(
            g1.as_str(),
            g2.as_str(),
        ),
        _ => false,
    }
}

/// The set of event classes that a list holds.
pub open spec fn create_set(s: Seq<FileCreateInvalidation>) -> Set<CreateInvModel> {
    Set::new(|m: CreateInvModel| exists|i: int| 0 <= i < s.len() && s[i].model() == m)
}

/// The set of paths that a list holds.
pub open spec fn change_set(s: Seq<Vec<String>>) -> Set<Seq<Seq<char>>> {
    Set::new(|p: Seq<Seq<char>>| exists|i: int| 0 <= i < s.len() && s[i].deep_view() == p)
}

/// Taking one more element extends the set by that element's model.
pub proof fn lemma_create_set_take(s: Seq<FileCreateInvalidation>, i: int)
    requires
        0 <= i < s.len(),
    ensures
        create_set(s.take(i + 1)) == create_set(s.take(i)).insert(s[i].model()),
{
    let a = s.take(i + 1);
    let b = s.take(i);
    assert forall|m: CreateInvModel| #[trigger]
        create_set(a).contains(m) implies create_set(b).insert(s[i].model()).contains(m) by {
        let j = choose|j: int| 0 <= j < a.len() && #[trigger] a[j].model() == m;
        if j < i {
            assert(b[j].model() == m);
        }
    }
    assert forall|m: CreateInvModel|
        create_set(b).insert(s[i].model()).contains(m) implies #[trigger] create_set(a).contains(
        m,
    ) by {
        if m == s[i].model() {
            assert(a[i].model() == m);
        } else {
            let j = choose|j: int| 0 <= j < b.len() && #[trigger] b[j].model() == m;
            assert(a[j].model() == m);
        }
    }
    assert(create_set(a) =~= create_set(b).insert(s[i].model()));
}

/// Taking one more element extends the set by that element's path.
pub proof fn lemma_change_set_take(s: Seq<Vec<String>>, i: int)
    requires
        0 <= i < s.len(),
    ensures
        change_set(s.take(i + 1)) == change_set(s.take(i)).insert(s[i].deep_view()),
{
    let a = s.take(i + 1);
    let b = s.take(i);
    assert forall|m: Seq<Seq<char>>| #[trigger]
        change_set(a).contains(m) implies change_set(b).insert(s[i].deep_view()).contains(m) by {
        let j = choose|j: int| 0 <= j < a.len() && #[trigger] a[j].deep_view() == m;
        if j < i {
            assert(b[j].deep_view() == m);
        }
    }
    assert forall|m: Seq<Seq<char>>|
        change_set(b).insert(s[i].deep_view()).contains(m) implies #[trigger] change_set(
        a,
    ).contains(m) by {
        if m == s[i].deep_view() {
            assert(a[i].deep_view() == m);
        } else {
            let j = choose|j: int| 0 <= j < b.len() && #[trigger] b[j].deep_view() == m;
            assert(a[j].deep_view() == m);
        }
    }
    assert(change_set(a) =~= change_set(b).insert(s[i].deep_view()));
}

/// The modelled form of an [`Invalidations`] record: what it accumulated so far.
pub ghost struct InvModel {
    pub create: Set<CreateInvModel>,
    pub change: Set<Seq<Seq<char>>>,
    pub startup: bool,
}

impl InvModel {
    /// An empty record.
    pub open spec fn empty() -> InvModel {
        InvModel { create: Set::empty(), change: Set::empty(), startup: false }
    }

    /// Both records merged.
    pub open spec fn union(self, other: InvModel) -> InvModel {
        InvModel {
            create: self.create.union(other.create),
            change: self.change.union(other.change),
            startup: self.startup || other.startup,
        }
    }

    /// This record with one more create-event class.
    pub open spec fn with_create(self, m: CreateInvModel) -> InvModel {
        InvModel { create: self.create.insert(m), ..self }
    }

    /// This record with one more changed-content path.
    pub open spec fn with_change(self, p: Seq<Seq<char>>) -> InvModel {
        InvModel { change: self.change.insert(p), ..self }
    }
}

/// Merging is associative up to the sets held.
pub proof fn lemma_union_assoc(a: InvModel, b: InvModel, c: InvModel)
    ensures
        a.union(b).union(c) == a.union(b.union(c)),
{
    assert(a.union(b).union(c).create =~= a.union(b.union(c)).create);
    assert(a.union(b).union(c).change =~= a.union(b.union(c)).change);
}

/// A record of one create-event class alone.
pub open spec fn inv_create1(x: CreateInvModel) -> InvModel {
    InvModel { create: Set::empty().insert(x), change: Set::empty(), startup: false }
}

/// A record of one changed-content path alone.
pub open spec fn inv_change1(p: Seq<Seq<char>>) -> InvModel {
    InvModel { create: Set::empty(), change: Set::empty().insert(p), startup: false }
}

/// Inserting one create-event class is merging its singleton record.
pub proof fn lemma_with_create_union(a: InvModel, x: CreateInvModel)
    ensures
        a.with_create(x) == a.union(inv_create1(x)),
{
    assert(a.with_create(x).create =~= a.union(inv_create1(x)).create);
    assert(a.with_create(x).change =~= a.union(inv_create1(x)).change);
}

/// Inserting one changed-content path is merging its singleton record.
pub proof fn lemma_with_change_union(a: InvModel, p: Seq<Seq<char>>)
    ensures
        a.with_change(p) == a.union(inv_change1(p)),
{
    assert(a.with_change(p).create =~= a.union(inv_change1(p)).create);
    assert(a.with_change(p).change =~= a.union(inv_change1(p)).change);
}

/// Merging an empty record changes nothing.
pub proof fn lemma_union_empty(a: InvModel)
    ensures
        a.union(InvModel::empty()) == a,
{
    assert(a.union(InvModel::empty()).create =~= a.create);
    assert(a.union(InvModel::empty()).change =~= a.change);
}

/// Tracks the files that are involved with a resolution, in order to
/// invalidate caches.
pub struct Invalidations {
    /// Event classes that should invalidate the result when a file is created.
    pub invalidate_on_file_create: Vec<FileCreateInvalidation>,
    /// Paths that should invalidate the result when their content changes.
    pub invalidate_on_file_change: Vec<Vec<String>>,
    /// Whether the resolution is non-deterministic and must be discarded on
    /// process restart.
    pub invalidate_on_startup: bool,
}

impl Invalidations {
    /// The modelled form of this record.
    pub open spec fn model(&self) -> InvModel {
        InvModel {
            create: create_set(self.invalidate_on_file_create@),
            change: change_set(self.invalidate_on_file_change@),
            startup: self.invalidate_on_startup,
        }
    }

    /// An empty record.
    pub fn new() -> (r: Invalidations)
        ensures
            r.model() == InvModel::empty(),
    {
        let r = Invalidations {
            invalidate_on_file_create: Vec::new(),
            invalidate_on_file_change: Vec::new(),
            invalidate_on_startup: false,
        };
        proof {
            assert(r.model().create =~= Set::<CreateInvModel>::empty());
            assert(r.model().change =~= Set::<Seq<Seq<char>>>::empty());
        }
        r
    }

    /// Records an event class under the create set.
    pub fn insert_create(&mut self, inv: FileCreateInvalidation)
        ensures
            final(self).model() == old(self).model().with_create(inv.model()),
    {
        let mut i: usize = 0;
        while i < self.invalidate_on_file_create.len()
            invariant
                i <= self.invalidate_on_file_create@.len(),
                forall|j: int|
                    0 <= j < i ==> self.invalidate_on_file_create@[j].model() != inv.model(),
                *self == *old(self),
            decreases self.invalidate_on_file_create@.len() - i,
        {
            if create_inv_eq(&self.invalidate_on_file_create[i], &inv) {
                proof {
                    assert(old(self).model().create.contains(inv.model()));
                    assert(final(self).model().create =~= old(self).model().with_create(
                        inv.model(),
                    ).create);
                }
                return ;
            }
            i += 1;
        }
        let ghost pre = self.invalidate_on_file_create@;
        self.invalidate_on_file_create.push(inv);
        proof {
            let post = self.invalidate_on_file_create@;
            assert forall|m: CreateInvModel| #[trigger]
                create_set(post).contains(m) implies old(self).model().with_create(
                inv.model(),
            ).create.contains(m) by {
                let i = choose|i: int| 0 <= i < post.len() && post[i].model() == m;
                if i < pre.len() {
                    assert(pre[i].model() == m);
                }
            }
            assert forall|m: CreateInvModel|
                old(self).model().with_create(inv.model()).create.contains(
                    m,
                ) implies #[trigger] create_set(post).contains(m) by {
                if m == inv.model() {
                    assert(post[post.len() - 1].model() == m);
                } else {
                    let i = choose|i: int| 0 <= i < pre.len() && pre[i].model() == m;
                    assert(post[i].model() == m);
                }
            }
            assert(final(self).model().create =~= old(self).model().with_create(
                inv.model(),
            ).create);
        }
    }

    /// Invalidate the result if this path is created.
    pub fn invalidate_on_file_create(&mut self, path: &Vec<String>)
        ensures
            final(self).model() == old(self).model().with_create(
                CreateInvModel::Path { path: path.deep_view() },
            ),
    {
        let p = path.clone();
        assert(p.deep_view() =~= path.deep_view());
        self.insert_create(FileCreateInvalidation::Path(p));
    }

    /// Invalidate the result if a file of the given name is created above
    /// the given path in the directory hierarchy.
    pub fn invalidate_on_file_create_above(&mut self, file_name: &str, above: &Vec<String>)
        ensures
            final(self).model() == old(self).model().with_create(
                CreateInvModel::FileName { file_name: file_name@, above: above.deep_view() },
            ),
    {
        let a = above.clone();
        assert(a.deep_view() =~= above.deep_view());
        self.insert_create(
            FileCreateInvalidation::FileName { file_name: file_name.to_owned(), above: a },
        );
    }

    /// Invalidate the result if a file matching the given glob is created.
    pub fn invalidate_on_glob_create(&mut self, glob: &str)
        ensures
            final(self).model() == old(self).model().with_create(
                CreateInvModel::Glob { glob: glob@ },
            ),
    {
        self.insert_create(FileCreateInvalidation::Glob(glob.to_owned()));
    }

    /// Invalidate the result if the given file's content changes.
    pub fn invalidate_on_file_change(&mut self, path: &Vec<String>)
        ensures
            final(self).model() == old(self).model().with_change(path.deep_view()),
    {
        let mut i: usize = 0;
        while i < self.invalidate_on_file_change.len()
            invariant
                i <= self.invalidate_on_file_change@.len(),
                forall|j: int|
                    0 <= j < i ==> self.invalidate_on_file_change@[j].deep_view()
                        != path.deep_view(),
                *self == *old(self),
            decreases self.invalidate_on_file_change@.len() - i,
        {
            if paths::path_eq(&self.invalidate_on_file_change[i], path) {
                proof {
                    assert(old(self).model().change.contains(path.deep_view()));
                    assert(final(self).model().change =~= old(self).model().with_change(
                        path.deep_view(),
                    ).change);
                }
                return ;
            }
            i += 1;
        }
        let ghost pre = self.invalidate_on_file_change@;
        let p = path.clone();
        assert(p.deep_view() =~= path.deep_view());
        self.invalidate_on_file_change.push(p);
        proof {
            let post = self.invalidate_on_file_change@;
            assert forall|m: Seq<Seq<char>>| #[trigger]
                change_set(post).contains(m) implies old(self).model().with_change(
                path.deep_view(),
            ).change.contains(m) by {
                let i = choose|i: int| 0 <= i < post.len() && post[i].deep_view() == m;
                if i < pre.len() {
                    assert(pre[i].deep_view() == m);
                }
            }
            assert forall|m: Seq<Seq<char>>|
                old(self).model().with_change(path.deep_view()).change.contains(
                    m,
                ) implies #[trigger] change_set(post).contains(m) by {
                if m == path.deep_view() {
                    assert(post[post.len() - 1].deep_view() == m);
                } else {
                    let i = choose|i: int| 0 <= i < pre.len() && pre[i].deep_view() == m;
                    assert(post[i].deep_view() == m);
                }
            }
            assert(final(self).model().change =~= old(self).model().with_change(
                path.deep_view(),
            ).change);
        }
    }

    /// Invalidate the result whenever the process restarts.
    pub fn invalidate_on_startup(&mut self)
        ensures
            final(self).model() == (InvModel { startup: true, ..old(self).model() }),
    {
        self.invalidate_on_startup = true;
    }

    /// Merge the given record into this one.
    pub fn extend(&mut self, other: &Invalidations)
        ensures
            final(self).model() == old(self).model().union(other.model()),
    {
        let ghost goal = old(self).model().union(other.model());
        let mut i: usize = 0;
        proof {
            let s = other.invalidate_on_file_create@;
            assert(create_set(s.take(0)) =~= Set::<CreateInvModel>::empty());
            assert(self.model().create =~= old(self).model().union(
                InvModel {
                    create: create_set(s.take(0)),
                    change: Set::empty(),
                    startup: false,
                },
            ).create);
            assert(self.model().change =~= old(self).model().union(
                InvModel {
                    create: create_set(s.take(0)),
                    change: Set::empty(),
                    startup: false,
                },
            ).change);
        }
        while i < other.invalidate_on_file_create.len()
            invariant
                i <= other.invalidate_on_file_create@.len(),
                self.model() == old(self).model().union(
                    InvModel {
                        create: create_set(other.invalidate_on_file_create@.take(i as int)),
                        change: Set::empty(),
                        startup: false,
                    },
                ),
            decreases other.invalidate_on_file_create@.len() - i,
        {
            let item = other.invalidate_on_file_create[i].duplicate();
            self.insert_create(item);
            proof {
                let s = other.invalidate_on_file_create@;
                lemma_create_set_take(s, i as int);
                assert(self.model().create =~= old(self).model().union(
                    InvModel {
                        create: create_set(s.take(i as int + 1)),
                        change: Set::empty(),
                        startup: false,
                    },
                ).create);
                assert(self.model().change =~= old(self).model().union(
                    InvModel {
                        create: create_set(s.take(i as int + 1)),
                        change: Set::empty(),
                        startup: false,
                    },
                ).change);
            }
            i += 1;
        }
        proof {
            let s = other.invalidate_on_file_create@;
            assert(s.take(s.len() as int) =~= s);
            let t = other.invalidate_on_file_change@;
            assert(change_set(t.take(0)) =~= Set::<Seq<Seq<char>>>::empty());
            assert(self.model().create =~= old(self).model().union(
                InvModel {
                    create: create_set(s),
                    change: change_set(t.take(0)),
                    startup: false,
                },
            ).create);
            assert(self.model().change =~= old(self).model().union(
                InvModel {
                    create: create_set(s),
                    change: change_set(t.take(0)),
                    startup: false,
                },
            ).change);
        }
        let mut k: usize = 0;
        while k < other.invalidate_on_file_change.len()
            invariant
                k <= other.invalidate_on_file_change@.len(),
                self.model() == old(self).model().union(
                    InvModel {
                        create: create_set(other.invalidate_on_file_create@),
                        change: change_set(other.invalidate_on_file_change@.take(k as int)),
                        startup: false,
                    },
                ),
            decreases other.invalidate_on_file_change@.len() - k,
        {
            self.invalidate_on_file_change(&other.invalidate_on_file_change[k]);
            proof {
                let s = other.invalidate_on_file_change@;
                lemma_change_set_take(s, k as int);
                assert(self.model().create =~= old(self).model().union(
                    InvModel {
                        create: create_set(other.invalidate_on_file_create@),
                        change: change_set(s.take(k as int + 1)),
                        startup: false,
                    },
                ).create);
                assert(self.model().change =~= old(self).model().union(
                    InvModel {
                        create: create_set(other.invalidate_on_file_create@),
                        change: change_set(s.take(k as int + 1)),
                        startup: false,
                    },
                ).change);
            }
            k += 1;
        }
        proof {
            let s = other.invalidate_on_file_change@;
            assert(s.take(s.len() as int) =~= s);
        }
        if other.invalidate_on_startup {
            self.invalidate_on_startup = true;
        }
        proof {
            assert(self.model().create =~= goal.create);
            assert(self.model().change =~= goal.change);
        }
    }
}

} // verus!
