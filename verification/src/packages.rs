//! The table that gives each type its package.

use vstd::prelude::*;
use crate::syntax::path::Path;
use crate::syntax::path::PathView;
use crate::syntax::ty::clone_opt_string;

verus! {

/// One line of the table: a type and the package declared for it, if one
/// was declared.
#[derive(Debug, PartialEq, Eq)]
pub struct PackageEntry {
    pub path: Path,
    pub package: Option<String>,
}

pub struct PackageEntryView {
    pub path: PathView,
    pub package: Option<Seq<char>>,
}

impl DeepView for PackageEntry {
    type V = PackageEntryView;

    open spec fn deep_view(&self) -> PackageEntryView {
        PackageEntryView { path: self.path@, package: self.package.deep_view() }
    }
}

impl View for PackageEntry {
    type V = PackageEntryView;

    open spec fn view(&self) -> PackageEntryView {
        self.deep_view()
    }
}

/// The map that the lines `entries` stand for; a later line for a type
/// replaces an earlier one.
pub open spec fn table_of(entries: Seq<PackageEntryView>) -> Map<PathView, Option<Seq<char>>>
    decreases entries.len(),
{
    if entries.len() == 0 {
        Map::empty()
    } else {
        table_of(entries.drop_last()).insert(entries.last().path, entries.last().package)
    }
}

/// The package of the type at `path`: the one declared for it, or `None`
/// where the table has no line for the type or the line has no package.
pub open spec fn package_of(table: Map<PathView, Option<Seq<char>>>, path: PathView) -> Option<
    Seq<char>,
> {
    if table.dom().contains(path) {
        table[path]
    } else {
        None
    }
}

/// Maps the path of a type, without generic arguments, to its package.
///
/// Paths are compared segment by segment.
#[derive(Debug, PartialEq, Eq)]
pub struct PackageTable {
    entries: Vec<PackageEntry>,
}

impl View for PackageTable {
    type V = Map<PathView, Option<Seq<char>>>;

    closed spec fn view(&self) -> Map<PathView, Option<Seq<char>>> {
        table_of(self.entries.deep_view())
    }
}

/// A type that no line from `from` on is about has in the whole table what
/// it has in the lines before `from`.
proof fn lemma_table_prefix(entries: Seq<PackageEntryView>, from: int, path: PathView)
    requires
        0 <= from <= entries.len(),
        forall|j: int| from <= j < entries.len() ==> entries[j].path != path,
    ensures
        table_of(entries).dom().contains(path) == table_of(entries.take(from)).dom().contains(
            path,
        ),
        table_of(entries).dom().contains(path) ==> table_of(entries)[path] == table_of(
            entries.take(from),
        )[path],
    decreases entries.len() - from,
{
    if from == entries.len() {
        assert(entries.take(from) =~= entries);
    } else {
        let rest = entries.drop_last();
        assert(rest.take(from) =~= entries.take(from));
        lemma_table_prefix(rest, from, path);
    }
}

impl PackageTable {
    /// The empty table.
    pub fn new() -> (r: PackageTable)
        ensures
            r@ == Map::<PathView, Option<Seq<char>>>::empty(),
    {
        PackageTable { entries: Vec::new() }
    }

    /// Declares `package` for the type at `path`.
    pub fn insert(&mut self, path: Path, package: Option<String>)
        ensures
            final(self)@ == old(self)@.insert(path@, package.deep_view()),
    {
        let ghost before = self.entries.deep_view();
        self.entries.push(PackageEntry { path, package });
        proof {
            assert(self.entries.deep_view().drop_last() =~= before);
        }
    }

    /// The package of the type at `path`.
    pub fn get(&self, path: &Path) -> (r: Option<String>)
        ensures
            r.deep_view() == package_of(self@, path@),
    {
        let ghost entries = self.entries.deep_view();
        let mut i: usize = self.entries.len();
        while i > 0
            invariant
                i <= self.entries.len(),
                entries == self.entries.deep_view(),
                forall|j: int| i <= j < entries.len() ==> entries[j].path != path@,
            decreases i,
        {
            i -= 1;
            if self.entries[i].path.matches(path) {
                proof {
                    lemma_table_prefix(entries, i + 1, path@);
                }
                return clone_opt_string(&self.entries[i].package);
            }
        }
        proof {
            lemma_table_prefix(entries, 0, path@);
        }
        None
    }
}

impl Clone for PackageTable {
    fn clone(&self) -> (r: Self)
        ensures
            r@ == self@,
    {
        let mut entries: Vec<PackageEntry> = Vec::new();
        let mut i: usize = 0;
        while i < self.entries.len()
            invariant
                i <= self.entries.len(),
                entries.len() == i,
                forall|j: int| 0 <= j < i ==> entries@[j]@ == self.entries@[j]@,
            decreases self.entries.len() - i,
        {
            entries.push(
                PackageEntry {
                    path: self.entries[i].path.clone(),
                    package: clone_opt_string(&self.entries[i].package),
                },
            );
            i += 1;
        }
        assert(entries.deep_view() =~= self.entries.deep_view());
        PackageTable { entries }
    }
}

} // verus!
