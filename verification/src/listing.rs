//! The candidates of a run: the regular files directly inside the source
//! directory.

use vstd::prelude::*;

verus! {

/// The type of a directory entry, as the directory read reports it
/// without following links.
#[derive(Debug, Clone, Copy, PartialEq, Eq, Structural)]
pub enum EntryKind {
    /// A regular file.
    File,
    /// A directory.
    Directory,
    /// A symbolic link, whatever it points to.
    Symlink,
    /// Anything else: a socket, a pipe, a device.
    Other,
}

/// One item of a directory read.
#[derive(Debug, PartialEq, Eq)]
pub enum ReadEntry {
    /// The read reported an error in place of an entry.
    Unreadable,
    /// An entry of the directory.
    Entry {
        /// The name of the entry inside the directory.
        name: String,
        /// The path of the entry.
        path: String,
        /// The type of the entry, unless it could not be determined.
        kind: Option<EntryKind>,
    },
}

/// The mathematical value of a [`ReadEntry`].
pub enum ReadEntryView {
    Unreadable,
    Entry { name: Seq<char>, path: Seq<char>, kind: Option<EntryKind> },
}

impl View for ReadEntry {
    type V = ReadEntryView;

    open spec fn view(&self) -> ReadEntryView {
        match self {
            ReadEntry::Unreadable => ReadEntryView::Unreadable,
            ReadEntry::Entry { name, path, kind } => ReadEntryView::Entry {
                name: name@,
                path: path@,
                kind: *kind,
            },
        }
    }
}

impl DeepView for ReadEntry {
    type V = ReadEntryView;

    open spec fn deep_view(&self) -> ReadEntryView {
        self@
    }
}

/// A regular file of the source directory that may be selected.
#[derive(Debug, PartialEq, Eq)]
pub struct CandidateFile {
    /// The name of the file, unique within the source directory.
    pub name: String,
    /// The path of the file.
    pub path: String,
}

/// The mathematical value of a [`CandidateFile`].
pub struct CandidateView {
    pub name: Seq<char>,
    pub path: Seq<char>,
}

impl View for CandidateFile {
    type V = CandidateView;

    open spec fn view(&self) -> CandidateView {
        CandidateView { name: self.name@, path: self.path@ }
    }
}

impl DeepView for CandidateFile {
    type V = CandidateView;

    open spec fn deep_view(&self) -> CandidateView {
        self@
    }
}

impl Clone for CandidateFile {
    fn clone(&self) -> (copy: Self)
        ensures
            copy == *self,
    {
        CandidateFile { name: self.name.clone(), path: self.path.clone() }
    }
}

/// The candidate that an item of a directory read stands for, if any:
/// only an entry known to be a regular file is one.
pub open spec fn candidate_of(entry: ReadEntryView) -> Option<CandidateView> {
    match entry {
        ReadEntryView::Entry { name, path, kind: Some(EntryKind::File) } => Some(
            CandidateView { name, path },
        ),
        _ => None,
    }
}

/// The candidates among the items of a directory read, in the order of
/// the read.
pub open spec fn candidates_of(entries: Seq<ReadEntryView>) -> Seq<CandidateView> {
    entries.filter_map(|entry: ReadEntryView| candidate_of(entry))
}

/// Keeps the regular files of a directory read, in the order of the read.
///
/// Items that the read could not deliver, entries whose type could not be
/// determined, directories, links and special files are left out; none of
/// them makes the listing fail.
pub fn list_candidates(entries: &Vec<ReadEntry>) -> (candidates: Vec<CandidateFile>)
    ensures
        candidates.deep_view() == candidates_of(entries.deep_view()),
{
    let ghost keep = |entry: ReadEntryView| candidate_of(entry);
    let mut candidates: Vec<CandidateFile> = Vec::new();
    let mut i: usize = 0;
    while i < entries.len()
        invariant
            i <= entries.len(),
            keep == |entry: ReadEntryView| candidate_of(entry),
            candidates.deep_view() == entries.deep_view().take(i as int).filter_map(keep),
        decreases entries.len() - i,
    {
        proof {
            entries.deep_view().lemma_filter_map_take_succ(keep, i as int);
        }
        let ghost before = candidates.deep_view();
        match &entries[i] {
            ReadEntry::Entry { name, path, kind: Some(EntryKind::File) } => {
                candidates.push(CandidateFile { name: name.clone(), path: path.clone() });
                assert(candidates.deep_view() =~= before + seq![
                    CandidateView { name: name@, path: path@ },
                ]);
            },
            _ => {},
        }
        i += 1;
    }
    assert(entries.deep_view().take(entries.len() as int) =~= entries.deep_view());
    candidates
}

/// The name of an item of a directory read, if it is an entry.
pub open spec fn name_of(entry: ReadEntryView) -> Option<Seq<char>> {
    match entry {
        ReadEntryView::Entry { name, .. } => Some(name),
        ReadEntryView::Unreadable => None,
    }
}

/// Whether no two entries of a directory read have the same name, as
/// holds of the entries of one directory.
pub open spec fn names_are_unique(entries: Seq<ReadEntryView>) -> bool {
    forall|i: int, j: int|
        0 <= i < j < entries.len() && name_of(#[trigger] entries[i]) is Some ==> name_of(
            entries[i],
        ) != name_of(#[trigger] entries[j])
}

/// Whether no two candidates have the same name.
pub open spec fn candidate_names_are_unique(candidates: Seq<CandidateView>) -> bool {
    forall|i: int, j: int|
        0 <= i < j < candidates.len() ==> #[trigger] candidates[i].name
            != #[trigger] candidates[j].name
}

/// Every candidate is one of the entries of the read, under its own name.
pub proof fn lemma_candidates_are_entries(entries: Seq<ReadEntryView>, at: int)
    requires
        0 <= at < candidates_of(entries).len(),
    ensures
        exists|from: int|
            0 <= from < entries.len() && candidate_of(#[trigger] entries[from]) == Some(
                candidates_of(entries)[at],
            ),
{
    let keep = |entry: ReadEntryView| candidate_of(entry);
    let candidate = candidates_of(entries)[at];
    entries.lemma_filter_map_contains(keep, candidate);
    let entry = choose|entry: ReadEntryView| #[trigger]
        entries.contains(entry) && keep(entry) == Some(candidate);
    let from = choose|from: int| 0 <= from < entries.len() && entries[from] == entry;
}

/// The candidates of a directory have different names, since its entries
/// have.
pub proof fn lemma_candidates_have_unique_names(entries: Seq<ReadEntryView>)
    requires
        names_are_unique(entries),
    ensures
        candidate_names_are_unique(candidates_of(entries)),
    decreases entries.len(),
{
    let keep = |entry: ReadEntryView| candidate_of(entry);
    if entries.len() > 0 {
        let rest = entries.drop_last();
        let last = entries.last();
        assert(names_are_unique(rest)) by {
            assert forall|i: int, j: int|
                0 <= i < j < rest.len() && name_of(#[trigger] rest[i]) is Some implies name_of(
                rest[i],
            ) != name_of(#[trigger] rest[j]) by {}
        }
        lemma_candidates_have_unique_names(rest);
        let before = candidates_of(rest);
        let all = candidates_of(entries);
        assert(all == match candidate_of(last) {
            Some(candidate) => before + seq![candidate],
            None => before,
        });
        if let Some(candidate) = candidate_of(last) {
            assert forall|i: int, j: int| 0 <= i < j < all.len() implies #[trigger] all[i].name
                != #[trigger] all[j].name by {
                if j == before.len() {
                    // The earlier candidate is an entry before the last one.
                    lemma_candidates_are_entries(rest, i);
                    let from = choose|from: int|
                        0 <= from < rest.len() && candidate_of(#[trigger] rest[from]) == Some(
                            before[i],
                        );
                    assert(rest[from] == entries[from]);
                }
            }
        }
    }
}

} // verus!
