//! The transfer plan: where each selected file is to go.

use vstd::prelude::*;
use crate::listing::{candidate_names_are_unique, CandidateFile, CandidateView};

verus! {

/// One planned transfer: a selected file and the path it is copied or
/// moved to.
#[derive(Debug, PartialEq, Eq)]
pub struct TransferAction {
    /// The selected file.
    pub source: CandidateFile,
    /// The path of the file in the destination directory.
    pub dest: String,
}

/// The mathematical value of a [`TransferAction`].
pub struct ActionView {
    pub source: CandidateView,
    pub dest: Seq<char>,
}

impl View for TransferAction {
    type V = ActionView;

    open spec fn view(&self) -> ActionView {
        ActionView { source: self.source@, dest: self.dest@ }
    }
}

impl DeepView for TransferAction {
    type V = ActionView;

    open spec fn deep_view(&self) -> ActionView {
        self@
    }
}

/// The planned transfers of a run, in the order in which they are shown
/// and carried out.
#[derive(Debug, PartialEq, Eq)]
pub struct SelectionPlan {
    /// The transfers, in the order of the sample.
    pub actions: Vec<TransferAction>,
}

impl View for SelectionPlan {
    type V = Seq<ActionView>;

    open spec fn view(&self) -> Seq<ActionView> {
        self.actions.deep_view()
    }
}

/// The path of a file named `name` inside the directory `dest_dir`: the
/// directory as written, a slash, and the name.
pub open spec fn destination_of(dest_dir: Seq<char>, name: Seq<char>) -> Seq<char> {
    dest_dir + seq!['/'] + name
}

/// The transfer of one selected file into `dest_dir`.
pub open spec fn action_for(selected: CandidateView, dest_dir: Seq<char>) -> ActionView {
    ActionView { source: selected, dest: destination_of(dest_dir, selected.name) }
}

/// The plan for a sample: each selected file, in the order of the sample,
/// with its path in the destination directory.
pub open spec fn planned(selected: Seq<CandidateView>, dest_dir: Seq<char>) -> Seq<ActionView> {
    Seq::new(selected.len(), |i: int| action_for(selected[i], dest_dir))
}

/// Builds the path of a file named `name` inside the directory `dest_dir`.
pub fn destination_path(dest_dir: &str, name: &str) -> (dest: String)
    ensures
        dest@ == destination_of(dest_dir@, name@),
{
    let mut dest = dest_dir.to_owned();
    dest.append("/");
    dest.append(name);
    proof {
        reveal_strlit("/");
    }
    dest
}

/// Pairs every selected file with its path in the destination directory.
/// The plan keeps the order of the sample; nothing is read or written.
pub fn plan(selected: &Vec<CandidateFile>, dest_dir: &str) -> (plan: SelectionPlan)
    ensures
        plan@ == planned(selected.deep_view(), dest_dir@),
{
    let mut actions: Vec<TransferAction> = Vec::new();
    let mut i: usize = 0;
    while i < selected.len()
        invariant
            i <= selected.len(),
            actions.deep_view() == planned(selected.deep_view(), dest_dir@).take(i as int),
        decreases selected.len() - i,
    {
        let ghost before = actions.deep_view();
        let source = selected[i].clone();
        let dest = destination_path(dest_dir, source.name.as_str());
        let action = TransferAction { source, dest };
        actions.push(action);
        assert(actions.deep_view() =~= before.push(action@));
        i += 1;
    }
    SelectionPlan { actions }
}

/// Files with different names go to different paths: where no two
/// selected files share a name, no two transfers of the plan share a
/// destination.
pub proof fn lemma_destinations_do_not_collide(selected: Seq<CandidateView>, dest_dir: Seq<char>)
    requires
        candidate_names_are_unique(selected),
    ensures
        forall|i: int, j: int|
            0 <= i < j < selected.len() ==> #[trigger] planned(selected, dest_dir)[i].dest
                != #[trigger] planned(selected, dest_dir)[j].dest,
{
    let start = dest_dir + seq!['/'];
    assert forall|i: int, j: int| 0 <= i < j < selected.len() implies #[trigger] planned(
        selected,
        dest_dir,
    )[i].dest != #[trigger] planned(selected, dest_dir)[j].dest by {
        // What follows the common start of two destinations is the name.
        let first = selected[i].name;
        let second = selected[j].name;
        assert((start + first).skip(start.len() as int) =~= first);
        assert((start + second).skip(start.len() as int) =~= second);
    }
}

} // verus!
