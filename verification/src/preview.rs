//! The preview of a plan: what would be removed and what would be added.

use vstd::prelude::*;
use crate::plan::{ActionView, SelectionPlan};

verus! {

/// The kind of change that a preview line announces.
#[derive(Debug, Clone, Copy, PartialEq, Eq, Structural)]
pub enum Marker {
    /// A file appears at the path.
    Addition,
    /// The file at the path goes away.
    Removal,
}

impl Marker {
    /// The sign that stands for the marker in the preview text.
    pub open spec fn sign(self) -> Seq<char> {
        match self {
            Marker::Addition => seq!['+', '+'],
            Marker::Removal => seq!['-', '-'],
        }
    }

    /// The sign that stands for the marker in the preview text: `++` for
    /// an addition, `--` for a removal.
    pub fn symbol(&self) -> (symbol: &'static str)
        ensures
            symbol@ == self.sign(),
    {
        proof {
            reveal_strlit("++");
            reveal_strlit("--");
        }
        match self {
            Marker::Addition => "++",
            Marker::Removal => "--",
        }
    }
}

/// One line of the preview: a marker and the path it applies to. How the
/// line is laid out and coloured is up to whoever shows it.
#[derive(Debug, PartialEq, Eq)]
pub struct PreviewLine {
    /// Whether the path is added or removed.
    pub marker: Marker,
    /// The path that changes.
    pub path: String,
}

/// The mathematical value of a [`PreviewLine`].
pub struct PreviewLineView {
    pub marker: Marker,
    pub path: Seq<char>,
}

impl View for PreviewLine {
    type V = PreviewLineView;

    open spec fn view(&self) -> PreviewLineView {
        PreviewLineView { marker: self.marker, path: self.path@ }
    }
}

impl DeepView for PreviewLine {
    type V = PreviewLineView;

    open spec fn deep_view(&self) -> PreviewLineView {
        self@
    }
}

/// The removal line of a planned transfer: its source goes away.
pub open spec fn removal_of(action: ActionView) -> PreviewLineView {
    PreviewLineView { marker: Marker::Removal, path: action.source.path }
}

/// The addition line of a planned transfer: its destination appears.
pub open spec fn addition_of(action: ActionView) -> PreviewLineView {
    PreviewLineView { marker: Marker::Addition, path: action.dest }
}

/// The preview of a plan. For a copy it has one line per transfer, the
/// addition of the destination. For a move it has two lines per transfer:
/// the removal of the source, then the addition of the destination.
pub open spec fn preview_of(plan: Seq<ActionView>, move_files: bool) -> Seq<PreviewLineView> {
    if move_files {
        Seq::new(
            2 * plan.len(),
            |k: int|
                if k % 2 == 0 {
                    removal_of(plan[k / 2])
                } else {
                    addition_of(plan[k / 2])
                },
        )
    } else {
        Seq::new(plan.len(), |k: int| addition_of(plan[k]))
    }
}

/// Renders the preview of a plan, in plan order.
pub fn preview(plan: &SelectionPlan, move_files: bool) -> (lines: Vec<PreviewLine>)
    ensures
        lines.deep_view() == preview_of(plan@, move_files),
{
    let mut lines: Vec<PreviewLine> = Vec::new();
    let mut i: usize = 0;
    while i < plan.actions.len()
        invariant
            i <= plan.actions.len(),
            lines.deep_view() == preview_of(plan@.take(i as int), move_files),
        decreases plan.actions.len() - i,
    {
        let ghost before = lines.deep_view();
        let action = &plan.actions[i];
        if move_files {
            let removal = PreviewLine { marker: Marker::Removal, path: action.source.path.clone() };
            lines.push(removal);
            assert(lines.deep_view() =~= before.push(removal_of(action@)));
        }
        let ghost midway = lines.deep_view();
        let addition = PreviewLine { marker: Marker::Addition, path: action.dest.clone() };
        lines.push(addition);
        assert(lines.deep_view() =~= midway.push(addition_of(action@)));
        // The lines before are those of the transfers before, and the new
        // ones are those of this transfer.
        assert(lines.deep_view() =~= preview_of(plan@.take(i + 1), move_files));
        i += 1;
    }
    lines
}

/// The text of the hint that closes the preview of a dry run.
pub fn hint_text() -> (hint: &'static str)
    ensures
        hint@ == "Re-run randselect with --go to write these changes to the filesystem."@,
{
    "Re-run randselect with --go to write these changes to the filesystem."
}

} // verus!
