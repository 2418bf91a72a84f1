//! The configuration of one run.

use vstd::prelude::*;

verus! {

/// What the user asked for. It does not change during a run.
#[derive(Debug, PartialEq, Eq)]
pub struct Cli {
    /// The input directory to select from.
    pub in_dir: String,
    /// The directory to output to. It is created on commit if it does not exist.
    pub out_dir: String,
    /// The number of files to select.
    pub num_files: usize,
    /// Whether to move the files from `in_dir` to `out_dir`, rather than copy them.
    pub move_files: bool,
    /// Whether to carry out the copy or move. Without it the plan is only shown.
    pub go: bool,
    /// The seed of the random generator. With a seed the selection is reproducible.
    pub seed: Option<u64>,
}

/// The mathematical value of a [`Cli`].
pub struct CliView {
    pub in_dir: Seq<char>,
    pub out_dir: Seq<char>,
    pub num_files: nat,
    pub move_files: bool,
    pub go: bool,
    pub seed: Option<u64>,
}

impl View for Cli {
    type V = CliView;

    open spec fn view(&self) -> CliView {
        CliView {
            in_dir: self.in_dir@,
            out_dir: self.out_dir@,
            num_files: self.num_files as nat,
            move_files: self.move_files,
            go: self.go,
            seed: self.seed,
        }
    }
}

impl Clone for Cli {
    fn clone(&self) -> (copy: Self)
        ensures
            copy == *self,
    {
        Cli {
            in_dir: self.in_dir.clone(),
            out_dir: self.out_dir.clone(),
            num_files: self.num_files,
            move_files: self.move_files,
            go: self.go,
            seed: self.seed,
        }
    }
}

} // verus!
