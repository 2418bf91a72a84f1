//! Random selection of files from a directory, with a preview of the
//! planned transfer and an explicit confirmation before anything is written.
//!
//! The library decides; it touches neither the file system nor the
//! terminal. A caller examines the file system, hands what it found to the
//! library as plain values, and carries out the requests the library
//! answers with. The one thing the library fetches by itself is
//! randomness, through the `rand` crate.
//!
//! # The stages of a run
//!
//! - [`validate`]: the source must be a directory, and the destination
//!   another location.
//! - [`listing`]: the candidates are the regular files directly inside the
//!   source.
//! - [`sampler`]: the candidates are shuffled, with a seed or without, and
//!   the first few are kept.
//! - [`plan`](mod@plan): each selected file gets its path in the destination.
//! - [`preview`](mod@preview): the plan is shown as additions and removals.
//! - [`run`](mod@run): the stages in order, and then the transfers one by
//!   one, as requests to the caller and events from it.
//! - [`logging`]: how much of the log a verbosity shows.
//!
//! # Driving a run
//!
//! [`run()`] starts a [`Run`]. The caller asks it for its [`Request`],
//! performs that, and hands what came of it to [`Run::advance`] as an
//! [`Event`], until the request is [`Request::Finish`]; [`Run::result`]
//! then tells how the run ended.
//!
//! # What is proved
//!
//! Every function is verified against a contract over the mathematical
//! value of its arguments. The module [`course`] states what holds of
//! every run: a dry run writes nothing, a source is deleted only after its
//! copy was made, transfers are taken up in plan order, and a run with a
//! seed is reproducible. The shuffle itself is the one of the `rand`
//! crate; of it the library assumes that it rearranges its input, and that
//! seed and input determine the outcome.

pub mod cli;
pub mod course;
pub mod error;
pub mod listing;
pub mod logging;
pub mod plan;
pub mod preview;
pub mod run;
pub mod sampler;
pub mod validate;

pub use cli::Cli;
pub use error::{InvalidInput, IoFailure, RandSelectError, Stage};
pub use listing::{list_candidates, CandidateFile, EntryKind, ReadEntry};
pub use logging::{level_for_verbosity, LogLevel};
pub use plan::{destination_path, plan, SelectionPlan, TransferAction};
pub use preview::{hint_text, preview, Marker, PreviewLine};
pub use run::{run, Event, Phase, Progress, Request, Run, TransferOutcome};
pub use sampler::{sample, select_in_order, shuffled_order};
pub use validate::{paths_are_valid, PathProbe};
