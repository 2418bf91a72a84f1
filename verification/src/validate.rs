//! Validation of the source and destination directories.

use vstd::prelude::*;
use crate::error::{InvalidInput, RandSelectError, RandSelectErrorView};

verus! {

/// What an examination of the file system found out about the two
/// directories of a run. The library only reads it; gathering it is the
/// caller's part.
#[derive(Debug, PartialEq, Eq)]
pub struct PathProbe {
    /// Whether the source exists and is a directory.
    pub source_is_dir: bool,
    /// The canonical absolute path of the source, if it could be resolved.
    pub source_resolved: Option<String>,
    /// The canonical absolute path of the destination, if it exists and
    /// could be resolved. The destination need not exist yet.
    pub dest_resolved: Option<String>,
}

/// The mathematical value of a [`PathProbe`].
pub struct PathProbeView {
    pub source_is_dir: bool,
    pub source_resolved: Option<Seq<char>>,
    pub dest_resolved: Option<Seq<char>>,
}

impl View for PathProbe {
    type V = PathProbeView;

    open spec fn view(&self) -> PathProbeView {
        PathProbeView {
            source_is_dir: self.source_is_dir,
            source_resolved: match self.source_resolved {
                Some(p) => Some(p@),
                None => None,
            },
            dest_resolved: match self.dest_resolved {
                Some(p) => Some(p@),
                None => None,
            },
        }
    }
}

/// Whether both directories exist and resolve to one canonical path.
pub open spec fn resolve_alike(probe: PathProbeView) -> bool {
    probe.source_resolved is Some && probe.dest_resolved == probe.source_resolved
}

/// Whether source and destination denote the same location: they are
/// written the same, or both exist and resolve to the same canonical path.
/// A destination that does not exist yet is compared as written.
pub open spec fn same_location(
    in_dir: Seq<char>,
    out_dir: Seq<char>,
    probe: PathProbeView,
) -> bool {
    in_dir == out_dir || resolve_alike(probe)
}

/// The verdict on a pair of directories: the source must be a directory,
/// and the destination must be another location.
pub open spec fn validation(
    in_dir: Seq<char>,
    out_dir: Seq<char>,
    probe: PathProbeView,
) -> Result<(), InvalidInput> {
    if !probe.source_is_dir {
        Err(InvalidInput::NotADirectory)
    } else if same_location(in_dir, out_dir, probe) {
        Err(InvalidInput::SamePath)
    } else {
        Ok(())
    }
}

/// Whether two strings hold the same characters.
fn same_text(a: &str, b: &str) -> (same: bool)
    ensures
        same == (a@ == b@),
{
    a.to_owned() == b.to_owned()
}

fn resolved_alike(probe: &PathProbe) -> (alike: bool)
    ensures
        alike == resolve_alike(probe@),
{
    match &probe.source_resolved {
        Some(source) => match &probe.dest_resolved {
            Some(dest) => same_text(source.as_str(), dest.as_str()),
            None => false,
        },
        None => false,
    }
}

/// Checks the two directories of a run before anything is listed.
///
/// Fails with `NotADirectory` when the source is not an existing
/// directory, and otherwise with `SamePath` when source and destination
/// are the same location. The destination is allowed not to exist.
pub fn paths_are_valid(
    in_dir: &str,
    out_dir: &str,
    probe: &PathProbe,
) -> (verdict: Result<(), RandSelectError>)
    ensures
        match validation(in_dir@, out_dir@, probe@) {
            Ok(()) => verdict is Ok,
            Err(kind) => verdict matches Err(refusal) && refusal@
                == RandSelectErrorView::InvalidInput(kind),
        },
{
    if !probe.source_is_dir {
        return Err(RandSelectError::InvalidInput(InvalidInput::NotADirectory));
    }
    if same_text(in_dir, out_dir) || resolved_alike(probe) {
        return Err(RandSelectError::InvalidInput(InvalidInput::SamePath));
    }
    Ok(())
}

/// A directory is never accepted as its own destination: whatever the
/// examination of the file system resolved, validating an existing source
/// directory against itself fails with `SamePath`.
pub proof fn lemma_same_directory_is_refused(dir: Seq<char>, probe: PathProbeView)
    requires
        probe.source_is_dir,
    ensures
        validation(dir, dir, probe) == Err::<(), InvalidInput>(InvalidInput::SamePath),
{
}

} // verus!
