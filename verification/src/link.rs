//! Putting a theme into a profile where no link may be made: the theme is
//! copied, entry by entry, and what the profile holds already is left alone.

use vstd::prelude::*;
use crate::path::{join, joined, relative_name, relative_to};

verus! {

/// What is done with one entry of a theme that is being copied.
#[derive(Clone, Copy, Debug, PartialEq, Eq, Structural)]
pub enum CopyStep {
    /// Create the directory, unless it is there.
    MakeDir,
    /// Copy the file.
    CopyFile,
    /// Leave the entry out.
    Skip,
}

/// Where an entry of the theme at `source` goes below `target`: to the
/// path that it has as seen from `source`; nowhere if it does not lie below
/// `source`.
pub open spec fn destination_of(source: Seq<char>, target: Seq<char>, entry: Seq<char>) -> Option<
    Seq<char>,
> {
    match relative_to(entry, source) {
        Some(name) => Some(joined(target, name)),
        None => None,
    }
}

/// What is done with an entry: a directory is created, a file is copied
/// unless one is there already, anything else is left out.
pub open spec fn step_for(is_dir: bool, is_file: bool, present: bool) -> CopyStep {
    if is_dir {
        CopyStep::MakeDir
    } else if is_file && !present {
        CopyStep::CopyFile
    } else {
        CopyStep::Skip
    }
}

/// Where an entry of the theme at `source` goes below `target`.
pub fn destination(source: &str, target: &str, entry: &str) -> (r: Option<String>)
    ensures
        r.deep_view() == destination_of(source@, target@, entry@),
{
    match relative_name(entry, source) {
        Some(name) => Some(join(target, name.as_str())),
        None => None,
    }
}

/// What is done with an entry, given what it is and whether its
/// destination is there already.
pub fn copy_step(is_dir: bool, is_file: bool, present: bool) -> (r: CopyStep)
    ensures
        r == step_for(is_dir, is_file, present),
{
    if is_dir {
        CopyStep::MakeDir
    } else if is_file && !present {
        CopyStep::CopyFile
    } else {
        CopyStep::Skip
    }
}

/// A file that the profile holds already is never written over.
pub proof fn lemma_present_file_is_kept(is_dir: bool, is_file: bool)
    ensures
        step_for(is_dir, is_file, true) != CopyStep::CopyFile,
{
}

} // verus!
