//! The dispatcher's decisions: which directory entries are candidates,
//! what to do with a classification outcome, and the running count of
//! repaired files. The walk itself, being filesystem work, lives with the
//! caller; every choice it makes is taken here.

use vstd::prelude::*;
use crate::classify::ClassificationOutcome;
use crate::classify::PixelFormat;

verus! {

/// What the dispatcher does with one classified file.
#[derive(Clone, Copy, Debug, PartialEq, Eq, Structural)]
pub enum FileAction {
    /// Invoke the repair pipeline and count the file on success.
    Repair,
    /// No action and no output: the file is already fine.
    Ignore,
    /// Emit a diagnostic naming the outcome and the file; do not count it,
    /// do not stop the walk.
    Report,
}

/// The action each classification outcome calls for: repair for an
/// indexed-color file, silence for any other classified format, and a
/// diagnostic for every failure outcome.
pub open spec fn spec_action(o: ClassificationOutcome) -> FileAction {
    match o {
        ClassificationOutcome::Classified(PixelFormat::IndexedColor) => FileAction::Repair,
        ClassificationOutcome::Classified(_) => FileAction::Ignore,
        _ => FileAction::Report,
    }
}

/// Decides what to do with one file's classification outcome.
pub fn decide_action(o: &ClassificationOutcome) -> (a: FileAction)
    ensures
        a == spec_action(*o),
{
    match o {
        ClassificationOutcome::Classified(PixelFormat::IndexedColor) => FileAction::Repair,
        ClassificationOutcome::Classified(_) => FileAction::Ignore,
        _ => FileAction::Report,
    }
}

/// Law: repair is triggered by an indexed-color classification and by
/// nothing else. A file already in direct color, or one that fails
/// classification, never reaches the repair orchestrator — so re-running
/// the pipeline over already-repaired files repairs nothing again.
pub proof fn lemma_only_indexed_repairs(o: ClassificationOutcome)
    ensures
        spec_action(o) == FileAction::Repair <==> o == ClassificationOutcome::Classified(
            PixelFormat::IndexedColor,
        ),
{
}

/// The candidate extension, as bytes: "png", case-sensitive.
pub open spec fn png_extension() -> Seq<u8> {
    seq![112u8, 110u8, 103u8]
}

/// Whether a file's extension makes it a candidate: exactly the bytes
/// "png", with no case folding.
pub fn is_png_extension(ext: &Vec<u8>) -> (r: bool)
    ensures
        r == (ext@ == png_extension()),
{
    if ext.len() == 3 && ext[0] == 112 && ext[1] == 110 && ext[2] == 103 {
        proof {
            assert(ext@ =~= png_extension());
        }
        true
    } else {
        false
    }
}

/// Whether a directory entry is a candidate for classification: it must be
/// a regular file and its extension must be exactly "png". Everything else
/// is skipped silently, before the file is even opened.
pub fn is_candidate(is_file: bool, ext: Option<&Vec<u8>>) -> (r: bool)
    ensures
        r == (is_file && (ext matches Some(e) && e@ == png_extension())),
{
    match ext {
        Some(e) => is_file && is_png_extension(e),
        None => false,
    }
}

/// The dispatcher's only cross-file state: how many files were repaired.
pub struct RunState {
    pub fixed: u64,
}

impl RunState {
    /// A fresh run: nothing repaired yet.
    pub fn new() -> (s: RunState)
        ensures
            s.fixed == 0,
    {
        RunState { fixed: 0 }
    }

    /// Counts one successfully repaired file.
    pub fn note_fixed(&mut self)
        requires
            old(self).fixed < u64::MAX,
        ensures
            final(self).fixed == old(self).fixed + 1,
    {
        self.fixed = self.fixed + 1;
    }
}

} // verus!
