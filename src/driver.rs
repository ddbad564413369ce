//! The run of one source file through one endpoint: its chunks are dispatched
//! one at a time, in document order, and each cleaned text is appended before
//! the next chunk is asked for.
use crate::retry::DispatchError;
use vstd::prelude::*;

verus! {

/// What the caller must do next for the file.
#[derive(Debug)]
pub enum FileAction {
    /// Dispatch the chunk at this index.
    Dispatch(usize),
    /// Every chunk has been dealt with.
    Done,
    /// Stop: this file, and the rest of the run for this endpoint, is given up.
    Abort(DispatchError),
}

/// How far the run of one file has come.
#[derive(Debug)]
pub struct FileRun {
    /// How many chunks the file has.
    pub total: usize,
    /// The chunk whose outcome is awaited.
    pub next: usize,
}

/// The action that follows the outcome of chunk `i` of `total`.
pub open spec fn after_outcome(total: nat, i: nat, outcome: Result<Option<String>, DispatchError>) -> FileAction {
    match outcome {
        Err(e) => FileAction::Abort(e),
        Ok(_) => if i + 1 < total {
            FileAction::Dispatch((i + 1) as usize)
        } else {
            FileAction::Done
        },
    }
}

/// The cleaned text, if any, that the outcome of a chunk adds to the output
/// document as a new entry.
pub open spec fn appended(outcome: Result<Option<String>, DispatchError>) -> Option<String> {
    match outcome {
        Ok(Some(t)) => Some(t),
        _ => None,
    }
}

impl FileRun {
    /// Starts the run of a file of `total` chunks: the first chunk is
    /// dispatched, or the file is done at once when it has none.
    pub fn start(total: usize) -> (r: (FileRun, FileAction))
        ensures
            r.0.total == total,
            r.0.next == 0,
            total == 0 ==> r.1 == FileAction::Done,
            total > 0 ==> r.1 == FileAction::Dispatch(0),
    {
        let run = FileRun { total, next: 0 };
        if total == 0 {
            (run, FileAction::Done)
        } else {
            (run, FileAction::Dispatch(0))
        }
    }

    /// Takes the outcome of the chunk in flight. Returns the cleaned text whose
    /// entry is to be appended, if any, before anything else is done, and the next action: the
    /// following chunk, the end of the file, or abort on a failed dispatch.
    pub fn on_outcome(&mut self, outcome: Result<Option<String>, DispatchError>) -> (r: (
        Option<String>,
        FileAction,
    ))
        requires
            old(self).next < old(self).total,
        ensures
            final(self).total == old(self).total,
            r.1 == after_outcome(old(self).total as nat, old(self).next as nat, outcome),
            r.0 == appended(outcome),
            r.1 is Dispatch ==> final(self).next == old(self).next + 1 && final(self).next
                < final(self).total,
            !(r.1 is Dispatch) ==> final(self).next == old(self).next,
    {
        match outcome {
            Err(e) => (None, FileAction::Abort(e)),
            Ok(entry) => {
                if self.next + 1 < self.total {
                    self.next = self.next + 1;
                    (entry, FileAction::Dispatch(self.next))
                } else {
                    (entry, FileAction::Done)
                }
            },
        }
    }
}

/// Source order: a run that is not aborted dispatches the chunks one by one,
/// each index one past the one before, and is done exactly after the last.
pub proof fn chunks_follow_source_order(total: nat, i: nat, outcome: Result<Option<String>, DispatchError>)
    requires
        i < total,
        outcome is Ok,
    ensures
        i + 1 < total ==> after_outcome(total, i, outcome) == FileAction::Dispatch((i + 1) as usize),
        i + 1 == total ==> after_outcome(total, i, outcome) == FileAction::Done,
{
}

} // verus!
