//! Replacing the credentials file in one step.
//!
//! The new text is written to a temporary file beside the target and then
//! renamed over it. A rename puts the whole temporary file in the place of
//! the target at once, so a reader of the target finds the old text or the
//! new text and never a part of either. The functions here say which step
//! comes next; the model below says what each step does to the two files,
//! and the laws are proved of that model.

use vstd::prelude::*;
use crate::error::Error;

verus! {

/// The outside work that is pending in a replacement, or how it ended.
#[derive(Clone, Copy, Debug, PartialEq, Eq, Structural)]
pub enum ReplaceStep {
    /// Write the whole new text to the temporary file.
    WriteTemp,
    /// Rename the temporary file over the target.
    Rename,
    /// Remove what is left of the temporary file after a failure.
    Discard,
    /// The target holds the new text.
    Replaced,
    /// The replacement failed; the target is as it was.
    Failed(Error),
}

/// The target and the temporary file as a reader may find them; `None` is a
/// file that is not there.
pub ghost struct Files {
    pub target: Option<Seq<char>>,
    pub temp: Option<Seq<char>>,
}

/// How a step ended: whether it succeeded, and for a write that did not,
/// how many characters had reached the temporary file.
pub ghost struct StepEnd {
    pub ok: bool,
    pub written: nat,
}

impl ReplaceStep {
    /// Whether nothing more follows this step.
    pub open spec fn is_final(self) -> bool {
        self is Replaced || self is Failed
    }
}

/// The step that follows `step` once its outside work has succeeded (`ok`)
/// or failed.
pub open spec fn replace_next(step: ReplaceStep, ok: bool) -> ReplaceStep {
    match step {
        ReplaceStep::WriteTemp => if ok {
            ReplaceStep::Rename
        } else {
            ReplaceStep::Discard
        },
        ReplaceStep::Rename => if ok {
            ReplaceStep::Replaced
        } else {
            ReplaceStep::Discard
        },
        ReplaceStep::Discard => ReplaceStep::Failed(Error::Store),
        _ => step,
    }
}

/// The beginning of `text` that an interrupted write has left.
pub open spec fn written_part(text: Seq<char>, written: nat) -> Seq<char> {
    if written < text.len() {
        text.take(written as int)
    } else {
        text
    }
}

/// What a step does to the files. A write that fails leaves a beginning of
/// the text in the temporary file; a rename that succeeds moves the
/// temporary file into the place of the target; no other step touches the target.
pub open spec fn effect(step: ReplaceStep, files: Files, text: Seq<char>, end: StepEnd) -> Files {
    match step {
        ReplaceStep::WriteTemp => Files {
            temp: Some(
                if end.ok {
                    text
                } else {
                    written_part(text, end.written)
                },
            ),
            ..files
        },
        ReplaceStep::Rename => if end.ok {
            Files { target: files.temp, temp: None }
        } else {
            files
        },
        ReplaceStep::Discard => if end.ok {
            Files { temp: None, ..files }
        } else {
            files
        },
        _ => files,
    }
}

/// A replacement under way: the pending step and the files as they are.
pub ghost struct Progress {
    pub step: ReplaceStep,
    pub files: Files,
}

/// Where a replacement of `target` by `text` stands after the steps whose
/// ends are `ends`, in order. The replacement may stop after any of them.
pub open spec fn replace_after(target: Option<Seq<char>>, text: Seq<char>, ends: Seq<StepEnd>)
    -> Progress
    decreases ends.len(),
{
    if ends.len() == 0 {
        Progress { step: ReplaceStep::WriteTemp, files: Files { target, temp: None } }
    } else {
        let before = replace_after(target, text, ends.drop_last());
        Progress {
            step: replace_next(before.step, ends.last().ok),
            files: effect(before.step, before.files, text, ends.last()),
        }
    }
}

/// Starts a replacement: the temporary file is written first.
pub fn replace() -> (step: ReplaceStep)
    ensures
        step == ReplaceStep::WriteTemp,
{
    ReplaceStep::WriteTemp
}

/// Advances a replacement by the outcome of the step that was pending. The
/// rename follows only a complete write; after a failed write or rename the
/// temporary file is discarded and the replacement fails with `Store`.
pub fn replace_step(step: ReplaceStep, ok: bool) -> (next: ReplaceStep)
    ensures
        next == replace_next(step, ok),
{
    match step {
        ReplaceStep::WriteTemp => if ok {
            ReplaceStep::Rename
        } else {
            ReplaceStep::Discard
        },
        ReplaceStep::Rename => if ok {
            ReplaceStep::Replaced
        } else {
            ReplaceStep::Discard
        },
        ReplaceStep::Discard => ReplaceStep::Failed(Error::Store),
        _ => step,
    }
}

/// The outcome of a replacement that is over; `None` while a step is pending.
pub fn replace_outcome(step: ReplaceStep) -> (r: Option<Result<(), Error>>)
    ensures
        r is Some <==> step.is_final(),
        step is Replaced ==> r == Some(Ok::<(), Error>(())),
        step matches ReplaceStep::Failed(e) ==> r == Some(Err::<(), Error>(e)),
{
    match step {
        ReplaceStep::Replaced => Some(Ok(())),
        ReplaceStep::Failed(e) => Some(Err(e)),
        _ => None,
    }
}

/// The target is never found partially written: wherever the replacement
/// stands or stops, and however its writes were interrupted, the target
/// holds what it held before or the whole new text. It holds the new text
/// once the replacement has succeeded and the old one once it has failed,
/// and the rename is only ever made of a completely written temporary file.
pub proof fn target_is_never_partial(target: Option<Seq<char>>, text: Seq<char>, ends: Seq<StepEnd>)
    ensures
        ({
            let now = replace_after(target, text, ends);
            &&& now.files.target == target || now.files.target == Some(text)
            &&& now.step is Rename ==> now.files.temp == Some(text) && now.files.target == target
            &&& now.step is WriteTemp || now.step is Discard || now.step is Failed
                ==> now.files.target == target
            &&& now.step is Replaced ==> now.files.target == Some(text)
        }),
    decreases ends.len(),
{
    if ends.len() > 0 {
        target_is_never_partial(target, text, ends.drop_last());
    }
}

} // verus!
