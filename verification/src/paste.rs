//! The clipboard-preserving paste sequence.
//!
//! A paste (1) takes a best-effort snapshot of the current clipboard text,
//! (2) writes the new text to the clipboard, (3) waits a settle delay,
//! (4) dispatches a synthetic paste keystroke on the UI-affinity thread —
//! after checking the platform's synthetic-input permission — and (5) after
//! a second settle delay restores the snapshot, best-effort. When the
//! keystroke dispatch fails (or the permission is missing) the new text is
//! deliberately left on the clipboard so the user can paste manually, and
//! the returned error says so.
//!
//! The sequence is modeled as a function from the outcomes of the platform
//! steps to the paste result and the exact list of clipboard writes; the
//! surrounding application performs the real clipboard and keystroke work
//! in this order and with these delays.

use vstd::prelude::*;
use vstd::string::StrSliceExecFns;
use vstd::string::StringExecFns;

use crate::errors::DictationError;

verus! {

/// The settle delay between the clipboard write and the keystroke.
pub const PASTE_SETTLE_BEFORE_MS: u64 = 80;

/// The settle delay between the keystroke and the clipboard restore.
pub const PASTE_SETTLE_AFTER_MS: u64 = 150;

/// The outcomes of the platform steps of one paste, in the order the steps
/// run. A later step's outcome is consulted only when every earlier step
/// succeeded.
#[derive(Debug)]
pub struct PasteSteps {
    /// Best-effort read of the clipboard before the paste.
    pub snapshot: Option<String>,
    /// Writing the new text to the clipboard.
    pub write: Result<(), String>,
    /// Whether the platform's synthetic-input permission is present.
    pub permission_granted: bool,
    /// Dispatch of the synthetic paste keystroke on the UI-affinity thread.
    pub dispatch: Result<(), String>,
}

/// What one paste did: its result, every text written to the system
/// clipboard in order, and whether the keystroke was dispatched.
#[derive(Debug)]
pub struct PasteReport {
    pub outcome: Result<(), DictationError>,
    pub writes: Vec<String>,
    pub dispatched: bool,
}

/// The clipboard content after the writes in `writes` were applied on top
/// of the pre-paste content `pre`.
pub open spec fn spec_clipboard_after(writes: Seq<String>, pre: Option<String>) -> Option<String> {
    if writes.len() == 0 {
        pre
    } else {
        Some(writes.last())
    }
}

/// One clipboard-preserving paste of `text`, interpreted over the platform
/// step outcomes in `steps`.
pub fn run_paste(text: String, steps: PasteSteps) -> (r: PasteReport)
    ensures
        steps.write matches Err(m) ==> (r.outcome matches Err(e) && e matches
        DictationError::IOError(s) && s@ == "Failed to write to clipboard: "@ + m@) && r.writes@
            == Seq::<String>::empty() && !r.dispatched,
        steps.write is Ok && !steps.permission_granted ==> r.outcome == Err::<(), _>(
            DictationError::PermissionDenied,
        ) && r.writes@ == seq![text] && !r.dispatched,
        steps.write is Ok && steps.permission_granted ==> (steps.dispatch matches Err(m) ==> (
        r.outcome matches Err(e) && e matches DictationError::IOError(s) && s@ == m@
            + ". Text is copied to clipboard; paste manually with Cmd+V."@) && r.writes@ == seq![
            text,
        ] && !r.dispatched),
        steps.write is Ok && steps.permission_granted && steps.dispatch is Ok ==> r.outcome is Ok
            && r.dispatched && r.writes@ == (match steps.snapshot {
            Some(prev) => seq![text, prev],
            None => seq![text],
        }),
{
    let mut writes: Vec<String> = Vec::new();

    if let Err(m) = steps.write {
        let msg = String::from_str("Failed to write to clipboard: ").concat(m.as_str());
        return PasteReport {
            outcome: Err(DictationError::IOError(msg)),
            writes,
            dispatched: false,
        };
    }
    writes.push(text);

    if !steps.permission_granted {
        proof {
            assert(writes@ =~= seq![text]);
        }
        return PasteReport {
            outcome: Err(DictationError::PermissionDenied),
            writes,
            dispatched: false,
        };
    }

    if let Err(m) = steps.dispatch {
        let msg = m.concat(". Text is copied to clipboard; paste manually with Cmd+V.");
        proof {
            assert(writes@ =~= seq![text]);
        }
        return PasteReport {
            outcome: Err(DictationError::IOError(msg)),
            writes,
            dispatched: false,
        };
    }

    match steps.snapshot {
        Some(prev) => {
            writes.push(prev);
            proof {
                assert(writes@ =~= seq![text, prev]);
            }
        },
        None => {
            proof {
                assert(writes@ =~= seq![text]);
            }
        },
    }
    PasteReport { outcome: Ok(()), writes, dispatched: true }
}

/// Law: when the clipboard write succeeded but the keystroke could not be
/// dispatched (no permission, or the dispatch itself failed), the clipboard
/// is left holding the newly written text; when the whole sequence
/// succeeded and the pre-paste snapshot existed, the clipboard is restored
/// to that snapshot.
pub proof fn lemma_paste_preserves_clipboard(
    text: String,
    steps: PasteSteps,
    r: PasteReport,
    pre: Option<String>,
)
    requires
        call_ensures(run_paste, (text, steps), r),
    ensures
        steps.write is Ok && (!steps.permission_granted || steps.dispatch is Err)
            ==> spec_clipboard_after(r.writes@, pre) == Some(text),
        steps.write is Ok && steps.permission_granted && steps.dispatch is Ok ==> (steps.snapshot
            matches Some(prev) ==> spec_clipboard_after(r.writes@, pre) == Some(prev)),
{
}

} // verus!
