//! Error taxonomy of the dictation core.
//!
//! Every fault that can cross from the native layer, the capture pipeline or
//! a collaborator into the coordinator is converted into one of these typed
//! values at the boundary; the coordinator itself never unwinds.

use vstd::prelude::*;
use vstd::string::StrSliceExecFns;
use vstd::string::StringExecFns;

use crate::textutil::spec_decimal;
use crate::textutil::u64_to_string;

verus! {

/// The typed failures of a dictation session.
#[derive(Debug, Clone, PartialEq)]
pub enum DictationError {
    /// A capture session already exists; a second `start` fails fast.
    ResourceBusy,
    /// `stop` was called with no session to stop.
    NotRecording,
    /// The platform permission for synthetic input is missing.
    PermissionDenied,
    /// A native-layer call failed; carries the underlying message.
    NativeFault(String),
    /// Finalization polling exhausted all attempts; carries the last
    /// observed output length and the hex dump of its leading bytes.
    Timeout { last_len: usize, last_prefix: String },
    /// The transcription collaborator failed; treated as opaque.
    ProviderError(String),
    /// A clipboard or file operation failed.
    IOError(String),
}

/// The text a user sees for each error. Faults and collaborator errors
/// carry their own message through; the permission error explains how to
/// grant the permission and that the text stays on the clipboard for a
/// manual paste; an exhausted finalization poll reports what was last
/// observed.
pub fn error_message(e: &DictationError) -> (r: String)
    ensures
        e is ResourceBusy ==> r@ == "Recording already in progress"@,
        e is NotRecording ==> r@ == "Not currently recording"@,
        e is PermissionDenied ==> r@
            == "macOS Accessibility permission is required for automatic pasting. Enable Typefree in System Settings -> Privacy & Security -> Accessibility, then restart Typefree."@
            + ". Text is copied to clipboard; paste manually with Cmd+V."@,
        e matches DictationError::NativeFault(m) ==> r@ == m@,
        e matches DictationError::Timeout { last_len, last_prefix } ==> r@
            == "Native recording did not produce a valid WAV (len="@ + spec_decimal(
            last_len as int,
        ) + ", prefix="@ + last_prefix@ + ")"@,
        e matches DictationError::ProviderError(m) ==> r@ == m@,
        e matches DictationError::IOError(m) ==> r@ == m@,
{
    match e {
        DictationError::ResourceBusy => String::from_str("Recording already in progress"),
        DictationError::NotRecording => String::from_str("Not currently recording"),
        DictationError::PermissionDenied => String::from_str(
            "macOS Accessibility permission is required for automatic pasting. Enable Typefree in System Settings -> Privacy & Security -> Accessibility, then restart Typefree.",
        ).concat(". Text is copied to clipboard; paste manually with Cmd+V."),
        DictationError::NativeFault(m) => m.clone(),
        DictationError::Timeout { last_len, last_prefix } => {
            let len_text = u64_to_string(*last_len as u64);
            String::from_str("Native recording did not produce a valid WAV (len=").concat(
                len_text.as_str(),
            ).concat(", prefix=").concat(last_prefix.as_str()).concat(")")
        },
        DictationError::ProviderError(m) => m.clone(),
        DictationError::IOError(m) => m.clone(),
    }
}

} // verus!
