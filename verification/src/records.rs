//! The plain records the collaborators exchange: the persisted
//! transcription row, the reasoning collaborator's outcome, and the
//! clipboard-listener update — together with the small rules that build
//! them. Storage, HTTP and the clipboard itself live in the surrounding
//! application; it converts to and from these types at the boundary.

use vstd::prelude::*;
use vstd::string::StrSliceExecFns;
use vstd::string::StringExecFns;

use crate::textutil::spec_decimal;
use crate::textutil::trim_of;
use crate::textutil::trim_str;
use crate::textutil::u128_to_string;
use crate::textutil::u64_to_string;

verus! {

/// One persisted transcription row.
#[derive(Debug, Clone, PartialEq)]
pub struct Transcription {
    pub id: i64,
    pub timestamp: String,
    pub original_text: String,
    pub processed_text: Option<String>,
    pub is_processed: bool,
    pub processing_method: String,
    pub agent_name: Option<String>,
    pub error: Option<String>,
}

impl Transcription {
    /// The row a newly saved transcription gets: processed iff a processed
    /// text is present, the method defaulting to "none", no error.
    pub fn new_row(
        id: i64,
        timestamp: String,
        text: String,
        processed: Option<String>,
        method: Option<String>,
        agent_name: Option<String>,
    ) -> (r: Transcription)
        ensures
            r.id == id,
            r.timestamp == timestamp,
            r.original_text == text,
            r.is_processed == (processed is Some),
            r.processed_text == processed,
            method matches Some(m) ==> r.processing_method == m,
            method is None ==> r.processing_method@ == "none"@,
            r.agent_name == agent_name,
            r.error is None,
    {
        let is_processed = processed.is_some();
        let processing_method = match method {
            Some(m) => m,
            None => String::from_str("none"),
        };
        Transcription {
            id,
            timestamp,
            original_text: text,
            processed_text: processed,
            is_processed,
            processing_method,
            agent_name,
            error: None,
        }
    }
}

/// How many rows a history query returns when the caller gives no limit.
pub const DEFAULT_QUERY_LIMIT: i32 = 100;

/// The row limit a history query uses.
pub fn effective_query_limit(limit: Option<i32>) -> (r: i32)
    ensures
        limit matches Some(n) ==> r == n,
        limit is None ==> r == DEFAULT_QUERY_LIMIT,
{
    match limit {
        Some(n) => n,
        None => DEFAULT_QUERY_LIMIT,
    }
}

/// What the reasoning collaborator answered.
#[derive(Debug, Clone, PartialEq)]
pub struct ReasoningResult {
    pub success: bool,
    pub text: Option<String>,
    pub error: Option<String>,
}

/// One item of the reasoning provider's answer, reduced to what the rules
/// read: its declared type and its text.
#[derive(Debug, Clone, PartialEq)]
pub struct ReasoningContentItem {
    pub item_type: String,
    pub text: Option<String>,
}

/// Whether index `i` holds the first item whose type is "text".
pub open spec fn spec_first_text_item_at(items: Seq<ReasoningContentItem>, i: int) -> bool {
    0 <= i < items.len() && items[i].item_type@ == "text"@ && (forall|j: int|
        0 <= j < i ==> items[j].item_type@ != "text"@)
}

/// The trimmed text of the first item whose type is "text"; an absent item
/// or an absent text counts as empty.
pub fn extract_reasoning_text(items: &Vec<ReasoningContentItem>) -> (r: String)
    ensures
        (exists|i: int| spec_first_text_item_at(items@, i)) ==> (exists|i: int|
            spec_first_text_item_at(items@, i) && r@ == (match items@[i].text {
                Some(t) => trim_of(t@),
                None => trim_of(""@),
            })),
        !(exists|i: int| spec_first_text_item_at(items@, i)) ==> r@ == trim_of(""@),
{
    let mut i: usize = 0;
    let n = items.len();
    while i < n
        invariant
            i <= n,
            n == items@.len(),
            forall|j: int| 0 <= j < i ==> items@[j].item_type@ != "text"@,
        decreases n - i,
    {
        let item = &items[i];
        if crate::textutil::str_eq(item.item_type.as_str(), "text") {
            proof {
                assert(spec_first_text_item_at(items@, i as int));
            }
            let raw = match &item.text {
                Some(t) => t.as_str(),
                None => "",
            };
            return String::from_str(trim_str(raw));
        }
        i = i + 1;
    }
    String::from_str(trim_str(""))
}

/// The outcome built from an extracted (already trimmed) reasoning text:
/// an empty answer is a failure, anything else is the successful text.
pub fn reasoning_result_from_text(text: String) -> (r: ReasoningResult)
    ensures
        text@.len() == 0 ==> !r.success && r.text is None && (r.error matches Some(m) && m@
            == "Anthropic returned empty response"@),
        text@.len() > 0 ==> r.success && r.text == Some(text) && r.error is None,
{
    if text.as_str().is_empty() {
        ReasoningResult {
            success: false,
            text: None,
            error: Some(String::from_str("Anthropic returned empty response")),
        }
    } else {
        ReasoningResult { success: true, text: Some(text), error: None }
    }
}

/// The outcome of a reasoning call whose HTTP status was not a success:
/// the error carries the status code and the response body.
pub fn reasoning_result_from_api_error(status_code: u16, body: String) -> (r: ReasoningResult)
    ensures
        !r.success,
        r.text is None,
        r.error matches Some(m) && m@ == "Anthropic API error: "@ + spec_decimal(
            status_code as int,
        ) + " "@ + body@,
{
    let code = u64_to_string(status_code as u64);
    let msg = String::from_str("Anthropic API error: ").concat(code.as_str()).concat(" ").concat(
        body.as_str(),
    );
    ReasoningResult { success: false, text: None, error: Some(msg) }
}

/// One update broadcast by the clipboard listener.
#[derive(Debug, Clone, PartialEq)]
pub struct ClipboardUpdate {
    pub id: String,
    pub item_type: String,
    pub content: String,
    pub ts_ms: u128,
}

/// Whether a clipboard text observation is broadcast: only when it is
/// non-empty and differs from the last broadcast text.
pub fn should_emit_text_update(last_text: &str, content: &str) -> (r: bool)
    ensures
        r == (content@ != last_text@ && content@.len() > 0),
{
    !crate::textutil::str_eq(content, last_text) && !content.is_empty()
}

/// Whether a clipboard image observation is broadcast: only when its hash
/// differs from the last broadcast image's.
pub fn should_emit_image_update(last_image_hash: u64, hash: u64) -> (r: bool)
    ensures
        r == (hash != last_image_hash),
{
    hash != last_image_hash
}

/// Build one clipboard update: the id joins the timestamp and the content
/// hash with a dash, and the type names text or image.
pub fn make_clipboard_update(is_image: bool, content: String, ts_ms: u128, content_hash: u64) -> (r:
    ClipboardUpdate)
    ensures
        r.id@ == spec_decimal(ts_ms as int) + "-"@ + spec_decimal(content_hash as int),
        is_image ==> r.item_type@ == "image"@,
        !is_image ==> r.item_type@ == "text"@,
        r.content == content,
        r.ts_ms == ts_ms,
{
    let id = u128_to_string(ts_ms).concat("-").concat(u64_to_string(content_hash).as_str());
    let item_type = if is_image {
        String::from_str("image")
    } else {
        String::from_str("text")
    };
    ClipboardUpdate { id, item_type, content, ts_ms }
}

} // verus!
