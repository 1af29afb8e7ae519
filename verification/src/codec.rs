//! Decoding of base64 data URLs ("data:image/png;base64,...") carried by
//! clipboard image payloads: the payload after the first comma of the
//! trimmed input is base64-decoded with the standard alphabet.

use vstd::prelude::*;
use vstd::string::StrSliceExecFns;
use vstd::string::StringExecFns;

use base64::Engine;

use crate::errors::DictationError;
use crate::textutil::find_char;
use crate::textutil::spec_first_index_of;
use crate::textutil::trim_of;
use crate::textutil::trim_str;

verus! {

/// What base64's standard-alphabet engine decodes a string to, or nothing
/// when the string is not valid base64.
pub uninterp spec fn b64_standard_decode(s: Seq<char>) -> Option<Seq<u8>>;

/// Relies on base64's `Engine::decode` with the `STANDARD` engine: the
/// decoded bytes, or the error rendered as text.
#[verifier::external_body]
fn base64_decode_standard(payload: &str) -> (r: Result<Vec<u8>, String>)
    ensures
        r matches Ok(b) ==> b64_standard_decode(payload@) == Some(b@),
        r is Err ==> b64_standard_decode(payload@) is None,
{
    base64::engine::general_purpose::STANDARD.decode(payload).map_err(|e| format!("{e}"))
}

/// The base64 payload of a data URL: everything after the first comma of
/// the trimmed input, or the whole trimmed input when it has no comma.
pub open spec fn spec_data_url_payload(s: Seq<char>) -> Seq<char> {
    let t = trim_of(s);
    let i = spec_first_index_of(t, ',');
    if i < 0 {
        t
    } else {
        t.skip(i + 1)
    }
}

/// Decode the payload of a data URL.
pub fn decode_data_url(data_url: &str) -> (r: Result<Vec<u8>, DictationError>)
    ensures
        r matches Ok(b) ==> b64_standard_decode(spec_data_url_payload(data_url@)) == Some(b@),
        r matches Err(e) ==> (e matches DictationError::IOError(m) && (exists|detail: Seq<char>|
            m@ == "Failed to decode base64: "@ + detail) && b64_standard_decode(
            spec_data_url_payload(data_url@),
        ) is None),
{
    let trimmed = trim_str(data_url);
    let len = trimmed.unicode_len();
    let payload = match find_char(trimmed, ',') {
        Some(idx) => trimmed.substring_char(idx + 1, len),
        None => trimmed,
    };
    proof {
        assert(payload@ =~= spec_data_url_payload(data_url@));
    }
    match base64_decode_standard(payload) {
        Ok(b) => Ok(b),
        Err(detail) => {
            let msg = String::from_str("Failed to decode base64: ").concat(detail.as_str());
            proof {
                assert(msg@ == "Failed to decode base64: "@ + detail@);
            }
            Err(DictationError::IOError(msg))
        },
    }
}

} // verus!
