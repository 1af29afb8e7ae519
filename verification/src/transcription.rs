//! The compute side of the transcription collaborator: the provider
//! catalogue, API-key selection, resolution of the per-session settings
//! (provider, model, language, activation mode), container sniffing for
//! the captured audio, and extraction of the transcript from a provider's
//! answer. The HTTP calls themselves are platform work and stay outside
//! the crate.

use vstd::prelude::*;
use vstd::string::StrSliceExecFns;
use vstd::string::StringExecFns;

use crate::capture::spec_is_wav_header;
use crate::errors::DictationError;
use crate::textutil::ascii_eq_ignore_case;
use crate::textutil::spec_ascii_eq_ignore_case;
use crate::textutil::str_eq;
use crate::textutil::trim_of;
use crate::textutil::trim_str;

verus! {

/// One cloud transcription provider as shown to the user.
#[derive(Debug, Clone, PartialEq)]
pub struct TranscriptionProvider {
    pub id: String,
    pub name: String,
    pub requires_key: bool,
}

/// The built-in providers, in their fixed order.
pub fn get_transcription_providers() -> (r: Vec<TranscriptionProvider>)
    ensures
        r@.len() == 3,
        r@[0].id@ == "openai"@ && r@[0].name@ == "OpenAI Whisper"@ && r@[0].requires_key,
        r@[1].id@ == "groq"@ && r@[1].name@ == "Groq"@ && r@[1].requires_key,
        r@[2].id@ == "zai"@ && r@[2].name@ == "Z.ai (Zhipu GLM ASR)"@ && r@[2].requires_key,
{
    let mut r: Vec<TranscriptionProvider> = Vec::new();
    r.push(
        TranscriptionProvider {
            id: String::from_str("openai"),
            name: String::from_str("OpenAI Whisper"),
            requires_key: true,
        },
    );
    r.push(
        TranscriptionProvider {
            id: String::from_str("groq"),
            name: String::from_str("Groq"),
            requires_key: true,
        },
    );
    r.push(
        TranscriptionProvider {
            id: String::from_str("zai"),
            name: String::from_str("Z.ai (Zhipu GLM ASR)"),
            requires_key: true,
        },
    );
    r
}

/// The environment-variable name holding the API key of a known provider.
pub open spec fn spec_api_key_name(p: Seq<char>) -> Option<Seq<char>> {
    if p == "openai"@ {
        Some("OPENAI_API_KEY"@)
    } else if p == "groq"@ {
        Some("GROQ_API_KEY"@)
    } else if p == "zai"@ {
        Some("ZAI_API_KEY"@)
    } else {
        None
    }
}

/// Which API key a provider needs. An unknown provider is rejected up
/// front with the message the user sees.
pub fn api_key_name(provider: &str) -> (r: Result<&'static str, DictationError>)
    ensures
        spec_api_key_name(provider@) matches Some(k) ==> (r matches Ok(s) && s@ == k),
        spec_api_key_name(provider@) is None ==> (r matches Err(e) && e matches
        DictationError::ProviderError(m) && m@ == "Unknown provider: "@ + provider@),
{
    if str_eq(provider, "openai") {
        Ok("OPENAI_API_KEY")
    } else if str_eq(provider, "groq") {
        Ok("GROQ_API_KEY")
    } else if str_eq(provider, "zai") {
        Ok("ZAI_API_KEY")
    } else {
        Err(
            DictationError::ProviderError(
                String::from_str("Unknown provider: ").concat(provider),
            ),
        )
    }
}

/// The provider a session uses, resolved from the stored setting: trimmed,
/// restricted to the built-in providers, and falling back to "zai".
pub open spec fn spec_resolved_provider(setting: Option<String>) -> Seq<char> {
    match setting {
        Option::Some(s) => {
            if trim_of(s@) == "openai"@ || trim_of(s@) == "groq"@ || trim_of(s@) == "zai"@ {
                trim_of(s@)
            } else {
                "zai"@
            }
        },
        Option::None => "zai"@,
    }
}

/// The model a session uses: the trimmed setting, or nothing when the
/// setting is missing or blank (each provider then applies its default).
pub open spec fn spec_resolved_model(setting: Option<String>) -> Option<Seq<char>> {
    match setting {
        Option::Some(s) => {
            if trim_of(s@).len() == 0 {
                None
            } else {
                Some(trim_of(s@))
            }
        },
        Option::None => None,
    }
}

/// The language a session requests: the trimmed setting, or nothing when
/// it is missing, blank, or the automatic marker "auto".
pub open spec fn spec_resolved_language(setting: Option<String>) -> Option<Seq<char>> {
    match setting {
        Option::Some(s) => {
            if trim_of(s@).len() == 0 || trim_of(s@) == "auto"@ {
                None
            } else {
                Some(trim_of(s@))
            }
        },
        Option::None => None,
    }
}

/// Resolve the per-session transcription settings from their stored raw
/// values, as `(provider, model, language)`.
pub fn resolve_provider_model_language(
    provider_setting: Option<String>,
    model_setting: Option<String>,
    language_setting: Option<String>,
) -> (r: (String, Option<String>, Option<String>))
    ensures
        r.0@ == spec_resolved_provider(provider_setting),
        (r.1 matches Some(m) && spec_resolved_model(model_setting) matches Some(sm) && m@ == sm)
            || (r.1 is None && spec_resolved_model(model_setting) is None),
        (r.2 matches Some(l) && spec_resolved_language(language_setting) matches Some(sl) && l@
            == sl) || (r.2 is None && spec_resolved_language(language_setting) is None),
{
    let provider = match provider_setting {
        Some(s) => {
            let t = trim_str(s.as_str());
            if str_eq(t, "openai") || str_eq(t, "groq") || str_eq(t, "zai") {
                String::from_str(t)
            } else {
                String::from_str("zai")
            }
        },
        None => String::from_str("zai"),
    };
    let model = match model_setting {
        Some(s) => {
            let t = trim_str(s.as_str());
            if t.unicode_len() == 0 {
                None
            } else {
                Some(String::from_str(t))
            }
        },
        None => None,
    };
    let language = match language_setting {
        Some(s) => {
            let t = trim_str(s.as_str());
            if t.unicode_len() == 0 || str_eq(t, "auto") {
                None
            } else {
                Some(String::from_str(t))
            }
        },
        None => None,
    };
    (provider, model, language)
}

/// Whether the stored activation-mode setting selects push-to-talk: the
/// trimmed value equals "push" up to ASCII case. Anything else — including
/// a missing setting — selects toggle mode.
pub fn is_push_to_talk(mode_setting: Option<&str>) -> (r: bool)
    ensures
        r == match mode_setting {
            Some(s) => spec_ascii_eq_ignore_case(trim_of(s@), "push"@),
            None => false,
        },
{
    match mode_setting {
        Some(s) => {
            let t = trim_str(s);
            ascii_eq_ignore_case(t, "push")
        },
        None => false,
    }
}

/// The default model of each built-in provider.
pub open spec fn spec_default_model(p: Seq<char>) -> Option<Seq<char>> {
    if p == "openai"@ {
        Some("whisper-1"@)
    } else if p == "groq"@ {
        Some("whisper-large-v3-turbo"@)
    } else if p == "zai"@ {
        Some("glm-asr-2512"@)
    } else {
        None
    }
}

/// The model a request actually names: the resolved setting when present,
/// the provider's default otherwise.
pub fn effective_model(provider: &str, model: Option<String>) -> (r: Option<String>)
    ensures
        model matches Some(m) ==> (r matches Some(out) && out == m),
        model is None ==> ((r matches Some(out) && spec_default_model(provider@) matches Some(d)
            && out@ == d) || (r is None && spec_default_model(provider@) is None)),
{
    match model {
        Some(m) => Some(m),
        None => {
            if str_eq(provider, "openai") {
                Some(String::from_str("whisper-1"))
            } else if str_eq(provider, "groq") {
                Some(String::from_str("whisper-large-v3-turbo"))
            } else if str_eq(provider, "zai") {
                Some(String::from_str("glm-asr-2512"))
            } else {
                None
            }
        },
    }
}

/// The language field a request carries: the resolved language, except
/// that the automatic marker "auto" is never sent.
pub fn language_request_field(language: Option<String>) -> (r: Option<String>)
    ensures
        language matches Some(l) ==> ((l@ != "auto"@ ==> (r matches Some(out) && out == l)) && (
        l@ == "auto"@ ==> r is None)),
        language is None ==> r is None,
{
    match language {
        Some(l) => {
            if str_eq(l.as_str(), "auto") {
                None
            } else {
                Some(l)
            }
        },
        None => None,
    }
}

/// The container format of captured audio, sniffed from its leading
/// bytes: WAV, Ogg, MP3, MP4/QuickTime, WebM/Matroska, or unknown.
pub open spec fn spec_guess_audio_extension(b: Seq<u8>) -> Seq<char> {
    if spec_is_wav_header(b) {
        "wav"@
    } else if b.len() >= 4 && b[0] == 0x4fu8 && b[1] == 0x67u8 && b[2] == 0x67u8 && b[3]
        == 0x53u8 {
        "ogg"@
    } else if b.len() >= 3 && b[0] == 0x49u8 && b[1] == 0x44u8 && b[2] == 0x33u8 {
        "mp3"@
    } else if b.len() >= 12 && b[4] == 0x66u8 && b[5] == 0x74u8 && b[6] == 0x79u8 && b[7]
        == 0x70u8 {
        "m4a"@
    } else if b.len() >= 4 && b[0] == 0x1au8 && b[1] == 0x45u8 && b[2] == 0xdfu8 && b[3]
        == 0xa3u8 {
        "webm"@
    } else {
        "bin"@
    }
}

/// Sniff the container format of captured audio, as a file extension.
pub fn guess_audio_extension(audio_data: &[u8]) -> (r: &'static str)
    ensures
        r@ == spec_guess_audio_extension(audio_data@),
{
    if audio_data.len() >= 12 && audio_data[0] == 0x52 && audio_data[1] == 0x49 && audio_data[2]
        == 0x46 && audio_data[3] == 0x46 && audio_data[8] == 0x57 && audio_data[9] == 0x41
        && audio_data[10] == 0x56 && audio_data[11] == 0x45 {
        return "wav";
    }
    if audio_data.len() >= 4 && audio_data[0] == 0x4f && audio_data[1] == 0x67 && audio_data[2]
        == 0x67 && audio_data[3] == 0x53 {
        return "ogg";
    }
    if audio_data.len() >= 3 && audio_data[0] == 0x49 && audio_data[1] == 0x44 && audio_data[2]
        == 0x33 {
        return "mp3";
    }
    if audio_data.len() >= 12 && audio_data[4] == 0x66 && audio_data[5] == 0x74 && audio_data[6]
        == 0x79 && audio_data[7] == 0x70 {
        return "m4a";
    }
    if audio_data.len() >= 4 && audio_data[0] == 0x1a && audio_data[1] == 0x45 && audio_data[2]
        == 0xdf && audio_data[3] == 0xa3 {
        return "webm";
    }
    "bin"
}

/// Whether index `i` holds the first present candidate.
pub open spec fn spec_first_candidate_at(cands: Seq<Option<String>>, i: int) -> bool {
    0 <= i < cands.len() && cands[i] is Some && (forall|j: int| 0 <= j < i ==> cands[j] is None)
}

/// Pick the transcript out of a provider answer that may carry the text
/// under several alternative fields, given those fields' values in their
/// fixed precedence order. The first present candidate is taken; it must
/// not be blank, otherwise — and when no candidate is present — the
/// provider returned no transcription text.
pub fn pick_transcript(candidates: Vec<Option<String>>) -> (r: Result<String, DictationError>)
    ensures
        r matches Ok(t) ==> exists|i: int|
            spec_first_candidate_at(candidates@, i) && (candidates@[i] matches Some(s) && t == s
                && trim_of(s@).len() > 0),
        r matches Err(e) ==> (e matches DictationError::ProviderError(m) && m@
            == "Z.ai returned no transcription text"@),
        (exists|i: int|
            spec_first_candidate_at(candidates@, i) && (candidates@[i] matches Some(s) && trim_of(
                s@,
            ).len() > 0)) ==> r is Ok,
{
    let n = candidates.len();
    let mut i: usize = 0;
    while i < n
        invariant
            i <= n,
            n == candidates@.len(),
            forall|j: int| 0 <= j < i ==> candidates@[j] is None,
        decreases n - i,
    {
        match &candidates[i] {
            Some(s) => {
                let t = trim_str(s.as_str());
                if !t.is_empty() {
                    proof {
                        assert(spec_first_candidate_at(candidates@, i as int));
                    }
                    return Ok(s.clone());
                }
                proof {
                    assert(spec_first_candidate_at(candidates@, i as int));
                    assert(forall|k: int|
                        spec_first_candidate_at(candidates@, k) ==> k == i as int);
                }
                return Err(
                    DictationError::ProviderError(
                        String::from_str("Z.ai returned no transcription text"),
                    ),
                );
            },
            None => {},
        }
        i = i + 1;
    }
    Err(DictationError::ProviderError(String::from_str("Z.ai returned no transcription text")))
}

} // verus!
