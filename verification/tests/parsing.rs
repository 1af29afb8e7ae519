use typefree::codec::decode_data_url;
use typefree::envfile::{parse_env_entry, render_env_file};
use typefree::errors::{error_message, DictationError};
use typefree::hotkey::{parse_hotkey, validate_hotkey, HotkeyModifiers, KeyCode};
use typefree::records::{
    effective_query_limit, extract_reasoning_text, make_clipboard_update,
    reasoning_result_from_api_error, reasoning_result_from_text, should_emit_image_update,
    should_emit_text_update, ReasoningContentItem, Transcription,
};
use typefree::textutil::{truncate_string, u128_to_string, u64_to_string};
use typefree::transcription::{
    api_key_name, effective_model, get_transcription_providers, guess_audio_extension,
    is_push_to_talk, language_request_field, pick_transcript, resolve_provider_model_language,
};
use typefree::window::{anchor_bottom_right, ANCHOR_MARGIN_X, ANCHOR_MARGIN_Y, ANCHOR_MARGIN_Y_TASKBAR};

#[test]
fn parse_plain_function_key() {
    let (mods, code) = parse_hotkey("F8", true).unwrap();
    assert_eq!(
        mods,
        HotkeyModifiers { control: false, shift: false, alt: false, meta: false }
    );
    assert_eq!(code, KeyCode::F8);
}

#[test]
fn parse_full_combination() {
    let (mods, code) = parse_hotkey("Ctrl+Shift+Space", false).unwrap();
    assert!(mods.control && mods.shift && !mods.alt && !mods.meta);
    assert_eq!(code, KeyCode::Space);
}

#[test]
fn parse_command_or_control_depends_on_platform() {
    let (mods, _) = parse_hotkey("CommandOrControl+V", true).unwrap();
    assert!(mods.meta && !mods.control);
    let (mods, _) = parse_hotkey("CommandOrControl+V", false).unwrap();
    assert!(mods.control && !mods.meta);
}

#[test]
fn parse_trims_parts_and_ignores_case() {
    let (mods, code) = parse_hotkey(" cmd + shift + p ", true).unwrap();
    assert!(mods.meta && mods.shift);
    assert_eq!(code, KeyCode::KeyP);
}

#[test]
fn parse_symbols_and_digits() {
    assert_eq!(parse_hotkey("Alt+/", true).unwrap().1, KeyCode::Slash);
    assert_eq!(parse_hotkey("Alt+7", true).unwrap().1, KeyCode::Digit7);
    assert_eq!(parse_hotkey("Alt+Backquote", true).unwrap().1, KeyCode::Backquote);
}

#[test]
fn parse_unknown_key_fails() {
    assert_eq!(
        parse_hotkey("Ctrl+Bogus", true),
        Err("Unknown key: Bogus".to_string())
    );
    assert_eq!(parse_hotkey("", true), Err("Unknown key: ".to_string()));
}

#[test]
fn validation_requires_non_shift_modifier_or_function_key() {
    let no_mods = HotkeyModifiers { control: false, shift: false, alt: false, meta: false };
    let shift_only = HotkeyModifiers { control: false, shift: true, alt: false, meta: false };
    let with_meta = HotkeyModifiers { control: false, shift: false, alt: false, meta: true };
    assert!(validate_hotkey(no_mods, KeyCode::F8).is_ok());
    assert!(validate_hotkey(with_meta, KeyCode::KeyA).is_ok());
    assert!(validate_hotkey(no_mods, KeyCode::KeyA).is_err());
    let err = validate_hotkey(shift_only, KeyCode::KeyA).unwrap_err();
    assert_eq!(
        err,
        "Hotkey must include Command/Ctrl/Alt (or use F1-F12). Example: CommandOrControl+Shift+Space"
    );
}

#[test]
fn decode_data_url_strips_prefix() {
    assert_eq!(
        decode_data_url("data:image/png;base64,AQID"),
        Ok(vec![1, 2, 3])
    );
}

#[test]
fn decode_data_url_without_comma_decodes_whole_payload() {
    assert_eq!(decode_data_url("  AQID  "), Ok(vec![1, 2, 3]));
}

#[test]
fn decode_data_url_rejects_bad_base64() {
    match decode_data_url("data:image/png;base64,!!!") {
        Err(DictationError::IOError(msg)) => {
            assert!(msg.starts_with("Failed to decode base64: "));
        }
        other => panic!("expected an io error, got {:?}", other),
    }
}

#[test]
fn env_lines_parse_and_skip() {
    assert_eq!(
        parse_env_entry("KEY=value"),
        Some(("KEY".to_string(), "value".to_string()))
    );
    assert_eq!(
        parse_env_entry("  KEY  =  \"quoted\"  "),
        Some(("KEY".to_string(), "quoted".to_string()))
    );
    assert_eq!(
        parse_env_entry("KEY='single'"),
        Some(("KEY".to_string(), "single".to_string()))
    );
    assert_eq!(parse_env_entry("# comment=1"), None);
    assert_eq!(parse_env_entry("no equals sign"), None);
    assert_eq!(parse_env_entry("   =value"), None);
    assert_eq!(
        parse_env_entry("API=a=b"),
        Some(("API".to_string(), "a=b".to_string()))
    );
}

#[test]
fn env_file_renders_joined_lines() {
    let entries = vec![
        ("A".to_string(), "1".to_string()),
        ("B".to_string(), "2".to_string()),
    ];
    assert_eq!(render_env_file(&entries), "A=1\nB=2");
    assert_eq!(render_env_file(&Vec::new()), "");
}

#[test]
fn provider_catalogue_is_fixed() {
    let providers = get_transcription_providers();
    assert_eq!(providers.len(), 3);
    assert_eq!(providers[0].id, "openai");
    assert_eq!(providers[0].name, "OpenAI Whisper");
    assert_eq!(providers[1].id, "groq");
    assert_eq!(providers[2].id, "zai");
    assert!(providers.iter().all(|p| p.requires_key));
}

#[test]
fn api_keys_per_provider() {
    assert_eq!(api_key_name("openai"), Ok("OPENAI_API_KEY"));
    assert_eq!(api_key_name("groq"), Ok("GROQ_API_KEY"));
    assert_eq!(api_key_name("zai"), Ok("ZAI_API_KEY"));
    assert_eq!(
        api_key_name("whisperx"),
        Err(DictationError::ProviderError(
            "Unknown provider: whisperx".to_string()
        ))
    );
}

#[test]
fn settings_resolution_trims_and_defaults() {
    let (p, m, l) = resolve_provider_model_language(
        Some("  groq  ".to_string()),
        Some("   ".to_string()),
        Some(" auto ".to_string()),
    );
    assert_eq!(p, "groq");
    assert_eq!(m, None);
    assert_eq!(l, None);

    let (p, m, l) = resolve_provider_model_language(
        Some("something else".to_string()),
        Some(" whisper-1 ".to_string()),
        Some(" de ".to_string()),
    );
    assert_eq!(p, "zai");
    assert_eq!(m, Some("whisper-1".to_string()));
    assert_eq!(l, Some("de".to_string()));

    let (p, m, l) = resolve_provider_model_language(None, None, None);
    assert_eq!(p, "zai");
    assert_eq!(m, None);
    assert_eq!(l, None);
}

#[test]
fn push_to_talk_mode_detection() {
    assert!(is_push_to_talk(Some("push")));
    assert!(is_push_to_talk(Some("  PUSH  ")));
    assert!(!is_push_to_talk(Some("toggle")));
    assert!(!is_push_to_talk(Some("pushy")));
    assert!(!is_push_to_talk(None));
}

#[test]
fn model_defaults_per_provider() {
    assert_eq!(
        effective_model("openai", None),
        Some("whisper-1".to_string())
    );
    assert_eq!(
        effective_model("groq", None),
        Some("whisper-large-v3-turbo".to_string())
    );
    assert_eq!(effective_model("zai", None), Some("glm-asr-2512".to_string()));
    assert_eq!(effective_model("other", None), None);
    assert_eq!(
        effective_model("openai", Some("custom".to_string())),
        Some("custom".to_string())
    );
}

#[test]
fn language_field_drops_auto() {
    assert_eq!(language_request_field(Some("de".to_string())), Some("de".to_string()));
    assert_eq!(language_request_field(Some("auto".to_string())), None);
    assert_eq!(language_request_field(None), None);
}

#[test]
fn audio_extension_sniffing() {
    let mut wav = b"RIFF\0\0\0\0WAVE".to_vec();
    wav.extend_from_slice(&[0; 40]);
    assert_eq!(guess_audio_extension(&wav), "wav");
    assert_eq!(guess_audio_extension(b"OggSxxxx"), "ogg");
    assert_eq!(guess_audio_extension(b"ID3xxxx"), "mp3");
    assert_eq!(guess_audio_extension(b"\0\0\0\x20ftypisom"), "m4a");
    assert_eq!(guess_audio_extension(&[0x1a, 0x45, 0xdf, 0xa3, 0, 0]), "webm");
    assert_eq!(guess_audio_extension(b"plain"), "bin");
    assert_eq!(guess_audio_extension(b""), "bin");
}

#[test]
fn transcript_picked_from_first_candidate() {
    let r = pick_transcript(vec![
        None,
        Some("  hello world  ".to_string()),
        Some("shadowed".to_string()),
    ]);
    // The text is returned as the provider sent it; only the emptiness
    // check trims.
    assert_eq!(r, Ok("  hello world  ".to_string()));
}

#[test]
fn blank_first_candidate_is_an_error() {
    let err = Err(DictationError::ProviderError(
        "Z.ai returned no transcription text".to_string(),
    ));
    assert_eq!(pick_transcript(vec![None, Some("   ".to_string())]), err);
    assert_eq!(pick_transcript(vec![None, None]), err);
    assert_eq!(pick_transcript(Vec::new()), err);
}

#[test]
fn transcription_row_defaults() {
    let row = Transcription::new_row(
        5,
        "2024-01-01 00:00:00".to_string(),
        "hello".to_string(),
        None,
        None,
        None,
    );
    assert_eq!(row.id, 5);
    assert!(!row.is_processed);
    assert_eq!(row.processing_method, "none");
    assert_eq!(row.error, None);

    let row = Transcription::new_row(
        6,
        "t".to_string(),
        "hello".to_string(),
        Some("HELLO".to_string()),
        Some("agent".to_string()),
        Some("casing".to_string()),
    );
    assert!(row.is_processed);
    assert_eq!(row.processing_method, "agent");
    assert_eq!(row.agent_name, Some("casing".to_string()));
}

#[test]
fn query_limit_defaults_to_hundred() {
    assert_eq!(effective_query_limit(None), 100);
    assert_eq!(effective_query_limit(Some(7)), 7);
}

#[test]
fn reasoning_text_extraction() {
    let items = vec![
        ReasoningContentItem { item_type: "thinking".to_string(), text: Some("hm".to_string()) },
        ReasoningContentItem { item_type: "text".to_string(), text: Some("  answer  ".to_string()) },
        ReasoningContentItem { item_type: "text".to_string(), text: Some("later".to_string()) },
    ];
    assert_eq!(extract_reasoning_text(&items), "answer");
    assert_eq!(extract_reasoning_text(&Vec::new()), "");
    let no_text = vec![ReasoningContentItem { item_type: "text".to_string(), text: None }];
    assert_eq!(extract_reasoning_text(&no_text), "");
}

#[test]
fn reasoning_outcomes() {
    let ok = reasoning_result_from_text("answer".to_string());
    assert!(ok.success);
    assert_eq!(ok.text, Some("answer".to_string()));
    assert_eq!(ok.error, None);

    let empty = reasoning_result_from_text(String::new());
    assert!(!empty.success);
    assert_eq!(empty.error, Some("Anthropic returned empty response".to_string()));

    let api = reasoning_result_from_api_error(429, "rate limited".to_string());
    assert!(!api.success);
    assert_eq!(api.error, Some("Anthropic API error: 429 rate limited".to_string()));
}

#[test]
fn clipboard_update_identity_and_dedup() {
    let u = make_clipboard_update(false, "hello".to_string(), 1700000000123, 42);
    assert_eq!(u.id, "1700000000123-42");
    assert_eq!(u.item_type, "text");
    assert_eq!(u.content, "hello");
    assert_eq!(u.ts_ms, 1700000000123);

    let img = make_clipboard_update(true, "data:...".to_string(), 5, 7);
    assert_eq!(img.item_type, "image");

    assert!(should_emit_text_update("old", "new"));
    assert!(!should_emit_text_update("same", "same"));
    assert!(!should_emit_text_update("old", ""));
    assert!(should_emit_image_update(1, 2));
    assert!(!should_emit_image_update(2, 2));
}

#[test]
fn decimal_rendering_exact() {
    assert_eq!(u64_to_string(0), "0");
    assert_eq!(u64_to_string(10), "10");
    assert_eq!(u64_to_string(18446744073709551615), "18446744073709551615");
    assert_eq!(u128_to_string(340282366920938463463374607431768211455), "340282366920938463463374607431768211455");
}

#[test]
fn truncation_keeps_prefix() {
    assert_eq!(truncate_string("hello".to_string(), 10), "hello");
    assert_eq!(truncate_string("hello".to_string(), 3), "hel");
    assert_eq!(truncate_string(String::new(), 0), "");
}

#[test]
fn window_anchoring_math() {
    // A 1920x1080 monitor at the origin, a 400x300 window, 24px margins.
    assert_eq!(
        anchor_bottom_right(0, 0, 1920, 1080, 400, 300, ANCHOR_MARGIN_X, ANCHOR_MARGIN_Y),
        (1496, 756)
    );
    // A window larger than the monitor is clamped to the monitor origin.
    assert_eq!(
        anchor_bottom_right(100, 50, 800, 600, 2000, 2000, ANCHOR_MARGIN_X, ANCHOR_MARGIN_Y_TASKBAR),
        (100, 50)
    );
}


#[test]
fn error_messages_exact() {
    assert_eq!(
        error_message(&DictationError::ResourceBusy),
        "Recording already in progress"
    );
    assert_eq!(
        error_message(&DictationError::NotRecording),
        "Not currently recording"
    );
    assert_eq!(
        error_message(&DictationError::Timeout {
            last_len: 6,
            last_prefix: "52 49 46 46 78 78".to_string(),
        }),
        "Native recording did not produce a valid WAV (len=6, prefix=52 49 46 46 78 78)"
    );
    assert_eq!(
        error_message(&DictationError::NativeFault("boom".to_string())),
        "boom"
    );
    let permission = error_message(&DictationError::PermissionDenied);
    assert!(permission.starts_with("macOS Accessibility permission is required"));
    assert!(permission.ends_with("paste manually with Cmd+V."));
}

#[test]
fn decode_data_url_empty_payload() {
    assert_eq!(decode_data_url(""), Ok(Vec::new()));
}

#[test]
fn parse_special_key_aliases() {
    assert_eq!(parse_hotkey("Ctrl+Esc", true).unwrap().1, KeyCode::Escape);
    assert_eq!(parse_hotkey("Ctrl+PgUp", true).unwrap().1, KeyCode::PageUp);
    assert_eq!(parse_hotkey("Ctrl+Up", true).unwrap().1, KeyCode::ArrowUp);
    assert_eq!(parse_hotkey("Ctrl+ArrowUp", true).unwrap().1, KeyCode::ArrowUp);
    assert_eq!(parse_hotkey("Ctrl+Return", true).unwrap().1, KeyCode::Enter);
}

#[test]
fn last_key_part_wins() {
    assert_eq!(parse_hotkey("Ctrl+A+B", true).unwrap().1, KeyCode::KeyB);
}
