use typefree::errors::DictationError;
use typefree::paste::{run_paste, PasteSteps};
use typefree::pipeline::{
    run_start, run_stop_pipeline, Notice, OverlayCall, OverlayState, PipelineOutcomes,
    PipelinePhase, StopPipeline,
};

fn ok_steps(snapshot: Option<&str>) -> PasteSteps {
    PasteSteps {
        snapshot: snapshot.map(|s| s.to_string()),
        write: Ok(()),
        permission_granted: true,
        dispatch: Ok(()),
    }
}

#[test]
fn successful_start_announces_recording() {
    let r = run_start(Ok(true));
    assert_eq!(r.overlay, vec![OverlayCall::Show(OverlayState::Recording)]);
    assert_eq!(
        r.notices,
        vec![Notice::ProcessingFinished, Notice::RecordingStarted]
    );
    assert!(r.outcome.is_ok());
}

#[test]
fn refused_start_hides_overlay_and_reports() {
    let r = run_start(Ok(false));
    assert_eq!(
        r.overlay,
        vec![OverlayCall::Show(OverlayState::Recording), OverlayCall::Hide]
    );
    let fault = DictationError::NativeFault("Failed to start native recording".to_string());
    assert_eq!(r.notices, vec![Notice::Failed(fault.clone())]);
    assert_eq!(r.outcome, Err(fault));
}

#[test]
fn faulted_start_hides_overlay_and_reports() {
    let r = run_start(Err("microphone permission?".to_string()));
    assert_eq!(
        r.overlay,
        vec![OverlayCall::Show(OverlayState::Recording), OverlayCall::Hide]
    );
    let fault = DictationError::NativeFault("microphone permission?".to_string());
    assert_eq!(r.notices, vec![Notice::Failed(fault.clone())]);
    assert_eq!(r.outcome, Err(fault));
}

#[test]
fn successful_pipeline_pastes_saves_and_reports() {
    let r = run_stop_pipeline(PipelineOutcomes {
        stop: Ok(vec![1, 2, 3]),
        transcribe: Ok("hello world".to_string()),
        paste: Ok(()),
    });
    assert_eq!(r.finished, 1);
    assert_eq!(r.saved, Some("hello world".to_string()));
    assert_eq!(
        r.notices,
        vec![
            Notice::RecordingStopped,
            Notice::ProcessingStarted,
            Notice::TextResult("hello world".to_string()),
            Notice::ProcessingFinished,
        ]
    );
    assert_eq!(
        r.overlay,
        vec![
            OverlayCall::Show(OverlayState::Transcribing),
            OverlayCall::Show(OverlayState::Processing),
            OverlayCall::Hide,
        ]
    );
}

#[test]
fn failed_stop_signals_finished_exactly_once() {
    let r = run_stop_pipeline(PipelineOutcomes {
        stop: Err(DictationError::NativeFault("stop failed".to_string())),
        transcribe: Ok(String::new()),
        paste: Ok(()),
    });
    assert_eq!(r.finished, 1);
    assert_eq!(r.saved, None);
    assert_eq!(
        r.notices,
        vec![
            Notice::RecordingStopped,
            Notice::ProcessingStarted,
            Notice::ProcessingFinished,
            Notice::Failed(DictationError::NativeFault("stop failed".to_string())),
        ]
    );
    assert_eq!(
        r.overlay,
        vec![OverlayCall::Show(OverlayState::Transcribing), OverlayCall::Hide]
    );
}

#[test]
fn failed_transcription_signals_finished_exactly_once() {
    let r = run_stop_pipeline(PipelineOutcomes {
        stop: Ok(vec![1]),
        transcribe: Err(DictationError::ProviderError("boom".to_string())),
        paste: Ok(()),
    });
    assert_eq!(r.finished, 1);
    assert_eq!(r.saved, None);
    assert_eq!(
        r.notices.last(),
        Some(&Notice::Failed(DictationError::ProviderError(
            "boom".to_string()
        )))
    );
}

#[test]
fn failed_paste_signals_finished_exactly_once() {
    let r = run_stop_pipeline(PipelineOutcomes {
        stop: Ok(vec![1]),
        transcribe: Ok("text".to_string()),
        paste: Err(DictationError::PermissionDenied),
    });
    assert_eq!(r.finished, 1);
    assert_eq!(r.saved, None);
    assert_eq!(
        r.overlay,
        vec![
            OverlayCall::Show(OverlayState::Transcribing),
            OverlayCall::Show(OverlayState::Processing),
            OverlayCall::Hide,
        ]
    );
    assert_eq!(
        r.notices.last(),
        Some(&Notice::Failed(DictationError::PermissionDenied))
    );
}

#[test]
fn paste_restores_previous_clipboard_on_success() {
    let r = run_paste("new text".to_string(), ok_steps(Some("old clip")));
    assert!(r.outcome.is_ok());
    assert!(r.dispatched);
    // The text is written first; the snapshot is written back afterwards,
    // so the clipboard ends up holding the pre-paste value.
    assert_eq!(r.writes, vec!["new text".to_string(), "old clip".to_string()]);
}

#[test]
fn paste_without_snapshot_leaves_text() {
    let r = run_paste("new text".to_string(), ok_steps(None));
    assert!(r.outcome.is_ok());
    assert_eq!(r.writes, vec!["new text".to_string()]);
}

#[test]
fn failed_dispatch_keeps_text_on_clipboard() {
    let r = run_paste(
        "new text".to_string(),
        PasteSteps {
            snapshot: Some("old clip".to_string()),
            write: Ok(()),
            permission_granted: true,
            dispatch: Err("synthetic keystroke rejected".to_string()),
        },
    );
    assert!(!r.dispatched);
    // Not restored: the clipboard holds the newly written text.
    assert_eq!(r.writes, vec!["new text".to_string()]);
    match r.outcome {
        Err(DictationError::IOError(msg)) => {
            assert_eq!(
                msg,
                "synthetic keystroke rejected. Text is copied to clipboard; paste manually with Cmd+V."
            );
        }
        other => panic!("expected an io error, got {:?}", other),
    }
}

#[test]
fn missing_permission_is_permission_denied() {
    let r = run_paste(
        "new text".to_string(),
        PasteSteps {
            snapshot: Some("old clip".to_string()),
            write: Ok(()),
            permission_granted: false,
            dispatch: Ok(()),
        },
    );
    assert_eq!(r.outcome, Err(DictationError::PermissionDenied));
    assert_eq!(r.writes, vec!["new text".to_string()]);
    assert!(!r.dispatched);
}

#[test]
fn failed_clipboard_write_changes_nothing() {
    let r = run_paste(
        "new text".to_string(),
        PasteSteps {
            snapshot: None,
            write: Err("no clipboard".to_string()),
            permission_granted: true,
            dispatch: Ok(()),
        },
    );
    assert!(r.writes.is_empty());
    assert!(!r.dispatched);
    match r.outcome {
        Err(DictationError::IOError(msg)) => {
            assert_eq!(msg, "Failed to write to clipboard: no clipboard");
        }
        other => panic!("expected an io error, got {:?}", other),
    }
}


#[test]
fn step_machine_success_matches_whole_run() {
    let (mut p, opened) = StopPipeline::begin();
    assert_eq!(p.phase, PipelinePhase::Stopping);
    assert_eq!(
        opened.notices,
        vec![Notice::RecordingStopped, Notice::ProcessingStarted]
    );
    assert_eq!(
        opened.overlay,
        vec![OverlayCall::Show(OverlayState::Transcribing)]
    );

    let (effects, audio) = p.on_stop(Ok(vec![1, 2, 3]));
    assert_eq!(p.phase, PipelinePhase::Transcribing);
    assert!(effects.notices.is_empty() && effects.overlay.is_empty());
    assert_eq!(audio, Some(vec![1, 2, 3]));

    let (effects, text) = p.on_transcription(Ok("hello world".to_string()));
    assert_eq!(p.phase, PipelinePhase::Pasting);
    assert!(effects.notices.is_empty());
    assert_eq!(effects.overlay, vec![OverlayCall::Show(OverlayState::Processing)]);
    assert_eq!(text, Some("hello world".to_string()));

    let (effects, saved) = p.on_paste("hello world".to_string(), Ok(()));
    assert_eq!(p.phase, PipelinePhase::Done);
    assert_eq!(saved, Some("hello world".to_string()));
    assert_eq!(
        effects.notices,
        vec![
            Notice::TextResult("hello world".to_string()),
            Notice::ProcessingFinished,
        ]
    );
    assert_eq!(effects.overlay, vec![OverlayCall::Hide]);
}

#[test]
fn step_machine_failure_ends_the_run() {
    let (mut p, _opened) = StopPipeline::begin();
    let (_effects, audio) = p.on_stop(Ok(vec![1]));
    assert_eq!(audio, Some(vec![1]));
    let err = DictationError::ProviderError("boom".to_string());
    let (effects, text) = p.on_transcription(Err(err.clone()));
    assert_eq!(p.phase, PipelinePhase::Done);
    assert_eq!(text, None);
    assert_eq!(
        effects.notices,
        vec![Notice::ProcessingFinished, Notice::Failed(err)]
    );
    assert_eq!(effects.overlay, vec![OverlayCall::Hide]);
}
