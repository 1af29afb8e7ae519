//! The start path and the stop-and-transcribe pipeline.
//!
//! Both are modeled over the outcomes of the platform steps (native start,
//! native stop with finalization, transcription call, paste): the exact
//! sequence of observer notifications and overlay calls the session emits
//! is fixed by contract. The surrounding application performs each
//! platform step, hands its outcome in, and plays the returned effects
//! back against the real notification channel and overlay.
//!
//! Because each real step's input depends on the previous step's result,
//! the pipeline is driven step by step through `StopPipeline`: `begin`,
//! then one call per step outcome, each returning the effects to play
//! before the next step runs. `run_stop_pipeline` is the whole-run
//! statement over all three outcomes at once; it is implemented by
//! driving `StopPipeline`, so the two cannot disagree.
//!
//! The whole-run report also counts the `Finished` signals the guard
//! sends to the coordinator: exactly one, on every exit path. That count
//! is the contract behind the finish guard — the single mechanism that
//! guarantees the stage always leaves `Processing` exactly once per
//! session, no matter which downstream step failed.

use vstd::prelude::*;
use vstd::string::StringExecFns;

use crate::coordinator::spec_after_finished;
use crate::coordinator::Coordinator;
use crate::coordinator::Stage;
use crate::errors::DictationError;

verus! {

/// What the on-screen overlay is asked to display.
#[derive(Debug, Clone, Copy, PartialEq, Eq, Structural)]
pub enum OverlayState {
    Recording,
    Transcribing,
    Processing,
}

/// One fire-and-forget call to the overlay collaborator.
#[derive(Debug, Clone, Copy, PartialEq, Eq, Structural)]
pub enum OverlayCall {
    Show(OverlayState),
    Hide,
}

/// One notification to the presentation layer. Delivery is best-effort;
/// nothing is consulted in return.
#[derive(Debug, Clone, PartialEq)]
pub enum Notice {
    RecordingStarted,
    RecordingStopped,
    ProcessingStarted,
    ProcessingFinished,
    /// A successful session's transcribed text.
    TextResult(String),
    /// A terminal error of the session.
    Failed(DictationError),
}

/// What the start path emitted and how it ended.
#[derive(Debug)]
pub struct StartReport {
    pub overlay: Vec<OverlayCall>,
    pub notices: Vec<Notice>,
    pub outcome: Result<(), DictationError>,
}

/// The start path: show the overlay, then interpret the native start's
/// outcome. `native` is `Ok(started)` when the native layer answered and
/// `Err` with its message when it faulted; faults never unwind into the
/// coordinator, they become a typed `NativeFault` here.
///
/// On either failure shape — a fault or a `false` answer — the overlay is
/// hidden again and the error is reported; a successful start announces
/// that recording began.
pub fn run_start(native: Result<bool, String>) -> (r: StartReport)
    ensures
        native matches Err(m) ==> r.overlay@ == seq![
            OverlayCall::Show(OverlayState::Recording),
            OverlayCall::Hide,
        ] && (r.outcome matches Err(e) && e matches DictationError::NativeFault(s) && s@ == m@
            && r.notices@ == seq![Notice::Failed(e)]),
        native == Ok::<bool, String>(false) ==> r.overlay@ == seq![
            OverlayCall::Show(OverlayState::Recording),
            OverlayCall::Hide,
        ] && (r.outcome matches Err(e) && e matches DictationError::NativeFault(s) && s@
            == "Failed to start native recording"@ && r.notices@ == seq![Notice::Failed(e)]),
        native == Ok::<bool, String>(true) ==> r.overlay@ == seq![
            OverlayCall::Show(OverlayState::Recording),
        ] && r.notices@ == seq![Notice::ProcessingFinished, Notice::RecordingStarted]
            && r.outcome is Ok,
{
    let mut overlay: Vec<OverlayCall> = Vec::new();
    let mut notices: Vec<Notice> = Vec::new();
    overlay.push(OverlayCall::Show(OverlayState::Recording));
    match native {
        Err(m) => {
            overlay.push(OverlayCall::Hide);
            let reported_message = m.clone();
            let fault = DictationError::NativeFault(m);
            proof {
                assert(overlay@ =~= seq![
                    OverlayCall::Show(OverlayState::Recording),
                    OverlayCall::Hide,
                ]);
            }
            notices.push(Notice::Failed(DictationError::NativeFault(reported_message)));
            proof {
                assert(notices@ =~= seq![Notice::Failed(fault)]);
            }
            StartReport { overlay, notices, outcome: Err(fault) }
        },
        Ok(false) => {
            overlay.push(OverlayCall::Hide);
            let message = String::from_str("Failed to start native recording");
            let reported_message = message.clone();
            let fault = DictationError::NativeFault(message);
            proof {
                assert(overlay@ =~= seq![
                    OverlayCall::Show(OverlayState::Recording),
                    OverlayCall::Hide,
                ]);
            }
            notices.push(Notice::Failed(DictationError::NativeFault(reported_message)));
            proof {
                assert(notices@ =~= seq![Notice::Failed(fault)]);
            }
            StartReport { overlay, notices, outcome: Err(fault) }
        },
        Ok(true) => {
            notices.push(Notice::ProcessingFinished);
            notices.push(Notice::RecordingStarted);
            proof {
                assert(overlay@ =~= seq![OverlayCall::Show(OverlayState::Recording)]);
                assert(notices@ =~= seq![Notice::ProcessingFinished, Notice::RecordingStarted]);
            }
            StartReport { overlay, notices, outcome: Ok(()) }
        },
    }
}

/// Where a stop-and-transcribe run stands: which step outcome it expects
/// next.
#[derive(Debug, Clone, Copy, PartialEq, Eq, Structural)]
pub enum PipelinePhase {
    /// Waiting for the native stop and finalization outcome.
    Stopping,
    /// Waiting for the transcription collaborator's answer.
    Transcribing,
    /// Waiting for the paste outcome.
    Pasting,
    /// The run ended, successfully or not.
    Done,
}

/// The effects one pipeline step asks the caller to play, in order,
/// before the next step runs.
#[derive(Debug)]
pub struct StepEffects {
    pub notices: Vec<Notice>,
    pub overlay: Vec<OverlayCall>,
}

/// One stop-and-transcribe run, driven step by step. The caller plays the
/// returned effects after each call; a step that returns `None` for its
/// payload ended the run. The `Finished` signal itself comes from the
/// guard around the whole run, not from a step.
#[derive(Debug)]
pub struct StopPipeline {
    pub phase: PipelinePhase,
}

impl StopPipeline {
    /// Open the run: announce that recording stopped and processing
    /// started, and show the transcribing overlay.
    pub fn begin() -> (r: (StopPipeline, StepEffects))
        ensures
            r.0.phase == PipelinePhase::Stopping,
            r.1.notices@ == seq![Notice::RecordingStopped, Notice::ProcessingStarted],
            r.1.overlay@ == seq![OverlayCall::Show(OverlayState::Transcribing)],
    {
        let mut notices: Vec<Notice> = Vec::new();
        let mut overlay: Vec<OverlayCall> = Vec::new();
        notices.push(Notice::RecordingStopped);
        notices.push(Notice::ProcessingStarted);
        overlay.push(OverlayCall::Show(OverlayState::Transcribing));
        proof {
            assert(notices@ =~= seq![Notice::RecordingStopped, Notice::ProcessingStarted]);
            assert(overlay@ =~= seq![OverlayCall::Show(OverlayState::Transcribing)]);
        }
        (StopPipeline { phase: PipelinePhase::Stopping }, StepEffects { notices, overlay })
    }

    /// Interpret the native stop's outcome: the captured audio goes on to
    /// transcription, a failure reports the error, hides the overlay and
    /// ends the run.
    pub fn on_stop(&mut self, outcome: Result<Vec<u8>, DictationError>) -> (r: (
        StepEffects,
        Option<Vec<u8>>,
    ))
        requires
            old(self).phase == PipelinePhase::Stopping,
        ensures
            outcome matches Ok(audio) ==> final(self).phase == PipelinePhase::Transcribing
                && r.0.notices@ == Seq::<Notice>::empty() && r.0.overlay@ == Seq::<
                OverlayCall,
            >::empty() && r.1 == Some(audio),
            outcome matches Err(e) ==> final(self).phase == PipelinePhase::Done && r.0.notices@
                == seq![Notice::ProcessingFinished, Notice::Failed(e)] && r.0.overlay@ == seq![
                OverlayCall::Hide,
            ] && r.1 is None,
    {
        match outcome {
            Ok(audio) => {
                self.phase = PipelinePhase::Transcribing;
                (StepEffects { notices: Vec::new(), overlay: Vec::new() }, Some(audio))
            },
            Err(e) => {
                self.phase = PipelinePhase::Done;
                let mut notices: Vec<Notice> = Vec::new();
                let mut overlay: Vec<OverlayCall> = Vec::new();
                notices.push(Notice::ProcessingFinished);
                notices.push(Notice::Failed(e));
                overlay.push(OverlayCall::Hide);
                proof {
                    assert(overlay@ =~= seq![OverlayCall::Hide]);
                }
                ((StepEffects { notices, overlay }), None)
            },
        }
    }

    /// Interpret the transcription collaborator's answer: the text goes
    /// on to the paste — showing the processing overlay first — and a
    /// failure reports the error, hides the overlay and ends the run.
    pub fn on_transcription(&mut self, outcome: Result<String, DictationError>) -> (r: (
        StepEffects,
        Option<String>,
    ))
        requires
            old(self).phase == PipelinePhase::Transcribing,
        ensures
            outcome matches Ok(text) ==> final(self).phase == PipelinePhase::Pasting
                && r.0.notices@ == Seq::<Notice>::empty() && r.0.overlay@ == seq![
                OverlayCall::Show(OverlayState::Processing),
            ] && r.1 == Some(text),
            outcome matches Err(e) ==> final(self).phase == PipelinePhase::Done && r.0.notices@
                == seq![Notice::ProcessingFinished, Notice::Failed(e)] && r.0.overlay@ == seq![
                OverlayCall::Hide,
            ] && r.1 is None,
    {
        match outcome {
            Ok(text) => {
                self.phase = PipelinePhase::Pasting;
                let mut overlay: Vec<OverlayCall> = Vec::new();
                overlay.push(OverlayCall::Show(OverlayState::Processing));
                proof {
                    assert(overlay@ =~= seq![OverlayCall::Show(OverlayState::Processing)]);
                }
                ((StepEffects { notices: Vec::new(), overlay }), Some(text))
            },
            Err(e) => {
                self.phase = PipelinePhase::Done;
                let mut notices: Vec<Notice> = Vec::new();
                let mut overlay: Vec<OverlayCall> = Vec::new();
                notices.push(Notice::ProcessingFinished);
                notices.push(Notice::Failed(e));
                overlay.push(OverlayCall::Hide);
                proof {
                    assert(overlay@ =~= seq![OverlayCall::Hide]);
                }
                ((StepEffects { notices, overlay }), None)
            },
        }
    }

    /// Interpret the paste's outcome for the transcribed `text`. On
    /// success the run ends with the text handed back for persistence —
    /// the caller saves it before playing the effects — and the result
    /// and completion announced; a failure reports the error instead. The
    /// overlay is hidden either way.
    pub fn on_paste(&mut self, text: String, outcome: Result<(), DictationError>) -> (r: (
        StepEffects,
        Option<String>,
    ))
        requires
            old(self).phase == PipelinePhase::Pasting,
        ensures
            final(self).phase == PipelinePhase::Done,
            outcome is Ok ==> r.0.notices@ == seq![
                Notice::TextResult(text),
                Notice::ProcessingFinished,
            ] && r.0.overlay@ == seq![OverlayCall::Hide] && r.1 == Some(text),
            outcome matches Err(e) ==> r.0.notices@ == seq![
                Notice::ProcessingFinished,
                Notice::Failed(e),
            ] && r.0.overlay@ == seq![OverlayCall::Hide] && r.1 is None,
    {
        self.phase = PipelinePhase::Done;
        let mut notices: Vec<Notice> = Vec::new();
        let mut overlay: Vec<OverlayCall> = Vec::new();
        overlay.push(OverlayCall::Hide);
        proof {
            assert(overlay@ =~= seq![OverlayCall::Hide]);
        }
        match outcome {
            Ok(()) => {
                let saved = text.clone();
                notices.push(Notice::TextResult(text));
                notices.push(Notice::ProcessingFinished);
                ((StepEffects { notices, overlay }), Some(saved))
            },
            Err(e) => {
                notices.push(Notice::ProcessingFinished);
                notices.push(Notice::Failed(e));
                ((StepEffects { notices, overlay }), None)
            },
        }
    }
}

/// The outcomes of the fallible steps of one stop-and-transcribe run, as
/// the platform produced them. A later step's outcome is consulted only
/// when every earlier step succeeded.
#[derive(Debug)]
pub struct PipelineOutcomes {
    /// Native stop plus finalization polling: the captured audio bytes.
    pub stop: Result<Vec<u8>, DictationError>,
    /// The transcription collaborator's answer.
    pub transcribe: Result<String, DictationError>,
    /// The clipboard-preserving paste of the transcribed text.
    pub paste: Result<(), DictationError>,
}

/// Everything one stop-and-transcribe run emitted.
#[derive(Debug)]
pub struct PipelineReport {
    pub overlay: Vec<OverlayCall>,
    pub notices: Vec<Notice>,
    /// Text handed to the persistence collaborator, when the run succeeded.
    pub saved: Option<String>,
    /// How many `Finished` commands the guard sent to the coordinator.
    pub finished: usize,
}

/// The whole stop-and-transcribe run over all three step outcomes at
/// once, driven through `StopPipeline`: the first failure is reported and
/// ends the run, a full success pastes, saves and reports the text. On
/// every exit path the guard sends exactly one `Finished` signal.
pub fn run_stop_pipeline(o: PipelineOutcomes) -> (r: PipelineReport)
    ensures
        r.finished == 1,
        o.stop matches Err(e) ==> r.notices@ == seq![
            Notice::RecordingStopped,
            Notice::ProcessingStarted,
            Notice::ProcessingFinished,
            Notice::Failed(e),
        ] && r.overlay@ == seq![OverlayCall::Show(OverlayState::Transcribing), OverlayCall::Hide]
            && r.saved is None,
        o.stop is Ok ==> (o.transcribe matches Err(e) ==> r.notices@ == seq![
            Notice::RecordingStopped,
            Notice::ProcessingStarted,
            Notice::ProcessingFinished,
            Notice::Failed(e),
        ] && r.overlay@ == seq![OverlayCall::Show(OverlayState::Transcribing), OverlayCall::Hide]
            && r.saved is None),
        o.stop is Ok && o.transcribe is Ok ==> (o.paste matches Err(e) ==> r.notices@ == seq![
            Notice::RecordingStopped,
            Notice::ProcessingStarted,
            Notice::ProcessingFinished,
            Notice::Failed(e),
        ] && r.overlay@ == seq![
            OverlayCall::Show(OverlayState::Transcribing),
            OverlayCall::Show(OverlayState::Processing),
            OverlayCall::Hide,
        ] && r.saved is None),
        o.stop is Ok && o.paste is Ok ==> (o.transcribe matches Ok(text) ==> r.notices@ == seq![
            Notice::RecordingStopped,
            Notice::ProcessingStarted,
            Notice::TextResult(text),
            Notice::ProcessingFinished,
        ] && r.overlay@ == seq![
            OverlayCall::Show(OverlayState::Transcribing),
            OverlayCall::Show(OverlayState::Processing),
            OverlayCall::Hide,
        ] && r.saved == Some(text)),
{
    let (mut pipeline, opened) = StopPipeline::begin();
    let mut notices = opened.notices;
    let mut overlay = opened.overlay;

    let (mut effects, audio) = pipeline.on_stop(o.stop);
    notices.append(&mut effects.notices);
    overlay.append(&mut effects.overlay);
    if audio.is_none() {
        proof {
            assert(overlay@ =~= seq![
                OverlayCall::Show(OverlayState::Transcribing),
                OverlayCall::Hide,
            ]);
            assert(o.stop matches Err(e) ==> notices@ =~= seq![
                Notice::RecordingStopped,
                Notice::ProcessingStarted,
                Notice::ProcessingFinished,
                Notice::Failed(e),
            ]);
        }
        return PipelineReport { overlay, notices, saved: None, finished: 1 };
    }

    let (mut effects, text) = pipeline.on_transcription(o.transcribe);
    notices.append(&mut effects.notices);
    overlay.append(&mut effects.overlay);
    let text = match text {
        None => {
            proof {
                assert(overlay@ =~= seq![
                    OverlayCall::Show(OverlayState::Transcribing),
                    OverlayCall::Hide,
                ]);
                assert(o.transcribe matches Err(e) ==> notices@ =~= seq![
                    Notice::RecordingStopped,
                    Notice::ProcessingStarted,
                    Notice::ProcessingFinished,
                    Notice::Failed(e),
                ]);
            }
            return PipelineReport { overlay, notices, saved: None, finished: 1 };
        },
        Some(text) => text,
    };

    let (mut effects, saved) = pipeline.on_paste(text, o.paste);
    notices.append(&mut effects.notices);
    overlay.append(&mut effects.overlay);
    proof {
        assert(overlay@ =~= seq![
            OverlayCall::Show(OverlayState::Transcribing),
            OverlayCall::Show(OverlayState::Processing),
            OverlayCall::Hide,
        ]);
        assert(o.paste matches Err(e) ==> notices@ =~= seq![
            Notice::RecordingStopped,
            Notice::ProcessingStarted,
            Notice::ProcessingFinished,
            Notice::Failed(e),
        ]);
        assert(o.paste is Ok ==> (o.transcribe matches Ok(t) ==> notices@ =~= seq![
            Notice::RecordingStopped,
            Notice::ProcessingStarted,
            Notice::TextResult(t),
            Notice::ProcessingFinished,
        ]));
    }
    PipelineReport { overlay, notices, saved, finished: 1 }
}

/// Law: for any injected failure point — native stop, transcription, or
/// paste dispatch — one stop-and-transcribe run sends exactly one
/// `Finished` signal, never zero and never more, and any coordinator that
/// consumes that signal lands back in `Idle`.
pub proof fn lemma_finish_guard_resolves(o: PipelineOutcomes, r: PipelineReport, c: Coordinator)
    requires
        call_ensures(run_stop_pipeline, (o,), r),
    ensures
        r.finished == 1,
        spec_after_finished(c).stage == Stage::Idle,
{
}

} // verus!
