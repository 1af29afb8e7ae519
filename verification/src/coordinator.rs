//! The coordinator state machine.
//!
//! A single consuming loop owns the session `Stage` and interprets hotkey
//! events against it: a press in `Idle` attempts to start a capture, a
//! release (push-to-talk) or a second press (toggle) while `Recording`
//! hands the session to the stop-and-transcribe pipeline, and a press
//! while `Processing` is dropped. A `Finished` command — sent exactly once
//! per pipeline run by its guard — forces the stage back to `Idle` no
//! matter what failed downstream.
//!
//! The loop itself (queue receive, spawning the pipeline task) is plain
//! asynchronous plumbing and lives in the surrounding application; it calls
//! the step functions here and performs the directives they return.

use vstd::prelude::*;

use crate::debounce::DebounceFilter;

verus! {

/// The three-valued session status.
#[derive(Debug, Clone, Copy, PartialEq, Eq, Structural)]
pub enum Stage {
    Idle,
    Recording,
    Processing,
}

/// What the loop must do next after one input event was interpreted.
#[derive(Debug, Clone, Copy, PartialEq, Eq, Structural)]
pub enum Directive {
    /// Nothing to do: the event was dropped or does not apply.
    Ignore,
    /// Attempt to start a capture; report the outcome via `on_start_outcome`.
    AttemptStart,
    /// Stop the capture and run the transcription pipeline.
    FinishRecording,
}

/// Before acting on an input, the stage is corrected against the capture
/// manager's own idea of whether a session exists (the UI can start and stop
/// sessions outside the coordinator's own calls).
pub open spec fn spec_resync(stage: Stage, recording_active: bool) -> Stage {
    if stage == Stage::Idle && recording_active {
        Stage::Recording
    } else if stage == Stage::Recording && !recording_active {
        Stage::Idle
    } else {
        stage
    }
}

/// The transition table: what a press or release means in each stage, for
/// each activation mode.
pub open spec fn spec_directive(stage: Stage, pressed: bool, push_to_talk: bool) -> Directive {
    if push_to_talk {
        if pressed && stage == Stage::Idle {
            Directive::AttemptStart
        } else if !pressed && stage == Stage::Recording {
            Directive::FinishRecording
        } else {
            Directive::Ignore
        }
    } else if pressed {
        match stage {
            Stage::Idle => Directive::AttemptStart,
            Stage::Recording => Directive::FinishRecording,
            Stage::Processing => Directive::Ignore,
        }
    } else {
        Directive::Ignore
    }
}

/// The coordinator's own state: the stage it owns and the debounce filter
/// scoped to it.
pub struct Coordinator {
    pub stage: Stage,
    pub debounce: DebounceFilter,
}

/// The coordinator after it consumed a `Finished` command: the stage is
/// forced to `Idle`, whatever it was.
pub open spec fn spec_after_finished(c: Coordinator) -> Coordinator {
    Coordinator { stage: Stage::Idle, ..c }
}

/// The stage after one input event at `now_ms` was interpreted.
pub open spec fn spec_stage_after_input(
    c: Coordinator,
    pressed: bool,
    push_to_talk: bool,
    recording_active: bool,
    now_ms: u64,
) -> Stage {
    let synced = spec_resync(c.stage, recording_active);
    if c.debounce.spec_passes(pressed, now_ms) && spec_directive(synced, pressed, push_to_talk)
        == Directive::FinishRecording {
        Stage::Processing
    } else {
        synced
    }
}

/// The directive produced for one input event at `now_ms`: `Ignore` when the
/// press is debounced, the table's entry otherwise.
pub open spec fn spec_input_directive(
    c: Coordinator,
    pressed: bool,
    push_to_talk: bool,
    recording_active: bool,
    now_ms: u64,
) -> Directive {
    if c.debounce.spec_passes(pressed, now_ms) {
        spec_directive(spec_resync(c.stage, recording_active), pressed, push_to_talk)
    } else {
        Directive::Ignore
    }
}

impl Coordinator {
    /// A fresh coordinator: idle, with nothing debounced yet.
    pub fn new() -> (r: Self)
        ensures
            r.stage == Stage::Idle,
            r.debounce.last_press() is None,
    {
        Coordinator { stage: Stage::Idle, debounce: DebounceFilter::new() }
    }

    /// The stage the coordinator currently owns.
    pub fn stage_now(&self) -> (s: Stage)
        ensures
            s == self.stage,
    {
        self.stage
    }

    /// Interpret one input event: resynchronize the stage against the
    /// capture manager, apply the debounce filter to presses, and consult
    /// the transition table. When the table says the recording must end,
    /// the stage moves to `Processing` here; a start attempt leaves the
    /// stage at `Idle` until `on_start_outcome` reports how it went.
    pub fn on_input(
        &mut self,
        pressed: bool,
        push_to_talk: bool,
        recording_active: bool,
        now_ms: u64,
    ) -> (d: Directive)
        ensures
            d == spec_input_directive(*old(self), pressed, push_to_talk, recording_active, now_ms),
            final(self).stage == spec_stage_after_input(
                *old(self),
                pressed,
                push_to_talk,
                recording_active,
                now_ms,
            ),
            final(self).debounce == old(self).debounce.spec_after(pressed, now_ms),
    {
        if self.stage == Stage::Idle && recording_active {
            self.stage = Stage::Recording;
        } else if self.stage == Stage::Recording && !recording_active {
            self.stage = Stage::Idle;
        }

        if !self.debounce.accept(pressed, now_ms) {
            return Directive::Ignore;
        }

        let directive = if push_to_talk {
            if pressed && self.stage == Stage::Idle {
                Directive::AttemptStart
            } else if !pressed && self.stage == Stage::Recording {
                Directive::FinishRecording
            } else {
                Directive::Ignore
            }
        } else if pressed {
            match self.stage {
                Stage::Idle => Directive::AttemptStart,
                Stage::Recording => Directive::FinishRecording,
                Stage::Processing => Directive::Ignore,
            }
        } else {
            Directive::Ignore
        };

        if directive == Directive::FinishRecording {
            self.stage = Stage::Processing;
        }
        directive
    }

    /// Report how a start attempt went: a successful start moves the stage
    /// to `Recording`, a failed one leaves it at `Idle` (the caller emits
    /// the error).
    pub fn on_start_outcome(&mut self, started: bool)
        requires
            old(self).stage == Stage::Idle,
        ensures
            final(self).stage == if started {
                Stage::Recording
            } else {
                Stage::Idle
            },
            final(self).debounce == old(self).debounce,
    {
        if started {
            self.stage = Stage::Recording;
        }
    }

    /// A `Finished` command: the sole path that guarantees forward progress
    /// after any failure. It forces the stage to `Idle` regardless of the
    /// prior value.
    pub fn on_finished(&mut self)
        ensures
            *final(self) == spec_after_finished(*old(self)),
            final(self).stage == Stage::Idle,
            final(self).debounce == old(self).debounce,
    {
        self.stage = Stage::Idle;
    }
}

/// Law: the directive function is exactly the transition table — a start is
/// attempted precisely on a press in `Idle`, the recording ends precisely in
/// `Recording` on a release (push-to-talk) or a press (toggle), and every
/// event in `Processing`, as well as every release outside push-to-talk, is
/// ignored.
pub proof fn lemma_directive_matches_table(stage: Stage, pressed: bool, push_to_talk: bool)
    ensures
        spec_directive(stage, pressed, push_to_talk) == Directive::AttemptStart <==> (pressed
            && stage == Stage::Idle),
        spec_directive(stage, pressed, push_to_talk) == Directive::FinishRecording <==> (stage
            == Stage::Recording && pressed != push_to_talk),
        stage == Stage::Processing ==> spec_directive(stage, pressed, push_to_talk)
            == Directive::Ignore,
{
}

/// Law: when a press is accepted at `t0`, a second press within the
/// debounce window and with no intervening accepted press issues no
/// directive, leaves the stage where the resynchronization put it, and
/// does not move the debounce window.
pub proof fn lemma_second_press_within_window_ignored(
    c: Coordinator,
    push_to_talk: bool,
    recording_active0: bool,
    t0: u64,
    push_to_talk1: bool,
    recording_active1: bool,
    t1: u64,
)
    requires
        c.debounce.spec_passes(true, t0),
        t1 < t0 + crate::debounce::DEBOUNCE_WINDOW_MS,
    ensures
        ({
            let c1 = Coordinator {
                stage: spec_stage_after_input(c, true, push_to_talk, recording_active0, t0),
                debounce: c.debounce.spec_after(true, t0),
            };
            spec_input_directive(c1, true, push_to_talk1, recording_active1, t1)
                == Directive::Ignore && spec_stage_after_input(
                c1,
                true,
                push_to_talk1,
                recording_active1,
                t1,
            ) == spec_resync(c1.stage, recording_active1) && c1.debounce.spec_after(true, t1)
                == c1.debounce
        }),
{
}

/// Law: a press that falls inside the debounce window of the previous
/// accepted press is dropped — the coordinator issues no directive, the
/// stage stays where the resynchronization put it, and the filter does not
/// move its window.
pub proof fn lemma_debounced_press_ignored(
    c: Coordinator,
    push_to_talk: bool,
    recording_active: bool,
    now_ms: u64,
)
    requires
        c.debounce.spec_is_duplicate(now_ms),
    ensures
        spec_input_directive(c, true, push_to_talk, recording_active, now_ms) == Directive::Ignore,
        spec_stage_after_input(c, true, push_to_talk, recording_active, now_ms) == spec_resync(
            c.stage,
            recording_active,
        ),
        c.debounce.spec_after(true, now_ms) == c.debounce,
{
}

} // verus!
