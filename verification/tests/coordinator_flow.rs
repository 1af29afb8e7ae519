use typefree::coordinator::{Coordinator, Directive, Stage};
use typefree::debounce::{DebounceFilter, DEBOUNCE_WINDOW_MS};

#[test]
fn first_press_passes_filter() {
    let mut f = DebounceFilter::new();
    assert!(f.accept(true, 1000));
}

#[test]
fn rapid_second_press_is_dropped() {
    let mut f = DebounceFilter::new();
    assert!(f.accept(true, 1000));
    assert!(!f.accept(true, 1000 + DEBOUNCE_WINDOW_MS - 1));
    // The dropped press did not move the window: a press 30ms after the
    // first is accepted again.
    assert!(f.accept(true, 1000 + DEBOUNCE_WINDOW_MS));
}

#[test]
fn releases_always_pass_filter() {
    let mut f = DebounceFilter::new();
    assert!(f.accept(true, 1000));
    assert!(f.accept(false, 1001));
    assert!(f.accept(false, 1002));
}

#[test]
fn backwards_clock_press_is_dropped() {
    let mut f = DebounceFilter::new();
    assert!(f.accept(true, 1000));
    assert!(!f.accept(true, 990));
}

#[test]
fn rapid_double_press_leaves_stage_unchanged() {
    // Two presses within 30ms with no intervening release: the second is
    // dropped; the stage is unaffected.
    let mut c = Coordinator::new();
    let d1 = c.on_input(true, false, false, 1000);
    assert_eq!(d1, Directive::AttemptStart);
    c.on_start_outcome(true);
    assert_eq!(c.stage_now(), Stage::Recording);
    let d2 = c.on_input(true, false, true, 1010);
    assert_eq!(d2, Directive::Ignore);
    assert_eq!(c.stage_now(), Stage::Recording);
}

#[test]
fn push_to_talk_session() {
    // Press: the coordinator attempts a start and moves to Recording on
    // success; release: the recording ends and the stage is Processing;
    // the finish signal returns it to Idle.
    let mut c = Coordinator::new();
    assert_eq!(c.stage_now(), Stage::Idle);
    let d = c.on_input(true, true, false, 1000);
    assert_eq!(d, Directive::AttemptStart);
    c.on_start_outcome(true);
    assert_eq!(c.stage_now(), Stage::Recording);
    let d = c.on_input(false, true, true, 2000);
    assert_eq!(d, Directive::FinishRecording);
    assert_eq!(c.stage_now(), Stage::Processing);
    c.on_finished();
    assert_eq!(c.stage_now(), Stage::Idle);
}

#[test]
fn toggle_session_and_press_while_processing() {
    // Tap once: Recording; tap again: Processing; a tap while Processing
    // is ignored and the stage is unchanged; Idle once the pipeline ends.
    let mut c = Coordinator::new();
    assert_eq!(c.on_input(true, false, false, 1000), Directive::AttemptStart);
    c.on_start_outcome(true);
    assert_eq!(c.stage_now(), Stage::Recording);
    assert_eq!(c.on_input(true, false, true, 2000), Directive::FinishRecording);
    assert_eq!(c.stage_now(), Stage::Processing);
    assert_eq!(c.on_input(true, false, false, 3000), Directive::Ignore);
    assert_eq!(c.stage_now(), Stage::Processing);
    c.on_finished();
    assert_eq!(c.stage_now(), Stage::Idle);
}

#[test]
fn failed_start_leaves_stage_idle() {
    let mut c = Coordinator::new();
    assert_eq!(c.on_input(true, true, false, 1000), Directive::AttemptStart);
    c.on_start_outcome(false);
    assert_eq!(c.stage_now(), Stage::Idle);
}

#[test]
fn release_in_push_to_talk_without_recording_is_ignored() {
    let mut c = Coordinator::new();
    assert_eq!(c.on_input(false, true, false, 1000), Directive::Ignore);
    assert_eq!(c.stage_now(), Stage::Idle);
}

#[test]
fn release_in_toggle_mode_is_ignored() {
    let mut c = Coordinator::new();
    assert_eq!(c.on_input(true, false, false, 1000), Directive::AttemptStart);
    c.on_start_outcome(true);
    assert_eq!(c.on_input(false, false, true, 2000), Directive::Ignore);
    assert_eq!(c.stage_now(), Stage::Recording);
}

#[test]
fn stage_resyncs_against_recorder_state() {
    // A session started outside the coordinator is adopted; one stopped
    // outside is dropped.
    let mut c = Coordinator::new();
    assert_eq!(c.on_input(false, false, true, 1000), Directive::Ignore);
    assert_eq!(c.stage_now(), Stage::Recording);
    assert_eq!(c.on_input(false, false, false, 2000), Directive::Ignore);
    assert_eq!(c.stage_now(), Stage::Idle);
}

#[test]
fn adopted_session_ends_on_push_to_talk_release() {
    // A session started outside the coordinator is adopted on resync, so a
    // push-to-talk release immediately hands it to the pipeline.
    let mut c = Coordinator::new();
    assert_eq!(c.on_input(false, true, true, 1000), Directive::FinishRecording);
    assert_eq!(c.stage_now(), Stage::Processing);
}

#[test]
fn finished_resets_from_any_stage() {
    let mut c = Coordinator::new();
    c.on_finished();
    assert_eq!(c.stage_now(), Stage::Idle);
    assert_eq!(c.on_input(true, false, false, 1000), Directive::AttemptStart);
    c.on_start_outcome(true);
    c.on_finished();
    assert_eq!(c.stage_now(), Stage::Idle);
}
