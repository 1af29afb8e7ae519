use typefree::capture::{
    bytes_prefix_hex, finalize_output, is_native_recording_active, is_wav_header, CaptureManager,
    CaptureSession, CaptureSlot, FinalizePoll, PollVerdict, FINALIZE_MAX_ATTEMPTS,
};
use typefree::errors::DictationError;

fn valid_wav() -> Vec<u8> {
    let mut b = Vec::new();
    b.extend_from_slice(b"RIFF");
    b.extend_from_slice(&[0u8; 4]);
    b.extend_from_slice(b"WAVE");
    while b.len() < 44 {
        b.push(0);
    }
    b
}

fn session(id: u64) -> CaptureSession {
    CaptureSession { output_id: id, started_at_ms: 0 }
}

#[test]
fn start_while_active_is_resource_busy() {
    let mut m = CaptureManager::new();
    assert!(m.reserve().is_ok());
    m.commit_start(session(7));
    assert!(m.is_active());
    // A second start fails fast and the existing session is untouched.
    assert_eq!(m.reserve(), Err(DictationError::ResourceBusy));
    assert_eq!(m.slot, CaptureSlot::Active(session(7)));
}

#[test]
fn start_while_reserved_is_resource_busy() {
    let mut m = CaptureManager::new();
    assert!(m.reserve().is_ok());
    assert_eq!(m.reserve(), Err(DictationError::ResourceBusy));
}

#[test]
fn stop_without_start_is_not_recording() {
    let mut m = CaptureManager::new();
    assert_eq!(m.take_session(), Err(DictationError::NotRecording));
}

#[test]
fn stop_takes_the_session_out() {
    let mut m = CaptureManager::new();
    m.reserve().unwrap();
    m.commit_start(session(3));
    assert_eq!(m.take_session(), Ok(session(3)));
    assert!(!m.is_active());
    assert_eq!(m.take_session(), Err(DictationError::NotRecording));
}

#[test]
fn aborted_start_frees_the_slot() {
    let mut m = CaptureManager::new();
    m.reserve().unwrap();
    m.abort_start();
    assert!(m.reserve().is_ok());
}

#[test]
fn cancel_discards_without_error() {
    let mut m = CaptureManager::new();
    assert_eq!(m.cancel(), None);
    m.reserve().unwrap();
    m.commit_start(session(9));
    assert_eq!(m.cancel(), Some(session(9)));
    assert!(!m.is_active());
}

#[test]
fn recording_active_query_matches_slot() {
    let mut m = CaptureManager::new();
    assert!(!is_native_recording_active(&m));
    m.reserve().unwrap();
    assert!(!is_native_recording_active(&m));
    m.commit_start(session(1));
    assert!(is_native_recording_active(&m));
}

#[test]
fn wav_header_detection() {
    assert!(is_wav_header(&valid_wav()));
    assert!(!is_wav_header(b"RIFFxxxxWAV!"));
    assert!(!is_wav_header(b"RIFF"));
    assert!(!is_wav_header(b""));
    assert!(!is_wav_header(b"OggSxxxxxxxx"));
}

#[test]
fn hex_prefix_formatting() {
    assert_eq!(bytes_prefix_hex(&[0x00, 0xff, 0x1a], 16), "00 ff 1a");
    assert_eq!(bytes_prefix_hex(&[0xab, 0xcd, 0xef], 2), "ab cd");
    assert_eq!(bytes_prefix_hex(&[], 16), "");
    assert_eq!(bytes_prefix_hex(&[0x52, 0x49, 0x46, 0x46], 16), "52 49 46 46");
}

#[test]
fn output_valid_on_later_poll_is_returned() {
    // The output becomes structurally valid on the 5th poll: those bytes
    // come back.
    let mut reads: Vec<Option<Vec<u8>>> = Vec::new();
    for _ in 0..3 {
        reads.push(None);
    }
    reads.push(Some(b"RIFF".to_vec()));
    reads.push(Some(valid_wav()));
    assert_eq!(finalize_output(&reads), Ok(valid_wav()));
}

#[test]
fn output_never_valid_times_out_with_last_observation() {
    let mut reads: Vec<Option<Vec<u8>>> = Vec::new();
    for _ in 0..10 {
        reads.push(None);
    }
    reads.push(Some(b"RIFFxx".to_vec()));
    for _ in 0..(FINALIZE_MAX_ATTEMPTS - 11) {
        reads.push(None);
    }
    match finalize_output(&reads) {
        Err(DictationError::Timeout { last_len, last_prefix }) => {
            assert_eq!(last_len, 6);
            assert_eq!(last_prefix, "52 49 46 46 78 78");
        }
        other => panic!("expected a timeout, got {:?}", other),
    }
}

#[test]
fn valid_output_after_the_window_is_ignored() {
    // The 26th read would be valid, but the poll gave up after 25.
    let mut reads: Vec<Option<Vec<u8>>> = Vec::new();
    for _ in 0..FINALIZE_MAX_ATTEMPTS {
        reads.push(None);
    }
    reads.push(Some(valid_wav()));
    match finalize_output(&reads) {
        Err(DictationError::Timeout { last_len, last_prefix }) => {
            assert_eq!(last_len, 0);
            assert_eq!(last_prefix, "");
        }
        other => panic!("expected a timeout, got {:?}", other),
    }
}

#[test]
fn short_wav_is_not_accepted() {
    // A correct header with fewer than 44 bytes holds no samples.
    let mut b = Vec::new();
    b.extend_from_slice(b"RIFF\0\0\0\0WAVE");
    let reads = vec![Some(b)];
    assert!(matches!(
        finalize_output(&reads),
        Err(DictationError::Timeout { last_len: 12, .. })
    ));
}

#[test]
fn poll_steps_accept_and_give_up() {
    let mut p = FinalizePoll::new();
    match p.feed(None) {
        PollVerdict::Retry => {}
        other => panic!("expected a retry, got {:?}", other),
    }
    match p.feed(Some(valid_wav())) {
        PollVerdict::Accepted(bytes) => assert_eq!(bytes, valid_wav()),
        other => panic!("expected acceptance, got {:?}", other),
    }

    let mut p = FinalizePoll::new();
    for _ in 0..(FINALIZE_MAX_ATTEMPTS - 1) {
        match p.feed(None) {
            PollVerdict::Retry => {}
            other => panic!("expected a retry, got {:?}", other),
        }
    }
    match p.feed(Some(b"xx".to_vec())) {
        PollVerdict::GaveUp(DictationError::Timeout { last_len, last_prefix }) => {
            assert_eq!(last_len, 2);
            assert_eq!(last_prefix, "78 78");
        }
        other => panic!("expected giving up, got {:?}", other),
    }
}
