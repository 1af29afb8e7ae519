//! The capture session manager.
//!
//! At most one audio-capture session exists process-wide. The manager owns
//! the slot that holds it: a `start` fails fast with `ResourceBusy` while
//! the slot is occupied, and a `stop` takes the session out (transferring
//! ownership to the stopping caller) or fails with `NotRecording`.
//!
//! The native recorder finalizes its output asynchronously: right after the
//! native stop the file can briefly be missing, empty or truncated. The
//! manager therefore accepts an output only once it carries a minimal WAV
//! header and a non-trivial length, retrying a bounded number of times;
//! when every attempt fails it reports a `Timeout` carrying the last
//! observed length and the hex dump of the leading bytes, and the partial
//! file is left in place for diagnostics.
//!
//! The native calls themselves (recorder allocation, stop, file reads) are
//! platform work done by the surrounding application; the manager's step
//! functions take their outcomes as plain values.

use vstd::prelude::*;
use vstd::string::StrSliceExecFns;
use vstd::string::StringExecFns;

use crate::errors::DictationError;

verus! {

/// One in-flight recording: the native handle and the output location are
/// identified by `output_id`, and `started_at_ms` remembers when the
/// capture began.
#[derive(Debug, Clone, Copy, PartialEq, Eq, Structural)]
pub struct CaptureSession {
    pub output_id: u64,
    pub started_at_ms: u64,
}

/// The state of the single process-wide capture slot. `Reserved` covers the
/// span between a successful busy-check and the completion of the native
/// start: the slot is already exclusive but no session was installed yet.
#[derive(Debug, Clone, Copy, PartialEq, Eq, Structural)]
pub enum CaptureSlot {
    Free,
    Reserved,
    Active(CaptureSession),
}

/// Owner of the exclusive capture slot.
#[derive(Debug, Clone, Copy, PartialEq, Eq, Structural)]
pub struct CaptureManager {
    pub slot: CaptureSlot,
}

impl CaptureManager {
    /// A fresh manager with an empty slot.
    pub fn new() -> (r: Self)
        ensures
            r.slot == CaptureSlot::Free,
    {
        CaptureManager { slot: CaptureSlot::Free }
    }

    /// Non-blocking query: does a session currently exist?
    pub fn is_active(&self) -> (r: bool)
        ensures
            r == (self.slot is Active),
    {
        match self.slot {
            CaptureSlot::Active(_) => true,
            _ => false,
        }
    }

    /// Claim the slot for a new session. Fails fast with `ResourceBusy` —
    /// leaving the slot untouched — when a session already exists or a
    /// start is already under way.
    pub fn reserve(&mut self) -> (r: Result<(), DictationError>)
        ensures
            old(self).slot == CaptureSlot::Free ==> r is Ok && final(self).slot
                == CaptureSlot::Reserved,
            old(self).slot != CaptureSlot::Free ==> r == Err::<(), _>(
                DictationError::ResourceBusy,
            ) && *final(self) == *old(self),
    {
        match self.slot {
            CaptureSlot::Free => {
                self.slot = CaptureSlot::Reserved;
                Ok(())
            },
            _ => Err(DictationError::ResourceBusy),
        }
    }

    /// Install the session after the native start succeeded.
    pub fn commit_start(&mut self, session: CaptureSession)
        requires
            old(self).slot == CaptureSlot::Reserved,
        ensures
            final(self).slot == CaptureSlot::Active(session),
    {
        self.slot = CaptureSlot::Active(session);
    }

    /// Release the reservation after the native start failed.
    pub fn abort_start(&mut self)
        requires
            old(self).slot == CaptureSlot::Reserved,
        ensures
            final(self).slot == CaptureSlot::Free,
    {
        self.slot = CaptureSlot::Free;
    }

    /// Take the current session out of the slot, transferring ownership to
    /// the caller; nothing else may reference it afterwards. Without an
    /// installed session this fails with `NotRecording` and changes
    /// nothing.
    pub fn take_session(&mut self) -> (r: Result<CaptureSession, DictationError>)
        ensures
            old(self).slot matches CaptureSlot::Active(s) ==> r == Ok::<_, DictationError>(s)
                && final(self).slot == CaptureSlot::Free,
            !(old(self).slot is Active) ==> r == Err::<CaptureSession, _>(
                DictationError::NotRecording,
            ) && *final(self) == *old(self),
    {
        match self.slot {
            CaptureSlot::Active(s) => {
                self.slot = CaptureSlot::Free;
                Ok(s)
            },
            _ => Err(DictationError::NotRecording),
        }
    }

    /// Best-effort cancel: discard the session, if any, without requiring a
    /// valid output. Returns the session the caller must tear down. Never
    /// fails.
    pub fn cancel(&mut self) -> (r: Option<CaptureSession>)
        requires
            old(self).slot != CaptureSlot::Reserved,
        ensures
            final(self).slot == CaptureSlot::Free,
            old(self).slot matches CaptureSlot::Active(s) ==> r == Some(s),
            old(self).slot == CaptureSlot::Free ==> r is None,
    {
        match self.slot {
            CaptureSlot::Active(s) => {
                self.slot = CaptureSlot::Free;
                Some(s)
            },
            _ => None,
        }
    }
}

/// Whether the native recorder — or anything that manages a session through
/// this slot — is currently recording.
pub fn is_native_recording_active(manager: &CaptureManager) -> (r: bool)
    ensures
        r == (manager.slot is Active),
{
    manager.is_active()
}

/// A minimal structural WAV header: at least 12 bytes, starting with the
/// ASCII tag "RIFF" and carrying "WAVE" at offset 8.
pub open spec fn spec_is_wav_header(b: Seq<u8>) -> bool {
    b.len() >= 12 && b[0] == 0x52u8 && b[1] == 0x49u8 && b[2] == 0x46u8 && b[3] == 0x46u8 && b[8]
        == 0x57u8 && b[9] == 0x41u8 && b[10] == 0x56u8 && b[11] == 0x45u8
}

/// A finalized output must carry a WAV header and at least this many bytes
/// (the canonical header alone is 44 bytes; anything shorter holds no
/// samples).
pub const MIN_WAV_OUTPUT_LEN: usize = 44;

/// A captured output is accepted once it has a WAV header and a
/// non-trivial length.
pub open spec fn spec_wav_ready(b: Seq<u8>) -> bool {
    spec_is_wav_header(b) && b.len() >= MIN_WAV_OUTPUT_LEN
}

/// Does the byte sequence begin with a minimal WAV header?
pub fn is_wav_header(bytes: &[u8]) -> (r: bool)
    ensures
        r == spec_is_wav_header(bytes@),
{
    bytes.len() >= 12 && bytes[0] == 0x52 && bytes[1] == 0x49 && bytes[2] == 0x46 && bytes[3]
        == 0x46 && bytes[8] == 0x57 && bytes[9] == 0x41 && bytes[10] == 0x56 && bytes[11] == 0x45
}

/// The lower-case hex digit for a value below 16.
pub open spec fn spec_hex_digit(n: u8) -> char {
    if n == 0 {
        '0'
    } else if n == 1 {
        '1'
    } else if n == 2 {
        '2'
    } else if n == 3 {
        '3'
    } else if n == 4 {
        '4'
    } else if n == 5 {
        '5'
    } else if n == 6 {
        '6'
    } else if n == 7 {
        '7'
    } else if n == 8 {
        '8'
    } else if n == 9 {
        '9'
    } else if n == 10 {
        'a'
    } else if n == 11 {
        'b'
    } else if n == 12 {
        'c'
    } else if n == 13 {
        'd'
    } else if n == 14 {
        'e'
    } else {
        'f'
    }
}

/// Two lower-case hex digits for one byte.
pub open spec fn spec_hex_byte(b: u8) -> Seq<char> {
    seq![spec_hex_digit(b / 16), spec_hex_digit(b % 16)]
}

/// The first `n` bytes rendered as space-separated hex pairs.
pub open spec fn spec_hex_prefix(bytes: Seq<u8>, n: int) -> Seq<char>
    decreases n,
{
    if n <= 0 || bytes.len() == 0 {
        Seq::empty()
    } else if n == 1 {
        spec_hex_byte(bytes[0])
    } else if n > bytes.len() {
        spec_hex_prefix(bytes, bytes.len() as int)
    } else {
        spec_hex_prefix(bytes, n - 1) + seq![' '] + spec_hex_byte(bytes[n - 1])
    }
}

fn hex_digit_str(n: u8) -> (s: &'static str)
    requires
        n < 16,
    ensures
        s@ == seq![spec_hex_digit(n)],
{
    proof {
        reveal_strlit("0");
        reveal_strlit("1");
        reveal_strlit("2");
        reveal_strlit("3");
        reveal_strlit("4");
        reveal_strlit("5");
        reveal_strlit("6");
        reveal_strlit("7");
        reveal_strlit("8");
        reveal_strlit("9");
        reveal_strlit("a");
        reveal_strlit("b");
        reveal_strlit("c");
        reveal_strlit("d");
        reveal_strlit("e");
        reveal_strlit("f");
    }
    let s = match n {
        0 => "0",
        1 => "1",
        2 => "2",
        3 => "3",
        4 => "4",
        5 => "5",
        6 => "6",
        7 => "7",
        8 => "8",
        9 => "9",
        10 => "a",
        11 => "b",
        12 => "c",
        13 => "d",
        14 => "e",
        _ => "f",
    };
    proof {
        assert(s@ =~= seq![spec_hex_digit(n)]);
    }
    s
}

/// Render the first `max_len` bytes (or all of them, if fewer) as
/// space-separated lower-case hex pairs, for diagnostics.
pub fn bytes_prefix_hex(bytes: &[u8], max_len: usize) -> (r: String)
    ensures
        r@ == spec_hex_prefix(bytes@, max_len as int),
{
    let n = if bytes.len() < max_len {
        bytes.len()
    } else {
        max_len
    };
    proof {
        assert(spec_hex_prefix(bytes@, max_len as int) == spec_hex_prefix(bytes@, n as int));
    }
    let mut out = String::new();
    let mut i: usize = 0;
    while i < n
        invariant
            i <= n,
            n <= bytes.len(),
            out@ == spec_hex_prefix(bytes@, i as int),
        decreases n - i,
    {
        if i > 0 {
            out.append(" ");
            proof {
                reveal_strlit(" ");
                assert(" "@ =~= seq![' ']);
            }
        }
        let b = bytes[i];
        let hi = b / 16;
        let lo = b % 16;
        out.append(hex_digit_str(hi));
        out.append(hex_digit_str(lo));
        proof {
            assert(out@ =~= spec_hex_prefix(bytes@, i + 1));
        }
        i = i + 1;
    }
    out
}

/// How many times the finalized output is polled before giving up.
pub const FINALIZE_MAX_ATTEMPTS: usize = 25;

/// How long the caller waits between two polls, in milliseconds.
pub const FINALIZE_POLL_INTERVAL_MS: u64 = 20;

/// How many leading bytes the diagnostics keep as a hex dump.
pub const PREFIX_HEX_BYTES: usize = 16;

/// One poll observation: the bytes read from the output location, or
/// nothing when the file could not be read yet.
pub open spec fn spec_observed_ready(observed: Option<Vec<u8>>) -> bool {
    observed matches Some(b) && spec_wav_ready(b@)
}

/// Bounded retry-polling of the finalized output. The caller reads the
/// output location once per attempt, hands the observation to `feed`, and
/// sleeps `FINALIZE_POLL_INTERVAL_MS` between attempts. The poll keeps the
/// last observed length and leading bytes so an exhausted run can report
/// them.
#[derive(Debug)]
pub struct FinalizePoll {
    pub attempts: usize,
    pub last_len: usize,
    pub last_prefix: String,
}

/// What one poll step decided.
#[derive(Debug)]
pub enum PollVerdict {
    /// The output is structurally valid; these are its bytes.
    Accepted(Vec<u8>),
    /// Not valid yet; read again after the poll interval.
    Retry,
    /// All attempts exhausted; carries the `Timeout` error to surface.
    GaveUp(DictationError),
}

impl FinalizePoll {
    /// A poll that has observed nothing yet.
    pub fn new() -> (r: Self)
        ensures
            r.attempts == 0,
            r.last_len == 0,
            r.last_prefix@ == Seq::<char>::empty(),
    {
        FinalizePoll { attempts: 0, last_len: 0, last_prefix: String::new() }
    }

    /// Feed one observation. Accepts the bytes as soon as they carry a
    /// valid minimal header and a non-trivial length; otherwise retries
    /// until the attempts are exhausted and then gives up with a `Timeout`
    /// carrying the last observed length and leading bytes.
    pub fn feed(&mut self, observed: Option<Vec<u8>>) -> (v: PollVerdict)
        requires
            old(self).attempts < FINALIZE_MAX_ATTEMPTS,
        ensures
            final(self).attempts == old(self).attempts + 1,
            observed matches Some(b) ==> final(self).last_len == b.len()
                && final(self).last_prefix@ == spec_hex_prefix(b@, PREFIX_HEX_BYTES as int),
            observed is None ==> final(self).last_len == old(self).last_len
                && final(self).last_prefix@ == old(self).last_prefix@,
            spec_observed_ready(observed) ==> (v matches PollVerdict::Accepted(out) && observed
                matches Some(b) && out@ == b@),
            !spec_observed_ready(observed) && old(self).attempts + 1 < FINALIZE_MAX_ATTEMPTS
                ==> v is Retry,
            !spec_observed_ready(observed) && old(self).attempts + 1 == FINALIZE_MAX_ATTEMPTS ==> (
            v matches PollVerdict::GaveUp(e) && e matches DictationError::Timeout {
                last_len,
                last_prefix,
            } && last_len == final(self).last_len && last_prefix@ == final(self).last_prefix@),
    {
        self.attempts = self.attempts + 1;
        match observed {
            Some(b) => {
                self.last_len = b.len();
                self.last_prefix = bytes_prefix_hex(b.as_slice(), PREFIX_HEX_BYTES);
                if is_wav_header(b.as_slice()) && b.len() >= MIN_WAV_OUTPUT_LEN {
                    return PollVerdict::Accepted(b);
                }
            },
            None => {},
        }
        if self.attempts == FINALIZE_MAX_ATTEMPTS {
            PollVerdict::GaveUp(
                DictationError::Timeout {
                    last_len: self.last_len,
                    last_prefix: self.last_prefix.clone(),
                },
            )
        } else {
            PollVerdict::Retry
        }
    }
}

/// How many of the given reads fall inside the poll window.
pub open spec fn spec_poll_window(len: int) -> int {
    if len <= FINALIZE_MAX_ATTEMPTS {
        len
    } else {
        FINALIZE_MAX_ATTEMPTS as int
    }
}

/// Whether the `i`-th read observed a structurally valid output.
pub open spec fn spec_ready_at(reads: Seq<Option<Vec<u8>>>, i: int) -> bool {
    0 <= i < reads.len() && spec_observed_ready(reads[i])
}

/// The length of the last successful read among the first `n`, or 0 when
/// every read failed.
pub open spec fn spec_last_observed_len(reads: Seq<Option<Vec<u8>>>, n: int) -> int
    decreases n,
{
    if n <= 0 || n > reads.len() {
        0
    } else {
        match reads[n - 1] {
            Some(b) => b.len() as int,
            None => spec_last_observed_len(reads, n - 1),
        }
    }
}

/// The hex dump of the last successful read among the first `n`, or the
/// empty string when every read failed.
pub open spec fn spec_last_observed_prefix(reads: Seq<Option<Vec<u8>>>, n: int) -> Seq<char>
    decreases n,
{
    if n <= 0 || n > reads.len() {
        Seq::empty()
    } else {
        match reads[n - 1] {
            Some(b) => spec_hex_prefix(b@, PREFIX_HEX_BYTES as int),
            None => spec_last_observed_prefix(reads, n - 1),
        }
    }
}

/// The whole finalization poll over a fixed list of observations: the
/// result is the first structurally valid read inside the window, or a
/// `Timeout` carrying the last observed length and leading bytes when no
/// read in the window is valid.
pub fn finalize_output(reads: &Vec<Option<Vec<u8>>>) -> (r: Result<Vec<u8>, DictationError>)
    ensures
        r matches Ok(out) ==> exists|i: int|
            0 <= i < spec_poll_window(reads@.len() as int) && spec_ready_at(reads@, i) && (forall|
                j: int,
            |
                0 <= j < i ==> !spec_ready_at(reads@, j)) && (reads@[i] matches Some(b) && out@
                == b@),
        (exists|i: int|
            0 <= i < spec_poll_window(reads@.len() as int) && spec_ready_at(reads@, i)) ==> r
            is Ok,
        r matches Err(e) ==> e matches DictationError::Timeout { last_len, last_prefix }
            && last_len == spec_last_observed_len(reads@, spec_poll_window(reads@.len() as int))
            && last_prefix@ == spec_last_observed_prefix(
            reads@,
            spec_poll_window(reads@.len() as int),
        ),
{
    let n = if reads.len() < FINALIZE_MAX_ATTEMPTS {
        reads.len()
    } else {
        FINALIZE_MAX_ATTEMPTS
    };
    let mut last_len: usize = 0;
    let mut last_prefix = String::new();
    let mut i: usize = 0;
    while i < n
        invariant
            i <= n,
            n <= reads.len(),
            n == spec_poll_window(reads@.len() as int),
            forall|j: int| 0 <= j < i ==> !spec_ready_at(reads@, j),
            last_len == spec_last_observed_len(reads@, i as int),
            last_prefix@ == spec_last_observed_prefix(reads@, i as int),
        decreases n - i,
    {
        match &reads[i] {
            Some(b) => {
                last_len = b.len();
                last_prefix = bytes_prefix_hex(b.as_slice(), PREFIX_HEX_BYTES);
                if is_wav_header(b.as_slice()) && b.len() >= MIN_WAV_OUTPUT_LEN {
                    let out = b.clone();
                    proof {
                        assert(out@ =~= b@);
                        assert(spec_ready_at(reads@, i as int));
                    }
                    return Ok(out);
                }
            },
            None => {},
        }
        i = i + 1;
    }
    Err(DictationError::Timeout { last_len, last_prefix })
}

} // verus!
