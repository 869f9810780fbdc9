//! Capturing the selected text through a synthetic copy.
//!
//! The capture refuses to run without accessibility access or over a secure field. It
//! snapshots the clipboard, posts Command-C, waits for the clipboard to change within a
//! deadline, reads the plain text, retries once when the copy came back empty, and finally
//! restores the snapshot unless something else changed the clipboard meanwhile.
//!
//! The protocol is the state machine [`CapturePhase`]; [`SelectionCapture::capture`] runs it
//! against the platform's clipboard, accessibility, copy and clock services.
use vstd::prelude::*;

use crate::accessibility::{AccessibilityStatus, FocusedElementSecurity};
use crate::capture::{CaptureFailure, CapturedText, TextCapture};
use crate::pasteboard::{PasteboardRestoreOutcome, PasteboardSnapshot, PasteboardSnapshotError};

verus! {

/// How long the copy may take to reach the clipboard, in milliseconds.
pub const COPY_TIMEOUT_MS: u64 = 500;

/// How long to wait before copying again after an empty copy, in milliseconds.
pub const EMPTY_COPY_RETRY_DELAY_MS: u64 = 50;

/// How often the clipboard is polled while waiting for the copy, in milliseconds.
pub const POLL_INTERVAL_MS: u64 = 10;

/// A snapshot whose change count the capture compares with the clipboard's.
pub trait CaptureSnapshot {
    /// Whether `count` may be the snapshot's change count; any, unless the snapshot says.
    open spec fn counted(&self, count: i64) -> bool {
        true
    }

    fn change_count(&self) -> (r: i64)
        ensures
            self.counted(r),
    ;
}

impl CaptureSnapshot for PasteboardSnapshot {
    /// The change count at which the snapshot was taken.
    open spec fn counted(&self, count: i64) -> bool {
        count == self.spec_change_count()
    }

    /// The change count at which the snapshot was taken.
    fn change_count(&self) -> (r: i64)
        ensures
            r == self.spec_change_count(),
    {
        PasteboardSnapshot::change_count(self)
    }
}

/// The characters of an optional text.
pub open spec fn text_view(text: Option<String>) -> Option<Seq<char>> {
    match text {
        Some(t) => Some(t@),
        None => None,
    }
}

/// The clipboard, as the capture uses it.
///
/// Each answer is one its `gives_*`, `counts` and `restores` allow; a clipboard that does
/// not say otherwise may give any answer.
pub trait CapturePasteboard {
    type Snapshot: CaptureSnapshot;

    /// Whether `answer` may be what taking a snapshot gives.
    open spec fn gives_snapshot(&self, answer: Result<Self::Snapshot, PasteboardSnapshotError>) -> bool {
        true
    }

    fn snapshot(&self) -> (r: Result<Self::Snapshot, PasteboardSnapshotError>)
        ensures
            self.gives_snapshot(r),
    ;

    /// Whether `count` may be the clipboard's change count when asked.
    open spec fn counts(&self, count: i64) -> bool {
        true
    }

    fn change_count(&self) -> (r: i64)
        ensures
            self.counts(r),
    ;

    /// Whether `answer` may be the clipboard's plain text when asked.
    open spec fn gives_text(&self, answer: Option<Seq<char>>) -> bool {
        true
    }

    fn plain_text(&self) -> (r: Option<String>)
        ensures
            self.gives_text(text_view(r)),
    ;

    /// Whether `answer` may be what restoring `snapshot` over `expected_change_count` gives.
    open spec fn restores(
        &self,
        snapshot: Self::Snapshot,
        expected_change_count: i64,
        answer: Result<PasteboardRestoreOutcome, PasteboardSnapshotError>,
    ) -> bool {
        true
    }

    fn restore(&self, snapshot: &Self::Snapshot, expected_change_count: i64) -> (r: Result<
        PasteboardRestoreOutcome,
        PasteboardSnapshotError,
    >)
        ensures
            self.restores(*snapshot, expected_change_count, r),
    ;
}

/// Posts the copy shortcut to the frontmost application.
pub trait CopyPoster {
    /// Whether `answer` may be what posting the copy gives; any, unless the poster says.
    open spec fn posts(&self, answer: Result<(), CaptureFailure>) -> bool {
        true
    }

    fn post_copy(&self) -> (r: Result<(), CaptureFailure>)
        ensures
            self.posts(r),
    ;
}

/// Time, in milliseconds since an instant.
pub trait Clock {
    type Instant: Copy;

    fn now(&self) -> Self::Instant;

    /// Whether `answer` may be the milliseconds elapsed since `instant`; any, unless the
    /// clock says.
    open spec fn elapses(&self, instant: Self::Instant, answer: u64) -> bool {
        true
    }

    fn elapsed_since(&self, instant: Self::Instant) -> (r: u64)
        ensures
            self.elapses(instant, r),
    ;

    fn sleep(&self, milliseconds: u64);
}

/// Where a capture stands. `baseline` is the change count a copy must move away from;
/// `copied` is the change count the copy produced; `retry` marks the second copy.
#[derive(Clone, Copy, Debug, PartialEq, Eq)]
pub enum CapturePhase {
    CheckTrust,
    CheckSecurity,
    Snapshot,
    PostCopy { baseline: i64, retry: bool },
    /// Has the clipboard changed? `polls` is how many more pauses are allowed.
    WaitForCopy { baseline: i64, retry: bool, polls: u64 },
    CheckDeadline { baseline: i64, retry: bool, polls: u64 },
    Pause { baseline: i64, retry: bool, polls: u64, duration: u64 },
    ReadSelection { copied: i64, retry: bool },
    CheckRetryTime { copied: i64 },
    RetryPause { copied: i64, duration: u64 },
    CheckOwnerBeforeRetry { copied: i64 },
    CheckTimeBeforeRetry { copied: i64 },
    /// Is the clipboard still what the copy left? `outcome` is what the capture will report.
    CheckOwner { copied: i64, outcome: Result<(), CaptureFailure> },
    Restore { copied: i64, outcome: Result<(), CaptureFailure> },
    Done(Result<(), CaptureFailure>),
}

/// What the last request of the protocol gave.
#[derive(Clone, Copy, Debug, PartialEq, Eq)]
pub enum CaptureObservation {
    Trusted(bool),
    Security(FocusedElementSecurity),
    /// The snapshot's change count, or none when no snapshot could be taken.
    Snapshotted(Option<i64>),
    Posted(Result<(), CaptureFailure>),
    ChangeCount(i64),
    Elapsed(u64),
    Slept,
    /// Whether the clipboard's text was a selection, and why not.
    Read(Result<(), CaptureFailure>),
    Restored(bool),
}

/// How many pauses the wait for a copy may take: enough for a clock that advances by the
/// pauses to reach the deadline.
pub open spec fn spec_poll_limit(timeout: u64, poll: u64) -> u64 {
    let quotient = timeout / (if poll == 0 { 1u64 } else { poll });
    if quotient < u64::MAX {
        (quotient + 1) as u64
    } else {
        u64::MAX
    }
}

/// The smaller of two durations.
pub open spec fn min_u64(a: u64, b: u64) -> u64 {
    if a < b {
        a
    } else {
        b
    }
}

/// One step of the capture protocol. An observation that does not answer the phase's
/// request ends the capture with the clipboard unavailable.
pub open spec fn spec_capture_step(
    phase: CapturePhase,
    timeout: u64,
    poll: u64,
    observation: CaptureObservation,
) -> CapturePhase {
    match (phase, observation) {
        (CapturePhase::CheckTrust, CaptureObservation::Trusted(trusted)) => if trusted {
            CapturePhase::CheckSecurity
        } else {
            CapturePhase::Done(Err(CaptureFailure::PermissionDenied))
        },
        (CapturePhase::CheckSecurity, CaptureObservation::Security(security)) => match security {
            FocusedElementSecurity::NotSecure => CapturePhase::Snapshot,
            FocusedElementSecurity::Secure => CapturePhase::Done(Err(CaptureFailure::SecureField)),
            FocusedElementSecurity::Unknown => CapturePhase::Done(Err(CaptureFailure::FieldSecurityUnavailable)),
        },
        (CapturePhase::Snapshot, CaptureObservation::Snapshotted(count)) => match count {
            Some(c) => CapturePhase::PostCopy { baseline: c, retry: false },
            None => CapturePhase::Done(Err(CaptureFailure::ClipboardUnavailable)),
        },
        (CapturePhase::PostCopy { baseline, retry }, CaptureObservation::Posted(posted)) => match posted {
            Ok(()) => CapturePhase::WaitForCopy { baseline, retry, polls: spec_poll_limit(timeout, poll) },
            Err(e) => if retry {
                CapturePhase::CheckOwner { copied: baseline, outcome: Err(e) }
            } else {
                CapturePhase::Done(Err(e))
            },
        },
        (CapturePhase::WaitForCopy { baseline, retry, polls }, CaptureObservation::ChangeCount(c)) => if c
            != baseline {
            CapturePhase::ReadSelection { copied: c, retry }
        } else {
            CapturePhase::CheckDeadline { baseline, retry, polls }
        },
        (CapturePhase::CheckDeadline { baseline, retry, polls }, CaptureObservation::Elapsed(elapsed)) => if elapsed
            >= timeout || polls == 0 {
            if retry {
                CapturePhase::CheckOwner { copied: baseline, outcome: Err(CaptureFailure::NoSelection) }
            } else {
                CapturePhase::Done(Err(CaptureFailure::TimedOut))
            }
        } else {
            CapturePhase::Pause { baseline, retry, polls, duration: min_u64(poll, (timeout - elapsed) as u64) }
        },
        (CapturePhase::Pause { baseline, retry, polls, duration }, CaptureObservation::Slept) => if polls > 0 {
            CapturePhase::WaitForCopy { baseline, retry, polls: (polls - 1) as u64 }
        } else {
            CapturePhase::Done(Err(CaptureFailure::ClipboardUnavailable))
        },
        (CapturePhase::ReadSelection { copied, retry }, CaptureObservation::Read(read)) => if read == Err::<
            (),
            CaptureFailure,
        >(CaptureFailure::NoSelection) && !retry {
            CapturePhase::CheckRetryTime { copied }
        } else {
            CapturePhase::CheckOwner { copied, outcome: read }
        },
        (CapturePhase::CheckRetryTime { copied }, CaptureObservation::Elapsed(elapsed)) => if elapsed < timeout {
            CapturePhase::RetryPause {
                copied,
                duration: min_u64(EMPTY_COPY_RETRY_DELAY_MS, (timeout - elapsed) as u64),
            }
        } else {
            CapturePhase::CheckOwner { copied, outcome: Err(CaptureFailure::NoSelection) }
        },
        (CapturePhase::RetryPause { copied, duration }, CaptureObservation::Slept) => CapturePhase::CheckOwnerBeforeRetry {
            copied,
        },
        (CapturePhase::CheckOwnerBeforeRetry { copied }, CaptureObservation::ChangeCount(c)) => if c != copied {
            CapturePhase::Done(Err(CaptureFailure::Cancelled))
        } else {
            CapturePhase::CheckTimeBeforeRetry { copied }
        },
        (CapturePhase::CheckTimeBeforeRetry { copied }, CaptureObservation::Elapsed(elapsed)) => if elapsed
            < timeout {
            CapturePhase::PostCopy { baseline: copied, retry: true }
        } else {
            CapturePhase::CheckOwner { copied, outcome: Err(CaptureFailure::NoSelection) }
        },
        (CapturePhase::CheckOwner { copied, outcome }, CaptureObservation::ChangeCount(c)) => if c != copied {
            CapturePhase::Done(Err(CaptureFailure::Cancelled))
        } else {
            CapturePhase::Restore { copied, outcome }
        },
        (CapturePhase::Restore { copied, outcome }, CaptureObservation::Restored(restored)) => if restored {
            CapturePhase::Done(outcome)
        } else {
            CapturePhase::Done(Err(CaptureFailure::ClipboardUnavailable))
        },
        (CapturePhase::Done(r), _) => CapturePhase::Done(r),
        _ => CapturePhase::Done(Err(CaptureFailure::ClipboardUnavailable)),
    }
}

/// The waits of a phase never allow more pauses than the limit.
pub open spec fn capture_phase_within(phase: CapturePhase, limit: u64) -> bool {
    match phase {
        CapturePhase::WaitForCopy { polls, .. } => polls <= limit,
        CapturePhase::CheckDeadline { polls, .. } => polls <= limit,
        CapturePhase::Pause { polls, .. } => polls <= limit,
        _ => true,
    }
}

/// How many steps a phase is at most from the end, when waits allow `limit` pauses.
pub open spec fn capture_rank(phase: CapturePhase, limit: u64) -> nat {
    let l = limit as nat;
    match phase {
        CapturePhase::Done(_) => 0,
        CapturePhase::Restore { .. } => 1,
        CapturePhase::CheckOwner { .. } => 2,
        CapturePhase::ReadSelection { retry, .. } => if retry {
            3
        } else {
            3 * l + 12
        },
        CapturePhase::WaitForCopy { retry, polls, .. } => if retry {
            4 + 3 * (polls as nat) + 2
        } else {
            3 * l + 13 + 3 * (polls as nat) + 2
        },
        CapturePhase::CheckDeadline { retry, polls, .. } => if retry {
            4 + 3 * (polls as nat) + 1
        } else {
            3 * l + 13 + 3 * (polls as nat) + 1
        },
        CapturePhase::Pause { retry, polls, .. } => if retry {
            4 + 3 * (polls as nat)
        } else {
            3 * l + 13 + 3 * (polls as nat)
        },
        CapturePhase::PostCopy { retry, .. } => if retry {
            3 * l + 7
        } else {
            6 * l + 16
        },
        CapturePhase::CheckTimeBeforeRetry { .. } => 3 * l + 8,
        CapturePhase::CheckOwnerBeforeRetry { .. } => 3 * l + 9,
        CapturePhase::RetryPause { .. } => 3 * l + 10,
        CapturePhase::CheckRetryTime { .. } => 3 * l + 11,
        CapturePhase::Snapshot => 6 * l + 17,
        CapturePhase::CheckSecurity => 6 * l + 19,
        CapturePhase::CheckTrust => 6 * l + 20,
    }
}

/// One step of the capture protocol.
pub fn capture_step(phase: CapturePhase, timeout: u64, poll: u64, observation: CaptureObservation) -> (r: CapturePhase)
    ensures
        r == spec_capture_step(phase, timeout, poll, observation),
{
    match (phase, observation) {
        (CapturePhase::CheckTrust, CaptureObservation::Trusted(trusted)) => {
            if trusted {
                CapturePhase::CheckSecurity
            } else {
                CapturePhase::Done(Err(CaptureFailure::PermissionDenied))
            }
        },
        (CapturePhase::CheckSecurity, CaptureObservation::Security(security)) => match security {
            FocusedElementSecurity::NotSecure => CapturePhase::Snapshot,
            FocusedElementSecurity::Secure => CapturePhase::Done(Err(CaptureFailure::SecureField)),
            FocusedElementSecurity::Unknown => CapturePhase::Done(Err(CaptureFailure::FieldSecurityUnavailable)),
        },
        (CapturePhase::Snapshot, CaptureObservation::Snapshotted(count)) => match count {
            Some(c) => CapturePhase::PostCopy { baseline: c, retry: false },
            None => CapturePhase::Done(Err(CaptureFailure::ClipboardUnavailable)),
        },
        (CapturePhase::PostCopy { baseline, retry }, CaptureObservation::Posted(posted)) => match posted {
            Ok(()) => CapturePhase::WaitForCopy { baseline, retry, polls: poll_limit(timeout, poll) },
            Err(e) => {
                if retry {
                    CapturePhase::CheckOwner { copied: baseline, outcome: Err(e) }
                } else {
                    CapturePhase::Done(Err(e))
                }
            },
        },
        (CapturePhase::WaitForCopy { baseline, retry, polls }, CaptureObservation::ChangeCount(c)) => {
            if c != baseline {
                CapturePhase::ReadSelection { copied: c, retry }
            } else {
                CapturePhase::CheckDeadline { baseline, retry, polls }
            }
        },
        (CapturePhase::CheckDeadline { baseline, retry, polls }, CaptureObservation::Elapsed(elapsed)) => {
            if elapsed >= timeout || polls == 0 {
                if retry {
                    CapturePhase::CheckOwner { copied: baseline, outcome: Err(CaptureFailure::NoSelection) }
                } else {
                    CapturePhase::Done(Err(CaptureFailure::TimedOut))
                }
            } else {
                let remaining = timeout - elapsed;
                CapturePhase::Pause { baseline, retry, polls, duration: if poll < remaining { poll } else { remaining } }
            }
        },
        (CapturePhase::Pause { baseline, retry, polls, duration }, CaptureObservation::Slept) => {
            if polls > 0 {
                CapturePhase::WaitForCopy { baseline, retry, polls: polls - 1 }
            } else {
                CapturePhase::Done(Err(CaptureFailure::ClipboardUnavailable))
            }
        },
        (CapturePhase::ReadSelection { copied, retry }, CaptureObservation::Read(read)) => {
            let empty = match read {
                Err(CaptureFailure::NoSelection) => true,
                _ => false,
            };
            if empty && !retry {
                CapturePhase::CheckRetryTime { copied }
            } else {
                CapturePhase::CheckOwner { copied, outcome: read }
            }
        },
        (CapturePhase::CheckRetryTime { copied }, CaptureObservation::Elapsed(elapsed)) => {
            if elapsed < timeout {
                let remaining = timeout - elapsed;
                CapturePhase::RetryPause {
                    copied,
                    duration: if EMPTY_COPY_RETRY_DELAY_MS < remaining {
                        EMPTY_COPY_RETRY_DELAY_MS
                    } else {
                        remaining
                    },
                }
            } else {
                CapturePhase::CheckOwner { copied, outcome: Err(CaptureFailure::NoSelection) }
            }
        },
        (CapturePhase::RetryPause { copied, duration }, CaptureObservation::Slept) => CapturePhase::CheckOwnerBeforeRetry {
            copied,
        },
        (CapturePhase::CheckOwnerBeforeRetry { copied }, CaptureObservation::ChangeCount(c)) => {
            if c != copied {
                CapturePhase::Done(Err(CaptureFailure::Cancelled))
            } else {
                CapturePhase::CheckTimeBeforeRetry { copied }
            }
        },
        (CapturePhase::CheckTimeBeforeRetry { copied }, CaptureObservation::Elapsed(elapsed)) => {
            if elapsed < timeout {
                CapturePhase::PostCopy { baseline: copied, retry: true }
            } else {
                CapturePhase::CheckOwner { copied, outcome: Err(CaptureFailure::NoSelection) }
            }
        },
        (CapturePhase::CheckOwner { copied, outcome }, CaptureObservation::ChangeCount(c)) => {
            if c != copied {
                CapturePhase::Done(Err(CaptureFailure::Cancelled))
            } else {
                CapturePhase::Restore { copied, outcome }
            }
        },
        (CapturePhase::Restore { copied, outcome }, CaptureObservation::Restored(restored)) => {
            if restored {
                CapturePhase::Done(outcome)
            } else {
                CapturePhase::Done(Err(CaptureFailure::ClipboardUnavailable))
            }
        },
        (CapturePhase::Done(r), _) => CapturePhase::Done(r),
        _ => CapturePhase::Done(Err(CaptureFailure::ClipboardUnavailable)),
    }
}

/// How many pauses the wait for a copy may take.
pub fn poll_limit(timeout: u64, poll: u64) -> (r: u64)
    ensures
        r == spec_poll_limit(timeout, poll),
{
    let divisor: u64 = if poll == 0 { 1 } else { poll };
    let quotient = timeout / divisor;
    if quotient < u64::MAX {
        quotient + 1
    } else {
        u64::MAX
    }
}

/// Every step brings a capture closer to its end, so every capture finishes.
pub proof fn law_capture_steps_progress(phase: CapturePhase, timeout: u64, poll: u64, observation: CaptureObservation)
    requires
        !(phase is Done),
        capture_phase_within(phase, spec_poll_limit(timeout, poll)),
    ensures
        capture_phase_within(spec_capture_step(phase, timeout, poll, observation), spec_poll_limit(timeout, poll)),
        capture_rank(spec_capture_step(phase, timeout, poll, observation), spec_poll_limit(timeout, poll))
            < capture_rank(phase, spec_poll_limit(timeout, poll)),
{
}

/// Without accessibility access, or over a secure or unverifiable field, the capture ends
/// before touching the clipboard.
pub proof fn law_refusals_leave_the_clipboard_alone(timeout: u64, poll: u64, security: FocusedElementSecurity)
    ensures
        spec_capture_step(CapturePhase::CheckTrust, timeout, poll, CaptureObservation::Trusted(false))
            == CapturePhase::Done(Err(CaptureFailure::PermissionDenied)),
        security != FocusedElementSecurity::NotSecure ==> spec_capture_step(
            CapturePhase::CheckSecurity,
            timeout,
            poll,
            CaptureObservation::Security(security),
        ) is Done,
{
}

/// The clipboard is restored only when it still holds what the copy left there.
pub proof fn law_restore_only_over_the_copy(
    phase: CapturePhase,
    timeout: u64,
    poll: u64,
    observation: CaptureObservation,
    copied: i64,
    outcome: Result<(), CaptureFailure>,
)
    requires
        spec_capture_step(phase, timeout, poll, observation) == (CapturePhase::Restore { copied, outcome }),
    ensures
        phase == (CapturePhase::CheckOwner { copied, outcome }),
        observation == CaptureObservation::ChangeCount(copied),
{
}

/// A capture succeeds only after the clipboard was restored.
pub proof fn law_success_only_after_restoring(phase: CapturePhase, timeout: u64, poll: u64, observation: CaptureObservation)
    requires
        !(phase is Done),
        spec_capture_step(phase, timeout, poll, observation) matches CapturePhase::Done(outcome) && outcome is Ok,
    ensures
        phase matches CapturePhase::Restore { outcome, .. } && outcome is Ok,
        observation == CaptureObservation::Restored(true),
{
}

/// The copy is posted a second time only after the first copy came back empty, before the
/// deadline, and while the clipboard still held that copy; there is no third time.
pub proof fn law_second_copy_only_after_an_empty_one(
    phase: CapturePhase,
    timeout: u64,
    poll: u64,
    observation: CaptureObservation,
    baseline: i64,
    copied: i64,
)
    ensures
        spec_capture_step(phase, timeout, poll, observation) == (CapturePhase::PostCopy { baseline, retry: true })
            ==> phase == (CapturePhase::CheckTimeBeforeRetry { copied: baseline }) && (observation matches CaptureObservation::Elapsed(e) && e < timeout),
        spec_capture_step(phase, timeout, poll, observation) == (CapturePhase::CheckTimeBeforeRetry { copied })
            ==> phase == (CapturePhase::CheckOwnerBeforeRetry { copied }) && observation == CaptureObservation::ChangeCount(copied),
        spec_capture_step(phase, timeout, poll, observation) == (CapturePhase::CheckRetryTime { copied })
            ==> phase == (CapturePhase::ReadSelection { copied, retry: false }) && observation
            == CaptureObservation::Read(Err(CaptureFailure::NoSelection)),
        (!(phase is Done) && (spec_capture_step(phase, timeout, poll, observation) matches CapturePhase::PostCopy { .. }))
            ==> (phase == CapturePhase::Snapshot || phase is CheckTimeBeforeRetry),
{
}

/// A copy that never reaches the clipboard times out without restoring it.
pub proof fn law_unchanged_clipboard_times_out(baseline: i64, timeout: u64, poll: u64, polls: u64, elapsed: u64)
    requires
        elapsed >= timeout,
    ensures
        spec_capture_step(
            CapturePhase::CheckDeadline { baseline, retry: false, polls },
            timeout,
            poll,
            CaptureObservation::Elapsed(elapsed),
        ) == CapturePhase::Done(Err(CaptureFailure::TimedOut)),
{
}

/// The selection read from the clipboard's plain text: none is unsupported content, and a
/// blank one is no selection.
pub fn selection_from_plain_text(text: Option<String>) -> (r: Result<CapturedText, CaptureFailure>)
    ensures
        text is None ==> r == Err::<CapturedText, CaptureFailure>(CaptureFailure::UnsupportedContent),
        text matches Some(t) ==> (crate::text::is_blank(t@) ==> r == Err::<CapturedText, CaptureFailure>(
            CaptureFailure::NoSelection,
        )) && (!crate::text::is_blank(t@) ==> (r matches Ok(c) && c@ == (t@, None::<Seq<char>>))),
{
    match text {
        Some(t) => CapturedText::new(t.as_str()),
        None => Err(CaptureFailure::UnsupportedContent),
    }
}

/// The outcome of a read, without the text.
fn read_outcome(read: &Result<CapturedText, CaptureFailure>) -> (r: Result<(), CaptureFailure>)
    ensures
        read is Ok ==> r is Ok,
        read matches Err(e) ==> r == Err::<(), CaptureFailure>(*e),
{
    match read {
        Ok(_) => Ok(()),
        Err(e) => Err(*e),
    }
}

/// The phase the capture protocol reaches from its start on a sequence of observations.
pub open spec fn spec_run_capture(timeout: u64, poll: u64, observations: Seq<CaptureObservation>) -> CapturePhase
    decreases observations.len(),
{
    if observations.len() == 0 {
        CapturePhase::CheckTrust
    } else {
        spec_capture_step(
            spec_run_capture(timeout, poll, observations.drop_last()),
            timeout,
            poll,
            observations.last(),
        )
    }
}

/// A run of the protocol that ends in success restored the clipboard: some observation
/// was a successful restore, made while the protocol held a successful read.
pub proof fn law_successful_runs_restored_the_clipboard(timeout: u64, poll: u64, observations: Seq<CaptureObservation>)
    requires
        spec_run_capture(timeout, poll, observations) matches CapturePhase::Done(outcome) && outcome is Ok,
    ensures
        exists|k: int|
            0 < k <= observations.len() && observations[k - 1] == CaptureObservation::Restored(true)
                && (#[trigger] spec_run_capture(timeout, poll, observations.take(k - 1)) matches CapturePhase::Restore {
                outcome,
                ..
            } && outcome is Ok),
    decreases observations.len(),
{
    let before = observations.drop_last();
    let previous = spec_run_capture(timeout, poll, before);
    if previous is Done {
        law_successful_runs_restored_the_clipboard(timeout, poll, before);
        let k = choose|k: int|
            0 < k <= before.len() && before[k - 1] == CaptureObservation::Restored(true)
                && (#[trigger] spec_run_capture(timeout, poll, before.take(k - 1)) matches CapturePhase::Restore {
                outcome,
                ..
            } && outcome is Ok);
        assert(before.take(k - 1) =~= observations.take(k - 1));
        assert(before[k - 1] == observations[k - 1]);
    } else {
        law_success_only_after_restoring(previous, timeout, poll, observations.last());
        assert(observations.take(observations.len() - 1) =~= before);
        assert(spec_run_capture(timeout, poll, observations.take(observations.len() - 1)) == previous);
    }
}

/// Whether a read of the clipboard's plain text `text` reports `outcome`: none is
/// unsupported content, a blank text no selection, any other a selection.
pub open spec fn read_reports(text: Option<Seq<char>>, outcome: Result<(), CaptureFailure>) -> bool {
    match text {
        None => outcome == Err::<(), CaptureFailure>(CaptureFailure::UnsupportedContent),
        Some(t) => if crate::text::is_blank(t) {
            outcome == Err::<(), CaptureFailure>(CaptureFailure::NoSelection)
        } else {
            outcome is Ok
        },
    }
}

/// Whether a capture result reports `outcome`: a selection for success, the same failure
/// otherwise.
pub open spec fn reports_outcome(r: Result<CapturedText, CaptureFailure>, outcome: Result<(), CaptureFailure>) -> bool {
    match (r, outcome) {
        (Ok(_), Ok(_)) => true,
        (Err(a), Err(b)) => a == b,
        _ => false,
    }
}

/// The phases after the clipboard snapshot was taken.
pub open spec fn after_snapshot(phase: CapturePhase) -> bool {
    !(phase is CheckTrust || phase is CheckSecurity || phase is Snapshot || phase is Done)
}

/// The phases that carry a successful read.
pub open spec fn holds_success(phase: CapturePhase) -> bool {
    match phase {
        CapturePhase::CheckOwner { outcome, .. } => outcome is Ok,
        CapturePhase::Restore { outcome, .. } => outcome is Ok,
        CapturePhase::Done(outcome) => outcome is Ok,
        _ => false,
    }
}

/// Captures the selection of the frontmost application through a synthetic copy.
pub struct SelectionCapture<P, A, C, K> {
    pub pasteboard: P,
    pub accessibility: A,
    pub copy: C,
    pub clock: K,
    pub timeout_ms: u64,
    pub poll_interval_ms: u64,
}

impl<P, A, C, K> SelectionCapture<P, A, C, K> {
    pub fn new(pasteboard: P, accessibility: A, copy: C, clock: K, timeout_ms: u64, poll_interval_ms: u64) -> (r: Self)
        ensures
            r.timeout_ms == timeout_ms,
            r.poll_interval_ms == poll_interval_ms,
    {
        SelectionCapture { pasteboard, accessibility, copy, clock, timeout_ms, poll_interval_ms }
    }
}

impl<P: CapturePasteboard, A: AccessibilityStatus, C: CopyPoster, K: Clock> SelectionCapture<P, A, C, K> {
    /// Runs the capture protocol and returns the selection, with no language context. A
    /// success is only reported once the clipboard was restored to the snapshot taken
    /// before the copy.
    pub fn capture(&self) -> (r: Result<CapturedText, CaptureFailure>)
        ensures
            exists|observations: Seq<CaptureObservation>|
                #[trigger] self.may_run(observations) && (spec_run_capture(
                    self.timeout_ms,
                    self.poll_interval_ms,
                    observations,
                ) matches CapturePhase::Done(outcome) && reports_outcome(r, outcome)),
            r matches Ok(c) ==> self.pasteboard.gives_text(Some(c@.0)) && c@.1 is None,
    {
        let timeout = self.timeout_ms;
        let poll = self.poll_interval_ms;
        let ghost limit = spec_poll_limit(timeout, poll);
        let ghost mut observed: Seq<CaptureObservation> = Seq::empty();
        let mut phase = CapturePhase::CheckTrust;
        let mut snapshot: Option<P::Snapshot> = None;
        let mut started: Option<K::Instant> = None;
        let mut read: Option<CapturedText> = None;
        loop
            invariant
                timeout == self.timeout_ms,
                poll == self.poll_interval_ms,
                limit == spec_poll_limit(timeout, poll),
                capture_phase_within(phase, limit),
                after_snapshot(phase) ==> snapshot is Some && started is Some,
                holds_success(phase) ==> read is Some,
                phase == spec_run_capture(timeout, poll, observed),
                self.may_run(observed),
                snapshot matches Some(s) ==> self.pasteboard.gives_snapshot(Ok(s)),
                read matches Some(c) ==> self.pasteboard.gives_text(Some(c@.0)) && c@.1 is None,
            decreases capture_rank(phase, limit),
        {
            let observation = match phase {
                CapturePhase::Done(outcome) => {
                    let result = match outcome {
                        Ok(()) => match read {
                            Some(text) => Ok(text),
                            None => Err(CaptureFailure::ClipboardUnavailable),
                        },
                        Err(e) => Err(e),
                    };
                    assert(reports_outcome(result, outcome));
                    assert(spec_run_capture(timeout, poll, observed) == CapturePhase::Done(outcome));
                    assert(self.may_run(observed));
                    return result;
                },
                CapturePhase::CheckTrust => CaptureObservation::Trusted(self.accessibility.is_trusted()),
                CapturePhase::CheckSecurity => CaptureObservation::Security(
                    self.accessibility.focused_element_security(),
                ),
                CapturePhase::Snapshot => {
                    let taken = self.pasteboard.snapshot();
                    match taken {
                        Ok(s) => {
                            let count = s.change_count();
                            assert(self.pasteboard.gives_snapshot(Ok(s)) && s.counted(count));
                            snapshot = Some(s);
                            started = Some(self.clock.now());
                            CaptureObservation::Snapshotted(Some(count))
                        },
                        Err(e) => {
                            assert(self.pasteboard.gives_snapshot(Err(e)));
                            CaptureObservation::Snapshotted(None)
                        },
                    }
                },
                CapturePhase::PostCopy { .. } => CaptureObservation::Posted(self.copy.post_copy()),
                CapturePhase::WaitForCopy { .. } => CaptureObservation::ChangeCount(self.pasteboard.change_count()),
                CapturePhase::CheckOwnerBeforeRetry { .. } => CaptureObservation::ChangeCount(
                    self.pasteboard.change_count(),
                ),
                CapturePhase::CheckOwner { .. } => CaptureObservation::ChangeCount(self.pasteboard.change_count()),
                CapturePhase::CheckDeadline { .. } => self.elapsed(started),
                CapturePhase::CheckRetryTime { .. } => self.elapsed(started),
                CapturePhase::CheckTimeBeforeRetry { .. } => self.elapsed(started),
                CapturePhase::Pause { duration, .. } => {
                    self.clock.sleep(duration);
                    CaptureObservation::Slept
                },
                CapturePhase::RetryPause { duration, .. } => {
                    self.clock.sleep(duration);
                    CaptureObservation::Slept
                },
                CapturePhase::ReadSelection { .. } => {
                    let text = self.pasteboard.plain_text();
                    let ghost t = text_view(text);
                    let result = selection_from_plain_text(text);
                    let outcome = read_outcome(&result);
                    assert(self.pasteboard.gives_text(t) && read_reports(t, outcome));
                    read = match result {
                        Ok(text) => Some(text),
                        Err(_) => None,
                    };
                    CaptureObservation::Read(outcome)
                },
                CapturePhase::Restore { copied, .. } => match &snapshot {
                    Some(s) => {
                        let restored = self.pasteboard.restore(s, copied);
                        let ok = match restored {
                            Ok(_) => true,
                            Err(_) => false,
                        };
                        assert(self.pasteboard.gives_snapshot(Ok(*s)) && self.pasteboard.restores(*s, copied, restored)
                            && ok == (restored is Ok));
                        CaptureObservation::Restored(ok)
                    },
                    None => CaptureObservation::Restored(false),
                },
            };
            proof {
                assert(self.may_observe(phase, observation));
                law_capture_steps_progress(phase, timeout, poll, observation);
                let next = observed.push(observation);
                assert(next.drop_last() =~= observed);
                assert forall|i: int| 0 <= i < next.len() implies #[trigger] self.may_observe(
                    spec_run_capture(timeout, poll, next.take(i)),
                    next[i],
                ) by {
                    if i < observed.len() {
                        assert(next.take(i) =~= observed.take(i));
                        assert(self.may_observe(spec_run_capture(timeout, poll, observed.take(i)), observed[i]));
                    } else {
                        assert(next.take(i) =~= observed);
                    }
                }
                observed = next;
            }
            phase = capture_step(phase, timeout, poll, observation);
        }
    }

    /// Asks the clock how long the capture has run.
    fn elapsed(&self, started: Option<K::Instant>) -> (r: CaptureObservation)
        ensures
            r matches CaptureObservation::Elapsed(e) ==> self.clock.elapses(started->Some_0, e),
            r is Elapsed || r is Slept,
            started is Some ==> r is Elapsed,
    {
        match started {
            Some(instant) => CaptureObservation::Elapsed(self.clock.elapsed_since(instant)),
            None => CaptureObservation::Slept,
        }
    }

    /// Whether the services may have given `observation` in `phase`.
    pub open spec fn may_observe(&self, phase: CapturePhase, observation: CaptureObservation) -> bool {
        match observation {
            CaptureObservation::Trusted(trusted) => self.accessibility.gives_trusted(trusted),
            CaptureObservation::Security(security) => self.accessibility.gives_security(security),
            CaptureObservation::Snapshotted(Some(count)) => exists|s: P::Snapshot|
                #[trigger] self.pasteboard.gives_snapshot(Ok(s)) && s.counted(count),
            CaptureObservation::Snapshotted(None) => exists|e: PasteboardSnapshotError|
                #[trigger] self.pasteboard.gives_snapshot(Err(e)),
            CaptureObservation::Posted(posted) => self.copy.posts(posted),
            CaptureObservation::ChangeCount(count) => self.pasteboard.counts(count),
            CaptureObservation::Elapsed(elapsed) => exists|instant: K::Instant| #[trigger] self.clock.elapses(instant, elapsed),
            CaptureObservation::Slept => true,
            CaptureObservation::Read(outcome) => exists|text: Option<Seq<char>>|
                #[trigger] self.pasteboard.gives_text(text) && read_reports(text, outcome),
            CaptureObservation::Restored(restored) => match phase {
                CapturePhase::Restore { copied, .. } => exists|
                    s: P::Snapshot,
                    answer: Result<PasteboardRestoreOutcome, PasteboardSnapshotError>,
                |
                    #![trigger self.pasteboard.restores(s, copied, answer)]
                    self.pasteboard.gives_snapshot(Ok(s)) && self.pasteboard.restores(s, copied, answer) && restored
                        == (answer is Ok),
                _ => false,
            },
        }
    }

    /// Whether the services may have given every observation of a run, each in the phase
    /// the run had reached.
    pub open spec fn may_run(&self, observations: Seq<CaptureObservation>) -> bool {
        forall|i: int|
            0 <= i < observations.len() ==> #[trigger] self.may_observe(
                spec_run_capture(self.timeout_ms, self.poll_interval_ms, observations.take(i)),
                observations[i],
            )
    }
}

impl<P: CapturePasteboard, A: AccessibilityStatus, C: CopyPoster, K: Clock> TextCapture for SelectionCapture<P, A, C, K> {
    fn capture(&self) -> Result<CapturedText, CaptureFailure> {
        SelectionCapture::capture(self)
    }
}

} // verus!
