//! Snapshots of the clipboard and their restoration.
//!
//! A snapshot keeps every item with every representation. Restoring writes them back
//! only while the clipboard still holds what the capture put there, and checks what was
//! written. The writing protocol is the state machine [`ReplacePhase`], which
//! [`replace_items`] runs against a [`PasteboardWriteBackend`].
use vstd::prelude::*;

use crate::text::text_eq;

verus! {

/// One representation of a clipboard item: its type and its bytes.
#[derive(Clone, Debug, PartialEq, Eq)]
pub struct PasteboardRepresentation {
    pub type_identifier: String,
    pub data: Vec<u8>,
}

/// One clipboard item with all its representations.
#[derive(Clone, Debug, PartialEq, Eq)]
pub struct PasteboardItemSnapshot {
    pub representations: Vec<PasteboardRepresentation>,
}

/// The clipboard's items at one change count.
#[derive(Clone, Debug, PartialEq, Eq)]
pub struct PasteboardSnapshot {
    items: Vec<PasteboardItemSnapshot>,
    change_count: i64,
}

/// What a restoration did.
#[derive(Clone, Copy, Debug, PartialEq, Eq, Structural)]
pub enum PasteboardRestoreOutcome {
    Restored { change_count: i64 },
    SkippedDueToConflict,
}

/// Why the clipboard could not be read or written.
#[derive(Clone, Copy, Debug, PartialEq, Eq, Structural)]
pub enum PasteboardSnapshotError {
    ChangedDuringSnapshot,
    ReadFailed,
    WritePreparationFailed,
    WriteFailed,
    ChangedDuringWrite,
    WriteVerificationFailed,
}

/// The types of each item, in order.
pub open spec fn types_of_items(items: Seq<PasteboardItemSnapshot>) -> Seq<Seq<Seq<char>>> {
    items.map(|i: int, item: PasteboardItemSnapshot| item.representations@.map(|j: int, r: PasteboardRepresentation| r.type_identifier@))
}

/// The characters of a list of type lists.
pub open spec fn type_lists_view(lists: Seq<Vec<String>>) -> Seq<Seq<Seq<char>>> {
    lists.map(|i: int, list: Vec<String>| list@.map(|j: int, s: String| s@))
}

/// Whether every item written holds at least the types expected of it, item by item.
pub open spec fn spec_contains_expected_item_types(written: Seq<Seq<Seq<char>>>, expected: Seq<Seq<Seq<char>>>) -> bool {
    &&& written.len() == expected.len()
    &&& forall|i: int, j: int|
        0 <= i < expected.len() && 0 <= j < expected[i].len() ==> #[trigger] written[i].contains(
            expected[i][j],
        )
}

impl PasteboardSnapshot {
    /// The items of the snapshot.
    pub closed spec fn spec_items(&self) -> Seq<PasteboardItemSnapshot> {
        self.items@
    }

    /// The change count at which the snapshot was taken.
    pub closed spec fn spec_change_count(&self) -> i64 {
        self.change_count
    }

    /// The change count at which the snapshot was taken.
    pub fn change_count(&self) -> (r: i64)
        ensures
            r == self.spec_change_count(),
    {
        self.change_count
    }

    /// Whether the clipboard held no item.
    pub fn is_empty(&self) -> (r: bool)
        ensures
            r == (self.spec_items().len() == 0),
    {
        self.items.len() == 0
    }

    /// The items of the snapshot.
    pub fn items(&self) -> (r: &Vec<PasteboardItemSnapshot>)
        ensures
            r@ == self.spec_items(),
    {
        &self.items
    }
}

/// The types of each item, in order.
pub fn item_types(items: &[PasteboardItemSnapshot]) -> (r: Vec<Vec<String>>)
    ensures
        type_lists_view(r@) == types_of_items(items@),
{
    let mut result: Vec<Vec<String>> = Vec::new();
    let mut i: usize = 0;
    while i < items.len()
        invariant
            i <= items.len(),
            result.len() == i,
            type_lists_view(result@) == types_of_items(items@).take(i as int),
        decreases items.len() - i,
    {
        let item = &items[i];
        let mut types: Vec<String> = Vec::new();
        let mut j: usize = 0;
        while j < item.representations.len()
            invariant
                j <= item.representations.len(),
                types.len() == j,
                types@.map(|k: int, s: String| s@) == item.representations@.map(
                    |k: int, r: PasteboardRepresentation| r.type_identifier@,
                ).take(j as int),
            decreases item.representations.len() - j,
        {
            types.push(item.representations[j].type_identifier.clone());
            proof {
                assert(types@.map(|k: int, s: String| s@) =~= item.representations@.map(
                    |k: int, r: PasteboardRepresentation| r.type_identifier@,
                ).take(j + 1));
            }
            j = j + 1;
        }
        proof {
            assert(types@.map(|k: int, s: String| s@) =~= item.representations@.map(
                |k: int, r: PasteboardRepresentation| r.type_identifier@,
            ));
        }
        result.push(types);
        proof {
            assert(type_lists_view(result@) =~= types_of_items(items@).take(i + 1));
        }
        i = i + 1;
    }
    proof {
        assert(types_of_items(items@).take(items@.len() as int) =~= types_of_items(items@));
    }
    result
}

/// Whether `list` holds `value`.
fn list_contains(list: &Vec<String>, value: &String) -> (r: bool)
    ensures
        r == list@.map(|k: int, s: String| s@).contains(value@),
{
    let ghost view = list@.map(|k: int, s: String| s@);
    let mut k: usize = 0;
    while k < list.len()
        invariant
            k <= list.len(),
            view == list@.map(|k: int, s: String| s@),
            forall|m: int| 0 <= m < k ==> view[m] != value@,
        decreases list.len() - k,
    {
        if text_eq(list[k].as_str(), value.as_str()) {
            assert(view[k as int] == value@);
            return true;
        }
        k = k + 1;
    }
    false
}

/// Whether every item written holds at least the types expected of it.
pub fn contains_expected_item_types(written: &[Vec<String>], expected: &[Vec<String>]) -> (r: bool)
    ensures
        r == spec_contains_expected_item_types(type_lists_view(written@), type_lists_view(expected@)),
{
    let ghost w = type_lists_view(written@);
    let ghost e = type_lists_view(expected@);
    if written.len() != expected.len() {
        return false;
    }
    let mut i: usize = 0;
    while i < expected.len()
        invariant
            i <= expected.len(),
            written.len() == expected.len(),
            w == type_lists_view(written@),
            e == type_lists_view(expected@),
            forall|a: int, b: int| 0 <= a < i && 0 <= b < e[a].len() ==> #[trigger] w[a].contains(e[a][b]),
        decreases expected.len() - i,
    {
        let mut j: usize = 0;
        while j < expected[i].len()
            invariant
                i < expected.len(),
                j <= expected[i as int].len(),
                written.len() == expected.len(),
                w == type_lists_view(written@),
                e == type_lists_view(expected@),
                forall|a: int, b: int| 0 <= a < i && 0 <= b < e[a].len() ==> #[trigger] w[a].contains(e[a][b]),
                forall|b: int| 0 <= b < j ==> #[trigger] w[i as int].contains(e[i as int][b]),
            decreases expected[i as int].len() - j,
        {
            if !list_contains(&written[i], &expected[i][j]) {
                assert(!w[i as int].contains(e[i as int][j as int]));
                return false;
            }
            j = j + 1;
        }
        i = i + 1;
    }
    true
}

/// The items of a read, as a sequence.
pub open spec fn read_view(read: Result<Vec<PasteboardItemSnapshot>, PasteboardSnapshotError>) -> Result<
    Seq<PasteboardItemSnapshot>,
    PasteboardSnapshotError,
> {
    match read {
        Ok(items) => Ok(items@),
        Err(e) => Err(e),
    }
}

/// Access to the clipboard for snapshots.
///
/// Each operation's answer is one the clipboard may give, as its `counts`, `reads` and
/// `replaces` say; a backend that does not say otherwise may give any answer.
pub trait PasteboardBackend {
    /// Whether `count` may be the clipboard's change count when asked.
    open spec fn counts(&self, count: i64) -> bool {
        true
    }

    fn change_count(&self) -> (r: i64)
        ensures
            self.counts(r),
    ;

    /// Whether `answer` may be what reading every item gives.
    open spec fn reads(&self, answer: Result<Seq<PasteboardItemSnapshot>, PasteboardSnapshotError>) -> bool {
        true
    }

    fn read_items(&self) -> (r: Result<Vec<PasteboardItemSnapshot>, PasteboardSnapshotError>)
        ensures
            self.reads(read_view(r)),
    ;

    /// Whether `answer` may be what replacing the items by `items` gives.
    open spec fn replaces(&self, items: Seq<PasteboardItemSnapshot>, answer: Result<i64, PasteboardSnapshotError>) -> bool {
        true
    }

    fn replace_items(&self, items: &[PasteboardItemSnapshot]) -> (r: Result<i64, PasteboardSnapshotError>)
        ensures
            self.replaces(items@, r),
    ;
}

/// Whether `r` is the snapshot that a first change count, a read and a second change
/// count give: the read's failure; a change while reading; or the items read, at the
/// first count.
pub open spec fn is_snapshot_from(
    first: i64,
    read: Result<Seq<PasteboardItemSnapshot>, PasteboardSnapshotError>,
    second: i64,
    r: Result<PasteboardSnapshot, PasteboardSnapshotError>,
) -> bool {
    match read {
        Err(e) => r == Err::<PasteboardSnapshot, PasteboardSnapshotError>(e),
        Ok(items) => if first != second {
            r == Err::<PasteboardSnapshot, PasteboardSnapshotError>(PasteboardSnapshotError::ChangedDuringSnapshot)
        } else {
            r matches Ok(s) && s.spec_items() == items && s.spec_change_count() == first
        },
    }
}

/// What restoring decides from the clipboard's current change count: a clipboard changed
/// since `expected` is left alone; otherwise the snapshot is written.
pub open spec fn spec_restore_decision(current: i64, expected: i64) -> Option<PasteboardRestoreOutcome> {
    if current != expected {
        Some(PasteboardRestoreOutcome::SkippedDueToConflict)
    } else {
        None
    }
}

/// What restoring decides from the clipboard's current change count.
pub fn restore_decision(current: i64, expected: i64) -> (r: Option<PasteboardRestoreOutcome>)
    ensures
        r == spec_restore_decision(current, expected),
{
    if current != expected {
        Some(PasteboardRestoreOutcome::SkippedDueToConflict)
    } else {
        None
    }
}

/// The outcome of writing a snapshot back, from the write's answer.
pub open spec fn spec_restore_written(written: Result<i64, PasteboardSnapshotError>) -> Result<
    PasteboardRestoreOutcome,
    PasteboardSnapshotError,
> {
    match written {
        Ok(change_count) => Ok(PasteboardRestoreOutcome::Restored { change_count }),
        Err(e) => Err(e),
    }
}

/// A snapshot is written back with the items its read gave. A snapshot taken from a read
/// of `items` holds exactly those items, at the change count seen before the read.
/// Restoring it while the clipboard still has the expected change count asks the clipboard
/// to write exactly those items, and a successful write is reported as restored with the
/// change count it gave; a clipboard changed since is left alone.
pub proof fn law_restore_writes_back_what_was_read(
    first: i64,
    items: Seq<PasteboardItemSnapshot>,
    second: i64,
    snapshot: PasteboardSnapshot,
    current: i64,
    expected: i64,
    written: i64,
)
    requires
        is_snapshot_from(first, Ok(items), second, Ok(snapshot)),
    ensures
        snapshot.spec_items() == items,
        snapshot.spec_change_count() == first,
        current == expected ==> spec_restore_decision(current, expected) is None && spec_restore_written(Ok(written))
            == Ok::<PasteboardRestoreOutcome, PasteboardSnapshotError>(
            PasteboardRestoreOutcome::Restored { change_count: written },
        ),
        current != expected ==> spec_restore_decision(current, expected) == Some(
            PasteboardRestoreOutcome::SkippedDueToConflict,
        ),
{
}

/// Takes and restores clipboard snapshots on a backend.
pub struct SnapshotService<B> {
    pub backend: B,
}

impl<B: PasteboardBackend> SnapshotService<B> {
    pub fn new(backend: B) -> (r: Self)
        ensures
            r.backend == backend,
    {
        SnapshotService { backend }
    }

    /// Reads every item, and fails if the clipboard changed while it was read.
    pub fn snapshot(&self) -> (r: Result<PasteboardSnapshot, PasteboardSnapshotError>)
        ensures
            exists|first: i64, read: Result<Seq<PasteboardItemSnapshot>, PasteboardSnapshotError>, second: i64|
                #![trigger is_snapshot_from(first, read, second, r)]
                self.backend.counts(first) && self.backend.reads(read) && (read is Ok ==> self.backend.counts(second))
                    && is_snapshot_from(first, read, second, r),
    {
        let change_count = self.backend.change_count();
        let read = self.backend.read_items();
        let ghost read_answer = read_view(read);
        let items = match read {
            Ok(items) => items,
            Err(error) => {
                assert(is_snapshot_from(change_count, read_answer, change_count, Err(error)));
                return Err(error);
            },
        };
        let second = self.backend.change_count();
        if second != change_count {
            assert(is_snapshot_from(change_count, read_answer, second, Err(PasteboardSnapshotError::ChangedDuringSnapshot)));
            return Err(PasteboardSnapshotError::ChangedDuringSnapshot);
        }
        let r = Ok(PasteboardSnapshot { items, change_count });
        assert(is_snapshot_from(change_count, read_answer, second, r));
        r
    }

    /// The clipboard's change count.
    pub fn change_count(&self) -> (r: i64)
        ensures
            self.backend.counts(r),
    {
        self.backend.change_count()
    }

    /// Writes the snapshot back, unless the clipboard no longer has `expected_change_count`:
    /// then it is left alone and the restore skipped. A write reports the change count it
    /// gave, or its failure.
    pub fn restore(&self, snapshot: &PasteboardSnapshot, expected_change_count: i64) -> (r: Result<
        PasteboardRestoreOutcome,
        PasteboardSnapshotError,
    >)
        ensures
            exists|current: i64|
                #![trigger spec_restore_decision(current, expected_change_count)]
                self.backend.counts(current) && match spec_restore_decision(current, expected_change_count) {
                    Some(outcome) => r == Ok::<PasteboardRestoreOutcome, PasteboardSnapshotError>(outcome),
                    None => exists|written: Result<i64, PasteboardSnapshotError>|
                        #[trigger] self.backend.replaces(snapshot.spec_items(), written) && r
                            == spec_restore_written(written),
                },
    {
        let current = self.backend.change_count();
        match restore_decision(current, expected_change_count) {
            Some(outcome) => {
                assert(spec_restore_decision(current, expected_change_count) == Some(outcome));
                return Ok(outcome);
            },
            None => {},
        }
        let written = self.backend.replace_items(&snapshot.items);
        let r = match written {
            Ok(change_count) => Ok(PasteboardRestoreOutcome::Restored { change_count }),
            Err(error) => Err(error),
        };
        assert(self.backend.replaces(snapshot.spec_items(), written) && r == spec_restore_written(written));
        assert(spec_restore_decision(current, expected_change_count) is None);
        r
    }
}

/// Writing access to the clipboard.
pub trait PasteboardWriteBackend {
    type PreparedItems;

    fn prepare_items(&self, items: &[PasteboardItemSnapshot]) -> Result<Self::PreparedItems, PasteboardSnapshotError>;

    fn clear_contents(&self) -> i64;

    fn change_count(&self) -> i64;

    fn write_items(&self, items: &Self::PreparedItems) -> bool;

    fn read_item_types(&self) -> Result<Vec<Vec<String>>, PasteboardSnapshotError>;
}

/// Where the replacement of the clipboard's items stands. `owned` is the change count the
/// clearing gave: the clipboard is ours while it keeps that count.
#[derive(Clone, Copy, Debug, PartialEq, Eq)]
pub enum ReplacePhase {
    /// Prepare the items for writing.
    Prepare,
    /// Clear the clipboard.
    Clear,
    /// Write the items (none to write goes straight to verification).
    Write { owned: i64 },
    /// A write failed: is the clipboard still ours?
    CheckOwnerAfterFailure { owned: i64 },
    /// A write failed: is the clipboard empty?
    CheckEmptyAfterFailure { owned: i64 },
    /// The clipboard was left empty: is it still ours before writing again?
    CheckOwnerBeforeRetry { owned: i64 },
    /// Write the items a second and last time.
    Retry { owned: i64 },
    /// The second write failed: was it lost to another writer?
    CheckOwnerAfterRetry { owned: i64 },
    /// The items were written: is the clipboard still ours?
    CheckOwnerBeforeVerification { owned: i64 },
    /// Read the types that were written.
    ReadWrittenTypes { owned: i64 },
    /// The types were read: is the clipboard still ours? `matches` says whether they were
    /// the expected ones.
    CheckOwnerAfterVerification { owned: i64, matches: bool },
    /// Finished.
    Done(Result<i64, PasteboardSnapshotError>),
}

/// What the backend answered to the last request of the protocol.
#[derive(Clone, Copy, Debug, PartialEq, Eq)]
pub enum ReplaceObservation {
    Prepared(Result<(), PasteboardSnapshotError>),
    Cleared(i64),
    Wrote(bool),
    ChangeCount(i64),
    /// The types read, reduced to what the phase asks of them (empty after a failed
    /// write, the expected ones after a write); `None` when they could not be read.
    Types(Option<bool>),
}

/// One step of the protocol: the phase after `observation` in `phase`, given whether there
/// are items to write. An observation that does not answer the phase's request ends it
/// with a failed write.
pub open spec fn spec_replace_step(phase: ReplacePhase, has_items: bool, observation: ReplaceObservation) -> ReplacePhase {
    match (phase, observation) {
        (ReplacePhase::Prepare, ReplaceObservation::Prepared(Ok(()))) => ReplacePhase::Clear,
        (ReplacePhase::Prepare, ReplaceObservation::Prepared(Err(e))) => ReplacePhase::Done(Err(e)),
        (ReplacePhase::Clear, ReplaceObservation::Cleared(c)) => if has_items {
            ReplacePhase::Write { owned: c }
        } else {
            ReplacePhase::CheckOwnerBeforeVerification { owned: c }
        },
        (ReplacePhase::Write { owned }, ReplaceObservation::Wrote(ok)) => if ok {
            ReplacePhase::CheckOwnerBeforeVerification { owned }
        } else {
            ReplacePhase::CheckOwnerAfterFailure { owned }
        },
        (ReplacePhase::CheckOwnerAfterFailure { owned }, ReplaceObservation::ChangeCount(c)) => if c == owned {
            ReplacePhase::CheckEmptyAfterFailure { owned }
        } else {
            ReplacePhase::Done(Err(PasteboardSnapshotError::ChangedDuringWrite))
        },
        (ReplacePhase::CheckEmptyAfterFailure { owned }, ReplaceObservation::Types(empty)) => match empty {
            Some(true) => ReplacePhase::CheckOwnerBeforeRetry { owned },
            _ => ReplacePhase::Done(Err(PasteboardSnapshotError::WriteVerificationFailed)),
        },
        (ReplacePhase::CheckOwnerBeforeRetry { owned }, ReplaceObservation::ChangeCount(c)) => if c == owned {
            ReplacePhase::Retry { owned }
        } else {
            ReplacePhase::Done(Err(PasteboardSnapshotError::ChangedDuringWrite))
        },
        (ReplacePhase::Retry { owned }, ReplaceObservation::Wrote(ok)) => if ok {
            ReplacePhase::CheckOwnerBeforeVerification { owned }
        } else {
            ReplacePhase::CheckOwnerAfterRetry { owned }
        },
        (ReplacePhase::CheckOwnerAfterRetry { owned }, ReplaceObservation::ChangeCount(c)) => if c == owned {
            ReplacePhase::Done(Err(PasteboardSnapshotError::WriteFailed))
        } else {
            ReplacePhase::Done(Err(PasteboardSnapshotError::ChangedDuringWrite))
        },
        (ReplacePhase::CheckOwnerBeforeVerification { owned }, ReplaceObservation::ChangeCount(c)) => if c == owned {
            ReplacePhase::ReadWrittenTypes { owned }
        } else {
            ReplacePhase::Done(Err(PasteboardSnapshotError::ChangedDuringWrite))
        },
        (ReplacePhase::ReadWrittenTypes { owned }, ReplaceObservation::Types(matches)) => match matches {
            Some(m) => ReplacePhase::CheckOwnerAfterVerification { owned, matches: m },
            None => ReplacePhase::Done(Err(PasteboardSnapshotError::WriteVerificationFailed)),
        },
        (ReplacePhase::CheckOwnerAfterVerification { owned, matches }, ReplaceObservation::ChangeCount(c)) => if c
            != owned {
            ReplacePhase::Done(Err(PasteboardSnapshotError::ChangedDuringWrite))
        } else if matches {
            ReplacePhase::Done(Ok(owned))
        } else {
            ReplacePhase::Done(Err(PasteboardSnapshotError::WriteVerificationFailed))
        },
        (ReplacePhase::Done(r), _) => ReplacePhase::Done(r),
        _ => ReplacePhase::Done(Err(PasteboardSnapshotError::WriteFailed)),
    }
}

/// How many steps a phase is at most from the end.
pub open spec fn replace_rank(phase: ReplacePhase) -> nat {
    match phase {
        ReplacePhase::Prepare => 11,
        ReplacePhase::Clear => 10,
        ReplacePhase::Write { .. } => 9,
        ReplacePhase::CheckOwnerAfterFailure { .. } => 8,
        ReplacePhase::CheckEmptyAfterFailure { .. } => 7,
        ReplacePhase::CheckOwnerBeforeRetry { .. } => 6,
        ReplacePhase::Retry { .. } => 5,
        ReplacePhase::CheckOwnerAfterRetry { .. } => 4,
        ReplacePhase::CheckOwnerBeforeVerification { .. } => 3,
        ReplacePhase::ReadWrittenTypes { .. } => 2,
        ReplacePhase::CheckOwnerAfterVerification { .. } => 1,
        ReplacePhase::Done(_) => 0,
    }
}

/// One step of the protocol.
pub fn replace_step(phase: ReplacePhase, has_items: bool, observation: ReplaceObservation) -> (r: ReplacePhase)
    ensures
        r == spec_replace_step(phase, has_items, observation),
{
    match (phase, observation) {
        (ReplacePhase::Prepare, ReplaceObservation::Prepared(Ok(()))) => ReplacePhase::Clear,
        (ReplacePhase::Prepare, ReplaceObservation::Prepared(Err(e))) => ReplacePhase::Done(Err(e)),
        (ReplacePhase::Clear, ReplaceObservation::Cleared(c)) => {
            if has_items {
                ReplacePhase::Write { owned: c }
            } else {
                ReplacePhase::CheckOwnerBeforeVerification { owned: c }
            }
        },
        (ReplacePhase::Write { owned }, ReplaceObservation::Wrote(ok)) => {
            if ok {
                ReplacePhase::CheckOwnerBeforeVerification { owned }
            } else {
                ReplacePhase::CheckOwnerAfterFailure { owned }
            }
        },
        (ReplacePhase::CheckOwnerAfterFailure { owned }, ReplaceObservation::ChangeCount(c)) => {
            if c == owned {
                ReplacePhase::CheckEmptyAfterFailure { owned }
            } else {
                ReplacePhase::Done(Err(PasteboardSnapshotError::ChangedDuringWrite))
            }
        },
        (ReplacePhase::CheckEmptyAfterFailure { owned }, ReplaceObservation::Types(empty)) => match empty {
            Some(true) => ReplacePhase::CheckOwnerBeforeRetry { owned },
            _ => ReplacePhase::Done(Err(PasteboardSnapshotError::WriteVerificationFailed)),
        },
        (ReplacePhase::CheckOwnerBeforeRetry { owned }, ReplaceObservation::ChangeCount(c)) => {
            if c == owned {
                ReplacePhase::Retry { owned }
            } else {
                ReplacePhase::Done(Err(PasteboardSnapshotError::ChangedDuringWrite))
            }
        },
        (ReplacePhase::Retry { owned }, ReplaceObservation::Wrote(ok)) => {
            if ok {
                ReplacePhase::CheckOwnerBeforeVerification { owned }
            } else {
                ReplacePhase::CheckOwnerAfterRetry { owned }
            }
        },
        (ReplacePhase::CheckOwnerAfterRetry { owned }, ReplaceObservation::ChangeCount(c)) => {
            if c == owned {
                ReplacePhase::Done(Err(PasteboardSnapshotError::WriteFailed))
            } else {
                ReplacePhase::Done(Err(PasteboardSnapshotError::ChangedDuringWrite))
            }
        },
        (ReplacePhase::CheckOwnerBeforeVerification { owned }, ReplaceObservation::ChangeCount(c)) => {
            if c == owned {
                ReplacePhase::ReadWrittenTypes { owned }
            } else {
                ReplacePhase::Done(Err(PasteboardSnapshotError::ChangedDuringWrite))
            }
        },
        (ReplacePhase::ReadWrittenTypes { owned }, ReplaceObservation::Types(matches)) => match matches {
            Some(m) => ReplacePhase::CheckOwnerAfterVerification { owned, matches: m },
            None => ReplacePhase::Done(Err(PasteboardSnapshotError::WriteVerificationFailed)),
        },
        (ReplacePhase::CheckOwnerAfterVerification { owned, matches }, ReplaceObservation::ChangeCount(c)) => {
            if c != owned {
                ReplacePhase::Done(Err(PasteboardSnapshotError::ChangedDuringWrite))
            } else if matches {
                ReplacePhase::Done(Ok(owned))
            } else {
                ReplacePhase::Done(Err(PasteboardSnapshotError::WriteVerificationFailed))
            }
        },
        (ReplacePhase::Done(r), _) => ReplacePhase::Done(r),
        _ => ReplacePhase::Done(Err(PasteboardSnapshotError::WriteFailed)),
    }
}

/// Every step brings the protocol closer to its end, so it always finishes, and no phase
/// comes back: the items are written at most twice.
pub proof fn law_replace_steps_progress(phase: ReplacePhase, has_items: bool, observation: ReplaceObservation)
    requires
        !(phase is Done),
    ensures
        replace_rank(spec_replace_step(phase, has_items, observation)) < replace_rank(phase),
{
}

/// The replacement succeeds only after the written types were checked and the clipboard
/// was seen to be still ours, and then reports the change count the clearing gave.
pub proof fn law_replace_succeeds_only_when_verified(
    phase: ReplacePhase,
    has_items: bool,
    observation: ReplaceObservation,
    count: i64,
)
    requires
        !(phase is Done),
        spec_replace_step(phase, has_items, observation) == ReplacePhase::Done(Ok::<i64, PasteboardSnapshotError>(count)),
    ensures
        phase == (ReplacePhase::CheckOwnerAfterVerification { owned: count, matches: true }),
        observation == ReplaceObservation::ChangeCount(count),
{
}

/// A second write happens only after a failed first one left the clipboard empty and ours.
pub proof fn law_retry_only_over_our_empty_clipboard(
    phase: ReplacePhase,
    has_items: bool,
    observation: ReplaceObservation,
    owned: i64,
)
    requires
        spec_replace_step(phase, has_items, observation) == (ReplacePhase::Retry { owned }),
    ensures
        phase == (ReplacePhase::CheckOwnerBeforeRetry { owned }),
        observation == ReplaceObservation::ChangeCount(owned),
{
}

/// With nothing to restore, the clipboard is cleared and nothing is written.
pub proof fn law_empty_restore_writes_nothing(count: i64)
    ensures
        spec_replace_step(ReplacePhase::Clear, false, ReplaceObservation::Cleared(count))
            == (ReplacePhase::CheckOwnerBeforeVerification { owned: count }),
{
}

/// The phase the replacement protocol reaches from its start on a sequence of
/// observations.
pub open spec fn spec_run_replace(has_items: bool, observations: Seq<ReplaceObservation>) -> ReplacePhase
    decreases observations.len(),
{
    if observations.len() == 0 {
        ReplacePhase::Prepare
    } else {
        spec_replace_step(spec_run_replace(has_items, observations.drop_last()), has_items, observations.last())
    }
}

/// Whether there are items to write.
pub open spec fn has_any(items: Seq<PasteboardItemSnapshot>) -> bool {
    items.len() > 0
}

/// A run of the replacement that ends in success checked the written types and then saw
/// the clipboard still ours, with the change count it reports.
pub proof fn law_successful_replacements_were_verified(has_items: bool, observations: Seq<ReplaceObservation>, count: i64)
    requires
        spec_run_replace(has_items, observations) == ReplacePhase::Done(Ok::<i64, PasteboardSnapshotError>(count)),
    ensures
        exists|k: int|
            0 < k <= observations.len() && observations[k - 1] == ReplaceObservation::ChangeCount(count)
                && #[trigger] spec_run_replace(has_items, observations.take(k - 1))
                == (ReplacePhase::CheckOwnerAfterVerification { owned: count, matches: true }),
    decreases observations.len(),
{
    let before = observations.drop_last();
    let previous = spec_run_replace(has_items, before);
    if previous is Done {
        law_successful_replacements_were_verified(has_items, before, count);
        let k = choose|k: int|
            0 < k <= before.len() && before[k - 1] == ReplaceObservation::ChangeCount(count)
                && #[trigger] spec_run_replace(has_items, before.take(k - 1))
                == (ReplacePhase::CheckOwnerAfterVerification { owned: count, matches: true });
        assert(before.take(k - 1) =~= observations.take(k - 1));
        assert(before[k - 1] == observations[k - 1]);
    } else {
        law_replace_succeeds_only_when_verified(previous, has_items, observations.last(), count);
        assert(observations.take(observations.len() - 1) =~= before);
    }
}

/// Replaces the clipboard's items by `items` and checks what was written.
///
/// The items are prepared first, so a failure there leaves the clipboard untouched. After
/// clearing, a failed write is retried once, and only when the clipboard was left empty
/// and still ours. Success reports the change count of the clearing.
pub fn replace_items<W: PasteboardWriteBackend>(backend: &W, items: &[PasteboardItemSnapshot]) -> (r: Result<
    i64,
    PasteboardSnapshotError,
>)
    ensures
        exists|observations: Seq<ReplaceObservation>|
            #[trigger] spec_run_replace(has_any(items@), observations) == ReplacePhase::Done(r),
{
    let has_items = items.len() > 0;
    let prepared = match backend.prepare_items(items) {
        Ok(prepared) => prepared,
        Err(error) => {
            let ghost failed = seq![ReplaceObservation::Prepared(Err(error))];
            assert(failed.drop_last() =~= Seq::<ReplaceObservation>::empty());
            assert(failed.last() == ReplaceObservation::Prepared(Err(error)));
            assert(spec_run_replace(has_any(items@), Seq::<ReplaceObservation>::empty()) == ReplacePhase::Prepare);
            assert(spec_run_replace(has_any(items@), failed) == ReplacePhase::Done(
                Err::<i64, PasteboardSnapshotError>(error),
            ));
            return Err(error);
        },
    };
    let expected = item_types(items);
    let ghost mut observed: Seq<ReplaceObservation> = seq![ReplaceObservation::Prepared(Ok(()))];
    assert(observed.drop_last() =~= Seq::<ReplaceObservation>::empty());
    assert(observed.last() == ReplaceObservation::Prepared(Ok(())));
    let mut phase = replace_step(ReplacePhase::Prepare, has_items, ReplaceObservation::Prepared(Ok(())));
    loop
        invariant
            has_items == (items@.len() > 0),
            has_items == has_any(items@),
            phase == spec_run_replace(has_items, observed),
        decreases replace_rank(phase),
    {
        let observation = match phase {
            ReplacePhase::Done(result) => {
                assert(spec_run_replace(has_any(items@), observed) == ReplacePhase::Done(result));
                return result;
            },
            ReplacePhase::Prepare => ReplaceObservation::Prepared(Ok(())),
            ReplacePhase::Clear => ReplaceObservation::Cleared(backend.clear_contents()),
            ReplacePhase::Write { .. } => ReplaceObservation::Wrote(backend.write_items(&prepared)),
            ReplacePhase::Retry { .. } => ReplaceObservation::Wrote(backend.write_items(&prepared)),
            ReplacePhase::CheckEmptyAfterFailure { .. } => ReplaceObservation::Types(
                match backend.read_item_types() {
                    Ok(types) => Some(types.len() == 0),
                    Err(_) => None,
                },
            ),
            ReplacePhase::ReadWrittenTypes { .. } => ReplaceObservation::Types(
                match backend.read_item_types() {
                    Ok(types) => Some(contains_expected_item_types(&types, &expected)),
                    Err(_) => None,
                },
            ),
            _ => ReplaceObservation::ChangeCount(backend.change_count()),
        };
        proof {
            law_replace_steps_progress(phase, has_items, observation);
            assert(observed.push(observation).drop_last() =~= observed);
            observed = observed.push(observation);
        }
        phase = replace_step(phase, has_items, observation);
    }
}

} // verus!
