use std::cell::{Cell, RefCell};
use std::collections::VecDeque;

use verba::pasteboard::{
    contains_expected_item_types, item_types, replace_items, PasteboardBackend, PasteboardItemSnapshot,
    PasteboardRepresentation, PasteboardRestoreOutcome, PasteboardSnapshotError, PasteboardWriteBackend,
    SnapshotService,
};

const TEXT: &str = "public.utf8-plain-text";
const RTF: &str = "public.rtf";
const HTML: &str = "public.html";
const PNG: &str = "public.png";
const FILE_URL: &str = "public.file-url";

fn item(representations: &[(&str, &[u8])]) -> PasteboardItemSnapshot {
    PasteboardItemSnapshot {
        representations: representations
            .iter()
            .map(|(type_identifier, data)| PasteboardRepresentation {
                type_identifier: (*type_identifier).to_owned(),
                data: data.to_vec(),
            })
            .collect(),
    }
}

struct FakePasteboard {
    items: RefCell<Vec<PasteboardItemSnapshot>>,
    change_count: Cell<i64>,
    change_during_next_read: Cell<bool>,
}

impl FakePasteboard {
    fn new(items: Vec<PasteboardItemSnapshot>) -> Self {
        Self {
            items: RefCell::new(items),
            change_count: Cell::new(1),
            change_during_next_read: Cell::new(false),
        }
    }

    fn items(&self) -> Vec<PasteboardItemSnapshot> {
        self.items.borrow().clone()
    }

    fn replace(&self, items: Vec<PasteboardItemSnapshot>) -> i64 {
        *self.items.borrow_mut() = items;
        let change_count = self.change_count.get() + 1;
        self.change_count.set(change_count);
        change_count
    }
}

impl PasteboardBackend for FakePasteboard {
    fn change_count(&self) -> i64 {
        self.change_count.get()
    }

    fn read_items(&self) -> Result<Vec<PasteboardItemSnapshot>, PasteboardSnapshotError> {
        let items = self.items();
        if self.change_during_next_read.replace(false) {
            self.change_count.set(self.change_count.get() + 1);
        }
        Ok(items)
    }

    fn replace_items(&self, items: &[PasteboardItemSnapshot]) -> Result<i64, PasteboardSnapshotError> {
        Ok(self.replace(items.to_vec()))
    }
}

enum WriteOutcome {
    Success,
    FailEmpty,
    FailWith(Vec<PasteboardItemSnapshot>),
    ExternalChange(Vec<PasteboardItemSnapshot>),
    SucceedThenExternal(Vec<PasteboardItemSnapshot>),
    SucceedWith(Vec<PasteboardItemSnapshot>),
}

struct FakeWriteBackend {
    items: RefCell<Vec<PasteboardItemSnapshot>>,
    change_count: Cell<i64>,
    preparation_fails: Cell<bool>,
    outcomes: RefCell<VecDeque<WriteOutcome>>,
    write_calls: Cell<usize>,
    external_change_after_next_type_read: RefCell<Option<Vec<PasteboardItemSnapshot>>>,
}

impl FakeWriteBackend {
    fn new(items: Vec<PasteboardItemSnapshot>, outcomes: Vec<WriteOutcome>) -> Self {
        Self {
            items: RefCell::new(items),
            change_count: Cell::new(1),
            preparation_fails: Cell::new(false),
            outcomes: RefCell::new(outcomes.into_iter().collect()),
            write_calls: Cell::new(0),
            external_change_after_next_type_read: RefCell::new(None),
        }
    }

    fn items(&self) -> Vec<PasteboardItemSnapshot> {
        self.items.borrow().clone()
    }
}

impl PasteboardWriteBackend for FakeWriteBackend {
    type PreparedItems = Vec<PasteboardItemSnapshot>;

    fn prepare_items(
        &self,
        items: &[PasteboardItemSnapshot],
    ) -> Result<Vec<PasteboardItemSnapshot>, PasteboardSnapshotError> {
        if self.preparation_fails.get() {
            Err(PasteboardSnapshotError::WritePreparationFailed)
        } else {
            Ok(items.to_vec())
        }
    }

    fn clear_contents(&self) -> i64 {
        self.items.borrow_mut().clear();
        let change_count = self.change_count.get() + 1;
        self.change_count.set(change_count);
        change_count
    }

    fn change_count(&self) -> i64 {
        self.change_count.get()
    }

    fn write_items(&self, items: &Vec<PasteboardItemSnapshot>) -> bool {
        self.write_calls.set(self.write_calls.get() + 1);
        match self.outcomes.borrow_mut().pop_front().unwrap() {
            WriteOutcome::Success => {
                self.items.replace(items.clone());
                true
            }
            WriteOutcome::FailEmpty => false,
            WriteOutcome::FailWith(partial) => {
                self.items.replace(partial);
                false
            }
            WriteOutcome::ExternalChange(external) => {
                self.items.replace(external);
                self.change_count.set(self.change_count.get() + 1);
                false
            }
            WriteOutcome::SucceedThenExternal(external) => {
                self.items.replace(external);
                self.change_count.set(self.change_count.get() + 1);
                true
            }
            WriteOutcome::SucceedWith(unexpected) => {
                self.items.replace(unexpected);
                true
            }
        }
    }

    fn read_item_types(&self) -> Result<Vec<Vec<String>>, PasteboardSnapshotError> {
        let types = item_types(&self.items());
        if let Some(external) = self.external_change_after_next_type_read.borrow_mut().take() {
            self.items.replace(external);
            self.change_count.set(self.change_count.get() + 1);
        }
        Ok(types)
    }
}

fn assert_round_trip(original: Vec<PasteboardItemSnapshot>) {
    let service = SnapshotService::new(FakePasteboard::new(original.clone()));
    let snapshot = service.snapshot().unwrap();
    assert_eq!(snapshot.items(), &original);
    let copied_count = service.backend.replace(vec![item(&[(TEXT, b"copied")])]);

    assert_eq!(
        service.restore(&snapshot, copied_count).unwrap(),
        PasteboardRestoreOutcome::Restored { change_count: copied_count + 1 }
    );
    assert_eq!(service.backend.items(), original);
}

#[test]
fn restores_text() {
    assert_round_trip(vec![item(&[(TEXT, b"hello")])]);
}

#[test]
fn restores_all_rich_text_representations() {
    assert_round_trip(vec![item(&[
        (TEXT, b"formatted"),
        (RTF, b"{\\rtf1 formatted}"),
        (HTML, b"<b>formatted</b>"),
    ])]);
}

#[test]
fn restores_image_data() {
    assert_round_trip(vec![item(&[(PNG, &[0x89, b'P', b'N', b'G'])])]);
}

#[test]
fn restores_multiple_file_items() {
    assert_round_trip(vec![
        item(&[(FILE_URL, b"file:///tmp/one.txt")]),
        item(&[(FILE_URL, b"file:///tmp/two.pdf")]),
    ]);
}

#[test]
fn restores_an_empty_clipboard() {
    assert_round_trip(Vec::new());
}

#[test]
fn skips_restoration_after_an_external_change() {
    let service = SnapshotService::new(FakePasteboard::new(vec![item(&[(TEXT, b"original")])]));
    let snapshot = service.snapshot().unwrap();

    let copied_count = service.backend.replace(vec![item(&[(TEXT, b"copied")])]);
    service.backend.replace(vec![item(&[(TEXT, b"external")])]);

    assert_eq!(
        service.restore(&snapshot, copied_count).unwrap(),
        PasteboardRestoreOutcome::SkippedDueToConflict
    );
    assert_eq!(service.backend.items(), vec![item(&[(TEXT, b"external")])]);
}

#[test]
fn rejects_a_snapshot_that_changes_while_being_read() {
    let backend = FakePasteboard::new(vec![item(&[(TEXT, b"original")])]);
    backend.change_during_next_read.set(true);
    let service = SnapshotService::new(backend);

    assert_eq!(service.snapshot(), Err(PasteboardSnapshotError::ChangedDuringSnapshot));
}

#[test]
fn preparation_failure_leaves_the_current_clipboard_untouched() {
    let original = vec![item(&[(TEXT, b"original")])];
    let backend = FakeWriteBackend::new(original.clone(), vec![WriteOutcome::Success]);
    backend.preparation_fails.set(true);

    assert_eq!(
        replace_items(&backend, &[item(&[(TEXT, b"replacement")])]),
        Err(PasteboardSnapshotError::WritePreparationFailed)
    );
    assert_eq!(backend.items(), original);
    assert_eq!(backend.change_count(), 1);
    assert_eq!(backend.write_calls.get(), 0);
}

#[test]
fn retries_once_when_a_failed_write_left_the_owned_clipboard_empty() {
    let replacement = vec![item(&[(TEXT, b"replacement")])];
    let backend = FakeWriteBackend::new(
        vec![item(&[(TEXT, b"original")])],
        vec![WriteOutcome::FailEmpty, WriteOutcome::Success],
    );

    assert_eq!(replace_items(&backend, &replacement), Ok(2));
    assert_eq!(backend.items(), replacement);
    assert_eq!(backend.write_calls.get(), 2);
}

#[test]
fn reports_a_failed_retry_after_clear_with_the_empty_state_visible() {
    let backend = FakeWriteBackend::new(
        vec![item(&[(TEXT, b"original")])],
        vec![WriteOutcome::FailEmpty, WriteOutcome::FailEmpty],
    );

    assert_eq!(
        replace_items(&backend, &[item(&[(TEXT, b"replacement")])]),
        Err(PasteboardSnapshotError::WriteFailed)
    );
    assert!(backend.items().is_empty());
    assert_eq!(backend.write_calls.get(), 2);
}

#[test]
fn detects_a_partial_write_without_appending_a_retry() {
    let partial = vec![item(&[(TEXT, b"partial")])];
    let backend = FakeWriteBackend::new(
        vec![item(&[(TEXT, b"original")])],
        vec![WriteOutcome::FailWith(partial.clone())],
    );

    assert_eq!(
        replace_items(&backend, &[item(&[(TEXT, b"first")]), item(&[(TEXT, b"second")])]),
        Err(PasteboardSnapshotError::WriteVerificationFailed)
    );
    assert_eq!(backend.items(), partial);
    assert_eq!(backend.write_calls.get(), 1);
}

#[test]
fn never_retries_over_a_newer_external_clipboard_change() {
    let external = vec![item(&[(TEXT, b"external")])];
    let backend = FakeWriteBackend::new(
        vec![item(&[(TEXT, b"original")])],
        vec![WriteOutcome::ExternalChange(external.clone())],
    );

    assert_eq!(
        replace_items(&backend, &[item(&[(TEXT, b"replacement")])]),
        Err(PasteboardSnapshotError::ChangedDuringWrite)
    );
    assert_eq!(backend.items(), external);
    assert_eq!(backend.write_calls.get(), 1);
}

#[test]
fn detects_an_external_change_before_post_write_verification() {
    let external = vec![item(&[(TEXT, b"external")])];
    let backend = FakeWriteBackend::new(
        vec![item(&[(TEXT, b"original")])],
        vec![WriteOutcome::SucceedThenExternal(external.clone())],
    );

    assert_eq!(
        replace_items(&backend, &[item(&[(TEXT, b"replacement")])]),
        Err(PasteboardSnapshotError::ChangedDuringWrite)
    );
    assert_eq!(backend.items(), external);
    assert_eq!(backend.write_calls.get(), 1);
}

#[test]
fn does_not_retry_if_ownership_changes_while_the_empty_state_is_verified() {
    let external = vec![item(&[(TEXT, b"external")])];
    let backend = FakeWriteBackend::new(
        vec![item(&[(TEXT, b"original")])],
        vec![WriteOutcome::FailEmpty, WriteOutcome::Success],
    );
    backend.external_change_after_next_type_read.replace(Some(external.clone()));

    assert_eq!(
        replace_items(&backend, &[item(&[(TEXT, b"replacement")])]),
        Err(PasteboardSnapshotError::ChangedDuringWrite)
    );
    assert_eq!(backend.items(), external);
    assert_eq!(backend.write_calls.get(), 1);
}

#[test]
fn detects_ownership_change_during_post_write_verification() {
    let external = vec![item(&[(TEXT, b"external")])];
    let backend = FakeWriteBackend::new(vec![item(&[(TEXT, b"original")])], vec![WriteOutcome::Success]);
    backend.external_change_after_next_type_read.replace(Some(external.clone()));

    assert_eq!(
        replace_items(&backend, &[item(&[(TEXT, b"replacement")])]),
        Err(PasteboardSnapshotError::ChangedDuringWrite)
    );
    assert_eq!(backend.items(), external);
    assert_eq!(backend.write_calls.get(), 1);
}

#[test]
fn restoring_an_empty_snapshot_clears_without_attempting_a_write() {
    let backend = FakeWriteBackend::new(vec![item(&[(TEXT, b"copied")])], vec![]);

    assert_eq!(replace_items(&backend, &[]), Ok(2));
    assert!(backend.items().is_empty());
    assert_eq!(backend.write_calls.get(), 0);
}

#[test]
fn verifies_the_written_items_and_representations() {
    let unexpected = vec![item(&[(RTF, b"{\\rtf1 unexpected}")])];
    let backend = FakeWriteBackend::new(
        vec![item(&[(TEXT, b"original")])],
        vec![WriteOutcome::SucceedWith(unexpected.clone())],
    );

    assert_eq!(
        replace_items(&backend, &[item(&[(TEXT, b"replacement")])]),
        Err(PasteboardSnapshotError::WriteVerificationFailed)
    );
    assert_eq!(backend.items(), unexpected);
}

#[test]
fn expected_types_may_be_accompanied_by_extra_representations() {
    let written = vec![vec![TEXT.to_owned(), RTF.to_owned(), HTML.to_owned()]];
    let expected = vec![vec![TEXT.to_owned(), RTF.to_owned()]];
    assert!(contains_expected_item_types(&written, &expected));
    assert!(!contains_expected_item_types(&expected, &written));
    assert!(!contains_expected_item_types(&[], &expected));
    assert_eq!(
        item_types(&[item(&[(TEXT, b"a"), (PNG, b"b")])]),
        vec![vec![TEXT.to_owned(), PNG.to_owned()]]
    );
}
