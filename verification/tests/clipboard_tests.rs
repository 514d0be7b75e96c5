use clipship::clipboard::adapter::{choose_content, ClipboardAdapter, ClipboardContent};
use std::cell::RefCell;
use clipship::clipboard::classify::{classify, classify_with, Classified};
use clipship::clipboard::image::{temp_image_file_name, temp_image_name};
use clipship::clipboard::snapshot::Snapshot;

#[test]
fn image_bytes_are_carried_through() {
    let c = classify(ClipboardContent::Image(vec![9, 9, 9]));
    assert_eq!(c, Classified::ImageBytes(vec![9, 9, 9]));
}

#[test]
fn other_and_empty_become_nothing() {
    assert_eq!(classify(ClipboardContent::Other), Classified::Nothing);
    assert_eq!(classify(ClipboardContent::Empty), Classified::Nothing);
}

#[test]
fn file_picks_first() {
    let content = ClipboardContent::Files(vec!["/tmp/a.txt".into(), "/x/y".into()]);
    let c = classify_with(content, false);
    assert_eq!(c, Classified::FileToUpload("/tmp/a.txt".into()));
}

#[test]
fn directory_is_unsupported() {
    let c = classify_with(ClipboardContent::Files(vec!["/tmp".into()]), true);
    assert_eq!(c, Classified::DirectoryUnsupported);
}

#[test]
fn empty_file_list_is_nothing() {
    assert_eq!(classify(ClipboardContent::Files(vec![])), Classified::Nothing);
}

#[test]
fn classify_asks_the_file_system_about_the_first_path() {
    let c = classify(ClipboardContent::Files(vec!["/definitely/does/not/exist/xyz".into()]));
    assert_eq!(c, Classified::FileToUpload("/definitely/does/not/exist/xyz".into()));
}

#[test]
fn files_match_when_list_identical() {
    let c = ClipboardContent::Files(vec!["/a".into(), "/b".into()]);
    let snap = Snapshot::of(&c);
    assert!(snap.matches(&c));
}

#[test]
fn files_mismatch_when_order_differs() {
    let c1 = ClipboardContent::Files(vec!["/a".into(), "/b".into()]);
    let c2 = ClipboardContent::Files(vec!["/b".into(), "/a".into()]);
    assert!(!Snapshot::of(&c1).matches(&c2));
}

#[test]
fn image_matches_by_sha() {
    let c = ClipboardContent::Image(vec![1, 2, 3, 4]);
    let snap = Snapshot::of(&c);
    assert!(snap.matches(&c));
}

#[test]
fn image_mismatch_when_bytes_differ() {
    let snap = Snapshot::of(&ClipboardContent::Image(vec![1, 2, 3]));
    assert!(!snap.matches(&ClipboardContent::Image(vec![1, 2, 3, 4])));
}

#[test]
fn kind_transition_counts_as_changed() {
    let snap = Snapshot::of(&ClipboardContent::Files(vec!["/a".into()]));
    assert!(!snap.matches(&ClipboardContent::Image(vec![1])));
    assert!(!snap.matches(&ClipboardContent::Other));
    assert!(!snap.matches(&ClipboardContent::Empty));
}

#[test]
fn other_and_empty_never_match() {
    let s = Snapshot::of(&ClipboardContent::Other);
    assert!(!s.matches(&ClipboardContent::Other));
}

#[test]
fn image_snapshot_holds_the_sha256_digest() {
    // SHA-256 of the empty input.
    let expected: [u8; 32] = [
        0xe3, 0xb0, 0xc4, 0x42, 0x98, 0xfc, 0x1c, 0x14, 0x9a, 0xfb, 0xf4, 0xc8, 0x99, 0x6f, 0xb9,
        0x24, 0x27, 0xae, 0x41, 0xe4, 0x64, 0x9b, 0x93, 0x4c, 0xa4, 0x95, 0x99, 0x1b, 0x78, 0x52,
        0xb8, 0x55,
    ];
    assert_eq!(Snapshot::of(&ClipboardContent::Image(vec![])), Snapshot::ImageSha256(expected));
}

#[test]
fn content_prefers_files_then_image_then_text() {
    assert_eq!(
        choose_content(true, Some(vec!["/a".into()]), Some(vec![1]), true),
        ClipboardContent::Files(vec!["/a".into()])
    );
    assert_eq!(choose_content(true, Some(vec![]), Some(vec![1]), true), ClipboardContent::Image(vec![1]));
    assert_eq!(choose_content(true, None, None, true), ClipboardContent::Other);
    assert_eq!(choose_content(true, None, None, false), ClipboardContent::Empty);
    assert_eq!(choose_content(false, Some(vec!["/a".into()]), None, true), ClipboardContent::Empty);
}

#[test]
fn write_creates_unique_file() {
    let a = temp_image_file_name().unwrap();
    let b = temp_image_file_name().unwrap();
    let re = regex::Regex::new(r"^clipboard-\d{8}-\d{6}-\d{3}-\d+\.png$").unwrap();
    assert!(re.is_match(&a), "unexpected: {a}");
    assert!(re.is_match(&b), "unexpected: {b}");
    assert_ne!(a, b);
}

struct FakeClipboard {
    content: RefCell<ClipboardContent>,
    written: RefCell<Vec<String>>,
}

impl ClipboardAdapter for FakeClipboard {
    fn read(&self) -> ClipboardContent {
        self.content.borrow().clone()
    }

    fn write_text(&self, text: &str) -> Result<(), String> {
        self.written.borrow_mut().push(text.to_string());
        *self.content.borrow_mut() = ClipboardContent::Other;
        Ok(())
    }
}

#[test]
fn fake_round_trips_read_and_write() {
    let c = FakeClipboard {
        content: RefCell::new(ClipboardContent::Files(vec!["/tmp/a".into()])),
        written: RefCell::new(vec![]),
    };
    assert!(matches!(c.read(), ClipboardContent::Files(_)));
    c.write_text("hello").unwrap();
    assert_eq!(*c.written.borrow(), vec!["hello"]);
}

#[test]
fn classify_sees_a_real_directory() {
    assert_eq!(
        classify(ClipboardContent::Files(vec!["/".into(), "/tmp/a".into()])),
        Classified::DirectoryUnsupported
    );
}

#[test]
fn temp_image_name_layout() {
    assert_eq!(temp_image_name("20240102-030405-006", 42), "clipboard-20240102-030405-006-42.png");
}
