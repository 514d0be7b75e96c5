use clipship::config::{Config, UploadMode};
use clipship::notify::{render, Message};
use clipship::paste::should_paste;
use clipship::shortcut::detect::{on_shortcut_press, should_fire, DOUBLE_TAP_WINDOW_MS};
use clipship::upload::errors::UploadError;
use clipship::upload::guard::InFlightGuard;
use clipship::upload::service::UploadSuccess;

#[test]
fn smoke() {
    assert_eq!(2 + 2, 4);
}

#[test]
fn render_covers_all_variants() {
    for m in [
        Message::UploadSucceeded("/x".into()),
        Message::UploadSucceededButClipboardChanged("/x".into()),
        Message::ClipboardEmpty,
        Message::ClipboardDirectoryUnsupported,
        Message::ConfigInvalid("x".into()),
        Message::SshBinariesMissing,
        Message::MkdirFailed("x".into()),
        Message::UploadFailed { stderr: "x".into(), part_path: "/x".into() },
        Message::FinalPathAlreadyExists("/x".into()),
        Message::UploadInProgress,
        Message::ClipboardWriteFailed,
        Message::PasteFailed { macos: true },
        Message::PasteFailed { macos: false },
        Message::LocalPathInvalid("/x".into()),
        Message::IoFailed("x".into()),
        Message::ShortcutRegistrationFailed("x".into()),
        Message::QuitDuringUpload,
    ] {
        let (_t, b) = render(&m);
        assert!(!b.is_empty());
    }
}

#[test]
fn render_exact_texts() {
    assert_eq!(
        render(&Message::UploadSucceeded("/r/a.png".into())),
        ("Clipship", "Uploaded. Remote path copied: /r/a.png".to_string())
    );
    assert_eq!(
        render(&Message::UploadFailed { stderr: "denied".into(), part_path: "/r/a.part".into() }).1,
        "Upload failed: denied. Remote partial file may be at: /r/a.part"
    );
    assert_eq!(
        render(&Message::ShortcutRegistrationFailed("busy".into())).1,
        "Global shortcut could not be registered: busy. Check system shortcut permissions and conflicts."
    );
    assert_eq!(render(&Message::UploadInProgress).1, "Upload already in progress.");
    assert_eq!(
        render(&Message::PasteFailed { macos: false }).1,
        "Path copied, but auto-paste failed \u{2014} paste it manually. Your desktop session may block synthetic input."
    );
    assert_eq!(
        render(&Message::PasteFailed { macos: true }).1,
        "Path copied, but auto-paste failed \u{2014} paste it manually. Grant Clipship the Accessibility permission (System Settings \u{2192} Privacy & Security \u{2192} Accessibility)."
    );
}

fn cfg(auto_paste: bool) -> Config {
    Config {
        version: 1,
        mode: UploadMode::Local,
        host: String::new(),
        port: 22,
        username: String::new(),
        private_key_path: String::new(),
        remote_dir: String::new(),
        shortcut: "CmdOrCtrl+Shift+U".into(),
        shortcut_double_tap: false,
        auto_cleanup: false,
        auto_paste,
    }
}

fn success(clipboard_updated: bool) -> UploadSuccess {
    UploadSuccess { remote_path: "/tmp/x.png".into(), clipboard_updated }
}

#[test]
fn off_never_pastes_even_on_success() {
    assert!(!should_paste(&cfg(false), &Ok(success(true))));
}

#[test]
fn on_and_clipboard_updated_pastes() {
    assert!(should_paste(&cfg(true), &Ok(success(true))));
}

#[test]
fn on_but_clipboard_changed_does_not_paste() {
    assert!(!should_paste(&cfg(true), &Ok(success(false))));
}

#[test]
fn on_but_upload_failed_does_not_paste() {
    assert!(!should_paste(&cfg(true), &Err(UploadError::ClipboardEmpty)));
}

// Times are milliseconds of a monotonic clock.

#[test]
fn first_press_only_stores_timestamp() {
    let now: u64 = 1_000;
    let (fire, next) = should_fire(None, now, 400);
    assert!(!fire);
    assert_eq!(next, Some(now));
}

#[test]
fn second_press_inside_window_fires_and_clears() {
    let t0: u64 = 1_000;
    let t1 = t0 + 399;
    let (fire, next) = should_fire(Some(t0), t1, 400);
    assert!(fire);
    assert_eq!(next, None);
}

#[test]
fn second_press_at_exact_window_boundary_fires() {
    let t0: u64 = 1_000;
    let t1 = t0 + 400;
    let (fire, next) = should_fire(Some(t0), t1, 400);
    assert!(fire);
    assert_eq!(next, None);
}

#[test]
fn second_press_outside_window_rearms_timestamp() {
    let t0: u64 = 1_000;
    let t1 = t0 + 401;
    let (fire, next) = should_fire(Some(t0), t1, 400);
    assert!(!fire);
    assert_eq!(next, Some(t1));
}

#[test]
fn earlier_clock_reading_counts_as_no_gap() {
    assert_eq!(should_fire(Some(5_000), 4_000, 400), (true, None));
}

#[test]
fn double_tap_off_fires_every_press() {
    assert_eq!(on_shortcut_press(Some(false), Some(7), 100), (true, Some(7)));
    assert_eq!(on_shortcut_press(None, None, 100), (true, None));
    assert_eq!(on_shortcut_press(Some(true), None, 100), (false, Some(100)));
    assert_eq!(
        on_shortcut_press(Some(true), Some(100), 100 + DOUBLE_TAP_WINDOW_MS),
        (true, None)
    );
    // Three presses in a row: arm, fire, arm again.
    let (f1, s1) = on_shortcut_press(Some(true), None, 0);
    let (f2, s2) = on_shortcut_press(Some(true), s1, 100);
    let (f3, s3) = on_shortcut_press(Some(true), s2, 200);
    assert_eq!((f1, f2, f3), (false, true, false));
    assert_eq!(s3, Some(200));
}

#[test]
fn second_acquire_fails_while_first_held() {
    let mut g = InFlightGuard::default();
    let _a = g.try_acquire().expect("first should acquire");
    assert!(g.is_busy());
    assert!(g.try_acquire().is_none());
}

#[test]
fn released_on_drop() {
    let mut g = InFlightGuard::default();
    {
        let a = g.try_acquire().unwrap();
        g.release(a);
    }
    assert!(!g.is_busy());
    assert!(g.try_acquire().is_some());
}
