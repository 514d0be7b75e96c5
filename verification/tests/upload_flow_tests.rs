use clipship::clipboard::adapter::ClipboardContent;
use clipship::config::{Config, ConfigField, UploadMode, ValidationError};
use clipship::config::validate::FieldError;
use clipship::naming::filename::build_remote_filename;
use clipship::notify::Message;
use clipship::ssh::runner::CmdOutcome;
use clipship::test_connection::{probe_name, TestAction, TestConnection, TestConnectionError};
use clipship::upload::errors::{error_to_message, UploadError};
use clipship::upload::service::{
    Finished, LocalSource, RemoteStep, SaveFailure, TempPath, UploadAction, UploadEvent, UploadFlow,
    UploadPhase,
};

fn ok_outcome() -> CmdOutcome {
    CmdOutcome { success: true, stdout: String::new(), stderr: String::new() }
}

fn fail_outcome(stderr: &str) -> CmdOutcome {
    CmdOutcome { success: false, stdout: String::new(), stderr: stderr.into() }
}

/// The outside world an upload talks to, scripted.
struct World {
    guard_free: bool,
    clipboard: ClipboardContent,
    /// What the clipboard holds once it has been read the first time (a user copying
    /// something else meanwhile).
    after_first_read: Option<ClipboardContent>,
    reads: usize,
    is_dir: bool,
    scripts: Vec<Result<CmdOutcome, String>>,
    calls: Vec<(RemoteStep, Vec<String>)>,
    written: Vec<String>,
    write_fails: bool,
    saved: Vec<(LocalSource, String)>,
    temp_written: Vec<Vec<u8>>,
}

impl World {
    fn new(clipboard: ClipboardContent, scripts: Vec<Result<CmdOutcome, String>>) -> World {
        World {
            guard_free: true,
            clipboard,
            after_first_read: None,
            reads: 0,
            is_dir: false,
            scripts,
            calls: vec![],
            written: vec![],
            write_fails: false,
            saved: vec![],
            temp_written: vec![],
        }
    }

    fn answer(&mut self, action: UploadAction) -> Result<UploadEvent, Finished> {
        Ok(match action {
            UploadAction::AcquireGuard => UploadEvent::GuardTaken(self.guard_free),
            UploadAction::ReadClipboard => {
                let c = self.clipboard.clone();
                self.reads += 1;
                if self.reads == 1 {
                    if let Some(next) = self.after_first_read.take() {
                        self.clipboard = next;
                    }
                }
                UploadEvent::ClipboardRead(c)
            }
            UploadAction::InspectPath(p) => UploadEvent::PathInspected {
                is_dir: self.is_dir,
                file_name: p.rsplit('/').next().map(|s| s.to_string()).filter(|s| !s.is_empty()),
            },
            UploadAction::WriteTempImage(bytes) => {
                self.temp_written.push(bytes);
                UploadEvent::TempImageWritten(Ok(TempPath {
                    path: "/tmp/clipship/clipboard-1.png".into(),
                    utf8: true,
                }))
            }
            UploadAction::NameFile(n) => UploadEvent::Named(build_remote_filename(&n)),
            UploadAction::RunCommand(step, argv) => {
                self.calls.push((step, argv));
                let r = if self.scripts.is_empty() {
                    panic!("no scripted outcome left")
                } else {
                    self.scripts.remove(0)
                };
                UploadEvent::CommandRan(r)
            }
            UploadAction::WriteClipboard(t) => {
                if self.write_fails {
                    UploadEvent::ClipboardWritten(Err("fake write failure".into()))
                } else {
                    self.written.push(t);
                    self.clipboard = ClipboardContent::Other;
                    UploadEvent::ClipboardWritten(Ok(()))
                }
            }
            UploadAction::SaveLocally { source, file_name } => {
                let dest = format!("/out/{file_name}");
                self.saved.push((source, file_name));
                UploadEvent::SavedLocally(Ok(dest))
            }
            UploadAction::Finish(f) => return Err(f),
            UploadAction::Idle => panic!("flow went idle before finishing"),
        })
    }

    fn run(&mut self, cfg: &Config) -> Finished {
        let (mut flow, mut action) = UploadFlow::start(cfg, Ok(()));
        loop {
            match self.answer(action) {
                Ok(event) => action = flow.step(event),
                Err(f) => {
                    assert!(flow.is_done());
                    return f;
                }
            }
        }
    }
}

fn valid_cfg() -> Config {
    Config {
        version: 1,
        mode: UploadMode::Ssh,
        host: "example.com".into(),
        port: 22,
        username: "alice".into(),
        private_key_path: "/home/alice/.ssh/id".into(),
        remote_dir: "/uploads".into(),
        shortcut: "CmdOrCtrl+Shift+U".into(),
        shortcut_double_tap: false,
        auto_cleanup: false,
        auto_paste: false,
    }
}

fn local_cfg() -> Config {
    let mut c = Config::default();
    c.mode = UploadMode::Local;
    c
}

fn four_ok() -> Vec<Result<CmdOutcome, String>> {
    vec![Ok(ok_outcome()), Ok(ok_outcome()), Ok(ok_outcome()), Ok(ok_outcome())]
}

#[test]
fn file_upload_happy_path_runs_all_four_ssh_steps_in_order() {
    let mut w = World::new(ClipboardContent::Files(vec!["/home/me/report.pdf".into()]), four_ok());
    let f = w.run(&valid_cfg());
    let out = f.result.unwrap();
    assert!(out.clipboard_updated);

    let calls = &w.calls;
    assert_eq!(calls.len(), 4);
    assert_eq!(calls[0].0, RemoteStep::MakeDir);
    assert_eq!(calls[0].1[0], "ssh");
    assert!(calls[0].1.last().unwrap().starts_with("mkdir -p"));
    assert_eq!(calls[1].1[0], "ssh");
    assert!(calls[1].1.last().unwrap().starts_with("rm -f"));
    assert_eq!(calls[2].1[0], "scp");
    assert_eq!(calls[2].1[calls[2].1.len() - 2], "/home/me/report.pdf");
    assert_eq!(calls[3].1[0], "ssh");
    assert!(calls[3].1.last().unwrap().starts_with("mv -n"));

    assert_eq!(w.written.len(), 1);
    assert!(w.written[0].starts_with("/uploads/"));
    assert!(w.written[0].ends_with("-report.pdf"));
    assert_eq!(w.written[0], out.remote_path);
    assert_eq!(f.record_last, Some(out.remote_path.clone()));
    assert_eq!(f.delete_temp, None);
    assert!(matches!(f.notice, Message::UploadSucceeded(_)));
}

#[test]
fn image_upload_goes_through_a_temp_file_that_is_deleted() {
    let mut w = World::new(ClipboardContent::Image(vec![1, 2, 3]), four_ok());
    let f = w.run(&valid_cfg());
    assert!(f.result.is_ok());
    assert_eq!(w.temp_written, vec![vec![1, 2, 3]]);
    assert_eq!(w.calls[2].1[w.calls[2].1.len() - 2], "/tmp/clipship/clipboard-1.png");
    assert!(f.result.unwrap().remote_path.ends_with("-clipboard.png"));
    assert_eq!(f.delete_temp, Some("/tmp/clipship/clipboard-1.png".to_string()));
}

#[test]
fn empty_remote_dir_uploads_to_the_default_directory() {
    let mut cfg = valid_cfg();
    cfg.remote_dir = String::new();
    let mut w = World::new(ClipboardContent::Files(vec!["/a/b.txt".into()]), four_ok());
    let f = w.run(&cfg);
    assert_eq!(w.calls[0].1.last().unwrap(), "mkdir -p '/tmp/clipship'");
    assert!(f.result.unwrap().remote_path.starts_with("/tmp/clipship/"));
}

#[test]
fn clipboard_changed_mid_upload_does_not_overwrite_clipboard() {
    let mut w = World::new(ClipboardContent::Files(vec!["/home/me/a.txt".into()]), four_ok());
    w.after_first_read = Some(ClipboardContent::Other);
    let f = w.run(&valid_cfg());
    let out = f.result.unwrap();
    assert!(!out.clipboard_updated);
    assert_eq!(w.written.len(), 0);
    assert!(matches!(f.notice, Message::UploadSucceededButClipboardChanged(_)));
    assert_eq!(f.record_last, Some(out.remote_path));
}

#[test]
fn scp_failure_surfaces_part_path_and_does_not_touch_clipboard() {
    let mut w = World::new(
        ClipboardContent::Files(vec!["/home/me/a.txt".into()]),
        vec![Ok(ok_outcome()), Ok(ok_outcome()), Ok(fail_outcome("permission denied"))],
    );
    let f = w.run(&valid_cfg());
    match f.result.unwrap_err() {
        UploadError::ScpFailed { stderr, part_path } => {
            assert_eq!(stderr, "permission denied");
            assert!(part_path.ends_with(".part"));
        }
        other => panic!("unexpected error: {other:?}"),
    }
    assert_eq!(w.written.len(), 0);
    assert!(matches!(f.notice, Message::UploadFailed { .. }));
    assert_eq!(f.record_last, None);
}

#[test]
fn mv_n_refusal_yields_final_exists_error() {
    let mut w = World::new(
        ClipboardContent::Files(vec!["/home/me/a.txt".into()]),
        vec![Ok(ok_outcome()), Ok(ok_outcome()), Ok(ok_outcome()), Ok(fail_outcome("cannot overwrite"))],
    );
    let f = w.run(&valid_cfg());
    assert!(matches!(f.result, Err(UploadError::FinalExists(_))));
    assert!(matches!(f.notice, Message::FinalPathAlreadyExists(_)));
}

#[test]
fn mkdir_failure_stops_before_any_copy() {
    let mut w = World::new(
        ClipboardContent::Files(vec!["/home/me/a.txt".into()]),
        vec![Ok(fail_outcome("denied"))],
    );
    let f = w.run(&valid_cfg());
    assert_eq!(f.result, Err(UploadError::MkdirFailed("denied".into())));
    assert_eq!(w.calls.len(), 1);
    assert_eq!(f.notice, Message::MkdirFailed("denied".into()));
}

#[test]
fn a_failed_stale_part_removal_does_not_stop_the_upload() {
    let mut w = World::new(
        ClipboardContent::Files(vec!["/home/me/a.txt".into()]),
        vec![Ok(ok_outcome()), Ok(fail_outcome("no such file")), Ok(ok_outcome()), Ok(ok_outcome())],
    );
    let f = w.run(&valid_cfg());
    assert!(f.result.is_ok());
    assert_eq!(w.calls.len(), 4);
}

#[test]
fn second_upload_call_while_busy_returns_in_progress() {
    let mut w = World::new(ClipboardContent::Files(vec!["/home/me/a.txt".into()]), vec![]);
    w.guard_free = false;
    let f = w.run(&valid_cfg());
    assert_eq!(f.result, Err(UploadError::InProgress));
    assert_eq!(f.notice, Message::UploadInProgress);
    assert_eq!(w.reads, 0);
}

#[test]
fn empty_clipboard_emits_notification_and_returns_error() {
    let mut w = World::new(ClipboardContent::Empty, vec![]);
    let f = w.run(&valid_cfg());
    assert_eq!(f.result, Err(UploadError::ClipboardEmpty));
    assert_eq!(f.notice, Message::ClipboardEmpty);
}

#[test]
fn directory_on_the_clipboard_is_refused() {
    let mut w = World::new(ClipboardContent::Files(vec!["/home/me/dir".into()]), vec![]);
    w.is_dir = true;
    let f = w.run(&valid_cfg());
    assert_eq!(f.result, Err(UploadError::ClipboardDirectory));
    assert_eq!(f.notice, Message::ClipboardDirectoryUnsupported);
}

#[test]
fn runner_io_error_emits_io_failed_notification() {
    let mut w = World::new(
        ClipboardContent::Files(vec!["/home/me/a.txt".into()]),
        vec![Err("ssh missing".into())],
    );
    let f = w.run(&valid_cfg());
    assert_eq!(f.result, Err(UploadError::Io("ssh missing".into())));
    assert_eq!(f.notice, Message::IoFailed("ssh missing".into()));
}

#[test]
fn clipboard_write_failure_is_reported() {
    let mut w = World::new(ClipboardContent::Files(vec!["/home/me/a.txt".into()]), four_ok());
    w.write_fails = true;
    let f = w.run(&valid_cfg());
    assert_eq!(f.result, Err(UploadError::ClipboardWrite));
    assert_eq!(f.notice, Message::ClipboardWriteFailed);
}

#[test]
fn invalid_config_finishes_at_once() {
    let e = ValidationError { field: ConfigField::Host, err: FieldError::HostEmpty };
    let (flow, action) = UploadFlow::start(&valid_cfg(), Err(e));
    assert!(flow.is_done());
    match action {
        UploadAction::Finish(f) => {
            assert_eq!(f.result, Err(UploadError::ConfigInvalid("host: host is empty".into())));
            assert_eq!(f.notice, Message::ConfigInvalid("host: host is empty".into()));
        }
        other => panic!("unexpected action: {other:?}"),
    }
}

#[test]
fn events_out_of_place_are_ignored() {
    let (mut flow, _) = UploadFlow::start(&valid_cfg(), Ok(()));
    assert_eq!(flow.phase(), UploadPhase::Acquire);
    assert!(matches!(flow.step(UploadEvent::Named(Some("x".into()))), UploadAction::Idle));
    assert_eq!(flow.phase(), UploadPhase::Acquire);
}

#[test]
fn local_file_upload_copies_file_and_updates_clipboard() {
    let mut w = World::new(ClipboardContent::Files(vec!["/home/me/hello.txt".into()]), vec![]);
    let f = w.run(&local_cfg());
    let result = f.result.unwrap();
    assert!(result.clipboard_updated);
    assert_eq!(w.saved.len(), 1);
    assert_eq!(w.saved[0].0, LocalSource::CopyFile("/home/me/hello.txt".into()));
    assert!(w.saved[0].1.ends_with("-hello.txt"));
    assert_eq!(w.written, vec![result.remote_path.clone()]);
    assert_eq!(f.record_last, Some(result.remote_path));
}

#[test]
fn local_image_upload_writes_png_to_output_dir() {
    let bytes = vec![0x89u8, 0x50, 0x4E, 0x47];
    let mut w = World::new(ClipboardContent::Image(bytes.clone()), vec![]);
    let f = w.run(&local_cfg());
    let result = f.result.unwrap();
    assert!(result.clipboard_updated);
    assert!(result.remote_path.ends_with(".png"));
    assert_eq!(w.saved[0].0, LocalSource::WriteBytes(bytes));
    assert!(w.temp_written.is_empty());
}

#[test]
fn local_empty_clipboard_returns_error() {
    let mut w = World::new(ClipboardContent::Empty, vec![]);
    let f = w.run(&local_cfg());
    assert_eq!(f.result, Err(UploadError::ClipboardEmpty));
}

#[test]
fn local_uploads_make_no_ssh_calls() {
    let mut w = World::new(ClipboardContent::Files(vec!["/home/me/a.txt".into()]), vec![]);
    w.run(&local_cfg()).result.unwrap();
    assert_eq!(w.calls.len(), 0, "local mode must not invoke any SSH/SCP commands");
}

#[test]
fn local_save_failures_map_to_errors() {
    let mut cfg_flow = UploadFlow::start(&local_cfg(), Ok(())).0;
    cfg_flow.step(UploadEvent::GuardTaken(true));
    cfg_flow.step(UploadEvent::ClipboardRead(ClipboardContent::Image(vec![1])));
    cfg_flow.step(UploadEvent::Named(Some("n.png".into())));
    assert_eq!(cfg_flow.phase(), UploadPhase::Save);
    match cfg_flow.step(UploadEvent::SavedLocally(Err(SaveFailure::NotUtf8("/o/\u{fffd}".into())))) {
        UploadAction::Finish(f) => {
            assert_eq!(f.result, Err(UploadError::LocalPathInvalid("/o/\u{fffd}".into())))
        }
        other => panic!("unexpected action: {other:?}"),
    }
}

#[test]
fn every_error_has_its_notification() {
    let cases = vec![
        (UploadError::ConfigInvalid("c".into()), Message::ConfigInvalid("c".into())),
        (UploadError::BinariesMissing, Message::SshBinariesMissing),
        (UploadError::ClipboardEmpty, Message::ClipboardEmpty),
        (UploadError::ClipboardDirectory, Message::ClipboardDirectoryUnsupported),
        (UploadError::MkdirFailed("m".into()), Message::MkdirFailed("m".into())),
        (
            UploadError::ScpFailed { stderr: "s".into(), part_path: "/p".into() },
            Message::UploadFailed { stderr: "s".into(), part_path: "/p".into() },
        ),
        (UploadError::FinalExists("/f".into()), Message::FinalPathAlreadyExists("/f".into())),
        (UploadError::InProgress, Message::UploadInProgress),
        (UploadError::ClipboardWrite, Message::ClipboardWriteFailed),
        (UploadError::LocalPathInvalid("/l".into()), Message::LocalPathInvalid("/l".into())),
        (UploadError::Io("e".into()), Message::IoFailed("e".into())),
    ];
    for (e, m) in cases {
        assert_eq!(error_to_message(&e), Some(m));
    }
}

#[test]
fn upload_error_texts() {
    assert_eq!(UploadError::InProgress.message(), "already in progress");
    assert_eq!(
        UploadError::ScpFailed { stderr: "x".into(), part_path: "/p".into() }.message(),
        "upload failed: x (partial at /p)"
    );
    assert_eq!(UploadError::Io("gone".into()).message(), "io: gone");
}

// Connection test.

fn test_cfg() -> Config {
    let mut c = Config::default();
    c.host = "example.com".into();
    c.username = "alice".into();
    c.private_key_path = "/k".into();
    c.remote_dir = "/uploads".into();
    c
}

fn run_test_connection(
    scripts: Vec<Result<CmdOutcome, String>>,
) -> (Result<(), TestConnectionError>, Vec<Vec<String>>) {
    let mut scripts = scripts;
    let mut calls = vec![];
    let (mut t, mut a) = TestConnection::start(&test_cfg(), Ok(()), probe_name("abcdefgh"));
    loop {
        match a {
            TestAction::Run(argv) => {
                calls.push(argv);
                a = t.step(scripts.remove(0));
            }
            TestAction::Finish(r) => return (r, calls),
            TestAction::Idle => panic!("idle"),
        }
    }
}

#[test]
fn success_runs_mkdir_touch_remove_in_order() {
    let (r, calls) = run_test_connection(vec![Ok(ok_outcome()), Ok(ok_outcome()), Ok(ok_outcome())]);
    assert_eq!(r, Ok(()));
    assert_eq!(calls.len(), 3);
    assert!(calls[0].last().unwrap().starts_with("mkdir -p"));
    assert!(calls[1].last().unwrap().starts_with("touch "));
    assert!(calls[2].last().unwrap().starts_with("rm "));
    assert_eq!(calls[1].last().unwrap(), "touch '/uploads/.clipship-probe-abcdefgh'");
}

#[test]
fn mkdir_failure_is_reported_and_probe_is_skipped() {
    let (r, calls) = run_test_connection(vec![Ok(fail_outcome("denied"))]);
    assert!(matches!(r, Err(TestConnectionError::Mkdir(_))));
    assert_eq!(calls.len(), 1);
}

#[test]
fn touch_failure_is_surfaced() {
    let (r, _) = run_test_connection(vec![Ok(ok_outcome()), Ok(fail_outcome("read only"))]);
    assert_eq!(r, Err(TestConnectionError::ProbeTouch("read only".into())));
}

#[test]
fn remove_failure_and_spawn_failure() {
    let (r, _) =
        run_test_connection(vec![Ok(ok_outcome()), Ok(ok_outcome()), Ok(fail_outcome("busy"))]);
    assert_eq!(r, Err(TestConnectionError::ProbeRemove("busy".into())));
    let (r, calls) = run_test_connection(vec![Err("no ssh".into())]);
    assert_eq!(r, Err(TestConnectionError::Io("no ssh".into())));
    assert_eq!(calls.len(), 1);
}

#[test]
fn test_connection_refuses_invalid_config() {
    let e = ValidationError { field: ConfigField::Port, err: FieldError::PortOutOfRange };
    let (mut t, a) = TestConnection::start(&test_cfg(), Err(e), probe_name("x"));
    match a {
        TestAction::Finish(Err(TestConnectionError::ConfigInvalid(m))) => {
            assert_eq!(m, "port: port must be between 1 and 65535")
        }
        other => panic!("unexpected action: {other:?}"),
    }
    assert!(matches!(t.step(Ok(ok_outcome())), TestAction::Idle));
}

#[test]
fn unreadable_clock_fails_the_upload_and_gives_the_guard_back() {
    let (mut flow, _) = UploadFlow::start(&valid_cfg(), Ok(()));
    flow.step(UploadEvent::GuardTaken(true));
    flow.step(UploadEvent::ClipboardRead(ClipboardContent::Files(vec!["/a/b.txt".into()])));
    flow.step(UploadEvent::PathInspected { is_dir: false, file_name: Some("b.txt".into()) });
    assert_eq!(flow.phase(), UploadPhase::Name);
    match flow.step(UploadEvent::Named(None)) {
        UploadAction::Finish(f) => {
            let text = clipship::naming::filename::clock_error();
            assert_eq!(f.result, Err(UploadError::Io(text.clone())));
            assert_eq!(f.notice, Message::IoFailed(text));
            assert!(f.release_guard);
        }
        other => panic!("unexpected action: {other:?}"),
    }
}

#[test]
fn guard_is_given_back_only_when_taken() {
    let mut w = World::new(ClipboardContent::Files(vec!["/home/me/a.txt".into()]), four_ok());
    assert!(w.run(&valid_cfg()).release_guard);
    let mut busy = World::new(ClipboardContent::Empty, vec![]);
    busy.guard_free = false;
    assert!(!busy.run(&valid_cfg()).release_guard);
    let mut empty = World::new(ClipboardContent::Empty, vec![]);
    assert!(empty.run(&valid_cfg()).release_guard);
    let e = ValidationError { field: ConfigField::Host, err: FieldError::HostEmpty };
    match UploadFlow::start(&valid_cfg(), Err(e)).1 {
        UploadAction::Finish(f) => assert!(!f.release_guard),
        other => panic!("unexpected action: {other:?}"),
    }
}
