//! One upload, as a sequence of decisions.
//!
//! The work between decisions (taking the in-flight guard, reading and writing the
//! clipboard, asking the file system about a path, writing a temporary image, naming the
//! file, running `ssh`/`scp`, saving locally) is done by the caller: `UploadFlow` says what to
//! do next (`UploadAction`) and is told what happened (`UploadEvent`). The flow ends with
//! exactly one `Finish`, carrying the result and the one notification to show.
use vstd::prelude::*;
use crate::clipboard::adapter::{strings_view, ClipboardContent, ContentV};
use crate::clipboard::snapshot::{snapshot_matches_spec, snapshot_of_spec, Snapshot, SnapshotV};
use crate::config::{Config, UploadMode, ValidationError};
use crate::naming::filename::{clock_error, clock_error_text};
use crate::naming::remote_path::{join, join_spec, part_path, part_path_spec};
use crate::notify::{Message, MessageV};
use crate::ssh::commands::{
    mkdir, mkdir_spec, mv_no_overwrite, mv_no_overwrite_spec, rm_part, rm_part_spec, scp_upload,
    scp_upload_spec,
};
use crate::ssh::runner::{CmdOutcome, CmdOutcomeV};
use crate::text::owned;
use crate::upload::errors::{error_message_spec, error_to_message, UploadError, UploadErrorV};

verus! {

/// A finished upload: where the file is now, and whether that path reached the clipboard.
#[derive(Debug, Clone, PartialEq, Eq)]
pub struct UploadSuccess {
    pub remote_path: String,
    pub clipboard_updated: bool,
}

pub struct UploadSuccessV {
    pub remote_path: Seq<char>,
    pub clipboard_updated: bool,
}

impl View for UploadSuccess {
    type V = UploadSuccessV;

    open spec fn view(&self) -> UploadSuccessV {
        UploadSuccessV { remote_path: self.remote_path@, clipboard_updated: self.clipboard_updated }
    }
}

/// The view of an upload result.
pub open spec fn result_view(r: Result<UploadSuccess, UploadError>) -> Result<
    UploadSuccessV,
    UploadErrorV,
> {
    match r {
        Ok(s) => Ok(s@),
        Err(e) => Err(e@),
    }
}

/// The one notification an upload result is shown as.
pub open spec fn notice_spec(r: Result<UploadSuccessV, UploadErrorV>) -> MessageV {
    match r {
        Ok(s) => if s.clipboard_updated {
            MessageV::UploadSucceeded(s.remote_path)
        } else {
            MessageV::UploadSucceededButClipboardChanged(s.remote_path)
        },
        Err(e) => error_message_spec(e),
    }
}

/// Where an upload stands.
#[derive(Debug, Clone, Copy, PartialEq, Eq, Structural)]
pub enum UploadPhase {
    /// Waiting for the in-flight guard.
    Acquire,
    /// Waiting for the clipboard content.
    Read,
    /// Waiting to learn whether the first listed path is a directory, and its file name.
    Inspect,
    /// Waiting for the clipboard image to be written to a temporary file.
    TempImage,
    /// Waiting for the timestamped file name.
    Name,
    /// Waiting for `mkdir -p` on the remote host.
    Mkdir,
    /// Waiting for the removal of a stale partial file.
    RemovePart,
    /// Waiting for `scp` to the partial path.
    Copy,
    /// Waiting for `mv -n` from the partial to the final path.
    Rename,
    /// Waiting for the clipboard content again, to see whether it changed.
    Recheck,
    /// Waiting for the final path to be written to the clipboard.
    WriteBack,
    /// Waiting for the local copy.
    Save,
    /// Waiting for the local path to be written to the clipboard.
    LocalWriteBack,
    /// Finished.
    Done,
}

/// The remote commands an SSH upload runs, in order.
#[derive(Debug, Clone, Copy, PartialEq, Eq, Structural)]
pub enum RemoteStep {
    MakeDir,
    RemovePart,
    Copy,
    Rename,
}

/// A temporary file holding the clipboard image: its path (lossy when not UTF-8) and whether
/// the path is valid UTF-8.
#[derive(Debug, Clone, PartialEq, Eq)]
pub struct TempPath {
    pub path: String,
    pub utf8: bool,
}

/// Why a local save failed.
#[derive(Debug, Clone, PartialEq, Eq)]
pub enum SaveFailure {
    /// The OS error text.
    Io(String),
    /// The destination path, which is not valid UTF-8 (shown lossily).
    NotUtf8(String),
}

/// What a local save copies.
#[derive(Debug, Clone, PartialEq, Eq)]
pub enum LocalSource {
    /// Copy this file.
    CopyFile(String),
    /// Write these bytes (a clipboard image).
    WriteBytes(Vec<u8>),
}

/// What happened since the last action.
#[derive(Debug)]
pub enum UploadEvent {
    GuardTaken(bool),
    ClipboardRead(ClipboardContent),
    PathInspected { is_dir: bool, file_name: Option<String> },
    TempImageWritten(Result<TempPath, String>),
    /// The timestamped name, or nothing when the clock could not be read.
    Named(Option<String>),
    CommandRan(Result<CmdOutcome, String>),
    ClipboardWritten(Result<(), String>),
    SavedLocally(Result<String, SaveFailure>),
}

/// The end of an upload: its result, the path to remember as the last upload, the temporary
/// file to delete, whether to give the in-flight guard back, and the notification to show.
#[derive(Debug)]
pub struct Finished {
    pub result: Result<UploadSuccess, UploadError>,
    pub record_last: Option<String>,
    pub delete_temp: Option<String>,
    pub release_guard: bool,
    pub notice: Message,
}

/// What to do next.
#[derive(Debug)]
pub enum UploadAction {
    AcquireGuard,
    ReadClipboard,
    InspectPath(String),
    WriteTempImage(Vec<u8>),
    NameFile(String),
    RunCommand(RemoteStep, Vec<String>),
    WriteClipboard(String),
    SaveLocally { source: LocalSource, file_name: String },
    Finish(Finished),
    /// The event did not fit the current phase (or the upload is over); nothing to do.
    Idle,
}

pub enum SaveFailureV {
    Io(Seq<char>),
    NotUtf8(Seq<char>),
}

pub enum LocalSourceV {
    CopyFile(Seq<char>),
    WriteBytes(Seq<u8>),
}

pub enum UploadEventV {
    GuardTaken(bool),
    ClipboardRead(ContentV),
    PathInspected { is_dir: bool, file_name: Option<Seq<char>> },
    TempImageWritten(Result<(Seq<char>, bool), Seq<char>>),
    Named(Option<Seq<char>>),
    CommandRan(Result<CmdOutcomeV, Seq<char>>),
    ClipboardWritten(Result<(), Seq<char>>),
    SavedLocally(Result<Seq<char>, SaveFailureV>),
}

pub struct FinishedV {
    pub result: Result<UploadSuccessV, UploadErrorV>,
    pub record_last: Option<Seq<char>>,
    pub delete_temp: Option<Seq<char>>,
    pub release_guard: bool,
    pub notice: MessageV,
}

pub enum UploadActionV {
    AcquireGuard,
    ReadClipboard,
    InspectPath(Seq<char>),
    WriteTempImage(Seq<u8>),
    NameFile(Seq<char>),
    RunCommand(RemoteStep, Seq<Seq<char>>),
    WriteClipboard(Seq<char>),
    SaveLocally { source: LocalSourceV, file_name: Seq<char> },
    Finish(FinishedV),
    Idle,
}

pub open spec fn opt_view(o: Option<String>) -> Option<Seq<char>> {
    match o {
        Some(s) => Some(s@),
        None => None,
    }
}

impl View for UploadEvent {
    type V = UploadEventV;

    open spec fn view(&self) -> UploadEventV {
        match self {
            UploadEvent::GuardTaken(b) => UploadEventV::GuardTaken(*b),
            UploadEvent::ClipboardRead(c) => UploadEventV::ClipboardRead(c@),
            UploadEvent::PathInspected { is_dir, file_name } => UploadEventV::PathInspected {
                is_dir: *is_dir,
                file_name: opt_view(*file_name),
            },
            UploadEvent::TempImageWritten(r) => UploadEventV::TempImageWritten(
                match r {
                    Ok(t) => Ok((t.path@, t.utf8)),
                    Err(e) => Err(e@),
                },
            ),
            UploadEvent::Named(n) => UploadEventV::Named(opt_view(*n)),
            UploadEvent::CommandRan(r) => UploadEventV::CommandRan(
                match r {
                    Ok(o) => Ok(o@),
                    Err(e) => Err(e@),
                },
            ),
            UploadEvent::ClipboardWritten(r) => UploadEventV::ClipboardWritten(
                match r {
                    Ok(()) => Ok(()),
                    Err(e) => Err(e@),
                },
            ),
            UploadEvent::SavedLocally(r) => UploadEventV::SavedLocally(
                match r {
                    Ok(p) => Ok(p@),
                    Err(SaveFailure::Io(e)) => Err(SaveFailureV::Io(e@)),
                    Err(SaveFailure::NotUtf8(p)) => Err(SaveFailureV::NotUtf8(p@)),
                },
            ),
        }
    }
}

impl View for Finished {
    type V = FinishedV;

    open spec fn view(&self) -> FinishedV {
        FinishedV {
            result: result_view(self.result),
            record_last: opt_view(self.record_last),
            delete_temp: opt_view(self.delete_temp),
            release_guard: self.release_guard,
            notice: self.notice@,
        }
    }
}

impl View for UploadAction {
    type V = UploadActionV;

    open spec fn view(&self) -> UploadActionV {
        match self {
            UploadAction::AcquireGuard => UploadActionV::AcquireGuard,
            UploadAction::ReadClipboard => UploadActionV::ReadClipboard,
            UploadAction::InspectPath(p) => UploadActionV::InspectPath(p@),
            UploadAction::WriteTempImage(b) => UploadActionV::WriteTempImage(b@),
            UploadAction::NameFile(n) => UploadActionV::NameFile(n@),
            UploadAction::RunCommand(t, v) => UploadActionV::RunCommand(*t, strings_view(v@)),
            UploadAction::WriteClipboard(p) => UploadActionV::WriteClipboard(p@),
            UploadAction::SaveLocally { source, file_name } => UploadActionV::SaveLocally {
                source: match source {
                    LocalSource::CopyFile(p) => LocalSourceV::CopyFile(p@),
                    LocalSource::WriteBytes(b) => LocalSourceV::WriteBytes(b@),
                },
                file_name: file_name@,
            },
            UploadAction::Finish(f) => UploadActionV::Finish(f@),
            UploadAction::Idle => UploadActionV::Idle,
        }
    }
}

/// The state of one upload.
pub struct UploadFlow {
    phase: UploadPhase,
    holds_guard: bool,
    mode: UploadMode,
    port: u16,
    key: String,
    user: String,
    host: String,
    remote_dir: String,
    snapshot: Snapshot,
    source_path: String,
    source_utf8: bool,
    image: Option<Vec<u8>>,
    temp: Option<String>,
    remote_final: String,
    remote_part: String,
}

pub struct FlowV {
    pub phase: UploadPhase,
    pub holds_guard: bool,
    pub mode: UploadMode,
    pub port: u16,
    pub key: Seq<char>,
    pub user: Seq<char>,
    pub host: Seq<char>,
    pub remote_dir: Seq<char>,
    pub snapshot: SnapshotV,
    pub source_path: Seq<char>,
    pub source_utf8: bool,
    pub image: Option<Seq<u8>>,
    pub temp: Option<Seq<char>>,
    pub remote_final: Seq<char>,
    pub remote_part: Seq<char>,
}

impl View for UploadFlow {
    type V = FlowV;

    closed spec fn view(&self) -> FlowV {
        FlowV {
            phase: self.phase,
            holds_guard: self.holds_guard,
            mode: self.mode,
            port: self.port,
            key: self.key@,
            user: self.user@,
            host: self.host@,
            remote_dir: self.remote_dir@,
            snapshot: self.snapshot@,
            source_path: self.source_path@,
            source_utf8: self.source_utf8,
            image: match self.image {
                Some(b) => Some(b@),
                None => None,
            },
            temp: opt_view(self.temp),
            remote_final: self.remote_final@,
            remote_part: self.remote_part@,
        }
    }
}

/// The directory SSH uploads go to when none is configured.
pub open spec fn default_remote_dir() -> Seq<char> {
    "/tmp/clipship"@
}

/// The file name used for clipboard images.
pub open spec fn image_name() -> Seq<char> {
    "clipboard.png"@
}

/// The file name used when a path has none.
pub open spec fn fallback_name() -> Seq<char> {
    "file"@
}

/// End with an error: nothing recorded, nothing deleted.
pub open spec fn fail(s: FlowV, e: UploadErrorV) -> (FlowV, UploadActionV) {
    (
        FlowV { phase: UploadPhase::Done, ..s },
        UploadActionV::Finish(
            FinishedV {
                result: Err(e),
                record_last: None,
                delete_temp: None,
                release_guard: s.holds_guard,
                notice: error_message_spec(e),
            },
        ),
    )
}

/// End with success: the path is recorded as the last upload and the temporary image, if
/// any, is deleted.
pub open spec fn succeed(s: FlowV, path: Seq<char>, updated: bool) -> (FlowV, UploadActionV) {
    let ok = UploadSuccessV { remote_path: path, clipboard_updated: updated };
    (
        FlowV { phase: UploadPhase::Done, ..s },
        UploadActionV::Finish(
            FinishedV {
                result: Ok(ok),
                record_last: Some(path),
                delete_temp: s.temp,
                release_guard: s.holds_guard,
                notice: notice_spec(Ok(ok)),
            },
        ),
    )
}

/// The initial state and first action for a configuration that has (or has not) validated.
pub open spec fn start_spec(cfg: Config, validation: Result<(), ValidationError>) -> (
    FlowV,
    UploadActionV,
) {
    let s = FlowV {
        phase: UploadPhase::Acquire,
        holds_guard: false,
        mode: cfg.mode,
        port: cfg.port,
        key: cfg.private_key_path@,
        user: cfg.username@,
        host: cfg.host@,
        remote_dir: cfg.remote_dir@,
        snapshot: SnapshotV::Empty,
        source_path: Seq::empty(),
        source_utf8: true,
        image: None,
        temp: None,
        remote_final: Seq::empty(),
        remote_part: Seq::empty(),
    };
    match validation {
        Err(e) => fail(s, UploadErrorV::ConfigInvalid(e.message_spec())),
        Ok(()) => (s, UploadActionV::AcquireGuard),
    }
}

/// The directory an SSH upload goes to.
pub open spec fn target_dir(s: FlowV) -> Seq<char> {
    if s.remote_dir.len() == 0 {
        default_remote_dir()
    } else {
        s.remote_dir
    }
}

/// One decision: the next state and action after `e`.
pub open spec fn step_spec(s: FlowV, e: UploadEventV) -> (FlowV, UploadActionV) {
    let idle = (s, UploadActionV::Idle);
    match (s.phase, e) {
        (UploadPhase::Acquire, UploadEventV::GuardTaken(taken)) => if taken {
            (
                FlowV { phase: UploadPhase::Read, holds_guard: true, ..s },
                UploadActionV::ReadClipboard,
            )
        } else {
            fail(s, UploadErrorV::InProgress)
        },
        (UploadPhase::Read, UploadEventV::ClipboardRead(c)) => {
            let s = if s.mode == UploadMode::Ssh {
                FlowV { snapshot: snapshot_of_spec(c), ..s }
            } else {
                s
            };
            match c {
                ContentV::Files(list) => if list.len() > 0 {
                    (
                        FlowV { phase: UploadPhase::Inspect, source_path: list[0], ..s },
                        UploadActionV::InspectPath(list[0]),
                    )
                } else {
                    fail(s, UploadErrorV::ClipboardEmpty)
                },
                ContentV::Image(bytes) => if s.mode == UploadMode::Ssh {
                    (FlowV { phase: UploadPhase::TempImage, ..s }, UploadActionV::WriteTempImage(bytes))
                } else {
                    (
                        FlowV { phase: UploadPhase::Name, image: Some(bytes), ..s },
                        UploadActionV::NameFile(image_name()),
                    )
                },
                _ => fail(s, UploadErrorV::ClipboardEmpty),
            }
        },
        (UploadPhase::Inspect, UploadEventV::PathInspected { is_dir, file_name }) => if is_dir {
            fail(s, UploadErrorV::ClipboardDirectory)
        } else {
            (
                FlowV { phase: UploadPhase::Name, ..s },
                UploadActionV::NameFile(
                    match file_name {
                        Some(n) => n,
                        None => fallback_name(),
                    },
                ),
            )
        },
        (UploadPhase::TempImage, UploadEventV::TempImageWritten(r)) => match r {
            Err(e) => fail(s, UploadErrorV::Io(e)),
            Ok((path, utf8)) => (
                FlowV {
                    phase: UploadPhase::Name,
                    source_path: path,
                    source_utf8: utf8,
                    temp: Some(path),
                    ..s
                },
                UploadActionV::NameFile(image_name()),
            ),
        },
        (UploadPhase::Name, UploadEventV::Named(None)) => fail(s, UploadErrorV::Io(clock_error_text())),
        (UploadPhase::Name, UploadEventV::Named(Some(name))) => if s.mode == UploadMode::Ssh {
            let dir = target_dir(s);
            let fin = join_spec(dir, name);
            let part = part_path_spec(fin);
            (
                FlowV {
                    phase: UploadPhase::Mkdir,
                    remote_dir: dir,
                    remote_final: fin,
                    remote_part: part,
                    ..s
                },
                UploadActionV::RunCommand(
                    RemoteStep::MakeDir,
                    mkdir_spec(s.port, s.key, s.user, s.host, dir),
                ),
            )
        } else {
            (
                FlowV { phase: UploadPhase::Save, image: None, ..s },
                UploadActionV::SaveLocally {
                    source: match s.image {
                        Some(b) => LocalSourceV::WriteBytes(b),
                        None => LocalSourceV::CopyFile(s.source_path),
                    },
                    file_name: name,
                },
            )
        },
        (UploadPhase::Mkdir, UploadEventV::CommandRan(r)) => match r {
            Err(e) => fail(s, UploadErrorV::Io(e)),
            Ok(o) => if !o.success {
                fail(s, UploadErrorV::MkdirFailed(o.stderr))
            } else {
                (
                    FlowV { phase: UploadPhase::RemovePart, ..s },
                    UploadActionV::RunCommand(
                        RemoteStep::RemovePart,
                        rm_part_spec(s.port, s.key, s.user, s.host, s.remote_part),
                    ),
                )
            },
        },
        (UploadPhase::RemovePart, UploadEventV::CommandRan(r)) => match r {
            Err(e) => fail(s, UploadErrorV::Io(e)),
            Ok(_) => if !s.source_utf8 {
                fail(s, UploadErrorV::LocalPathInvalid(s.source_path))
            } else {
                (
                    FlowV { phase: UploadPhase::Copy, ..s },
                    UploadActionV::RunCommand(
                        RemoteStep::Copy,
                        scp_upload_spec(s.port, s.key, s.user, s.host, s.source_path, s.remote_part),
                    ),
                )
            },
        },
        (UploadPhase::Copy, UploadEventV::CommandRan(r)) => match r {
            Err(e) => fail(s, UploadErrorV::Io(e)),
            Ok(o) => if !o.success {
                fail(s, UploadErrorV::ScpFailed { stderr: o.stderr, part_path: s.remote_part })
            } else {
                (
                    FlowV { phase: UploadPhase::Rename, ..s },
                    UploadActionV::RunCommand(
                        RemoteStep::Rename,
                        mv_no_overwrite_spec(
                            s.port,
                            s.key,
                            s.user,
                            s.host,
                            s.remote_part,
                            s.remote_final,
                        ),
                    ),
                )
            },
        },
        (UploadPhase::Rename, UploadEventV::CommandRan(r)) => match r {
            Err(e) => fail(s, UploadErrorV::Io(e)),
            Ok(o) => if !o.success {
                fail(s, UploadErrorV::FinalExists(s.remote_part))
            } else {
                (FlowV { phase: UploadPhase::Recheck, ..s }, UploadActionV::ReadClipboard)
            },
        },
        (UploadPhase::Recheck, UploadEventV::ClipboardRead(c)) => if snapshot_matches_spec(
            s.snapshot,
            c,
        ) {
            (
                FlowV { phase: UploadPhase::WriteBack, ..s },
                UploadActionV::WriteClipboard(s.remote_final),
            )
        } else {
            succeed(s, s.remote_final, false)
        },
        (UploadPhase::WriteBack, UploadEventV::ClipboardWritten(r)) => match r {
            Err(_) => fail(s, UploadErrorV::ClipboardWrite),
            Ok(()) => succeed(s, s.remote_final, true),
        },
        (UploadPhase::Save, UploadEventV::SavedLocally(r)) => match r {
            Err(SaveFailureV::Io(e)) => fail(s, UploadErrorV::Io(e)),
            Err(SaveFailureV::NotUtf8(p)) => fail(s, UploadErrorV::LocalPathInvalid(p)),
            Ok(dest) => (
                FlowV { phase: UploadPhase::LocalWriteBack, remote_final: dest, ..s },
                UploadActionV::WriteClipboard(dest),
            ),
        },
        (UploadPhase::LocalWriteBack, UploadEventV::ClipboardWritten(r)) => match r {
            Err(_) => fail(s, UploadErrorV::ClipboardWrite),
            Ok(()) => succeed(s, s.remote_final, true),
        },
        _ => idle,
    }
}


fn copy_string(s: &String) -> (r: String)
    ensures
        r@ == s@,
{
    s.clone()
}

fn copy_opt(o: &Option<String>) -> (r: Option<String>)
    ensures
        opt_view(r) == opt_view(*o),
{
    match o {
        Some(t) => Some(t.clone()),
        None => None,
    }
}

impl UploadFlow {
    /// Where the upload stands.
    pub closed spec fn phase_spec(&self) -> UploadPhase {
        self.phase
    }

    /// Begin an upload with the given configuration and its validation result (see
    /// `Config::validate`).
    pub fn start(cfg: &Config, validation: Result<(), ValidationError>) -> (r: (
        UploadFlow,
        UploadAction,
    ))
        ensures
            (r.0@, r.1@) == start_spec(*cfg, validation),
    {
        let mut flow = UploadFlow {
            phase: UploadPhase::Acquire,
            holds_guard: false,
            mode: cfg.mode,
            port: cfg.port,
            key: copy_string(&cfg.private_key_path),
            user: copy_string(&cfg.username),
            host: copy_string(&cfg.host),
            remote_dir: copy_string(&cfg.remote_dir),
            snapshot: Snapshot::Empty,
            source_path: String::new(),
            source_utf8: true,
            image: None,
            temp: None,
            remote_final: String::new(),
            remote_part: String::new(),
        };
        match validation {
            Err(e) => {
                let a = flow.fail_with(UploadError::ConfigInvalid(e.message()));
                (flow, a)
            },
            Ok(()) => (flow, UploadAction::AcquireGuard),
        }
    }

    /// Whether the upload is over.
    pub fn is_done(&self) -> (r: bool)
        ensures
            r == (self@.phase == UploadPhase::Done),
    {
        self.phase == UploadPhase::Done
    }

    /// Where the upload stands.
    pub fn phase(&self) -> (r: UploadPhase)
        ensures
            r == self@.phase,
    {
        self.phase
    }

    fn fail_with(&mut self, e: UploadError) -> (r: UploadAction)
        ensures
            (final(self)@, r@) == fail(old(self)@, e@),
    {
        let notice = match error_to_message(&e) {
            Some(m) => m,
            None => Message::ClipboardEmpty,
        };
        self.phase = UploadPhase::Done;
        UploadAction::Finish(
            Finished {
                result: Err(e),
                record_last: None,
                delete_temp: None,
                release_guard: self.holds_guard,
                notice,
            },
        )
    }

    fn succeed_with(&mut self, updated: bool) -> (r: UploadAction)
        ensures
            (final(self)@, r@) == succeed(old(self)@, old(self)@.remote_final, updated),
    {
        let path = copy_string(&self.remote_final);
        let notice = if updated {
            Message::UploadSucceeded(copy_string(&path))
        } else {
            Message::UploadSucceededButClipboardChanged(copy_string(&path))
        };
        let record = Some(copy_string(&path));
        let delete_temp = copy_opt(&self.temp);
        self.phase = UploadPhase::Done;
        UploadAction::Finish(
            Finished {
                result: Ok(UploadSuccess { remote_path: path, clipboard_updated: updated }),
                record_last: record,
                delete_temp,
                release_guard: self.holds_guard,
                notice,
            },
        )
    }

    fn on_clipboard_read(&mut self, c: ClipboardContent) -> (r: UploadAction)
        requires
            old(self)@.phase == UploadPhase::Read,
        ensures
            (final(self)@, r@) == step_spec(old(self)@, UploadEventV::ClipboardRead(c@)),
    {
        if self.mode == UploadMode::Ssh {
            self.snapshot = Snapshot::of(&c);
        }
        match c {
            ClipboardContent::Files(list) => {
                if list.len() > 0 {
                    let first = copy_string(&list[0]);
                    self.source_path = copy_string(&first);
                    self.phase = UploadPhase::Inspect;
                    UploadAction::InspectPath(first)
                } else {
                    self.fail_with(UploadError::ClipboardEmpty)
                }
            },
            ClipboardContent::Image(bytes) => {
                if self.mode == UploadMode::Ssh {
                    self.phase = UploadPhase::TempImage;
                    UploadAction::WriteTempImage(bytes)
                } else {
                    self.image = Some(bytes);
                    self.phase = UploadPhase::Name;
                    UploadAction::NameFile(owned("clipboard.png"))
                }
            },
            _ => self.fail_with(UploadError::ClipboardEmpty),
        }
    }

    fn on_named(&mut self, name: String) -> (r: UploadAction)
        requires
            old(self)@.phase == UploadPhase::Name,
        ensures
            (final(self)@, r@) == step_spec(old(self)@, UploadEventV::Named(Some(name@))),
    {
        if self.mode == UploadMode::Ssh {
            let dir = if self.remote_dir.as_str().unicode_len() == 0 {
                owned("/tmp/clipship")
            } else {
                copy_string(&self.remote_dir)
            };
            let fin = join(dir.as_str(), name.as_str());
            let part = part_path(fin.as_str());
            let argv = mkdir(
                self.port,
                self.key.as_str(),
                self.user.as_str(),
                self.host.as_str(),
                dir.as_str(),
            );
            self.remote_dir = dir;
            self.remote_final = fin;
            self.remote_part = part;
            self.phase = UploadPhase::Mkdir;
            UploadAction::RunCommand(RemoteStep::MakeDir, argv)
        } else {
            let source = match self.image.take() {
                Some(b) => LocalSource::WriteBytes(b),
                None => LocalSource::CopyFile(copy_string(&self.source_path)),
            };
            self.phase = UploadPhase::Save;
            UploadAction::SaveLocally { source, file_name: name }
        }
    }

    fn on_command(&mut self, r: Result<CmdOutcome, String>) -> (a: UploadAction)
        requires
            old(self)@.phase == UploadPhase::Mkdir || old(self)@.phase == UploadPhase::RemovePart
                || old(self)@.phase == UploadPhase::Copy || old(self)@.phase == UploadPhase::Rename,
        ensures
            (final(self)@, a@) == step_spec(
                old(self)@,
                UploadEventV::CommandRan(
                    match r {
                        Ok(o) => Ok(o@),
                        Err(e) => Err(e@),
                    },
                ),
            ),
    {
        let o = match r {
            Err(e) => {
                return self.fail_with(UploadError::Io(e));
            },
            Ok(o) => o,
        };
        match self.phase {
            UploadPhase::Mkdir => {
                if !o.success {
                    self.fail_with(UploadError::MkdirFailed(o.stderr))
                } else {
                    let argv = rm_part(
                        self.port,
                        self.key.as_str(),
                        self.user.as_str(),
                        self.host.as_str(),
                        self.remote_part.as_str(),
                    );
                    self.phase = UploadPhase::RemovePart;
                    UploadAction::RunCommand(RemoteStep::RemovePart, argv)
                }
            },
            UploadPhase::RemovePart => {
                if !self.source_utf8 {
                    let p = copy_string(&self.source_path);
                    self.fail_with(UploadError::LocalPathInvalid(p))
                } else {
                    let argv = scp_upload(
                        self.port,
                        self.key.as_str(),
                        self.user.as_str(),
                        self.host.as_str(),
                        self.source_path.as_str(),
                        self.remote_part.as_str(),
                    );
                    self.phase = UploadPhase::Copy;
                    UploadAction::RunCommand(RemoteStep::Copy, argv)
                }
            },
            UploadPhase::Copy => {
                if !o.success {
                    let p = copy_string(&self.remote_part);
                    self.fail_with(UploadError::ScpFailed { stderr: o.stderr, part_path: p })
                } else {
                    let argv = mv_no_overwrite(
                        self.port,
                        self.key.as_str(),
                        self.user.as_str(),
                        self.host.as_str(),
                        self.remote_part.as_str(),
                        self.remote_final.as_str(),
                    );
                    self.phase = UploadPhase::Rename;
                    UploadAction::RunCommand(RemoteStep::Rename, argv)
                }
            },
            _ => {
                if !o.success {
                    let p = copy_string(&self.remote_part);
                    self.fail_with(UploadError::FinalExists(p))
                } else {
                    self.phase = UploadPhase::Recheck;
                    UploadAction::ReadClipboard
                }
            },
        }
    }

    /// Take the next decision: given what happened, the next action (see `step_spec`).
    pub fn step(&mut self, e: UploadEvent) -> (r: UploadAction)
        ensures
            (final(self)@, r@) == step_spec(old(self)@, e@),
    {
        match (self.phase, e) {
            (UploadPhase::Acquire, UploadEvent::GuardTaken(taken)) => {
                if taken {
                    self.phase = UploadPhase::Read;
                    self.holds_guard = true;
                    UploadAction::ReadClipboard
                } else {
                    self.fail_with(UploadError::InProgress)
                }
            },
            (UploadPhase::Read, UploadEvent::ClipboardRead(c)) => self.on_clipboard_read(c),
            (UploadPhase::Inspect, UploadEvent::PathInspected { is_dir, file_name }) => {
                if is_dir {
                    self.fail_with(UploadError::ClipboardDirectory)
                } else {
                    self.phase = UploadPhase::Name;
                    UploadAction::NameFile(
                        match file_name {
                            Some(n) => n,
                            None => owned("file"),
                        },
                    )
                }
            },
            (UploadPhase::TempImage, UploadEvent::TempImageWritten(r)) => match r {
                Err(e) => self.fail_with(UploadError::Io(e)),
                Ok(t) => {
                    self.temp = Some(copy_string(&t.path));
                    self.source_path = t.path;
                    self.source_utf8 = t.utf8;
                    self.phase = UploadPhase::Name;
                    UploadAction::NameFile(owned("clipboard.png"))
                },
            },
            (UploadPhase::Name, UploadEvent::Named(None)) => self.fail_with(
                UploadError::Io(clock_error()),
            ),
            (UploadPhase::Name, UploadEvent::Named(Some(name))) => self.on_named(name),
            (UploadPhase::Mkdir, UploadEvent::CommandRan(r)) => self.on_command(r),
            (UploadPhase::RemovePart, UploadEvent::CommandRan(r)) => self.on_command(r),
            (UploadPhase::Copy, UploadEvent::CommandRan(r)) => self.on_command(r),
            (UploadPhase::Rename, UploadEvent::CommandRan(r)) => self.on_command(r),
            (UploadPhase::Recheck, UploadEvent::ClipboardRead(c)) => {
                if self.snapshot.matches(&c) {
                    self.phase = UploadPhase::WriteBack;
                    UploadAction::WriteClipboard(copy_string(&self.remote_final))
                } else {
                    self.succeed_with(false)
                }
            },
            (UploadPhase::WriteBack, UploadEvent::ClipboardWritten(r)) => match r {
                Err(_) => self.fail_with(UploadError::ClipboardWrite),
                Ok(()) => self.succeed_with(true),
            },
            (UploadPhase::Save, UploadEvent::SavedLocally(r)) => match r {
                Err(SaveFailure::Io(e)) => self.fail_with(UploadError::Io(e)),
                Err(SaveFailure::NotUtf8(p)) => self.fail_with(UploadError::LocalPathInvalid(p)),
                Ok(dest) => {
                    self.remote_final = copy_string(&dest);
                    self.phase = UploadPhase::LocalWriteBack;
                    UploadAction::WriteClipboard(dest)
                },
            },
            (UploadPhase::LocalWriteBack, UploadEvent::ClipboardWritten(r)) => match r {
                Err(_) => self.fail_with(UploadError::ClipboardWrite),
                Ok(()) => self.succeed_with(true),
            },
            _ => UploadAction::Idle,
        }
    }
}


/// The actions of an upload from state `s`, answered by the events `es` in turn (the run stops
/// once it is over).
pub open spec fn trace(s: FlowV, es: Seq<UploadEventV>) -> Seq<UploadActionV>
    decreases es.len(),
{
    if es.len() == 0 || s.phase == UploadPhase::Done {
        Seq::empty()
    } else {
        let (s2, a) = step_spec(s, es[0]);
        seq![a] + trace(s2, es.skip(1))
    }
}

/// All the actions of an upload that starts with `cfg` and `validation` and is then answered
/// by the events `es`.
pub open spec fn run_spec(
    cfg: Config,
    validation: Result<(), ValidationError>,
    es: Seq<UploadEventV>,
) -> Seq<UploadActionV> {
    let (s, a) = start_spec(cfg, validation);
    seq![a] + trace(s, es)
}

/// The remote commands among `actions`, in order.
pub open spec fn commands(actions: Seq<UploadActionV>) -> Seq<RemoteStep>
    decreases actions.len(),
{
    if actions.len() == 0 {
        Seq::empty()
    } else {
        let rest = commands(actions.skip(1));
        match actions[0] {
            UploadActionV::RunCommand(t, _) => seq![t] + rest,
            _ => rest,
        }
    }
}

/// The four remote steps of an SSH upload.
pub open spec fn all_remote_steps() -> Seq<RemoteStep> {
    seq![RemoteStep::MakeDir, RemoteStep::RemovePart, RemoteStep::Copy, RemoteStep::Rename]
}

/// The remote commands that are still to come in a state.
pub open spec fn pending(s: FlowV) -> Seq<RemoteStep> {
    if s.mode == UploadMode::Local {
        Seq::empty()
    } else {
        match s.phase {
            UploadPhase::Acquire | UploadPhase::Read | UploadPhase::Inspect
            | UploadPhase::TempImage | UploadPhase::Name => all_remote_steps(),
            UploadPhase::Mkdir => all_remote_steps().skip(1),
            UploadPhase::RemovePart => all_remote_steps().skip(2),
            UploadPhase::Copy => all_remote_steps().skip(3),
            _ => Seq::empty(),
        }
    }
}

/// A state that an upload can be in: SSH-only phases only in SSH mode, local-only phases only
/// in local mode.
pub open spec fn flow_wf(s: FlowV) -> bool {
    &&& s.mode == UploadMode::Local ==> !(s.phase == UploadPhase::TempImage || s.phase
        == UploadPhase::Mkdir || s.phase == UploadPhase::RemovePart || s.phase
        == UploadPhase::Copy || s.phase == UploadPhase::Rename || s.phase == UploadPhase::Recheck
        || s.phase == UploadPhase::WriteBack)
    &&& s.mode == UploadMode::Ssh ==> !(s.phase == UploadPhase::Save || s.phase
        == UploadPhase::LocalWriteBack)
}

/// `a` is a prefix of `b`.
pub open spec fn is_prefix<T>(a: Seq<T>, b: Seq<T>) -> bool {
    a.len() <= b.len() && forall|i: int| 0 <= i < a.len() ==> a[i] == b[i]
}

/// The action ends the upload successfully.
pub open spec fn is_success(a: UploadActionV) -> bool {
    a matches UploadActionV::Finish(f) && f.result is Ok
}

/// The action ends the upload, with a result other than success or a failed clipboard
/// write-back.
pub open spec fn is_failure_before_write_back(a: UploadActionV) -> bool {
    a matches UploadActionV::Finish(f) && f.result is Err && !(f.result->Err_0 is ClipboardWrite)
}

/// The phases right after the path was handed to the clipboard.
pub open spec fn writing_back(s: FlowV) -> bool {
    s.phase == UploadPhase::WriteBack || s.phase == UploadPhase::LocalWriteBack
}

proof fn lemma_start_wf(cfg: Config, validation: Result<(), ValidationError>)
    ensures
        flow_wf(start_spec(cfg, validation).0),
        start_spec(cfg, validation).0.mode == cfg.mode,
        start_spec(cfg, validation).0.phase == UploadPhase::Acquire || start_spec(
            cfg,
            validation,
        ).0.phase == UploadPhase::Done,
        !writing_back(start_spec(cfg, validation).0),
        start_spec(cfg, validation).1 is Finish <==> validation is Err,
        start_spec(cfg, validation).1 is Finish ==> !is_success(start_spec(cfg, validation).1),
        !(start_spec(cfg, validation).1 is RunCommand),
        !(start_spec(cfg, validation).1 is WriteClipboard),
        start_spec(cfg, validation).0.phase == UploadPhase::Acquire ==> pending(
            start_spec(cfg, validation).0,
        ) == (if cfg.mode == UploadMode::Ssh {
            all_remote_steps()
        } else {
            Seq::empty()
        }),
{
}

/// What one decision does to the pending remote commands, the mode and the write-back.
proof fn lemma_step(s: FlowV, e: UploadEventV)
    requires
        flow_wf(s),
        s.phase != UploadPhase::Done,
    ensures
        ({
            let (s2, a) = step_spec(s, e);
            &&& flow_wf(s2)
            &&& s2.mode == s.mode
            &&& a matches UploadActionV::RunCommand(t, _) ==> pending(s).len() > 0 && t == pending(
                s,
            )[0] && pending(s2) == pending(s).skip(1)
            &&& !(a is RunCommand) && !(a is Finish) ==> pending(s2) == pending(s) && s2.phase
                != UploadPhase::Done
            &&& (a is Finish <==> s2.phase == UploadPhase::Done)
            &&& is_success(a) ==> pending(s).len() == 0
            &&& a matches UploadActionV::Finish(f) ==> f.notice == notice_spec(f.result)
            &&& a is WriteClipboard ==> writing_back(s2)
            &&& writing_back(s) ==> (a is Finish || a is Idle) && !is_failure_before_write_back(a)
            &&& writing_back(s2) ==> writing_back(s) || a is WriteClipboard
        }),
{
    assert(all_remote_steps().skip(1).skip(1) =~= all_remote_steps().skip(2));
    assert(all_remote_steps().skip(2).skip(1) =~= all_remote_steps().skip(3));
    assert(all_remote_steps().skip(3).skip(1) =~= Seq::<RemoteStep>::empty());
}

proof fn lemma_commands_cons(a: UploadActionV, t: Seq<UploadActionV>)
    ensures
        commands(seq![a] + t) == (match a {
            UploadActionV::RunCommand(x, _) => seq![x] + commands(t),
            _ => commands(t),
        }),
{
    assert((seq![a] + t).skip(1) =~= t);
}

/// From any state an upload can be in: the remote commands still to come are issued in
/// order (a prefix of the pending ones); a success comes only after all of them; there is at
/// most one `Finish`, it is the last action and it carries the notification of its result;
/// and once the path has been handed to the clipboard (or is being handed), no failure other
/// than the write-back itself can end the upload.
proof fn lemma_trace(s: FlowV, es: Seq<UploadEventV>)
    requires
        flow_wf(s),
    ensures
        is_prefix(commands(trace(s, es)), pending(s)),
        (exists|i: int| 0 <= i < trace(s, es).len() && is_success(#[trigger] trace(s, es)[i]))
            ==> commands(trace(s, es)) == pending(s),
        forall|i: int|
            0 <= i < trace(s, es).len() - 1 ==> !(#[trigger] trace(s, es)[i] is Finish),
        forall|i: int|
            0 <= i < trace(s, es).len() ==> (#[trigger] trace(s, es)[i] matches UploadActionV::Finish(
                f,
            ) ==> f.notice == notice_spec(f.result)),
        (writing_back(s) || exists|i: int|
            0 <= i < trace(s, es).len() && #[trigger] trace(s, es)[i] is WriteClipboard) ==> forall|
            j: int,
        |
            0 <= j < trace(s, es).len() ==> !is_failure_before_write_back(#[trigger] trace(s, es)[j]),
    decreases es.len(),
{
    if es.len() == 0 || s.phase == UploadPhase::Done {
        assert(trace(s, es) =~= Seq::<UploadActionV>::empty());
    } else {
        let (s2, a) = step_spec(s, es[0]);
        let rest = trace(s2, es.skip(1));
        lemma_step(s, es[0]);
        lemma_trace(s2, es.skip(1));
        let t = trace(s, es);
        assert(t == seq![a] + rest);
        lemma_commands_cons(a, rest);
        if a is Finish {
            assert(rest =~= Seq::<UploadActionV>::empty());
        }
        assert forall|i: int| 0 <= i < t.len() - 1 implies !(#[trigger] t[i] is Finish) by {
            if i > 0 {
                assert(t[i] == rest[i - 1]);
            }
        }
        assert forall|i: int| 0 <= i < t.len() implies (#[trigger] t[i] matches UploadActionV::Finish(
            f,
        ) ==> f.notice == notice_spec(f.result)) by {
            if i > 0 {
                assert(t[i] == rest[i - 1]);
            }
        }
        if exists|i: int| 0 <= i < t.len() && is_success(#[trigger] t[i]) {
            let i = choose|i: int| 0 <= i < t.len() && is_success(#[trigger] t[i]);
            if i > 0 {
                assert(rest[i - 1] == t[i]);
                assert(!(a is Finish));
            }
        }
        if writing_back(s) || exists|i: int| 0 <= i < t.len() && #[trigger] t[i] is WriteClipboard {
            if !writing_back(s) {
                let i = choose|i: int| 0 <= i < t.len() && #[trigger] t[i] is WriteClipboard;
                if i > 0 {
                    assert(rest[i - 1] is WriteClipboard);
                    assert(!(a is Finish));
                }
            }
            assert forall|j: int| 0 <= j < t.len() implies !is_failure_before_write_back(
                #[trigger] t[j],
            ) by {
                if j > 0 {
                    assert(t[j] == rest[j - 1]);
                }
            }
        }
    }
}

/// An SSH upload issues its remote commands in the order `mkdir -p`, `rm -f` of the partial
/// file, `scp` to the partial file, `mv -n` to the final path (possibly stopping early); a
/// local upload issues none.
pub proof fn law_remote_commands_in_order(
    cfg: Config,
    validation: Result<(), ValidationError>,
    es: Seq<UploadEventV>,
)
    ensures
        is_prefix(
            commands(run_spec(cfg, validation, es)),
            if cfg.mode == UploadMode::Ssh {
                all_remote_steps()
            } else {
                Seq::empty()
            },
        ),
        cfg.mode == UploadMode::Local ==> commands(run_spec(cfg, validation, es)).len() == 0,
{
    let (s, a) = start_spec(cfg, validation);
    lemma_start_wf(cfg, validation);
    lemma_trace(s, es);
    lemma_commands_cons(a, trace(s, es));
    if s.phase == UploadPhase::Done {
        assert(trace(s, es) =~= Seq::<UploadActionV>::empty());
    }
}

/// An SSH upload reports success only after all four remote commands were issued.
pub proof fn law_success_after_every_remote_step(
    cfg: Config,
    validation: Result<(), ValidationError>,
    es: Seq<UploadEventV>,
)
    requires
        exists|i: int|
            0 <= i < run_spec(cfg, validation, es).len() && is_success(
                #[trigger] run_spec(cfg, validation, es)[i],
            ),
    ensures
        commands(run_spec(cfg, validation, es)) == (if cfg.mode == UploadMode::Ssh {
            all_remote_steps()
        } else {
            Seq::empty()
        }),
{
    let (s, a) = start_spec(cfg, validation);
    lemma_start_wf(cfg, validation);
    lemma_trace(s, es);
    lemma_commands_cons(a, trace(s, es));
    let t = run_spec(cfg, validation, es);
    let i = choose|i: int| 0 <= i < t.len() && is_success(#[trigger] t[i]);
    if s.phase == UploadPhase::Done {
        assert(trace(s, es) =~= Seq::<UploadActionV>::empty());
    }
    if i > 0 {
        assert(trace(s, es)[i - 1] == t[i]);
    }
}

/// An upload ends at most once: only its last action can be a `Finish`, and the notification
/// it carries is the one for its result.
pub proof fn law_one_notification(
    cfg: Config,
    validation: Result<(), ValidationError>,
    es: Seq<UploadEventV>,
)
    ensures
        forall|i: int|
            0 <= i < run_spec(cfg, validation, es).len() - 1 ==> !(#[trigger] run_spec(
                cfg,
                validation,
                es,
            )[i] is Finish),
        forall|i: int|
            0 <= i < run_spec(cfg, validation, es).len() ==> (#[trigger] run_spec(
                cfg,
                validation,
                es,
            )[i] matches UploadActionV::Finish(f) ==> f.notice == notice_spec(f.result)),
{
    let (s, a) = start_spec(cfg, validation);
    lemma_start_wf(cfg, validation);
    lemma_trace(s, es);
    let t = run_spec(cfg, validation, es);
    if s.phase == UploadPhase::Done {
        assert(trace(s, es) =~= Seq::<UploadActionV>::empty());
    }
    assert forall|i: int| 0 <= i < t.len() - 1 implies !(#[trigger] t[i] is Finish) by {
        if i > 0 {
            assert(t[i] == trace(s, es)[i - 1]);
        }
    }
    assert forall|i: int| 0 <= i < t.len() implies (#[trigger] t[i] matches UploadActionV::Finish(
        f,
    ) ==> f.notice == notice_spec(f.result)) by {
        if i > 0 {
            assert(t[i] == trace(s, es)[i - 1]);
        }
    }
}

/// The clipboard is written only on the way to success: if an upload writes the clipboard,
/// it does not end in any failure other than that write failing.
pub proof fn law_clipboard_untouched_on_failure(
    cfg: Config,
    validation: Result<(), ValidationError>,
    es: Seq<UploadEventV>,
    i: int,
    j: int,
)
    requires
        0 <= i < run_spec(cfg, validation, es).len(),
        0 <= j < run_spec(cfg, validation, es).len(),
        run_spec(cfg, validation, es)[i] is WriteClipboard,
    ensures
        !is_failure_before_write_back(run_spec(cfg, validation, es)[j]),
{
    let (s, a) = start_spec(cfg, validation);
    lemma_start_wf(cfg, validation);
    lemma_trace(s, es);
    let t = run_spec(cfg, validation, es);
    assert(i > 0);
    assert(trace(s, es)[i - 1] == t[i]);
    if j == 0 {
        assert(!(a is Finish)) by {
            if a is Finish {
                assert(s.phase == UploadPhase::Done);
                assert(trace(s, es) =~= Seq::<UploadActionV>::empty());
            }
        }
    } else {
        assert(trace(s, es)[j - 1] == t[j]);
    }
}

/// The state reached from `s` after answering the first `k` events of `es`.
pub open spec fn state_after(s: FlowV, es: Seq<UploadEventV>, k: nat) -> FlowV
    decreases k,
{
    if k == 0 || es.len() == 0 {
        s
    } else {
        state_after(step_spec(s, es[0]).0, es.skip(1), (k - 1) as nat)
    }
}

/// An SSH upload whose configuration validated, once it has taken the guard and read the
/// clipboard content `c1`.
pub open spec fn after_first_read(cfg: Config, c1: ContentV) -> FlowV {
    let s0 = start_spec(cfg, Ok(())).0;
    let s1 = step_spec(s0, UploadEventV::GuardTaken(true)).0;
    step_spec(s1, UploadEventV::ClipboardRead(c1)).0
}

/// Past the first clipboard read of an SSH upload that took the snapshot `snap`.
pub open spec fn past_first_read(s: FlowV, snap: SnapshotV) -> bool {
    &&& flow_wf(s)
    &&& s.mode == UploadMode::Ssh
    &&& s.phase != UploadPhase::Acquire
    &&& s.phase != UploadPhase::Read
    &&& s.snapshot == snap
}

proof fn lemma_past_first_read_step(s: FlowV, e: UploadEventV, snap: SnapshotV)
    requires
        past_first_read(s, snap),
    ensures
        past_first_read(step_spec(s, e).0, snap),
        step_spec(s, e).1 is WriteClipboard ==> (e matches UploadEventV::ClipboardRead(c)
            && snapshot_matches_spec(snap, c)),
{
    if s.phase != UploadPhase::Done {
        lemma_step(s, e);
    }
}

proof fn lemma_past_first_read_after(s: FlowV, es: Seq<UploadEventV>, k: nat, snap: SnapshotV)
    requires
        past_first_read(s, snap),
    ensures
        past_first_read(state_after(s, es, k), snap),
    decreases k,
{
    if k > 0 && es.len() > 0 {
        lemma_past_first_read_step(s, es[0], snap);
        lemma_past_first_read_after(step_spec(s, es[0]).0, es.skip(1), (k - 1) as nat, snap);
    }
}

/// An SSH upload never overwrites a clipboard the user changed meanwhile: whatever events
/// follow the first read of `c1`, the path is handed to the clipboard only in answer to a
/// second read whose content still matches the snapshot taken of `c1`.
pub proof fn law_write_back_only_when_clipboard_unchanged(
    cfg: Config,
    c1: ContentV,
    es: Seq<UploadEventV>,
    k: nat,
)
    requires
        cfg.mode == UploadMode::Ssh,
        k < es.len(),
        step_spec(state_after(after_first_read(cfg, c1), es, k), es[k as int]).1 is WriteClipboard,
    ensures
        es[k as int] matches UploadEventV::ClipboardRead(c2) && snapshot_matches_spec(
            snapshot_of_spec(c1),
            c2,
        ),
{
    let s0 = start_spec(cfg, Ok(())).0;
    lemma_start_wf(cfg, Ok(()));
    let s1 = step_spec(s0, UploadEventV::GuardTaken(true)).0;
    lemma_step(s0, UploadEventV::GuardTaken(true));
    lemma_step(s1, UploadEventV::ClipboardRead(c1));
    let snap = snapshot_of_spec(c1);
    let s2 = after_first_read(cfg, c1);
    assert(past_first_read(s2, snap));
    lemma_past_first_read_after(s2, es, k, snap);
    lemma_past_first_read_step(state_after(s2, es, k), es[k as int], snap);
}

/// How an upload ends: a success records its path as the last upload and may delete the
/// temporary image; a failure records nothing and keeps the temporary image.
pub proof fn law_finish_effects(s: FlowV, e: UploadEventV)
    ensures
        step_spec(s, e).1 matches UploadActionV::Finish(f) ==> {
            &&& f.record_last is Some <==> f.result is Ok
            &&& f.result is Ok ==> f.record_last == Some(f.result->Ok_0.remote_path)
            &&& f.delete_temp is Some ==> f.result is Ok
        },
{
}

/// The kind of an event (which action it answers).
pub open spec fn event_kind(e: UploadEventV) -> int {
    match e {
        UploadEventV::GuardTaken(_) => 1,
        UploadEventV::ClipboardRead(_) => 2,
        UploadEventV::PathInspected { .. } => 3,
        UploadEventV::TempImageWritten(_) => 4,
        UploadEventV::Named(_) => 5,
        UploadEventV::CommandRan(_) => 6,
        UploadEventV::ClipboardWritten(_) => 7,
        UploadEventV::SavedLocally(_) => 8,
    }
}

/// The kind of event an action asks for; 0 for `Finish` and `Idle`, which ask for none.
pub open spec fn action_kind(a: UploadActionV) -> int {
    match a {
        UploadActionV::AcquireGuard => 1,
        UploadActionV::ReadClipboard => 2,
        UploadActionV::InspectPath(_) => 3,
        UploadActionV::WriteTempImage(_) => 4,
        UploadActionV::NameFile(_) => 5,
        UploadActionV::RunCommand(..) => 6,
        UploadActionV::WriteClipboard(_) => 7,
        UploadActionV::SaveLocally { .. } => 8,
        _ => 0,
    }
}

/// `e` is the kind of event that the action `a` asks for.
pub open spec fn answers(a: UploadActionV, e: UploadEventV) -> bool {
    action_kind(a) != 0 && action_kind(a) == event_kind(e)
}

/// Each action of the run from `s` (whose last action was `a`) is answered by the next event
/// of `es` with the kind of event it asks for, for as long as the run goes on.
pub open spec fn answered(a: UploadActionV, s: FlowV, es: Seq<UploadEventV>) -> bool
    decreases es.len(),
{
    if es.len() == 0 || s.phase == UploadPhase::Done {
        true
    } else {
        answers(a, es[0]) && answered(step_spec(s, es[0]).1, step_spec(s, es[0]).0, es.skip(1))
    }
}

/// The kind of event a phase waits for.
spec fn phase_kind(p: UploadPhase) -> int {
    match p {
        UploadPhase::Acquire => 1,
        UploadPhase::Read | UploadPhase::Recheck => 2,
        UploadPhase::Inspect => 3,
        UploadPhase::TempImage => 4,
        UploadPhase::Name => 5,
        UploadPhase::Mkdir | UploadPhase::RemovePart | UploadPhase::Copy | UploadPhase::Rename => 6,
        UploadPhase::WriteBack | UploadPhase::LocalWriteBack => 7,
        UploadPhase::Save => 8,
        UploadPhase::Done => 0,
    }
}

/// At most how many more answers a phase needs before the upload ends.
spec fn rank(p: UploadPhase) -> nat {
    match p {
        UploadPhase::Acquire => 10,
        UploadPhase::Read => 9,
        UploadPhase::Inspect | UploadPhase::TempImage => 8,
        UploadPhase::Name => 7,
        UploadPhase::Mkdir => 6,
        UploadPhase::RemovePart => 5,
        UploadPhase::Copy => 4,
        UploadPhase::Rename => 3,
        UploadPhase::Recheck | UploadPhase::Save => 2,
        UploadPhase::WriteBack | UploadPhase::LocalWriteBack => 1,
        UploadPhase::Done => 0,
    }
}

proof fn lemma_progress(s: FlowV, e: UploadEventV)
    requires
        s.phase != UploadPhase::Done,
        event_kind(e) == phase_kind(s.phase),
    ensures
        ({
            let (s2, a2) = step_spec(s, e);
            &&& rank(s2.phase) < rank(s.phase)
            &&& (a2 is Finish <==> s2.phase == UploadPhase::Done)
            &&& s2.phase != UploadPhase::Done ==> action_kind(a2) == phase_kind(s2.phase)
            &&& s.phase != UploadPhase::Acquire ==> s2.holds_guard == s.holds_guard
            &&& s.phase != UploadPhase::Acquire ==> (a2 matches UploadActionV::Finish(f)
                ==> f.release_guard == s.holds_guard)
        }),
{
}

proof fn lemma_finishes(a: UploadActionV, s: FlowV, es: Seq<UploadEventV>)
    requires
        s.phase != UploadPhase::Done,
        s.phase != UploadPhase::Acquire,
        action_kind(a) == phase_kind(s.phase),
        answered(a, s, es),
        es.len() >= rank(s.phase),
    ensures
        trace(s, es).len() > 0,
        trace(s, es).last() matches UploadActionV::Finish(f) && f.release_guard == s.holds_guard,
    decreases es.len(),
{
    let (s2, a2) = step_spec(s, es[0]);
    lemma_progress(s, es[0]);
    let rest = trace(s2, es.skip(1));
    assert(trace(s, es) == seq![a2] + rest);
    if s2.phase == UploadPhase::Done {
        assert(rest =~= Seq::<UploadActionV>::empty());
        assert(trace(s, es).last() == a2);
    } else {
        lemma_finishes(a2, s2, es.skip(1));
        assert(trace(s, es).last() == rest.last());
    }
}

/// Every upload ends, with exactly one notification: when each action is answered by the kind
/// of event it asks for, at most ten answers bring a `Finish` as the last action (and
/// `law_one_notification` says no earlier action is one). The in-flight guard is given back
/// exactly when this upload took it.
pub proof fn law_every_upload_finishes(
    cfg: Config,
    validation: Result<(), ValidationError>,
    es: Seq<UploadEventV>,
)
    requires
        answered(start_spec(cfg, validation).1, start_spec(cfg, validation).0, es),
        es.len() >= 10,
    ensures
        run_spec(cfg, validation, es).len() > 0,
        run_spec(cfg, validation, es).last() matches UploadActionV::Finish(f) && f.release_guard
            == (validation is Ok && es[0] == UploadEventV::GuardTaken(true)),
{
    let (s0, a0) = start_spec(cfg, validation);
    let t = trace(s0, es);
    assert(run_spec(cfg, validation, es) == seq![a0] + t);
    if validation is Err {
        assert(t =~= Seq::<UploadActionV>::empty());
    } else {
        let (s1, a1) = step_spec(s0, es[0]);
        let rest = trace(s1, es.skip(1));
        assert(t == seq![a1] + rest);
        if s1.phase == UploadPhase::Done {
            assert(rest =~= Seq::<UploadActionV>::empty());
        } else {
            lemma_finishes(a1, s1, es.skip(1));
            assert(t.last() == rest.last());
        }
        assert(run_spec(cfg, validation, es).last() == t.last());
    }
}

/// An upload whose configuration did not validate ends at once, before taking the guard,
/// reading the clipboard or running anything: its only action is a `Finish` with the
/// validation message, shown as "configuration invalid".
pub proof fn law_invalid_config_does_nothing(
    cfg: Config,
    e: ValidationError,
    es: Seq<UploadEventV>,
)
    ensures
        run_spec(cfg, Err(e), es) == seq![
            UploadActionV::Finish(
                FinishedV {
                    result: Err(UploadErrorV::ConfigInvalid(e.message_spec())),
                    record_last: None,
                    delete_temp: None,
                    release_guard: false,
                    notice: MessageV::ConfigInvalid(e.message_spec()),
                },
            ),
        ],
{
    assert(trace(start_spec(cfg, Err(e)).0, es) =~= Seq::<UploadActionV>::empty());
    assert(run_spec(cfg, Err(e), es) =~= seq![start_spec(cfg, Err(e)).1]);
}

/// The answer of the first `GuardTaken` event among `es`, if any.
pub open spec fn first_guard_answer(es: Seq<UploadEventV>) -> Option<bool>
    decreases es.len(),
{
    if es.len() == 0 {
        None
    } else {
        match es[0] {
            UploadEventV::GuardTaken(b) => Some(b),
            _ => first_guard_answer(es.skip(1)),
        }
    }
}

proof fn lemma_guard_kept(s: FlowV, es: Seq<UploadEventV>)
    requires
        s.phase != UploadPhase::Acquire,
    ensures
        forall|i: int|
            0 <= i < trace(s, es).len() ==> (#[trigger] trace(s, es)[i] matches UploadActionV::Finish(
                f,
            ) ==> f.release_guard == s.holds_guard),
    decreases es.len(),
{
    if es.len() > 0 && s.phase != UploadPhase::Done {
        let (s2, a2) = step_spec(s, es[0]);
        lemma_guard_kept(s2, es.skip(1));
        let t = trace(s, es);
        let rest = trace(s2, es.skip(1));
        assert(t == seq![a2] + rest);
        assert forall|i: int| 0 <= i < t.len() implies (#[trigger] t[i] matches UploadActionV::Finish(
            f,
        ) ==> f.release_guard == s.holds_guard) by {
            if i > 0 {
                assert(t[i] == rest[i - 1]);
            }
        }
    }
}

proof fn lemma_guard_acquire(s: FlowV, es: Seq<UploadEventV>)
    requires
        s.phase == UploadPhase::Acquire,
        !s.holds_guard,
    ensures
        forall|i: int|
            0 <= i < trace(s, es).len() ==> (#[trigger] trace(s, es)[i] matches UploadActionV::Finish(
                f,
            ) ==> f.release_guard == (first_guard_answer(es) == Some(true))),
    decreases es.len(),
{
    if es.len() > 0 {
        let (s2, a2) = step_spec(s, es[0]);
        let t = trace(s, es);
        let rest = trace(s2, es.skip(1));
        assert(t == seq![a2] + rest);
        if es[0] is GuardTaken {
            lemma_guard_kept(s2, es.skip(1));
        } else {
            lemma_guard_acquire(s2, es.skip(1));
        }
        assert forall|i: int| 0 <= i < t.len() implies (#[trigger] t[i] matches UploadActionV::Finish(
            f,
        ) ==> f.release_guard == (first_guard_answer(es) == Some(true))) by {
            if i > 0 {
                assert(t[i] == rest[i - 1]);
            }
        }
    }
}

/// Whatever events come, an upload that ends gives the in-flight guard back exactly when it
/// took it: the configuration validated and the first answer to the guard request was "taken".
/// A refused request, or an invalid configuration, gives nothing back.
pub proof fn law_guard_released_when_taken(
    cfg: Config,
    validation: Result<(), ValidationError>,
    es: Seq<UploadEventV>,
)
    ensures
        forall|i: int|
            0 <= i < run_spec(cfg, validation, es).len() ==> (#[trigger] run_spec(
                cfg,
                validation,
                es,
            )[i] matches UploadActionV::Finish(f) ==> f.release_guard == (validation is Ok
                && first_guard_answer(es) == Some(true))),
{
    let (s0, a0) = start_spec(cfg, validation);
    let t = run_spec(cfg, validation, es);
    let tr = trace(s0, es);
    assert(t == seq![a0] + tr);
    if validation is Err {
        assert(tr =~= Seq::<UploadActionV>::empty());
    } else {
        lemma_guard_acquire(s0, es);
    }
    assert forall|i: int| 0 <= i < t.len() implies (#[trigger] t[i] matches UploadActionV::Finish(
        f,
    ) ==> f.release_guard == (validation is Ok && first_guard_answer(es) == Some(true))) by {
        if i > 0 {
            assert(t[i] == tr[i - 1]);
        }
    }
}

/// The remote shell command that moves the partial upload of `p` onto `p`.
pub open spec fn rename_text(p: Seq<char>) -> Seq<char> {
    "mv -n '"@ + p + ".part' '"@ + p + "'"@
}

/// A phase before the upload has been named.
spec fn early(p: UploadPhase) -> bool {
    p == UploadPhase::Acquire || p == UploadPhase::Read || p == UploadPhase::Inspect || p
        == UploadPhase::TempImage || p == UploadPhase::Name
}

/// Once an SSH upload is named, its partial path is its final path with `.part` appended.
spec fn names_agree(s: FlowV) -> bool {
    s.mode == UploadMode::Local || early(s.phase) || s.phase == UploadPhase::Done
        || s.remote_part == s.remote_final + ".part"@
}

proof fn lemma_names_step(s: FlowV, e: UploadEventV)
    requires
        flow_wf(s),
        names_agree(s),
    ensures
        names_agree(step_spec(s, e).0),
{
    reveal_strlit(".part");
    if let UploadEventV::Named(Some(name)) = e {
        let fin = join_spec(target_dir(s), name);
        assert(part_path_spec(fin) =~= fin + ".part"@);
    }
}

proof fn lemma_final_kept(s: FlowV, es: Seq<UploadEventV>)
    requires
        s.phase == UploadPhase::Rename || s.phase == UploadPhase::Recheck || s.phase
            == UploadPhase::WriteBack || s.phase == UploadPhase::Done,
    ensures
        forall|j: int|
            0 <= j < trace(s, es).len() ==> (#[trigger] trace(s, es)[j] matches UploadActionV::Finish(
                f,
            ) ==> (f.result is Ok ==> f.result->Ok_0.remote_path == s.remote_final)),
    decreases es.len(),
{
    if es.len() > 0 && s.phase != UploadPhase::Done {
        let (s2, a2) = step_spec(s, es[0]);
        lemma_final_kept(s2, es.skip(1));
        let t = trace(s, es);
        let rest = trace(s2, es.skip(1));
        assert(t == seq![a2] + rest);
        assert forall|j: int| 0 <= j < t.len() implies (#[trigger] t[j] matches UploadActionV::Finish(
            f,
        ) ==> (f.result is Ok ==> f.result->Ok_0.remote_path == s.remote_final)) by {
            if j > 0 {
                assert(t[j] == rest[j - 1]);
            }
        }
    }
}

/// The spec form of the rename law, over a trace from any state an upload can be in.
pub open spec fn renames_onto_result(t: Seq<UploadActionV>) -> bool {
    forall|i: int, j: int|
        0 <= i < j < t.len() ==> (#[trigger] t[i] matches UploadActionV::RunCommand(
            RemoteStep::Rename,
            argv,
        ) ==> (#[trigger] t[j] matches UploadActionV::Finish(f) ==> (f.result is Ok ==> argv.len()
            > 0 && argv.last() == rename_text(f.result->Ok_0.remote_path))))
}

proof fn lemma_rename_trace(s: FlowV, es: Seq<UploadEventV>)
    requires
        flow_wf(s),
        names_agree(s),
    ensures
        renames_onto_result(trace(s, es)),
    decreases es.len(),
{
    if es.len() > 0 && s.phase != UploadPhase::Done {
        let (s2, a2) = step_spec(s, es[0]);
        lemma_step(s, es[0]);
        lemma_names_step(s, es[0]);
        lemma_rename_trace(s2, es.skip(1));
        let t = trace(s, es);
        let rest = trace(s2, es.skip(1));
        assert(t == seq![a2] + rest);
        if let UploadActionV::RunCommand(RemoteStep::Rename, argv) = a2 {
            assert(s.phase == UploadPhase::Copy);
            assert(s2.phase == UploadPhase::Rename && s2.remote_final == s.remote_final);
            reveal_strlit("mv -n '");
            reveal_strlit(".part' '");
            reveal_strlit("'");
            reveal_strlit("mv -n ");
            reveal_strlit(".part");
            assert(argv.last() =~= rename_text(s.remote_final));
            lemma_final_kept(s2, es.skip(1));
        }
        assert forall|i: int, j: int|
            0 <= i < j < t.len() implies (#[trigger] t[i] matches UploadActionV::RunCommand(
            RemoteStep::Rename,
            argv,
        ) ==> (#[trigger] t[j] matches UploadActionV::Finish(f) ==> (f.result is Ok ==> argv.len()
            > 0 && argv.last() == rename_text(f.result->Ok_0.remote_path)))) by {
            assert(t[j] == rest[j - 1]);
            if i > 0 {
                assert(t[i] == rest[i - 1]);
            }
        }
    }
}

/// An SSH upload that succeeds moves the partial file that `scp` wrote onto the path it
/// reports (and hands to the clipboard): its rename command is
/// `mv -n '<path>.part' '<path>'` for that very path, never the other way round.
pub proof fn law_rename_moves_part_onto_reported_path(
    cfg: Config,
    validation: Result<(), ValidationError>,
    es: Seq<UploadEventV>,
)
    ensures
        renames_onto_result(run_spec(cfg, validation, es)),
{
    let (s0, a0) = start_spec(cfg, validation);
    lemma_start_wf(cfg, validation);
    lemma_rename_trace(s0, es);
    let t = run_spec(cfg, validation, es);
    let tr = trace(s0, es);
    assert(t == seq![a0] + tr);
    assert forall|i: int, j: int|
        0 <= i < j < t.len() implies (#[trigger] t[i] matches UploadActionV::RunCommand(
        RemoteStep::Rename,
        argv,
    ) ==> (#[trigger] t[j] matches UploadActionV::Finish(f) ==> (f.result is Ok ==> argv.len()
        > 0 && argv.last() == rename_text(f.result->Ok_0.remote_path)))) by {
        assert(t[j] == tr[j - 1]);
        if i > 0 {
            assert(t[i] == tr[i - 1]);
        }
    }
}

} // verus!
