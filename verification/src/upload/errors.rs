//! Why an upload failed, and the notification each failure is shown as.
use vstd::prelude::*;
use crate::notify::{Message, MessageV};
use crate::text::{owned, push_str};

verus! {

/// Why an upload failed.
#[derive(Debug, Clone, PartialEq, Eq)]
pub enum UploadError {
    /// The configuration is invalid (the validation message).
    ConfigInvalid(String),
    BinariesMissing,
    ClipboardEmpty,
    ClipboardDirectory,
    /// Creating the remote directory failed (its stderr).
    MkdirFailed(String),
    /// Copying failed; a partial file may remain at `part_path`.
    ScpFailed { stderr: String, part_path: String },
    /// The destination already existed; the partial upload is kept at this path.
    FinalExists(String),
    InProgress,
    ClipboardWrite,
    /// A local path that is not valid UTF-8 (shown lossily).
    LocalPathInvalid(String),
    /// A local operation or a process spawn failed (the OS error text).
    Io(String),
}

/// The mathematical value of an upload error.
pub enum UploadErrorV {
    ConfigInvalid(Seq<char>),
    BinariesMissing,
    ClipboardEmpty,
    ClipboardDirectory,
    MkdirFailed(Seq<char>),
    ScpFailed { stderr: Seq<char>, part_path: Seq<char> },
    FinalExists(Seq<char>),
    InProgress,
    ClipboardWrite,
    LocalPathInvalid(Seq<char>),
    Io(Seq<char>),
}

impl View for UploadError {
    type V = UploadErrorV;

    open spec fn view(&self) -> UploadErrorV {
        match self {
            UploadError::ConfigInvalid(s) => UploadErrorV::ConfigInvalid(s@),
            UploadError::BinariesMissing => UploadErrorV::BinariesMissing,
            UploadError::ClipboardEmpty => UploadErrorV::ClipboardEmpty,
            UploadError::ClipboardDirectory => UploadErrorV::ClipboardDirectory,
            UploadError::MkdirFailed(s) => UploadErrorV::MkdirFailed(s@),
            UploadError::ScpFailed { stderr, part_path } => UploadErrorV::ScpFailed {
                stderr: stderr@,
                part_path: part_path@,
            },
            UploadError::FinalExists(p) => UploadErrorV::FinalExists(p@),
            UploadError::InProgress => UploadErrorV::InProgress,
            UploadError::ClipboardWrite => UploadErrorV::ClipboardWrite,
            UploadError::LocalPathInvalid(p) => UploadErrorV::LocalPathInvalid(p@),
            UploadError::Io(e) => UploadErrorV::Io(e@),
        }
    }
}

/// The notification each error is shown as.
pub open spec fn error_message_spec(e: UploadErrorV) -> MessageV {
    match e {
        UploadErrorV::ConfigInvalid(s) => MessageV::ConfigInvalid(s),
        UploadErrorV::BinariesMissing => MessageV::SshBinariesMissing,
        UploadErrorV::ClipboardEmpty => MessageV::ClipboardEmpty,
        UploadErrorV::ClipboardDirectory => MessageV::ClipboardDirectoryUnsupported,
        UploadErrorV::MkdirFailed(s) => MessageV::MkdirFailed(s),
        UploadErrorV::ScpFailed { stderr, part_path } => MessageV::UploadFailed {
            stderr,
            part_path,
        },
        UploadErrorV::FinalExists(p) => MessageV::FinalPathAlreadyExists(p),
        UploadErrorV::InProgress => MessageV::UploadInProgress,
        UploadErrorV::ClipboardWrite => MessageV::ClipboardWriteFailed,
        UploadErrorV::LocalPathInvalid(p) => MessageV::LocalPathInvalid(p),
        UploadErrorV::Io(e) => MessageV::IoFailed(e),
    }
}

/// The user-facing text of an error.
pub open spec fn error_text_spec(e: UploadErrorV) -> Seq<char> {
    match e {
        UploadErrorV::ConfigInvalid(s) => "configuration invalid: "@ + s,
        UploadErrorV::BinariesMissing => "ssh or scp is missing"@,
        UploadErrorV::ClipboardEmpty => "clipboard is empty or unsupported"@,
        UploadErrorV::ClipboardDirectory => "clipboard contains a directory which is not supported"@,
        UploadErrorV::MkdirFailed(s) => "mkdir failed: "@ + s,
        UploadErrorV::ScpFailed { stderr, part_path } => "upload failed: "@ + stderr
            + " (partial at "@ + part_path + ")"@,
        UploadErrorV::FinalExists(p) => "destination already exists; partial kept at "@ + p,
        UploadErrorV::InProgress => "already in progress"@,
        UploadErrorV::ClipboardWrite => "clipboard write-back failed"@,
        UploadErrorV::LocalPathInvalid(p) => "local path is not valid UTF-8: "@ + p,
        UploadErrorV::Io(e) => "io: "@ + e,
    }
}

fn cat(a: &str, b: &str) -> (r: String)
    ensures
        r@ == a@ + b@,
{
    let mut s = owned(a);
    push_str(&mut s, b);
    s
}

impl UploadError {
    /// The user-facing text of the error.
    pub fn message(&self) -> (r: String)
        ensures
            r@ == error_text_spec(self@),
    {
        match self {
            UploadError::ConfigInvalid(s) => cat("configuration invalid: ", s.as_str()),
            UploadError::BinariesMissing => owned("ssh or scp is missing"),
            UploadError::ClipboardEmpty => owned("clipboard is empty or unsupported"),
            UploadError::ClipboardDirectory => owned(
                "clipboard contains a directory which is not supported",
            ),
            UploadError::MkdirFailed(s) => cat("mkdir failed: ", s.as_str()),
            UploadError::ScpFailed { stderr, part_path } => {
                let mut s = cat("upload failed: ", stderr.as_str());
                push_str(&mut s, " (partial at ");
                push_str(&mut s, part_path.as_str());
                push_str(&mut s, ")");
                s
            },
            UploadError::FinalExists(p) => cat(
                "destination already exists; partial kept at ",
                p.as_str(),
            ),
            UploadError::InProgress => owned("already in progress"),
            UploadError::ClipboardWrite => owned("clipboard write-back failed"),
            UploadError::LocalPathInvalid(p) => cat("local path is not valid UTF-8: ", p.as_str()),
            UploadError::Io(e) => cat("io: ", e.as_str()),
        }
    }
}

fn copy(s: &String) -> (r: String)
    ensures
        r@ == s@,
{
    s.clone()
}

/// Map each error onto the notification it is shown as. Every error has one.
pub fn error_to_message(err: &UploadError) -> (r: Option<Message>)
    ensures
        r is Some,
        r->Some_0@ == error_message_spec(err@),
{
    Some(
        match err {
            UploadError::ConfigInvalid(s) => Message::ConfigInvalid(copy(s)),
            UploadError::BinariesMissing => Message::SshBinariesMissing,
            UploadError::ClipboardEmpty => Message::ClipboardEmpty,
            UploadError::ClipboardDirectory => Message::ClipboardDirectoryUnsupported,
            UploadError::MkdirFailed(s) => Message::MkdirFailed(copy(s)),
            UploadError::ScpFailed { stderr, part_path } => Message::UploadFailed {
                stderr: copy(stderr),
                part_path: copy(part_path),
            },
            UploadError::FinalExists(p) => Message::FinalPathAlreadyExists(copy(p)),
            UploadError::InProgress => Message::UploadInProgress,
            UploadError::ClipboardWrite => Message::ClipboardWriteFailed,
            UploadError::LocalPathInvalid(p) => Message::LocalPathInvalid(copy(p)),
            UploadError::Io(e) => Message::IoFailed(copy(e)),
        },
    )
}

} // verus!
