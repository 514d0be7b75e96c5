//! User-facing notifications and their text.
use vstd::prelude::*;
use crate::text::{owned, push_str};

verus! {

/// Every notification the application can show.
#[derive(Debug, Clone, PartialEq, Eq)]
pub enum Message {
    /// The remote path (copied to the clipboard).
    UploadSucceeded(String),
    /// The remote path (not copied: the clipboard changed meanwhile).
    UploadSucceededButClipboardChanged(String),
    ClipboardEmpty,
    ClipboardDirectoryUnsupported,
    /// The detail of what is invalid.
    ConfigInvalid(String),
    SshBinariesMissing,
    /// The remote command's stderr.
    MkdirFailed(String),
    UploadFailed { stderr: String, part_path: String },
    /// Where the partial upload was kept.
    FinalPathAlreadyExists(String),
    UploadInProgress,
    ClipboardWriteFailed,
    /// The path reached the clipboard but the paste keystroke could not be sent; `macos` says
    /// whether the application runs on macOS, where the hint names the permission to grant.
    PasteFailed { macos: bool },
    LocalPathInvalid(String),
    IoFailed(String),
    ShortcutRegistrationFailed(String),
    QuitDuringUpload,
}

/// The mathematical value of a notification.
pub enum MessageV {
    UploadSucceeded(Seq<char>),
    UploadSucceededButClipboardChanged(Seq<char>),
    ClipboardEmpty,
    ClipboardDirectoryUnsupported,
    ConfigInvalid(Seq<char>),
    SshBinariesMissing,
    MkdirFailed(Seq<char>),
    UploadFailed { stderr: Seq<char>, part_path: Seq<char> },
    FinalPathAlreadyExists(Seq<char>),
    UploadInProgress,
    ClipboardWriteFailed,
    PasteFailed { macos: bool },
    LocalPathInvalid(Seq<char>),
    IoFailed(Seq<char>),
    ShortcutRegistrationFailed(Seq<char>),
    QuitDuringUpload,
}

impl View for Message {
    type V = MessageV;

    open spec fn view(&self) -> MessageV {
        match self {
            Message::UploadSucceeded(p) => MessageV::UploadSucceeded(p@),
            Message::UploadSucceededButClipboardChanged(p) =>
                MessageV::UploadSucceededButClipboardChanged(p@),
            Message::ClipboardEmpty => MessageV::ClipboardEmpty,
            Message::ClipboardDirectoryUnsupported => MessageV::ClipboardDirectoryUnsupported,
            Message::ConfigInvalid(d) => MessageV::ConfigInvalid(d@),
            Message::SshBinariesMissing => MessageV::SshBinariesMissing,
            Message::MkdirFailed(e) => MessageV::MkdirFailed(e@),
            Message::UploadFailed { stderr, part_path } => MessageV::UploadFailed {
                stderr: stderr@,
                part_path: part_path@,
            },
            Message::FinalPathAlreadyExists(p) => MessageV::FinalPathAlreadyExists(p@),
            Message::UploadInProgress => MessageV::UploadInProgress,
            Message::ClipboardWriteFailed => MessageV::ClipboardWriteFailed,
            Message::PasteFailed { macos } => MessageV::PasteFailed { macos: *macos },
            Message::LocalPathInvalid(p) => MessageV::LocalPathInvalid(p@),
            Message::IoFailed(e) => MessageV::IoFailed(e@),
            Message::ShortcutRegistrationFailed(e) => MessageV::ShortcutRegistrationFailed(e@),
            Message::QuitDuringUpload => MessageV::QuitDuringUpload,
        }
    }
}

/// Shows notifications to the user.
pub trait Notifier {
    fn notify(&self, m: Message);
}

/// The title of every notification.
pub open spec fn title_spec() -> Seq<char> {
    "Clipship"@
}

/// The body of a notification.
pub open spec fn body_spec(m: MessageV) -> Seq<char> {
    match m {
        MessageV::UploadSucceeded(p) => "Uploaded. Remote path copied: "@ + p,
        MessageV::UploadSucceededButClipboardChanged(p) =>
            "Uploaded. Clipboard changed, path not copied. "@ + p,
        MessageV::ClipboardEmpty => "Clipboard has no uploadable file or image."@,
        MessageV::ClipboardDirectoryUnsupported =>
            "Clipboard contains a directory, which is not supported."@,
        MessageV::ConfigInvalid(d) => "Configuration is invalid: "@ + d,
        MessageV::SshBinariesMissing => "ssh or scp is missing on this machine."@,
        MessageV::MkdirFailed(e) => "Remote directory creation failed: "@ + e,
        MessageV::UploadFailed { stderr, part_path } => "Upload failed: "@ + stderr
            + ". Remote partial file may be at: "@ + part_path,
        MessageV::FinalPathAlreadyExists(p) =>
            "Upload aborted: destination already exists. Partial kept at "@ + p,
        MessageV::UploadInProgress => "Upload already in progress."@,
        MessageV::ClipboardWriteFailed => "Upload succeeded but writing to clipboard failed."@,
        MessageV::PasteFailed { macos } => "Path copied, but auto-paste failed \u{2014} paste it manually. "@
            + if macos {
            "Grant Clipship the Accessibility permission (System Settings \u{2192} Privacy & Security \u{2192} Accessibility)."@
        } else {
            "Your desktop session may block synthetic input."@
        },
        MessageV::LocalPathInvalid(p) =>
            "Local file path is not valid UTF-8 and cannot be passed to scp: "@ + p,
        MessageV::IoFailed(e) => "Local operation failed: "@ + e,
        MessageV::ShortcutRegistrationFailed(e) => "Global shortcut could not be registered: "@
            + e + ". Check system shortcut permissions and conflicts."@,
        MessageV::QuitDuringUpload => "Quit while uploading. Remote .part file may remain."@,
    }
}

fn prefixed(prefix: &str, rest: &str) -> (r: String)
    ensures
        r@ == prefix@ + rest@,
{
    let mut s = owned(prefix);
    push_str(&mut s, rest);
    s
}

/// The `(title, body)` a notification is shown with.
pub fn render(m: &Message) -> (r: (&'static str, String))
    ensures
        r.0@ == title_spec(),
        r.1@ == body_spec(m@),
        r.1@.len() > 0,
{
    proof {
        lemma_body_not_empty(m@);
    }
    let body = match m {
        Message::UploadSucceeded(p) => prefixed("Uploaded. Remote path copied: ", p.as_str()),
        Message::UploadSucceededButClipboardChanged(p) => prefixed(
            "Uploaded. Clipboard changed, path not copied. ",
            p.as_str(),
        ),
        Message::ClipboardEmpty => owned("Clipboard has no uploadable file or image."),
        Message::ClipboardDirectoryUnsupported => owned(
            "Clipboard contains a directory, which is not supported.",
        ),
        Message::ConfigInvalid(d) => prefixed("Configuration is invalid: ", d.as_str()),
        Message::SshBinariesMissing => owned("ssh or scp is missing on this machine."),
        Message::MkdirFailed(e) => prefixed("Remote directory creation failed: ", e.as_str()),
        Message::UploadFailed { stderr, part_path } => {
            let mut s = prefixed("Upload failed: ", stderr.as_str());
            push_str(&mut s, ". Remote partial file may be at: ");
            push_str(&mut s, part_path.as_str());
            s
        },
        Message::FinalPathAlreadyExists(p) => prefixed(
            "Upload aborted: destination already exists. Partial kept at ",
            p.as_str(),
        ),
        Message::UploadInProgress => owned("Upload already in progress."),
        Message::ClipboardWriteFailed => owned("Upload succeeded but writing to clipboard failed."),
        Message::PasteFailed { macos } => prefixed(
            "Path copied, but auto-paste failed \u{2014} paste it manually. ",
            if *macos {
                "Grant Clipship the Accessibility permission (System Settings \u{2192} Privacy & Security \u{2192} Accessibility)."
            } else {
                "Your desktop session may block synthetic input."
            },
        ),
        Message::LocalPathInvalid(p) => prefixed(
            "Local file path is not valid UTF-8 and cannot be passed to scp: ",
            p.as_str(),
        ),
        Message::IoFailed(e) => prefixed("Local operation failed: ", e.as_str()),
        Message::ShortcutRegistrationFailed(e) => {
            let mut s = prefixed("Global shortcut could not be registered: ", e.as_str());
            push_str(&mut s, ". Check system shortcut permissions and conflicts.");
            s
        },
        Message::QuitDuringUpload => owned("Quit while uploading. Remote .part file may remain."),
    };
    ("Clipship", body)
}

/// Every notification has a non-empty body.
pub proof fn lemma_body_not_empty(m: MessageV)
    ensures
        body_spec(m).len() > 0,
{
    reveal_strlit("Uploaded. Remote path copied: ");
    reveal_strlit("Uploaded. Clipboard changed, path not copied. ");
    reveal_strlit("Clipboard has no uploadable file or image.");
    reveal_strlit("Clipboard contains a directory, which is not supported.");
    reveal_strlit("Configuration is invalid: ");
    reveal_strlit("ssh or scp is missing on this machine.");
    reveal_strlit("Remote directory creation failed: ");
    reveal_strlit("Upload failed: ");
    reveal_strlit("Upload aborted: destination already exists. Partial kept at ");
    reveal_strlit("Upload already in progress.");
    reveal_strlit("Upload succeeded but writing to clipboard failed.");
    reveal_strlit("Path copied, but auto-paste failed \u{2014} paste it manually. ");
    reveal_strlit("Local file path is not valid UTF-8 and cannot be passed to scp: ");
    reveal_strlit("Local operation failed: ");
    reveal_strlit("Global shortcut could not be registered: ");
    reveal_strlit("Quit while uploading. Remote .part file may remain.");
}

} // verus!
