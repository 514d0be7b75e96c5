//! What an upload should do with the clipboard content.
use vstd::prelude::*;
use crate::clipboard::adapter::{ClipboardContent, ContentV};

verus! {

/// The clipboard content, classified for upload.
#[derive(Debug, Clone, PartialEq, Eq)]
pub enum Classified {
    /// The first file of the clipboard's file list.
    FileToUpload(String),
    /// The first entry of the file list is a directory.
    DirectoryUnsupported,
    /// An image, as PNG bytes.
    ImageBytes(Vec<u8>),
    /// Nothing that can be uploaded.
    Nothing,
}

/// The mathematical value of a classification.
pub enum ClassifiedV {
    FileToUpload(Seq<char>),
    DirectoryUnsupported,
    ImageBytes(Seq<u8>),
    Nothing,
}

impl View for Classified {
    type V = ClassifiedV;

    open spec fn view(&self) -> ClassifiedV {
        match self {
            Classified::FileToUpload(p) => ClassifiedV::FileToUpload(p@),
            Classified::DirectoryUnsupported => ClassifiedV::DirectoryUnsupported,
            Classified::ImageBytes(b) => ClassifiedV::ImageBytes(b@),
            Classified::Nothing => ClassifiedV::Nothing,
        }
    }
}

/// Only the first file counts, and a directory is refused; image bytes are carried through;
/// anything else is nothing. `first_is_dir` says whether the first listed path is a directory.
pub open spec fn classify_spec(content: ContentV, first_is_dir: bool) -> ClassifiedV {
    match content {
        ContentV::Files(list) => if list.len() > 0 {
            if first_is_dir {
                ClassifiedV::DirectoryUnsupported
            } else {
                ClassifiedV::FileToUpload(list[0])
            }
        } else {
            ClassifiedV::Nothing
        },
        ContentV::Image(bytes) => ClassifiedV::ImageBytes(bytes),
        ContentV::Other => ClassifiedV::Nothing,
        ContentV::Empty => ClassifiedV::Nothing,
    }
}

/// Whether `path` names an existing directory.
///
/// Trusted: `std::path::Path::is_dir`. The answer depends on the file system at the time of the
/// call, so nothing is stated of it.
#[verifier::external_body]
fn is_directory(path: &str) -> bool {
    std::path::Path::new(path).is_dir()
}

/// Classify clipboard content given whether its first listed path is a directory.
pub fn classify_with(content: ClipboardContent, first_is_dir: bool) -> (r: Classified)
    ensures
        r@ == classify_spec(content@, first_is_dir),
{
    match content {
        ClipboardContent::Files(list) => {
            if list.len() > 0 {
                if first_is_dir {
                    Classified::DirectoryUnsupported
                } else {
                    Classified::FileToUpload(list[0].clone())
                }
            } else {
                Classified::Nothing
            }
        },
        ClipboardContent::Image(bytes) => Classified::ImageBytes(bytes),
        ClipboardContent::Other | ClipboardContent::Empty => Classified::Nothing,
    }
}

/// Classify clipboard content, asking the file system whether the first listed path is a
/// directory.
pub fn classify(content: ClipboardContent) -> (r: Classified)
    ensures
        exists|d: bool| r@ == classify_spec(content@, d),
        !(content is Files) ==> r@ == classify_spec(content@, false),
{
    let first_is_dir = match &content {
        ClipboardContent::Files(list) => if list.len() > 0 {
            is_directory(list[0].as_str())
        } else {
            false
        },
        _ => false,
    };
    classify_with(content, first_is_dir)
}

} // verus!
