//! What the clipboard holds, and which of its formats wins.
use vstd::prelude::*;

verus! {

/// The clipboard, reduced to what an upload can use.
#[derive(Debug, Clone, PartialEq, Eq)]
pub enum ClipboardContent {
    /// One or more file paths (in clipboard order).
    Files(Vec<String>),
    /// An image, encoded as PNG.
    Image(Vec<u8>),
    /// Something else (text, for instance).
    Other,
    /// Nothing.
    Empty,
}

/// The mathematical value of clipboard content.
pub enum ContentV {
    Files(Seq<Seq<char>>),
    Image(Seq<u8>),
    Other,
    Empty,
}

/// The views of a list of strings.
pub open spec fn strings_view(v: Seq<String>) -> Seq<Seq<char>> {
    v.map_values(|s: String| s@)
}

impl View for ClipboardContent {
    type V = ContentV;

    open spec fn view(&self) -> ContentV {
        match self {
            ClipboardContent::Files(v) => ContentV::Files(strings_view(v@)),
            ClipboardContent::Image(b) => ContentV::Image(b@),
            ClipboardContent::Other => ContentV::Other,
            ClipboardContent::Empty => ContentV::Empty,
        }
    }
}

/// Access to the system clipboard.
pub trait ClipboardAdapter {
    /// What the clipboard holds now.
    fn read(&self) -> ClipboardContent;

    /// Replace the clipboard with `text`.
    fn write_text(&self, text: &str) -> Result<(), String>;
}

/// The order in which clipboard formats are taken: a non-empty file list, then a PNG image,
/// then "something else" when text is present, else nothing; and nothing when the clipboard
/// could not be opened.
pub open spec fn choose_content_spec(
    opened: bool,
    files: Option<Seq<Seq<char>>>,
    image_png: Option<Seq<u8>>,
    has_text: bool,
) -> ContentV {
    if !opened {
        ContentV::Empty
    } else if files is Some && files->Some_0.len() > 0 {
        ContentV::Files(files->Some_0)
    } else if image_png is Some {
        ContentV::Image(image_png->Some_0)
    } else if has_text {
        ContentV::Other
    } else {
        ContentV::Empty
    }
}

/// Decide what the clipboard holds from what the platform reported: whether the clipboard
/// opened, the file list (when the file format is present and readable), the PNG encoding of
/// the image (when the image format is present and converts), and whether text is present.
pub fn choose_content(
    opened: bool,
    files: Option<Vec<String>>,
    image_png: Option<Vec<u8>>,
    has_text: bool,
) -> (r: ClipboardContent)
    ensures
        r@ == choose_content_spec(
            opened,
            match files {
                Some(f) => Some(strings_view(f@)),
                None => None,
            },
            match image_png {
                Some(b) => Some(b@),
                None => None,
            },
            has_text,
        ),
{
    if !opened {
        return ClipboardContent::Empty;
    }
    if let Some(f) = files {
        if f.len() > 0 {
            return ClipboardContent::Files(f);
        }
    }
    if let Some(b) = image_png {
        return ClipboardContent::Image(b);
    }
    if has_text {
        return ClipboardContent::Other;
    }
    ClipboardContent::Empty
}

} // verus!
