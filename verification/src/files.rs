//! The pure sides of file export and import: what is offered for download on
//! save, and what the buffer holds after a file was read.

use vstd::prelude::*;

verus! {

/// A file offered for download: its suggested name and its full content.
pub struct Download {
    pub filename: String,
    pub content: Vec<u8>,
}

/// The fixed name under which the buffer is exported.
pub open spec fn export_filename() -> Seq<char> {
    "document.txt"@
}

/// Ctrl+S: package the whole buffer, byte for byte, as a download named
/// `document.txt`.
pub fn export_download(text: Vec<u8>) -> (d: Download)
    ensures
        d.filename@ == export_filename(),
        d.content@ == text@,
{
    Download { filename: "document.txt".to_owned(), content: text }
}

/// A chosen file was read: its text becomes the whole buffer, and the
/// previous content is discarded — never merged or appended.
pub fn import_replace(_previous: Vec<u8>, file_text: Vec<u8>) -> (r: Vec<u8>)
    ensures
        r@ == file_text@,
{
    file_text
}

} // verus!
