//! Default file names offered by the export dialog.
use vstd::prelude::*;
use crate::text_bytes::str_equals;

verus! {

/// The extension of an exported file for the format name the export dialog is opened
/// with; unknown formats get "bin".
pub open spec fn export_extension_of(format: Seq<char>) -> Seq<char> {
    if format == "pdf"@ {
        "pdf"@
    } else if format == "png"@ {
        "png"@
    } else if format == "jpeg"@ {
        "jpg"@
    } else if format == "svg"@ {
        "svg"@
    } else {
        "bin"@
    }
}

/// The extension for a format name.
pub fn export_extension(format: &str) -> (res: &'static str)
    ensures
        res@ == export_extension_of(format@),
{
    if str_equals(format, "pdf") {
        "pdf"
    } else if str_equals(format, "png") {
        "png"
    } else if str_equals(format, "jpeg") {
        "jpg"
    } else if str_equals(format, "svg") {
        "svg"
    } else {
        "bin"
    }
}

/// The file name the export dialog proposes: `document.<extension>`.
pub fn export_default_filename(format: &str) -> (res: String)
    ensures
        res@ == "document."@ + export_extension_of(format@),
{
    let mut name = String::from_str("document.");
    name.append(export_extension(format));
    name
}

} // verus!
