//! Raster export rules: JPEG quality and the files of a multi-page export.
use vstd::prelude::*;
use crate::text_bytes::{decimal, usize_to_decimal};

verus! {

/// Default DPI for image export
pub const DEFAULT_DPI: u32 = 96;

/// The JPEG quality used for export: a quality outside 0..=100 falls back to 95.
pub fn normalize_jpeg_quality(quality: i32) -> (res: i32)
    ensures
        res == if quality < 0 || quality > 100 { 95 } else { quality },
{
    if quality < 0 || quality > 100 {
        95
    } else {
        quality
    }
}

/// The file name of page `page_num` (counted from 1) of a multi-page export:
/// `<stem>_page_<n>.<extension>`.
pub fn page_file_name(stem: &str, page_num: usize, extension: &str) -> (res: String)
    ensures
        res@ == stem@ + "_page_"@ + decimal(page_num as nat) + "."@ + extension@,
{
    let mut name = String::from_str(stem);
    name.append("_page_");
    let number = usize_to_decimal(page_num);
    name.append(number.as_str());
    name.append(".");
    name.append(extension);
    name
}

} // verus!
