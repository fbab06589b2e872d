//! Image availability check for export.
use vstd::prelude::*;

verus! {

/// Check if an image file exists and is readable: given whether the path exists,
/// whether it names a regular file and whether that file can be opened for reading,
/// the image is available when all three hold.
pub fn is_image_available(exists: bool, is_file: bool, readable: bool) -> (res: bool)
    ensures
        res == (exists && is_file && readable),
{
    if !exists {
        return false;
    }
    if !is_file {
        return false;
    }
    readable
}

} // verus!
