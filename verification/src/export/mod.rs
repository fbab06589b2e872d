//! Document export: formats and the naming of exported files.

pub mod image;
pub mod image_utils;

use vstd::prelude::*;

verus! {

/// Export file format
#[derive(Debug, Clone, Copy, PartialEq, Eq, Structural)]
pub enum ExportFormat {
    PNG,
    JPEG,
    SVG,
    PDF,
}

impl ExportFormat {
    /// Get file extension for the format
    pub fn extension(&self) -> (res: &'static str)
        ensures
            res@ == match *self {
                ExportFormat::PNG => "png"@,
                ExportFormat::JPEG => "jpg"@,
                ExportFormat::SVG => "svg"@,
                ExportFormat::PDF => "pdf"@,
            },
    {
        match self {
            ExportFormat::PNG => "png",
            ExportFormat::JPEG => "jpg",
            ExportFormat::SVG => "svg",
            ExportFormat::PDF => "pdf",
        }
    }

    /// Get display name for UI
    pub fn display_name(&self) -> (res: &'static str)
        ensures
            res@ == match *self {
                ExportFormat::PNG => "PNG Image"@,
                ExportFormat::JPEG => "JPEG Image"@,
                ExportFormat::SVG => "SVG Vector"@,
                ExportFormat::PDF => "PDF Document"@,
            },
    {
        match self {
            ExportFormat::PNG => "PNG Image",
            ExportFormat::JPEG => "JPEG Image",
            ExportFormat::SVG => "SVG Vector",
            ExportFormat::PDF => "PDF Document",
        }
    }

    /// Check if format supports transparency
    pub fn supports_transparency(&self) -> (res: bool)
        ensures
            res == (*self == ExportFormat::PNG || *self == ExportFormat::SVG),
    {
        match self {
            ExportFormat::PNG => true,
            ExportFormat::SVG => true,
            _ => false,
        }
    }
}

} // verus!
