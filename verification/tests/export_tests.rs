use testruct_ui::export::image::{normalize_jpeg_quality, page_file_name, DEFAULT_DPI};
use testruct_ui::export::image_utils::is_image_available;
use testruct_ui::export::ExportFormat;
use testruct_ui::io::file_dialog::{export_default_filename, export_extension};

#[test]
fn test_image_export_module_loads() {
    assert!(true);
}

#[test]
fn test_default_dpi() {
    assert_eq!(DEFAULT_DPI as f64, 96.0);
}

#[test]
fn test_module_loads() {
    // Module loads successfully if this compiles and runs
}

#[test]
fn test_export_format_extension() {
    assert_eq!(ExportFormat::PNG.extension(), "png");
    assert_eq!(ExportFormat::JPEG.extension(), "jpg");
    assert_eq!(ExportFormat::SVG.extension(), "svg");
    assert_eq!(ExportFormat::PDF.extension(), "pdf");
}

#[test]
fn test_svg_export_module_loads() {
    assert!(true);
}

#[test]
fn format_names_and_transparency() {
    assert_eq!(ExportFormat::PNG.display_name(), "PNG Image");
    assert_eq!(ExportFormat::PDF.display_name(), "PDF Document");
    assert!(ExportFormat::PNG.supports_transparency());
    assert!(ExportFormat::SVG.supports_transparency());
    assert!(!ExportFormat::JPEG.supports_transparency());
    assert!(!ExportFormat::PDF.supports_transparency());
}

#[test]
fn jpeg_quality_falls_back_outside_range() {
    assert_eq!(normalize_jpeg_quality(-1), 95);
    assert_eq!(normalize_jpeg_quality(101), 95);
    assert_eq!(normalize_jpeg_quality(0), 0);
    assert_eq!(normalize_jpeg_quality(100), 100);
    assert_eq!(normalize_jpeg_quality(42), 42);
}

#[test]
fn pages_are_numbered_in_file_names() {
    assert_eq!(page_file_name("report", 1, "png"), "report_page_1.png");
    assert_eq!(page_file_name("report", 12, "jpg"), "report_page_12.jpg");
}

#[test]
fn image_availability() {
    assert!(is_image_available(true, true, true));
    assert!(!is_image_available(true, true, false));
    assert!(!is_image_available(false, false, false));
    assert!(!is_image_available(true, false, true));
}

#[test]
fn export_dialog_names() {
    assert_eq!(export_extension("jpeg"), "jpg");
    assert_eq!(export_extension("pdf"), "pdf");
    assert_eq!(export_extension("tiff"), "bin");
    assert_eq!(export_default_filename("svg"), "document.svg");
    assert_eq!(export_default_filename("png"), "document.png");
}
