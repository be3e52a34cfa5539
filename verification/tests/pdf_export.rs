use nota::pdf_export::{check_pdf_destination, validate_pdf_destination, PdfDestinationError, check_exported_pdf, check_pdf_target};

#[test]
fn pdf_destination_requires_an_absolute_pdf_path() {
    assert!(validate_pdf_destination("").is_err());
    assert!(validate_pdf_destination("report.pdf").is_err());
    assert!(validate_pdf_destination("C:\\Exports\\report.txt").is_err());
}

#[test]
fn pdf_destination_checks_come_in_order() {
    assert_eq!(validate_pdf_destination("   ").unwrap_err(), PdfDestinationError::Missing);
    assert_eq!(
        check_pdf_destination("report.pdf", false).unwrap_err(),
        PdfDestinationError::NotAbsolute
    );
    assert_eq!(
        check_pdf_destination("C:\\Exports\\report.txt", true).unwrap_err(),
        PdfDestinationError::NotPdf
    );
    assert_eq!(
        check_pdf_destination("C:\\Exports\\Meeting.PDF", true).unwrap(),
        "C:\\Exports\\Meeting.PDF"
    );
    assert_eq!(
        validate_pdf_destination(" /exports/Meeting.PDF ").unwrap(),
        "/exports/Meeting.PDF"
    );
    assert_eq!(PdfDestinationError::NotPdf.message(), "PDF 导出文件必须使用 .pdf 扩展名");
}

#[test]
fn the_disk_must_hold_the_directory_and_then_the_file() {
    assert_eq!(check_pdf_target(false, false), Err(PdfDestinationError::NoDirectory));
    assert_eq!(check_pdf_target(true, true), Err(PdfDestinationError::IsDirectory));
    assert_eq!(check_pdf_target(true, false), Ok(()));
    assert_eq!(check_exported_pdf(false), Err(PdfDestinationError::NotExported));
    assert_eq!(PdfDestinationError::NotExported.message(), "找不到已导出的 PDF 文件");
    assert!(check_exported_pdf(true).is_ok());
}

#[test]
fn a_relative_destination_is_refused_as_not_absolute() {
    assert_eq!(validate_pdf_destination("  report.pdf ").unwrap_err(), PdfDestinationError::NotAbsolute);
    assert_eq!(validate_pdf_destination("exports/report.pdf").unwrap_err(), PdfDestinationError::NotAbsolute);
}
