use office_to_png_core::{column_to_letter, parse_cell_range, parse_cell_ref, XlsxError};
use office_to_png_core::is_supported_extension;

#[test]
fn test_column_to_letter() {
    assert_eq!(column_to_letter(0), "A");
    assert_eq!(column_to_letter(1), "B");
    assert_eq!(column_to_letter(25), "Z");
    assert_eq!(column_to_letter(26), "AA");
    assert_eq!(column_to_letter(27), "AB");
    assert_eq!(column_to_letter(701), "ZZ");
    assert_eq!(column_to_letter(702), "AAA");
}

#[test]
fn test_parse_cell_ref() {
    assert_eq!(parse_cell_ref("A1"), Some((0, 0)));
    assert_eq!(parse_cell_ref("B2"), Some((1, 1)));
    assert_eq!(parse_cell_ref("Z1"), Some((25, 0)));
    assert_eq!(parse_cell_ref("AA1"), Some((26, 0)));
}

#[test]
fn test_parse_cell_range() {
    assert_eq!(parse_cell_range("A1:B2"), Some((0, 0, 1, 1)));
    assert_eq!(parse_cell_range("A1:C3"), Some((0, 0, 2, 2)));
}

#[test]
fn test_parse_cell_ref_rejects_missing_row() {
    assert_eq!(parse_cell_ref(""), None);
    assert_eq!(parse_cell_ref("ABC"), None);
}

#[test]
fn test_parse_cell_ref_accepts_lowercase() {
    assert_eq!(parse_cell_ref("a1"), Some((0, 0)));
    assert_eq!(parse_cell_ref("aa10"), Some((26, 9)));
}

#[test]
fn test_parse_cell_ref_rejects_huge_values() {
    // A row number beyond the 32-bit range is rejected rather than
    // wrapped.
    assert_eq!(parse_cell_ref("A99999999999"), None);
}

#[test]
fn test_parse_cell_range_requires_exactly_one_colon() {
    assert_eq!(parse_cell_range("A1"), None);
    assert_eq!(parse_cell_range("A1:B2:C3"), None);
    assert_eq!(parse_cell_range("A1:"), None);
}

#[test]
fn test_xlsx_error_message() {
    let err = XlsxError::ParseError("bad workbook".to_string());
    assert_eq!(err.message(), "Parse error: bad workbook");
}

#[test]
fn test_is_supported_extension() {
    assert!(is_supported_extension("docx"));
    assert!(is_supported_extension("DOCX"));
    assert!(is_supported_extension("doc"));
    assert!(is_supported_extension("xlsx"));
    assert!(is_supported_extension("XLS"));
    assert!(!is_supported_extension("pdf"));
    assert!(!is_supported_extension(""));
    assert!(!is_supported_extension("docxx"));
}
