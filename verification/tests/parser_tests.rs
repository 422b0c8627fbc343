use dicom_inspect::parser::{DEFAULT_MAX_FILE_SIZE, PREAMBLE_LEN};
use dicom_inspect::{DicomError, DicomParser, ParseOptions};

#[test]
fn lib_test_parser_creation() {
    let parser = DicomParser::new();
    assert!(parser.is_ready());
}

#[test]
fn parser_test_parser_creation() {
    let parser = DicomParser::new();
    assert!(parser.is_ready());
}

#[test]
fn test_custom_options() {
    let options = ParseOptions {
        validate_checksums: true,
        load_pixel_data: true,
        strict_validation: false,
        max_file_size: 1_000_000,
    };

    let parser = DicomParser::with_options(options);
    assert!(parser.is_ready());
}

#[test]
fn test_parser_with_default_options() {
    let parser = DicomParser::new();
    assert!(parser.is_ready());
}

#[test]
fn test_parser_with_custom_options() {
    let options = ParseOptions {
        validate_checksums: true,
        load_pixel_data: false,
        strict_validation: true,
        max_file_size: 1_000_000_000,
    };

    let parser = DicomParser::with_options(options);
    assert!(parser.is_ready());
}

#[test]
fn default_options_are_lazy_and_strict() {
    let options = ParseOptions::default();
    assert!(!options.validate_checksums);
    assert!(!options.load_pixel_data);
    assert!(options.strict_validation);
    assert_eq!(options.max_file_size, 2_000_000_000);
    assert_eq!(DEFAULT_MAX_FILE_SIZE, 2_000_000_000);
    assert_eq!(PREAMBLE_LEN, 128);
    assert_eq!(DicomParser::new().configuration(), options);
    assert_eq!(DicomParser::default().configuration(), options);
}

#[test]
fn with_options_keeps_the_options() {
    let options = ParseOptions {
        validate_checksums: true,
        load_pixel_data: true,
        strict_validation: false,
        max_file_size: 77,
    };
    assert_eq!(DicomParser::with_options(options).configuration(), options);
}

#[test]
fn size_guard_rejects_a_file_over_the_limit() {
    let options = ParseOptions { max_file_size: 100, ..ParseOptions::default() };
    let parser = DicomParser::with_options(options);
    assert_eq!(parser.check_file_size(100), Ok(()));
    assert_eq!(
        parser.check_file_size(101),
        Err(DicomError::ValidationError(
            "Archivo demasiado grande: 101 bytes (máximo: 100)".to_string()
        ))
    );
}

#[test]
fn size_guard_with_limit_zero_accepts_every_size() {
    let options = ParseOptions { max_file_size: 0, ..ParseOptions::default() };
    let parser = DicomParser::with_options(options);
    assert_eq!(parser.check_file_size(0), Ok(()));
    assert_eq!(parser.check_file_size(u64::MAX), Ok(()));
}

#[test]
fn size_guard_writes_large_numbers_in_full() {
    let options = ParseOptions { max_file_size: 2_000_000_000, ..ParseOptions::default() };
    let parser = DicomParser::with_options(options);
    assert_eq!(
        parser.check_file_size(u64::MAX),
        Err(DicomError::ValidationError(
            "Archivo demasiado grande: 18446744073709551615 bytes (máximo: 2000000000)"
                .to_string()
        ))
    );
}

#[test]
fn oversized_file_fails_before_its_content_is_looked_at() {
    let options = ParseOptions { max_file_size: 100, ..ParseOptions::default() };
    let parser = DicomParser::with_options(options);
    let bytes = vec![0u8; 101];
    let result = parser.parse_bytes(std::path::PathBuf::from("big.dcm"), &bytes);
    assert_eq!(
        result.err(),
        Some(DicomError::ValidationError(
            "Archivo demasiado grande: 101 bytes (máximo: 100)".to_string()
        ))
    );
    // The same holds of a well-framed file: the size decides alone.
    let mut framed = vec![0u8; 128];
    framed.extend_from_slice(b"DICM");
    let result = parser.parse_bytes(std::path::PathBuf::from("big.dcm"), &framed);
    assert!(matches!(result, Err(DicomError::ValidationError(_))));
}

#[test]
fn magic_check_on_short_files_is_a_failed_read() {
    let parser = DicomParser::new();
    for len in [0usize, 1, 4, 127, 128, 131] {
        let bytes = vec![b'D'; len];
        assert_eq!(
            parser.validate_magic_bytes(&bytes),
            Err(DicomError::Io("failed to fill whole buffer".to_string()))
        );
        let result = parser.parse_bytes(std::path::PathBuf::from("short.dcm"), &bytes);
        assert_eq!(
            result.err(),
            Some(DicomError::Io("failed to fill whole buffer".to_string()))
        );
    }
}

#[test]
fn magic_check_wants_dicm_at_offset_128() {
    let parser = DicomParser::new();
    let mut bytes = vec![0u8; 128];
    bytes.extend_from_slice(b"DICM");
    assert_eq!(parser.validate_magic_bytes(&bytes), Ok(()));

    for wrong in [b"DICN", b"dicm", b"\0ICM", b"DIC\0", b"MCID"] {
        let mut bytes = vec![0u8; 128];
        bytes.extend_from_slice(wrong);
        bytes.extend_from_slice(b"DICM and anything else after offset 132");
        assert_eq!(parser.validate_magic_bytes(&bytes), Err(DicomError::InvalidMagicBytes));
        let result = parser.parse_bytes(std::path::PathBuf::from("other.bin"), &bytes);
        assert_eq!(result.err(), Some(DicomError::InvalidMagicBytes));
    }
}

#[test]
fn magic_code_at_offset_zero_is_not_enough() {
    let parser = DicomParser::new();
    let mut bytes = b"DICM".to_vec();
    bytes.extend_from_slice(&[0u8; 200]);
    assert_eq!(parser.validate_magic_bytes(&bytes), Err(DicomError::InvalidMagicBytes));
}

#[test]
fn framed_file_without_a_data_set_is_a_parse_error() {
    let parser = DicomParser::new();
    let mut bytes = vec![0u8; 128];
    bytes.extend_from_slice(b"DICM");
    let result = parser.parse_bytes(std::path::PathBuf::from("empty.dcm"), &bytes);
    match result {
        Err(DicomError::ParseError(msg)) => assert!(msg.starts_with("Error parsing DICOM: ")),
        other => panic!("unexpected result: {:?}", other),
    }
}

#[test]
fn error_builders_make_their_kind() {
    assert_eq!(DicomError::parse("p".to_string()), DicomError::ParseError("p".to_string()));
    assert_eq!(
        DicomError::validation("v".to_string()),
        DicomError::ValidationError("v".to_string())
    );
    assert_eq!(DicomError::internal("i".to_string()), DicomError::Internal("i".to_string()));
}
