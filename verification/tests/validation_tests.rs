use dicom_inspect::validation::{validate_instance, validate_uid};
use dicom_inspect::{DicomError, DicomMetadata};

fn sample_record() -> DicomMetadata {
    DicomMetadata {
        patient_id: "P-001".to_string(),
        patient_name: "DOE^JANE".to_string(),
        patient_birth_date: None,
        patient_sex: None,
        study_instance_uid: "1.2.3".to_string(),
        study_date: None,
        study_time: None,
        study_description: None,
        accession_number: None,
        series_instance_uid: "1.2.3.4".to_string(),
        series_number: None,
        modality: "CT".to_string(),
        series_description: None,
        sop_instance_uid: "1.2.3.4.5".to_string(),
        instance_number: None,
        transfer_syntax_uid: "1.2.840.10008.1.2.1".to_string(),
    }
}

fn validation_message(result: Result<(), DicomError>) -> String {
    match result {
        Err(DicomError::ValidationError(msg)) => msg,
        other => panic!("expected a validation error, got {:?}", other),
    }
}

#[test]
fn test_valid_uid() {
    assert!(validate_uid("1.2.840.10008.5.1.4.1.1.1", "Test UID").is_ok());
}

#[test]
fn test_invalid_uid_empty() {
    assert!(validate_uid("", "Test UID").is_err());
}

#[test]
fn test_invalid_uid_chars() {
    assert!(validate_uid("1.2.abc.10008", "Test UID").is_err());
}

#[test]
fn test_invalid_uid_dots() {
    assert!(validate_uid(".1.2.3.", "Test UID").is_err());
}

#[test]
fn uid_messages_name_the_field_and_the_rule() {
    assert_eq!(validation_message(validate_uid("", "Test UID")), "Test UID no puede estar vacío");
    assert_eq!(
        validation_message(validate_uid("1.2.abc.3", "Test UID")),
        "Test UID contiene caracteres inválidos: 1.2.abc.3"
    );
    assert_eq!(
        validation_message(validate_uid(".1.2.3.", "Test UID")),
        "Test UID no debe empezar ni terminar con punto: .1.2.3."
    );
    assert_eq!(
        validation_message(validate_uid("1.2.3.", "Study Instance UID")),
        "Study Instance UID no debe empezar ni terminar con punto: 1.2.3."
    );
    assert_eq!(
        validation_message(validate_uid(".1", "X")),
        "X no debe empezar ni terminar con punto: .1"
    );
}

#[test]
fn uid_edge_cases() {
    assert!(validate_uid("0", "U").is_ok());
    assert!(validate_uid("1", "U").is_ok());
    assert!(validate_uid("1.2", "U").is_ok());
    assert!(validate_uid(".", "U").is_err());
    assert!(validate_uid("1 2", "U").is_err());
    assert!(validate_uid("1.2 ", "U").is_err());
    assert!(validate_uid("1,2", "U").is_err());
    assert!(validate_uid("1/2", "U").is_err());
    assert!(validate_uid("1:2", "U").is_err());
    assert!(validate_uid("1-2", "U").is_err());
    // A digit of another script is no ASCII digit.
    assert!(validate_uid("1.\u{0663}.3", "U").is_err());
    assert_eq!(
        validation_message(validate_uid("é", "U")),
        "U contiene caracteres inválidos: é"
    );
    // The rule looks at the ends only: dots in a row inside are let through.
    assert!(validate_uid("1..2", "U").is_ok());
}

#[test]
fn accepted_uids_without_doubled_dots_have_the_dotted_number_form() {
    let candidates = [
        "1", "12", "1.2", "1.2.840.10008.5.1.4.1.1.1", "", ".", ".1", "1.", "1.a", "a", "1..2",
        "..", "1.2.3.", ".1.2.3.", "1.2.abc.3", "00.0",
    ];
    for uid in candidates {
        let components_ok = !uid.is_empty()
            && uid.split('.').all(|part| !part.is_empty() && part.bytes().all(|b| b.is_ascii_digit()));
        let accepted = validate_uid(uid, "U").is_ok();
        let doubled = uid.contains("..");
        if components_ok {
            assert!(accepted, "{uid:?} has the form and must be accepted");
        }
        if accepted && !doubled {
            assert!(components_ok, "{uid:?} was accepted without the form");
        }
    }
}

#[test]
fn valid_record_passes() {
    assert_eq!(validate_instance(&sample_record()), Ok(()));
}

#[test]
fn record_without_patient_id_fails() {
    let mut record = sample_record();
    record.patient_id = String::new();
    assert_eq!(
        validation_message(validate_instance(&record)),
        "Patient ID no puede estar vacío"
    );
}

#[test]
fn record_with_bad_uids_fails_with_the_field_name() {
    let mut record = sample_record();
    record.study_instance_uid = "1.x".to_string();
    assert_eq!(
        validation_message(validate_instance(&record)),
        "Study Instance UID contiene caracteres inválidos: 1.x"
    );

    let mut record = sample_record();
    record.series_instance_uid = String::new();
    assert_eq!(
        validation_message(validate_instance(&record)),
        "Series Instance UID no puede estar vacío"
    );

    let mut record = sample_record();
    record.sop_instance_uid = "1.2.".to_string();
    assert_eq!(
        validation_message(validate_instance(&record)),
        "SOP Instance UID no debe empezar ni terminar con punto: 1.2."
    );
}

#[test]
fn record_without_modality_fails() {
    let mut record = sample_record();
    record.modality = String::new();
    assert_eq!(validation_message(validate_instance(&record)), "Modality no puede estar vacío");
}

#[test]
fn first_failing_check_decides() {
    let mut record = sample_record();
    record.patient_id = String::new();
    record.study_instance_uid = String::new();
    record.modality = String::new();
    assert_eq!(
        validation_message(validate_instance(&record)),
        "Patient ID no puede estar vacío"
    );

    let mut record = sample_record();
    record.series_instance_uid = ".1".to_string();
    record.sop_instance_uid = "bad".to_string();
    record.modality = String::new();
    assert_eq!(
        validation_message(validate_instance(&record)),
        "Series Instance UID no debe empezar ni terminar con punto: .1"
    );
}
