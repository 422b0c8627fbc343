//! Structural validation of a resolved record.
//!
//! The checks are purely structural: a UID is held to its character set and
//! to the placement of its dots, not to global uniqueness, and a modality is
//! only required to be there.

use vstd::prelude::*;
use crate::error::{DicomError, ErrorView};
use crate::metadata::{DicomMetadata, MetadataView};

verus! {

/// A character that may occur in a UID: an ASCII digit or a dot.
pub open spec fn is_uid_char(c: char) -> bool {
    ('0' <= c && c <= '9') || c == '.'
}

/// Every character of `uid` may occur in a UID.
pub open spec fn has_only_uid_chars(uid: Seq<char>) -> bool {
    forall|i: int| 0 <= i < uid.len() ==> is_uid_char(#[trigger] uid[i])
}

/// The UID rule: not empty, digits and dots only, no dot at either end.
pub open spec fn is_valid_uid(uid: Seq<char>) -> bool {
    &&& uid.len() > 0
    &&& has_only_uid_chars(uid)
    &&& uid[0] != '.'
    &&& uid[uid.len() - 1] != '.'
}

/// The message for a UID that breaks the rule. The first broken clause of
/// the rule decides; `name` says which field the UID is.
pub open spec fn uid_complaint(uid: Seq<char>, name: Seq<char>) -> Seq<char> {
    if uid.len() == 0 {
        name + " no puede estar vacío"@
    } else if !has_only_uid_chars(uid) {
        name + " contiene caracteres inválidos: "@ + uid
    } else {
        name + " no debe empezar ni terminar con punto: "@ + uid
    }
}

/// What validating one UID yields.
pub open spec fn uid_verdict(uid: Seq<char>, name: Seq<char>) -> Result<(), ErrorView> {
    if is_valid_uid(uid) {
        Ok(())
    } else {
        Err(ErrorView::ValidationError(uid_complaint(uid, name)))
    }
}

/// The record rule: a patient ID, three valid UIDs and a modality.
pub open spec fn is_valid_record(record: MetadataView) -> bool {
    &&& record.patient_id.len() > 0
    &&& is_valid_uid(record.study_instance_uid)
    &&& is_valid_uid(record.series_instance_uid)
    &&& is_valid_uid(record.sop_instance_uid)
    &&& record.modality.len() > 0
}

/// What validating a record yields: the checks run in the order patient ID,
/// study UID, series UID, SOP instance UID, modality, and the first one that
/// fails gives the error.
pub open spec fn record_verdict(record: MetadataView) -> Result<(), ErrorView> {
    if record.patient_id.len() == 0 {
        Err(ErrorView::ValidationError("Patient ID no puede estar vacío"@))
    } else if !is_valid_uid(record.study_instance_uid) {
        uid_verdict(record.study_instance_uid, "Study Instance UID"@)
    } else if !is_valid_uid(record.series_instance_uid) {
        uid_verdict(record.series_instance_uid, "Series Instance UID"@)
    } else if !is_valid_uid(record.sop_instance_uid) {
        uid_verdict(record.sop_instance_uid, "SOP Instance UID"@)
    } else if record.modality.len() == 0 {
        Err(ErrorView::ValidationError("Modality no puede estar vacío"@))
    } else {
        Ok(())
    }
}

/// Whether an exec result is the given verdict.
pub open spec fn is_verdict(result: Result<(), DicomError>, verdict: Result<(), ErrorView>) -> bool {
    match result {
        Ok(()) => verdict == Ok::<(), ErrorView>(()),
        Err(e) => verdict == Err::<(), ErrorView>(e@),
    }
}

/// Whether every character of `uid` is a digit or a dot.
fn only_uid_chars(uid: &str) -> (ok: bool)
    ensures
        ok == has_only_uid_chars(uid@),
        ok ==> vstd::string::is_ascii(uid),
{
    if !uid.is_ascii() {
        return false;
    }
    let bytes = uid.as_bytes();
    proof {
        vstd::string::is_ascii_spec_bytes(uid);
    }
    let mut i: usize = 0;
    while i < bytes.len()
        invariant
            0 <= i <= bytes.len(),
            bytes@.len() == uid@.len(),
            vstd::string::is_ascii(uid),
            forall|j: int| 0 <= j < bytes@.len() ==> bytes@[j] == uid@[j] as u8,
            forall|j: int| 0 <= j < i ==> is_uid_char(#[trigger] uid@[j]),
        decreases bytes.len() - i,
    {
        let b: u8 = bytes[i];
        proof {
            assert('\0' <= uid@[i as int] <= '\u{7f}');
        }
        if !((b >= 48 && b <= 57) || b == 46) {
            assert(!is_uid_char(uid@[i as int]));
            return false;
        }
        i += 1;
    }
    true
}

/// Checks that `uid` has the form of a DICOM UID. `name` is the field's name
/// for the error message.
pub fn validate_uid(uid: &str, name: &str) -> (result: Result<(), DicomError>)
    ensures
        is_verdict(result, uid_verdict(uid@, name@)),
        result is Ok <==> is_valid_uid(uid@),
{
    if uid.is_empty() {
        let mut msg = String::from_str(name);
        msg.append(" no puede estar vacío");
        return Err(DicomError::validation(msg));
    }
    if !only_uid_chars(uid) {
        let mut msg = String::from_str(name);
        msg.append(" contiene caracteres inválidos: ");
        msg.append(uid);
        return Err(DicomError::validation(msg));
    }
    let bytes = uid.as_bytes();
    proof {
        vstd::string::is_ascii_spec_bytes(uid);
    }
    if bytes[0] == 46 || bytes[bytes.len() - 1] == 46 {
        let mut msg = String::from_str(name);
        msg.append(" no debe empezar ni terminar con punto: ");
        msg.append(uid);
        return Err(DicomError::validation(msg));
    }
    Ok(())
}

/// Checks that a record has what every instance must have: a patient ID,
/// well-formed study, series and SOP instance UIDs, and a modality.
pub fn validate_instance(metadata: &DicomMetadata) -> (result: Result<(), DicomError>)
    ensures
        is_verdict(result, record_verdict(metadata@)),
        result is Ok <==> is_valid_record(metadata@),
{
    if metadata.patient_id.as_str().is_empty() {
        return Err(DicomError::validation(String::from_str("Patient ID no puede estar vacío")));
    }
    match validate_uid(metadata.study_instance_uid.as_str(), "Study Instance UID") {
        Err(e) => {
            return Err(e);
        },
        Ok(()) => {},
    }
    match validate_uid(metadata.series_instance_uid.as_str(), "Series Instance UID") {
        Err(e) => {
            return Err(e);
        },
        Ok(()) => {},
    }
    match validate_uid(metadata.sop_instance_uid.as_str(), "SOP Instance UID") {
        Err(e) => {
            return Err(e);
        },
        Ok(()) => {},
    }
    if metadata.modality.as_str().is_empty() {
        return Err(DicomError::validation(String::from_str("Modality no puede estar vacío")));
    }
    Ok(())
}

/// An ASCII digit.
pub open spec fn is_digit(c: char) -> bool {
    '0' <= c && c <= '9'
}

/// How many digits `text` begins with.
pub open spec fn leading_digits(text: Seq<char>) -> nat
    decreases text.len(),
{
    if text.len() > 0 && is_digit(text[0]) {
        1 + leading_digits(text.drop_first())
    } else {
        0
    }
}

/// The UID grammar: one or more digits, then any number of groups of a dot
/// and one or more digits, and nothing else.
pub open spec fn matches_uid_grammar(text: Seq<char>) -> bool
    decreases text.len(),
{
    let digits = leading_digits(text);
    if digits == 0 || digits > text.len() {
        false
    } else if digits == text.len() {
        true
    } else {
        text[digits as int] == '.' && matches_uid_grammar(
            text.subrange(digits as int + 1, text.len() as int),
        )
    }
}

/// No dot of `text` is followed at once by another.
pub open spec fn has_no_adjacent_dots(text: Seq<char>) -> bool {
    forall|i: int| 0 <= i < text.len() - 1 ==> !(#[trigger] text[i] == '.' && text[i + 1] == '.')
}

/// The leading digits of a text are digits, they end the text or stop at a
/// character that is no digit, and they are no more than the text.
proof fn lemma_leading_digits(text: Seq<char>)
    ensures
        leading_digits(text) <= text.len(),
        forall|i: int| 0 <= i < leading_digits(text) ==> is_digit(#[trigger] text[i]),
        leading_digits(text) < text.len() ==> !is_digit(text[leading_digits(text) as int]),
    decreases text.len(),
{
    if text.len() > 0 && is_digit(text[0]) {
        let rest = text.drop_first();
        lemma_leading_digits(rest);
        assert forall|i: int| 0 <= i < leading_digits(text) implies is_digit(
            #[trigger] text[i],
        ) by {
            if i > 0 {
                assert(text[i] == rest[i - 1]);
            }
        }
        if leading_digits(text) < text.len() {
            assert(text[leading_digits(text) as int] == rest[leading_digits(rest) as int]);
        }
    }
}

/// Every UID that validation accepts and that has no two dots in a row
/// matches the grammar `[0-9]+(\.[0-9]+)*`.
pub proof fn lemma_valid_uid_matches_grammar(uid: Seq<char>)
    requires
        is_valid_uid(uid),
        has_no_adjacent_dots(uid),
    ensures
        matches_uid_grammar(uid),
    decreases uid.len(),
{
    lemma_leading_digits(uid);
    let digits = leading_digits(uid);
    assert(is_uid_char(uid[0]));
    assert(digits > 0);
    if digits < uid.len() {
        let at = digits as int;
        assert(is_uid_char(uid[at]));
        assert(uid[at] == '.');
        assert(at < uid.len() - 1);
        let rest = uid.subrange(at + 1, uid.len() as int);
        assert(rest.len() > 0);
        assert(rest[0] == uid[at + 1]);
        assert(rest[rest.len() - 1] == uid[uid.len() - 1]);
        assert forall|i: int| 0 <= i < rest.len() implies is_uid_char(#[trigger] rest[i]) by {
            assert(rest[i] == uid[at + 1 + i]);
        }
        assert forall|i: int| 0 <= i < rest.len() - 1 implies !(#[trigger] rest[i] == '.'
            && rest[i + 1] == '.') by {
            assert(rest[i] == uid[at + 1 + i]);
            assert(rest[i + 1] == uid[at + 1 + i + 1]);
        }
        lemma_valid_uid_matches_grammar(rest);
    }
}

/// Every text that matches the grammar `[0-9]+(\.[0-9]+)*` is a UID that
/// validation accepts, and has no two dots in a row.
pub proof fn lemma_grammar_is_valid_uid(text: Seq<char>)
    requires
        matches_uid_grammar(text),
    ensures
        is_valid_uid(text),
        has_no_adjacent_dots(text),
    decreases text.len(),
{
    lemma_leading_digits(text);
    let digits = leading_digits(text);
    assert(is_digit(text[0]));
    if digits < text.len() {
        let at = digits as int;
        let rest = text.subrange(at + 1, text.len() as int);
        lemma_grammar_is_valid_uid(rest);
        lemma_leading_digits(rest);
        assert(rest[rest.len() - 1] == text[text.len() - 1]);
        assert(rest[0] == text[at + 1]);
        assert forall|i: int| 0 <= i < text.len() implies is_uid_char(#[trigger] text[i]) by {
            if i < at {
                assert(is_digit(text[i]));
            } else if i > at {
                assert(text[i] == rest[i - at - 1]);
            }
        }
        assert forall|i: int| 0 <= i < text.len() - 1 implies !(#[trigger] text[i] == '.'
            && text[i + 1] == '.') by {
            if i < at {
                assert(is_digit(text[i]));
            } else if i == at {
                assert(is_uid_char(rest[0]));
            } else {
                assert(text[i] == rest[i - at - 1]);
                assert(text[i + 1] == rest[i - at]);
            }
        }
    } else {
        assert(is_digit(text[text.len() - 1]));
    }
}

} // verus!
