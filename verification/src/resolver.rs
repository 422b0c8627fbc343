//! Resolution of a decoded data set into the metadata record and the pixel
//! descriptor.
//!
//! Each field comes from one tag. A required field fails the resolution when
//! its element is absent or unreadable. An optional string is `None` when
//! its element is absent or unreadable. An optional number is `None` when
//! its element is absent or holds no value; one that holds text that is no
//! number fails the resolution, with an error that names the tag.

use vstd::prelude::*;
use crate::dataset::{
    element_integer, element_text, find_element, integer_view, is_trimmed, object_entries,
    text_view, DicomObject, Entries,
};
use crate::error::{DicomError, ErrorView};
use crate::metadata::{text_opt_view, DicomMetadata, MetadataView};
use crate::parser::DicomParser;
use crate::pixel::{PixelDataDescriptor, PixelDescriptorView};
use crate::tags::{
    element, element_of, group, group_of, tag_key, ACCESSION_NUMBER, BITS_ALLOCATED, BITS_STORED,
    COLUMNS, HIGH_BIT, INSTANCE_NUMBER, MODALITY, PATIENT_BIRTH_DATE, PATIENT_ID, PATIENT_NAME,
    PATIENT_SEX, PHOTOMETRIC_INTERPRETATION, PIXEL_DATA, PIXEL_REPRESENTATION, ROWS,
    SAMPLES_PER_PIXEL, SERIES_DESCRIPTION, SERIES_INSTANCE_UID, SERIES_NUMBER, SOP_INSTANCE_UID,
    STUDY_DATE, STUDY_DESCRIPTION, STUDY_INSTANCE_UID, STUDY_TIME, TRANSFER_SYNTAX_UID,
};
use crate::text::{tag_label, tag_text};

verus! {

/// The text reading of the element under `tag`, if there is one.
pub open spec fn text_entry(entries: Entries, tag: u32) -> Option<Result<Seq<char>, Seq<char>>> {
    if entries.dom().contains(tag_key(tag)) {
        Some(entries[tag_key(tag)].0)
    } else {
        None
    }
}

/// The integer reading of the element under `tag`, if there is one.
pub open spec fn integer_entry(entries: Entries, tag: u32) -> Option<Result<i32, Seq<char>>> {
    if entries.dom().contains(tag_key(tag)) {
        Some(entries[tag_key(tag)].1)
    } else {
        None
    }
}

/// The message for an element whose value could not be converted.
pub open spec fn conversion_complaint(tag: u32, cause: Seq<char>) -> Seq<char> {
    "Error converting tag "@ + tag_text(group_of(tag), element_of(tag)) + ": "@ + cause
}

/// The error for a required element that is absent.
pub open spec fn missing(tag: u32) -> ErrorView {
    ErrorView::MissingRequiredTag(tag_text(group_of(tag), element_of(tag)))
}

/// A required string: the text of the element, an error naming the tag
/// where the element is absent, a parse error where it is unreadable.
pub open spec fn required_text(found: Option<Result<Seq<char>, Seq<char>>>, tag: u32) -> Result<
    Seq<char>,
    ErrorView,
> {
    match found {
        None => Err(missing(tag)),
        Some(Err(cause)) => Err(ErrorView::ParseError(conversion_complaint(tag, cause))),
        Some(Ok(text)) => Ok(text),
    }
}

/// An optional string: the text of the element, if it is there and readable.
pub open spec fn optional_text(found: Option<Result<Seq<char>, Seq<char>>>) -> Option<Seq<char>> {
    match found {
        Some(Ok(text)) => Some(text),
        _ => None,
    }
}

/// A required integer: as [`required_text`], for a number.
pub open spec fn required_integer(found: Option<Result<i32, Seq<char>>>, tag: u32) -> Result<
    i32,
    ErrorView,
> {
    match found {
        None => Err(missing(tag)),
        Some(Err(cause)) => Err(ErrorView::ParseError(conversion_complaint(tag, cause))),
        Some(Ok(value)) => Ok(value),
    }
}

/// An optional integer, read leniently: the number of the element, if it is
/// there and readable.
pub open spec fn optional_integer(found: Option<Result<i32, Seq<char>>>) -> Option<i32> {
    match found {
        Some(Ok(value)) => Some(value),
        _ => None,
    }
}

/// Whether the element under a tag is there and holds no value: it reads as
/// the empty text.
pub open spec fn is_empty_value(text: Option<Result<Seq<char>, Seq<char>>>) -> bool {
    text matches Some(Ok(t)) && t.len() == 0
}

/// The number of an element that may be absent, from the two readings of
/// the element: none where the element is absent; its number where it reads
/// as one; none where it holds no value; else a parse error naming the tag.
pub open spec fn present_integer(
    text: Option<Result<Seq<char>, Seq<char>>>,
    number: Option<Result<i32, Seq<char>>>,
    tag: u32,
) -> Result<Option<i32>, ErrorView> {
    match number {
        None => Ok(None),
        Some(Ok(value)) => Ok(Some(value)),
        Some(Err(cause)) => if is_empty_value(text) {
            Ok(None)
        } else {
            Err(ErrorView::ParseError(conversion_complaint(tag, cause)))
        },
    }
}

/// The view of a text reading that may be absent.
pub open spec fn found_text_view(found: Option<Result<String, String>>) -> Option<
    Result<Seq<char>, Seq<char>>,
> {
    match found {
        Some(reading) => Some(text_view(reading)),
        None => None,
    }
}

/// The view of an integer reading that may be absent.
pub open spec fn found_integer_view(found: Option<Result<i32, String>>) -> Option<
    Result<i32, Seq<char>>,
> {
    match found {
        Some(reading) => Some(integer_view(reading)),
        None => None,
    }
}

/// The view of a string or the failure in its place.
pub open spec fn text_outcome_view(outcome: Result<String, DicomError>) -> Result<
    Seq<char>,
    ErrorView,
> {
    match outcome {
        Ok(text) => Ok(text@),
        Err(e) => Err(e@),
    }
}

/// The view of a number or the failure in its place.
pub open spec fn integer_outcome_view(outcome: Result<i32, DicomError>) -> Result<i32, ErrorView> {
    match outcome {
        Ok(value) => Ok(value),
        Err(e) => Err(e@),
    }
}

/// The error for an element whose value could not be converted.
fn conversion_error(tag: u32, cause: String) -> (err: DicomError)
    ensures
        err@ == ErrorView::ParseError(conversion_complaint(tag, cause@)),
{
    let mut msg = String::from_str("Error converting tag ");
    let label = tag_label(group(tag), element(tag));
    msg.append(label.as_str());
    msg.append(": ");
    msg.append(cause.as_str());
    DicomError::parse(msg)
}

/// Decides a required string from what the lookup of its tag gave.
pub fn require_text(found: Option<Result<String, String>>, tag: u32) -> (outcome: Result<
    String,
    DicomError,
>)
    ensures
        text_outcome_view(outcome) == required_text(found_text_view(found), tag),
        outcome matches Ok(text) ==> found == Some(Ok::<String, String>(text)),
{
    match found {
        None => Err(DicomError::MissingRequiredTag(tag_label(group(tag), element(tag)))),
        Some(Err(cause)) => Err(conversion_error(tag, cause)),
        Some(Ok(text)) => Ok(text),
    }
}

/// Decides an optional string from what the lookup of its tag gave.
pub fn accept_text(found: Option<Result<String, String>>) -> (outcome: Option<String>)
    ensures
        text_opt_view(outcome) == optional_text(found_text_view(found)),
        outcome matches Some(text) ==> found == Some(Ok::<String, String>(text)),
{
    match found {
        Some(Ok(text)) => Some(text),
        _ => None,
    }
}

/// Decides a required integer from what the lookup of its tag gave.
pub fn require_integer(found: Option<Result<i32, String>>, tag: u32) -> (outcome: Result<
    i32,
    DicomError,
>)
    ensures
        integer_outcome_view(outcome) == required_integer(found_integer_view(found), tag),
{
    match found {
        None => Err(DicomError::MissingRequiredTag(tag_label(group(tag), element(tag)))),
        Some(Err(cause)) => Err(conversion_error(tag, cause)),
        Some(Ok(value)) => Ok(value),
    }
}

/// Decides an optional integer from what the lookup of its tag gave,
/// leniently: none also where the element cannot be read as a number.
pub fn accept_integer(found: Option<Result<i32, String>>) -> (outcome: Option<i32>)
    ensures
        outcome == optional_integer(found_integer_view(found)),
{
    match found {
        Some(Ok(value)) => Some(value),
        _ => None,
    }
}

/// The view of a number that may be absent, or the failure in its place.
pub open spec fn integer_opt_outcome_view(outcome: Result<Option<i32>, DicomError>) -> Result<
    Option<i32>,
    ErrorView,
> {
    match outcome {
        Ok(value) => Ok(value),
        Err(e) => Err(e@),
    }
}

/// Decides a number that may be absent from what the two lookups of its
/// tag gave.
pub fn settle_integer(
    text: Option<Result<String, String>>,
    number: Option<Result<i32, String>>,
    tag: u32,
) -> (outcome: Result<Option<i32>, DicomError>)
    ensures
        integer_opt_outcome_view(outcome) == present_integer(
            found_text_view(text),
            found_integer_view(number),
            tag,
        ),
{
    match number {
        None => Ok(None),
        Some(Ok(value)) => Ok(Some(value)),
        Some(Err(cause)) => {
            let empty = match text {
                Some(Ok(t)) => t.as_str().is_empty(),
                _ => false,
            };
            if empty {
                Ok(None)
            } else {
                Err(conversion_error(tag, cause))
            }
        },
    }
}

/// Looks up the element under `tag` and reads it as text.
pub fn lookup_text(obj: &DicomObject, tag: u32) -> (found: Option<Result<String, String>>)
    ensures
        found_text_view(found) == text_entry(object_entries(*obj), tag),
        found matches Some(Ok(text)) ==> is_trimmed(text@),
{
    match find_element(obj, group(tag), element(tag)) {
        None => None,
        Some(el) => Some(element_text(el)),
    }
}

/// Looks up the element under `tag` and reads it as an integer.
pub fn lookup_integer(obj: &DicomObject, tag: u32) -> (found: Option<Result<i32, String>>)
    ensures
        found_integer_view(found) == integer_entry(object_entries(*obj), tag),
{
    match find_element(obj, group(tag), element(tag)) {
        None => None,
        Some(el) => Some(element_integer(el)),
    }
}

impl DicomParser {
    /// The string of a required element.
    pub fn get_string(&self, obj: &DicomObject, tag: u32) -> (outcome: Result<String, DicomError>)
        ensures
            text_outcome_view(outcome) == required_text(
                text_entry(object_entries(*obj), tag),
                tag,
            ),
            outcome matches Ok(text) ==> is_trimmed(text@),
    {
        require_text(lookup_text(obj, tag), tag)
    }

    /// The string of an optional element.
    pub fn get_string_opt(&self, obj: &DicomObject, tag: u32) -> (outcome: Option<String>)
        ensures
            text_opt_view(outcome) == optional_text(
                text_entry(object_entries(*obj), tag),
            ),
            outcome matches Some(text) ==> is_trimmed(text@),
    {
        accept_text(lookup_text(obj, tag))
    }

    /// The integer of a required element.
    pub fn get_integer(&self, obj: &DicomObject, tag: u32) -> (outcome: Result<i32, DicomError>)
        ensures
            integer_outcome_view(outcome) == required_integer(
                integer_entry(object_entries(*obj), tag),
                tag,
            ),
    {
        require_integer(lookup_integer(obj, tag), tag)
    }

    /// The integer of an optional element, leniently: none also where the
    /// element cannot be read as a number.
    pub fn get_integer_opt(&self, obj: &DicomObject, tag: u32) -> (outcome: Option<i32>)
        ensures
            outcome == optional_integer(integer_entry(object_entries(*obj), tag)),
    {
        accept_integer(lookup_integer(obj, tag))
    }

    /// The integer of an element that may be absent or empty, but not
    /// malformed.
    pub fn get_integer_if_present(&self, obj: &DicomObject, tag: u32) -> (outcome: Result<
        Option<i32>,
        DicomError,
    >)
        ensures
            integer_opt_outcome_view(outcome) == present_integer(
                text_entry(object_entries(*obj), tag),
                integer_entry(object_entries(*obj), tag),
                tag,
            ),
    {
        settle_integer(lookup_text(obj, tag), lookup_integer(obj, tag), tag)
    }
}

/// The transfer syntax of a file that names none: Explicit VR Little Endian.
pub open spec fn default_transfer_syntax() -> Seq<char> {
    "1.2.840.10008.1.2.1"@
}

/// The patient ID: the text of the element; empty where the element is
/// absent, so that validation, not resolution, decides about it; a parse
/// error where the element is unreadable.
pub open spec fn patient_id_text(found: Option<Result<Seq<char>, Seq<char>>>) -> Result<
    Seq<char>,
    ErrorView,
> {
    match found {
        None => Ok(Seq::<char>::empty()),
        Some(Err(cause)) => Err(ErrorView::ParseError(conversion_complaint(PATIENT_ID, cause))),
        Some(Ok(text)) => Ok(text),
    }
}

/// The transfer syntax UID: the text of the element, or the default where
/// the element is absent or unreadable.
pub open spec fn transfer_syntax_text(found: Option<Result<Seq<char>, Seq<char>>>) -> Seq<char> {
    match found {
        Some(Ok(text)) => text,
        _ => default_transfer_syntax(),
    }
}

/// The metadata record of a data set, or the error of the first field that
/// cannot be resolved, in the order of the record: patient ID, patient name,
/// study UID, series UID, series number, modality, SOP instance UID,
/// instance number.
pub open spec fn metadata_outcome(entries: Entries) -> Result<MetadataView, ErrorView> {
    let patient_id = patient_id_text(text_entry(entries, PATIENT_ID));
    let patient_name = required_text(text_entry(entries, PATIENT_NAME), PATIENT_NAME);
    let study_uid = required_text(text_entry(entries, STUDY_INSTANCE_UID), STUDY_INSTANCE_UID);
    let series_uid = required_text(text_entry(entries, SERIES_INSTANCE_UID), SERIES_INSTANCE_UID);
    let series_number = present_integer(
        text_entry(entries, SERIES_NUMBER),
        integer_entry(entries, SERIES_NUMBER),
        SERIES_NUMBER,
    );
    let modality = required_text(text_entry(entries, MODALITY), MODALITY);
    let sop_uid = required_text(text_entry(entries, SOP_INSTANCE_UID), SOP_INSTANCE_UID);
    let instance_number = present_integer(
        text_entry(entries, INSTANCE_NUMBER),
        integer_entry(entries, INSTANCE_NUMBER),
        INSTANCE_NUMBER,
    );
    if patient_id is Err {
        Err(patient_id->Err_0)
    } else if patient_name is Err {
        Err(patient_name->Err_0)
    } else if study_uid is Err {
        Err(study_uid->Err_0)
    } else if series_uid is Err {
        Err(series_uid->Err_0)
    } else if series_number is Err {
        Err(series_number->Err_0)
    } else if modality is Err {
        Err(modality->Err_0)
    } else if sop_uid is Err {
        Err(sop_uid->Err_0)
    } else if instance_number is Err {
        Err(instance_number->Err_0)
    } else {
        Ok(
            MetadataView {
                patient_id: patient_id->Ok_0,
                patient_name: patient_name->Ok_0,
                patient_birth_date: optional_text(text_entry(entries, PATIENT_BIRTH_DATE)),
                patient_sex: optional_text(text_entry(entries, PATIENT_SEX)),
                study_instance_uid: study_uid->Ok_0,
                study_date: optional_text(text_entry(entries, STUDY_DATE)),
                study_time: optional_text(text_entry(entries, STUDY_TIME)),
                study_description: optional_text(text_entry(entries, STUDY_DESCRIPTION)),
                accession_number: optional_text(text_entry(entries, ACCESSION_NUMBER)),
                series_instance_uid: series_uid->Ok_0,
                series_number: series_number->Ok_0,
                modality: modality->Ok_0,
                series_description: optional_text(text_entry(entries, SERIES_DESCRIPTION)),
                sop_instance_uid: sop_uid->Ok_0,
                instance_number: instance_number->Ok_0,
                transfer_syntax_uid: transfer_syntax_text(
                    text_entry(entries, TRANSFER_SYNTAX_UID),
                ),
            },
        )
    }
}

/// The pixel descriptor of a data set, or the error of the first of its
/// eight fields that cannot be resolved, in the order rows, columns, bits
/// allocated, bits stored, high bit, photometric interpretation, samples per
/// pixel, pixel representation. Each number is kept to the width of its
/// field.
pub open spec fn descriptor_outcome(entries: Entries) -> Result<PixelDescriptorView, ErrorView> {
    let rows = required_integer(integer_entry(entries, ROWS), ROWS);
    let columns = required_integer(integer_entry(entries, COLUMNS), COLUMNS);
    let allocated = required_integer(integer_entry(entries, BITS_ALLOCATED), BITS_ALLOCATED);
    let stored = required_integer(integer_entry(entries, BITS_STORED), BITS_STORED);
    let high_bit = required_integer(integer_entry(entries, HIGH_BIT), HIGH_BIT);
    let photometric = required_text(
        text_entry(entries, PHOTOMETRIC_INTERPRETATION),
        PHOTOMETRIC_INTERPRETATION,
    );
    let samples = required_integer(integer_entry(entries, SAMPLES_PER_PIXEL), SAMPLES_PER_PIXEL);
    let representation = required_integer(
        integer_entry(entries, PIXEL_REPRESENTATION),
        PIXEL_REPRESENTATION,
    );
    if rows is Err {
        Err(rows->Err_0)
    } else if columns is Err {
        Err(columns->Err_0)
    } else if allocated is Err {
        Err(allocated->Err_0)
    } else if stored is Err {
        Err(stored->Err_0)
    } else if high_bit is Err {
        Err(high_bit->Err_0)
    } else if photometric is Err {
        Err(photometric->Err_0)
    } else if samples is Err {
        Err(samples->Err_0)
    } else if representation is Err {
        Err(representation->Err_0)
    } else {
        Ok(
            PixelDescriptorView {
                rows: rows->Ok_0 as u32,
                columns: columns->Ok_0 as u32,
                bits_allocated: allocated->Ok_0 as u16,
                bits_stored: stored->Ok_0 as u16,
                high_bit: high_bit->Ok_0 as u16,
                photometric_interpretation: photometric->Ok_0,
                samples_per_pixel: samples->Ok_0 as u16,
                pixel_representation: representation->Ok_0 as u16,
            },
        )
    }
}

/// An optional text without DICOM padding.
pub open spec fn is_trimmed_opt(text: Option<Seq<char>>) -> bool {
    text matches Some(t) ==> is_trimmed(t)
}

/// No string of the record ends in DICOM padding.
pub open spec fn is_trimmed_record(record: MetadataView) -> bool {
    &&& is_trimmed(record.patient_id)
    &&& is_trimmed(record.patient_name)
    &&& is_trimmed_opt(record.patient_birth_date)
    &&& is_trimmed_opt(record.patient_sex)
    &&& is_trimmed(record.study_instance_uid)
    &&& is_trimmed_opt(record.study_date)
    &&& is_trimmed_opt(record.study_time)
    &&& is_trimmed_opt(record.study_description)
    &&& is_trimmed_opt(record.accession_number)
    &&& is_trimmed(record.series_instance_uid)
    &&& is_trimmed(record.modality)
    &&& is_trimmed_opt(record.series_description)
    &&& is_trimmed(record.sop_instance_uid)
    &&& is_trimmed(record.transfer_syntax_uid)
}

/// The view of a metadata record or the failure in its place.
pub open spec fn metadata_result_view(outcome: Result<DicomMetadata, DicomError>) -> Result<
    MetadataView,
    ErrorView,
> {
    match outcome {
        Ok(record) => Ok(record@),
        Err(e) => Err(e@),
    }
}

/// The view of a pixel descriptor or the failure in its place.
pub open spec fn descriptor_result_view(outcome: Result<PixelDataDescriptor, DicomError>) -> Result<
    PixelDescriptorView,
    ErrorView,
> {
    match outcome {
        Ok(desc) => Ok(desc@),
        Err(e) => Err(e@),
    }
}

impl DicomParser {
    /// Resolves the metadata record from a decoded data set.
    pub fn extract_metadata(&self, obj: &DicomObject) -> (outcome: Result<
        DicomMetadata,
        DicomError,
    >)
        ensures
            metadata_result_view(outcome) == metadata_outcome(object_entries(*obj)),
            outcome matches Ok(record) ==> is_trimmed_record(record@),
    {
        proof {
            reveal_strlit("1.2.840.10008.1.2.1");
        }
        let patient_id = match lookup_text(obj, PATIENT_ID) {
            None => String::new(),
            found => require_text(found, PATIENT_ID)?,
        };
        let patient_name = self.get_string(obj, PATIENT_NAME)?;
        let patient_birth_date = self.get_string_opt(obj, PATIENT_BIRTH_DATE);
        let patient_sex = self.get_string_opt(obj, PATIENT_SEX);
        let study_instance_uid = self.get_string(obj, STUDY_INSTANCE_UID)?;
        let study_date = self.get_string_opt(obj, STUDY_DATE);
        let study_time = self.get_string_opt(obj, STUDY_TIME);
        let study_description = self.get_string_opt(obj, STUDY_DESCRIPTION);
        let accession_number = self.get_string_opt(obj, ACCESSION_NUMBER);
        let series_instance_uid = self.get_string(obj, SERIES_INSTANCE_UID)?;
        let series_number = self.get_integer_if_present(obj, SERIES_NUMBER)?;
        let modality = self.get_string(obj, MODALITY)?;
        let series_description = self.get_string_opt(obj, SERIES_DESCRIPTION);
        let sop_instance_uid = self.get_string(obj, SOP_INSTANCE_UID)?;
        let instance_number = self.get_integer_if_present(obj, INSTANCE_NUMBER)?;
        let transfer_syntax_uid = match self.get_string(obj, TRANSFER_SYNTAX_UID) {
            Ok(uid) => uid,
            Err(_) => String::from_str("1.2.840.10008.1.2.1"),
        };
        Ok(
            DicomMetadata {
                patient_id,
                patient_name,
                patient_birth_date,
                patient_sex,
                study_instance_uid,
                study_date,
                study_time,
                study_description,
                accession_number,
                series_instance_uid,
                series_number,
                modality,
                series_description,
                sop_instance_uid,
                instance_number,
                transfer_syntax_uid,
            },
        )
    }

    /// Resolves the pixel descriptor from a decoded data set. No pixel is
    /// read.
    pub fn extract_pixel_descriptor(&self, obj: &DicomObject) -> (outcome: Result<
        PixelDataDescriptor,
        DicomError,
    >)
        ensures
            descriptor_result_view(outcome) == descriptor_outcome(object_entries(*obj)),
            outcome matches Ok(desc) ==> is_trimmed(desc@.photometric_interpretation),
    {
        let rows = self.get_integer(obj, ROWS)?;
        let columns = self.get_integer(obj, COLUMNS)?;
        let bits_allocated = self.get_integer(obj, BITS_ALLOCATED)?;
        let bits_stored = self.get_integer(obj, BITS_STORED)?;
        let high_bit = self.get_integer(obj, HIGH_BIT)?;
        let photometric_interpretation = self.get_string(obj, PHOTOMETRIC_INTERPRETATION)?;
        let samples_per_pixel = self.get_integer(obj, SAMPLES_PER_PIXEL)?;
        let pixel_representation = self.get_integer(obj, PIXEL_REPRESENTATION)?;
        Ok(
            PixelDataDescriptor {
                rows: #[verifier::truncate] (rows as u32),
                columns: #[verifier::truncate] (columns as u32),
                bits_allocated: #[verifier::truncate] (bits_allocated as u16),
                bits_stored: #[verifier::truncate] (bits_stored as u16),
                high_bit: #[verifier::truncate] (high_bit as u16),
                photometric_interpretation,
                samples_per_pixel: #[verifier::truncate] (samples_per_pixel as u16),
                pixel_representation: #[verifier::truncate] (pixel_representation as u16),
            },
        )
    }

    /// Resolves the pixel descriptor for eager loading. The pixels stay in
    /// the file: eager and lazy handling give the same descriptor.
    pub fn extract_pixel_data(&self, obj: &DicomObject) -> (outcome: Result<
        PixelDataDescriptor,
        DicomError,
    >)
        ensures
            descriptor_result_view(outcome) == descriptor_outcome(object_entries(*obj)),
            outcome matches Ok(desc) ==> is_trimmed(desc@.photometric_interpretation),
    {
        self.extract_pixel_descriptor(obj)
    }
}

/// Whether the data set has an element under `tag`.
pub open spec fn has_entry(entries: Entries, tag: u32) -> bool {
    entries.dom().contains(tag_key(tag))
}

/// Whether the data set speaks of an image: it has pixel data, or any of the
/// eight elements that describe its layout.
pub open spec fn carries_pixels(entries: Entries) -> bool {
    ||| has_entry(entries, PIXEL_DATA)
    ||| has_entry(entries, ROWS)
    ||| has_entry(entries, COLUMNS)
    ||| has_entry(entries, BITS_ALLOCATED)
    ||| has_entry(entries, BITS_STORED)
    ||| has_entry(entries, HIGH_BIT)
    ||| has_entry(entries, PHOTOMETRIC_INTERPRETATION)
    ||| has_entry(entries, SAMPLES_PER_PIXEL)
    ||| has_entry(entries, PIXEL_REPRESENTATION)
}

/// The pixel descriptor that an instance gets: none for a data set that
/// does not speak of an image; else all eight layout fields are required.
pub open spec fn pixel_outcome(entries: Entries) -> Result<Option<PixelDescriptorView>, ErrorView> {
    if !carries_pixels(entries) {
        Ok(None)
    } else {
        match descriptor_outcome(entries) {
            Ok(desc) => Ok(Some(desc)),
            Err(e) => Err(e),
        }
    }
}

/// Whether the data set has an element under `tag`.
pub fn has_element(obj: &DicomObject, tag: u32) -> (found: bool)
    ensures
        found == has_entry(object_entries(*obj), tag),
{
    find_element(obj, group(tag), element(tag)).is_some()
}

/// Whether the data set speaks of an image.
pub fn has_pixel_tags(obj: &DicomObject) -> (found: bool)
    ensures
        found == carries_pixels(object_entries(*obj)),
{
    has_element(obj, PIXEL_DATA) || has_element(obj, ROWS) || has_element(obj, COLUMNS)
        || has_element(obj, BITS_ALLOCATED) || has_element(obj, BITS_STORED) || has_element(
        obj,
        HIGH_BIT,
    ) || has_element(obj, PHOTOMETRIC_INTERPRETATION) || has_element(obj, SAMPLES_PER_PIXEL)
        || has_element(obj, PIXEL_REPRESENTATION)
}

/// A Series Number that holds text that is no number fails the resolution
/// with a parse error naming its tag, where the fields before it in the
/// record resolve.
pub proof fn lemma_malformed_series_number_fails(entries: Entries, cause: Seq<char>)
    requires
        integer_entry(entries, SERIES_NUMBER) == Some(Err::<i32, Seq<char>>(cause)),
        !is_empty_value(text_entry(entries, SERIES_NUMBER)),
        patient_id_text(text_entry(entries, PATIENT_ID)) is Ok,
        required_text(text_entry(entries, PATIENT_NAME), PATIENT_NAME) is Ok,
        required_text(text_entry(entries, STUDY_INSTANCE_UID), STUDY_INSTANCE_UID) is Ok,
        required_text(text_entry(entries, SERIES_INSTANCE_UID), SERIES_INSTANCE_UID) is Ok,
    ensures
        metadata_outcome(entries) == Err::<MetadataView, ErrorView>(
            ErrorView::ParseError(conversion_complaint(SERIES_NUMBER, cause)),
        ),
{
}

/// An Instance Number that holds text that is no number fails the
/// resolution with a parse error naming its tag, where the fields before it
/// in the record resolve.
pub proof fn lemma_malformed_instance_number_fails(entries: Entries, cause: Seq<char>)
    requires
        integer_entry(entries, INSTANCE_NUMBER) == Some(Err::<i32, Seq<char>>(cause)),
        !is_empty_value(text_entry(entries, INSTANCE_NUMBER)),
        patient_id_text(text_entry(entries, PATIENT_ID)) is Ok,
        required_text(text_entry(entries, PATIENT_NAME), PATIENT_NAME) is Ok,
        required_text(text_entry(entries, STUDY_INSTANCE_UID), STUDY_INSTANCE_UID) is Ok,
        required_text(text_entry(entries, SERIES_INSTANCE_UID), SERIES_INSTANCE_UID) is Ok,
        present_integer(
            text_entry(entries, SERIES_NUMBER),
            integer_entry(entries, SERIES_NUMBER),
            SERIES_NUMBER,
        ) is Ok,
        required_text(text_entry(entries, MODALITY), MODALITY) is Ok,
        required_text(text_entry(entries, SOP_INSTANCE_UID), SOP_INSTANCE_UID) is Ok,
    ensures
        metadata_outcome(entries) == Err::<MetadataView, ErrorView>(
            ErrorView::ParseError(conversion_complaint(INSTANCE_NUMBER, cause)),
        ),
{
}

/// In a record that resolves, the series number and the instance number are
/// the numbers that their elements read as, and one is lacking only where
/// its element is absent or holds no value.
pub proof fn lemma_resolved_numbers(entries: Entries)
    requires
        metadata_outcome(entries) is Ok,
    ensures
        (metadata_outcome(entries)->Ok_0).series_number matches Some(value) ==> integer_entry(
            entries,
            SERIES_NUMBER,
        ) == Some(Ok::<i32, Seq<char>>(value)),
        (metadata_outcome(entries)->Ok_0).series_number is None ==> !has_entry(
            entries,
            SERIES_NUMBER,
        ) || is_empty_value(text_entry(entries, SERIES_NUMBER)),
        (metadata_outcome(entries)->Ok_0).instance_number matches Some(value) ==> integer_entry(
            entries,
            INSTANCE_NUMBER,
        ) == Some(Ok::<i32, Seq<char>>(value)),
        (metadata_outcome(entries)->Ok_0).instance_number is None ==> !has_entry(
            entries,
            INSTANCE_NUMBER,
        ) || is_empty_value(text_entry(entries, INSTANCE_NUMBER)),
{
}

} // verus!
