//! The decoded data set, as the `dicom` crate builds it, and the few
//! operations on it that extraction needs.
//!
//! Nothing in this file is proved. The types are the crate's own, opaque to
//! the verifier; the functions call the crate, and their contracts state
//! what its code does; the spec functions without a body name what the crate
//! computes, where that is too much to write down.

use vstd::prelude::*;

verus! {

/// `dicom::object::FileDicomObject`: a data set together with its file meta
/// group. Opaque here; what it holds is named by [`object_entries`].
#[verifier::external_type_specification]
#[verifier::external_body]
#[verifier::reject_recursive_types(O)]
pub struct ExFileDicomObject<O>(dicom::object::FileDicomObject<O>);

/// `dicom::object::InMemDicomObject`: the elements of one data set, by tag.
#[verifier::external_type_specification]
#[verifier::external_body]
#[verifier::reject_recursive_types(D)]
pub struct ExInMemDicomObject<D>(dicom::object::InMemDicomObject<D>);

/// `dicom::dictionary_std::StandardDataDictionary`: the standard attribute
/// dictionary, a unit value.
#[verifier::external_type_specification]
#[verifier::external_body]
pub struct ExStandardDataDictionary(dicom::dictionary_std::StandardDataDictionary);

/// `dicom::core::DataElement`: one element of a data set, header and value.
#[verifier::external_type_specification]
#[verifier::external_body]
#[verifier::reject_recursive_types(I)]
#[verifier::reject_recursive_types(P)]
pub struct ExDataElement<I, P>(dicom::core::DataElement<I, P>);

/// A decoded file, as verified code passes it around.
pub type DicomObject = dicom::object::FileDicomObject<
    dicom::object::InMemDicomObject<dicom::dictionary_std::StandardDataDictionary>,
>;

/// One element of a decoded data set.
pub type DicomElement = dicom::core::DataElement<
    dicom::object::InMemDicomObject<dicom::dictionary_std::StandardDataDictionary>,
    Vec<u8>,
>;

/// What one element yields: its value as a single trimmed string, and its
/// value as a 32-bit integer. Either reading may fail, with a message.
pub type Reading = (Result<Seq<char>, Seq<char>>, Result<i32, Seq<char>>);

/// The elements of the top-level data set of a decoded file, keyed by
/// (group, element), each as its two readings.
pub type Entries = Map<(u16, u16), Reading>;

/// What a decoded file holds: its [`Entries`].
pub uninterp spec fn object_entries(
    obj: dicom::object::FileDicomObject<
        dicom::object::InMemDicomObject<dicom::dictionary_std::StandardDataDictionary>,
    >,
) -> Map<(u16, u16), Reading>;

/// What `DataElement::to_str` makes of an element.
pub uninterp spec fn text_reading(
    el: dicom::core::DataElement<
        dicom::object::InMemDicomObject<dicom::dictionary_std::StandardDataDictionary>,
        Vec<u8>,
    >,
) -> Result<Seq<char>, Seq<char>>;

/// What `DataElement::to_int::<i32>` makes of an element.
pub uninterp spec fn integer_reading(
    el: dicom::core::DataElement<
        dicom::object::InMemDicomObject<dicom::dictionary_std::StandardDataDictionary>,
        Vec<u8>,
    >,
) -> Result<i32, Seq<char>>;

/// What `dicom::object::from_reader` makes of a whole file: the entries of
/// the data set it decodes, or the message of the error it reports.
pub uninterp spec fn decoded(bytes: Seq<u8>) -> Result<Map<(u16, u16), Reading>, Seq<char>>;

/// A text without DICOM padding: it does not end in a space or a NUL.
pub open spec fn is_trimmed(text: Seq<char>) -> bool {
    text.len() == 0 || (text[text.len() - 1] != ' ' && text[text.len() - 1] != '\0')
}

/// The view of an exec reading of text.
pub open spec fn text_view(r: Result<String, String>) -> Result<Seq<char>, Seq<char>> {
    match r {
        Ok(s) => Ok(s@),
        Err(m) => Err(m@),
    }
}

/// The view of an exec reading of an integer.
pub open spec fn integer_view(r: Result<i32, String>) -> Result<i32, Seq<char>> {
    match r {
        Ok(v) => Ok(v),
        Err(m) => Err(m@),
    }
}

/// Calls `dicom::object::from_reader` on the bytes of a file. The crate
/// detects and skips the preamble, reads the file meta group and then the
/// data set in the transfer syntax that the meta group names. The outcome
/// depends on the bytes alone: on success the object holds the entries that
/// [`decoded`] names, on failure the error's `Display` text is the message
/// that [`decoded`] names.
#[verifier::external_body]
pub(crate) fn read_object(bytes: &[u8]) -> (result: Result<DicomObject, String>)
    ensures
        match result {
            Ok(obj) => decoded(bytes@) == Ok::<Entries, Seq<char>>(object_entries(obj)),
            Err(msg) => decoded(bytes@) == Err::<Entries, Seq<char>>(msg@),
        },
{
    match dicom::object::from_reader(bytes) {
        Ok(obj) => Ok(obj),
        Err(e) => Err(e.to_string()),
    }
}

/// Calls `InMemDicomObject::element` with the tag (group, element). The
/// crate looks the tag up in the top-level data set: it returns the element
/// stored under it, or an error when none is, which is `None` here.
#[verifier::external_body]
pub(crate) fn find_element<'a>(obj: &'a DicomObject, group: u16, element: u16) -> (result: Option<
    &'a DicomElement,
>)
    ensures
        result is Some <==> object_entries(*obj).dom().contains((group, element)),
        match result {
            Some(el) => object_entries(*obj)[(group, element)] == (
                text_reading(*el),
                integer_reading(*el),
            ),
            None => true,
        },
{
    obj.element(dicom::core::Tag(group, element)).ok()
}

/// Calls `DataElement::to_str`: the element's value as one string, or the
/// conversion error's `Display` text. The crate strips trailing spaces and
/// NULs from a string value, and writes other values as numbers, dates or
/// tags, so that the string never ends in padding.
#[verifier::external_body]
pub(crate) fn element_text(el: &DicomElement) -> (result: Result<String, String>)
    ensures
        text_view(result) == text_reading(*el),
        result matches Ok(text) ==> is_trimmed(text@),
{
    match el.to_str() {
        Ok(s) => Ok(s.into_owned()),
        Err(e) => Err(e.to_string()),
    }
}

/// Calls `DataElement::to_int::<i32>`: the element's value as an integer, or
/// the conversion error's `Display` text.
#[verifier::external_body]
pub(crate) fn element_integer(el: &DicomElement) -> (result: Result<i32, String>)
    ensures
        integer_view(result) == integer_reading(*el),
{
    match el.to_int::<i32>() {
        Ok(v) => Ok(v),
        Err(e) => Err(e.to_string()),
    }
}

} // verus!
