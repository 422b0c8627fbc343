//! The record that extraction produces: patient, study, series and instance
//! fields, and the instance that carries them.

use vstd::prelude::*;
use crate::pixel::{PixelDataDescriptor, PixelDescriptorView};

verus! {

/// `std::path::PathBuf`: where an instance was read from. The library only
/// carries it.
#[verifier::external_type_specification]
#[verifier::external_body]
pub struct ExPathBuf(std::path::PathBuf);

/// `PathBuf::clone`: the copy is the same path.
pub assume_specification[ <std::path::PathBuf as Clone>::clone ](
    path: &std::path::PathBuf,
) -> (copy: std::path::PathBuf)
    ensures
        copy == *path,
;

/// The metadata of one DICOM object, by level of the information model.
/// A field that the standard makes optional is `None` when its element is
/// absent.
#[derive(Debug, Clone, PartialEq, Eq)]
pub struct DicomMetadata {
    // Patient level
    pub patient_id: String,
    pub patient_name: String,
    pub patient_birth_date: Option<String>,
    pub patient_sex: Option<String>,
    // Study level
    pub study_instance_uid: String,
    pub study_date: Option<String>,
    pub study_time: Option<String>,
    pub study_description: Option<String>,
    pub accession_number: Option<String>,
    // Series level
    pub series_instance_uid: String,
    pub series_number: Option<i32>,
    pub modality: String,
    pub series_description: Option<String>,
    // Instance level
    pub sop_instance_uid: String,
    pub instance_number: Option<i32>,
    pub transfer_syntax_uid: String,
}

/// A metadata record as a mathematical value.
pub struct MetadataView {
    pub patient_id: Seq<char>,
    pub patient_name: Seq<char>,
    pub patient_birth_date: Option<Seq<char>>,
    pub patient_sex: Option<Seq<char>>,
    pub study_instance_uid: Seq<char>,
    pub study_date: Option<Seq<char>>,
    pub study_time: Option<Seq<char>>,
    pub study_description: Option<Seq<char>>,
    pub accession_number: Option<Seq<char>>,
    pub series_instance_uid: Seq<char>,
    pub series_number: Option<i32>,
    pub modality: Seq<char>,
    pub series_description: Option<Seq<char>>,
    pub sop_instance_uid: Seq<char>,
    pub instance_number: Option<i32>,
    pub transfer_syntax_uid: Seq<char>,
}

/// The characters of an optional string.
pub open spec fn text_opt_view(text: Option<String>) -> Option<Seq<char>> {
    match text {
        Some(s) => Some(s@),
        None => None,
    }
}

impl View for DicomMetadata {
    type V = MetadataView;

    open spec fn view(&self) -> MetadataView {
        MetadataView {
            patient_id: self.patient_id@,
            patient_name: self.patient_name@,
            patient_birth_date: text_opt_view(self.patient_birth_date),
            patient_sex: text_opt_view(self.patient_sex),
            study_instance_uid: self.study_instance_uid@,
            study_date: text_opt_view(self.study_date),
            study_time: text_opt_view(self.study_time),
            study_description: text_opt_view(self.study_description),
            accession_number: text_opt_view(self.accession_number),
            series_instance_uid: self.series_instance_uid@,
            series_number: self.series_number,
            modality: self.modality@,
            series_description: text_opt_view(self.series_description),
            sop_instance_uid: self.sop_instance_uid@,
            instance_number: self.instance_number,
            transfer_syntax_uid: self.transfer_syntax_uid@,
        }
    }
}

/// One parsed DICOM object: where it came from, its metadata and, where it
/// carries an image, the layout of its pixels.
#[derive(Debug, Clone, PartialEq, Eq)]
pub struct DicomInstance {
    /// The file that was read.
    pub file_path: std::path::PathBuf,
    /// The resolved metadata.
    pub metadata: DicomMetadata,
    /// The pixel layout; the pixels themselves are not loaded.
    pub pixel_descriptor: Option<PixelDataDescriptor>,
}

/// The layout of an optional descriptor.
pub open spec fn descriptor_opt_view(desc: Option<PixelDataDescriptor>) -> Option<
    PixelDescriptorView,
> {
    match desc {
        Some(d) => Some(d@),
        None => None,
    }
}

/// An instance as a mathematical value.
pub struct InstanceView {
    pub file_path: std::path::PathBuf,
    pub metadata: MetadataView,
    pub pixel_descriptor: Option<PixelDescriptorView>,
}

impl View for DicomInstance {
    type V = InstanceView;

    open spec fn view(&self) -> InstanceView {
        InstanceView {
            file_path: self.file_path,
            metadata: self.metadata@,
            pixel_descriptor: descriptor_opt_view(self.pixel_descriptor),
        }
    }
}

impl DicomInstance {
    /// The patient's name.
    pub fn patient_name(&self) -> (name: &str)
        ensures
            name@ == self.metadata@.patient_name,
    {
        self.metadata.patient_name.as_str()
    }

    /// The modality of the series.
    pub fn modality(&self) -> (modality: &str)
        ensures
            modality@ == self.metadata@.modality,
    {
        self.metadata.modality.as_str()
    }

    /// The Study Instance UID.
    pub fn study_uid(&self) -> (uid: &str)
        ensures
            uid@ == self.metadata@.study_instance_uid,
    {
        self.metadata.study_instance_uid.as_str()
    }

    /// The Series Instance UID.
    pub fn series_uid(&self) -> (uid: &str)
        ensures
            uid@ == self.metadata@.series_instance_uid,
    {
        self.metadata.series_instance_uid.as_str()
    }

    /// The SOP Instance UID.
    pub fn instance_uid(&self) -> (uid: &str)
        ensures
            uid@ == self.metadata@.sop_instance_uid,
    {
        self.metadata.sop_instance_uid.as_str()
    }
}

} // verus!
