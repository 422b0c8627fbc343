//! The parser: configuration, the checks on a file's framing, and the
//! resolution of a decoded data set into an instance.

use vstd::prelude::*;
use crate::dataset::{decoded, is_trimmed, object_entries, read_object, DicomObject, Entries};
use crate::error::{DicomError, ErrorView};
use crate::metadata::{DicomInstance, InstanceView};
use crate::resolver::{has_pixel_tags, is_trimmed_record, metadata_outcome, pixel_outcome};
use crate::text::{decimal, decimal_text};
use crate::validation::{is_valid_record, record_verdict, validate_instance};

verus! {

/// The largest file that a parser with default options accepts, in bytes.
pub const DEFAULT_MAX_FILE_SIZE: u64 = 2_000_000_000;

/// Where the magic code stands in a file: right after the preamble.
pub const PREAMBLE_LEN: usize = 128;

/// How a file is parsed. The options are fixed for the life of a parser.
#[derive(Debug, Clone, Copy, PartialEq, Eq)]
pub struct ParseOptions {
    /// Verify pixel data checksums. Advisory: the format mandates none.
    pub validate_checksums: bool,
    /// Load the pixel data eagerly, instead of describing it only.
    pub load_pixel_data: bool,
    /// Validate the resolved record, and fail where it breaks a rule.
    pub strict_validation: bool,
    /// Largest file accepted, in bytes; 0 means no limit.
    pub max_file_size: u64,
}

impl Default for ParseOptions {
    /// Lazy pixel handling, strict validation, no checksums, and files up to
    /// [`DEFAULT_MAX_FILE_SIZE`].
    fn default() -> (options: Self)
        ensures
            options == (ParseOptions {
                validate_checksums: false,
                load_pixel_data: false,
                strict_validation: true,
                max_file_size: DEFAULT_MAX_FILE_SIZE,
            }),
    {
        ParseOptions {
            validate_checksums: false,
            load_pixel_data: false,
            strict_validation: true,
            max_file_size: DEFAULT_MAX_FILE_SIZE,
        }
    }
}

/// A parser of DICOM files. It holds its options and nothing else, so one
/// parser may serve any number of files.
pub struct DicomParser {
    options: ParseOptions,
}

/// The message for a file of `size` bytes where at most `limit` are accepted.
pub open spec fn size_complaint(size: nat, limit: nat) -> Seq<char> {
    "Archivo demasiado grande: "@ + decimal_text(size) + " bytes (máximo: "@ + decimal_text(limit)
        + ")"@
}

/// Whether a file of `size` bytes is over the limit that `options` set.
pub open spec fn exceeds_limit(options: ParseOptions, size: nat) -> bool {
    options.max_file_size > 0 && size > options.max_file_size
}

/// The four bytes `DICM` that follow the preamble of every DICOM file.
pub open spec fn magic_code() -> Seq<u8> {
    seq![0x44u8, 0x49u8, 0x43u8, 0x4Du8]
}

/// What the check of the magic code yields: a file that ends before the
/// code does is a failed read; one with other bytes there is not DICOM.
pub open spec fn magic_verdict(bytes: Seq<u8>) -> Result<(), ErrorView> {
    if bytes.len() < 132 {
        Err(ErrorView::Io("failed to fill whole buffer"@))
    } else if bytes.subrange(128, 132) != magic_code() {
        Err(ErrorView::InvalidMagicBytes)
    } else {
        Ok(())
    }
}

impl DicomParser {
    /// The options that the parser was made with.
    pub closed spec fn options(&self) -> ParseOptions {
        self.options
    }

    /// A parser with the default options.
    pub fn new() -> (parser: Self)
        ensures
            parser.options() == (ParseOptions {
                validate_checksums: false,
                load_pixel_data: false,
                strict_validation: true,
                max_file_size: DEFAULT_MAX_FILE_SIZE,
            }),
    {
        DicomParser { options: ParseOptions::default() }
    }

    /// A parser with the given options.
    pub fn with_options(options: ParseOptions) -> (parser: Self)
        ensures
            parser.options() == options,
    {
        DicomParser { options }
    }

    /// Whether the parser can take a file. A parser always can.
    pub fn is_ready(&self) -> (ready: bool)
        ensures
            ready,
    {
        true
    }

    /// The options that the parser was made with.
    pub fn configuration(&self) -> (options: ParseOptions)
        ensures
            options == self.options(),
    {
        self.options
    }

    /// Rejects a file that is larger than the options allow. This looks at
    /// the size alone, so it can run before a byte of the file is read.
    pub fn check_file_size(&self, size: u64) -> (result: Result<(), DicomError>)
        ensures
            result is Ok <==> !exceeds_limit(self.options(), size as nat),
            result matches Err(e) ==> e@ == ErrorView::ValidationError(
                size_complaint(size as nat, self.options().max_file_size as nat),
            ),
    {
        if self.options.max_file_size > 0 && size > self.options.max_file_size {
            let mut msg = String::from_str("Archivo demasiado grande: ");
            let size_text = decimal(size);
            msg.append(size_text.as_str());
            msg.append(" bytes (máximo: ");
            let limit_text = decimal(self.options.max_file_size);
            msg.append(limit_text.as_str());
            msg.append(")");
            return Err(DicomError::validation(msg));
        }
        Ok(())
    }

    /// Checks that the file carries the magic code `DICM` at offset 128.
    pub fn validate_magic_bytes(&self, bytes: &[u8]) -> (result: Result<(), DicomError>)
        ensures
            crate::validation::is_verdict(result, magic_verdict(bytes@)),
    {
        if bytes.len() < PREAMBLE_LEN + 4 {
            return Err(DicomError::Io(String::from_str("failed to fill whole buffer")));
        }
        let found = bytes[128] == 0x44 && bytes[129] == 0x49 && bytes[130] == 0x43 && bytes[131]
            == 0x4D;
        proof {
            let code = bytes@.subrange(128, 132);
            assert(code[0] == bytes@[128] && code[1] == bytes@[129] && code[2] == bytes@[130]
                && code[3] == bytes@[131]);
            if found {
                assert(code =~= magic_code());
            }
        }
        if !found {
            return Err(DicomError::InvalidMagicBytes);
        }
        Ok(())
    }
}

/// The view of an instance or the failure in its place.
pub open spec fn instance_result_view(outcome: Result<DicomInstance, DicomError>) -> Result<
    InstanceView,
    ErrorView,
> {
    match outcome {
        Ok(instance) => Ok(instance@),
        Err(e) => Err(e@),
    }
}

/// No string of the instance ends in DICOM padding.
pub open spec fn is_trimmed_instance(instance: InstanceView) -> bool {
    &&& is_trimmed_record(instance.metadata)
    &&& instance.pixel_descriptor matches Some(desc) ==> is_trimmed(
        desc.photometric_interpretation,
    )
}

/// What resolving a decoded data set yields: the metadata is resolved first,
/// then the pixel descriptor, then, under strict validation, the record is
/// validated. The first failure is the result; there is no partial instance.
pub open spec fn resolve_outcome(
    options: ParseOptions,
    path: std::path::PathBuf,
    entries: Entries,
) -> Result<InstanceView, ErrorView> {
    match metadata_outcome(entries) {
        Err(e) => Err(e),
        Ok(metadata) => match pixel_outcome(entries) {
            Err(e) => Err(e),
            Ok(pixel_descriptor) => if options.strict_validation && !is_valid_record(metadata) {
                Err(record_verdict(metadata)->Err_0)
            } else {
                Ok(InstanceView { file_path: path, metadata, pixel_descriptor })
            },
        },
    }
}

/// The message for a file that the decoder rejects.
pub open spec fn decoding_complaint(cause: Seq<char>) -> Seq<char> {
    "Error parsing DICOM: "@ + cause
}

/// What parsing the bytes of a file yields. In this order: a file over the
/// size limit is rejected; the magic code is checked; the file is decoded;
/// the data set is resolved.
pub open spec fn parse_outcome(
    options: ParseOptions,
    path: std::path::PathBuf,
    bytes: Seq<u8>,
) -> Result<InstanceView, ErrorView> {
    if exceeds_limit(options, bytes.len()) {
        Err(
            ErrorView::ValidationError(
                size_complaint(bytes.len(), options.max_file_size as nat),
            ),
        )
    } else if magic_verdict(bytes) is Err {
        Err(magic_verdict(bytes)->Err_0)
    } else {
        match decoded(bytes) {
            Err(cause) => Err(ErrorView::ParseError(decoding_complaint(cause))),
            Ok(entries) => resolve_outcome(options, path, entries),
        }
    }
}

impl DicomParser {
    /// Resolves a decoded data set into an instance that came from `path`.
    pub fn resolve(&self, path: std::path::PathBuf, obj: &DicomObject) -> (outcome: Result<
        DicomInstance,
        DicomError,
    >)
        ensures
            instance_result_view(outcome) == resolve_outcome(
                self.options(),
                path,
                object_entries(*obj),
            ),
            outcome matches Ok(instance) ==> is_trimmed_instance(instance@),
    {
        let metadata = self.extract_metadata(obj)?;
        let pixel_descriptor = if !has_pixel_tags(obj) {
            None
        } else if self.options.load_pixel_data {
            Some(self.extract_pixel_data(obj)?)
        } else {
            Some(self.extract_pixel_descriptor(obj)?)
        };
        if self.options.strict_validation {
            validate_instance(&metadata)?;
        }
        Ok(DicomInstance { file_path: path, metadata, pixel_descriptor })
    }

    /// Parses the bytes of a file that was read from `path`.
    pub fn parse_bytes(&self, path: std::path::PathBuf, bytes: &[u8]) -> (outcome: Result<
        DicomInstance,
        DicomError,
    >)
        ensures
            instance_result_view(outcome) == parse_outcome(self.options(), path, bytes@),
            outcome matches Ok(instance) ==> is_trimmed_instance(instance@),
    {
        self.check_file_size(bytes.len() as u64)?;
        self.validate_magic_bytes(bytes)?;
        match read_object(bytes) {
            Err(cause) => {
                let mut msg = String::from_str("Error parsing DICOM: ");
                msg.append(cause.as_str());
                Err(DicomError::parse(msg))
            },
            Ok(obj) => self.resolve(path, &obj),
        }
    }
}

impl Default for DicomParser {
    fn default() -> (parser: Self)
        ensures
            parser.options() == (ParseOptions {
                validate_checksums: false,
                load_pixel_data: false,
                strict_validation: true,
                max_file_size: DEFAULT_MAX_FILE_SIZE,
            }),
    {
        DicomParser::new()
    }
}

/// A file that ends before the magic code does, and that is within the size
/// limit, fails as a read that found too few bytes, whatever it holds.
pub proof fn lemma_short_file_fails(
    options: ParseOptions,
    path: std::path::PathBuf,
    bytes: Seq<u8>,
)
    requires
        bytes.len() < 132,
        !exceeds_limit(options, bytes.len()),
    ensures
        parse_outcome(options, path, bytes) == Err::<InstanceView, ErrorView>(
            ErrorView::Io("failed to fill whole buffer"@),
        ),
{
}

/// A file within the size limit whose bytes 128 to 131 are not `DICM` fails
/// with `InvalidMagicBytes`, whatever follows them.
pub proof fn lemma_wrong_magic_fails(
    options: ParseOptions,
    path: std::path::PathBuf,
    bytes: Seq<u8>,
)
    requires
        bytes.len() >= 132,
        bytes.subrange(128, 132) != magic_code(),
        !exceeds_limit(options, bytes.len()),
    ensures
        parse_outcome(options, path, bytes) == Err::<InstanceView, ErrorView>(
            ErrorView::InvalidMagicBytes,
        ),
{
}

/// A file over the size limit is rejected for its size alone: nothing of its
/// content is looked at.
pub proof fn lemma_oversized_file_rejected(
    options: ParseOptions,
    path: std::path::PathBuf,
    bytes: Seq<u8>,
)
    requires
        exceeds_limit(options, bytes.len()),
    ensures
        parse_outcome(options, path, bytes) == Err::<InstanceView, ErrorView>(
            ErrorView::ValidationError(size_complaint(bytes.len(), options.max_file_size as nat)),
        ),
{
}

/// Parsing is repeatable: two parses of the same bytes under the same
/// options end alike, and where they succeed their metadata records are
/// equal.
pub proof fn lemma_parse_is_repeatable(
    options: ParseOptions,
    path: std::path::PathBuf,
    bytes: Seq<u8>,
    first: Result<DicomInstance, DicomError>,
    second: Result<DicomInstance, DicomError>,
)
    requires
        instance_result_view(first) == parse_outcome(options, path, bytes),
        instance_result_view(second) == parse_outcome(options, path, bytes),
    ensures
        instance_result_view(first) == instance_result_view(second),
        first is Ok <==> second is Ok,
        first is Ok ==> first->Ok_0.metadata@ == second->Ok_0.metadata@,
{
}

/// A data set without a Patient ID element that resolves otherwise: under
/// strict validation it fails validation; without, it gives an instance
/// whose patient ID is empty.
pub proof fn lemma_absent_patient_id(
    options: ParseOptions,
    path: std::path::PathBuf,
    entries: Entries,
)
    requires
        !crate::resolver::has_entry(entries, crate::tags::PATIENT_ID),
        metadata_outcome(entries) is Ok,
        pixel_outcome(entries) is Ok,
    ensures
        options.strict_validation ==> resolve_outcome(options, path, entries) == Err::<
            InstanceView,
            ErrorView,
        >(ErrorView::ValidationError("Patient ID no puede estar vacío"@)),
        !options.strict_validation ==> resolve_outcome(options, path, entries) is Ok && (
        resolve_outcome(options, path, entries)->Ok_0).metadata.patient_id.len() == 0,
{
}

/// A data set without a Transfer Syntax UID element resolves to the default
/// transfer syntax, Explicit VR Little Endian.
pub proof fn lemma_absent_transfer_syntax(entries: Entries)
    requires
        !crate::resolver::has_entry(entries, crate::tags::TRANSFER_SYNTAX_UID),
        metadata_outcome(entries) is Ok,
    ensures
        (metadata_outcome(entries)->Ok_0).transfer_syntax_uid == "1.2.840.10008.1.2.1"@,
{
}

} // verus!
