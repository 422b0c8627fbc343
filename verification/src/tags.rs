//! Tags, and the well-known ones that extraction resolves.
//!
//! A tag is a group number and an element number, sixteen bits each. It is
//! written here as one 32-bit code, the group in the upper half, so that the
//! order of the codes is the order of the tags: by group, then by element.

use vstd::prelude::*;

verus! {

pub const TRANSFER_SYNTAX_UID: u32 = 0x0002_0010;

pub const SOP_INSTANCE_UID: u32 = 0x0008_0018;

pub const STUDY_DATE: u32 = 0x0008_0020;

pub const STUDY_TIME: u32 = 0x0008_0030;

pub const ACCESSION_NUMBER: u32 = 0x0008_0050;

pub const MODALITY: u32 = 0x0008_0060;

pub const STUDY_DESCRIPTION: u32 = 0x0008_1030;

pub const SERIES_DESCRIPTION: u32 = 0x0008_103E;

pub const PATIENT_NAME: u32 = 0x0010_0010;

pub const PATIENT_ID: u32 = 0x0010_0020;

pub const PATIENT_BIRTH_DATE: u32 = 0x0010_0030;

pub const PATIENT_SEX: u32 = 0x0010_0040;

pub const STUDY_INSTANCE_UID: u32 = 0x0020_000D;

pub const SERIES_INSTANCE_UID: u32 = 0x0020_000E;

pub const SERIES_NUMBER: u32 = 0x0020_0011;

pub const INSTANCE_NUMBER: u32 = 0x0020_0013;

pub const SAMPLES_PER_PIXEL: u32 = 0x0028_0002;

pub const PHOTOMETRIC_INTERPRETATION: u32 = 0x0028_0004;

pub const ROWS: u32 = 0x0028_0010;

pub const COLUMNS: u32 = 0x0028_0011;

pub const BITS_ALLOCATED: u32 = 0x0028_0100;

pub const BITS_STORED: u32 = 0x0028_0101;

pub const HIGH_BIT: u32 = 0x0028_0102;

pub const PIXEL_REPRESENTATION: u32 = 0x0028_0103;

pub const PIXEL_DATA: u32 = 0x7FE0_0010;

/// The group number of a tag.
pub open spec fn group_of(tag: u32) -> u16 {
    (tag / 0x1_0000) as u16
}

/// The element number of a tag.
pub open spec fn element_of(tag: u32) -> u16 {
    (tag % 0x1_0000) as u16
}

/// A tag as the pair (group, element).
pub open spec fn tag_key(tag: u32) -> (u16, u16) {
    (group_of(tag), element_of(tag))
}

/// The group number of a tag.
#[verifier::when_used_as_spec(group_of)]
pub fn group(tag: u32) -> (g: u16)
    ensures
        g == group_of(tag),
{
    (tag / 0x1_0000) as u16
}

/// The element number of a tag.
#[verifier::when_used_as_spec(element_of)]
pub fn element(tag: u32) -> (e: u16)
    ensures
        e == element_of(tag),
{
    (tag % 0x1_0000) as u16
}

/// The order of the codes is the order of the tags: by group first, and
/// within a group by element.
pub proof fn lemma_code_order(a: u32, b: u32)
    ensures
        a < b <==> (group_of(a) < group_of(b) || (group_of(a) == group_of(b) && element_of(a)
            < element_of(b))),
        a == b <==> tag_key(a) == tag_key(b),
{
}

} // verus!
