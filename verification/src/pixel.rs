//! The geometry of an image's pixel buffer, and a buffer laid out by it.

use vstd::prelude::*;

verus! {

/// The pixel layout of an image: its size, its bit depth and its colour
/// model. It describes the buffer; it holds no pixels.
#[derive(Debug, Clone, PartialEq, Eq)]
pub struct PixelDataDescriptor {
    /// Height in pixels.
    pub rows: u32,
    /// Width in pixels.
    pub columns: u32,
    /// Bits allocated for each sample (8, 16, ...).
    pub bits_allocated: u16,
    /// Bits of each sample that carry data.
    pub bits_stored: u16,
    /// Position of the most significant bit.
    pub high_bit: u16,
    /// Colour model (`MONOCHROME1`, `MONOCHROME2`, `RGB`, ...).
    pub photometric_interpretation: String,
    /// Samples per pixel (1 for greyscale, 3 for RGB).
    pub samples_per_pixel: u16,
    /// 0 for unsigned samples, 1 for signed.
    pub pixel_representation: u16,
}

/// A descriptor as a mathematical value.
pub struct PixelDescriptorView {
    pub rows: u32,
    pub columns: u32,
    pub bits_allocated: u16,
    pub bits_stored: u16,
    pub high_bit: u16,
    pub photometric_interpretation: Seq<char>,
    pub samples_per_pixel: u16,
    pub pixel_representation: u16,
}

impl PixelDescriptorView {
    /// Whole bytes that one sample occupies.
    pub open spec fn bytes_per_sample(self) -> int {
        self.bits_allocated as int / 8
    }

    /// Size of the pixel buffer in bytes:
    /// rows × columns × (bits allocated / 8) × samples per pixel.
    pub open spec fn total_size(self) -> int {
        self.rows as int * self.columns as int * self.bytes_per_sample()
            * self.samples_per_pixel as int
    }

    /// The colour model begins with `MONOCHROME`.
    pub open spec fn is_monochrome(self) -> bool {
        "MONOCHROME"@.is_prefix_of(self.photometric_interpretation)
    }

    /// The colour model is exactly `RGB`.
    pub open spec fn is_rgb(self) -> bool {
        self.photometric_interpretation == "RGB"@
    }
}

impl View for PixelDataDescriptor {
    type V = PixelDescriptorView;

    open spec fn view(&self) -> PixelDescriptorView {
        PixelDescriptorView {
            rows: self.rows,
            columns: self.columns,
            bits_allocated: self.bits_allocated,
            bits_stored: self.bits_stored,
            high_bit: self.high_bit,
            photometric_interpretation: self.photometric_interpretation@,
            samples_per_pixel: self.samples_per_pixel,
            pixel_representation: self.pixel_representation,
        }
    }
}

/// The product of the four factors of a buffer size stays below 2^93.
proof fn lemma_size_bound(rows: int, columns: int, bytes: int, samples: int)
    requires
        0 <= rows <= 0xFFFF_FFFF,
        0 <= columns <= 0xFFFF_FFFF,
        0 <= bytes <= 0x1FFF,
        0 <= samples <= 0xFFFF,
    ensures
        0 <= rows * columns <= 0xFFFF_FFFF * 0xFFFF_FFFF,
        0 <= rows * columns * bytes <= 0xFFFF_FFFF * 0xFFFF_FFFF * 0x1FFF,
        0 <= rows * columns * bytes * samples <= 0xFFFF_FFFF * 0xFFFF_FFFF * 0x1FFF * 0xFFFF,
{
    assert(0 <= rows * columns <= 0xFFFF_FFFF * 0xFFFF_FFFF) by (nonlinear_arith)
        requires
            0 <= rows <= 0xFFFF_FFFF,
            0 <= columns <= 0xFFFF_FFFF,
    ;
    let area = rows * columns;
    assert(0 <= area * bytes <= 0xFFFF_FFFF * 0xFFFF_FFFF * 0x1FFF) by (nonlinear_arith)
        requires
            0 <= area <= 0xFFFF_FFFF * 0xFFFF_FFFF,
            0 <= bytes <= 0x1FFF,
    ;
    let plane = area * bytes;
    assert(0 <= plane * samples <= 0xFFFF_FFFF * 0xFFFF_FFFF * 0x1FFF * 0xFFFF)
        by (nonlinear_arith)
        requires
            0 <= plane <= 0xFFFF_FFFF * 0xFFFF_FFFF * 0x1FFF,
            0 <= samples <= 0xFFFF,
    ;
}

impl PixelDataDescriptor {
    /// The buffer size as a 128-bit number, which always holds it.
    fn wide_size(&self) -> (size: u128)
        ensures
            size == self@.total_size(),
    {
        let bytes: u16 = self.bits_allocated / 8;
        proof {
            lemma_size_bound(
                self.rows as int,
                self.columns as int,
                bytes as int,
                self.samples_per_pixel as int,
            );
        }
        let area: u128 = (self.rows as u128) * (self.columns as u128);
        let plane: u128 = area * (bytes as u128);
        plane * (self.samples_per_pixel as u128)
    }

    /// Whether the buffer size is a `usize` on this machine, that is whether
    /// [`total_size_bytes`](Self::total_size_bytes) may be called.
    pub fn size_fits(&self) -> (fits: bool)
        ensures
            fits == (self@.total_size() <= usize::MAX),
    {
        self.wide_size() <= usize::MAX as u128
    }

    /// Size of the pixel buffer in bytes.
    pub fn total_size_bytes(&self) -> (size: usize)
        requires
            self@.total_size() <= usize::MAX,
        ensures
            size == self@.total_size(),
            size == self.rows as int * self.columns as int * (self.bits_allocated as int / 8)
                * self.samples_per_pixel as int,
    {
        self.wide_size() as usize
    }

    /// Whether the image is greyscale: the colour model begins with
    /// `MONOCHROME`.
    pub fn is_monochrome(&self) -> (mono: bool)
        ensures
            mono == self@.is_monochrome(),
    {
        let prefix = "MONOCHROME";
        let text = self.photometric_interpretation.as_str();
        proof {
            reveal_strlit("MONOCHROME");
        }
        if text.unicode_len() < 10 {
            return false;
        }
        let mut i: usize = 0;
        while i < 10
            invariant
                0 <= i <= 10,
                prefix@.len() == 10,
                text@.len() >= 10,
                text@ == self.photometric_interpretation@,
                prefix@ == "MONOCHROME"@,
                forall|j: int| 0 <= j < i ==> text@[j] == prefix@[j],
            decreases 10 - i,
        {
            if text.get_char(i) != prefix.get_char(i) {
                return false;
            }
            i += 1;
        }
        true
    }

    /// Whether the colour model is exactly `RGB`. Other colour models (YBR,
    /// palette colour) and other spellings are not RGB.
    pub fn is_rgb(&self) -> (rgb: bool)
        ensures
            rgb == self@.is_rgb(),
    {
        let text = self.photometric_interpretation.as_str();
        proof {
            reveal_strlit("RGB");
        }
        if text.unicode_len() != 3 {
            return false;
        }
        let same = text.get_char(0) == 'R' && text.get_char(1) == 'G' && text.get_char(2) == 'B';
        proof {
            if same {
                assert(text@ =~= "RGB"@);
            }
        }
        same
    }
}

/// A pixel buffer in memory, with the descriptor that lays it out.
#[derive(Debug, Clone, PartialEq, Eq)]
pub struct PixelData {
    pub descriptor: PixelDataDescriptor,
    pub data: Vec<u8>,
}

/// The sample that a buffer holds for column `x` of row `y`, under the layout
/// `desc`: none outside the image or where the buffer is too short; the
/// little-endian pair of bytes for two-byte samples; else the first byte.
pub open spec fn pixel_at(desc: PixelDescriptorView, data: Seq<u8>, x: u32, y: u32) -> Option<u16> {
    let width = desc.bytes_per_sample();
    let offset = (y as int * desc.columns as int + x as int) * width;
    if x >= desc.columns || y >= desc.rows {
        None
    } else if offset >= data.len() || offset + width > data.len() {
        None
    } else if width == 2 {
        Some((data[offset] as int + 256 * data[offset + 1] as int) as u16)
    } else {
        Some(data[offset] as u16)
    }
}

impl PixelData {
    /// A buffer of the size the descriptor asks for, every byte zero.
    pub fn new(descriptor: PixelDataDescriptor) -> (pixels: Self)
        requires
            descriptor@.total_size() <= usize::MAX,
        ensures
            pixels.descriptor == descriptor,
            pixels.data@.len() == descriptor@.total_size(),
            forall|i: int| 0 <= i < pixels.data@.len() ==> pixels.data@[i] == 0u8,
    {
        let size = descriptor.total_size_bytes();
        PixelData { descriptor, data: vec![0u8; size] }
    }

    /// The sample at column `x` of row `y`, read little-endian.
    pub fn get_pixel(&self, x: u32, y: u32) -> (pixel: Option<u16>)
        ensures
            pixel == pixel_at(self.descriptor@, self.data@, x, y),
    {
        if x >= self.descriptor.columns || y >= self.descriptor.rows {
            return None;
        }
        let width: u16 = self.descriptor.bits_allocated / 8;
        proof {
            assert(0 <= y as int * self.descriptor.columns as int <= 0xFFFF_FFFF * 0xFFFF_FFFF)
                by (nonlinear_arith)
                requires
                    0 <= y as int <= 0xFFFF_FFFF,
                    0 <= self.descriptor.columns as int <= 0xFFFF_FFFF,
            ;
        }
        let index: u64 = (y as u64) * (self.descriptor.columns as u64) + (x as u64);
        proof {
            assert(0 <= index as int * width as int <= 0xFFFF_FFFF_FFFF_FFFF * 0x1FFF)
                by (nonlinear_arith)
                requires
                    0 <= index as int <= 0xFFFF_FFFF_FFFF_FFFF,
                    0 <= width as int <= 0x1FFF,
            ;
        }
        let offset: u128 = (index as u128) * (width as u128);
        let len: u128 = self.data.len() as u128;
        if offset >= len || offset + (width as u128) > len {
            return None;
        }
        let at: usize = offset as usize;
        if width == 2 {
            let low: u16 = self.data[at] as u16;
            let high: u16 = self.data[at + 1] as u16;
            Some(low + 256 * high)
        } else {
            Some(self.data[at] as u16)
        }
    }
}

} // verus!
