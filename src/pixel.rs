//! Pixel format codes and their bit-packed fields.
//!
//! A pixel format is a 32-bit code. From the most significant end: a 4-bit
//! tag (1 for the bit-packed scheme), the pixel type (4 bits), the channel
//! order (4 bits), the packed layout (4 bits), bits per pixel (8 bits) and
//! bytes per pixel (8 bits). Codes whose tag is not 1 are "fourcc" codes,
//! which follow no such scheme.

use vstd::prelude::*;

verus! {

/// Bits 24..28 of a code: the pixel type.
pub open spec fn type_bits(c: u32) -> u32 {
    (c >> 24u32) & 0x0Fu32
}

/// Bits 20..24 of a code: the channel order.
pub open spec fn order_bits(c: u32) -> u32 {
    (c >> 20u32) & 0x0Fu32
}

/// Bits 16..20 of a code: the packed layout.
pub open spec fn layout_bits(c: u32) -> u32 {
    (c >> 16u32) & 0x0Fu32
}

/// Bits 8..16 of a code: bits per pixel.
pub open spec fn bpp_bits(c: u32) -> u32 {
    (c >> 8u32) & 0xFFu32
}

/// A code is fourcc when it is non-zero and its tag is not 1.
pub open spec fn fourcc_code(c: u32) -> bool {
    c > 0 && ((c >> 28u32) & 0x0Fu32) != 1
}

/// The named pixel formats.
///
/// The fourcc formats (those for which `is_fourcc` holds) are industry
/// specified values that do not follow the bit-packed scheme: what the other
/// queries report of them carries no meaning.
#[derive(Debug, Clone, Copy, PartialEq, Eq, Structural)]
pub enum PixelFormatEnum {
    Unknown,
    Index1lsb,
    Index1msb,
    Index4lsb,
    Index4msb,
    Index8,
    RGB332,
    RGB444,
    RGB555,
    BGR555,
    ARGB4444,
    RGBA4444,
    ABGR4444,
    BGRA4444,
    ARGB1555,
    RGBA5551,
    ABGR1555,
    BGRA5551,
    RGB565,
    BGR565,
    RGB24,
    BGR24,
    RGB888,
    RGBX8888,
    BGR888,
    BGRX8888,
    ARGB8888,
    RGBA8888,
    ABGR8888,
    BGRA8888,
    ARGB2101010,
    /// Planar mode: Y + V + U (3 planes).
    YV12,
    /// Planar mode: Y + U + V (3 planes).
    IYUV,
    /// Packed mode: Y0+U0+Y1+V0 (1 plane).
    YUY2,
    /// Packed mode: U0+Y0+V0+Y1 (1 plane).
    UYVY,
    /// Packed mode: Y0+V0+Y1+U0 (1 plane).
    YVYU,
    /// Planar mode: Y + U/V interleaved (2 planes).
    NV12,
    /// Planar mode: Y + V/U interleaved (2 planes).
    NV21,
    /// Android video texture format.
    ExternalOES,
}

impl PixelFormatEnum {
    /// The 32-bit code of each format.
    pub open spec fn spec_code(self) -> u32 {
        match self {
            PixelFormatEnum::Unknown => 0u32,
            PixelFormatEnum::Index1lsb => 286261504u32,
            PixelFormatEnum::Index1msb => 287310080u32,
            PixelFormatEnum::Index4lsb => 303039488u32,
            PixelFormatEnum::Index4msb => 304088064u32,
            PixelFormatEnum::Index8 => 318769153u32,
            PixelFormatEnum::RGB332 => 336660481u32,
            PixelFormatEnum::RGB444 => 353504258u32,
            PixelFormatEnum::RGB555 => 353570562u32,
            PixelFormatEnum::BGR555 => 357764866u32,
            PixelFormatEnum::ARGB4444 => 355602434u32,
            PixelFormatEnum::RGBA4444 => 356651010u32,
            PixelFormatEnum::ABGR4444 => 359796738u32,
            PixelFormatEnum::BGRA4444 => 360845314u32,
            PixelFormatEnum::ARGB1555 => 355667970u32,
            PixelFormatEnum::RGBA5551 => 356782082u32,
            PixelFormatEnum::ABGR1555 => 359862274u32,
            PixelFormatEnum::BGRA5551 => 360976386u32,
            PixelFormatEnum::RGB565 => 353701890u32,
            PixelFormatEnum::BGR565 => 357896194u32,
            PixelFormatEnum::RGB24 => 386930691u32,
            PixelFormatEnum::BGR24 => 390076419u32,
            PixelFormatEnum::RGB888 => 370546692u32,
            PixelFormatEnum::RGBX8888 => 371595268u32,
            PixelFormatEnum::BGR888 => 374740996u32,
            PixelFormatEnum::BGRX8888 => 375789572u32,
            PixelFormatEnum::ARGB8888 => 372645892u32,
            PixelFormatEnum::RGBA8888 => 373694468u32,
            PixelFormatEnum::ABGR8888 => 376840196u32,
            PixelFormatEnum::BGRA8888 => 377888772u32,
            PixelFormatEnum::ARGB2101010 => 372711428u32,
            PixelFormatEnum::YV12 => 842094169u32,
            PixelFormatEnum::IYUV => 1448433993u32,
            PixelFormatEnum::YUY2 => 844715353u32,
            PixelFormatEnum::UYVY => 1498831189u32,
            PixelFormatEnum::YVYU => 1431918169u32,
            PixelFormatEnum::NV12 => 842094158u32,
            PixelFormatEnum::NV21 => 825382478u32,
            PixelFormatEnum::ExternalOES => 542328143u32,
        }
    }

    /// The 32-bit code of this format.
    pub fn code(self) -> (r: u32)
        ensures
            r == self.spec_code(),
    {
        match self {
            PixelFormatEnum::Unknown => 0u32,
            PixelFormatEnum::Index1lsb => 286261504u32,
            PixelFormatEnum::Index1msb => 287310080u32,
            PixelFormatEnum::Index4lsb => 303039488u32,
            PixelFormatEnum::Index4msb => 304088064u32,
            PixelFormatEnum::Index8 => 318769153u32,
            PixelFormatEnum::RGB332 => 336660481u32,
            PixelFormatEnum::RGB444 => 353504258u32,
            PixelFormatEnum::RGB555 => 353570562u32,
            PixelFormatEnum::BGR555 => 357764866u32,
            PixelFormatEnum::ARGB4444 => 355602434u32,
            PixelFormatEnum::RGBA4444 => 356651010u32,
            PixelFormatEnum::ABGR4444 => 359796738u32,
            PixelFormatEnum::BGRA4444 => 360845314u32,
            PixelFormatEnum::ARGB1555 => 355667970u32,
            PixelFormatEnum::RGBA5551 => 356782082u32,
            PixelFormatEnum::ABGR1555 => 359862274u32,
            PixelFormatEnum::BGRA5551 => 360976386u32,
            PixelFormatEnum::RGB565 => 353701890u32,
            PixelFormatEnum::BGR565 => 357896194u32,
            PixelFormatEnum::RGB24 => 386930691u32,
            PixelFormatEnum::BGR24 => 390076419u32,
            PixelFormatEnum::RGB888 => 370546692u32,
            PixelFormatEnum::RGBX8888 => 371595268u32,
            PixelFormatEnum::BGR888 => 374740996u32,
            PixelFormatEnum::BGRX8888 => 375789572u32,
            PixelFormatEnum::ARGB8888 => 372645892u32,
            PixelFormatEnum::RGBA8888 => 373694468u32,
            PixelFormatEnum::ABGR8888 => 376840196u32,
            PixelFormatEnum::BGRA8888 => 377888772u32,
            PixelFormatEnum::ARGB2101010 => 372711428u32,
            PixelFormatEnum::YV12 => 842094169u32,
            PixelFormatEnum::IYUV => 1448433993u32,
            PixelFormatEnum::YUY2 => 844715353u32,
            PixelFormatEnum::UYVY => 1498831189u32,
            PixelFormatEnum::YVYU => 1431918169u32,
            PixelFormatEnum::NV12 => 842094158u32,
            PixelFormatEnum::NV21 => 825382478u32,
            PixelFormatEnum::ExternalOES => 542328143u32,
        }
    }

    /// The format whose code is `c`, or `Unknown` when no named format has it.
    pub fn from_code(c: u32) -> (r: Self)
        ensures
            r.spec_code() == c || (r == PixelFormatEnum::Unknown && forall|f: PixelFormatEnum|
                f.spec_code() != c),
    {
        match c {
            286261504u32 => PixelFormatEnum::Index1lsb,
            287310080u32 => PixelFormatEnum::Index1msb,
            303039488u32 => PixelFormatEnum::Index4lsb,
            304088064u32 => PixelFormatEnum::Index4msb,
            318769153u32 => PixelFormatEnum::Index8,
            336660481u32 => PixelFormatEnum::RGB332,
            353504258u32 => PixelFormatEnum::RGB444,
            353570562u32 => PixelFormatEnum::RGB555,
            357764866u32 => PixelFormatEnum::BGR555,
            355602434u32 => PixelFormatEnum::ARGB4444,
            356651010u32 => PixelFormatEnum::RGBA4444,
            359796738u32 => PixelFormatEnum::ABGR4444,
            360845314u32 => PixelFormatEnum::BGRA4444,
            355667970u32 => PixelFormatEnum::ARGB1555,
            356782082u32 => PixelFormatEnum::RGBA5551,
            359862274u32 => PixelFormatEnum::ABGR1555,
            360976386u32 => PixelFormatEnum::BGRA5551,
            353701890u32 => PixelFormatEnum::RGB565,
            357896194u32 => PixelFormatEnum::BGR565,
            386930691u32 => PixelFormatEnum::RGB24,
            390076419u32 => PixelFormatEnum::BGR24,
            370546692u32 => PixelFormatEnum::RGB888,
            371595268u32 => PixelFormatEnum::RGBX8888,
            374740996u32 => PixelFormatEnum::BGR888,
            375789572u32 => PixelFormatEnum::BGRX8888,
            372645892u32 => PixelFormatEnum::ARGB8888,
            373694468u32 => PixelFormatEnum::RGBA8888,
            376840196u32 => PixelFormatEnum::ABGR8888,
            377888772u32 => PixelFormatEnum::BGRA8888,
            372711428u32 => PixelFormatEnum::ARGB2101010,
            842094169u32 => PixelFormatEnum::YV12,
            1448433993u32 => PixelFormatEnum::IYUV,
            844715353u32 => PixelFormatEnum::YUY2,
            1498831189u32 => PixelFormatEnum::UYVY,
            1431918169u32 => PixelFormatEnum::YVYU,
            842094158u32 => PixelFormatEnum::NV12,
            825382478u32 => PixelFormatEnum::NV21,
            542328143u32 => PixelFormatEnum::ExternalOES,
            _ => PixelFormatEnum::Unknown,
        }
    }
}

/// The family and storage of a pixel format.
#[derive(Debug, Clone, Copy, PartialEq, Eq, Structural)]
pub enum PixelType {
    Unknown,
    Index1,
    Index4,
    Index8,
    Packed8,
    Packed16,
    Packed32,
    ArrayU8,
    ArrayU16,
    ArrayU32,
    ArrayF16,
    ArrayF32,
}

impl PixelType {
    /// The pixel type that a type field denotes.
    pub open spec fn spec_from_bits(b: u32) -> PixelType {
        if b == 1 {
            PixelType::Index1
        } else if b == 2 {
            PixelType::Index4
        } else if b == 3 {
            PixelType::Index8
        } else if b == 4 {
            PixelType::Packed8
        } else if b == 5 {
            PixelType::Packed16
        } else if b == 6 {
            PixelType::Packed32
        } else if b == 7 {
            PixelType::ArrayU8
        } else if b == 8 {
            PixelType::ArrayU16
        } else if b == 9 {
            PixelType::ArrayU32
        } else if b == 10 {
            PixelType::ArrayF16
        } else if b == 11 {
            PixelType::ArrayF32
        } else {
            PixelType::Unknown
        }
    }

    pub open spec fn is_index_family(self) -> bool {
        self is Index1 || self is Index4 || self is Index8
    }

    pub open spec fn is_packed_family(self) -> bool {
        self is Packed8 || self is Packed16 || self is Packed32
    }

    pub open spec fn is_array_family(self) -> bool {
        self is ArrayU8 || self is ArrayU16 || self is ArrayU32 || self is ArrayF16
            || self is ArrayF32
    }
}

/// Bit order of the indexed (bitmap) formats.
#[derive(Debug, Clone, Copy, PartialEq, Eq, Structural)]
pub enum BitmapPixelOrder {
    Undefined,
    _4321,
    _1234,
}

impl BitmapPixelOrder {
    pub open spec fn spec_from_bits(b: u32) -> BitmapPixelOrder {
        if b == 1 {
            BitmapPixelOrder::_4321
        } else if b == 2 {
            BitmapPixelOrder::_1234
        } else {
            BitmapPixelOrder::Undefined
        }
    }
}

/// Channel order of the packed formats.
#[derive(Debug, Clone, Copy, PartialEq, Eq, Structural)]
pub enum PackedPixelOrder {
    Undefined,
    XRGB,
    RGBX,
    ARGB,
    RGBA,
    XBGR,
    BGRX,
    ABGR,
    BGRA,
}

impl PackedPixelOrder {
    pub open spec fn spec_from_bits(b: u32) -> PackedPixelOrder {
        if b == 1 {
            PackedPixelOrder::XRGB
        } else if b == 2 {
            PackedPixelOrder::RGBX
        } else if b == 3 {
            PackedPixelOrder::ARGB
        } else if b == 4 {
            PackedPixelOrder::RGBA
        } else if b == 5 {
            PackedPixelOrder::XBGR
        } else if b == 6 {
            PackedPixelOrder::BGRX
        } else if b == 7 {
            PackedPixelOrder::ABGR
        } else if b == 8 {
            PackedPixelOrder::BGRA
        } else {
            PackedPixelOrder::Undefined
        }
    }
}

/// Channel order of the array formats.
#[derive(Debug, Clone, Copy, PartialEq, Eq, Structural)]
pub enum ArrayPixelOrder {
    Undefined,
    RGB,
    RGBA,
    ARGB,
    BGR,
    BGRA,
    ABGR,
}

impl ArrayPixelOrder {
    pub open spec fn spec_from_bits(b: u32) -> ArrayPixelOrder {
        if b == 1 {
            ArrayPixelOrder::RGB
        } else if b == 2 {
            ArrayPixelOrder::RGBA
        } else if b == 3 {
            ArrayPixelOrder::ARGB
        } else if b == 4 {
            ArrayPixelOrder::BGR
        } else if b == 5 {
            ArrayPixelOrder::BGRA
        } else if b == 6 {
            ArrayPixelOrder::ABGR
        } else {
            ArrayPixelOrder::Undefined
        }
    }
}

/// The channel order of a format, read according to its pixel type.
#[derive(Debug, Clone, Copy, PartialEq, Eq, Structural)]
pub enum PixelOrder {
    Bitmap(BitmapPixelOrder),
    Packed(PackedPixelOrder),
    Array(ArrayPixelOrder),
}

/// Channel bit pattern of the packed formats.
#[derive(Debug, Clone, Copy, PartialEq, Eq, Structural)]
pub enum PixelLayout {
    Undefined,
    _332,
    _4444,
    _1555,
    _5551,
    _565,
    _8888,
    _2101010,
    _1010102,
}

impl PixelLayout {
    pub open spec fn spec_from_bits(b: u32) -> PixelLayout {
        if b == 1 {
            PixelLayout::_332
        } else if b == 2 {
            PixelLayout::_4444
        } else if b == 3 {
            PixelLayout::_1555
        } else if b == 4 {
            PixelLayout::_5551
        } else if b == 5 {
            PixelLayout::_565
        } else if b == 6 {
            PixelLayout::_8888
        } else if b == 7 {
            PixelLayout::_2101010
        } else if b == 8 {
            PixelLayout::_1010102
        } else {
            PixelLayout::Undefined
        }
    }
}

/// What the type field of a code says.
pub open spec fn type_of_code(c: u32) -> PixelType {
    PixelType::spec_from_bits(type_bits(c))
}

/// A code of the indexed family, not fourcc.
pub open spec fn indexed_code(c: u32) -> bool {
    !fourcc_code(c) && type_of_code(c).is_index_family()
}

/// A code of the packed family, not fourcc.
pub open spec fn packed_code(c: u32) -> bool {
    !fourcc_code(c) && type_of_code(c).is_packed_family()
}

/// A code of the array family, not fourcc.
pub open spec fn array_code(c: u32) -> bool {
    !fourcc_code(c) && type_of_code(c).is_array_family()
}

/// The order field of a code, read as a packed order for packed codes, as an
/// array order for array codes, and as a bitmap order otherwise.
pub open spec fn order_of_code(c: u32) -> PixelOrder {
    if packed_code(c) {
        PixelOrder::Packed(PackedPixelOrder::spec_from_bits(order_bits(c)))
    } else if array_code(c) {
        PixelOrder::Array(ArrayPixelOrder::spec_from_bits(order_bits(c)))
    } else {
        PixelOrder::Bitmap(BitmapPixelOrder::spec_from_bits(order_bits(c)))
    }
}

/// The orders that carry an alpha channel.
pub open spec fn alpha_order(o: PixelOrder) -> bool {
    match o {
        PixelOrder::Packed(p) => p is ARGB || p is RGBA || p is ABGR || p is BGRA,
        PixelOrder::Array(a) => a is ARGB || a is RGBA || a is ABGR || a is BGRA,
        PixelOrder::Bitmap(_) => false,
    }
}

impl PixelFormatEnum {
    /// The fourcc formats that take two bytes per pixel.
    pub open spec fn two_byte_fourcc(self) -> bool {
        self is YUY2 || self is UYVY || self is YVYU
    }

    /// Bytes per pixel: the low byte of the code for bit-packed formats; for
    /// fourcc formats 2 for YUY2, UYVY and YVYU, 1 for the others.
    pub open spec fn spec_bytes_per_pixel(self) -> u32 {
        if fourcc_code(self.spec_code()) {
            if self.two_byte_fourcc() {
                2
            } else {
                1
            }
        } else {
            self.spec_code() & 0xFFu32
        }
    }

    /// The type of the pixel format; unknown type fields give `Unknown`.
    pub fn pixel_type(self) -> (r: PixelType)
        ensures
            r == type_of_code(self.spec_code()),
    {
        let b: u32 = (self.code() >> 24u32) & 0x0Fu32;
        if b == 1 {
            PixelType::Index1
        } else if b == 2 {
            PixelType::Index4
        } else if b == 3 {
            PixelType::Index8
        } else if b == 4 {
            PixelType::Packed8
        } else if b == 5 {
            PixelType::Packed16
        } else if b == 6 {
            PixelType::Packed32
        } else if b == 7 {
            PixelType::ArrayU8
        } else if b == 8 {
            PixelType::ArrayU16
        } else if b == 9 {
            PixelType::ArrayU32
        } else if b == 10 {
            PixelType::ArrayF16
        } else if b == 11 {
            PixelType::ArrayF32
        } else {
            PixelType::Unknown
        }
    }

    /// Ordering of the channels or bits; unknown values give the `Undefined`
    /// variant of the sub-order that the pixel type selects.
    pub fn pixel_order(self) -> (r: PixelOrder)
        ensures
            r == order_of_code(self.spec_code()),
    {
        let bits: u32 = (self.code() >> 20u32) & 0x0Fu32;
        if self.is_packed() {
            let p = if bits == 1 {
                PackedPixelOrder::XRGB
            } else if bits == 2 {
                PackedPixelOrder::RGBX
            } else if bits == 3 {
                PackedPixelOrder::ARGB
            } else if bits == 4 {
                PackedPixelOrder::RGBA
            } else if bits == 5 {
                PackedPixelOrder::XBGR
            } else if bits == 6 {
                PackedPixelOrder::BGRX
            } else if bits == 7 {
                PackedPixelOrder::ABGR
            } else if bits == 8 {
                PackedPixelOrder::BGRA
            } else {
                PackedPixelOrder::Undefined
            };
            PixelOrder::Packed(p)
        } else if self.is_array() {
            let a = if bits == 1 {
                ArrayPixelOrder::RGB
            } else if bits == 2 {
                ArrayPixelOrder::RGBA
            } else if bits == 3 {
                ArrayPixelOrder::ARGB
            } else if bits == 4 {
                ArrayPixelOrder::BGR
            } else if bits == 5 {
                ArrayPixelOrder::BGRA
            } else if bits == 6 {
                ArrayPixelOrder::ABGR
            } else {
                ArrayPixelOrder::Undefined
            };
            PixelOrder::Array(a)
        } else {
            let m = if bits == 1 {
                BitmapPixelOrder::_4321
            } else if bits == 2 {
                BitmapPixelOrder::_1234
            } else {
                BitmapPixelOrder::Undefined
            };
            PixelOrder::Bitmap(m)
        }
    }

    /// Channel bit pattern; unknown layouts give `Undefined`.
    pub fn pixel_layout(self) -> (r: PixelLayout)
        ensures
            r == PixelLayout::spec_from_bits(layout_bits(self.spec_code())),
    {
        let b: u32 = (self.code() >> 16u32) & 0x0Fu32;
        if b == 1 {
            PixelLayout::_332
        } else if b == 2 {
            PixelLayout::_4444
        } else if b == 3 {
            PixelLayout::_1555
        } else if b == 4 {
            PixelLayout::_5551
        } else if b == 5 {
            PixelLayout::_565
        } else if b == 6 {
            PixelLayout::_8888
        } else if b == 7 {
            PixelLayout::_2101010
        } else if b == 8 {
            PixelLayout::_1010102
        } else {
            PixelLayout::Undefined
        }
    }

    /// Bits of color information per pixel.
    pub fn bits_per_pixel(self) -> (r: u32)
        ensures
            r == bpp_bits(self.spec_code()),
    {
        (self.code() >> 8u32) & 0xFFu32
    }

    /// Bytes used per pixel. Formats of under 8 bits per pixel give 0.
    pub fn bytes_per_pixel(self) -> (r: u32)
        ensures
            r == self.spec_bytes_per_pixel(),
    {
        if self.is_fourcc() {
            match self {
                PixelFormatEnum::YUY2 | PixelFormatEnum::UYVY | PixelFormatEnum::YVYU => 2,
                _ => 1,
            }
        } else {
            self.code() & 0xFFu32
        }
    }

    /// Is this an indexed format?
    pub fn is_indexed(self) -> (r: bool)
        ensures
            r == indexed_code(self.spec_code()),
    {
        !self.is_fourcc() && match self.pixel_type() {
            PixelType::Index1 | PixelType::Index4 | PixelType::Index8 => true,
            _ => false,
        }
    }

    /// Is this a packed format?
    pub fn is_packed(self) -> (r: bool)
        ensures
            r == packed_code(self.spec_code()),
    {
        !self.is_fourcc() && match self.pixel_type() {
            PixelType::Packed8 | PixelType::Packed16 | PixelType::Packed32 => true,
            _ => false,
        }
    }

    /// Is this an array format?
    pub fn is_array(self) -> (r: bool)
        ensures
            r == array_code(self.spec_code()),
    {
        !self.is_fourcc() && match self.pixel_type() {
            PixelType::ArrayU8
            | PixelType::ArrayU16
            | PixelType::ArrayU32
            | PixelType::ArrayF16
            | PixelType::ArrayF32 => true,
            _ => false,
        }
    }

    /// Does this format have an alpha channel?
    pub fn is_alpha(self) -> (r: bool)
        ensures
            r == alpha_order(order_of_code(self.spec_code())),
    {
        match self.pixel_order() {
            PixelOrder::Packed(PackedPixelOrder::ARGB)
            | PixelOrder::Packed(PackedPixelOrder::RGBA)
            | PixelOrder::Packed(PackedPixelOrder::ABGR)
            | PixelOrder::Packed(PackedPixelOrder::BGRA)
            | PixelOrder::Array(ArrayPixelOrder::ARGB)
            | PixelOrder::Array(ArrayPixelOrder::RGBA)
            | PixelOrder::Array(ArrayPixelOrder::ABGR)
            | PixelOrder::Array(ArrayPixelOrder::BGRA) => true,
            _ => false,
        }
    }

    /// Is this a four-character-code format (a YUV format, for example)?
    pub fn is_fourcc(self) -> (r: bool)
        ensures
            r == fourcc_code(self.spec_code()),
    {
        let c: u32 = self.code();
        c > 0 && ((c >> 28u32) & 0x0Fu32) != 1
    }
}

/// At most one of the three families holds of any format, and none of them
/// holds of a fourcc format.
pub proof fn lemma_families_exclusive(f: PixelFormatEnum)
    ensures
        !(indexed_code(f.spec_code()) && packed_code(f.spec_code())),
        !(indexed_code(f.spec_code()) && array_code(f.spec_code())),
        !(packed_code(f.spec_code()) && array_code(f.spec_code())),
        fourcc_code(f.spec_code()) ==> !indexed_code(f.spec_code()) && !packed_code(
            f.spec_code(),
        ) && !array_code(f.spec_code()),
{
}

/// Reading a format back from its own code gives the same format.
pub proof fn lemma_code_round_trip(f: PixelFormatEnum, g: PixelFormatEnum)
    ensures
        f.spec_code() == g.spec_code() ==> f == g,
{
}

} // verus!
