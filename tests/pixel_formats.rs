use beryllium::pixel::{
    ArrayPixelOrder, BitmapPixelOrder, PackedPixelOrder, PixelFormatEnum, PixelLayout, PixelOrder,
    PixelType,
};

#[test]
fn rgba8888_decodes_as_packed_alpha() {
    let f = PixelFormatEnum::RGBA8888;
    assert_eq!(f.code(), 373694468);
    assert_eq!(f.bits_per_pixel(), 32);
    assert_eq!(f.bytes_per_pixel(), 4);
    assert!(f.is_alpha());
    assert!(f.is_packed());
    assert!(!f.is_array());
    assert!(!f.is_indexed());
    assert!(!f.is_fourcc());
    assert_eq!(f.pixel_type(), PixelType::Packed32);
    assert_eq!(f.pixel_order(), PixelOrder::Packed(PackedPixelOrder::RGBA));
    assert_eq!(f.pixel_layout(), PixelLayout::_8888);
}

#[test]
fn yv12_is_fourcc() {
    let f = PixelFormatEnum::YV12;
    assert!(f.is_fourcc());
    assert!(!f.is_packed());
    assert!(!f.is_array());
    assert!(!f.is_indexed());
    assert_eq!(f.bytes_per_pixel(), 1);
}

#[test]
fn two_byte_fourcc_formats() {
    assert_eq!(PixelFormatEnum::YUY2.bytes_per_pixel(), 2);
    assert_eq!(PixelFormatEnum::UYVY.bytes_per_pixel(), 2);
    assert_eq!(PixelFormatEnum::YVYU.bytes_per_pixel(), 2);
    assert_eq!(PixelFormatEnum::NV12.bytes_per_pixel(), 1);
}

#[test]
fn indexed_formats() {
    let f = PixelFormatEnum::Index8;
    assert!(f.is_indexed());
    assert!(!f.is_packed());
    assert_eq!(f.pixel_type(), PixelType::Index8);
    assert_eq!(f.bits_per_pixel(), 8);
    assert_eq!(f.bytes_per_pixel(), 1);
    assert_eq!(f.pixel_order(), PixelOrder::Bitmap(BitmapPixelOrder::Undefined));
    assert_eq!(PixelFormatEnum::Index1msb.pixel_order(), PixelOrder::Bitmap(BitmapPixelOrder::_1234));
    assert_eq!(PixelFormatEnum::Index4lsb.pixel_order(), PixelOrder::Bitmap(BitmapPixelOrder::_4321));
    assert_eq!(PixelFormatEnum::Index1lsb.bytes_per_pixel(), 0);
}

#[test]
fn array_formats() {
    let f = PixelFormatEnum::RGB24;
    assert!(f.is_array());
    assert!(!f.is_alpha());
    assert_eq!(f.pixel_type(), PixelType::ArrayU8);
    assert_eq!(f.pixel_order(), PixelOrder::Array(ArrayPixelOrder::RGB));
    assert_eq!(f.bits_per_pixel(), 24);
    assert_eq!(f.bytes_per_pixel(), 3);
    assert_eq!(f.pixel_layout(), PixelLayout::Undefined);
}

#[test]
fn packed_without_alpha() {
    let f = PixelFormatEnum::RGB565;
    assert!(!f.is_alpha());
    assert_eq!(f.pixel_layout(), PixelLayout::_565);
    assert_eq!(f.bytes_per_pixel(), 2);
    assert!(PixelFormatEnum::ARGB2101010.is_alpha());
    assert_eq!(PixelFormatEnum::ARGB2101010.pixel_layout(), PixelLayout::_2101010);
}

#[test]
fn unknown_format() {
    let f = PixelFormatEnum::Unknown;
    assert!(!f.is_fourcc());
    assert_eq!(f.pixel_type(), PixelType::Unknown);
    assert_eq!(f.bytes_per_pixel(), 0);
    assert_eq!(PixelFormatEnum::from_code(12345), PixelFormatEnum::Unknown);
}

#[test]
fn codes_round_trip() {
    let all = [
        PixelFormatEnum::Index1lsb,
        PixelFormatEnum::RGB332,
        PixelFormatEnum::BGRA5551,
        PixelFormatEnum::RGBA8888,
        PixelFormatEnum::YV12,
        PixelFormatEnum::ExternalOES,
    ];
    for f in all {
        assert_eq!(PixelFormatEnum::from_code(f.code()), f);
    }
    assert_eq!(PixelFormatEnum::from_code(842094169), PixelFormatEnum::YV12);
}
