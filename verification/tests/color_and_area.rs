use display_driver::area::Area;
use display_driver::color::{ColorFormat, ColorType, SolidColor};
use embedded_graphics_core::pixelcolor::{Rgb565, Rgb888, RgbColor};

#[test]
fn bit_and_byte_sizes_per_format() {
    let cases = [
        (ColorFormat::Binary, 1u8, 1u8),
        (ColorFormat::Gray2, 2, 1),
        (ColorFormat::Gray4, 4, 1),
        (ColorFormat::Gray8, 8, 1),
        (ColorFormat::RGB565, 16, 2),
        (ColorFormat::RGB666, 18, 3),
        (ColorFormat::RGB888, 24, 3),
    ];
    for (f, bits, bytes) in cases {
        assert_eq!(f.size_bits(), bits);
        assert_eq!(f.size_bytes(), bytes);
    }
}

#[test]
fn rgb565_packing_is_big_endian_565() {
    let c = SolidColor::new_rgb565(31, 63, 31);
    assert_eq!(c.raw, [0xFF, 0xFF, 0x00]);
    assert_eq!(c.wire_bytes(), vec![0xFF, 0xFF]);
    let c = SolidColor::new_rgb565(31, 0, 0);
    assert_eq!(c.raw, [0xF8, 0x00, 0x00]);
    let c = SolidColor::new_rgb565(0, 63, 0);
    assert_eq!(c.raw, [0x07, 0xE0, 0x00]);
    let c = SolidColor::new_rgb565(0, 0, 31);
    assert_eq!(c.raw, [0x00, 0x1F, 0x00]);
    assert_eq!(c.color, ColorType::Rgb(0, 0, 31));
}

#[test]
fn rgb666_and_rgb888_packing() {
    let c = SolidColor::new_rgb666(63, 0, 0);
    assert_eq!(c.raw, [0x03, 0xF0, 0x00]);
    let c = SolidColor::new_rgb666(0, 63, 0);
    assert_eq!(c.raw, [0x00, 0x0F, 0xC0]);
    let c = SolidColor::new_rgb666(0, 0, 63);
    assert_eq!(c.raw, [0x00, 0x00, 0x3F]);
    let c = SolidColor::new_rgb888(0x12, 0x34, 0x56);
    assert_eq!(c.raw, [0x12, 0x34, 0x56]);
    assert_eq!(c.wire_bytes(), vec![0x12, 0x34, 0x56]);
}

#[test]
fn embedded_graphics_colors_convert_through_their_channels() {
    // The wire bytes of a converted color are the packing of the color's
    // own channel values, so a conversion that ignored its input would fail.
    let c = SolidColor::from_rgb565(Rgb565::new(0b10001, 0b100001, 0b00111));
    assert_eq!(c.format, ColorFormat::RGB565);
    assert_eq!(c.color, ColorType::Rgb(0b10001, 0b100001, 0b00111));
    // value = r<<11 | g<<5 | b = 0x8C27
    assert_eq!(c.raw, [0x8C, 0x27, 0x00]);
    let w = SolidColor::from_rgb565(Rgb565::WHITE);
    assert_eq!(w.raw, [0xFF, 0xFF, 0x00]);
    let k = SolidColor::from_rgb888(Rgb888::new(1, 2, 3));
    assert_eq!(k.raw, [1, 2, 3]);
}

#[test]
fn area_geometry() {
    let a = Area::new(3, 4, 10, 20);
    assert_eq!(a.position(), (3, 4));
    assert_eq!(a.total_pixels(), 200);
    assert_eq!(a.bottom_right(), (12, 23));
    let b = Area::from_origin(240, 320);
    assert_eq!((b.x, b.y, b.w, b.h), (0, 0, 240, 320));
    let c = Area::from_origin_size((128, 160));
    assert_eq!(c.bottom_right(), (127, 159));
}
