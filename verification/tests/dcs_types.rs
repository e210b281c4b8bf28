use display_driver::dcs::{
    AddressMode, AddressRange, GammaSet, PixelFormat, PixelFormatType, address_window_param_u8,
};
use display_driver::panel::Orientation;

#[test]
fn address_mode_encodes_each_flag_to_its_bit() {
    let mut m = AddressMode::empty();
    assert_eq!(m.bits(), 0x00);
    m.flip_vertical = true;
    assert_eq!(m.bits(), 0x01);
    m.flip_horizontal = true;
    assert_eq!(m.bits(), 0x03);
    m.horizontal_refresh_order = true;
    assert_eq!(m.bits(), 0x07);
    m.bgr = true;
    assert_eq!(m.bits(), 0x0F);
    m.vertical_refresh_order = true;
    assert_eq!(m.bits(), 0x1F);
    m.row_column_swap = true;
    assert_eq!(m.bits(), 0x3F);
    m.column_address_order = true;
    assert_eq!(m.bits(), 0x7F);
    m.page_address_order = true;
    assert_eq!(m.bits(), 0xFF);
    assert_eq!(m.as_bytes(), [0xFF]);
}

#[test]
fn new_simple_sets_only_the_named_flags() {
    let m = AddressMode::new_simple(true, false, true, true);
    assert!(m.column_address_order);
    assert!(!m.page_address_order);
    assert!(m.row_column_swap);
    assert!(m.bgr);
    assert!(!m.flip_vertical);
    assert_eq!(m.bits(), 0x40 | 0x20 | 0x08);
    assert!(m.is_xy_swapped());
}

#[test]
fn orientation_flags_round_trip() {
    for o in [
        Orientation::Deg0,
        Orientation::Deg90,
        Orientation::Deg180,
        Orientation::Deg270,
    ] {
        let m = AddressMode::from_orientation(o);
        assert_eq!(m.orientation(), Some(o));
    }
    // 90 degrees is swap plus one mirror, 180 is both mirrors.
    assert_eq!(AddressMode::from_orientation(Orientation::Deg0).bits(), 0x00);
    assert_eq!(AddressMode::from_orientation(Orientation::Deg90).bits(), 0x40 | 0x20);
    assert_eq!(AddressMode::from_orientation(Orientation::Deg180).bits(), 0x40 | 0x80);
    assert_eq!(AddressMode::from_orientation(Orientation::Deg270).bits(), 0x80 | 0x20);
}

#[test]
fn a_mode_with_extra_flags_set_decodes_its_orientation() {
    let mut m = AddressMode::new_simple(true, false, true, true);
    m.flip_vertical = true;
    assert_eq!(m.orientation(), Some(Orientation::Deg90));
    let stray = AddressMode::new_simple(true, false, false, false);
    assert_eq!(stray.orientation(), None);
}

#[test]
fn set_orientation_clears_only_the_orientation_flags() {
    // Whatever the prior orientation, applying no rotation afterwards
    // clears swap and both mirrors and leaves BGR and the flips alone.
    let mut m = AddressMode::new_simple(false, false, false, true);
    m.flip_horizontal = true;
    m.vertical_refresh_order = true;
    for o in [Orientation::Deg90, Orientation::Deg180, Orientation::Deg270] {
        m.set_orientation(o);
        m.set_orientation(Orientation::Deg0);
        assert!(!m.column_address_order);
        assert!(!m.page_address_order);
        assert!(!m.row_column_swap);
        assert!(m.bgr);
        assert!(m.flip_horizontal);
        assert!(m.vertical_refresh_order);
        assert!(!m.flip_vertical);
        assert!(!m.horizontal_refresh_order);
    }
}

#[test]
fn address_range_is_big_endian_start_then_end() {
    let r = AddressRange::new(0x0102, 0x0304);
    assert_eq!(*r.as_bytes(), [0x01, 0x02, 0x03, 0x04]);
    // The offset form encodes start + offset to start + offset + count - 1.
    let r = AddressRange::new_with_offset(10, 250, 26);
    assert_eq!(*r.as_bytes(), [0x00, 36, 0x01, 0x13]);
}

#[test]
fn address_window_params_are_offset_and_big_endian() {
    assert_eq!(address_window_param_u8(0, 240, 80), [0x00, 80, 0x01, 0x40]);
    assert_eq!(address_window_param_u8(5, 5, 0), [0x00, 0x05, 0x00, 0x05]);
}

#[test]
fn pixel_format_nibbles() {
    assert_eq!(PixelFormat::dbi_only(PixelFormatType::Bits16).0, 0x05);
    assert_eq!(PixelFormat::dpi_only(PixelFormatType::Bits16).0, 0x50);
    assert_eq!(PixelFormat::dbi_and_dpi(PixelFormatType::Bits16).0, 0x55);
    assert_eq!(PixelFormat::dbi_and_dpi(PixelFormatType::Bits18).0, 0x66);
    assert_eq!(PixelFormat::dbi_and_dpi(PixelFormatType::Bits24).0, 0x77);
}

#[test]
fn pixel_format_from_bit_count() {
    assert_eq!(PixelFormatType::from_bit_count(16), Some(PixelFormatType::Bits16));
    assert_eq!(PixelFormatType::from_bit_count(18), Some(PixelFormatType::Bits18));
    assert_eq!(PixelFormatType::from_bit_count(24), Some(PixelFormatType::Bits24));
    assert_eq!(PixelFormatType::from_bit_count(8), Some(PixelFormatType::Bits8));
    assert_eq!(PixelFormatType::from_bit_count(1), None);
    assert_eq!(PixelFormatType::from_bit_count(2), None);
    assert_eq!(PixelFormatType::from_bit_count(4), None);
}

#[test]
fn gamma_curves_are_one_hot() {
    assert_eq!(GammaSet::gc(0), Some(GammaSet::GC0));
    assert_eq!(GammaSet::gc(3), Some(GammaSet::GC3));
    assert_eq!(GammaSet::gc(4), None);
    assert_eq!(GammaSet::GC0.code(), 0b1);
    assert_eq!(GammaSet::GC1.code(), 0b10);
    assert_eq!(GammaSet::GC2.code(), 0b100);
    assert_eq!(GammaSet::GC3.code(), 0b1000);
}
