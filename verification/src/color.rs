//! Color formats and solid-color descriptors.

use vstd::prelude::*;

use embedded_graphics_core::pixelcolor::{Rgb565, Rgb666, Rgb888, RgbColor};

verus! {

/// Color format used by the display.
#[derive(Debug, Clone, Copy, PartialEq, Eq)]
pub enum ColorFormat {
    /// 1-bit per pixel (Monochrome).
    Binary,
    /// 2-bit grayscale.
    Gray2,
    /// 4-bit grayscale.
    Gray4,
    /// 8-bit grayscale.
    Gray8,
    /// 16-bit RGB565.
    RGB565,
    /// 18-bit RGB666.
    RGB666,
    /// 24-bit RGB888.
    RGB888,
}

impl ColorFormat {
    /// Number of bits per pixel for this format.
    pub open spec fn spec_size_bits(self) -> u8 {
        match self {
            ColorFormat::Binary => 1,
            ColorFormat::Gray2 => 2,
            ColorFormat::Gray4 => 4,
            ColorFormat::Gray8 => 8,
            ColorFormat::RGB565 => 16,
            ColorFormat::RGB666 => 18,
            ColorFormat::RGB888 => 24,
        }
    }

    /// Number of bytes each pixel occupies on the wire in this format.
    pub open spec fn spec_size_bytes(self) -> u8 {
        match self {
            ColorFormat::Binary => 1,
            ColorFormat::Gray2 => 1,
            ColorFormat::Gray4 => 1,
            ColorFormat::Gray8 => 1,
            ColorFormat::RGB565 => 2,
            ColorFormat::RGB666 => 3,
            ColorFormat::RGB888 => 3,
        }
    }

    /// Returns the number of bits per pixel for this format.
    pub fn size_bits(self) -> (r: u8)
        ensures
            r == self.spec_size_bits(),
    {
        match self {
            ColorFormat::Binary => 1,
            ColorFormat::Gray2 => 2,
            ColorFormat::Gray4 => 4,
            ColorFormat::Gray8 => 8,
            ColorFormat::RGB565 => 16,
            ColorFormat::RGB666 => 18,
            ColorFormat::RGB888 => 24,
        }
    }

    /// Returns the number of bytes per pixel for this format.
    pub fn size_bytes(self) -> (r: u8)
        ensures
            r == self.spec_size_bytes(),
            1 <= r <= 3,
    {
        match self {
            ColorFormat::Binary => 1,
            ColorFormat::Gray2 => 1,
            ColorFormat::Gray4 => 1,
            ColorFormat::Gray8 => 1,
            ColorFormat::RGB565 => 2,
            ColorFormat::RGB666 => 3,
            ColorFormat::RGB888 => 3,
        }
    }
}

/// The logical value of a solid color, kept beside its wire encoding.
#[derive(Debug, Clone, Copy, PartialEq, Eq)]
pub enum ColorType {
    /// A grayscale intensity.
    Gray(u8),
    /// Red, green and blue components.
    Rgb(u8, u8, u8),
}

/// A solid color together with its wire encoding.
///
/// `raw[0 .. format.size_bytes()]` is what goes on the wire for one pixel.
#[derive(Debug, Clone, Copy, PartialEq, Eq)]
pub struct SolidColor {
    /// Wire encoding, big-endian, padded with zeroes past the format's size.
    pub raw: [u8; 3],
    /// The pixel format the encoding belongs to.
    pub format: ColorFormat,
    /// The logical color value.
    pub color: ColorType,
}

impl SolidColor {
    /// The bytes this color occupies on the wire for a single pixel.
    pub open spec fn spec_wire_bytes(self) -> Seq<u8> {
        self.raw@.subrange(0, self.format.spec_size_bytes() as int)
    }

    /// Returns the wire encoding of one pixel of this color.
    pub fn wire_bytes(&self) -> (r: Vec<u8>)
        ensures
            r@ == self.spec_wire_bytes(),
            1 <= r@.len() <= 3,
    {
        let n = self.format.size_bytes();
        let mut out: Vec<u8> = Vec::new();
        out.push(self.raw[0]);
        if n >= 2 {
            out.push(self.raw[1]);
        }
        if n >= 3 {
            out.push(self.raw[2]);
        }
        proof {
            assert(out@ =~= self.spec_wire_bytes());
        }
        out
    }
}

#[verifier::external_type_specification]
#[verifier::external_body]
pub struct ExRgb565(Rgb565);

#[verifier::external_type_specification]
#[verifier::external_body]
pub struct ExRgb666(Rgb666);

#[verifier::external_type_specification]
#[verifier::external_body]
pub struct ExRgb888(Rgb888);

/// Relies on embedded-graphics-core's `RgbColor` accessors for `Rgb565`:
/// the red, green and blue channels are 5, 6 and 5 bits wide, so the
/// returned components are below 32, 64 and 32.
#[verifier::external_body]
fn rgb565_components(c: Rgb565) -> (r: (u8, u8, u8))
    ensures
        r.0 < 32,
        r.1 < 64,
        r.2 < 32,
{
    (c.r(), c.g(), c.b())
}

/// Relies on embedded-graphics-core's `RgbColor` accessors for `Rgb666`:
/// each channel is 6 bits wide, so each component is below 64.
#[verifier::external_body]
fn rgb666_components(c: Rgb666) -> (r: (u8, u8, u8))
    ensures
        r.0 < 64,
        r.1 < 64,
        r.2 < 64,
{
    (c.r(), c.g(), c.b())
}

/// Relies on embedded-graphics-core's `RgbColor` accessors for `Rgb888`:
/// each channel is a full byte.
#[verifier::external_body]
fn rgb888_components(c: Rgb888) -> (r: (u8, u8, u8))
{
    (c.r(), c.g(), c.b())
}

/// The big-endian RGB565 wire encoding of 5-6-5 components, zero padded.
pub open spec fn rgb565_raw(r: u8, g: u8, b: u8) -> Seq<u8> {
    seq![(r * 8 + g / 8) as u8, ((g % 8) * 32 + b) as u8, 0u8]
}

/// The big-endian RGB666 wire encoding of 6-6-6 components.
pub open spec fn rgb666_raw(r: u8, g: u8, b: u8) -> Seq<u8> {
    seq![(r / 16) as u8, ((r % 16) * 16 + g / 4) as u8, ((g % 4) * 64 + b) as u8]
}

/// The big-endian RGB888 wire encoding.
pub open spec fn rgb888_raw(r: u8, g: u8, b: u8) -> Seq<u8> {
    seq![r, g, b]
}

impl SolidColor {
    /// Packs 5-6-5 components into an RGB565 solid color.
    pub fn new_rgb565(r: u8, g: u8, b: u8) -> (s: SolidColor)
        requires
            r < 32,
            g < 64,
            b < 32,
        ensures
            s.format == ColorFormat::RGB565,
            s.color == ColorType::Rgb(r, g, b),
            s.raw@ == rgb565_raw(r, g, b),
    {
        let raw = [r * 8 + g / 8, (g % 8) * 32 + b, 0u8];
        proof {
            assert(raw@ =~= rgb565_raw(r, g, b));
        }
        SolidColor { raw, format: ColorFormat::RGB565, color: ColorType::Rgb(r, g, b) }
    }

    /// Packs 6-6-6 components into an RGB666 solid color.
    pub fn new_rgb666(r: u8, g: u8, b: u8) -> (s: SolidColor)
        requires
            r < 64,
            g < 64,
            b < 64,
        ensures
            s.format == ColorFormat::RGB666,
            s.color == ColorType::Rgb(r, g, b),
            s.raw@ == rgb666_raw(r, g, b),
    {
        let raw = [r / 16, (r % 16) * 16 + g / 4, (g % 4) * 64 + b];
        proof {
            assert(raw@ =~= rgb666_raw(r, g, b));
        }
        SolidColor { raw, format: ColorFormat::RGB666, color: ColorType::Rgb(r, g, b) }
    }

    /// Packs full-byte components into an RGB888 solid color.
    pub fn new_rgb888(r: u8, g: u8, b: u8) -> (s: SolidColor)
        ensures
            s.format == ColorFormat::RGB888,
            s.color == ColorType::Rgb(r, g, b),
            s.raw@ == rgb888_raw(r, g, b),
    {
        let raw = [r, g, b];
        proof {
            assert(raw@ =~= rgb888_raw(r, g, b));
        }
        SolidColor { raw, format: ColorFormat::RGB888, color: ColorType::Rgb(r, g, b) }
    }

    /// Converts an embedded-graphics RGB565 color: the wire bytes encode the
    /// color's own channels.
    pub fn from_rgb565(c: Rgb565) -> (s: SolidColor)
        ensures
            s.format == ColorFormat::RGB565,
            (s.color matches ColorType::Rgb(r, g, b) && r < 32 && g < 64 && b < 32 && s.raw@
                == rgb565_raw(r, g, b)),
    {
        let (r, g, b) = rgb565_components(c);
        SolidColor::new_rgb565(r, g, b)
    }

    /// Converts an embedded-graphics RGB666 color: the wire bytes encode the
    /// color's own channels.
    pub fn from_rgb666(c: Rgb666) -> (s: SolidColor)
        ensures
            s.format == ColorFormat::RGB666,
            (s.color matches ColorType::Rgb(r, g, b) && r < 64 && g < 64 && b < 64 && s.raw@
                == rgb666_raw(r, g, b)),
    {
        let (r, g, b) = rgb666_components(c);
        SolidColor::new_rgb666(r, g, b)
    }

    /// Converts an embedded-graphics RGB888 color: the wire bytes encode the
    /// color's own channels.
    pub fn from_rgb888(c: Rgb888) -> (s: SolidColor)
        ensures
            s.format == ColorFormat::RGB888,
            (s.color matches ColorType::Rgb(r, g, b) && s.raw@ == rgb888_raw(r, g, b)),
    {
        let (r, g, b) = rgb888_components(c);
        SolidColor::new_rgb888(r, g, b)
    }
}

} // verus!
