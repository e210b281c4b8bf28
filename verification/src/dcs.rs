//! MIPI Display Command Set: opcodes and the register value types the
//! command layer assembles.

use vstd::prelude::*;

use crate::panel::Orientation;

verus! {

/// No Operation. Parameters: 0.
pub const NOP: u8 = 0x00;

/// Software Reset. Parameters: 0.
pub const SOFT_RESET: u8 = 0x01;

/// Get the current power mode. Parameters: 1.
pub const GET_POWER_MODE: u8 = 0x0a;

/// Get the data order for transfers. Parameters: 1.
pub const GET_ADDRESS_MODE: u8 = 0x0b;

/// Get the current pixel format. Parameters: 1.
pub const GET_PIXEL_FORMAT: u8 = 0x0c;

/// Power for the display panel is off. Parameters: 0.
pub const ENTER_SLEEP_MODE: u8 = 0x10;

/// Power for the display panel is on. Parameters: 0.
pub const EXIT_SLEEP_MODE: u8 = 0x11;

/// Part of the display area is used for image display. Parameters: 0.
pub const ENTER_PARTIAL_MODE: u8 = 0x12;

/// The whole display area is used for image display. Parameters: 0.
pub const ENTER_NORMAL_MODE: u8 = 0x13;

/// Displayed image colors are not inverted. Parameters: 0.
pub const EXIT_INVERT_MODE: u8 = 0x20;

/// Displayed image colors are inverted. Parameters: 0.
pub const ENTER_INVERT_MODE: u8 = 0x21;

/// Selects the gamma curve used by the display device. Parameters: 1.
pub const SET_GAMMA_CURVE: u8 = 0x26;

/// Blanks the display device. Parameters: 0.
pub const SET_DISPLAY_OFF: u8 = 0x28;

/// Show the image on the display device. Parameters: 0.
pub const SET_DISPLAY_ON: u8 = 0x29;

/// Set the column extent. Parameters: 4.
pub const SET_COLUMN_ADDRESS: u8 = 0x2a;

/// Set the page extent. Parameters: 4.
pub const SET_PAGE_ADDRESS: u8 = 0x2b;

/// Transfer image data from the host to the peripheral, starting at the
/// location given by the column and page addresses. Parameters: variable.
pub const WRITE_MEMORY_START: u8 = 0x2c;

/// Transfer image data from the peripheral to the host. Parameters: variable.
pub const READ_MEMORY_START: u8 = 0x2e;

/// Synchronization information is not sent from the display module.
/// Parameters: 0.
pub const SET_TEAR_OFF: u8 = 0x34;

/// Synchronization information is sent at the start of VFP. Parameters: 1.
pub const SET_TEAR_ON: u8 = 0x35;

/// Set the data order for transfers from the host to the display module and
/// from the frame memory to the display device. Parameters: 1.
pub const SET_ADDRESS_MODE: u8 = 0x36;

/// Full color depth is used on the display panel. Parameters: 0.
pub const EXIT_IDLE_MODE: u8 = 0x38;

/// Reduced color depth is used on the display panel. Parameters: 0.
pub const ENTER_IDLE_MODE: u8 = 0x39;

/// Defines how many bits per pixel are used in the interface. Parameters: 1.
pub const SET_PIXEL_FORMAT: u8 = 0x3a;

/// Transfer image data continuing from the last written location.
/// Parameters: variable.
pub const WRITE_MEMORY_CONTINUE: u8 = 0x3c;

/// Read image data continuing after the last read. Parameters: variable.
pub const READ_MEMORY_CONTINUE: u8 = 0x3e;

/// The two big-endian bytes of a 16-bit value.
pub open spec fn be16(v: u16) -> Seq<u8> {
    seq![(v / 256) as u8, (v % 256) as u8]
}

/// Gamma curve selection (command 0x26).
#[derive(Debug, Clone, Copy, PartialEq, Eq)]
pub enum GammaSet {
    /// Gamma curve 1 (G1.0).
    GC0,
    /// Gamma curve 2 (G1.8).
    GC1,
    /// Gamma curve 3 (G2.2).
    GC2,
    /// Gamma curve 4 (G2.5).
    GC3,
}

impl GammaSet {
    /// The parameter byte of this curve: a one-hot encoding.
    pub open spec fn spec_code(self) -> u8 {
        match self {
            GammaSet::GC0 => 1,
            GammaSet::GC1 => 2,
            GammaSet::GC2 => 4,
            GammaSet::GC3 => 8,
        }
    }

    /// Returns the parameter byte of this curve.
    pub fn code(self) -> (r: u8)
        ensures
            r == self.spec_code(),
    {
        match self {
            GammaSet::GC0 => 1,
            GammaSet::GC1 => 2,
            GammaSet::GC2 => 4,
            GammaSet::GC3 => 8,
        }
    }

    /// Creates a GammaSet from a generic curve index, `0` to `3`.
    pub fn gc(n: u8) -> (r: Option<GammaSet>)
        ensures
            n == 0 ==> r == Some(GammaSet::GC0),
            n == 1 ==> r == Some(GammaSet::GC1),
            n == 2 ==> r == Some(GammaSet::GC2),
            n == 3 ==> r == Some(GammaSet::GC3),
            n > 3 ==> r is None,
    {
        match n {
            0 => Some(GammaSet::GC0),
            1 => Some(GammaSet::GC1),
            2 => Some(GammaSet::GC2),
            3 => Some(GammaSet::GC3),
            _ => None,
        }
    }
}

/// Pixel format selector for command 0x3A.
#[derive(Debug, Clone, Copy, PartialEq, Eq)]
pub enum PixelFormatType {
    /// 3 bits per pixel.
    Bits3,
    /// 8 bits per pixel.
    Bits8,
    /// 12 bits per pixel.
    Bits12,
    /// 16 bits per pixel.
    Bits16,
    /// 18 bits per pixel.
    Bits18,
    /// 24 bits per pixel.
    Bits24,
}

impl PixelFormatType {
    /// The three-bit register code of this format.
    pub open spec fn spec_code(self) -> u8 {
        match self {
            PixelFormatType::Bits3 => 0x1,
            PixelFormatType::Bits8 => 0x2,
            PixelFormatType::Bits12 => 0x3,
            PixelFormatType::Bits16 => 0x5,
            PixelFormatType::Bits18 => 0x6,
            PixelFormatType::Bits24 => 0x7,
        }
    }

    /// Returns the three-bit register code of this format.
    pub fn code(self) -> (r: u8)
        ensures
            r == self.spec_code(),
            r <= 7,
    {
        match self {
            PixelFormatType::Bits3 => 0x1,
            PixelFormatType::Bits8 => 0x2,
            PixelFormatType::Bits12 => 0x3,
            PixelFormatType::Bits16 => 0x5,
            PixelFormatType::Bits18 => 0x6,
            PixelFormatType::Bits24 => 0x7,
        }
    }

    /// The format for a raw bit count, where one exists.
    pub open spec fn spec_from_bit_count(bit_count: u8) -> Option<PixelFormatType> {
        match bit_count {
            3 => Some(PixelFormatType::Bits3),
            8 => Some(PixelFormatType::Bits8),
            12 => Some(PixelFormatType::Bits12),
            16 => Some(PixelFormatType::Bits16),
            18 => Some(PixelFormatType::Bits18),
            24 => Some(PixelFormatType::Bits24),
            _ => None,
        }
    }

    /// Converts a raw bit count (e.g. 16) into the corresponding variant;
    /// `None` for a bit count the interface cannot carry.
    pub fn from_bit_count(bit_count: u8) -> (r: Option<PixelFormatType>)
        ensures
            r == Self::spec_from_bit_count(bit_count),
    {
        match bit_count {
            3 => Some(PixelFormatType::Bits3),
            8 => Some(PixelFormatType::Bits8),
            12 => Some(PixelFormatType::Bits12),
            16 => Some(PixelFormatType::Bits16),
            18 => Some(PixelFormatType::Bits18),
            24 => Some(PixelFormatType::Bits24),
            _ => None,
        }
    }
}

/// The parameter byte of the pixel-format command (0x3A): the DPI format in
/// the high nibble, the DBI format in the low nibble.
#[derive(Debug, Clone, Copy, PartialEq, Eq)]
pub struct PixelFormat(pub u8);

impl PixelFormat {
    /// A format for the display bus interface (DBI) only.
    pub fn dbi_only(value: PixelFormatType) -> (r: PixelFormat)
        ensures
            r.0 == value.spec_code(),
    {
        PixelFormat(value.code())
    }

    /// A format for the display pixel interface (DPI) only.
    pub fn dpi_only(value: PixelFormatType) -> (r: PixelFormat)
        ensures
            r.0 == value.spec_code() * 16,
    {
        PixelFormat(value.code() * 16)
    }

    /// The same format on both interfaces.
    pub fn dbi_and_dpi(value: PixelFormatType) -> (r: PixelFormat)
        ensures
            r.0 == value.spec_code() * 16 + value.spec_code(),
    {
        PixelFormat(value.code() * 16 + value.code())
    }
}

/// Memory Data Access Control (MADCTL) state, mirrored bit by bit
/// (command 0x36).
///
/// This controls how the frame memory is accessed by the display controller,
/// handling rotation, mirroring, RGB/BGR swapping and flip modes. The driver
/// keeps a value of this type as the authoritative shadow of the hardware's
/// write-only register.
#[derive(Debug, Clone, Copy, PartialEq, Eq, Default)]
pub struct AddressMode {
    /// B0 (GS) — flip the displayed image top to bottom.
    pub flip_vertical: bool,
    /// B1 (SS) — flip the displayed image left to right.
    pub flip_horizontal: bool,
    /// B2 (MH) — horizontal line data latch order, right to left when set.
    pub horizontal_refresh_order: bool,
    /// B3 (BGR) — latch color data as BGR instead of RGB.
    pub bgr: bool,
    /// B4 (ML) — vertical line refresh order, bottom to top when set.
    pub vertical_refresh_order: bool,
    /// B5 (MV) — exchange row and column addresses (X/Y swap).
    pub row_column_swap: bool,
    /// B6 (MX) — column address order, right to left when set
    /// (horizontal mirror).
    pub column_address_order: bool,
    /// B7 (MY) — page address order, bottom to top when set
    /// (vertical mirror).
    pub page_address_order: bool,
}

impl AddressMode {
    /// The register byte this state encodes to.
    pub open spec fn spec_bits(self) -> u8 {
        (((if self.flip_vertical {
            1int
        } else {
            0int
        }) + (if self.flip_horizontal {
            2int
        } else {
            0int
        }) + (if self.horizontal_refresh_order {
            4int
        } else {
            0int
        }) + (if self.bgr {
            8int
        } else {
            0int
        }) + (if self.vertical_refresh_order {
            16int
        } else {
            0int
        }) + (if self.row_column_swap {
            32int
        } else {
            0int
        }) + (if self.column_address_order {
            64int
        } else {
            0int
        }) + (if self.page_address_order {
            128int
        } else {
            0int
        })) as u8)
    }

    /// Returns the register byte this state encodes to.
    pub fn bits(&self) -> (r: u8)
        ensures
            r == self.spec_bits(),
    {
        (if self.flip_vertical {
            1u8
        } else {
            0u8
        }) + (if self.flip_horizontal {
            2u8
        } else {
            0u8
        }) + (if self.horizontal_refresh_order {
            4u8
        } else {
            0u8
        }) + (if self.bgr {
            8u8
        } else {
            0u8
        }) + (if self.vertical_refresh_order {
            16u8
        } else {
            0u8
        }) + (if self.row_column_swap {
            32u8
        } else {
            0u8
        }) + (if self.column_address_order {
            64u8
        } else {
            0u8
        }) + (if self.page_address_order {
            128u8
        } else {
            0u8
        })
    }

    /// A mode with every flag clear.
    pub fn empty() -> (r: AddressMode)
        ensures
            r == AddressMode::spec_empty(),
    {
        AddressMode {
            flip_vertical: false,
            flip_horizontal: false,
            horizontal_refresh_order: false,
            bgr: false,
            vertical_refresh_order: false,
            row_column_swap: false,
            column_address_order: false,
            page_address_order: false,
        }
    }

    /// A mode with every flag clear.
    pub open spec fn spec_empty() -> AddressMode {
        AddressMode {
            flip_vertical: false,
            flip_horizontal: false,
            horizontal_refresh_order: false,
            bgr: false,
            vertical_refresh_order: false,
            row_column_swap: false,
            column_address_order: false,
            page_address_order: false,
        }
    }

    /// Creates a simplified mode for common rotation and color scenarios:
    /// only the mirror, swap and BGR flags are set.
    pub fn new_simple(mx: bool, my: bool, mv: bool, bgr: bool) -> (r: AddressMode)
        ensures
            r == (AddressMode {
                column_address_order: mx,
                page_address_order: my,
                row_column_swap: mv,
                bgr,
                ..AddressMode::spec_empty()
            }),
    {
        AddressMode {
            column_address_order: mx,
            page_address_order: my,
            row_column_swap: mv,
            bgr,
            flip_vertical: false,
            flip_horizontal: false,
            horizontal_refresh_order: false,
            vertical_refresh_order: false,
        }
    }

    /// Returns the encoded register byte as a one-byte parameter buffer.
    pub fn as_bytes(&self) -> (r: [u8; 1])
        ensures
            r@ == seq![self.spec_bits()],
    {
        let r = [self.bits()];
        proof {
            assert(r@ =~= seq![self.spec_bits()]);
        }
        r
    }

    /// Whether row/column swap is active, so width and height are exchanged.
    pub fn is_xy_swapped(&self) -> (r: bool)
        ensures
            r == self.row_column_swap,
    {
        self.row_column_swap
    }

    /// The swap and mirror flags that encode an orientation: `(mx, my, mv)`.
    pub open spec fn spec_orientation_flags(orientation: Orientation) -> (bool, bool, bool) {
        match orientation {
            Orientation::Deg0 => (false, false, false),
            Orientation::Deg90 => (true, false, true),
            Orientation::Deg180 => (true, true, false),
            Orientation::Deg270 => (false, true, true),
        }
    }

    /// The mode holding exactly an orientation's swap and mirror flags.
    pub fn from_orientation(orientation: Orientation) -> (r: AddressMode)
        ensures
            r == (AddressMode {
                column_address_order: AddressMode::spec_orientation_flags(orientation).0,
                page_address_order: AddressMode::spec_orientation_flags(orientation).1,
                row_column_swap: AddressMode::spec_orientation_flags(orientation).2,
                ..AddressMode::spec_empty()
            }),
    {
        match orientation {
            Orientation::Deg0 => AddressMode::new_simple(false, false, false, false),
            Orientation::Deg90 => AddressMode::new_simple(true, false, true, false),
            Orientation::Deg180 => AddressMode::new_simple(true, true, false, false),
            Orientation::Deg270 => AddressMode::new_simple(false, true, true, false),
        }
    }

    /// The orientation the swap and mirror flags encode, if they encode one.
    ///
    /// This inverts [`AddressMode::set_orientation`]: only the three
    /// orientation flags are read, every other flag is ignored.
    pub fn orientation(&self) -> (r: Option<Orientation>)
        ensures
            r == self.spec_orientation(),
    {
        let mx = self.column_address_order;
        let my = self.page_address_order;
        let mv = self.row_column_swap;
        if !mx && !my && !mv {
            Some(Orientation::Deg0)
        } else if mx && !my && mv {
            Some(Orientation::Deg90)
        } else if mx && my && !mv {
            Some(Orientation::Deg180)
        } else if !mx && my && mv {
            Some(Orientation::Deg270)
        } else {
            None
        }
    }

    /// The orientation the swap and mirror flags encode, if any.
    pub open spec fn spec_orientation(self) -> Option<Orientation> {
        let mx = self.column_address_order;
        let my = self.page_address_order;
        let mv = self.row_column_swap;
        if !mx && !my && !mv {
            Some(Orientation::Deg0)
        } else if mx && !my && mv {
            Some(Orientation::Deg90)
        } else if mx && my && !mv {
            Some(Orientation::Deg180)
        } else if !mx && my && mv {
            Some(Orientation::Deg270)
        } else {
            None
        }
    }

    /// The mode after applying an orientation: the three orientation flags
    /// come from the orientation, every other flag keeps its value.
    pub open spec fn spec_set_orientation(self, orientation: Orientation) -> AddressMode {
        AddressMode {
            column_address_order: AddressMode::spec_orientation_flags(orientation).0,
            page_address_order: AddressMode::spec_orientation_flags(orientation).1,
            row_column_swap: AddressMode::spec_orientation_flags(orientation).2,
            ..self
        }
    }

    /// Overwrites only the three orientation flags (swap and both mirrors);
    /// BGR, flip and refresh-order flags survive unchanged.
    pub fn set_orientation(&mut self, orientation: Orientation)
        ensures
            *final(self) == old(self).spec_set_orientation(orientation),
            final(self).bgr == old(self).bgr,
            final(self).flip_vertical == old(self).flip_vertical,
            final(self).flip_horizontal == old(self).flip_horizontal,
            final(self).horizontal_refresh_order == old(self).horizontal_refresh_order,
            final(self).vertical_refresh_order == old(self).vertical_refresh_order,
    {
        let flags = AddressMode::from_orientation(orientation);
        self.column_address_order = flags.column_address_order;
        self.page_address_order = flags.page_address_order;
        self.row_column_swap = flags.row_column_swap;
    }
}

/// Orientation flags decode back to the orientation they encode.
///
/// Together with the ensures of [`AddressMode::set_orientation`] this states
/// the round trip: applying an orientation and reading it back yields the
/// same orientation, whatever the other flags hold.
pub proof fn lemma_orientation_roundtrip(mode: AddressMode, orientation: Orientation)
    ensures
        mode.spec_set_orientation(orientation).spec_orientation() == Some(orientation),
{
}

/// The four-byte parameter block of the column and page address commands:
/// big-endian start, then big-endian end.
#[derive(Debug, Clone, Copy, PartialEq, Eq)]
pub struct AddressRange(pub [u8; 4]);

impl AddressRange {
    /// Encodes a start/end pair.
    pub fn new(start: u16, end: u16) -> (r: AddressRange)
        ensures
            r.0@ == be16(start) + be16(end),
    {
        let r = AddressRange(
            [(start / 256) as u8, (start % 256) as u8, (end / 256) as u8, (end % 256) as u8],
        );
        proof {
            assert(r.0@ =~= be16(start) + be16(end));
        }
        r
    }

    /// Encodes the range of `count` cells starting at `start`, shifted by a
    /// panel's physical offset: from `start + offset` to
    /// `start + offset + count - 1` inclusive.
    pub fn new_with_offset(start: u16, end: u16, offset: u16) -> (r: AddressRange)
        requires
            start + offset <= u16::MAX,
            1 <= end + offset,
            end + offset - 1 <= u16::MAX,
        ensures
            r.0@ == be16((start + offset) as u16) + be16((end + offset - 1) as u16),
    {
        let s = start + offset;
        let e = if offset > 0 {
            end + (offset - 1)
        } else {
            end - 1
        };
        let r = AddressRange([(s / 256) as u8, (s % 256) as u8, (e / 256) as u8, (e % 256) as u8]);
        proof {
            assert(r.0@ =~= be16(s) + be16(e));
        }
        r
    }

    /// The parameter bytes.
    pub fn as_bytes(&self) -> (r: &[u8; 4])
        ensures
            r@ == self.0@,
    {
        &self.0
    }
}

/// The four-byte parameter block of an address-window command for the range
/// `start + offset` to `end + offset` inclusive: big-endian start, then
/// big-endian end.
pub fn address_window_param_u8(start: u16, end: u16, offset: u16) -> (r: [u8; 4])
    requires
        start + offset <= u16::MAX,
        end + offset <= u16::MAX,
    ensures
        r@ == be16((start + offset) as u16) + be16((end + offset) as u16),
{
    let s = start + offset;
    let e = end + offset;
    let r = [(s / 256) as u8, (s % 256) as u8, (e / 256) as u8, (e % 256) as u8];
    proof {
        assert(r@ =~= be16(s) + be16(e));
    }
    r
}

} // verus!
