//! The generic MIPI-DCS command layer.
//!
//! [`GenericMipidcs`] maps abstract operations — set a window, set the
//! orientation, set the color format, sleep and wake, invert — onto MIPI-DCS
//! register writes over any [`DisplayBus`], and keeps the address-mode
//! register mirrored in driver state: on most controllers that register is
//! write-only, so the shadow is authoritative.

use vstd::prelude::*;

use crate::DisplayError;
use crate::area::Area;
use crate::bus::{BusHardwareFill, BusTx, DisplayBus, is_fill_chunks, is_pixel_write};
use crate::color::{ColorFormat, SolidColor};
use crate::dcs::{
    AddressMode, AddressRange, ENTER_INVERT_MODE, ENTER_SLEEP_MODE, EXIT_INVERT_MODE,
    EXIT_SLEEP_MODE, PixelFormat, PixelFormatType, SET_ADDRESS_MODE, SET_COLUMN_ADDRESS,
    SET_DISPLAY_OFF, SET_DISPLAY_ON, SET_PAGE_ADDRESS, SET_PIXEL_FORMAT, SOFT_RESET,
    WRITE_MEMORY_START, address_window_param_u8, be16,
};
use crate::panel::initseq::{HostAction, HostActionV, actions_view};
use crate::panel::reset::LCDResetOption;
use crate::panel::{Orientation, PanelSpec};

verus! {

/// Generic MIPI DCS display driver.
///
/// It owns the reset strategy, the per-model panel data, and the live
/// address-mode shadow.
pub struct GenericMipidcs<RST> {
    /// The reset strategy, with its pin where one is used.
    pub reset_pin: LCDResetOption<RST>,
    /// The constant data of the panel model driven.
    pub panel_spec: PanelSpec,
    /// The current address mode (MADCTL) shadow state.
    pub address_mode: AddressMode,
}

impl<RST> GenericMipidcs<RST> {
    /// The driver state is well formed when its panel data is.
    pub open spec fn wf(self) -> bool {
        self.panel_spec.wf()
    }

    /// Creates a new generic MIPI DCS driver.
    pub fn new(reset_pin: LCDResetOption<RST>, panel_spec: PanelSpec, address_mode: AddressMode) -> (r:
        GenericMipidcs<RST>)
        requires
            panel_spec.wf(),
        ensures
            r.reset_pin == reset_pin,
            r.panel_spec == panel_spec,
            r.address_mode == address_mode,
            r.wf(),
    {
        GenericMipidcs { reset_pin, panel_spec, address_mode }
    }

    /// The logical width: physical width, or physical height while
    /// row/column swap is active.
    pub open spec fn spec_width(self) -> u16 {
        if self.address_mode.row_column_swap {
            self.panel_spec.physical_height
        } else {
            self.panel_spec.physical_width
        }
    }

    /// The logical height: physical height, or physical width while
    /// row/column swap is active.
    pub open spec fn spec_height(self) -> u16 {
        if self.address_mode.row_column_swap {
            self.panel_spec.physical_width
        } else {
            self.panel_spec.physical_height
        }
    }

    /// Returns the display width, accounting for orientation.
    pub fn width(&self) -> (r: u16)
        ensures
            r == self.spec_width(),
    {
        if self.address_mode.row_column_swap {
            self.panel_spec.physical_height
        } else {
            self.panel_spec.physical_width
        }
    }

    /// Returns the display height, accounting for orientation.
    pub fn height(&self) -> (r: u16)
        ensures
            r == self.spec_height(),
    {
        if self.address_mode.row_column_swap {
            self.panel_spec.physical_width
        } else {
            self.panel_spec.physical_height
        }
    }

    /// Returns the display size `(width, height)`, accounting for
    /// orientation.
    pub fn size(&self) -> (r: (u16, u16))
        ensures
            r == (self.spec_width(), self.spec_height()),
    {
        (self.width(), self.height())
    }

    /// Software reset of the display controller (command 0x01).
    pub fn soft_reset<B: DisplayBus>(&self, bus: &mut B) -> (r: Result<(), B::Error>)
        requires
            B::spec_cmd_ok(seq![SOFT_RESET]),
        ensures
            r is Ok ==> final(bus).log() == old(bus).log().push(
                BusTx::Cmd { cmd: seq![SOFT_RESET] },
            ),
            r is Err ==> old(bus).log().is_prefix_of(final(bus).log()),
    {
        let cmd = [SOFT_RESET];
        proof {
            assert(cmd@ =~= seq![SOFT_RESET]);
        }
        bus.write_cmd(cmd.as_slice())
    }

    /// Enter sleep mode (command 0x10).
    pub fn enter_sleep_mode<B: DisplayBus>(&self, bus: &mut B) -> (r: Result<(), B::Error>)
        requires
            B::spec_cmd_ok(seq![ENTER_SLEEP_MODE]),
        ensures
            r is Ok ==> final(bus).log() == old(bus).log().push(
                BusTx::Cmd { cmd: seq![ENTER_SLEEP_MODE] },
            ),
            r is Err ==> old(bus).log().is_prefix_of(final(bus).log()),
    {
        let cmd = [ENTER_SLEEP_MODE];
        proof {
            assert(cmd@ =~= seq![ENTER_SLEEP_MODE]);
        }
        bus.write_cmd(cmd.as_slice())
    }

    /// Exit sleep mode (command 0x11).
    pub fn exit_sleep_mode<B: DisplayBus>(&self, bus: &mut B) -> (r: Result<(), B::Error>)
        requires
            B::spec_cmd_ok(seq![EXIT_SLEEP_MODE]),
        ensures
            r is Ok ==> final(bus).log() == old(bus).log().push(
                BusTx::Cmd { cmd: seq![EXIT_SLEEP_MODE] },
            ),
            r is Err ==> old(bus).log().is_prefix_of(final(bus).log()),
    {
        let cmd = [EXIT_SLEEP_MODE];
        proof {
            assert(cmd@ =~= seq![EXIT_SLEEP_MODE]);
        }
        bus.write_cmd(cmd.as_slice())
    }

    /// Turn the display panel off (command 0x28).
    pub fn set_display_off<B: DisplayBus>(&self, bus: &mut B) -> (r: Result<(), B::Error>)
        requires
            B::spec_cmd_ok(seq![SET_DISPLAY_OFF]),
        ensures
            r is Ok ==> final(bus).log() == old(bus).log().push(
                BusTx::Cmd { cmd: seq![SET_DISPLAY_OFF] },
            ),
            r is Err ==> old(bus).log().is_prefix_of(final(bus).log()),
    {
        let cmd = [SET_DISPLAY_OFF];
        proof {
            assert(cmd@ =~= seq![SET_DISPLAY_OFF]);
        }
        bus.write_cmd(cmd.as_slice())
    }

    /// Turn the display panel on (command 0x29).
    pub fn set_display_on<B: DisplayBus>(&self, bus: &mut B) -> (r: Result<(), B::Error>)
        requires
            B::spec_cmd_ok(seq![SET_DISPLAY_ON]),
        ensures
            r is Ok ==> final(bus).log() == old(bus).log().push(
                BusTx::Cmd { cmd: seq![SET_DISPLAY_ON] },
            ),
            r is Err ==> old(bus).log().is_prefix_of(final(bus).log()),
    {
        let cmd = [SET_DISPLAY_ON];
        proof {
            assert(cmd@ =~= seq![SET_DISPLAY_ON]);
        }
        bus.write_cmd(cmd.as_slice())
    }

    /// Set inversion mode (command 0x20 / 0x21): `true` enters invert mode,
    /// `false` exits it.
    pub fn set_invert_mode<B: DisplayBus>(&self, bus: &mut B, inverted: bool) -> (r: Result<
        (),
        B::Error,
    >)
        requires
            B::spec_cmd_ok(seq![ENTER_INVERT_MODE]),
            B::spec_cmd_ok(seq![EXIT_INVERT_MODE]),
        ensures
            r is Ok && inverted ==> final(bus).log() == old(bus).log().push(
                BusTx::Cmd { cmd: seq![ENTER_INVERT_MODE] },
            ),
            r is Ok && !inverted ==> final(bus).log() == old(bus).log().push(
                BusTx::Cmd { cmd: seq![EXIT_INVERT_MODE] },
            ),
            r is Err ==> old(bus).log().is_prefix_of(final(bus).log()),
    {
        if inverted {
            let cmd = [ENTER_INVERT_MODE];
            proof {
                assert(cmd@ =~= seq![ENTER_INVERT_MODE]);
            }
            bus.write_cmd(cmd.as_slice())
        } else {
            let cmd = [EXIT_INVERT_MODE];
            proof {
                assert(cmd@ =~= seq![EXIT_INVERT_MODE]);
            }
            bus.write_cmd(cmd.as_slice())
        }
    }

    /// Set the column address window (command 0x2A); `start` and `end` are
    /// absolute controller-memory columns, both inclusive.
    pub fn set_column_address<B: DisplayBus>(&self, bus: &mut B, start: u16, end: u16) -> (r:
        Result<(), B::Error>)
        requires
            B::spec_cmd_ok(seq![SET_COLUMN_ADDRESS]),
        ensures
            r is Ok ==> final(bus).log() == old(bus).log().push(
                BusTx::CmdWithParams {
                    cmd: seq![SET_COLUMN_ADDRESS],
                    params: be16(start) + be16(end),
                },
            ),
            r is Err ==> old(bus).log().is_prefix_of(final(bus).log()),
    {
        let params = AddressRange::new(start, end);
        let cmd = [SET_COLUMN_ADDRESS];
        proof {
            assert(cmd@ =~= seq![SET_COLUMN_ADDRESS]);
        }
        bus.write_cmd_with_params(cmd.as_slice(), params.as_bytes().as_slice())
    }

    /// Set the page (row) address window (command 0x2B); `start` and `end`
    /// are absolute controller-memory rows, both inclusive.
    pub fn set_page_address<B: DisplayBus>(&self, bus: &mut B, start: u16, end: u16) -> (r: Result<
        (),
        B::Error,
    >)
        requires
            B::spec_cmd_ok(seq![SET_PAGE_ADDRESS]),
        ensures
            r is Ok ==> final(bus).log() == old(bus).log().push(
                BusTx::CmdWithParams {
                    cmd: seq![SET_PAGE_ADDRESS],
                    params: be16(start) + be16(end),
                },
            ),
            r is Err ==> old(bus).log().is_prefix_of(final(bus).log()),
    {
        let params = AddressRange::new(start, end);
        let cmd = [SET_PAGE_ADDRESS];
        proof {
            assert(cmd@ =~= seq![SET_PAGE_ADDRESS]);
        }
        bus.write_cmd_with_params(cmd.as_slice(), params.as_bytes().as_slice())
    }

    /// Set the address mode (Memory Data Access Control, MADCTL — command
    /// 0x36), updating the shadow first so it stays authoritative even when
    /// the transfer fails.
    pub fn set_address_mode<B: DisplayBus>(&mut self, bus: &mut B, mode: AddressMode) -> (r:
        Result<(), B::Error>)
        requires
            B::spec_cmd_ok(seq![SET_ADDRESS_MODE]),
        ensures
            final(self).address_mode == mode,
            final(self).panel_spec == old(self).panel_spec,
            final(self).reset_pin == old(self).reset_pin,
            r is Ok ==> final(bus).log() == old(bus).log().push(
                BusTx::CmdWithParams {
                    cmd: seq![SET_ADDRESS_MODE],
                    params: seq![mode.spec_bits()],
                },
            ),
            r is Err ==> old(bus).log().is_prefix_of(final(bus).log()),
    {
        self.address_mode = mode;
        let cmd = [SET_ADDRESS_MODE];
        let params = mode.as_bytes();
        proof {
            assert(cmd@ =~= seq![SET_ADDRESS_MODE]);
        }
        bus.write_cmd_with_params(cmd.as_slice(), params.as_slice())
    }

    /// Set the pixel format (command 0x3A).
    pub fn set_pixel_format<B: DisplayBus>(&self, bus: &mut B, mode: PixelFormat) -> (r: Result<
        (),
        B::Error,
    >)
        requires
            B::spec_cmd_ok(seq![SET_PIXEL_FORMAT]),
        ensures
            r is Ok ==> final(bus).log() == old(bus).log().push(
                BusTx::CmdWithParams { cmd: seq![SET_PIXEL_FORMAT], params: seq![mode.0] },
            ),
            r is Err ==> old(bus).log().is_prefix_of(final(bus).log()),
    {
        let cmd = [SET_PIXEL_FORMAT];
        let params = [mode.0];
        proof {
            assert(cmd@ =~= seq![SET_PIXEL_FORMAT]);
            assert(params@ =~= seq![mode.0]);
        }
        bus.write_cmd_with_params(cmd.as_slice(), params.as_slice())
    }

    /// The column and row offsets in effect: the rotated variants while
    /// row/column swap is active.
    pub open spec fn spec_offsets(self) -> (u16, u16) {
        if self.address_mode.row_column_swap {
            (self.panel_spec.x_offset_rotated, self.panel_spec.y_offset_rotated)
        } else {
            (self.panel_spec.x_offset, self.panel_spec.y_offset)
        }
    }

    /// Whether a window respects the panel's coordinate alignment: both
    /// start coordinates and both extents are multiples of the alignment
    /// units.
    pub open spec fn spec_aligned(self, x0: u16, y0: u16, x1: u16, y1: u16) -> bool {
        &&& x0 as int % self.panel_spec.x_alignment as int == 0
        &&& y0 as int % self.panel_spec.y_alignment as int == 0
        &&& (x1 - x0 + 1) % self.panel_spec.x_alignment as int == 0
        &&& (y1 - y0 + 1) % self.panel_spec.y_alignment as int == 0
    }

    /// Whether a window's corners lie within the panel's logical coordinate
    /// space.
    pub open spec fn spec_in_bounds(self, x0: u16, y0: u16, x1: u16, y1: u16) -> bool {
        &&& x0 <= x1 < self.spec_width()
        &&& y0 <= y1 < self.spec_height()
    }

    /// Whether a rectangle given by origin and extent lies within the
    /// panel's logical coordinate space.
    pub open spec fn spec_rect_in_bounds(self, x: u16, y: u16, w: u16, h: u16) -> bool {
        &&& x + w <= self.spec_width()
        &&& y + h <= self.spec_height()
    }

    /// The two transactions a window change performs: column range then row
    /// range, each offset by the panel's physical position.
    pub open spec fn spec_window_txs(self, x0: u16, y0: u16, x1: u16, y1: u16) -> Seq<BusTx> {
        let xo = self.spec_offsets().0;
        let yo = self.spec_offsets().1;
        seq![
            BusTx::CmdWithParams {
                cmd: seq![SET_COLUMN_ADDRESS],
                params: be16((x0 + xo) as u16) + be16((x1 + xo) as u16),
            },
            BusTx::CmdWithParams {
                cmd: seq![SET_PAGE_ADDRESS],
                params: be16((y0 + yo) as u16) + be16((y1 + yo) as u16),
            },
        ]
    }

    /// Sets the active drawing window to the logical rectangle from
    /// `(x0, y0)` to `(x1, y1)`, both inclusive.
    ///
    /// A window that violates the panel's coordinate alignment is rejected
    /// with `UnalignedArea`, and an aligned window outside the panel with
    /// `OutOfRange`, in that order and before anything reaches the bus.
    /// Otherwise the column-address and page-address commands are emitted
    /// with the panel's physical offset applied — the rotated offset variant
    /// while row/column swap is active.
    pub fn set_window<B: DisplayBus>(&self, bus: &mut B, x0: u16, y0: u16, x1: u16, y1: u16) -> (r:
        Result<(), DisplayError<B::Error>>)
        requires
            self.wf(),
            B::spec_cmd_ok(seq![SET_COLUMN_ADDRESS]),
            B::spec_cmd_ok(seq![SET_PAGE_ADDRESS]),
        ensures
            old(bus).log().is_prefix_of(final(bus).log()),
            x0 > x1 || y0 > y1 ==> r == Err::<(), DisplayError<B::Error>>(
                DisplayError::OutOfRange,
            ) && final(bus).log() == old(bus).log(),
            x0 <= x1 && y0 <= y1 && !self.spec_aligned(x0, y0, x1, y1) ==> r == Err::<
                (),
                DisplayError<B::Error>,
            >(DisplayError::UnalignedArea) && final(bus).log() == old(bus).log(),
            self.spec_aligned(x0, y0, x1, y1) ==> !(r == Err::<(), DisplayError<B::Error>>(
                DisplayError::UnalignedArea,
            )),
            self.spec_aligned(x0, y0, x1, y1) && !self.spec_in_bounds(x0, y0, x1, y1) ==> r
                == Err::<(), DisplayError<B::Error>>(DisplayError::OutOfRange) && final(bus).log()
                == old(bus).log(),
            self.spec_in_bounds(x0, y0, x1, y1) ==> !(r == Err::<(), DisplayError<B::Error>>(
                DisplayError::OutOfRange,
            )),
            r is Ok ==> final(bus).log() == old(bus).log() + self.spec_window_txs(x0, y0, x1, y1),
            r is Ok ==> self.spec_aligned(x0, y0, x1, y1) && self.spec_in_bounds(x0, y0, x1, y1),
            r matches Err(e) ==> (e is UnalignedArea || e is OutOfRange || e is BusError),
    {
        proof {
            crate::bus::lemma_prefix_refl(bus.log());
        }
        if x0 > x1 || y0 > y1 {
            return Err(DisplayError::OutOfRange);
        }
        let xa = self.panel_spec.x_alignment;
        let ya = self.panel_spec.y_alignment;
        if xa > 1 || ya > 1 {
            let w_span = (x1 - x0) as usize + 1;
            let h_span = (y1 - y0) as usize + 1;
            if x0 % xa != 0 || y0 % ya != 0 || w_span % xa as usize != 0 || h_span % ya as usize
                != 0 {
                return Err(DisplayError::UnalignedArea);
            }
        }
        if !(x1 < self.width() && y1 < self.height()) {
            return Err(DisplayError::OutOfRange);
        }
        let (xo, yo) = if self.address_mode.row_column_swap {
            (self.panel_spec.x_offset_rotated, self.panel_spec.y_offset_rotated)
        } else {
            (self.panel_spec.x_offset, self.panel_spec.y_offset)
        };
        let ghost log0 = bus.log();
        match self.set_column_address(bus, x0 + xo, x1 + xo) {
            Ok(()) => {},
            Err(e) => {
                return Err(DisplayError::BusError(e));
            },
        }
        let ghost mid = bus.log();
        match self.set_page_address(bus, y0 + yo, y1 + yo) {
            Ok(()) => {},
            Err(e) => {
                proof {
                    crate::bus::lemma_prefix_refl(log0);
                    crate::bus::lemma_prefix_push(
                        log0,
                        log0,
                        BusTx::CmdWithParams {
                            cmd: seq![SET_COLUMN_ADDRESS],
                            params: be16((x0 + xo) as u16) + be16((x1 + xo) as u16),
                        },
                    );
                    crate::bus::lemma_prefix_trans(log0, mid, bus.log());
                }
                return Err(DisplayError::BusError(e));
            },
        }
        proof {
            assert(bus.log() =~= log0 + self.spec_window_txs(x0, y0, x1, y1));
            crate::bus::lemma_prefix_concat(log0, self.spec_window_txs(x0, y0, x1, y1));
        }
        Ok(())
    }

    /// Sets the window to the full screen size.
    pub fn set_full_window<B: DisplayBus>(&self, bus: &mut B) -> (r: Result<
        (),
        DisplayError<B::Error>,
    >)
        requires
            self.wf(),
            B::spec_cmd_ok(seq![SET_COLUMN_ADDRESS]),
            B::spec_cmd_ok(seq![SET_PAGE_ADDRESS]),
        ensures
            old(bus).log().is_prefix_of(final(bus).log()),
            r is Ok ==> final(bus).log() == old(bus).log() + self.spec_window_txs(
                0,
                0,
                (self.spec_width() - 1) as u16,
                (self.spec_height() - 1) as u16,
            ),
            !self.spec_aligned(0, 0, (self.spec_width() - 1) as u16, (self.spec_height() - 1) as u16)
                ==> r == Err::<(), DisplayError<B::Error>>(DisplayError::UnalignedArea)
                    && final(bus).log() == old(bus).log(),
            self.spec_aligned(0, 0, (self.spec_width() - 1) as u16, (self.spec_height() - 1) as u16)
                ==> !(r == Err::<(), DisplayError<B::Error>>(DisplayError::UnalignedArea)),
            r matches Err(e) ==> (e is UnalignedArea || e is BusError),
    {
        let w = self.width();
        let h = self.height();
        self.set_window(bus, 0, 0, w - 1, h - 1)
    }

    /// Applies an orientation: computes the three orientation flags, keeps
    /// every other flag of the cached address mode, writes the full register
    /// byte, and updates the shadow.
    ///
    /// BGR, flip and refresh-order flags survive verbatim; applying `Deg0`
    /// after any prior orientation clears exactly the swap and mirror flags.
    pub fn set_orientation<B: DisplayBus>(&mut self, bus: &mut B, orientation: Orientation) -> (r:
        Result<(), DisplayError<B::Error>>)
        requires
            B::spec_cmd_ok(seq![SET_ADDRESS_MODE]),
        ensures
            final(self).address_mode == old(self).address_mode.spec_set_orientation(orientation),
            final(self).address_mode.bgr == old(self).address_mode.bgr,
            final(self).address_mode.flip_vertical == old(self).address_mode.flip_vertical,
            final(self).address_mode.flip_horizontal == old(self).address_mode.flip_horizontal,
            final(self).address_mode.horizontal_refresh_order == old(
                self,
            ).address_mode.horizontal_refresh_order,
            final(self).address_mode.vertical_refresh_order == old(
                self,
            ).address_mode.vertical_refresh_order,
            final(self).panel_spec == old(self).panel_spec,
            final(self).reset_pin == old(self).reset_pin,
            r is Ok ==> final(bus).log() == old(bus).log().push(
                BusTx::CmdWithParams {
                    cmd: seq![SET_ADDRESS_MODE],
                    params: seq![
                        old(self).address_mode.spec_set_orientation(orientation).spec_bits(),
                    ],
                },
            ),
            r is Err ==> old(bus).log().is_prefix_of(final(bus).log()),
            r matches Err(e) ==> e is BusError,
    {
        let mut mode = self.address_mode;
        mode.set_orientation(orientation);
        match self.set_address_mode(bus, mode) {
            Ok(()) => Ok(()),
            Err(e) => Err(DisplayError::BusError(e)),
        }
    }

    /// Configures the pixel color format.
    ///
    /// Formats whose bit depth the interface cannot carry are rejected with
    /// `Unsupported` and nothing reaches the bus; the others are written as
    /// the same format on both the DBI and DPI interfaces.
    pub fn set_color_format<B: DisplayBus>(&self, bus: &mut B, color_format: ColorFormat) -> (r:
        Result<(), DisplayError<B::Error>>)
        requires
            B::spec_cmd_ok(seq![SET_PIXEL_FORMAT]),
        ensures
            old(bus).log().is_prefix_of(final(bus).log()),
            PixelFormatType::spec_from_bit_count(color_format.spec_size_bits()) is None ==> r
                == Err::<(), DisplayError<B::Error>>(DisplayError::Unsupported) && final(bus).log()
                == old(bus).log(),
            r == Err::<(), DisplayError<B::Error>>(DisplayError::Unsupported)
                ==> PixelFormatType::spec_from_bit_count(color_format.spec_size_bits()) is None,
            r matches Err(e) ==> (e is Unsupported || e is BusError),
            r is Ok ==> (PixelFormatType::spec_from_bit_count(color_format.spec_size_bits())
                matches Some(t) && final(bus).log() == old(bus).log().push(
                BusTx::CmdWithParams {
                    cmd: seq![SET_PIXEL_FORMAT],
                    params: seq![(t.spec_code() * 16 + t.spec_code()) as u8],
                },
            )),
    {
        proof {
            crate::bus::lemma_prefix_refl(bus.log());
        }
        let bits = color_format.size_bits();
        let pf_type = match PixelFormatType::from_bit_count(bits) {
            Some(t) => t,
            None => {
                return Err(DisplayError::Unsupported);
            },
        };
        let pf = PixelFormat::dbi_and_dpi(pf_type);
        match self.set_pixel_format(bus, pf) {
            Ok(()) => Ok(()),
            Err(e) => Err(DisplayError::BusError(e)),
        }
    }

    /// Writes a buffer of pixels to the logical rectangle at `(x, y)` of
    /// extent `w × h`: the window commands, then the memory-write command
    /// with the data. A rectangle reaching outside the panel is rejected
    /// with `OutOfRange` before anything reaches the bus.
    pub fn write_pixels<B: DisplayBus>(
        &self,
        bus: &mut B,
        x: u16,
        y: u16,
        w: u16,
        h: u16,
        data: &[u8],
    ) -> (r: Result<(), DisplayError<B::Error>>)
        requires
            self.wf(),
            B::spec_cmd_ok(seq![SET_COLUMN_ADDRESS]),
            B::spec_cmd_ok(seq![SET_PAGE_ADDRESS]),
            B::spec_cmd_ok(seq![WRITE_MEMORY_START]),
            w >= 1,
            h >= 1,
        ensures
            old(bus).log().is_prefix_of(final(bus).log()),
            !self.spec_rect_in_bounds(x, y, w, h) ==> r == Err::<(), DisplayError<B::Error>>(
                DisplayError::OutOfRange,
            ) && final(bus).log() == old(bus).log(),
            self.spec_rect_in_bounds(x, y, w, h) ==> !(r == Err::<(), DisplayError<B::Error>>(
                DisplayError::OutOfRange,
            )),
            self.spec_rect_in_bounds(x, y, w, h) && !self.spec_aligned(
                x,
                y,
                (x + w - 1) as u16,
                (y + h - 1) as u16,
            ) ==> r == Err::<(), DisplayError<B::Error>>(DisplayError::UnalignedArea)
                && final(bus).log() == old(bus).log(),
            self.spec_rect_in_bounds(x, y, w, h) ==> (self.spec_aligned(
                x,
                y,
                (x + w - 1) as u16,
                (y + h - 1) as u16,
            ) ==> !(r == Err::<(), DisplayError<B::Error>>(DisplayError::UnalignedArea))),
            r matches Err(e) ==> (e is UnalignedArea || e is OutOfRange || e is BusError),
            r is Ok ==> self.spec_rect_in_bounds(x, y, w, h) && self.spec_aligned(
                x,
                y,
                (x + w - 1) as u16,
                (y + h - 1) as u16,
            ),
            r is Ok ==> {
                &&& final(bus).log().len() == old(bus).log().len() + 3
                &&& final(bus).log().subrange(
                    old(bus).log().len() as int,
                    old(bus).log().len() as int + 2,
                ) == self.spec_window_txs(x, y, (x + w - 1) as u16, (y + h - 1) as u16)
                &&& is_pixel_write(
                    final(bus).log().last(),
                    seq![WRITE_MEMORY_START],
                    data@,
                    crate::bus::Metadata {
                        area: Some(Area { x, y, w, h }),
                        frame_control: crate::bus::FrameControl { first: true, last: true },
                    },
                )
            },
    {
        proof {
            crate::bus::lemma_prefix_refl(bus.log());
        }
        if x as usize + w as usize > self.width() as usize || y as usize + h as usize
            > self.height() as usize {
            return Err(DisplayError::OutOfRange);
        }
        let x1 = x + w - 1;
        let y1 = y + h - 1;
        let ghost log0 = bus.log();
        match self.set_window(bus, x, y, x1, y1) {
            Ok(()) => {},
            Err(e) => {
                return Err(e);
            },
        }
        let ghost mid = bus.log();
        let cmd = [WRITE_MEMORY_START];
        let meta = crate::bus::Metadata {
            area: Some(Area { x, y, w, h }),
            frame_control: crate::bus::FrameControl { first: true, last: true },
        };
        proof {
            assert(cmd@ =~= seq![WRITE_MEMORY_START]);
        }
        match bus.write_pixels(cmd.as_slice(), data, meta) {
            Ok(()) => {},
            Err(e) => {
                proof {
                    crate::bus::lemma_prefix_concat(log0, self.spec_window_txs(x, y, x1, y1));
                    crate::bus::lemma_prefix_trans(log0, mid, bus.log());
                }
                return Err(e);
            },
        }
        proof {
            crate::bus::lemma_prefix_concat(log0, self.spec_window_txs(x, y, x1, y1));
            crate::bus::lemma_prefix_trans(log0, mid, bus.log());
            assert(bus.log().subrange(log0.len() as int, log0.len() as int + 2) =~= mid.subrange(
                log0.len() as int,
                mid.len() as int,
            ));
        }
        Ok(())
    }

    /// Fills the logical rectangle at `(x, y)` of extent `w × h` with a
    /// solid color: the window commands, then the bus's hardware or batched
    /// fill under the memory-write command. A rectangle reaching outside the
    /// panel is rejected with `OutOfRange` before anything reaches the bus.
    pub fn fill_solid<B: DisplayBus + BusHardwareFill>(
        &self,
        bus: &mut B,
        x: u16,
        y: u16,
        w: u16,
        h: u16,
        color: SolidColor,
    ) -> (r: Result<(), DisplayError<B::Error>>)
        requires
            self.wf(),
            B::spec_cmd_ok(seq![SET_COLUMN_ADDRESS]),
            B::spec_cmd_ok(seq![SET_PAGE_ADDRESS]),
            B::spec_cmd_ok(seq![WRITE_MEMORY_START]),
            w >= 1,
            h >= 1,
        ensures
            old(bus).log().is_prefix_of(final(bus).log()),
            !self.spec_rect_in_bounds(x, y, w, h) ==> r == Err::<(), DisplayError<B::Error>>(
                DisplayError::OutOfRange,
            ) && final(bus).log() == old(bus).log(),
            self.spec_rect_in_bounds(x, y, w, h) ==> !(r == Err::<(), DisplayError<B::Error>>(
                DisplayError::OutOfRange,
            )),
            self.spec_rect_in_bounds(x, y, w, h) && !self.spec_aligned(
                x,
                y,
                (x + w - 1) as u16,
                (y + h - 1) as u16,
            ) ==> r == Err::<(), DisplayError<B::Error>>(DisplayError::UnalignedArea)
                && final(bus).log() == old(bus).log(),
            self.spec_rect_in_bounds(x, y, w, h) ==> (self.spec_aligned(
                x,
                y,
                (x + w - 1) as u16,
                (y + h - 1) as u16,
            ) ==> !(r == Err::<(), DisplayError<B::Error>>(DisplayError::UnalignedArea))),
            r matches Err(e) ==> (e is UnalignedArea || e is OutOfRange || e is InvalidArgs
                || e is BusError),
            r is Ok ==> self.spec_rect_in_bounds(x, y, w, h) && self.spec_aligned(
                x,
                y,
                (x + w - 1) as u16,
                (y + h - 1) as u16,
            ),
            r is Ok ==> {
                &&& final(bus).log().len() >= old(bus).log().len() + 2
                &&& final(bus).log().subrange(
                    old(bus).log().len() as int,
                    old(bus).log().len() as int + 2,
                ) == self.spec_window_txs(x, y, (x + w - 1) as u16, (y + h - 1) as u16)
                &&& is_fill_chunks(
                    final(bus).log().subrange(
                        old(bus).log().len() as int + 2,
                        final(bus).log().len() as int,
                    ),
                    seq![WRITE_MEMORY_START],
                    color.spec_wire_bytes(),
                    (w * h) as nat,
                )
            },
    {
        proof {
            crate::bus::lemma_prefix_refl(bus.log());
        }
        if x as usize + w as usize > self.width() as usize || y as usize + h as usize
            > self.height() as usize {
            return Err(DisplayError::OutOfRange);
        }
        let x1 = x + w - 1;
        let y1 = y + h - 1;
        let ghost log0 = bus.log();
        match self.set_window(bus, x, y, x1, y1) {
            Ok(()) => {},
            Err(e) => {
                return Err(e);
            },
        }
        let ghost mid = bus.log();
        let cmd = [WRITE_MEMORY_START];
        let area = Area { x, y, w, h };
        proof {
            assert(cmd@ =~= seq![WRITE_MEMORY_START]);
        }
        match bus.fill_solid(cmd.as_slice(), color, area) {
            Ok(()) => {},
            Err(e) => {
                proof {
                    crate::bus::lemma_prefix_concat(log0, self.spec_window_txs(x, y, x1, y1));
                    crate::bus::lemma_prefix_trans(log0, mid, bus.log());
                }
                return Err(e);
            },
        }
        proof {
            crate::bus::lemma_prefix_concat(log0, self.spec_window_txs(x, y, x1, y1));
            crate::bus::lemma_prefix_trans(log0, mid, bus.log());
            assert(bus.log().subrange(log0.len() as int, log0.len() as int + 2) =~= mid.subrange(
                log0.len() as int,
                mid.len() as int,
            ));
            assert(area.spec_total_pixels() == (w * h) as nat);
        }
        Ok(())
    }

    /// The power-on plan: the reset strategy's actions, then soft reset,
    /// sleep-out and full-window setup with settle delays, display on, and
    /// finally the cached address mode written out.
    pub open spec fn spec_init_plan(self) -> Seq<HostActionV> {
        self.reset_pin.spec_reset_plan(10, 120, Some(SOFT_RESET)) + seq![
            HostActionV::WriteCmd(SOFT_RESET),
            HostActionV::DelayMs(120),
            HostActionV::WriteCmd(EXIT_SLEEP_MODE),
            HostActionV::DelayMs(120),
            HostActionV::WriteCmdParams(
                SET_COLUMN_ADDRESS,
                be16(self.panel_spec.x_offset) + be16(
                    (self.panel_spec.physical_width + self.panel_spec.x_offset) as u16,
                ),
            ),
            HostActionV::WriteCmdParams(
                SET_PAGE_ADDRESS,
                be16(self.panel_spec.y_offset) + be16(
                    (self.panel_spec.physical_height + self.panel_spec.y_offset) as u16,
                ),
            ),
            HostActionV::WriteCmd(SET_DISPLAY_ON),
            HostActionV::DelayMs(20),
            HostActionV::WriteCmdParams(SET_ADDRESS_MODE, seq![self.address_mode.spec_bits()]),
        ]
    }

    /// Builds the power-on action sequence for this panel.
    pub fn init_plan(&self) -> (r: Vec<HostAction>)
        requires
            self.wf(),
        ensures
            actions_view(r@) == self.spec_init_plan(),
    {
        let mut out = self.reset_pin.reset_plan(10, 120, Some(SOFT_RESET));
        out.push(HostAction::WriteCmd(SOFT_RESET));
        out.push(HostAction::DelayMs(120));
        out.push(HostAction::WriteCmd(EXIT_SLEEP_MODE));
        out.push(HostAction::DelayMs(120));
        let caset = address_window_param_u8(
            0,
            self.panel_spec.physical_width,
            self.panel_spec.x_offset,
        );
        out.push(
            HostAction::WriteCmdParams(
                SET_COLUMN_ADDRESS,
                vstd::slice::slice_to_vec(caset.as_slice()),
            ),
        );
        let raset = address_window_param_u8(
            0,
            self.panel_spec.physical_height,
            self.panel_spec.y_offset,
        );
        out.push(
            HostAction::WriteCmdParams(
                SET_PAGE_ADDRESS,
                vstd::slice::slice_to_vec(raset.as_slice()),
            ),
        );
        out.push(HostAction::WriteCmd(SET_DISPLAY_ON));
        out.push(HostAction::DelayMs(20));
        let bits = self.address_mode.as_bytes();
        out.push(
            HostAction::WriteCmdParams(
                SET_ADDRESS_MODE,
                vstd::slice::slice_to_vec(bits.as_slice()),
            ),
        );
        proof {
            assert(actions_view(out@) =~= self.spec_init_plan());
        }
        out
    }
}

} // verus!
