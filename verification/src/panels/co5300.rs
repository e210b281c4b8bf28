//! CO5300 AMOLED panel models and driver.
//!
//! The CO5300 wants window coordinates aligned to two-pixel units, and its
//! initialization runs an unlock/lock register-page dance before the usual
//! power-on steps.

use vstd::prelude::*;

use crate::DisplayError;
use crate::area::Area;
use crate::bus::{BusTx, DisplayBus, is_pixel_write};
use crate::color::ColorFormat;
use crate::dcs::{SET_COLUMN_ADDRESS, SET_PAGE_ADDRESS, be16};
use crate::panel::initseq::{HostAction, HostActionV, actions_view, byte_vec};
use crate::panel::reset::LCDResetOption;
use crate::panel::{DisplaySpec, PanelSetBrightness, PanelSpec};

verus! {

/// Software Reset. Parameters: 0.
pub const SW_RESET: u8 = 0x01;

/// Sleep Out. Parameters: 0.
pub const SLEEP_OUT: u8 = 0x11;

/// Display On. Parameters: 0.
pub const DISPLAY_ON: u8 = 0x29;

/// Column Address Set. Parameters: 4.
pub const CASET: u8 = 0x2A;

/// Row Address Set. Parameters: 4.
pub const RASET: u8 = 0x2B;

/// Memory Write. Parameters: variable.
pub const WRITE_RAM: u8 = 0x2C;

/// Tearing Effect Line On. Parameters: 1.
pub const TEARING_EFFECT_ON: u8 = 0x35;

/// Interface Pixel Format. Parameters: 1.
pub const COLOR_MODE: u8 = 0x3A;

/// Write Display Brightness. Parameters: 1.
pub const WBRIGHT: u8 = 0x51;

/// Write CTRL Display. Parameters: 1.
pub const WRITE_CTRL_DISPLAY: u8 = 0x53;

/// Write HBM Display Brightness Value. Parameters: 1.
pub const WRHBMDISBV: u8 = 0x63;

/// SPI mode control. Parameters: 1.
pub const SPI_MODE: u8 = 0xC4;

/// Password register 1. Parameters: 1.
pub const PASSWD1: u8 = 0xF4;

/// Password register 2. Parameters: 1.
pub const PASSWD2: u8 = 0xF5;

/// Register page switch. Parameters: 1.
pub const CMD_PAGE_SWITCH: u8 = 0xFE;

/// The interface pixel format byte for RGB565.
pub const COLOR_MODE_RGB565: u8 = 0x55;

/// The interface pixel format byte for RGB666.
pub const COLOR_MODE_RGB666: u8 = 0x66;

/// Specification for CO5300 module differences.
pub trait Co5300Spec: DisplaySpec {
    /// The register-page parameter used during the unlock step.
    fn init_page_param(&self) -> u8;

    /// Whether the module's ID check must be skipped regardless of the
    /// hardware response.
    fn ignore_id_check(&self) -> bool;
}

/// CO5300 AMOLED display driver.
pub struct Co5300<RST> {
    /// The reset strategy, with its pin where one is used.
    pub reset_pin: LCDResetOption<RST>,
    /// The constant data of the panel module driven.
    pub panel_spec: PanelSpec,
    /// The register-page parameter used during the unlock step.
    pub init_page_param: u8,
}

impl<RST> Co5300<RST> {
    /// The driver state is well formed when its panel data is.
    pub open spec fn wf(self) -> bool {
        self.panel_spec.wf()
    }

    /// Creates a new driver instance.
    pub fn new(reset_pin: LCDResetOption<RST>, panel_spec: PanelSpec, init_page_param: u8) -> (r:
        Co5300<RST>)
        requires
            panel_spec.wf(),
        ensures
            r.reset_pin == reset_pin,
            r.panel_spec == panel_spec,
            r.init_page_param == init_page_param,
            r.wf(),
    {
        Co5300 { reset_pin, panel_spec, init_page_param }
    }

    /// Returns the panel size `(width, height)`.
    pub fn size(&self) -> (r: (u16, u16))
        ensures
            r == (self.panel_spec.physical_width, self.panel_spec.physical_height),
    {
        (self.panel_spec.physical_width, self.panel_spec.physical_height)
    }

    /// The power-on plan: the reset strategy's actions, the register
    /// unlock/lock dance, interface configuration, the panel's address
    /// window, then sleep-out and display-on with settle delays.
    pub open spec fn spec_init_plan(self) -> Seq<HostActionV> {
        self.reset_pin.spec_reset_plan(10, 120, Some(SW_RESET)) + seq![
            HostActionV::WriteCmdParams(CMD_PAGE_SWITCH, seq![self.init_page_param]),
            HostActionV::WriteCmdParams(PASSWD1, seq![0x5Au8]),
            HostActionV::WriteCmdParams(PASSWD2, seq![0x59u8]),
            HostActionV::WriteCmdParams(CMD_PAGE_SWITCH, seq![0x20u8]),
            HostActionV::WriteCmdParams(PASSWD1, seq![0xA5u8]),
            HostActionV::WriteCmdParams(PASSWD2, seq![0xA5u8]),
            HostActionV::WriteCmdParams(CMD_PAGE_SWITCH, seq![0x00u8]),
            HostActionV::WriteCmdParams(SPI_MODE, seq![0x80u8]),
            HostActionV::WriteCmdParams(COLOR_MODE, seq![COLOR_MODE_RGB565]),
            HostActionV::WriteCmdParams(TEARING_EFFECT_ON, seq![0x00u8]),
            HostActionV::WriteCmdParams(WRITE_CTRL_DISPLAY, seq![0x20u8]),
            HostActionV::WriteCmdParams(WRHBMDISBV, seq![0xFFu8]),
            HostActionV::WriteCmdParams(
                CASET,
                be16(self.panel_spec.x_offset) + be16(
                    (self.panel_spec.physical_width + self.panel_spec.x_offset) as u16,
                ),
            ),
            HostActionV::WriteCmdParams(
                RASET,
                be16(self.panel_spec.y_offset) + be16(
                    (self.panel_spec.physical_height + self.panel_spec.y_offset) as u16,
                ),
            ),
            HostActionV::WriteCmd(SLEEP_OUT),
            HostActionV::DelayMs(120),
            HostActionV::WriteCmd(DISPLAY_ON),
            HostActionV::DelayMs(70),
        ]
    }

    /// Builds the power-on action sequence for this module.
    #[verifier::rlimit(100)]
    pub fn init_plan(&self) -> (r: Vec<HostAction>)
        requires
            self.wf(),
        ensures
            actions_view(r@) == self.spec_init_plan(),
    {
        let mut out = self.reset_pin.reset_plan(10, 120, Some(SW_RESET));
        out.push(HostAction::WriteCmdParams(CMD_PAGE_SWITCH, byte_vec(self.init_page_param)));
        out.push(HostAction::WriteCmdParams(PASSWD1, byte_vec(0x5A)));
        out.push(HostAction::WriteCmdParams(PASSWD2, byte_vec(0x59)));
        out.push(HostAction::WriteCmdParams(CMD_PAGE_SWITCH, byte_vec(0x20)));
        out.push(HostAction::WriteCmdParams(PASSWD1, byte_vec(0xA5)));
        out.push(HostAction::WriteCmdParams(PASSWD2, byte_vec(0xA5)));
        out.push(HostAction::WriteCmdParams(CMD_PAGE_SWITCH, byte_vec(0x00)));
        out.push(HostAction::WriteCmdParams(SPI_MODE, byte_vec(0x80)));
        out.push(HostAction::WriteCmdParams(COLOR_MODE, byte_vec(COLOR_MODE_RGB565)));
        out.push(HostAction::WriteCmdParams(TEARING_EFFECT_ON, byte_vec(0x00)));
        out.push(HostAction::WriteCmdParams(WRITE_CTRL_DISPLAY, byte_vec(0x20)));
        out.push(HostAction::WriteCmdParams(WRHBMDISBV, byte_vec(0xFF)));
        let caset = crate::dcs::address_window_param_u8(
            0,
            self.panel_spec.physical_width,
            self.panel_spec.x_offset,
        );
        out.push(HostAction::WriteCmdParams(CASET, vstd::slice::slice_to_vec(caset.as_slice())));
        let raset = crate::dcs::address_window_param_u8(
            0,
            self.panel_spec.physical_height,
            self.panel_spec.y_offset,
        );
        out.push(HostAction::WriteCmdParams(RASET, vstd::slice::slice_to_vec(raset.as_slice())));
        out.push(HostAction::WriteCmd(SLEEP_OUT));
        out.push(HostAction::DelayMs(120));
        out.push(HostAction::WriteCmd(DISPLAY_ON));
        out.push(HostAction::DelayMs(70));
        proof {
            assert(actions_view(out@) =~= self.spec_init_plan());
        }
        out
    }

    /// Whether a window respects the module's two-pixel coordinate
    /// alignment.
    pub open spec fn spec_aligned(self, x0: u16, y0: u16, x1: u16, y1: u16) -> bool {
        &&& x0 as int % self.panel_spec.x_alignment as int == 0
        &&& y0 as int % self.panel_spec.y_alignment as int == 0
        &&& (x1 - x0 + 1) % self.panel_spec.x_alignment as int == 0
        &&& (y1 - y0 + 1) % self.panel_spec.y_alignment as int == 0
    }

    /// Whether a window's corners lie within the panel.
    pub open spec fn spec_in_bounds(self, x0: u16, y0: u16, x1: u16, y1: u16) -> bool {
        &&& x0 <= x1 < self.panel_spec.physical_width
        &&& y0 <= y1 < self.panel_spec.physical_height
    }

    /// Whether a rectangle given by origin and extent lies within the panel.
    pub open spec fn spec_rect_in_bounds(self, x: u16, y: u16, w: u16, h: u16) -> bool {
        &&& x + w <= self.panel_spec.physical_width
        &&& y + h <= self.panel_spec.physical_height
    }

    /// The two transactions a window change performs.
    pub open spec fn spec_window_txs(self, x0: u16, y0: u16, x1: u16, y1: u16) -> Seq<BusTx> {
        let xo = self.panel_spec.x_offset;
        let yo = self.panel_spec.y_offset;
        seq![
            BusTx::CmdWithParams {
                cmd: seq![CASET],
                params: be16((x0 + xo) as u16) + be16((x1 + xo) as u16),
            },
            BusTx::CmdWithParams {
                cmd: seq![RASET],
                params: be16((y0 + yo) as u16) + be16((y1 + yo) as u16),
            },
        ]
    }

    /// Sets the active drawing window from `(x0, y0)` to `(x1, y1)`, both
    /// inclusive. An unaligned window is rejected with `UnalignedArea`, and
    /// an aligned window outside the panel with `OutOfRange`, in that order
    /// and before anything reaches the bus.
    pub fn set_window<B: DisplayBus>(&self, bus: &mut B, x0: u16, y0: u16, x1: u16, y1: u16) -> (r:
        Result<(), DisplayError<B::Error>>)
        requires
            self.wf(),
            B::spec_cmd_ok(seq![CASET]),
            B::spec_cmd_ok(seq![RASET]),
        ensures
            old(bus).log().is_prefix_of(final(bus).log()),
            x0 > x1 || y0 > y1 ==> r == Err::<(), DisplayError<B::Error>>(
                DisplayError::OutOfRange,
            ) && final(bus).log() == old(bus).log(),
            x0 <= x1 && y0 <= y1 && !self.spec_aligned(x0, y0, x1, y1) ==> r == Err::<
                (),
                DisplayError<B::Error>,
            >(DisplayError::UnalignedArea) && final(bus).log() == old(bus).log(),
            self.spec_aligned(x0, y0, x1, y1) ==> !(r == Err::<(), DisplayError<B::Error>>(
                DisplayError::UnalignedArea,
            )),
            self.spec_aligned(x0, y0, x1, y1) && !self.spec_in_bounds(x0, y0, x1, y1) ==> r
                == Err::<(), DisplayError<B::Error>>(DisplayError::OutOfRange) && final(bus).log()
                == old(bus).log(),
            self.spec_in_bounds(x0, y0, x1, y1) ==> !(r == Err::<(), DisplayError<B::Error>>(
                DisplayError::OutOfRange,
            )),
            r is Ok ==> final(bus).log() == old(bus).log() + self.spec_window_txs(x0, y0, x1, y1),
            r is Ok ==> self.spec_aligned(x0, y0, x1, y1) && self.spec_in_bounds(x0, y0, x1, y1),
            r matches Err(e) ==> (e is UnalignedArea || e is OutOfRange || e is BusError),
    {
        proof {
            crate::bus::lemma_prefix_refl(bus.log());
        }
        if x0 > x1 || y0 > y1 {
            return Err(DisplayError::OutOfRange);
        }
        let xa = self.panel_spec.x_alignment;
        let ya = self.panel_spec.y_alignment;
        if xa > 1 || ya > 1 {
            let w_span = (x1 - x0) as usize + 1;
            let h_span = (y1 - y0) as usize + 1;
            if x0 % xa != 0 || y0 % ya != 0 || w_span % xa as usize != 0 || h_span % ya as usize
                != 0 {
                return Err(DisplayError::UnalignedArea);
            }
        }
        if !(x1 < self.panel_spec.physical_width && y1 < self.panel_spec.physical_height) {
            return Err(DisplayError::OutOfRange);
        }
        let xo = self.panel_spec.x_offset;
        let yo = self.panel_spec.y_offset;
        let ghost log0 = bus.log();
        let x_range = crate::dcs::AddressRange::new(x0 + xo, x1 + xo);
        let cmd_c = [CASET];
        proof {
            assert(cmd_c@ =~= seq![CASET]);
        }
        match bus.write_cmd_with_params(cmd_c.as_slice(), x_range.as_bytes().as_slice()) {
            Ok(()) => {},
            Err(e) => {
                return Err(DisplayError::BusError(e));
            },
        }
        let ghost mid = bus.log();
        let y_range = crate::dcs::AddressRange::new(y0 + yo, y1 + yo);
        let cmd_r = [RASET];
        proof {
            assert(cmd_r@ =~= seq![RASET]);
        }
        match bus.write_cmd_with_params(cmd_r.as_slice(), y_range.as_bytes().as_slice()) {
            Ok(()) => {},
            Err(e) => {
                proof {
                    crate::bus::lemma_prefix_refl(log0);
                    crate::bus::lemma_prefix_push(
                        log0,
                        log0,
                        BusTx::CmdWithParams {
                            cmd: seq![CASET],
                            params: be16((x0 + xo) as u16) + be16((x1 + xo) as u16),
                        },
                    );
                    crate::bus::lemma_prefix_trans(log0, mid, bus.log());
                }
                return Err(DisplayError::BusError(e));
            },
        }
        proof {
            assert(bus.log() =~= log0 + self.spec_window_txs(x0, y0, x1, y1));
            crate::bus::lemma_prefix_concat(log0, self.spec_window_txs(x0, y0, x1, y1));
        }
        Ok(())
    }

    /// Writes a buffer of pixels to the rectangle at `(x, y)` of extent
    /// `w × h`: the window commands, then the RAM write with the data. A
    /// rectangle reaching outside the panel is rejected with `OutOfRange`
    /// before anything reaches the bus.
    pub fn write_pixels<B: DisplayBus>(
        &self,
        bus: &mut B,
        x: u16,
        y: u16,
        w: u16,
        h: u16,
        data: &[u8],
    ) -> (r: Result<(), DisplayError<B::Error>>)
        requires
            self.wf(),
            B::spec_cmd_ok(seq![CASET]),
            B::spec_cmd_ok(seq![RASET]),
            B::spec_cmd_ok(seq![WRITE_RAM]),
            w >= 1,
            h >= 1,
        ensures
            old(bus).log().is_prefix_of(final(bus).log()),
            !self.spec_rect_in_bounds(x, y, w, h) ==> r == Err::<(), DisplayError<B::Error>>(
                DisplayError::OutOfRange,
            ) && final(bus).log() == old(bus).log(),
            self.spec_rect_in_bounds(x, y, w, h) ==> !(r == Err::<(), DisplayError<B::Error>>(
                DisplayError::OutOfRange,
            )),
            self.spec_rect_in_bounds(x, y, w, h) && !self.spec_aligned(
                x,
                y,
                (x + w - 1) as u16,
                (y + h - 1) as u16,
            ) ==> r == Err::<(), DisplayError<B::Error>>(DisplayError::UnalignedArea)
                && final(bus).log() == old(bus).log(),
            self.spec_rect_in_bounds(x, y, w, h) ==> (self.spec_aligned(
                x,
                y,
                (x + w - 1) as u16,
                (y + h - 1) as u16,
            ) ==> !(r == Err::<(), DisplayError<B::Error>>(DisplayError::UnalignedArea))),
            r matches Err(e) ==> (e is UnalignedArea || e is OutOfRange || e is BusError),
            r is Ok ==> self.spec_rect_in_bounds(x, y, w, h) && self.spec_aligned(
                x,
                y,
                (x + w - 1) as u16,
                (y + h - 1) as u16,
            ),
            r is Ok ==> {
                &&& final(bus).log().len() == old(bus).log().len() + 3
                &&& final(bus).log().subrange(
                    old(bus).log().len() as int,
                    old(bus).log().len() as int + 2,
                ) == self.spec_window_txs(x, y, (x + w - 1) as u16, (y + h - 1) as u16)
                &&& is_pixel_write(
                    final(bus).log().last(),
                    seq![WRITE_RAM],
                    data@,
                    crate::bus::Metadata {
                        area: Some(Area { x, y, w, h }),
                        frame_control: crate::bus::FrameControl { first: true, last: true },
                    },
                )
            },
    {
        proof {
            crate::bus::lemma_prefix_refl(bus.log());
        }
        if x as usize + w as usize > self.panel_spec.physical_width as usize || y as usize
            + h as usize > self.panel_spec.physical_height as usize {
            return Err(DisplayError::OutOfRange);
        }
        let x1 = x + w - 1;
        let y1 = y + h - 1;
        let ghost log0 = bus.log();
        match self.set_window(bus, x, y, x1, y1) {
            Ok(()) => {},
            Err(e) => {
                return Err(e);
            },
        }
        let ghost mid = bus.log();
        let cmd = [WRITE_RAM];
        let meta = crate::bus::Metadata {
            area: Some(Area { x, y, w, h }),
            frame_control: crate::bus::FrameControl { first: true, last: true },
        };
        proof {
            assert(cmd@ =~= seq![WRITE_RAM]);
        }
        match bus.write_pixels(cmd.as_slice(), data, meta) {
            Ok(()) => {},
            Err(e) => {
                proof {
                    crate::bus::lemma_prefix_concat(log0, self.spec_window_txs(x, y, x1, y1));
                    crate::bus::lemma_prefix_trans(log0, mid, bus.log());
                }
                return Err(e);
            },
        }
        proof {
            crate::bus::lemma_prefix_concat(log0, self.spec_window_txs(x, y, x1, y1));
            crate::bus::lemma_prefix_trans(log0, mid, bus.log());
            assert(bus.log().subrange(log0.len() as int, log0.len() as int + 2) =~= mid.subrange(
                log0.len() as int,
                mid.len() as int,
            ));
        }
        Ok(())
    }

    /// Configures the pixel color format. The module takes RGB565 and
    /// RGB666; every other format is rejected with `Unsupported` and nothing
    /// reaches the bus.
    pub fn set_color_format<B: DisplayBus>(&self, bus: &mut B, color_format: ColorFormat) -> (r:
        Result<(), DisplayError<B::Error>>)
        requires
            B::spec_cmd_ok(seq![COLOR_MODE]),
        ensures
            old(bus).log().is_prefix_of(final(bus).log()),
            !(color_format == ColorFormat::RGB565 || color_format == ColorFormat::RGB666) ==> r
                == Err::<(), DisplayError<B::Error>>(DisplayError::Unsupported) && final(bus).log()
                == old(bus).log(),
            r == Err::<(), DisplayError<B::Error>>(DisplayError::Unsupported) ==> !(color_format
                == ColorFormat::RGB565 || color_format == ColorFormat::RGB666),
            r matches Err(e) ==> (e is Unsupported || e is BusError),
            r is Ok && color_format == ColorFormat::RGB565 ==> final(bus).log() == old(
                bus,
            ).log().push(
                BusTx::CmdWithParams { cmd: seq![COLOR_MODE], params: seq![COLOR_MODE_RGB565] },
            ),
            r is Ok && color_format == ColorFormat::RGB666 ==> final(bus).log() == old(
                bus,
            ).log().push(
                BusTx::CmdWithParams { cmd: seq![COLOR_MODE], params: seq![COLOR_MODE_RGB666] },
            ),
    {
        proof {
            crate::bus::lemma_prefix_refl(bus.log());
        }
        let param: u8 = match color_format {
            ColorFormat::RGB565 => COLOR_MODE_RGB565,
            ColorFormat::RGB666 => COLOR_MODE_RGB666,
            _ => {
                return Err(DisplayError::Unsupported);
            },
        };
        let cmd = [COLOR_MODE];
        let params = [param];
        proof {
            assert(cmd@ =~= seq![COLOR_MODE]);
            assert(params@ =~= seq![param]);
        }
        match bus.write_cmd_with_params(cmd.as_slice(), params.as_slice()) {
            Ok(()) => Ok(()),
            Err(e) => Err(DisplayError::BusError(e)),
        }
    }

    /// The panel cannot change orientation through this driver: the call is
    /// a discoverable, expected refusal that performs no I/O.
    pub fn set_orientation<B: DisplayBus>(
        &self,
        bus: &mut B,
        orientation: crate::panel::Orientation,
    ) -> (r: Result<(), DisplayError<B::Error>>)
        ensures
            r == Err::<(), DisplayError<B::Error>>(DisplayError::Unsupported),
            final(bus).log() == old(bus).log(),
    {
        let _ = orientation;
        Err(DisplayError::Unsupported)
    }
}

impl<RST, B: DisplayBus> PanelSetBrightness<B> for Co5300<RST> {
    open spec fn spec_brightness_cmd() -> u8 {
        WBRIGHT
    }

    fn set_brightness(&mut self, bus: &mut B, brightness: u8) -> (r: Result<
        (),
        DisplayError<B::Error>,
    >) {
        let cmd = [WBRIGHT];
        let params = [brightness];
        proof {
            assert(cmd@ =~= seq![WBRIGHT]);
            assert(params@ =~= seq![brightness]);
        }
        match bus.write_cmd_with_params(cmd.as_slice(), params.as_slice()) {
            Ok(()) => Ok(()),
            Err(e) => Err(DisplayError::BusError(e)),
        }
    }
}

/// 410x502 AMOLED module, offset (22, 0).
#[allow(non_camel_case_types)]
pub struct AM196Q410502LK_196;

impl DisplaySpec for AM196Q410502LK_196 {
    open spec fn spec_panel_spec() -> PanelSpec {
        PanelSpec {
            physical_width: 410,
            physical_height: 502,
            x_offset: 22,
            y_offset: 0,
            x_offset_rotated: 22,
            y_offset_rotated: 0,
            x_alignment: 2,
            y_alignment: 2,
            inverted: false,
            bgr: false,
        }
    }

    fn panel_spec(&self) -> (r: PanelSpec) {
        PanelSpec {
            physical_width: 410,
            physical_height: 502,
            x_offset: 22,
            y_offset: 0,
            x_offset_rotated: 22,
            y_offset_rotated: 0,
            x_alignment: 2,
            y_alignment: 2,
            inverted: false,
            bgr: false,
        }
    }
}

impl Co5300Spec for AM196Q410502LK_196 {
    fn init_page_param(&self) -> u8 {
        0x00
    }

    fn ignore_id_check(&self) -> bool {
        true
    }
}

/// 368x448 AMOLED module, offset (16, 0).
#[allow(non_camel_case_types)]
pub struct AM178Q368448LK_178;

impl DisplaySpec for AM178Q368448LK_178 {
    open spec fn spec_panel_spec() -> PanelSpec {
        PanelSpec {
            physical_width: 368,
            physical_height: 448,
            x_offset: 16,
            y_offset: 0,
            x_offset_rotated: 16,
            y_offset_rotated: 0,
            x_alignment: 2,
            y_alignment: 2,
            inverted: false,
            bgr: false,
        }
    }

    fn panel_spec(&self) -> (r: PanelSpec) {
        PanelSpec {
            physical_width: 368,
            physical_height: 448,
            x_offset: 16,
            y_offset: 0,
            x_offset_rotated: 16,
            y_offset_rotated: 0,
            x_alignment: 2,
            y_alignment: 2,
            inverted: false,
            bgr: false,
        }
    }
}

impl Co5300Spec for AM178Q368448LK_178 {
    fn init_page_param(&self) -> u8 {
        0x00
    }

    fn ignore_id_check(&self) -> bool {
        true
    }
}

/// 466x466 AMOLED module, offset (6, 0).
#[allow(non_camel_case_types)]
pub struct AM151Q466466LK_151_C;

impl DisplaySpec for AM151Q466466LK_151_C {
    open spec fn spec_panel_spec() -> PanelSpec {
        PanelSpec {
            physical_width: 466,
            physical_height: 466,
            x_offset: 6,
            y_offset: 0,
            x_offset_rotated: 6,
            y_offset_rotated: 0,
            x_alignment: 2,
            y_alignment: 2,
            inverted: false,
            bgr: false,
        }
    }

    fn panel_spec(&self) -> (r: PanelSpec) {
        PanelSpec {
            physical_width: 466,
            physical_height: 466,
            x_offset: 6,
            y_offset: 0,
            x_offset_rotated: 6,
            y_offset_rotated: 0,
            x_alignment: 2,
            y_alignment: 2,
            inverted: false,
            bgr: false,
        }
    }
}

impl Co5300Spec for AM151Q466466LK_151_C {
    fn init_page_param(&self) -> u8 {
        0x00
    }

    fn ignore_id_check(&self) -> bool {
        true
    }
}

/// 460x460 AMOLED module, offset (10, 0).
#[allow(non_camel_case_types)]
pub struct AM200Q460460LK_200;

impl DisplaySpec for AM200Q460460LK_200 {
    open spec fn spec_panel_spec() -> PanelSpec {
        PanelSpec {
            physical_width: 460,
            physical_height: 460,
            x_offset: 10,
            y_offset: 0,
            x_offset_rotated: 10,
            y_offset_rotated: 0,
            x_alignment: 2,
            y_alignment: 2,
            inverted: false,
            bgr: false,
        }
    }

    fn panel_spec(&self) -> (r: PanelSpec) {
        PanelSpec {
            physical_width: 460,
            physical_height: 460,
            x_offset: 10,
            y_offset: 0,
            x_offset_rotated: 10,
            y_offset_rotated: 0,
            x_alignment: 2,
            y_alignment: 2,
            inverted: false,
            bgr: false,
        }
    }
}

impl Co5300Spec for AM200Q460460LK_200 {
    fn init_page_param(&self) -> u8 {
        0x00
    }

    fn ignore_id_check(&self) -> bool {
        true
    }
}

/// 410x502 AMOLED module, offset (44, 0).
#[allow(non_camel_case_types)]
pub struct H0198S005AMT005_V0_195;

impl DisplaySpec for H0198S005AMT005_V0_195 {
    open spec fn spec_panel_spec() -> PanelSpec {
        PanelSpec {
            physical_width: 410,
            physical_height: 502,
            x_offset: 44,
            y_offset: 0,
            x_offset_rotated: 44,
            y_offset_rotated: 0,
            x_alignment: 2,
            y_alignment: 2,
            inverted: false,
            bgr: false,
        }
    }

    fn panel_spec(&self) -> (r: PanelSpec) {
        PanelSpec {
            physical_width: 410,
            physical_height: 502,
            x_offset: 44,
            y_offset: 0,
            x_offset_rotated: 44,
            y_offset_rotated: 0,
            x_alignment: 2,
            y_alignment: 2,
            inverted: false,
            bgr: false,
        }
    }
}

impl Co5300Spec for H0198S005AMT005_V0_195 {
    fn init_page_param(&self) -> u8 {
        0x00
    }

    fn ignore_id_check(&self) -> bool {
        true
    }
}

/// 1.85-inch 390x450 AMOLED module.
#[allow(non_camel_case_types)]
pub struct Amoled_185Inch_390x450;

impl DisplaySpec for Amoled_185Inch_390x450 {
    open spec fn spec_panel_spec() -> PanelSpec {
        PanelSpec {
            physical_width: 390,
            physical_height: 450,
            x_offset: 0,
            y_offset: 0,
            x_offset_rotated: 0,
            y_offset_rotated: 0,
            x_alignment: 2,
            y_alignment: 2,
            inverted: false,
            bgr: false,
        }
    }

    fn panel_spec(&self) -> (r: PanelSpec) {
        PanelSpec {
            physical_width: 390,
            physical_height: 450,
            x_offset: 0,
            y_offset: 0,
            x_offset_rotated: 0,
            y_offset_rotated: 0,
            x_alignment: 2,
            y_alignment: 2,
            inverted: false,
            bgr: false,
        }
    }
}

impl Co5300Spec for Amoled_185Inch_390x450 {
    fn init_page_param(&self) -> u8 {
        0x20
    }

    fn ignore_id_check(&self) -> bool {
        true
    }
}

/// A generic module with placeholder dimensions.
#[allow(non_camel_case_types)]
pub struct GenericCo5300;

impl DisplaySpec for GenericCo5300 {
    open spec fn spec_panel_spec() -> PanelSpec {
        PanelSpec {
            physical_width: 240,
            physical_height: 240,
            x_offset: 0,
            y_offset: 0,
            x_offset_rotated: 0,
            y_offset_rotated: 0,
            x_alignment: 2,
            y_alignment: 2,
            inverted: false,
            bgr: false,
        }
    }

    fn panel_spec(&self) -> (r: PanelSpec) {
        PanelSpec {
            physical_width: 240,
            physical_height: 240,
            x_offset: 0,
            y_offset: 0,
            x_offset_rotated: 0,
            y_offset_rotated: 0,
            x_alignment: 2,
            y_alignment: 2,
            inverted: false,
            bgr: false,
        }
    }
}

impl Co5300Spec for GenericCo5300 {
    fn init_page_param(&self) -> u8 {
        0x20
    }

    fn ignore_id_check(&self) -> bool {
        true
    }
}

} // verus!
