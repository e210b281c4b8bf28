//! ST7789 panel models: per-module tuning tables and the controller's
//! initialization sequence.

use vstd::prelude::*;

use crate::dcs::{ENTER_INVERT_MODE, EXIT_INVERT_MODE, EXIT_SLEEP_MODE, SET_ADDRESS_MODE,
    SET_DISPLAY_ON, SET_PIXEL_FORMAT};
use crate::panel::initseq::{InitStep, push_cmd, push_cmd_params, push_delay, push_step,
    steps_well_formed};
use crate::panel::{DisplaySpec, PanelSpec};

verus! {

/// RAM Control. Parameters: 2.
pub const RAMCTRL: u8 = 0xB0;

/// Porch Setting. Parameters: 5.
pub const PORCTRL: u8 = 0xB2;

/// Gate Control. Parameters: 1.
pub const GCTRL: u8 = 0xB7;

/// VCOM Setting. Parameters: 1.
pub const VCOMS: u8 = 0xBB;

/// LCM Control. Parameters: 1.
pub const LCMCTRL: u8 = 0xC0;

/// VDV and VRH Command Enable. Parameters: 2.
pub const VDVVRHEN: u8 = 0xC2;

/// VRH Set. Parameters: 1.
pub const VRHS: u8 = 0xC3;

/// VDV Set. Parameters: 1.
pub const VDVS: u8 = 0xC4;

/// Frame Rate Control in Normal Mode. Parameters: 1.
pub const FRCTRL2: u8 = 0xC6;

/// Power Control 1. Parameters: 2.
pub const PWCTRL1: u8 = 0xD0;

/// Gate Output Selection in Sleep In Mode. Parameters: 1.
pub const GATESEL: u8 = 0xD6;

/// Positive Voltage Gamma Control. Parameters: 14.
pub const PVGAMCTRL: u8 = 0xE0;

/// Negative Voltage Gamma Control. Parameters: 14.
pub const NVGAMCTRL: u8 = 0xE1;

/// Power Control 2. Parameters: 1.
pub const PWCTRL2: u8 = 0xE8;

/// Equalize time control. Parameters: 3.
pub const EQCTRL: u8 = 0xE9;

/// Write Display Brightness. Parameters: 1.
pub const WRDISBV: u8 = 0x51;

/// The tuning parameters an ST7789 module's initialization writes.
pub struct St7789InitParams {
    /// Porch setting.
    pub porctrl: Vec<u8>,
    /// Gate control.
    pub gctrl: u8,
    /// VCOM setting.
    pub vcoms: u8,
    /// LCM control.
    pub lcmctrl: u8,
    /// VRH set.
    pub vrhs: u8,
    /// VDV set.
    pub vdvs: u8,
    /// Frame rate control in normal mode.
    pub frctrl2: u8,
    /// Power control 1.
    pub pwctrl1: Vec<u8>,
    /// Positive voltage gamma table.
    pub pvgamctrl: Vec<u8>,
    /// Negative voltage gamma table.
    pub nvgamctrl: Vec<u8>,
    /// Power control 2, where the module specifies it.
    pub pwctrl2: Option<Vec<u8>>,
    /// Equalize time control, where the module specifies it.
    pub eqctrl: Option<Vec<u8>>,
    /// Gate output selection, where the module specifies it.
    pub gatesel: Option<Vec<u8>>,
}

/// Specification for ST7789 initialization differences.
pub trait St7789Spec: DisplaySpec {
    /// The tuning parameters of this module.
    fn init_params(&self) -> St7789InitParams;
}

/// The default generic ST7789 tuning.
pub fn st7789_generic_params() -> St7789InitParams {
    St7789InitParams {
        porctrl: vec![0x0C, 0x0C, 0x00, 0x33, 0x33],
        gctrl: 0x35,
        vcoms: 0x19,
        lcmctrl: 0x2C,
        vrhs: 0x12,
        vdvs: 0x20,
        frctrl2: 0x0F,
        pwctrl1: vec![0xA4, 0xA1],
        pvgamctrl: vec![
            0xD0, 0x04, 0x0D, 0x11, 0x13, 0x2B, 0x3F, 0x54, 0x4C, 0x18, 0x0D, 0x0B, 0x1F, 0x23,
        ],
        nvgamctrl: vec![
            0xD0, 0x04, 0x0C, 0x11, 0x13, 0x2C, 0x3F, 0x44, 0x51, 0x2F, 0x1F, 0x1F, 0x20, 0x23,
        ],
        pwctrl2: None,
        eqctrl: None,
        gatesel: None,
    }
}

/// The ST7789 initialization sequence: sleep-out, 16-bit pixel format, porch
/// and power tuning, the gamma tables, inversion and color order per the
/// panel, then display-on.
pub fn st7789_init_steps(params: St7789InitParams, panel: &PanelSpec) -> (r: Vec<InitStep>)
    ensures
        steps_well_formed(r@),
{
    let mut steps: Vec<InitStep> = Vec::new();
    proof {
        assert(steps_well_formed(steps@));
    }
    push_cmd(&mut steps, EXIT_SLEEP_MODE);
    push_delay(&mut steps, 120);
    push_cmd_params(&mut steps, SET_PIXEL_FORMAT, vec![0x55]);
    push_cmd_params(&mut steps, PORCTRL, params.porctrl);
    push_cmd_params(&mut steps, GCTRL, vec![params.gctrl]);
    push_cmd_params(&mut steps, VCOMS, vec![params.vcoms]);
    push_cmd_params(&mut steps, LCMCTRL, vec![params.lcmctrl]);
    push_cmd_params(&mut steps, VDVVRHEN, vec![0x01, 0xFF]);
    push_cmd_params(&mut steps, VRHS, vec![params.vrhs]);
    push_cmd_params(&mut steps, VDVS, vec![params.vdvs]);
    push_cmd_params(&mut steps, FRCTRL2, vec![params.frctrl2]);
    push_cmd_params(&mut steps, PWCTRL1, params.pwctrl1);
    let pw2 = InitStep::param_option_to_step(PWCTRL2, params.pwctrl2);
    push_step(&mut steps, pw2);
    let eq = InitStep::param_option_to_step(EQCTRL, params.eqctrl);
    push_step(&mut steps, eq);
    let gs = InitStep::param_option_to_step(GATESEL, params.gatesel);
    push_step(&mut steps, gs);
    push_cmd_params(&mut steps, PVGAMCTRL, params.pvgamctrl);
    push_cmd_params(&mut steps, NVGAMCTRL, params.nvgamctrl);
    let invert = InitStep::select_cmd(panel.inverted, ENTER_INVERT_MODE, EXIT_INVERT_MODE);
    push_step(&mut steps, invert);
    let madctl: u8 = if panel.bgr {
        8
    } else {
        0
    };
    push_cmd_params(&mut steps, SET_ADDRESS_MODE, vec![madctl]);
    push_cmd(&mut steps, SET_DISPLAY_ON);
    push_delay(&mut steps, 120);
    steps
}

/// 240x320, offset (0, 0), inverted, RGB.
pub struct Generic240x320Type1;

impl DisplaySpec for Generic240x320Type1 {
    open spec fn spec_panel_spec() -> PanelSpec {
        PanelSpec {
            physical_width: 240,
            physical_height: 320,
            x_offset: 0,
            y_offset: 0,
            x_offset_rotated: 0,
            y_offset_rotated: 0,
            x_alignment: 1,
            y_alignment: 1,
            inverted: true,
            bgr: false,
        }
    }

    fn panel_spec(&self) -> (r: PanelSpec) {
        PanelSpec {
            physical_width: 240,
            physical_height: 320,
            x_offset: 0,
            y_offset: 0,
            x_offset_rotated: 0,
            y_offset_rotated: 0,
            x_alignment: 1,
            y_alignment: 1,
            inverted: true,
            bgr: false,
        }
    }
}

impl St7789Spec for Generic240x320Type1 {
    fn init_params(&self) -> St7789InitParams {
        st7789_generic_params()
    }
}

/// 240x240, offset (0, 0), offset (0, 80) when rotated, inverted, RGB.
pub struct Generic240x240Type1;

impl DisplaySpec for Generic240x240Type1 {
    open spec fn spec_panel_spec() -> PanelSpec {
        PanelSpec {
            physical_width: 240,
            physical_height: 240,
            x_offset: 0,
            y_offset: 0,
            x_offset_rotated: 0,
            y_offset_rotated: 80,
            x_alignment: 1,
            y_alignment: 1,
            inverted: true,
            bgr: false,
        }
    }

    fn panel_spec(&self) -> (r: PanelSpec) {
        PanelSpec {
            physical_width: 240,
            physical_height: 240,
            x_offset: 0,
            y_offset: 0,
            x_offset_rotated: 0,
            y_offset_rotated: 80,
            x_alignment: 1,
            y_alignment: 1,
            inverted: true,
            bgr: false,
        }
    }
}

impl St7789Spec for Generic240x240Type1 {
    fn init_params(&self) -> St7789InitParams {
        st7789_generic_params()
    }
}

/// 135x240, offset (52, 40), offset (53, 40) when rotated, inverted, RGB.
pub struct Generic135x240Type1;

impl DisplaySpec for Generic135x240Type1 {
    open spec fn spec_panel_spec() -> PanelSpec {
        PanelSpec {
            physical_width: 135,
            physical_height: 240,
            x_offset: 52,
            y_offset: 40,
            x_offset_rotated: 53,
            y_offset_rotated: 40,
            x_alignment: 1,
            y_alignment: 1,
            inverted: true,
            bgr: false,
        }
    }

    fn panel_spec(&self) -> (r: PanelSpec) {
        PanelSpec {
            physical_width: 135,
            physical_height: 240,
            x_offset: 52,
            y_offset: 40,
            x_offset_rotated: 53,
            y_offset_rotated: 40,
            x_alignment: 1,
            y_alignment: 1,
            inverted: true,
            bgr: false,
        }
    }
}

impl St7789Spec for Generic135x240Type1 {
    fn init_params(&self) -> St7789InitParams {
        st7789_generic_params()
    }
}

/// 1.69-inch 240x280, offset (0, 20), inverted, RGB.
pub struct Generic240x280Type1;

impl DisplaySpec for Generic240x280Type1 {
    open spec fn spec_panel_spec() -> PanelSpec {
        PanelSpec {
            physical_width: 240,
            physical_height: 280,
            x_offset: 0,
            y_offset: 20,
            x_offset_rotated: 0,
            y_offset_rotated: 20,
            x_alignment: 1,
            y_alignment: 1,
            inverted: true,
            bgr: false,
        }
    }

    fn panel_spec(&self) -> (r: PanelSpec) {
        PanelSpec {
            physical_width: 240,
            physical_height: 280,
            x_offset: 0,
            y_offset: 20,
            x_offset_rotated: 0,
            y_offset_rotated: 20,
            x_alignment: 1,
            y_alignment: 1,
            inverted: true,
            bgr: false,
        }
    }
}

impl St7789Spec for Generic240x280Type1 {
    fn init_params(&self) -> St7789InitParams {
        st7789_generic_params()
    }
}

/// 1.47-inch 172x320, offset (34, 0), inverted, RGB.
pub struct Generic172x320Type1;

impl DisplaySpec for Generic172x320Type1 {
    open spec fn spec_panel_spec() -> PanelSpec {
        PanelSpec {
            physical_width: 172,
            physical_height: 320,
            x_offset: 34,
            y_offset: 0,
            x_offset_rotated: 34,
            y_offset_rotated: 0,
            x_alignment: 1,
            y_alignment: 1,
            inverted: true,
            bgr: false,
        }
    }

    fn panel_spec(&self) -> (r: PanelSpec) {
        PanelSpec {
            physical_width: 172,
            physical_height: 320,
            x_offset: 34,
            y_offset: 0,
            x_offset_rotated: 34,
            y_offset_rotated: 0,
            x_alignment: 1,
            y_alignment: 1,
            inverted: true,
            bgr: false,
        }
    }
}

impl St7789Spec for Generic172x320Type1 {
    fn init_params(&self) -> St7789InitParams {
        st7789_generic_params()
    }
}

/// 170x320, offset (35, 0), inverted, RGB.
pub struct Generic170x320Type1;

impl DisplaySpec for Generic170x320Type1 {
    open spec fn spec_panel_spec() -> PanelSpec {
        PanelSpec {
            physical_width: 170,
            physical_height: 320,
            x_offset: 35,
            y_offset: 0,
            x_offset_rotated: 35,
            y_offset_rotated: 0,
            x_alignment: 1,
            y_alignment: 1,
            inverted: true,
            bgr: false,
        }
    }

    fn panel_spec(&self) -> (r: PanelSpec) {
        PanelSpec {
            physical_width: 170,
            physical_height: 320,
            x_offset: 35,
            y_offset: 0,
            x_offset_rotated: 35,
            y_offset_rotated: 0,
            x_alignment: 1,
            y_alignment: 1,
            inverted: true,
            bgr: false,
        }
    }
}

impl St7789Spec for Generic170x320Type1 {
    fn init_params(&self) -> St7789InitParams {
        st7789_generic_params()
    }
}

/// 1.54-inch 240x240 module, offset (0, 0), offset (0, 80) when rotated.
pub struct TB154;

impl DisplaySpec for TB154 {
    open spec fn spec_panel_spec() -> PanelSpec {
        PanelSpec {
            physical_width: 240,
            physical_height: 240,
            x_offset: 0,
            y_offset: 0,
            x_offset_rotated: 0,
            y_offset_rotated: 80,
            x_alignment: 1,
            y_alignment: 1,
            inverted: true,
            bgr: false,
        }
    }

    fn panel_spec(&self) -> (r: PanelSpec) {
        PanelSpec {
            physical_width: 240,
            physical_height: 240,
            x_offset: 0,
            y_offset: 0,
            x_offset_rotated: 0,
            y_offset_rotated: 80,
            x_alignment: 1,
            y_alignment: 1,
            inverted: true,
            bgr: false,
        }
    }
}

impl St7789Spec for TB154 {
    fn init_params(&self) -> St7789InitParams {
        st7789_generic_params()
    }
}

/// 1.14-inch 135x240 module.
#[allow(non_camel_case_types)]
pub struct GMT114_02;

impl DisplaySpec for GMT114_02 {
    open spec fn spec_panel_spec() -> PanelSpec {
        PanelSpec {
            physical_width: 135,
            physical_height: 240,
            x_offset: 52,
            y_offset: 40,
            x_offset_rotated: 53,
            y_offset_rotated: 40,
            x_alignment: 1,
            y_alignment: 1,
            inverted: true,
            bgr: false,
        }
    }

    fn panel_spec(&self) -> (r: PanelSpec) {
        PanelSpec {
            physical_width: 135,
            physical_height: 240,
            x_offset: 52,
            y_offset: 40,
            x_offset_rotated: 53,
            y_offset_rotated: 40,
            x_alignment: 1,
            y_alignment: 1,
            inverted: true,
            bgr: false,
        }
    }
}

impl St7789Spec for GMT114_02 {
    fn init_params(&self) -> St7789InitParams {
        St7789InitParams {
            porctrl: vec![0x05, 0x05, 0x00, 0x33, 0x33],
            gctrl: 0x05,
            vcoms: 0x3F,
            lcmctrl: 0x2C,
            vrhs: 0x0F,
            vdvs: 0x20,
            frctrl2: 0x01,
            pwctrl1: vec![0xA4, 0xA1],
            pvgamctrl: vec![
                0xD0, 0x05, 0x09, 0x09, 0x08, 0x14, 0x28, 0x33, 0x3F, 0x07, 0x13, 0x14, 0x28,
                0x30,
            ],
            nvgamctrl: vec![
                0xD0, 0x05, 0x09, 0x09, 0x08, 0x03, 0x24, 0x32, 0x32, 0x3B, 0x14, 0x13, 0x28,
                0x2F,
            ],
            pwctrl2: Some(vec![0x03]),
            eqctrl: Some(vec![0x09, 0x09, 0x08]),
            gatesel: None,
        }
    }
}

/// 1.14-inch 135x240 module.
#[allow(non_camel_case_types)]
pub struct N114_2413THBIG01_H13;

impl DisplaySpec for N114_2413THBIG01_H13 {
    open spec fn spec_panel_spec() -> PanelSpec {
        PanelSpec {
            physical_width: 135,
            physical_height: 240,
            x_offset: 52,
            y_offset: 40,
            x_offset_rotated: 53,
            y_offset_rotated: 40,
            x_alignment: 1,
            y_alignment: 1,
            inverted: true,
            bgr: false,
        }
    }

    fn panel_spec(&self) -> (r: PanelSpec) {
        PanelSpec {
            physical_width: 135,
            physical_height: 240,
            x_offset: 52,
            y_offset: 40,
            x_offset_rotated: 53,
            y_offset_rotated: 40,
            x_alignment: 1,
            y_alignment: 1,
            inverted: true,
            bgr: false,
        }
    }
}

impl St7789Spec for N114_2413THBIG01_H13 {
    fn init_params(&self) -> St7789InitParams {
        St7789InitParams {
            porctrl: vec![0x05, 0x05, 0x00, 0x33, 0x33],
            gctrl: 0x23,
            vcoms: 0x22,
            lcmctrl: 0x2C,
            vrhs: 0x13,
            vdvs: 0x20,
            frctrl2: 0x0F,
            pwctrl1: vec![0xA4, 0xA1],
            pvgamctrl: vec![
                0x70, 0x06, 0x0C, 0x08, 0x09, 0x27, 0x2E, 0x34, 0x46, 0x37, 0x13, 0x13, 0x25,
                0x2A,
            ],
            nvgamctrl: vec![
                0x70, 0x04, 0x08, 0x09, 0x07, 0x03, 0x2C, 0x42, 0x42, 0x38, 0x14, 0x14, 0x27,
                0x2C,
            ],
            pwctrl2: None,
            eqctrl: None,
            gatesel: Some(vec![0xA1]),
        }
    }
}

} // verus!
