//! ST7735 panel models: per-module tuning tables and the controller's
//! initialization sequence.

use vstd::prelude::*;

use crate::dcs::{ENTER_INVERT_MODE, EXIT_INVERT_MODE, EXIT_SLEEP_MODE, SET_ADDRESS_MODE,
    SET_DISPLAY_ON};
use crate::panel::initseq::{InitStep, push_cmd, push_cmd_params, push_delay, push_step,
    steps_well_formed};
use crate::panel::{DisplaySpec, PanelSpec};

verus! {

/// Frame Rate Control (normal mode / full colors). Parameters: 3.
pub const FRMCTR1: u8 = 0xB1;

/// Frame Rate Control (idle mode / 8 colors). Parameters: 3.
pub const FRMCTR2: u8 = 0xB2;

/// Frame Rate Control (partial mode / full colors). Parameters: 6.
pub const FRMCTR3: u8 = 0xB3;

/// Display Inversion Control. Parameters: 1.
pub const INVCTR: u8 = 0xB4;

/// Power Control 1. Parameters: 3.
pub const PWCTR1: u8 = 0xC0;

/// Power Control 2. Parameters: 1.
pub const PWCTR2: u8 = 0xC1;

/// Power Control 3 (normal mode). Parameters: 2.
pub const PWCTR3: u8 = 0xC2;

/// Power Control 4 (idle mode). Parameters: 2.
pub const PWCTR4: u8 = 0xC3;

/// Power Control 5 (partial mode). Parameters: 2.
pub const PWCTR5: u8 = 0xC4;

/// VCOM Control 1. Parameters: 1.
pub const VMCTR1: u8 = 0xC5;

/// Gamma (positive polarity) correction setting. Parameters: 16.
pub const GMCTRP1: u8 = 0xE0;

/// Gamma (negative polarity) correction setting. Parameters: 16.
pub const GMCTRN1: u8 = 0xE1;

/// The tuning parameters an ST7735 module's initialization writes.
pub struct St7735InitParams {
    /// Frame rate control, normal mode.
    pub frmctr1: Vec<u8>,
    /// Frame rate control, idle mode.
    pub frmctr2: Vec<u8>,
    /// Frame rate control, partial mode.
    pub frmctr3: Vec<u8>,
    /// Display inversion control.
    pub invctr: u8,
    /// Power control 1.
    pub pwctr1: Vec<u8>,
    /// Power control 2.
    pub pwctr2: u8,
    /// Power control 3.
    pub pwctr3: Vec<u8>,
    /// Power control 4.
    pub pwctr4: Vec<u8>,
    /// Power control 5.
    pub pwctr5: Vec<u8>,
    /// VCOM control 1.
    pub vmctr1: u8,
    /// Positive gamma table, where the module specifies one.
    pub gmctrp1: Option<Vec<u8>>,
    /// Negative gamma table, where the module specifies one.
    pub gmctrn1: Option<Vec<u8>>,
}

/// Specification for ST7735 initialization differences.
pub trait St7735Spec: DisplaySpec {
    /// The tuning parameters of this module.
    fn init_params(&self) -> St7735InitParams;
}

/// The widespread tuning values most ST7735 modules ship with.
pub fn initr_init_params() -> St7735InitParams {
    St7735InitParams {
        frmctr1: vec![0x01, 0x2C, 0x2D],
        frmctr2: vec![0x01, 0x2C, 0x2D],
        frmctr3: vec![0x01, 0x2C, 0x2D, 0x01, 0x2C, 0x2D],
        invctr: 0x07,
        pwctr1: vec![0xA2, 0x02, 0x84],
        pwctr2: 0xC5,
        pwctr3: vec![0x0A, 0x00],
        pwctr4: vec![0x8A, 0x2A],
        pwctr5: vec![0x8A, 0xEE],
        vmctr1: 0x0E,
        gmctrp1: Some(
            vec![
                0x02, 0x1C, 0x07, 0x12, 0x37, 0x32, 0x29, 0x2D, 0x29, 0x25, 0x2B, 0x39, 0x00,
                0x01, 0x03, 0x10,
            ],
        ),
        gmctrn1: Some(
            vec![
                0x03, 0x1D, 0x07, 0x06, 0x2E, 0x2C, 0x29, 0x2D, 0x2E, 0x2E, 0x37, 0x3F, 0x00,
                0x00, 0x02, 0x10,
            ],
        ),
    }
}

/// Tuning values for the 1.44-inch 128x128 modules running at 80 Hz with dot
/// inversion.
pub fn p144_init_params() -> St7735InitParams {
    St7735InitParams {
        frmctr1: vec![0x02, 0x35, 0x36],
        frmctr2: vec![0x02, 0x35, 0x36],
        frmctr3: vec![0x02, 0x35, 0x36, 0x02, 0x35, 0x36],
        invctr: 0x03,
        pwctr1: vec![0xA2, 0x02, 0x84],
        pwctr2: 0xC5,
        pwctr3: vec![0x0D, 0x00],
        pwctr4: vec![0x8D, 0x2A],
        pwctr5: vec![0x8D, 0xEE],
        vmctr1: 0x0A,
        gmctrp1: Some(
            vec![
                0x12, 0x1C, 0x10, 0x18, 0x33, 0x2C, 0x25, 0x28, 0x28, 0x27, 0x2F, 0x3C, 0x00,
                0x03, 0x03, 0x10,
            ],
        ),
        gmctrn1: Some(
            vec![
                0x12, 0x1C, 0x10, 0x18, 0x2D, 0x28, 0x23, 0x28, 0x28, 0x26, 0x2F, 0x3B, 0x00,
                0x03, 0x03, 0x10,
            ],
        ),
    }
}

/// Tuning values for the 1.77-inch 128x160 modules.
pub fn cl177_init_params() -> St7735InitParams {
    St7735InitParams {
        frmctr1: vec![0x00, 0x2C, 0x2B],
        frmctr2: vec![0x00, 0x01, 0x01],
        frmctr3: vec![0x00, 0x01, 0x01, 0x00, 0x01, 0x01],
        invctr: 0x03,
        pwctr1: vec![0xA2, 0x02, 0x84],
        pwctr2: 0x02,
        pwctr3: vec![0x0A, 0x00],
        pwctr4: vec![0x8A, 0x2A],
        pwctr5: vec![0x8A, 0xEE],
        vmctr1: 0x09,
        gmctrp1: Some(
            vec![
                0x0C, 0x1C, 0x1B, 0x1A, 0x2F, 0x28, 0x20, 0x24, 0x23, 0x22, 0x2A, 0x36, 0x00,
                0x05, 0x00, 0x10,
            ],
        ),
        gmctrn1: Some(
            vec![
                0x0C, 0x1A, 0x1A, 0x1A, 0x2E, 0x27, 0x21, 0x24, 0x24, 0x22, 0x2A, 0x35, 0x00,
                0x05, 0x00, 0x10,
            ],
        ),
    }
}

/// The ST7735 initialization sequence: sleep-out, frame-rate, power and VCOM
/// tuning, inversion and color order per the panel, the optional gamma
/// tables, then display-on.
pub fn st7735_init_steps(params: St7735InitParams, panel: &PanelSpec) -> (r: Vec<InitStep>)
    ensures
        steps_well_formed(r@),
{
    let mut steps: Vec<InitStep> = Vec::new();
    proof {
        assert(steps_well_formed(steps@));
    }
    push_cmd(&mut steps, EXIT_SLEEP_MODE);
    push_delay(&mut steps, 120);
    push_cmd_params(&mut steps, FRMCTR1, params.frmctr1);
    push_cmd_params(&mut steps, FRMCTR2, params.frmctr2);
    push_cmd_params(&mut steps, FRMCTR3, params.frmctr3);
    push_cmd_params(&mut steps, INVCTR, vec![params.invctr]);
    push_cmd_params(&mut steps, PWCTR1, params.pwctr1);
    push_cmd_params(&mut steps, PWCTR2, vec![params.pwctr2]);
    push_cmd_params(&mut steps, PWCTR3, params.pwctr3);
    push_cmd_params(&mut steps, PWCTR4, params.pwctr4);
    push_cmd_params(&mut steps, PWCTR5, params.pwctr5);
    push_cmd_params(&mut steps, VMCTR1, vec![params.vmctr1]);
    let invert = InitStep::select_cmd(panel.inverted, ENTER_INVERT_MODE, EXIT_INVERT_MODE);
    push_step(&mut steps, invert);
    let madctl: u8 = if panel.bgr {
        8
    } else {
        0
    };
    push_cmd_params(&mut steps, SET_ADDRESS_MODE, vec![madctl]);
    let gp = InitStep::param_option_to_step(GMCTRP1, params.gmctrp1);
    push_step(&mut steps, gp);
    let gn = InitStep::param_option_to_step(GMCTRN1, params.gmctrn1);
    push_step(&mut steps, gn);
    push_cmd(&mut steps, SET_DISPLAY_ON);
    push_delay(&mut steps, 20);
    steps
}

/// 128x160, offset (0, 0), not inverted, BGR. Known as the red-tab module.
pub struct Generic128_160Type1;

impl DisplaySpec for Generic128_160Type1 {
    open spec fn spec_panel_spec() -> PanelSpec {
        PanelSpec {
            physical_width: 128,
            physical_height: 160,
            x_offset: 0,
            y_offset: 0,
            x_offset_rotated: 0,
            y_offset_rotated: 0,
            x_alignment: 1,
            y_alignment: 1,
            inverted: false,
            bgr: true,
        }
    }

    fn panel_spec(&self) -> (r: PanelSpec) {
        PanelSpec {
            physical_width: 128,
            physical_height: 160,
            x_offset: 0,
            y_offset: 0,
            x_offset_rotated: 0,
            y_offset_rotated: 0,
            x_alignment: 1,
            y_alignment: 1,
            inverted: false,
            bgr: true,
        }
    }
}

impl St7735Spec for Generic128_160Type1 {
    fn init_params(&self) -> St7735InitParams {
        initr_init_params()
    }
}

/// 128x160, offset (0, 0), not inverted, RGB. Known as the black-tab module.
pub struct Generic128_160Type2;

impl DisplaySpec for Generic128_160Type2 {
    open spec fn spec_panel_spec() -> PanelSpec {
        PanelSpec {
            physical_width: 128,
            physical_height: 160,
            x_offset: 0,
            y_offset: 0,
            x_offset_rotated: 0,
            y_offset_rotated: 0,
            x_alignment: 1,
            y_alignment: 1,
            inverted: false,
            bgr: false,
        }
    }

    fn panel_spec(&self) -> (r: PanelSpec) {
        PanelSpec {
            physical_width: 128,
            physical_height: 160,
            x_offset: 0,
            y_offset: 0,
            x_offset_rotated: 0,
            y_offset_rotated: 0,
            x_alignment: 1,
            y_alignment: 1,
            inverted: false,
            bgr: false,
        }
    }
}

impl St7735Spec for Generic128_160Type2 {
    fn init_params(&self) -> St7735InitParams {
        initr_init_params()
    }
}

/// 128x160, offset (2, 1), not inverted, BGR. Known as the green-tab module.
pub struct Generic128_160Type3;

impl DisplaySpec for Generic128_160Type3 {
    open spec fn spec_panel_spec() -> PanelSpec {
        PanelSpec {
            physical_width: 128,
            physical_height: 160,
            x_offset: 2,
            y_offset: 1,
            x_offset_rotated: 2,
            y_offset_rotated: 1,
            x_alignment: 1,
            y_alignment: 1,
            inverted: false,
            bgr: true,
        }
    }

    fn panel_spec(&self) -> (r: PanelSpec) {
        PanelSpec {
            physical_width: 128,
            physical_height: 160,
            x_offset: 2,
            y_offset: 1,
            x_offset_rotated: 2,
            y_offset_rotated: 1,
            x_alignment: 1,
            y_alignment: 1,
            inverted: false,
            bgr: true,
        }
    }
}

impl St7735Spec for Generic128_160Type3 {
    fn init_params(&self) -> St7735InitParams {
        initr_init_params()
    }
}

/// 128x160, offset (2, 1), not inverted, RGB.
pub struct Generic128_160Type4;

impl DisplaySpec for Generic128_160Type4 {
    open spec fn spec_panel_spec() -> PanelSpec {
        PanelSpec {
            physical_width: 128,
            physical_height: 160,
            x_offset: 2,
            y_offset: 1,
            x_offset_rotated: 2,
            y_offset_rotated: 1,
            x_alignment: 1,
            y_alignment: 1,
            inverted: false,
            bgr: false,
        }
    }

    fn panel_spec(&self) -> (r: PanelSpec) {
        PanelSpec {
            physical_width: 128,
            physical_height: 160,
            x_offset: 2,
            y_offset: 1,
            x_offset_rotated: 2,
            y_offset_rotated: 1,
            x_alignment: 1,
            y_alignment: 1,
            inverted: false,
            bgr: false,
        }
    }
}

impl St7735Spec for Generic128_160Type4 {
    fn init_params(&self) -> St7735InitParams {
        initr_init_params()
    }
}

/// 128x160, offset (2, 1), offset (2, 3) when rotated, not inverted, BGR.
pub struct Generic128_160Type5;

impl DisplaySpec for Generic128_160Type5 {
    open spec fn spec_panel_spec() -> PanelSpec {
        PanelSpec {
            physical_width: 128,
            physical_height: 160,
            x_offset: 2,
            y_offset: 1,
            x_offset_rotated: 2,
            y_offset_rotated: 3,
            x_alignment: 1,
            y_alignment: 1,
            inverted: false,
            bgr: true,
        }
    }

    fn panel_spec(&self) -> (r: PanelSpec) {
        PanelSpec {
            physical_width: 128,
            physical_height: 160,
            x_offset: 2,
            y_offset: 1,
            x_offset_rotated: 2,
            y_offset_rotated: 3,
            x_alignment: 1,
            y_alignment: 1,
            inverted: false,
            bgr: true,
        }
    }
}

impl St7735Spec for Generic128_160Type5 {
    fn init_params(&self) -> St7735InitParams {
        initr_init_params()
    }
}

/// 80x160, offset (24, 0), not inverted, RGB.
pub struct Generic80_160_Type1;

impl DisplaySpec for Generic80_160_Type1 {
    open spec fn spec_panel_spec() -> PanelSpec {
        PanelSpec {
            physical_width: 80,
            physical_height: 160,
            x_offset: 24,
            y_offset: 0,
            x_offset_rotated: 24,
            y_offset_rotated: 0,
            x_alignment: 1,
            y_alignment: 1,
            inverted: false,
            bgr: false,
        }
    }

    fn panel_spec(&self) -> (r: PanelSpec) {
        PanelSpec {
            physical_width: 80,
            physical_height: 160,
            x_offset: 24,
            y_offset: 0,
            x_offset_rotated: 24,
            y_offset_rotated: 0,
            x_alignment: 1,
            y_alignment: 1,
            inverted: false,
            bgr: false,
        }
    }
}

impl St7735Spec for Generic80_160_Type1 {
    fn init_params(&self) -> St7735InitParams {
        initr_init_params()
    }
}

/// 80x160, offset (24, 0), not inverted, BGR.
pub struct Generic80_160_Type2;

impl DisplaySpec for Generic80_160_Type2 {
    open spec fn spec_panel_spec() -> PanelSpec {
        PanelSpec {
            physical_width: 80,
            physical_height: 160,
            x_offset: 24,
            y_offset: 0,
            x_offset_rotated: 24,
            y_offset_rotated: 0,
            x_alignment: 1,
            y_alignment: 1,
            inverted: false,
            bgr: true,
        }
    }

    fn panel_spec(&self) -> (r: PanelSpec) {
        PanelSpec {
            physical_width: 80,
            physical_height: 160,
            x_offset: 24,
            y_offset: 0,
            x_offset_rotated: 24,
            y_offset_rotated: 0,
            x_alignment: 1,
            y_alignment: 1,
            inverted: false,
            bgr: true,
        }
    }
}

impl St7735Spec for Generic80_160_Type2 {
    fn init_params(&self) -> St7735InitParams {
        initr_init_params()
    }
}

/// 80x160, offset (26, 1), inverted, BGR.
pub struct Generic80_160_Type3;

impl DisplaySpec for Generic80_160_Type3 {
    open spec fn spec_panel_spec() -> PanelSpec {
        PanelSpec {
            physical_width: 80,
            physical_height: 160,
            x_offset: 26,
            y_offset: 1,
            x_offset_rotated: 26,
            y_offset_rotated: 1,
            x_alignment: 1,
            y_alignment: 1,
            inverted: true,
            bgr: true,
        }
    }

    fn panel_spec(&self) -> (r: PanelSpec) {
        PanelSpec {
            physical_width: 80,
            physical_height: 160,
            x_offset: 26,
            y_offset: 1,
            x_offset_rotated: 26,
            y_offset_rotated: 1,
            x_alignment: 1,
            y_alignment: 1,
            inverted: true,
            bgr: true,
        }
    }
}

impl St7735Spec for Generic80_160_Type3 {
    fn init_params(&self) -> St7735InitParams {
        initr_init_params()
    }
}

/// 128x128, offset (2, 1), offset (2, 3) when rotated, not inverted, BGR.
pub struct Generic128_128_Type1;

impl DisplaySpec for Generic128_128_Type1 {
    open spec fn spec_panel_spec() -> PanelSpec {
        PanelSpec {
            physical_width: 128,
            physical_height: 128,
            x_offset: 2,
            y_offset: 1,
            x_offset_rotated: 2,
            y_offset_rotated: 3,
            x_alignment: 1,
            y_alignment: 1,
            inverted: false,
            bgr: true,
        }
    }

    fn panel_spec(&self) -> (r: PanelSpec) {
        PanelSpec {
            physical_width: 128,
            physical_height: 128,
            x_offset: 2,
            y_offset: 1,
            x_offset_rotated: 2,
            y_offset_rotated: 3,
            x_alignment: 1,
            y_alignment: 1,
            inverted: false,
            bgr: true,
        }
    }
}

impl St7735Spec for Generic128_128_Type1 {
    fn init_params(&self) -> St7735InitParams {
        initr_init_params()
    }
}

/// 128x128, offset (0, 0), offset (0, 32) when rotated, not inverted, BGR.
pub struct Generic128_128_Type2;

impl DisplaySpec for Generic128_128_Type2 {
    open spec fn spec_panel_spec() -> PanelSpec {
        PanelSpec {
            physical_width: 128,
            physical_height: 128,
            x_offset: 0,
            y_offset: 0,
            x_offset_rotated: 0,
            y_offset_rotated: 32,
            x_alignment: 1,
            y_alignment: 1,
            inverted: false,
            bgr: true,
        }
    }

    fn panel_spec(&self) -> (r: PanelSpec) {
        PanelSpec {
            physical_width: 128,
            physical_height: 128,
            x_offset: 0,
            y_offset: 0,
            x_offset_rotated: 0,
            y_offset_rotated: 32,
            x_alignment: 1,
            y_alignment: 1,
            inverted: false,
            bgr: true,
        }
    }
}

impl St7735Spec for Generic128_128_Type2 {
    fn init_params(&self) -> St7735InitParams {
        initr_init_params()
    }
}

/// 1.8-inch 128x160 display, offset (2, 1).
#[allow(non_camel_case_types)]
pub struct InitR_GreenTab;

impl DisplaySpec for InitR_GreenTab {
    open spec fn spec_panel_spec() -> PanelSpec {
        PanelSpec {
            physical_width: 128,
            physical_height: 160,
            x_offset: 2,
            y_offset: 1,
            x_offset_rotated: 2,
            y_offset_rotated: 1,
            x_alignment: 1,
            y_alignment: 1,
            inverted: false,
            bgr: true,
        }
    }

    fn panel_spec(&self) -> (r: PanelSpec) {
        PanelSpec {
            physical_width: 128,
            physical_height: 160,
            x_offset: 2,
            y_offset: 1,
            x_offset_rotated: 2,
            y_offset_rotated: 1,
            x_alignment: 1,
            y_alignment: 1,
            inverted: false,
            bgr: true,
        }
    }
}

impl St7735Spec for InitR_GreenTab {
    fn init_params(&self) -> St7735InitParams {
        initr_init_params()
    }
}

/// 1.8-inch 128x160 display, offset (0, 0).
#[allow(non_camel_case_types)]
pub struct InitR_RedTab;

impl DisplaySpec for InitR_RedTab {
    open spec fn spec_panel_spec() -> PanelSpec {
        PanelSpec {
            physical_width: 128,
            physical_height: 160,
            x_offset: 0,
            y_offset: 0,
            x_offset_rotated: 0,
            y_offset_rotated: 0,
            x_alignment: 1,
            y_alignment: 1,
            inverted: false,
            bgr: true,
        }
    }

    fn panel_spec(&self) -> (r: PanelSpec) {
        PanelSpec {
            physical_width: 128,
            physical_height: 160,
            x_offset: 0,
            y_offset: 0,
            x_offset_rotated: 0,
            y_offset_rotated: 0,
            x_alignment: 1,
            y_alignment: 1,
            inverted: false,
            bgr: true,
        }
    }
}

impl St7735Spec for InitR_RedTab {
    fn init_params(&self) -> St7735InitParams {
        initr_init_params()
    }
}

/// 1.8-inch 128x160 display with an RGB color filter.
#[allow(non_camel_case_types)]
pub struct InitR_BlackTab;

impl DisplaySpec for InitR_BlackTab {
    open spec fn spec_panel_spec() -> PanelSpec {
        PanelSpec {
            physical_width: 128,
            physical_height: 160,
            x_offset: 0,
            y_offset: 0,
            x_offset_rotated: 0,
            y_offset_rotated: 0,
            x_alignment: 1,
            y_alignment: 1,
            inverted: false,
            bgr: false,
        }
    }

    fn panel_spec(&self) -> (r: PanelSpec) {
        PanelSpec {
            physical_width: 128,
            physical_height: 160,
            x_offset: 0,
            y_offset: 0,
            x_offset_rotated: 0,
            y_offset_rotated: 0,
            x_alignment: 1,
            y_alignment: 1,
            inverted: false,
            bgr: false,
        }
    }
}

impl St7735Spec for InitR_BlackTab {
    fn init_params(&self) -> St7735InitParams {
        initr_init_params()
    }
}

/// 1.44-inch 128x128 display, offset (2, 3).
#[allow(non_camel_case_types)]
pub struct InitR_144GreenTab;

impl DisplaySpec for InitR_144GreenTab {
    open spec fn spec_panel_spec() -> PanelSpec {
        PanelSpec {
            physical_width: 128,
            physical_height: 128,
            x_offset: 2,
            y_offset: 3,
            x_offset_rotated: 2,
            y_offset_rotated: 3,
            x_alignment: 1,
            y_alignment: 1,
            inverted: false,
            bgr: true,
        }
    }

    fn panel_spec(&self) -> (r: PanelSpec) {
        PanelSpec {
            physical_width: 128,
            physical_height: 128,
            x_offset: 2,
            y_offset: 3,
            x_offset_rotated: 2,
            y_offset_rotated: 3,
            x_alignment: 1,
            y_alignment: 1,
            inverted: false,
            bgr: true,
        }
    }
}

impl St7735Spec for InitR_144GreenTab {
    fn init_params(&self) -> St7735InitParams {
        initr_init_params()
    }
}

/// 0.96-inch 80x160 display, offset (24, 0), RGB order.
#[allow(non_camel_case_types)]
pub struct InitR_Mini160x80;

impl DisplaySpec for InitR_Mini160x80 {
    open spec fn spec_panel_spec() -> PanelSpec {
        PanelSpec {
            physical_width: 80,
            physical_height: 160,
            x_offset: 24,
            y_offset: 0,
            x_offset_rotated: 24,
            y_offset_rotated: 0,
            x_alignment: 1,
            y_alignment: 1,
            inverted: false,
            bgr: false,
        }
    }

    fn panel_spec(&self) -> (r: PanelSpec) {
        PanelSpec {
            physical_width: 80,
            physical_height: 160,
            x_offset: 24,
            y_offset: 0,
            x_offset_rotated: 24,
            y_offset_rotated: 0,
            x_alignment: 1,
            y_alignment: 1,
            inverted: false,
            bgr: false,
        }
    }
}

impl St7735Spec for InitR_Mini160x80 {
    fn init_params(&self) -> St7735InitParams {
        initr_init_params()
    }
}

/// 0.96-inch 80x160 display with plugin FPC, offset (26, 1), inverted.
#[allow(non_camel_case_types)]
pub struct InitR_Mini160x80Plugin;

impl DisplaySpec for InitR_Mini160x80Plugin {
    open spec fn spec_panel_spec() -> PanelSpec {
        PanelSpec {
            physical_width: 80,
            physical_height: 160,
            x_offset: 26,
            y_offset: 1,
            x_offset_rotated: 26,
            y_offset_rotated: 1,
            x_alignment: 1,
            y_alignment: 1,
            inverted: true,
            bgr: true,
        }
    }

    fn panel_spec(&self) -> (r: PanelSpec) {
        PanelSpec {
            physical_width: 80,
            physical_height: 160,
            x_offset: 26,
            y_offset: 1,
            x_offset_rotated: 26,
            y_offset_rotated: 1,
            x_alignment: 1,
            y_alignment: 1,
            inverted: true,
            bgr: true,
        }
    }
}

impl St7735Spec for InitR_Mini160x80Plugin {
    fn init_params(&self) -> St7735InitParams {
        initr_init_params()
    }
}

/// 0.96-inch TFT IPS 80x160.
#[allow(non_camel_case_types)]
pub struct ST7735_0_96_80x160;

impl DisplaySpec for ST7735_0_96_80x160 {
    open spec fn spec_panel_spec() -> PanelSpec {
        PanelSpec {
            physical_width: 80,
            physical_height: 160,
            x_offset: 26,
            y_offset: 1,
            x_offset_rotated: 26,
            y_offset_rotated: 1,
            x_alignment: 1,
            y_alignment: 1,
            inverted: false,
            bgr: false,
        }
    }

    fn panel_spec(&self) -> (r: PanelSpec) {
        PanelSpec {
            physical_width: 80,
            physical_height: 160,
            x_offset: 26,
            y_offset: 1,
            x_offset_rotated: 26,
            y_offset_rotated: 1,
            x_alignment: 1,
            y_alignment: 1,
            inverted: false,
            bgr: false,
        }
    }
}

impl St7735Spec for ST7735_0_96_80x160 {
    fn init_params(&self) -> St7735InitParams {
        initr_init_params()
    }
}

/// 1.44-inch TFT 128x128.
#[allow(non_camel_case_types)]
pub struct ST7735_1_44_128x128;

impl DisplaySpec for ST7735_1_44_128x128 {
    open spec fn spec_panel_spec() -> PanelSpec {
        PanelSpec {
            physical_width: 128,
            physical_height: 128,
            x_offset: 0,
            y_offset: 0,
            x_offset_rotated: 0,
            y_offset_rotated: 0,
            x_alignment: 1,
            y_alignment: 1,
            inverted: false,
            bgr: false,
        }
    }

    fn panel_spec(&self) -> (r: PanelSpec) {
        PanelSpec {
            physical_width: 128,
            physical_height: 128,
            x_offset: 0,
            y_offset: 0,
            x_offset_rotated: 0,
            y_offset_rotated: 0,
            x_alignment: 1,
            y_alignment: 1,
            inverted: false,
            bgr: false,
        }
    }
}

impl St7735Spec for ST7735_1_44_128x128 {
    fn init_params(&self) -> St7735InitParams {
        p144_init_params()
    }
}

/// 0.96-inch TFT IPS 80x160.
#[allow(non_camel_case_types)]
pub struct XX096T_IF09;

impl DisplaySpec for XX096T_IF09 {
    open spec fn spec_panel_spec() -> PanelSpec {
        PanelSpec {
            physical_width: 80,
            physical_height: 160,
            x_offset: 26,
            y_offset: 1,
            x_offset_rotated: 26,
            y_offset_rotated: 1,
            x_alignment: 1,
            y_alignment: 1,
            inverted: true,
            bgr: false,
        }
    }

    fn panel_spec(&self) -> (r: PanelSpec) {
        PanelSpec {
            physical_width: 80,
            physical_height: 160,
            x_offset: 26,
            y_offset: 1,
            x_offset_rotated: 26,
            y_offset_rotated: 1,
            x_alignment: 1,
            y_alignment: 1,
            inverted: true,
            bgr: false,
        }
    }
}

impl St7735Spec for XX096T_IF09 {
    fn init_params(&self) -> St7735InitParams {
        initr_init_params()
    }
}

/// 1.44-inch TFT 128x128.
#[allow(non_camel_case_types)]
pub struct P144H008_V2;

impl DisplaySpec for P144H008_V2 {
    open spec fn spec_panel_spec() -> PanelSpec {
        PanelSpec {
            physical_width: 128,
            physical_height: 128,
            x_offset: 0,
            y_offset: 0,
            x_offset_rotated: 0,
            y_offset_rotated: 0,
            x_alignment: 1,
            y_alignment: 1,
            inverted: false,
            bgr: true,
        }
    }

    fn panel_spec(&self) -> (r: PanelSpec) {
        PanelSpec {
            physical_width: 128,
            physical_height: 128,
            x_offset: 0,
            y_offset: 0,
            x_offset_rotated: 0,
            y_offset_rotated: 0,
            x_alignment: 1,
            y_alignment: 1,
            inverted: false,
            bgr: true,
        }
    }
}

impl St7735Spec for P144H008_V2 {
    fn init_params(&self) -> St7735InitParams {
        p144_init_params()
    }
}

/// 1.77-inch TFT 128x160.
#[allow(non_camel_case_types)]
pub struct CL177SPI;

impl DisplaySpec for CL177SPI {
    open spec fn spec_panel_spec() -> PanelSpec {
        PanelSpec {
            physical_width: 128,
            physical_height: 160,
            x_offset: 2,
            y_offset: 1,
            x_offset_rotated: 2,
            y_offset_rotated: 1,
            x_alignment: 1,
            y_alignment: 1,
            inverted: true,
            bgr: true,
        }
    }

    fn panel_spec(&self) -> (r: PanelSpec) {
        PanelSpec {
            physical_width: 128,
            physical_height: 160,
            x_offset: 2,
            y_offset: 1,
            x_offset_rotated: 2,
            y_offset_rotated: 1,
            x_alignment: 1,
            y_alignment: 1,
            inverted: true,
            bgr: true,
        }
    }
}

impl St7735Spec for CL177SPI {
    fn init_params(&self) -> St7735InitParams {
        cl177_init_params()
    }
}

} // verus!
