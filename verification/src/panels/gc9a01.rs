//! GC9A01 panel models and the controller's initialization sequence.

use vstd::prelude::*;

use crate::dcs::{ENTER_INVERT_MODE, EXIT_INVERT_MODE, EXIT_SLEEP_MODE, SET_ADDRESS_MODE,
    SET_DISPLAY_ON, SET_PIXEL_FORMAT, SET_TEAR_OFF};
use crate::panel::initseq::{InitStep, push_cmd, push_cmd_params, push_delay, push_step,
    steps_well_formed};
use crate::panel::{DisplaySpec, PanelSpec};

verus! {

/// Write Display Brightness. Parameters: 1.
pub const WRITE_DISPLAY_BRIGHTNESS: u8 = 0x51;

/// Display Function Control. Parameters: 2.
pub const DISPLAY_FUNCTION_CONTROL: u8 = 0xB6;

/// Frame Rate Control. Parameters: 1.
pub const FRAME_RATE_CONTROL: u8 = 0xE8;

/// Power Control 2. Parameters: 1.
pub const POWER_CONTROL_2: u8 = 0xC3;

/// Power Control 3. Parameters: 1.
pub const POWER_CONTROL_3: u8 = 0xC4;

/// Power Control 4. Parameters: 1.
pub const POWER_CONTROL_4: u8 = 0xC9;

/// Inter Register Enable 1. Parameters: 0.
pub const INTER_REGISTER_ENABLE_1: u8 = 0xFE;

/// Inter Register Enable 2. Parameters: 0.
pub const INTER_REGISTER_ENABLE_2: u8 = 0xEF;

/// Set Gamma 1. Parameters: 6.
pub const SET_GAMMA_1: u8 = 0xF0;

/// Set Gamma 2. Parameters: 6.
pub const SET_GAMMA_2: u8 = 0xF1;

/// Set Gamma 3. Parameters: 6.
pub const SET_GAMMA_3: u8 = 0xF2;

/// Set Gamma 4. Parameters: 6.
pub const SET_GAMMA_4: u8 = 0xF3;

/// Specification marker for GC9A01 panels.
pub trait Gc9a01Spec: DisplaySpec {

}

/// The GC9A01 initialization sequence, largely vendor magic: inter-register
/// enables, scan and power tuning, the gamma tables, inversion and color
/// order per the panel, then sleep-out and display-on.
pub fn gc9a01_init_steps(panel: &PanelSpec) -> (r: Vec<InitStep>)
    ensures
        steps_well_formed(r@),
{
    let mut steps: Vec<InitStep> = Vec::new();
    proof {
        assert(steps_well_formed(steps@));
    }
    push_cmd_params(&mut steps, INTER_REGISTER_ENABLE_2, Vec::new());
    push_cmd_params(&mut steps, 0xEB, vec![0x14]);
    push_cmd_params(&mut steps, INTER_REGISTER_ENABLE_1, Vec::new());
    push_cmd_params(&mut steps, INTER_REGISTER_ENABLE_2, Vec::new());
    push_cmd_params(&mut steps, 0xEB, vec![0x14]);
    push_cmd_params(&mut steps, 0x84, vec![0x40]);
    push_cmd_params(&mut steps, 0x85, vec![0xFF]);
    push_cmd_params(&mut steps, 0x86, vec![0xFF]);
    push_cmd_params(&mut steps, 0x87, vec![0xFF]);
    push_cmd_params(&mut steps, 0x88, vec![0x0A]);
    push_cmd_params(&mut steps, 0x89, vec![0x21]);
    push_cmd_params(&mut steps, 0x8A, vec![0x00]);
    push_cmd_params(&mut steps, 0x8B, vec![0x80]);
    push_cmd_params(&mut steps, 0x8C, vec![0x01]);
    push_cmd_params(&mut steps, 0x8D, vec![0x01]);
    push_cmd_params(&mut steps, 0x8E, vec![0xFF]);
    push_cmd_params(&mut steps, 0x8F, vec![0xFF]);
    push_cmd_params(&mut steps, DISPLAY_FUNCTION_CONTROL, vec![0x00, 0x20]);
    let invert = InitStep::select_cmd(panel.inverted, ENTER_INVERT_MODE, EXIT_INVERT_MODE);
    push_step(&mut steps, invert);
    let madctl: u8 = if panel.bgr {
        8
    } else {
        0
    };
    push_cmd_params(&mut steps, SET_ADDRESS_MODE, vec![madctl]);
    push_cmd_params(&mut steps, SET_PIXEL_FORMAT, vec![0x05]);
    push_cmd_params(&mut steps, 0x90, vec![0x08, 0x08, 0x08, 0x08]);
    push_cmd_params(&mut steps, 0xBD, vec![0x06]);
    push_cmd_params(&mut steps, 0xBC, vec![0x00]);
    push_cmd_params(&mut steps, 0xFF, vec![0x60, 0x01, 0x04]);
    push_cmd_params(&mut steps, POWER_CONTROL_2, vec![0x13]);
    push_cmd_params(&mut steps, POWER_CONTROL_3, vec![0x13]);
    push_cmd_params(&mut steps, POWER_CONTROL_4, vec![0x22]);
    push_cmd_params(&mut steps, 0xBE, vec![0x11]);
    push_cmd_params(&mut steps, 0xE1, vec![0x10, 0x0E]);
    push_cmd_params(&mut steps, 0xDF, vec![0x21, 0x0C, 0x02]);
    push_cmd_params(&mut steps, SET_GAMMA_1, vec![0x45, 0x09, 0x08, 0x08, 0x26, 0x2A]);
    push_cmd_params(&mut steps, SET_GAMMA_2, vec![0x43, 0x70, 0x72, 0x36, 0x37, 0x6F]);
    push_cmd_params(&mut steps, SET_GAMMA_3, vec![0x45, 0x09, 0x08, 0x08, 0x26, 0x2A]);
    push_cmd_params(&mut steps, SET_GAMMA_4, vec![0x43, 0x70, 0x72, 0x36, 0x37, 0x6F]);
    push_cmd_params(&mut steps, 0xED, vec![0x1B, 0x0B]);
    push_cmd_params(&mut steps, 0xAE, vec![0x77]);
    push_cmd_params(&mut steps, 0xCD, vec![0x63]);
    push_cmd_params(&mut steps, FRAME_RATE_CONTROL, vec![0x34]);
    push_cmd_params(
        &mut steps,
        0x62,
        vec![0x18, 0x0D, 0x71, 0xED, 0x70, 0x70, 0x18, 0x0F, 0x71, 0xEF, 0x70, 0x70],
    );
    push_cmd_params(
        &mut steps,
        0x63,
        vec![0x18, 0x11, 0x71, 0xF1, 0x70, 0x70, 0x18, 0x13, 0x71, 0xF3, 0x70, 0x70],
    );
    push_cmd_params(&mut steps, 0x64, vec![0x28, 0x29, 0xF1, 0x01, 0xF1, 0x00, 0x07]);
    push_cmd_params(
        &mut steps,
        0x66,
        vec![0x3C, 0x00, 0xCD, 0x67, 0x45, 0x45, 0x10, 0x00, 0x00, 0x00],
    );
    push_cmd_params(
        &mut steps,
        0x67,
        vec![0x00, 0x3C, 0x00, 0x00, 0x00, 0x01, 0x54, 0x10, 0x32, 0x98],
    );
    push_cmd_params(&mut steps, 0x74, vec![0x10, 0x85, 0x80, 0x00, 0x00, 0x4E, 0x00]);
    push_cmd_params(&mut steps, 0x98, vec![0x3E, 0x07]);
    push_cmd(&mut steps, SET_TEAR_OFF);
    push_cmd(&mut steps, ENTER_INVERT_MODE);
    push_cmd(&mut steps, EXIT_SLEEP_MODE);
    push_delay(&mut steps, 120);
    push_cmd(&mut steps, SET_DISPLAY_ON);
    push_delay(&mut steps, 20);
    steps
}

/// Generic 240x240 GC9A01 panel.
pub struct Generic240x240Type1;

impl DisplaySpec for Generic240x240Type1 {
    open spec fn spec_panel_spec() -> PanelSpec {
        PanelSpec {
            physical_width: 240,
            physical_height: 240,
            x_offset: 0,
            y_offset: 0,
            x_offset_rotated: 0,
            y_offset_rotated: 0,
            x_alignment: 1,
            y_alignment: 1,
            inverted: false,
            bgr: true,
        }
    }

    fn panel_spec(&self) -> (r: PanelSpec) {
        PanelSpec {
            physical_width: 240,
            physical_height: 240,
            x_offset: 0,
            y_offset: 0,
            x_offset_rotated: 0,
            y_offset_rotated: 0,
            x_alignment: 1,
            y_alignment: 1,
            inverted: false,
            bgr: true,
        }
    }
}

impl Gc9a01Spec for Generic240x240Type1 {

}

/// Generic 128x128 GC9A01 panel.
pub struct Generic128x128Type1;

impl DisplaySpec for Generic128x128Type1 {
    open spec fn spec_panel_spec() -> PanelSpec {
        PanelSpec {
            physical_width: 128,
            physical_height: 128,
            x_offset: 2,
            y_offset: 1,
            x_offset_rotated: 2,
            y_offset_rotated: 1,
            x_alignment: 1,
            y_alignment: 1,
            inverted: false,
            bgr: true,
        }
    }

    fn panel_spec(&self) -> (r: PanelSpec) {
        PanelSpec {
            physical_width: 128,
            physical_height: 128,
            x_offset: 2,
            y_offset: 1,
            x_offset_rotated: 2,
            y_offset_rotated: 1,
            x_alignment: 1,
            y_alignment: 1,
            inverted: false,
            bgr: true,
        }
    }
}

impl Gc9a01Spec for Generic128x128Type1 {

}

} // verus!
