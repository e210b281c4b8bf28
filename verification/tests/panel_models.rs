use display_driver::bus::recording::{RecordedTx, RecordingBus};
use display_driver::panel::initseq::{HostAction, sequenced_init_actions};
use display_driver::panel::reset::{LCDResetOption, NoResetPin};
use display_driver::panel::{DisplaySpec, PanelSetBrightness};
use display_driver::panels::co5300::{Co5300, Co5300Spec};
use display_driver::panels::{co5300, gc9a01, st7735, st7789};
use display_driver::panels::st7735::St7735Spec;
use display_driver::panels::st7789::St7789Spec;
use display_driver::DisplayError;
use display_driver::color::ColorFormat;

#[test]
fn st7735_models_carry_their_offsets() {
    let m = st7735::Generic128_160Type3.panel_spec();
    assert_eq!((m.physical_width, m.physical_height), (128, 160));
    assert_eq!((m.x_offset, m.y_offset), (2, 1));
    assert!(m.bgr);
    assert!(!m.inverted);
    let m = st7735::InitR_Mini160x80Plugin.panel_spec();
    assert_eq!((m.x_offset, m.y_offset), (26, 1));
    assert!(m.inverted);
    let m = st7735::Generic128_128_Type2.panel_spec();
    assert_eq!((m.x_offset_rotated, m.y_offset_rotated), (0, 32));
}

#[test]
fn st7735_init_sequence_flattens_and_starts_with_sleep_out() {
    let model = st7735::Generic128_160Type1;
    let steps = st7735::st7735_init_steps(model.init_params(), &model.panel_spec());
    let actions = sequenced_init_actions(&steps);
    assert_eq!(actions[0], HostAction::WriteCmd(0x11));
    assert_eq!(actions[1], HostAction::DelayMs(120));
    assert_eq!(actions[2], HostAction::WriteCmdParams(0xB1, vec![0x01, 0x2C, 0x2D]));
    // BGR panel, not inverted: exit-invert then BGR address mode.
    assert!(actions.contains(&HostAction::WriteCmd(0x20)));
    assert!(actions.contains(&HostAction::WriteCmdParams(0x36, vec![0x08])));
    assert_eq!(actions[actions.len() - 2], HostAction::WriteCmd(0x29));
    assert_eq!(actions[actions.len() - 1], HostAction::DelayMs(20));
}

#[test]
fn st7789_init_sequence_sets_16bit_format_and_inverts() {
    let model = st7789::Generic240x240Type1;
    let steps = st7789::st7789_init_steps(model.init_params(), &model.panel_spec());
    let actions = sequenced_init_actions(&steps);
    assert_eq!(actions[0], HostAction::WriteCmd(0x11));
    assert_eq!(actions[2], HostAction::WriteCmdParams(0x3A, vec![0x55]));
    // Inverted RGB panel: enter-invert, RGB address mode.
    assert!(actions.contains(&HostAction::WriteCmd(0x21)));
    assert!(actions.contains(&HostAction::WriteCmdParams(0x36, vec![0x00])));
    // The optional power-control-2 step of this model is absent.
    assert!(!actions.iter().any(|a| matches!(a, HostAction::WriteCmdParams(0xE8, _))));
    let m = st7789::GMT114_02;
    let steps = st7789::st7789_init_steps(m.init_params(), &m.panel_spec());
    let actions = sequenced_init_actions(&steps);
    assert!(actions.contains(&HostAction::WriteCmdParams(0xE8, vec![0x03])));
    assert!(actions.contains(&HostAction::WriteCmdParams(0xE9, vec![0x09, 0x09, 0x08])));
}

#[test]
fn gc9a01_init_sequence_ends_in_display_on() {
    let model = gc9a01::Generic240x240Type1;
    let steps = gc9a01::gc9a01_init_steps(&model.panel_spec());
    let actions = sequenced_init_actions(&steps);
    assert_eq!(actions[0], HostAction::WriteCmdParams(0xEF, vec![]));
    assert!(actions.contains(&HostAction::WriteCmdParams(0x36, vec![0x08])));
    let n = actions.len();
    assert_eq!(actions[n - 4], HostAction::WriteCmd(0x11));
    assert_eq!(actions[n - 3], HostAction::DelayMs(120));
    assert_eq!(actions[n - 2], HostAction::WriteCmd(0x29));
    assert_eq!(actions[n - 1], HostAction::DelayMs(20));
}

#[test]
fn co5300_init_plan_unlocks_then_powers_on() {
    let model = co5300::Amoled_185Inch_390x450;
    let d: Co5300<NoResetPin> = Co5300::new(
        LCDResetOption::disabled(),
        model.panel_spec(),
        model.init_page_param(),
    );
    let plan = d.init_plan();
    assert_eq!(plan[0], HostAction::WriteCmdParams(0xFE, vec![0x20]));
    assert_eq!(plan[1], HostAction::WriteCmdParams(0xF4, vec![0x5A]));
    assert_eq!(plan[2], HostAction::WriteCmdParams(0xF5, vec![0x59]));
    assert!(plan.contains(&HostAction::WriteCmdParams(0x3A, vec![0x55])));
    let n = plan.len();
    assert_eq!(plan[n - 4], HostAction::WriteCmd(0x11));
    assert_eq!(plan[n - 3], HostAction::DelayMs(120));
    assert_eq!(plan[n - 2], HostAction::WriteCmd(0x29));
    assert_eq!(plan[n - 1], HostAction::DelayMs(70));
}

#[test]
fn co5300_window_respects_two_pixel_alignment() {
    let model = co5300::AM151Q466466LK_151_C;
    let d: Co5300<NoResetPin> =
        Co5300::new(LCDResetOption::disabled(), model.panel_spec(), model.init_page_param());
    let mut bus = RecordingBus::new();
    assert_eq!(d.set_window(&mut bus, 3, 0, 10, 9), Err(DisplayError::UnalignedArea));
    assert_eq!(bus.txs.len(), 0);
    d.set_window(&mut bus, 2, 0, 11, 9).unwrap();
    // x offset 6 applied to both ends.
    assert_eq!(
        bus.txs,
        vec![
            RecordedTx::CmdWithParams { cmd: vec![0x2A], params: vec![0, 8, 0, 17] },
            RecordedTx::CmdWithParams { cmd: vec![0x2B], params: vec![0, 0, 0, 9] },
        ]
    );
}

#[test]
fn co5300_brightness_and_color_mode() {
    let model = co5300::GenericCo5300;
    let mut d: Co5300<NoResetPin> =
        Co5300::new(LCDResetOption::disabled(), model.panel_spec(), model.init_page_param());
    let mut bus = RecordingBus::new();
    d.set_brightness(&mut bus, 0x80).unwrap();
    d.set_color_format(&mut bus, ColorFormat::RGB565).unwrap();
    d.set_color_format(&mut bus, ColorFormat::RGB666).unwrap();
    assert_eq!(
        d.set_color_format(&mut bus, ColorFormat::RGB888),
        Err(DisplayError::Unsupported)
    );
    assert_eq!(
        d.set_orientation(&mut bus, display_driver::panel::Orientation::Deg90),
        Err(DisplayError::Unsupported)
    );
    assert_eq!(
        bus.txs,
        vec![
            RecordedTx::CmdWithParams { cmd: vec![0x51], params: vec![0x80] },
            RecordedTx::CmdWithParams { cmd: vec![0x3A], params: vec![0x55] },
            RecordedTx::CmdWithParams { cmd: vec![0x3A], params: vec![0x66] },
        ]
    );
    assert!(model.ignore_id_check());
    assert_eq!(d.size(), (240, 240));
}
