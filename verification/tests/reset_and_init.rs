use display_driver::dcs::AddressMode;
use display_driver::panel::initseq::{
    HostAction, InitStep, check_steps_well_formed, exec_atomic_step, sequenced_init_actions,
};
use display_driver::panel::mipidcs::GenericMipidcs;
use display_driver::panel::reset::{LCDResetOption, NoResetPin};
use display_driver::panel::PanelSpec;

#[test]
fn active_low_gpio_reset_pulses_high_low_high() {
    // Deassert, gap, assert, gap, deassert, settle — for an active-low pin
    // that is high, low, high.
    let opt = LCDResetOption::new_pin(NoResetPin {});
    let plan = opt.reset_plan(10, 120, Some(0x01));
    assert_eq!(
        plan,
        vec![
            HostAction::SetPinHigh,
            HostAction::DelayMs(10),
            HostAction::SetPinLow,
            HostAction::DelayMs(10),
            HostAction::SetPinHigh,
            HostAction::DelayMs(120),
        ]
    );
}

#[test]
fn active_high_gpio_reset_pulses_low_high_low() {
    let opt = LCDResetOption::new_pin_with_level(NoResetPin {}, true);
    let plan = opt.reset_plan(10, 120, None);
    assert_eq!(
        plan,
        vec![
            HostAction::SetPinLow,
            HostAction::DelayMs(10),
            HostAction::SetPinHigh,
            HostAction::DelayMs(10),
            HostAction::SetPinLow,
            HostAction::DelayMs(120),
        ]
    );
}

#[test]
fn bus_and_software_and_disabled_reset_plans() {
    let bus = LCDResetOption::<NoResetPin>::new_bus();
    assert_eq!(
        bus.reset_plan(5, 50, None),
        vec![
            HostAction::BusReset(false),
            HostAction::DelayMs(5),
            HostAction::BusReset(true),
            HostAction::DelayMs(5),
            HostAction::BusReset(false),
            HostAction::DelayMs(50),
        ]
    );
    let sw = LCDResetOption::<NoResetPin>::new_software();
    assert_eq!(
        sw.reset_plan(5, 150, Some(0x01)),
        vec![HostAction::WriteCmd(0x01), HostAction::DelayMs(150)]
    );
    assert_eq!(sw.reset_plan(5, 150, None), vec![]);
    let off = LCDResetOption::<NoResetPin>::disabled();
    assert_eq!(off.reset_plan(5, 150, Some(0x01)), vec![]);
    assert!(off.is_disabled());
}

#[test]
fn reset_pin_levels_follow_the_polarity() {
    let low = LCDResetOption::new_pin(NoResetPin {});
    assert_eq!(low.reset_pin_level(true), Some(false));
    assert_eq!(low.reset_pin_level(false), Some(true));
    let high = LCDResetOption::new_pin_with_level(NoResetPin {}, true);
    assert_eq!(high.reset_pin_level(true), Some(true));
    assert_eq!(high.reset_pin_level(false), Some(false));
    let bus = LCDResetOption::<NoResetPin>::new_bus();
    assert_eq!(bus.reset_pin_level(true), None);
}

#[test]
fn release_returns_the_pin_only_for_pin_strategies() {
    assert!(LCDResetOption::new_pin(NoResetPin {}).release().is_some());
    assert!(LCDResetOption::<NoResetPin>::new_bus().release().is_none());
    assert!(LCDResetOption::<NoResetPin>::disabled().release().is_none());
}

#[test]
fn nested_steps_are_unrolled_one_level() {
    let steps = vec![
        InitStep::SingleCommand(0x11),
        InitStep::Nested(vec![
            InitStep::CommandWithParams(0xB1, vec![1, 2, 3]),
            InitStep::Nop,
            InitStep::DelayMs(20),
        ]),
        InitStep::Nop,
        InitStep::DelayMs(120),
    ];
    let actions = sequenced_init_actions(&steps);
    assert_eq!(
        actions,
        vec![
            HostAction::WriteCmd(0x11),
            HostAction::WriteCmdParams(0xB1, vec![1, 2, 3]),
            HostAction::DelayMs(20),
            HostAction::DelayMs(120),
        ]
    );
}

#[test]
fn doubly_nested_sequences_are_detected_as_defects() {
    let good = vec![
        InitStep::SingleCommand(0x11),
        InitStep::Nested(vec![InitStep::DelayMs(10), InitStep::Nop]),
    ];
    assert!(check_steps_well_formed(&good));
    let bad = vec![InitStep::Nested(vec![
        InitStep::DelayMs(10),
        InitStep::Nested(vec![InitStep::SingleCommand(0x29)]),
    ])];
    assert!(!check_steps_well_formed(&bad));
}

#[test]
fn atomic_steps_map_to_single_actions() {
    assert_eq!(
        exec_atomic_step(&InitStep::SingleCommand(0x29)),
        Some(HostAction::WriteCmd(0x29))
    );
    assert_eq!(
        exec_atomic_step(&InitStep::CommandWithParams(0x3A, vec![0x55])),
        Some(HostAction::WriteCmdParams(0x3A, vec![0x55]))
    );
    assert_eq!(exec_atomic_step(&InitStep::DelayMs(50)), Some(HostAction::DelayMs(50)));
    assert_eq!(exec_atomic_step(&InitStep::Nop), None);
}

#[test]
fn param_option_to_step_keeps_sequence_length() {
    assert_eq!(
        InitStep::param_option_to_step(0xE0, Some(vec![1, 2])),
        InitStep::CommandWithParams(0xE0, vec![1, 2])
    );
    assert_eq!(InitStep::param_option_to_step(0xE0, None), InitStep::Nop);
    assert_eq!(InitStep::select_cmd(true, 0x21, 0x20), InitStep::SingleCommand(0x21));
    assert_eq!(InitStep::select_cmd(false, 0x21, 0x20), InitStep::SingleCommand(0x20));
}

#[test]
fn generic_init_plan_resets_then_configures() {
    let panel = PanelSpec {
        physical_width: 240,
        physical_height: 320,
        x_offset: 0,
        y_offset: 0,
        x_offset_rotated: 0,
        y_offset_rotated: 0,
        x_alignment: 1,
        y_alignment: 1,
        inverted: false,
        bgr: true,
    };
    let mut mode = AddressMode::empty();
    mode.bgr = true;
    let d = GenericMipidcs::new(LCDResetOption::new_pin(NoResetPin {}), panel, mode);
    let plan = d.init_plan();
    assert_eq!(
        plan,
        vec![
            // reset: active-low pulse with a 10 ms gap and 120 ms settle
            HostAction::SetPinHigh,
            HostAction::DelayMs(10),
            HostAction::SetPinLow,
            HostAction::DelayMs(10),
            HostAction::SetPinHigh,
            HostAction::DelayMs(120),
            // soft reset and sleep-out, each with a settle delay
            HostAction::WriteCmd(0x01),
            HostAction::DelayMs(120),
            HostAction::WriteCmd(0x11),
            HostAction::DelayMs(120),
            // full-panel address window
            HostAction::WriteCmdParams(0x2A, vec![0, 0, 0, 240]),
            HostAction::WriteCmdParams(0x2B, vec![0, 0, 0x01, 0x40]),
            HostAction::WriteCmd(0x29),
            HostAction::DelayMs(20),
            // the cached address mode, BGR here
            HostAction::WriteCmdParams(0x36, vec![0x08]),
        ]
    );
}
