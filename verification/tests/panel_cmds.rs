use display_driver::DisplayError;
use display_driver::bus::recording::{RecordedTx, RecordingBus};
use display_driver::color::ColorFormat;
use display_driver::dcs::AddressMode;
use display_driver::panel::mipidcs::GenericMipidcs;
use display_driver::panel::reset::{LCDResetOption, NoResetPin};
use display_driver::panel::{Orientation, PanelSpec};
use display_driver::bus::batch_fill::BatchFillBus;
use display_driver::color::SolidColor;

fn amoled_panel() -> PanelSpec {
    // A panel with a two-pixel alignment unit and a rotated offset variant.
    PanelSpec {
        physical_width: 390,
        physical_height: 450,
        x_offset: 6,
        y_offset: 0,
        x_offset_rotated: 6,
        y_offset_rotated: 0,
        x_alignment: 2,
        y_alignment: 2,
        inverted: false,
        bgr: false,
    }
}

fn driver(panel: PanelSpec, mode: AddressMode) -> GenericMipidcs<NoResetPin> {
    GenericMipidcs::new(LCDResetOption::disabled(), panel, mode)
}

#[test]
fn unaligned_window_is_rejected_with_zero_bus_writes() {
    // x = 3 on an alignment-2 panel: rejected before anything is sent.
    let d = driver(amoled_panel(), AddressMode::empty());
    let mut bus = RecordingBus::new();
    let r = d.set_window(&mut bus, 3, 0, 10, 9);
    assert_eq!(r, Err(DisplayError::UnalignedArea));
    assert_eq!(bus.txs.len(), 0);
    // An odd width is just as unaligned.
    let r = d.set_window(&mut bus, 2, 0, 10, 9);
    assert_eq!(r, Err(DisplayError::UnalignedArea));
    assert_eq!(bus.txs.len(), 0);
}

#[test]
fn out_of_panel_windows_are_rejected_with_zero_bus_writes() {
    let d = driver(amoled_panel(), AddressMode::empty());
    let mut bus = RecordingBus::new();
    // Reversed corners, a window past the right edge, a rectangle past the
    // bottom edge: all refused before any byte reaches the bus.
    assert_eq!(d.set_window(&mut bus, 10, 0, 2, 9), Err(DisplayError::OutOfRange));
    assert_eq!(d.set_window(&mut bus, 0, 0, 389, 449), Ok(()));
    bus.txs.clear();
    assert_eq!(d.set_window(&mut bus, 0, 0, 391, 9), Err(DisplayError::OutOfRange));
    assert_eq!(
        d.write_pixels(&mut bus, 388, 0, 4, 2, &[0; 16]),
        Err(DisplayError::OutOfRange)
    );
    assert_eq!(bus.txs.len(), 0);
    // Alignment is reported first: x = 3 is unaligned even out of range.
    assert_eq!(d.set_window(&mut bus, 3, 0, 1000, 9), Err(DisplayError::UnalignedArea));
    assert_eq!(bus.txs.len(), 0);
}

#[test]
fn aligned_window_emits_offset_column_and_page_commands() {
    let d = driver(amoled_panel(), AddressMode::empty());
    let mut bus = RecordingBus::new();
    d.set_window(&mut bus, 2, 0, 11, 9).unwrap();
    assert_eq!(
        bus.txs,
        vec![
            RecordedTx::CmdWithParams { cmd: vec![0x2A], params: vec![0, 8, 0, 17] },
            RecordedTx::CmdWithParams { cmd: vec![0x2B], params: vec![0, 0, 0, 9] },
        ]
    );
}

#[test]
fn rotated_offsets_apply_while_swap_is_active() {
    let panel = PanelSpec {
        physical_width: 240,
        physical_height: 240,
        x_offset: 0,
        y_offset: 0,
        x_offset_rotated: 0,
        y_offset_rotated: 80,
        x_alignment: 1,
        y_alignment: 1,
        inverted: true,
        bgr: false,
    };
    let swapped = AddressMode::new_simple(true, false, true, false);
    let d = driver(panel, swapped);
    let mut bus = RecordingBus::new();
    d.set_window(&mut bus, 0, 0, 9, 9).unwrap();
    assert_eq!(
        bus.txs,
        vec![
            RecordedTx::CmdWithParams { cmd: vec![0x2A], params: vec![0, 0, 0, 9] },
            RecordedTx::CmdWithParams { cmd: vec![0x2B], params: vec![0, 80, 0, 89] },
        ]
    );
}

#[test]
fn width_and_height_swap_with_the_swap_flag() {
    let panel = PanelSpec {
        physical_width: 135,
        physical_height: 240,
        x_offset: 52,
        y_offset: 40,
        x_offset_rotated: 53,
        y_offset_rotated: 40,
        x_alignment: 1,
        y_alignment: 1,
        inverted: true,
        bgr: false,
    };
    let d = driver(panel, AddressMode::empty());
    assert_eq!(d.size(), (135, 240));
    let d = driver(panel, AddressMode::new_simple(true, false, true, false));
    assert_eq!(d.size(), (240, 135));
}

#[test]
fn set_orientation_preserves_bgr_and_flip_bits() {
    // The shadow register keeps every non-orientation flag across a
    // rotation and back.
    let mut start = AddressMode::new_simple(false, false, false, true);
    start.flip_horizontal = true;
    let panel = amoled_panel();
    let mut d = driver(panel, start);
    let mut bus = RecordingBus::new();
    d.set_orientation(&mut bus, Orientation::Deg90).unwrap();
    assert!(d.address_mode.row_column_swap);
    assert!(d.address_mode.column_address_order);
    assert!(d.address_mode.bgr);
    assert!(d.address_mode.flip_horizontal);
    d.set_orientation(&mut bus, Orientation::Deg0).unwrap();
    assert!(!d.address_mode.row_column_swap);
    assert!(!d.address_mode.column_address_order);
    assert!(!d.address_mode.page_address_order);
    assert!(d.address_mode.bgr);
    assert!(d.address_mode.flip_horizontal);
    // Each call wrote the full register byte.
    assert_eq!(
        bus.txs,
        vec![
            RecordedTx::CmdWithParams { cmd: vec![0x36], params: vec![0x40 | 0x20 | 0x08 | 0x02] },
            RecordedTx::CmdWithParams { cmd: vec![0x36], params: vec![0x08 | 0x02] },
        ]
    );
}

#[test]
fn unsupported_color_formats_are_refused_without_io() {
    let d = driver(amoled_panel(), AddressMode::empty());
    let mut bus = RecordingBus::new();
    for f in [ColorFormat::Binary, ColorFormat::Gray2, ColorFormat::Gray4] {
        let r = d.set_color_format(&mut bus, f);
        assert_eq!(r, Err(DisplayError::Unsupported));
    }
    assert_eq!(bus.txs.len(), 0);
    d.set_color_format(&mut bus, ColorFormat::RGB565).unwrap();
    d.set_color_format(&mut bus, ColorFormat::RGB666).unwrap();
    d.set_color_format(&mut bus, ColorFormat::RGB888).unwrap();
    d.set_color_format(&mut bus, ColorFormat::Gray8).unwrap();
    assert_eq!(
        bus.txs,
        vec![
            RecordedTx::CmdWithParams { cmd: vec![0x3A], params: vec![0x55] },
            RecordedTx::CmdWithParams { cmd: vec![0x3A], params: vec![0x66] },
            RecordedTx::CmdWithParams { cmd: vec![0x3A], params: vec![0x77] },
            RecordedTx::CmdWithParams { cmd: vec![0x3A], params: vec![0x22] },
        ]
    );
}

#[test]
fn write_pixels_sets_the_window_then_streams_the_data() {
    let panel = PanelSpec {
        physical_width: 240,
        physical_height: 240,
        x_offset: 0,
        y_offset: 0,
        x_offset_rotated: 0,
        y_offset_rotated: 0,
        x_alignment: 1,
        y_alignment: 1,
        inverted: false,
        bgr: false,
    };
    let d = driver(panel, AddressMode::empty());
    let mut bus = RecordingBus::new();
    d.write_pixels(&mut bus, 10, 20, 2, 2, &[1, 2, 3, 4, 5, 6, 7, 8]).unwrap();
    assert_eq!(bus.txs.len(), 3);
    assert_eq!(
        bus.txs[0],
        RecordedTx::CmdWithParams { cmd: vec![0x2A], params: vec![0, 10, 0, 11] }
    );
    assert_eq!(
        bus.txs[1],
        RecordedTx::CmdWithParams { cmd: vec![0x2B], params: vec![0, 20, 0, 21] }
    );
    match &bus.txs[2] {
        RecordedTx::Pixels { cmd, data, meta } => {
            assert_eq!(cmd.as_slice(), &[0x2C]);
            assert_eq!(data.as_slice(), &[1, 2, 3, 4, 5, 6, 7, 8]);
            let a = meta.area.unwrap();
            assert_eq!((a.x, a.y, a.w, a.h), (10, 20, 2, 2));
        }
        other => panic!("expected a pixel write, got {:?}", other),
    }
}

#[test]
fn simple_command_methods_emit_their_opcode() {
    let d = driver(amoled_panel(), AddressMode::empty());
    let mut bus = RecordingBus::new();
    d.soft_reset(&mut bus).unwrap();
    d.enter_sleep_mode(&mut bus).unwrap();
    d.exit_sleep_mode(&mut bus).unwrap();
    d.set_display_off(&mut bus).unwrap();
    d.set_display_on(&mut bus).unwrap();
    d.set_invert_mode(&mut bus, true).unwrap();
    d.set_invert_mode(&mut bus, false).unwrap();
    let cmds: Vec<u8> = bus
        .txs
        .iter()
        .map(|t| match t {
            RecordedTx::Cmd { cmd } => cmd[0],
            other => panic!("expected bare commands, got {:?}", other),
        })
        .collect();
    assert_eq!(cmds, vec![0x01, 0x10, 0x11, 0x28, 0x29, 0x21, 0x20]);
}

#[test]
fn fill_through_the_command_layer_windows_then_chunks() {
    let panel = PanelSpec {
        physical_width: 64,
        physical_height: 64,
        x_offset: 2,
        y_offset: 1,
        x_offset_rotated: 2,
        y_offset_rotated: 1,
        x_alignment: 1,
        y_alignment: 1,
        inverted: false,
        bgr: false,
    };
    let d = driver(panel, AddressMode::empty());
    let mut bus = BatchFillBus::new(RecordingBus::new(), 8, true);
    let color = SolidColor::new_rgb565(31, 63, 31);
    d.fill_solid(&mut bus, 4, 8, 6, 3, color).unwrap();
    let txs = &bus.inner.txs;
    // The window first, with the panel offset applied.
    assert_eq!(
        txs[0],
        RecordedTx::CmdWithParams { cmd: vec![0x2A], params: vec![0, 6, 0, 11] }
    );
    assert_eq!(
        txs[1],
        RecordedTx::CmdWithParams { cmd: vec![0x2B], params: vec![0, 9, 0, 11] }
    );
    // Then pixel chunks of the color summing to exactly 6 * 3 pixels.
    let mut total = 0usize;
    for t in &txs[2..] {
        match t {
            RecordedTx::Pixels { cmd, data, .. } => {
                assert_eq!(cmd.as_slice(), &[0x2C]);
                assert_eq!(data.len() % 2, 0);
                for (i, b) in data.iter().enumerate() {
                    assert_eq!(*b, [0xFF, 0xFF][i % 2]);
                }
                total += data.len() / 2;
            }
            other => panic!("expected pixel chunks, got {:?}", other),
        }
    }
    assert_eq!(total, 18);
}
