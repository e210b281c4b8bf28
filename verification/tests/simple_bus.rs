use display_driver::area::Area;
use display_driver::bus::simple::{FailingSimpleBus, RecordedOp, SimpleRecordingBus};
use display_driver::bus::{BusBytesIo, BusHardwareFill, DisplayBus, FrameControl, Metadata};
use display_driver::color::SolidColor;
use display_driver::DisplayError;

#[test]
fn command_with_params_becomes_two_stream_writes() {
    let mut bus = SimpleRecordingBus::new();
    bus.write_cmd(&[0x11]).unwrap();
    bus.write_cmd_with_params(&[0x36], &[0x08]).unwrap();
    assert_eq!(
        bus.ops,
        vec![
            RecordedOp::Cmds { cmd: vec![0x11] },
            RecordedOp::Cmds { cmd: vec![0x36] },
            RecordedOp::Data { data: vec![0x08] },
        ]
    );
}

#[test]
fn pixel_writes_drop_metadata_on_a_byte_stream() {
    let mut bus = SimpleRecordingBus::new();
    let meta = Metadata::new_from_parts(Some(Area::new(0, 0, 2, 1)), FrameControl::new_first());
    bus.write_pixels(&[0x2C], &[1, 2, 3, 4], meta).unwrap();
    assert_eq!(
        bus.ops,
        vec![
            RecordedOp::Cmds { cmd: vec![0x2C] },
            RecordedOp::Data { data: vec![1, 2, 3, 4] },
        ]
    );
}

#[test]
fn default_fill_batches_through_a_sixteen_byte_buffer() {
    // 20 pixels of a 3-byte color through the 16-byte buffer: the command
    // once, then data bursts of at most 5 pixels summing to 60 bytes.
    let mut bus = SimpleRecordingBus::new();
    let color = SolidColor::new_rgb888(1, 2, 3);
    bus.fill_solid(&[0x2C], color, Area::new(0, 0, 5, 4)).unwrap();
    assert_eq!(bus.ops[0], RecordedOp::Cmds { cmd: vec![0x2C] });
    let mut total = 0usize;
    for op in &bus.ops[1..] {
        match op {
            RecordedOp::Data { data } => {
                assert!(data.len() <= 15);
                assert_eq!(data.len() % 3, 0);
                for (i, b) in data.iter().enumerate() {
                    assert_eq!(*b, [1, 2, 3][i % 3]);
                }
                total += data.len();
            }
            other => panic!("expected data bursts, got {:?}", other),
        }
    }
    assert_eq!(total, 60);
    assert_eq!(bus.ops.len(), 1 + 4);
}

#[test]
fn byte_io_writes_raw_streams() {
    let mut bus = SimpleRecordingBus::new();
    bus.write_cmd_bytes(&[0x2C]).unwrap();
    bus.write_data_bytes(&[9, 9, 9]).unwrap();
    bus.write_data_bytes(&[8, 8]).unwrap();
    assert_eq!(
        bus.ops,
        vec![
            RecordedOp::Cmds { cmd: vec![0x2C] },
            RecordedOp::Data { data: vec![9, 9, 9] },
            RecordedOp::Data { data: vec![8, 8] },
        ]
    );
}

#[test]
fn reset_line_is_recorded() {
    let mut bus = SimpleRecordingBus::new();
    DisplayBus::set_reset(&mut bus, true).unwrap();
    DisplayBus::set_reset(&mut bus, false).unwrap();
    assert_eq!(
        bus.ops,
        vec![RecordedOp::Reset { level: true }, RecordedOp::Reset { level: false }]
    );
}

#[test]
fn transport_failures_pass_through_wrapped() {
    let mut bus = FailingSimpleBus::new();
    assert_eq!(bus.write_cmd(&[0x11]), Ok(()));
    let meta = Metadata::new_continue_stream();
    assert_eq!(
        bus.write_pixels(&[0x2C], &[1], meta),
        Err(DisplayError::BusError(42))
    );
    let color = SolidColor::new_rgb565(1, 2, 3);
    assert_eq!(
        bus.fill_solid(&[0x2C], color, Area::new(0, 0, 2, 2)),
        Err(DisplayError::BusError(42))
    );
    assert_eq!(DisplayBus::set_reset(&mut bus, true), Err(DisplayError::Unsupported));
}

#[test]
fn frame_control_constructors() {
    let s = FrameControl::new_standalone();
    assert!(s.first && s.last);
    let f = FrameControl::new_first();
    assert!(f.first && !f.last);
    let l = FrameControl::new_last();
    assert!(!l.first && l.last);
}
