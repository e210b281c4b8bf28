use display_driver::area::Area;
use display_driver::bus::qspi_flash::QspiFlashBus;
use display_driver::bus::recording::{RecordedTx, RecordingBus};
use display_driver::bus::{BusHardwareFill, BusRead, DisplayBus, FrameControl, Metadata};
use display_driver::color::SolidColor;
use display_driver::bus::batch_fill::BatchFillBus;

#[test]
fn pixel_write_opcode_is_framed_as_ram_write() {
    // A one-byte 0x2C pixel-write command goes on the wire as exactly
    // [0x32, 0x00, 0x2C, 0x00].
    let mut bus = QspiFlashBus::new(RecordingBus::new());
    let meta = Metadata::new_from_parts(Some(Area::new(0, 0, 2, 1)), FrameControl::new_standalone());
    bus.write_pixels(&[0x2C], &[1, 2, 3, 4], meta).unwrap();
    assert_eq!(
        bus.inner.txs,
        vec![RecordedTx::Pixels {
            cmd: vec![0x32, 0x00, 0x2C, 0x00],
            data: vec![1, 2, 3, 4],
            meta,
        }]
    );
}

#[test]
fn plain_commands_are_framed_as_register_writes() {
    let mut bus = QspiFlashBus::new(RecordingBus::new());
    bus.write_cmd(&[0x11]).unwrap();
    bus.write_cmd_with_params(&[0x36], &[0x08]).unwrap();
    assert_eq!(
        bus.inner.txs,
        vec![
            RecordedTx::Cmd { cmd: vec![0x02, 0x00, 0x11, 0x00] },
            RecordedTx::CmdWithParams { cmd: vec![0x02, 0x00, 0x36, 0x00], params: vec![0x08] },
        ]
    );
}

#[test]
fn reads_are_framed_with_the_read_opcode() {
    let mut bus = QspiFlashBus::new(RecordingBus::new());
    let mut buffer = vec![0u8; 4];
    bus.read_data(&[0x0B], &[], &mut buffer).unwrap();
    assert_eq!(
        bus.inner.txs,
        vec![RecordedTx::Read { cmd: vec![0x03, 0x00, 0x0B, 0x00], params: vec![] }]
    );
}

#[test]
fn frame_builders_produce_the_documented_frames() {
    let bus = QspiFlashBus::new(RecordingBus::new());
    assert_eq!(bus.to_cmd_and_addr_command(0x36), [0x02, 0x00, 0x36, 0x00]);
    assert_eq!(bus.to_cmd_and_addr_write_ram(0x2C), [0x32, 0x00, 0x2C, 0x00]);
    assert_eq!(bus.to_cmd_and_addr_read(0x0B), [0x03, 0x00, 0x0B, 0x00]);
}

#[test]
fn fill_through_the_adapter_reaches_the_inner_fill_framed() {
    // QspiFlashBus over BatchFillBus over the recorder: the fill's pixel
    // chunks land with the framed RAM-write command.
    let inner = BatchFillBus::new(RecordingBus::new(), 8, false);
    let mut bus = QspiFlashBus::new(inner);
    let color = SolidColor::new_rgb565(0, 63, 0);
    bus.fill_solid(&[0x2C], color, Area::new(0, 0, 2, 3)).unwrap();
    let txs = &bus.inner.inner.txs;
    assert_eq!(txs.len(), 2);
    for t in txs {
        match t {
            RecordedTx::Pixels { cmd, data, .. } => {
                assert_eq!(cmd.as_slice(), &[0x32, 0x00, 0x2C, 0x00]);
                assert_eq!(data.len() % 2, 0);
            }
            other => panic!("expected pixel chunks, got {:?}", other),
        }
    }
    let total: usize = txs
        .iter()
        .map(|t| match t {
            RecordedTx::Pixels { data, .. } => data.len(),
            _ => 0,
        })
        .sum();
    assert_eq!(total, 2 * 3 * 2);
}
