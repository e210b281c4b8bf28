use display_driver::area::Area;
use display_driver::bus::BusHardwareFill;
use display_driver::bus::batch_fill::BatchFillBus;
use display_driver::bus::recording::{RecordedTx, RecordingBus};
use display_driver::color::SolidColor;
use display_driver::DisplayError;
use display_driver::bus::DisplayBus;

fn pixel_chunks(txs: &[RecordedTx]) -> Vec<(Vec<u8>, Vec<u8>, Option<Area>)> {
    txs.iter()
        .map(|t| match t {
            RecordedTx::Pixels { cmd, data, meta } => (cmd.clone(), data.clone(), meta.area),
            other => panic!("expected a pixel write, got {:?}", other),
        })
        .collect()
}

#[test]
fn strict_fill_splits_wide_rows_horizontally() {
    // 3-byte pixels, 10-byte buffer: a 4-pixel row (12 bytes) does not fit,
    // so each row becomes a 3-pixel run and a 1-pixel run.
    let mut bus = BatchFillBus::new(RecordingBus::new(), 10, true);
    let r = bus.fill_solid_bytes(&[0x2C], &[9, 8, 7], Area::new(1, 2, 4, 3));
    assert!(r.is_ok());
    let chunks = pixel_chunks(&bus.inner.txs);
    assert_eq!(chunks.len(), 6);
    let expected = [
        (1u16, 2u16, 3u16),
        (4, 2, 1),
        (1, 3, 3),
        (4, 3, 1),
        (1, 4, 3),
        (4, 4, 1),
    ];
    for (i, (cmd, data, area)) in chunks.iter().enumerate() {
        assert_eq!(cmd.as_slice(), &[0x2C]);
        let (x, y, w) = expected[i];
        let a = area.expect("strict chunks carry their rectangle");
        assert_eq!((a.x, a.y, a.w, a.h), (x, y, w, 1));
        assert_eq!(data.len(), w as usize * 3);
        for (j, b) in data.iter().enumerate() {
            assert_eq!(*b, [9, 8, 7][j % 3]);
        }
    }
}

#[test]
fn strict_fill_batches_whole_rows_vertically() {
    // 2-byte pixels, 32-byte buffer, 4-pixel rows: 4 rows fit per batch.
    let mut bus = BatchFillBus::new(RecordingBus::new(), 32, true);
    let r = bus.fill_solid_bytes(&[0x2C], &[0xAA, 0x55], Area::new(0, 0, 4, 10));
    assert!(r.is_ok());
    let chunks = pixel_chunks(&bus.inner.txs);
    assert_eq!(chunks.len(), 3);
    let expected = [(0u16, 4u16), (4, 4), (8, 2)];
    for (i, (_, data, area)) in chunks.iter().enumerate() {
        let (y, h) = expected[i];
        let a = area.unwrap();
        assert_eq!((a.x, a.y, a.w, a.h), (0, y, 4, h));
        assert_eq!(data.len(), 4 * h as usize * 2);
    }
}

#[test]
fn strict_fill_covers_each_cell_exactly_once() {
    // Every cell of the area is covered by exactly one emitted rectangle,
    // and no rectangle reaches outside the area.
    for &(cap, ps) in &[(4usize, 1usize), (5, 2), (7, 3), (16, 3), (64, 2)] {
        let color: Vec<u8> = (0..ps as u8).collect();
        let area = Area::new(3, 5, 7, 6);
        let mut bus = BatchFillBus::new(RecordingBus::new(), cap, true);
        bus.fill_solid_bytes(&[0x2C], &color, area).unwrap();
        let chunks = pixel_chunks(&bus.inner.txs);
        let mut cover = [[0u32; 16]; 16];
        for (_, data, meta) in &chunks {
            let a = meta.unwrap();
            assert_eq!(data.len(), a.w as usize * a.h as usize * ps);
            for dy in 0..a.h {
                for dx in 0..a.w {
                    cover[(a.y + dy) as usize][(a.x + dx) as usize] += 1;
                }
            }
        }
        for y in 0..16 {
            for x in 0..16 {
                let inside = x >= 3 && x < 10 && y >= 5 && y < 11;
                assert_eq!(
                    cover[y][x],
                    if inside { 1 } else { 0 },
                    "cap {} ps {} cell ({}, {})",
                    cap,
                    ps,
                    x,
                    y
                );
            }
        }
    }
}

#[test]
fn flat_fill_chunk_sizes_sum_to_the_area() {
    // 3-byte pixels, 10-byte buffer: runs of at most 3 pixels; the pixel
    // counts sum to exactly the area's 12 pixels.
    let mut bus = BatchFillBus::new(RecordingBus::new(), 10, false);
    let r = bus.fill_solid_bytes(&[0x2C], &[1, 2, 3], Area::new(0, 0, 4, 3));
    assert!(r.is_ok());
    let chunks = pixel_chunks(&bus.inner.txs);
    assert_eq!(chunks.len(), 4);
    let mut total = 0usize;
    for (cmd, data, area) in &chunks {
        assert_eq!(cmd.as_slice(), &[0x2C]);
        assert_eq!(data.len() % 3, 0);
        let px = data.len() / 3;
        assert!(px >= 1 && px <= 3);
        // Each run is tagged with its own pixel count as width, height one.
        let a = area.unwrap();
        assert_eq!((a.x, a.y, a.w as usize, a.h), (0, 0, px, 1));
        total += px;
    }
    assert_eq!(total, 12);
}

#[test]
fn fill_with_empty_pattern_is_a_successful_no_op() {
    let mut bus = BatchFillBus::new(RecordingBus::new(), 16, true);
    let r = bus.fill_solid_bytes(&[0x2C], &[], Area::new(0, 0, 8, 8));
    assert!(r.is_ok());
    assert_eq!(bus.inner.txs.len(), 0);
}

#[test]
fn fill_with_buffer_smaller_than_one_pixel_is_rejected() {
    let mut bus = BatchFillBus::new(RecordingBus::new(), 2, false);
    let r = bus.fill_solid_bytes(&[0x2C], &[1, 2, 3], Area::new(0, 0, 8, 8));
    assert_eq!(r, Err(DisplayError::InvalidArgs));
    assert_eq!(bus.inner.txs.len(), 0);
}

#[test]
fn flat_fill_of_57600_bytes_needs_225_full_chunks() {
    // A 240x240 one-byte-per-pixel frame is 57600 bytes; a 256-byte
    // non-strict buffer emits exactly 225 transactions of 256 bytes with no
    // trailing short chunk.
    let mut bus = BatchFillBus::new(RecordingBus::new(), 256, false);
    let r = bus.fill_solid_bytes(&[0x2C], &[0x5A], Area::new(0, 0, 240, 240));
    assert!(r.is_ok());
    let chunks = pixel_chunks(&bus.inner.txs);
    assert_eq!(chunks.len(), 225);
    for (_, data, _) in &chunks {
        assert_eq!(data.len(), 256);
    }
}

#[test]
fn flat_fill_240x240_rgb565_is_exact_full_chunks() {
    // The full RGB565 frame is 115200 bytes; with a 256-byte buffer every
    // emitted chunk is full and they sum to the frame exactly.
    let color = SolidColor::new_rgb565(31, 0, 0);
    let mut bus = BatchFillBus::new(RecordingBus::new(), 256, false);
    let r = bus.fill_solid(&[0x2C], color, Area::new(0, 0, 240, 240));
    assert!(r.is_ok());
    let chunks = pixel_chunks(&bus.inner.txs);
    assert_eq!(chunks.len(), 450);
    let mut bytes = 0usize;
    for (_, data, _) in &chunks {
        assert_eq!(data.len(), 256);
        bytes += data.len();
    }
    assert_eq!(bytes, 240 * 240 * 2);
}

#[test]
fn forwarded_operations_reach_the_inner_bus_unchanged() {
    let mut bus = BatchFillBus::new(RecordingBus::new(), 16, true);
    bus.write_cmd(&[0x11]).unwrap();
    bus.write_cmd_with_params(&[0x36], &[0x08]).unwrap();
    assert_eq!(
        bus.inner.txs,
        vec![
            RecordedTx::Cmd { cmd: vec![0x11] },
            RecordedTx::CmdWithParams { cmd: vec![0x36], params: vec![0x08] },
        ]
    );
}
