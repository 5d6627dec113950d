use byd_frames::add;
use byd_frames::encoder::custom_frames;
use byd_frames::encoder::be_pair_bytes;
use byd_frames::encoder::EncodeError;
use byd_frames::encoder::TelemetrySnapshot;

fn example_snapshot() -> TelemetrySnapshot {
    TelemetrySnapshot {
        captured_at: Some(0),
        charge_max_current: 500,
        discharge_max_current: 600,
        state_of_charge: 80,
        pack_voltage: 3700,
        pack_current: 65526, // -10 as raw 16-bit
        internal_temperature: 30,
        max_cell_temperature: 35,
        min_cell_temperature: 20,
    }
}

#[test]
fn it_works() {
    let result = add(2, 2);
    assert_eq!(result, 4);
}

#[test]
fn stale_snapshot_is_rejected() {
    let mut s = example_snapshot();
    s.captured_at = Some(2000);
    let r = custom_frames(s, None, None, 7500, 5000);
    assert_eq!(
        r.unwrap_err(),
        EncodeError::StaleData { elapsed: 5500, timeout: 5000 }
    );
}

#[test]
fn age_equal_to_timeout_is_stale() {
    let mut s = example_snapshot();
    s.captured_at = Some(1000);
    let r = custom_frames(s, None, None, 6000, 5000);
    assert_eq!(
        r.unwrap_err(),
        EncodeError::StaleData { elapsed: 5000, timeout: 5000 }
    );
}

#[test]
fn zero_timeout_is_always_stale() {
    let s = example_snapshot();
    let r = custom_frames(s, None, None, 0, 0);
    assert_eq!(
        r.unwrap_err(),
        EncodeError::StaleData { elapsed: 0, timeout: 0 }
    );
}

#[test]
fn missing_timestamp_is_rejected() {
    let mut s = example_snapshot();
    s.captured_at = None;
    let r = custom_frames(s, Some(4000), Some(3000), 1000, 5000);
    assert_eq!(r.unwrap_err(), EncodeError::MissingTimestamp);
}

#[test]
fn capture_in_the_future_counts_as_age_zero() {
    let mut s = example_snapshot();
    s.captured_at = Some(9000);
    let r = custom_frames(s, None, None, 1000, 1);
    assert!(r.is_ok());
}

#[test]
fn frame_count_and_order() {
    let frames = custom_frames(example_snapshot(), None, None, 1000, 5000).unwrap();
    let ids: Vec<u16> = frames.iter().map(|f| f.0).collect();
    assert_eq!(
        ids,
        vec![0x618, 0x5d8, 0x558, 0x598, 0x358, 0x3d8, 0x458, 0x518, 0x4d8, 0x158]
    );
}

#[test]
fn every_payload_is_eight_bytes() {
    let frames = custom_frames(example_snapshot(), Some(1), Some(65535), 1000, 5000).unwrap();
    assert_eq!(frames.len(), 10);
    for (_, payload) in &frames {
        assert_eq!(payload.len(), 8);
    }
}

#[test]
fn static_frames_are_bit_exact() {
    let frames = custom_frames(example_snapshot(), None, None, 1000, 5000).unwrap();
    // ASCII "BYD" at offset 1, twice.
    assert_eq!(frames[0].1, vec![0x00, 0x42, 0x59, 0x44, 0x00, 0x00, 0x00, 0x00]);
    assert_eq!(frames[1].1, vec![0x00, 0x42, 0x59, 0x44, 0x00, 0x00, 0x00, 0x00]);
    assert_eq!(frames[3].1, vec![0x00, 0x00, 0x12, 0x34, 0x00, 0x00, 0x04, 0x4f]);
    assert_eq!(frames[6].1, vec![0x00, 0x00, 0x12, 0x34, 0x00, 0x00, 0x56, 0x78]);
    assert_eq!(frames[9].1, vec![0x00; 8]);
}

#[test]
fn default_voltage_limits_fill_frame_0x358() {
    let frames = custom_frames(example_snapshot(), None, None, 1000, 5000).unwrap();
    // 3936 = 0x0f60 and 2880 = 0x0b40, each written high byte first.
    assert_eq!(&frames[4].1[0..4], &[0x0f, 0x60, 0x0b, 0x40]);
    // discharge_max_current = 600 = 0x0258, charge_max_current = 500 = 0x01f4.
    assert_eq!(&frames[4].1[4..8], &[0x02, 0x58, 0x01, 0xf4]);
}

#[test]
fn voltage_overrides_are_used_verbatim() {
    let frames =
        custom_frames(example_snapshot(), Some(4100), Some(3000), 1000, 5000).unwrap();
    // 4100 = 0x1004 and 3000 = 0x0bb8, each written high byte first.
    assert_eq!(&frames[4].1[0..4], &[0x10, 0x04, 0x0b, 0xb8]);
}

#[test]
fn capacity_ratio_is_constant() {
    let mut s = example_snapshot();
    let frames = custom_frames(s, None, None, 1000, 5000).unwrap();
    // 52000 / 65 = 800 = 0x0320, written high byte first into bytes 4-5.
    assert_eq!(frames[2].1, vec![0x03, 0x13, 0x00, 0x04, 0x03, 0x20, 0x05, 0x07]);
    s.state_of_charge = 9999;
    s.pack_voltage = 1;
    s.pack_current = 0;
    let frames2 = custom_frames(s, Some(1), Some(2), 1000, 5000).unwrap();
    assert_eq!(&frames2[2].1[4..6], &[0x03, 0x20]);
}

#[test]
fn end_to_end_example() {
    let frames = custom_frames(example_snapshot(), None, None, 1000, 5000).unwrap();
    // pack_voltage 3700 = 0x0e74, pack_current 65526 = 0xfff6,
    // internal_temperature 30 = 0x001e, trailing 03 08.
    assert_eq!(frames[8].0, 0x4d8);
    assert_eq!(frames[8].1, vec![0x0e, 0x74, 0xff, 0xf6, 0x00, 0x1e, 0x03, 0x08]);
    // state_of_charge 80 = 0x0050, duplicated.
    assert_eq!(frames[5].0, 0x3d8);
    assert_eq!(frames[5].1, vec![0x00, 0x50, 0x00, 0x50, 0x00, 0x00, 0xf9, 0x00]);
    // cell temperatures 35 = 0x0023 and 20 = 0x0014.
    assert_eq!(frames[7].0, 0x518);
    assert_eq!(frames[7].1, vec![0x00, 0x23, 0x00, 0x14, 0xff, 0xff, 0xff, 0xff]);
}

#[test]
fn encoding_is_idempotent() {
    let s = example_snapshot();
    let a = custom_frames(s, Some(4000), None, 1000, 5000).unwrap();
    let b = custom_frames(s, Some(4000), None, 1000, 5000).unwrap();
    assert_eq!(a, b);
}

#[test]
fn big_endian_pair_swaps_bytes() {
    assert_eq!(be_pair_bytes(0x1234), (0x12, 0x34));
    assert_eq!(be_pair_bytes(800), (0x03, 0x20));
    assert_eq!(be_pair_bytes(0), (0x00, 0x00));
    assert_eq!(be_pair_bytes(0xffff), (0xff, 0xff));
}
