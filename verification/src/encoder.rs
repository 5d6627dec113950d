//! The frame encoder: freshness validation, voltage-limit resolution, and the
//! byte-exact assembly of the ten protocol frames.

use vstd::prelude::*;

verus! {

/// Default upper charge-voltage limit: 96 cells at 4.1 V in the protocol's
/// fixed-point scale.
pub const DEFAULT_CHARGE_VOLTS_HIGH: u16 = 3936;

/// Default lower charge-voltage limit: 96 cells at 3.0 V in the protocol's
/// fixed-point scale.
pub const DEFAULT_CHARGE_VOLTS_LOW: u16 = 2880;

/// Capacity-versus-voltage ratio constant of the emulated vendor dialect
/// (truncating division, so the value is 800).
pub const CAPACITY_RATIO: u16 = 52000 / 65;

/// A point-in-time capture of pack state. All numeric fields are raw 16-bit
/// quantities already scaled by the producer to the units the target protocol
/// expects; the encoder performs no unit conversion, only byte placement.
#[derive(Clone, Copy, Debug)]
pub struct TelemetrySnapshot {
    /// Capture time in milliseconds on the caller's clock; `None` means the
    /// snapshot was never captured.
    pub captured_at: Option<u64>,
    /// Maximum allowed charge current, fixed-point magnitude.
    pub charge_max_current: u16,
    /// Maximum allowed discharge current, fixed-point magnitude.
    pub discharge_max_current: u16,
    /// Pack state-of-charge, fixed-point.
    pub state_of_charge: u16,
    /// Total pack voltage, fixed-point.
    pub pack_voltage: u16,
    /// Instantaneous pack current; signed semantics preserved through the raw
    /// 16-bit representation.
    pub pack_current: u16,
    /// Pack/controller temperature.
    pub internal_temperature: u16,
    /// Highest per-cell temperature.
    pub max_cell_temperature: u16,
    /// Lowest per-cell temperature.
    pub min_cell_temperature: u16,
}

/// Why a snapshot produced no frames.
#[derive(Clone, Copy, Debug, PartialEq, Eq)]
pub enum EncodeError {
    /// The snapshot was never captured: no valid data exists yet.
    MissingTimestamp,
    /// The snapshot is older than the permitted window; the caller should
    /// withhold frame output rather than transmit outdated telemetry.
    StaleData { elapsed: u64, timeout: u64 },
}

/// Age of a capture made at `captured` when the clock reads `now`. A capture
/// that claims to lie in the future counts as age zero.
pub open spec fn elapsed_since(captured: u64, now: u64) -> u64 {
    if now >= captured {
        (now - captured) as u64
    } else {
        0
    }
}

/// A snapshot is fresh when it carries a capture time and its age is strictly
/// below the timeout.
pub open spec fn is_fresh(s: TelemetrySnapshot, now: u64, timeout: u64) -> bool {
    match s.captured_at {
        Some(t) => elapsed_since(t, now) < timeout,
        None => false,
    }
}

/// An override is used verbatim when present; otherwise the default applies.
pub open spec fn resolved_limit(requested: Option<u16>, fallback: u16) -> u16 {
    match requested {
        Some(v) => v,
        None => fallback,
    }
}

/// High byte of the big-endian encoding of a 16-bit field.
pub open spec fn hi_byte(v: u16) -> u8 {
    (v / 256) as u8
}

/// Low byte of the big-endian encoding of a 16-bit field.
pub open spec fn lo_byte(v: u16) -> u8 {
    (v % 256) as u8
}

/// Big-endian byte pair of a 16-bit field: the protocol writes every 16-bit
/// quantity high byte first, regardless of host byte order.
pub open spec fn be_pair(v: u16) -> Seq<u8> {
    seq![hi_byte(v), lo_byte(v)]
}

/// Big-endian byte pair of a 16-bit field, as executable code.
pub fn be_pair_bytes(v: u16) -> (pair: (u8, u8))
    ensures
        pair.0 == hi_byte(v),
        pair.1 == lo_byte(v),
{
    ((v / 256) as u8, (v % 256) as u8)
}

/// The static vendor-identification payload: ASCII "BYD" at offset 1.
pub open spec fn vendor_id_payload() -> Seq<u8> {
    seq![0x00u8, 0x42, 0x59, 0x44, 0x00, 0x00, 0x00, 0x00]
}

/// Identifier of the frame at position `j` of the output; the order is part of
/// the wire contract.
pub open spec fn frame_id(j: int) -> u16 {
    if j == 0 {
        0x618
    } else if j == 1 {
        0x5d8
    } else if j == 2 {
        0x558
    } else if j == 3 {
        0x598
    } else if j == 4 {
        0x358
    } else if j == 5 {
        0x3d8
    } else if j == 6 {
        0x458
    } else if j == 7 {
        0x518
    } else if j == 8 {
        0x4d8
    } else {
        0x158
    }
}

/// Payload of the frame at position `j`, given the snapshot and the resolved
/// charge-voltage limits. Every payload is exactly eight bytes.
pub open spec fn frame_payload(j: int, s: TelemetrySnapshot, charge_high: u16, charge_low: u16) -> Seq<
    u8,
> {
    if j == 0 || j == 1 {
        vendor_id_payload()
    } else if j == 2 {
        seq![0x03u8, 0x13, 0x00, 0x04] + be_pair(CAPACITY_RATIO) + seq![0x05u8, 0x07]
    } else if j == 3 {
        seq![0x00u8, 0x00, 0x12, 0x34, 0x00, 0x00, 0x04, 0x4f]
    } else if j == 4 {
        be_pair(charge_high) + be_pair(charge_low) + be_pair(s.discharge_max_current) + be_pair(
            s.charge_max_current,
        )
    } else if j == 5 {
        // State-of-charge is duplicated into bytes 0-1 and 2-3; bytes 4-5 are
        // the protocol's accumulated amp-second field, always zero here.
        be_pair(s.state_of_charge) + be_pair(s.state_of_charge) + seq![0x00u8, 0x00, 0xf9, 0x00]
    } else if j == 6 {
        seq![0x00u8, 0x00, 0x12, 0x34, 0x00, 0x00, 0x56, 0x78]
    } else if j == 7 {
        be_pair(s.max_cell_temperature) + be_pair(s.min_cell_temperature) + seq![0xffu8, 0xff, 0xff, 0xff]
    } else if j == 8 {
        be_pair(s.pack_voltage) + be_pair(s.pack_current) + be_pair(s.internal_temperature)
            + seq![0x03u8, 0x08]
    } else {
        seq![0x00u8, 0x00, 0x00, 0x00, 0x00, 0x00, 0x00, 0x00]
    }
}

/// What `custom_frames` returns, for every input: the exact error when the
/// snapshot is missing or stale, and the exact ten frames when it is fresh.
pub open spec fn encoding_ok(
    result: Result<Vec<(u16, Vec<u8>)>, EncodeError>,
    s: TelemetrySnapshot,
    charger_volts_high: Option<u16>,
    charger_volts_low: Option<u16>,
    now: u64,
    timeout: u64,
) -> bool {
    match s.captured_at {
        None => result matches Err(e) && e == EncodeError::MissingTimestamp,
        Some(t) => {
            if elapsed_since(t, now) >= timeout {
                result matches Err(e) && e == (EncodeError::StaleData {
                    elapsed: elapsed_since(t, now),
                    timeout,
                })
            } else {
                result matches Ok(frames) && frames@.len() == 10 && (forall|j: int|
                    #![trigger frames@[j]]
                    0 <= j < 10 ==> frames@[j].0 == frame_id(j) && frames@[j].1@ == frame_payload(
                        j,
                        s,
                        resolved_limit(charger_volts_high, DEFAULT_CHARGE_VOLTS_HIGH),
                        resolved_limit(charger_volts_low, DEFAULT_CHARGE_VOLTS_LOW),
                    ))
            }
        },
    }
}

/// Encode a telemetry snapshot as the ten CAN frames of the emulated dialect,
/// in their fixed order, or report why the snapshot cannot be used.
///
/// The snapshot must carry a capture time and be younger than `timeout`
/// (both in milliseconds of the caller's clock, read as `now`); otherwise the
/// matching error is returned and no frames are produced. Each optional
/// charge-voltage override is used verbatim when present and replaced by its
/// default when absent.
pub fn custom_frames(
    bmsdata: TelemetrySnapshot,
    charger_volts_high: Option<u16>,
    charger_volts_low: Option<u16>,
    now: u64,
    timeout: u64,
) -> (result: Result<Vec<(u16, Vec<u8>)>, EncodeError>)
    ensures
        encoding_ok(result, bmsdata, charger_volts_high, charger_volts_low, now, timeout),
        result is Ok <==> is_fresh(bmsdata, now, timeout),
{
    let captured: u64 = match bmsdata.captured_at {
        Some(t) => t,
        None => {
            return Err(EncodeError::MissingTimestamp);
        },
    };
    let elapsed: u64 = if now >= captured {
        now - captured
    } else {
        0
    };
    if elapsed >= timeout {
        return Err(EncodeError::StaleData { elapsed, timeout });
    }
    let charge_volts_high: u16 = match charger_volts_high {
        Some(val) => val,
        None => DEFAULT_CHARGE_VOLTS_HIGH,
    };
    let charge_volts_low: u16 = match charger_volts_low {
        Some(val) => val,
        None => DEFAULT_CHARGE_VOLTS_LOW,
    };
    let charge_current = be_pair_bytes(bmsdata.charge_max_current);
    let discharge_current = be_pair_bytes(bmsdata.discharge_max_current);
    let soc = be_pair_bytes(bmsdata.state_of_charge);
    let pack_volts = be_pair_bytes(bmsdata.pack_voltage);
    let current = be_pair_bytes(bmsdata.pack_current);
    let temp = be_pair_bytes(bmsdata.internal_temperature);
    let cap = be_pair_bytes(CAPACITY_RATIO);
    let temp_high = be_pair_bytes(bmsdata.max_cell_temperature);
    let temp_low = be_pair_bytes(bmsdata.min_cell_temperature);
    let charge_high = be_pair_bytes(charge_volts_high);
    let charge_low = be_pair_bytes(charge_volts_low);

    let mut frames: Vec<(u16, Vec<u8>)> = Vec::new();
    // ASCII "BYD" at offset 1.
    frames.push((0x618, payload8(0x00, 0x42, 0x59, 0x44, 0x00, 0x00, 0x00, 0x00)));
    frames.push((0x5d8, payload8(0x00, 0x42, 0x59, 0x44, 0x00, 0x00, 0x00, 0x00)));
    frames.push((0x558, payload8(0x03, 0x13, 0x00, 0x04, cap.0, cap.1, 0x05, 0x07)));
    frames.push((0x598, payload8(0x00, 0x00, 0x12, 0x34, 0x00, 0x00, 0x04, 0x4f)));
    frames.push(
        (
            0x358,
            payload8(
                charge_high.0,
                charge_high.1,
                charge_low.0,
                charge_low.1,
                discharge_current.0,
                discharge_current.1,
                charge_current.0,
                charge_current.1,
            ),
        ),
    );
    frames.push((0x3d8, payload8(soc.0, soc.1, soc.0, soc.1, 0x00, 0x00, 0xf9, 0x00)));
    frames.push((0x458, payload8(0x00, 0x00, 0x12, 0x34, 0x00, 0x00, 0x56, 0x78)));
    frames.push(
        (0x518, payload8(temp_high.0, temp_high.1, temp_low.0, temp_low.1, 0xff, 0xff, 0xff, 0xff)),
    );
    frames.push(
        (
            0x4d8,
            payload8(pack_volts.0, pack_volts.1, current.0, current.1, temp.0, temp.1, 0x03, 0x08),
        ),
    );
    frames.push((0x158, payload8(0x00, 0x00, 0x00, 0x00, 0x00, 0x00, 0x00, 0x00)));
    proof {
        let ch = resolved_limit(charger_volts_high, DEFAULT_CHARGE_VOLTS_HIGH);
        let cl = resolved_limit(charger_volts_low, DEFAULT_CHARGE_VOLTS_LOW);
        assert(frames@[0].1@ =~= frame_payload(0, bmsdata, ch, cl));
        assert(frames@[1].1@ =~= frame_payload(1, bmsdata, ch, cl));
        assert(frames@[2].1@ =~= frame_payload(2, bmsdata, ch, cl));
        assert(frames@[3].1@ =~= frame_payload(3, bmsdata, ch, cl));
        assert(frames@[4].1@ =~= frame_payload(4, bmsdata, ch, cl));
        assert(frames@[5].1@ =~= frame_payload(5, bmsdata, ch, cl));
        assert(frames@[6].1@ =~= frame_payload(6, bmsdata, ch, cl));
        assert(frames@[7].1@ =~= frame_payload(7, bmsdata, ch, cl));
        assert(frames@[8].1@ =~= frame_payload(8, bmsdata, ch, cl));
        assert(frames@[9].1@ =~= frame_payload(9, bmsdata, ch, cl));
        assert forall|j: int| #![trigger frames@[j]] 0 <= j < 10 implies frames@[j].0 == frame_id(
            j,
        ) && frames@[j].1@ == frame_payload(j, bmsdata, ch, cl) by {
        }
    }
    Ok(frames)
}

/// Every payload the encoder can produce is exactly eight bytes long,
/// whatever the snapshot and the resolved limits hold.
pub proof fn lemma_payload_length(j: int, s: TelemetrySnapshot, charge_high: u16, charge_low: u16)
    requires
        0 <= j < 10,
    ensures
        frame_payload(j, s, charge_high, charge_low).len() == 8,
{
}

/// When both overrides are absent, bytes 0-3 of the `0x358` frame hold the
/// big-endian encodings of the default charge-voltage limits 3936 and 2880.
pub proof fn lemma_default_voltage_limits(s: TelemetrySnapshot)
    ensures
        ({
            let p = frame_payload(
                4,
                s,
                resolved_limit(None, DEFAULT_CHARGE_VOLTS_HIGH),
                resolved_limit(None, DEFAULT_CHARGE_VOLTS_LOW),
            );
            p[0] == 0x0f && p[1] == 0x60 && p[2] == 0x0b && p[3] == 0x40
        }),
{
}

/// Bytes 4-5 of the `0x558` frame always hold the big-endian encoding of the
/// capacity ratio 800, regardless of snapshot contents and limits.
pub proof fn lemma_capacity_ratio(s: TelemetrySnapshot, charge_high: u16, charge_low: u16)
    ensures
        frame_payload(2, s, charge_high, charge_low)[4] == 0x03,
        frame_payload(2, s, charge_high, charge_low)[5] == 0x20,
{
}

/// Encoding is a pure function of its arguments: any two results the
/// encoder's contract admits for the same arguments are identical, byte for
/// byte in the frame list and field for field in the error.
pub proof fn lemma_encoding_deterministic(
    r1: Result<Vec<(u16, Vec<u8>)>, EncodeError>,
    r2: Result<Vec<(u16, Vec<u8>)>, EncodeError>,
    s: TelemetrySnapshot,
    charger_volts_high: Option<u16>,
    charger_volts_low: Option<u16>,
    now: u64,
    timeout: u64,
)
    requires
        encoding_ok(r1, s, charger_volts_high, charger_volts_low, now, timeout),
        encoding_ok(r2, s, charger_volts_high, charger_volts_low, now, timeout),
    ensures
        (match (r1, r2) {
            (Ok(f1), Ok(f2)) => f1@.len() == f2@.len() && (forall|j: int|
                #![trigger f1@[j], f2@[j]]
                0 <= j < f1@.len() ==> f1@[j].0 == f2@[j].0 && f1@[j].1@ == f2@[j].1@),
            (Err(e1), Err(e2)) => e1 == e2,
            _ => false,
        }),
{
}

/// An eight-byte payload from its bytes.
fn payload8(b0: u8, b1: u8, b2: u8, b3: u8, b4: u8, b5: u8, b6: u8, b7: u8) -> (p: Vec<u8>)
    ensures
        p@ == seq![b0, b1, b2, b3, b4, b5, b6, b7],
{
    let mut p: Vec<u8> = Vec::new();
    p.push(b0);
    p.push(b1);
    p.push(b2);
    p.push(b3);
    p.push(b4);
    p.push(b5);
    p.push(b6);
    p.push(b7);
    proof {
        assert(p@ =~= seq![b0, b1, b2, b3, b4, b5, b6, b7]);
    }
    p
}



} // verus!
