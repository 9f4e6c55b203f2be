use bluescale::calendar::days_in_month;
use bluescale::calendar::epoch_seconds;
use bluescale::calendar::is_leap_year;
use bluescale::codec::decode;
use bluescale::codec::encode;
use bluescale::codec::DecodeError;
use bluescale::gate::in_range;
use bluescale::gate::PLAUSIBILITY_TOLERANCE_SECS;

/// A well-formed payload: stabilized + impedance-present flags, date
/// 2023-09-18 21:41:12, impedance 500, weight raw 14000 (70.00 kg).
fn sample_payload() -> Vec<u8> {
    vec![0x00, 0x22, 231, 7, 9, 18, 21, 41, 12, 244, 1, 176, 54]
}

#[test]
fn decode_truncated() {
    let r = decode(&vec![0u8; 12]);
    assert!(matches!(r, Err(DecodeError::Truncated)));
}

#[test]
fn decode_invalid_calendar() {
    let mut d = sample_payload();
    d[4] = 13; // month 13
    assert!(matches!(decode(&d), Err(DecodeError::InvalidCalendar)));
    let mut d2 = sample_payload();
    d2[5] = 31; // September has 30 days
    assert!(matches!(decode(&d2), Err(DecodeError::InvalidCalendar)));
    let mut d3 = sample_payload();
    d3[6] = 24; // hour out of range
    assert!(matches!(decode(&d3), Err(DecodeError::InvalidCalendar)));
}

#[test]
fn decode_fields() {
    let r = decode(&sample_payload()).ok().unwrap();
    assert_eq!(r.year, 2023);
    assert_eq!(r.month, 9);
    assert_eq!(r.day, 18);
    assert_eq!(r.hours, 21);
    assert_eq!(r.min, 41);
    assert_eq!(r.sec, 12);
    assert_eq!(r.impedance_raw, 500);
    assert_eq!(r.weight_raw, 14000);
    assert!(r.stabilized);
    assert!(r.impedance_present);
    assert!(!r.date_invalid);
    assert!(!r.lbs_unit);
    assert!(!r.weight_removed);
    assert_eq!(r.weight_fx(), 70_000_000_000);
    assert_eq!(r.impedance_fx(), 500_000_000_000);
}

#[test]
fn weight_unit_conversion() {
    // raw value 6000 decodes to 60.0 kg with the imperial flag, 30.0 kg without
    let mut d = sample_payload();
    d[11] = (6000u16 % 256) as u8;
    d[12] = (6000u16 / 256) as u8;
    d[0] = 0x01; // lbs-unit flag
    let imperial = decode(&d).ok().unwrap();
    assert_eq!(imperial.weight_fx(), 60_000_000_000);
    d[0] = 0x00;
    let metric = decode(&d).ok().unwrap();
    assert_eq!(metric.weight_fx(), 30_000_000_000);
}

#[test]
fn catty_unit_aliases_date_invalid() {
    // byte 1 bit 6 drives both the date-invalid flag and the catty unit
    let mut d = sample_payload();
    d[11] = (6000u16 % 256) as u8;
    d[12] = (6000u16 / 256) as u8;
    d[1] = 0x22 | 0x40;
    let r = decode(&d).ok().unwrap();
    assert!(r.date_invalid);
    assert_eq!(r.weight_fx(), 60_000_000_000);
}

#[test]
fn decode_encode_roundtrip() {
    let d = sample_payload();
    let r = decode(&d).ok().unwrap();
    let e = encode(&r);
    assert_eq!(e.len(), 13);
    // every byte of the sample holds only documented bits, so the whole
    // payload round-trips byte-identically
    assert_eq!(e, d);
}

#[test]
fn decode_encode_roundtrip_flags() {
    let mut d = sample_payload();
    d[0] = 0x01;
    d[1] = 0xE2; // removed + date-invalid + stabilized + impedance
    let r = decode(&d).ok().unwrap();
    let e = encode(&r);
    assert_eq!(&e[..], &d[..]);
}

#[test]
fn epoch_seconds_reference_values() {
    assert_eq!(epoch_seconds(1970, 1, 1, 0, 0, 0), 0);
    assert_eq!(epoch_seconds(2024, 1, 1, 0, 0, 0), 1_704_067_200);
    assert_eq!(epoch_seconds(2000, 2, 29, 12, 30, 45), 951_827_445);
    assert_eq!(epoch_seconds(2023, 9, 18, 21, 41, 12), 1_695_073_272);
}

#[test]
fn leap_year_rules() {
    assert!(is_leap_year(2000));
    assert!(!is_leap_year(1900));
    assert!(is_leap_year(2024));
    assert!(!is_leap_year(2023));
    assert_eq!(days_in_month(2000, 2), 29);
    assert_eq!(days_in_month(1900, 2), 28);
    assert_eq!(days_in_month(2023, 9), 30);
    assert_eq!(days_in_month(2023, 12), 31);
}

#[test]
fn plausibility_gate_window() {
    let now: i64 = 1_695_073_272;
    let tol: i64 = PLAUSIBILITY_TOLERANCE_SECS;
    assert_eq!(tol, 600);
    // a timestamp exactly now always passes
    assert!(in_range(now, now, tol));
    // now - 11 minutes always fails
    assert!(!in_range(now - 660, now, tol));
    // the boundaries are inclusive on both sides
    assert!(in_range(now + 600, now, tol));
    assert!(in_range(now - 600, now, tol));
    assert!(!in_range(now + 601, now, tol));
    assert!(!in_range(now - 601, now, tol));
}
