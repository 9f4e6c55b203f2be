//! Decoder and encoder for the scale's 13-byte advertisement payload.
//!
//! Layout: byte 0 and byte 1 carry control flags, bytes 2..=12 carry the
//! data fields.  Multi-byte fields are big-endian with the high byte at the
//! later offset (byte 3 over byte 2, byte 10 over byte 9, byte 12 over
//! byte 11).
use vstd::prelude::*;
use vstd::assert_seqs_equal;
use vstd::arithmetic::div_mod::lemma_fundamental_div_mod_converse;
use vstd::arithmetic::div_mod::lemma_div_by_multiple;
use crate::calendar::spec_valid_date_time;
use crate::calendar::valid_date_time;
use crate::fixed::FX_SCALE;

verus! {

#[derive(Clone, Copy, Debug)]
pub enum DecodeError {
    /// The payload is shorter than the 13-byte layout.
    Truncated,
    /// The embedded fields do not form a valid calendar date-time.
    InvalidCalendar,
}

/// The decoded fields of one advertisement payload, kept raw so that
/// re-encoding reproduces the data bytes exactly.
#[derive(Clone, Copy, Debug)]
pub struct RawReading {
    pub weight_removed: bool,
    /// Byte 1 bit 6 of the device's layout serves double duty: it is read
    /// both as the date-invalid flag and as the catty-unit flag.  The
    /// aliasing is the device's own convention and is kept as one boolean
    /// used in both senses, not split into two flags.
    pub date_invalid: bool,
    pub stabilized: bool,
    pub lbs_unit: bool,
    pub impedance_present: bool,
    pub year: u16,
    pub month: u8,
    pub day: u8,
    pub hours: u8,
    pub min: u8,
    pub sec: u8,
    pub impedance_raw: u16,
    pub weight_raw: u16,
}

/// Whether bit `k` of `b` is set, where `d == 2^k`, stated arithmetically.
pub open spec fn spec_flag(b: u8, d: int) -> bool {
    ((b as int) / d) % 2 == 1
}

/// Big-endian 16-bit value with high byte `hi` and low byte `lo`.
pub open spec fn spec_be16(hi: u8, lo: u8) -> int {
    (hi as int) * 256 + (lo as int)
}

/// Whether the calendar fields embedded in a payload of at least 13 bytes
/// form a valid date-time.
pub open spec fn spec_calendar_ok(s: Seq<u8>) -> bool {
    spec_valid_date_time(
        spec_be16(s[3], s[2]),
        s[4] as int,
        s[5] as int,
        s[6] as int,
        s[7] as int,
        s[8] as int,
    )
}

/// The reading held in a payload of at least 13 bytes.
pub open spec fn spec_reading(s: Seq<u8>) -> RawReading {
    RawReading {
        weight_removed: spec_flag(s[1], 128),
        date_invalid: spec_flag(s[1], 64),
        stabilized: spec_flag(s[1], 32),
        lbs_unit: spec_flag(s[0], 1),
        impedance_present: spec_flag(s[1], 2),
        year: spec_be16(s[3], s[2]) as u16,
        month: s[4],
        day: s[5],
        hours: s[6],
        min: s[7],
        sec: s[8],
        impedance_raw: spec_be16(s[10], s[9]) as u16,
        weight_raw: spec_be16(s[12], s[11]) as u16,
    }
}

/// Control byte 0 that `encode` emits: only the lbs-unit bit is defined.
pub open spec fn spec_ctrl0(r: RawReading) -> int {
    if r.lbs_unit { 1 } else { 0 }
}

/// Control byte 1 that `encode` emits: the four documented flag bits.
pub open spec fn spec_ctrl1(r: RawReading) -> int {
    (if r.weight_removed { 128int } else { 0int }) + (if r.date_invalid { 64int } else { 0int })
        + (if r.stabilized { 32int } else { 0int }) + (if r.impedance_present { 2int } else { 0int })
}

/// The 13 bytes that `encode` emits for a reading.
pub open spec fn spec_encode(r: RawReading) -> Seq<u8> {
    seq![
        spec_ctrl0(r) as u8,
        spec_ctrl1(r) as u8,
        (r.year % 256) as u8,
        (r.year / 256) as u8,
        r.month,
        r.day,
        r.hours,
        r.min,
        r.sec,
        (r.impedance_raw % 256) as u8,
        (r.impedance_raw / 256) as u8,
        (r.weight_raw % 256) as u8,
        (r.weight_raw / 256) as u8,
    ]
}

fn flag(b: u8, d: u8) -> (r: bool)
    requires
        d == 1 || d == 2 || d == 32 || d == 64 || d == 128,
    ensures
        r == spec_flag(b, d as int),
{
    (b / d) % 2 == 1
}

fn be16(hi: u8, lo: u8) -> (r: u16)
    ensures
        r == spec_be16(hi, lo),
{
    (hi as u16) * 256 + (lo as u16)
}

/// Decodes one advertisement payload.  Shorter input than the 13-byte
/// layout is `Truncated`; embedded fields that do not form a real calendar
/// date-time are `InvalidCalendar`; flag combinations alone never fail
/// here — the caller evaluates them.
pub fn decode(data: &Vec<u8>) -> (r: Result<RawReading, DecodeError>)
    ensures
        data@.len() < 13 ==> r == Err::<RawReading, DecodeError>(DecodeError::Truncated),
        data@.len() >= 13 && !spec_calendar_ok(data@) ==> r == Err::<RawReading, DecodeError>(
            DecodeError::InvalidCalendar,
        ),
        data@.len() >= 13 && spec_calendar_ok(data@) ==> r == Ok::<RawReading, DecodeError>(
            spec_reading(data@),
        ),
{
    if data.len() < 13 {
        return Err(DecodeError::Truncated);
    }
    let year: u16 = be16(data[3], data[2]);
    let month: u8 = data[4];
    let day: u8 = data[5];
    let hours: u8 = data[6];
    let min: u8 = data[7];
    let sec: u8 = data[8];
    if !valid_date_time(year, month, day, hours, min, sec) {
        return Err(DecodeError::InvalidCalendar);
    }
    Ok(
        RawReading {
            weight_removed: flag(data[1], 128),
            date_invalid: flag(data[1], 64),
            stabilized: flag(data[1], 32),
            lbs_unit: flag(data[0], 1),
            impedance_present: flag(data[1], 2),
            year,
            month,
            day,
            hours,
            min,
            sec,
            impedance_raw: be16(data[10], data[9]),
            weight_raw: be16(data[12], data[11]),
        },
    )
}

/// Re-encodes a reading into the 13-byte layout, the inverse of `decode`
/// over the documented fields.
pub fn encode(r: &RawReading) -> (out: Vec<u8>)
    ensures
        out@ == spec_encode(*r),
{
    let c0: u8 = if r.lbs_unit { 1 } else { 0 };
    let b_removed: u8 = if r.weight_removed { 128 } else { 0 };
    let b_date: u8 = if r.date_invalid { 64 } else { 0 };
    let b_stab: u8 = if r.stabilized { 32 } else { 0 };
    let b_imp: u8 = if r.impedance_present { 2 } else { 0 };
    let c1: u8 = b_removed + b_date + b_stab + b_imp;
    let mut out: Vec<u8> = Vec::new();
    out.push(c0);
    out.push(c1);
    out.push((r.year % 256) as u8);
    out.push((r.year / 256) as u8);
    out.push(r.month);
    out.push(r.day);
    out.push(r.hours);
    out.push(r.min);
    out.push(r.sec);
    out.push((r.impedance_raw % 256) as u8);
    out.push((r.impedance_raw / 256) as u8);
    out.push((r.weight_raw % 256) as u8);
    out.push((r.weight_raw / 256) as u8);
    proof {
        assert_seqs_equal!(out@ == spec_encode(*r));
    }
    out
}

impl RawReading {
    /// Weight in fixed-point kilograms: the raw big-endian value divided by
    /// 100 when the lbs-unit or catty-unit flag is set, else by 200.  The
    /// catty-unit flag is the aliased date-invalid bit.
    pub fn weight_fx(&self) -> (w: i128)
        ensures
            w == self.spec_weight_fx(),
            0 <= w <= 655_350_000_000,
            w == 0 || w >= 5_000_000,
    {
        proof {
            lemma_div_by_multiple((self.weight_raw as int) * 10_000_000, 100);
            lemma_div_by_multiple((self.weight_raw as int) * 5_000_000, 200);
            assert((self.weight_raw as int) * (FX_SCALE as int) == ((self.weight_raw as int)
                * 10_000_000) * 100) by (nonlinear_arith);
            assert((self.weight_raw as int) * (FX_SCALE as int) == ((self.weight_raw as int)
                * 5_000_000) * 200) by (nonlinear_arith);
        }
        if self.lbs_unit || self.date_invalid {
            (self.weight_raw as i128) * 10_000_000
        } else {
            (self.weight_raw as i128) * 5_000_000
        }
    }

    pub open spec fn spec_weight_fx(&self) -> int {
        if self.lbs_unit || self.date_invalid {
            (self.weight_raw as int) * (FX_SCALE as int) / 100
        } else {
            (self.weight_raw as int) * (FX_SCALE as int) / 200
        }
    }

    /// Impedance in fixed-point ohms; zero when the impedance-present flag
    /// is unset.
    pub fn impedance_fx(&self) -> (i: i128)
        ensures
            i == self.spec_impedance_fx(),
            0 <= i <= 65_535_000_000_000,
    {
        if self.impedance_present {
            (self.impedance_raw as i128) * 1_000_000_000
        } else {
            0
        }
    }

    pub open spec fn spec_impedance_fx(&self) -> int {
        if self.impedance_present {
            (self.impedance_raw as int) * (FX_SCALE as int)
        } else {
            0
        }
    }
}

/// Decoder round-trip law: re-encoding a decoded well-formed payload
/// reproduces every data byte and every documented control bit.
pub proof fn lemma_decode_encode_roundtrip(s: Seq<u8>)
    requires
        s.len() >= 13,
        spec_calendar_ok(s),
    ensures
        spec_encode(spec_reading(s)).len() == 13,
        forall|i: int| 2 <= i < 13 ==> spec_encode(spec_reading(s))[i] == s[i],
        spec_flag(spec_encode(spec_reading(s))[0], 1) == spec_flag(s[0], 1),
        spec_flag(spec_encode(spec_reading(s))[1], 128) == spec_flag(s[1], 128),
        spec_flag(spec_encode(spec_reading(s))[1], 64) == spec_flag(s[1], 64),
        spec_flag(spec_encode(spec_reading(s))[1], 32) == spec_flag(s[1], 32),
        spec_flag(spec_encode(spec_reading(s))[1], 2) == spec_flag(s[1], 2),
{
    let r = spec_reading(s);
    lemma_be16_split(s[3], s[2]);
    lemma_be16_split(s[10], s[9]);
    lemma_be16_split(s[12], s[11]);
    lemma_ctrl1_bits(r);
    lemma_ctrl0_bit(r);
}

/// Splitting a big-endian 16-bit value recovers its two bytes.
proof fn lemma_be16_split(hi: u8, lo: u8)
    ensures
        (spec_be16(hi, lo) as u16) % 256 == lo,
        (spec_be16(hi, lo) as u16) / 256 == hi,
{
    let v = spec_be16(hi, lo);
    lemma_fundamental_div_mod_converse(v, 256, hi as int, lo as int);
}

/// The four documented bits of the rebuilt control byte 1 match the flags.
proof fn lemma_ctrl1_bits(r: RawReading)
    ensures
        spec_flag(spec_ctrl1(r) as u8, 128) == r.weight_removed,
        spec_flag(spec_ctrl1(r) as u8, 64) == r.date_invalid,
        spec_flag(spec_ctrl1(r) as u8, 32) == r.stabilized,
        spec_flag(spec_ctrl1(r) as u8, 2) == r.impedance_present,
{
}

/// The documented bit of the rebuilt control byte 0 matches the flag.
proof fn lemma_ctrl0_bit(r: RawReading)
    ensures
        spec_flag(spec_ctrl0(r) as u8, 1) == r.lbs_unit,
{
}

} // verus!
