//! The composite fan-curve protocol: the packed wire encoding of one
//! curve point, and the parser for the two-number data line the driver
//! reports.
//!
//! The hardware exposes one curve array behind a two-step index/data
//! protocol: a write of `fan_curve_index` selects a slot, and a separate
//! access of `fan_curve_data` reads or writes that slot. The two steps are
//! two independent gateway invocations, so the sequence is not atomic;
//! serializing composite accesses is the caller's burden.

use vstd::prelude::*;
use crate::parse::{dec_str_val, digits_part, is_dec_str, lemma_dec_val_nonneg, parse_u8};
use crate::text::{split_whitespace_tokens, split_ws};

verus! {

/// One point of the fan curve: a temperature threshold and the fan speed
/// the firmware holds from that temperature on.
#[derive(Clone, Copy, Debug, PartialEq, Eq, Structural)]
pub struct FanCurvePoint {
    pub temperature: u8,
    pub speed: u8,
}

/// A string that denotes an eight-bit value: well-formed decimal, value
/// at most 255.
pub open spec fn u8_str(v: Seq<char>) -> bool {
    is_dec_str(v) && dec_str_val(v) <= 255
}

/// Why a fan-curve data line was rejected.
#[derive(Clone, Copy, Debug, PartialEq, Eq, Structural)]
pub enum CurveDataError {
    /// The line does not hold exactly two whitespace-separated fields.
    Format,
    /// The first field is not an eight-bit temperature.
    Temperature,
    /// The second field is not an eight-bit speed.
    Speed,
}

impl CurveDataError {
    /// The diagnostic line of this rejection.
    pub open spec fn spec_message(self) -> Seq<char> {
        match self {
            CurveDataError::Format => "Invalid fan curve data format"@,
            CurveDataError::Temperature => "Parse error: invalid temperature"@,
            CurveDataError::Speed => "Parse error: invalid speed"@,
        }
    }

    /// Renders the diagnostic line.
    pub fn message(&self) -> (m: &'static str)
        ensures
            m@ == self.spec_message(),
    {
        match self {
            CurveDataError::Format => "Invalid fan curve data format",
            CurveDataError::Temperature => "Parse error: invalid temperature",
            CurveDataError::Speed => "Parse error: invalid speed",
        }
    }
}

impl FanCurvePoint {
    /// The packed sixteen-bit wire value of this point: the speed in the
    /// high byte, the temperature in the low byte.
    pub fn pack(&self) -> (v: u16)
        ensures
            v == self.speed as int * 256 + self.temperature as int,
    {
        (self.speed as u16) * 256 + (self.temperature as u16)
    }

    /// The point a packed sixteen-bit wire value encodes: the low byte is
    /// the temperature, the high byte the speed.
    pub fn unpack(v: u16) -> (p: FanCurvePoint)
        ensures
            p.temperature == v as int % 256,
            p.speed == v as int / 256,
    {
        FanCurvePoint { temperature: (v % 256) as u8, speed: (v / 256) as u8 }
    }
}

/// Packing a point and unpacking the wire value gives the point back:
/// the encoding loses nothing, for every temperature and speed.
pub proof fn lemma_pack_unpack_round_trip(p: FanCurvePoint)
    ensures
        (FanCurvePoint {
            temperature: ((p.speed as int * 256 + p.temperature as int) % 256) as u8,
            speed: ((p.speed as int * 256 + p.temperature as int) / 256) as u8,
        }) == p,
{
    let t = p.temperature as int;
    let s = p.speed as int;
    assert((s * 256 + t) % 256 == t && (s * 256 + t) / 256 == s) by (nonlinear_arith)
        requires
            0 <= t < 256,
            0 <= s < 256,
    ;
}

/// Unpacking a wire value and packing the point gives the value back:
/// every sixteen-bit value denotes exactly one point.
pub proof fn lemma_unpack_pack_round_trip(v: u16)
    ensures
        (v as int / 256) * 256 + (v as int % 256) == v as int,
{
    let n = v as int;
    assert((n / 256) * 256 + (n % 256) == n) by (nonlinear_arith)
        requires
            0 <= n,
    ;
}

/// Parses the data line the driver reports for the selected curve slot:
/// exactly two whitespace-separated eight-bit decimals, the temperature
/// then the speed.
pub fn parse_fan_curve_data(data: &str) -> (r: Result<FanCurvePoint, CurveDataError>)
    ensures
        split_ws(data@).len() != 2 ==> r == Err::<FanCurvePoint, CurveDataError>(
            CurveDataError::Format,
        ),
        split_ws(data@).len() == 2 && !u8_str(split_ws(data@)[0]) ==> r == Err::<
            FanCurvePoint,
            CurveDataError,
        >(CurveDataError::Temperature),
        split_ws(data@).len() == 2 && u8_str(split_ws(data@)[0]) && !u8_str(split_ws(data@)[1])
            ==> r == Err::<FanCurvePoint, CurveDataError>(CurveDataError::Speed),
        split_ws(data@).len() == 2 && u8_str(split_ws(data@)[0]) && u8_str(split_ws(data@)[1])
            ==> (r matches Ok(p) && p.temperature == dec_str_val(split_ws(data@)[0])
            && p.speed == dec_str_val(split_ws(data@)[1])),
{
    let toks = split_whitespace_tokens(data);
    if toks.len() != 2 {
        return Err(CurveDataError::Format);
    }
    proof {
        assert(toks[0].deep_view() == split_ws(data@)[0]);
        assert(toks[1].deep_view() == split_ws(data@)[1]);
        if is_dec_str(toks[0]@) {
            lemma_dec_val_nonneg(digits_part(toks[0]@));
        }
        if is_dec_str(toks[1]@) {
            lemma_dec_val_nonneg(digits_part(toks[1]@));
        }
    }
    let temperature = match parse_u8(toks[0].as_str()) {
        Some(t) => t,
        None => {
            return Err(CurveDataError::Temperature);
        },
    };
    let speed = match parse_u8(toks[1].as_str()) {
        Some(sp) => sp,
        None => {
            return Err(CurveDataError::Speed);
        },
    };
    Ok(FanCurvePoint { temperature, speed })
}

} // verus!
