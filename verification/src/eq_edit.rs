//! Keyboard editing of an input's hardware EQ in the terminal interface:
//! which parameter a row of the EQ panel edits, and the integer steps
//! (band type and low-cut slope cycle through their option lists, the
//! frequencies step within 20 Hz - 20 kHz). Q and gain are continuous
//! values stepped by the caller.
use vstd::prelude::*;

use crate::channel::{
    band_type_item, band_type_of_item, eq_band_type_from_enum, eq_band_type_to_enum,
    eq_slope_from_enum, eq_slope_to_enum, slope_item, slope_of_item, EqBandType,
};
use crate::text::{decimal, push_decimal};

verus! {

/// Number of rows of the EQ panel: the enable switch, four rows per band
/// (type, frequency, Q, gain) for three bands, and the low-cut frequency
/// and slope.
pub const EQ_ROW_COUNT: usize = 15;

/// Lowest frequency a band or the low cut can be stepped to, in Hz.
pub const EQ_FREQ_MIN: u16 = 20;

/// Highest frequency a band or the low cut can be stepped to, in Hz.
pub const EQ_FREQ_MAX: u16 = 20000;

/// The parameter one row of the EQ panel edits.
#[derive(Debug, Clone, Copy, PartialEq, Eq, Structural)]
pub enum EqRow {
    Enabled,
    BandType(usize),
    BandFreq(usize),
    BandQ(usize),
    BandGain(usize),
    LowCutFreq,
    LowCutSlope,
    /// A row past the panel: edits nothing.
    Nothing,
}

/// Row 0 is the enable switch; rows 1-12 are the bands, four rows each
/// (type, frequency, Q, gain); row 13 the low-cut frequency, row 14 its
/// slope.
pub open spec fn row_spec(row: int) -> EqRow {
    if row == 0 {
        EqRow::Enabled
    } else if 1 <= row <= 12 {
        let band = ((row - 1) / 4) as usize;
        let field = (row - 1) % 4;
        if field == 0 {
            EqRow::BandType(band)
        } else if field == 1 {
            EqRow::BandFreq(band)
        } else if field == 2 {
            EqRow::BandQ(band)
        } else {
            EqRow::BandGain(band)
        }
    } else if row == 13 {
        EqRow::LowCutFreq
    } else if row == 14 {
        EqRow::LowCutSlope
    } else {
        EqRow::Nothing
    }
}

/// The parameter row `row` of the EQ panel edits.
pub fn eq_row(row: usize) -> (r: EqRow)
    ensures
        r == row_spec(row as int),
{
    if row == 0 {
        EqRow::Enabled
    } else if row <= 12 {
        let band = (row - 1) / 4;
        let field = (row - 1) % 4;
        if field == 0 {
            EqRow::BandType(band)
        } else if field == 1 {
            EqRow::BandFreq(band)
        } else if field == 2 {
            EqRow::BandQ(band)
        } else {
            EqRow::BandGain(band)
        }
    } else if row == 13 {
        EqRow::LowCutFreq
    } else if row == 14 {
        EqRow::LowCutSlope
    } else {
        EqRow::Nothing
    }
}

/// `(pos + dir)` wrapped into `0..4`, the Euclidean remainder.
fn wrap4(pos: u32, dir: i32) -> (r: u32)
    requires
        pos < 4,
    ensures
        r == (pos + dir) % 4,
        r < 4,
{
    let d: i64 = pos as i64 + dir as i64;
    if d >= 0 {
        let u: u64 = d as u64;
        (u % 4) as u32
    } else {
        let u: u64 = (-d) as u64;
        let m: u64 = u % 4;
        assert(d % 4 == (4 - m) % 4) by (nonlinear_arith)
            requires
                d < 0,
                u == -d,
                m == u % 4,
        ;
        if m == 0 {
            0
        } else {
            (4 - m) as u32
        }
    }
}

/// The band type `dir` steps from `cur` in the cycle Off, Bell, Low Shelf,
/// High Shelf (wrapping both ways).
pub fn cycle_band_type(cur: EqBandType, dir: i32) -> (r: EqBandType)
    ensures
        r == band_type_of_item(((band_type_item(cur) + dir) % 4) as u32),
{
    let pos = eq_band_type_to_enum(cur);
    eq_band_type_from_enum(wrap4(pos, dir))
}

/// The low-cut slope `dir` steps from `cur` in the cycle 6, 12, 18, 24
/// dB/oct (wrapping both ways); an unknown slope counts as 6.
pub fn cycle_low_cut_slope(cur: u8, dir: i32) -> (r: u8)
    ensures
        r == slope_of_item(((slope_item(cur) + dir) % 4) as u32),
{
    let pos = eq_slope_to_enum(cur);
    eq_slope_from_enum(wrap4(pos, dir))
}

/// The frequency step: 100 Hz coarse (PageUp/PageDown), else 10 Hz.
pub open spec fn freq_step(coarse: bool) -> int {
    if coarse {
        100
    } else {
        10
    }
}

/// `x` clamped into the stepping range of the EQ frequencies.
pub open spec fn clamp_freq(x: int) -> int {
    if x < EQ_FREQ_MIN {
        EQ_FREQ_MIN as int
    } else if x > EQ_FREQ_MAX {
        EQ_FREQ_MAX as int
    } else {
        x
    }
}

/// A band or low-cut frequency stepped `dir` steps from `cur`, clamped to
/// 20 Hz - 20 kHz.
pub fn step_freq(cur: u16, dir: i32, coarse: bool) -> (r: u16)
    requires
        i32::MIN <= dir * freq_step(coarse) <= i32::MAX,
        i32::MIN <= cur + dir * freq_step(coarse) <= i32::MAX,
    ensures
        r == clamp_freq(cur + dir * freq_step(coarse)),
{
    let step: i64 = if coarse {
        100
    } else {
        10
    };
    assert(-0x8000_0000 * 100 <= dir * step <= 0x7fff_ffff * 100) by (nonlinear_arith)
        requires
            i32::MIN <= dir <= i32::MAX,
            step == 10 || step == 100,
    ;
    let x: i64 = cur as i64 + dir as i64 * step;
    if x < 20 {
        EQ_FREQ_MIN
    } else if x > 20000 {
        EQ_FREQ_MAX
    } else {
        x as u16
    }
}

/// The kernel driver's mixer control for the EQ parameter `row` of EQ
/// strip `strip` (such as `"AN1"`): `"{strip} EQ Enable"`, `"{strip} EQ
/// Band {n} Type"` (and `Freq`, `Q`, `Gain`) for band `n` counted from 1,
/// `"{strip} EQ Low Cut Freq"` and `"{strip} EQ Low Cut Slope"`.
pub open spec fn eq_control_name_spec(strip: Seq<char>, row: EqRow) -> Option<Seq<char>> {
    match row {
        EqRow::Enabled => Some(strip + " EQ Enable"@),
        EqRow::BandType(b) => Some(strip + " EQ Band "@ + decimal((b + 1) as nat) + " Type"@),
        EqRow::BandFreq(b) => Some(strip + " EQ Band "@ + decimal((b + 1) as nat) + " Freq"@),
        EqRow::BandQ(b) => Some(strip + " EQ Band "@ + decimal((b + 1) as nat) + " Q"@),
        EqRow::BandGain(b) => Some(strip + " EQ Band "@ + decimal((b + 1) as nat) + " Gain"@),
        EqRow::LowCutFreq => Some(strip + " EQ Low Cut Freq"@),
        EqRow::LowCutSlope => Some(strip + " EQ Low Cut Slope"@),
        EqRow::Nothing => None,
    }
}

/// The name of the mixer control behind EQ parameter `row` of strip
/// `strip`; `None` for a row that edits nothing.
pub fn eq_control_name(strip: &str, row: EqRow) -> (r: Option<String>)
    requires
        match row {
            EqRow::BandType(b) | EqRow::BandFreq(b) | EqRow::BandQ(b) | EqRow::BandGain(b) => b
                < u64::MAX,
            _ => true,
        },
    ensures
        match r {
            Some(s) => eq_control_name_spec(strip@, row) == Some(s@),
            None => eq_control_name_spec(strip@, row) is None,
        },
{
    let mut s = String::from_str(strip);
    match row {
        EqRow::Enabled => {
            s.append(" EQ Enable");
        },
        EqRow::BandType(b) | EqRow::BandFreq(b) | EqRow::BandQ(b) | EqRow::BandGain(b) => {
            s.append(" EQ Band ");
            push_decimal(&mut s, b as u64 + 1);
            match row {
                EqRow::BandType(_) => s.append(" Type"),
                EqRow::BandFreq(_) => s.append(" Freq"),
                EqRow::BandQ(_) => s.append(" Q"),
                _ => s.append(" Gain"),
            }
        },
        EqRow::LowCutFreq => {
            s.append(" EQ Low Cut Freq");
        },
        EqRow::LowCutSlope => {
            s.append(" EQ Low Cut Slope");
        },
        EqRow::Nothing => {
            return None;
        },
    }
    Some(s)
}

// ── Laws ─────────────────────────────────────────────────────────

/// One step forward and one back restore any band type, and four steps
/// in the same direction come round to it again.
pub proof fn lemma_band_type_cycle_returns(cur: EqBandType)
    ensures
        band_type_of_item(
            ((band_type_item(band_type_of_item(((band_type_item(cur) + 1) % 4) as u32)) - 1) % 4) as u32,
        ) == cur,
        band_type_of_item(((band_type_item(cur) + 4) % 4) as u32) == cur,
{
}

/// For the four supported slopes, one step forward and one back restore
/// the slope.
pub proof fn lemma_slope_cycle_returns(cur: u8)
    requires
        cur == 6 || cur == 12 || cur == 18 || cur == 24,
    ensures
        slope_of_item(((slope_item(slope_of_item(((slope_item(cur) + 1) % 4) as u32)) - 1) % 4) as u32)
            == cur,
{
}

/// A stepped frequency always lies in 20 Hz - 20 kHz, and stepping a
/// frequency already in range up and then down again restores it unless
/// the first step hit the upper limit.
pub proof fn lemma_step_freq_in_range(cur: int, dir: int, coarse: bool)
    ensures
        EQ_FREQ_MIN <= clamp_freq(cur + dir * freq_step(coarse)) <= EQ_FREQ_MAX,
        EQ_FREQ_MIN <= cur && cur + freq_step(coarse) <= EQ_FREQ_MAX ==> clamp_freq(
            clamp_freq(cur + freq_step(coarse)) - freq_step(coarse),
        ) == cur,
{
}

/// The EQ panel's rows: row 0 switches the EQ, then each of the three
/// bands has four consecutive rows (type, frequency, Q, gain), then the
/// low-cut frequency and slope; every row edits a different parameter.
pub proof fn lemma_eq_rows_name_each_parameter_once(b: int, r1: int, r2: int)
    requires
        0 <= b < 3,
    ensures
        row_spec(0) == EqRow::Enabled,
        row_spec(1 + 4 * b) == EqRow::BandType(b as usize),
        row_spec(2 + 4 * b) == EqRow::BandFreq(b as usize),
        row_spec(3 + 4 * b) == EqRow::BandQ(b as usize),
        row_spec(4 + 4 * b) == EqRow::BandGain(b as usize),
        row_spec(13) == EqRow::LowCutFreq,
        row_spec(14) == EqRow::LowCutSlope,
        0 <= r1 < r2 <= 14 ==> row_spec(r1) != row_spec(r2),
        r1 > 14 ==> row_spec(r1) == EqRow::Nothing,
{
    assert((4 * b) / 4 == b && (4 * b) % 4 == 0) by (nonlinear_arith)
        requires
            0 <= b < 3,
    ;
    assert((1 + 4 * b) / 4 == b && (1 + 4 * b) % 4 == 1) by (nonlinear_arith)
        requires
            0 <= b < 3,
    ;
    assert((2 + 4 * b) / 4 == b && (2 + 4 * b) % 4 == 2) by (nonlinear_arith)
        requires
            0 <= b < 3,
    ;
    assert((3 + 4 * b) / 4 == b && (3 + 4 * b) % 4 == 3) by (nonlinear_arith)
        requires
            0 <= b < 3,
    ;
}

/// A frequency step moves by 10 Hz, or 100 Hz coarse, per step while the
/// result stays within 20 Hz - 20 kHz, and stops at the nearer limit
/// otherwise.
pub proof fn lemma_step_freq_step_sizes(cur: int, dir: int)
    ensures
        20 <= cur + 10 * dir <= 20000 ==> clamp_freq(cur + dir * freq_step(false)) == cur + 10 * dir,
        20 <= cur + 100 * dir <= 20000 ==> clamp_freq(cur + dir * freq_step(true)) == cur + 100 * dir,
        cur + 10 * dir < 20 ==> clamp_freq(cur + dir * freq_step(false)) == 20,
        cur + 10 * dir > 20000 ==> clamp_freq(cur + dir * freq_step(false)) == 20000,
        cur + 100 * dir < 20 ==> clamp_freq(cur + dir * freq_step(true)) == 20,
        cur + 100 * dir > 20000 ==> clamp_freq(cur + dir * freq_step(true)) == 20000,
{
}

} // verus!
