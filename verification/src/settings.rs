//! Device-level rules shared by every backend: setting defaults, which
//! input types have which preamp controls, and value ranges.
use vstd::prelude::*;

use crate::channel::{ChannelType, Sensitivity};
use crate::error::{indexed_message, invalid_index, Error};
use crate::topology::OUTPUT_PAIR_COUNT;
use crate::scene::str_equal;
use crate::text::{decimal, push_decimal};

verus! {

/// Default sample rate in Hz (also the value for scenes saved without
/// one).
pub fn default_sample_rate() -> (r: u32)
    ensures
        r == 48_000,
{
    48_000
}

/// Default AN1/2 input-strip link state: linked, as on the device.
pub fn default_input_link() -> (r: bool)
    ensures
        r,
{
    true
}

/// A per-input preamp control.
#[derive(Debug, Clone, Copy, PartialEq, Eq, Structural)]
pub enum PreampControl {
    /// 48V phantom power.
    Phantom,
    /// The -20 dB pad.
    Pad,
    /// Preamp gain.
    Gain,
    /// +4 dBu / -10 dBV sensitivity.
    Sensitivity,
    /// Reference level (+4 dBu / -10 dBV / Boost).
    RefLevel,
}

/// Whether inputs of type `ct` have control `c`: 48V and pad on Mic
/// inputs, gain on Mic and Instrument inputs, sensitivity and ref level on
/// Instrument inputs.
pub open spec fn has_control(ct: ChannelType, c: PreampControl) -> bool {
    match c {
        PreampControl::Phantom => ct == ChannelType::Mic,
        PreampControl::Pad => ct == ChannelType::Mic,
        PreampControl::Gain => ct == ChannelType::Mic || ct == ChannelType::Instrument,
        PreampControl::Sensitivity => ct == ChannelType::Instrument,
        PreampControl::RefLevel => ct == ChannelType::Instrument,
    }
}

/// The text after "Input {idx}" in the error for a missing control.
pub open spec fn missing_control_text(c: PreampControl) -> Seq<char> {
    match c {
        PreampControl::Phantom => " has no 48V phantom power"@,
        PreampControl::Pad => " has no pad switch"@,
        PreampControl::Gain => " has no gain control"@,
        PreampControl::Sensitivity => " has no sensitivity switch"@,
        PreampControl::RefLevel => " has no ref-level switch"@,
    }
}

/// Checks that input `idx` (of type `ct`) has control `c`; otherwise an
/// `InvalidChannel` error `"Input {idx} has no ..."`.
pub fn check_control(ct: ChannelType, idx: usize, c: PreampControl) -> (r: Result<(), Error>)
    ensures
        has_control(ct, c) <==> r is Ok,
        !has_control(ct, c) ==> (r matches Err(Error::InvalidChannel(m)) && m@ == "Input "@
            + decimal(idx as nat) + missing_control_text(c)),
{
    let ok = match c {
        PreampControl::Phantom => ct == ChannelType::Mic,
        PreampControl::Pad => ct == ChannelType::Mic,
        PreampControl::Gain => ct == ChannelType::Mic || ct == ChannelType::Instrument,
        PreampControl::Sensitivity => ct == ChannelType::Instrument,
        PreampControl::RefLevel => ct == ChannelType::Instrument,
    };
    if ok {
        return Ok(());
    }
    let mut s = String::from_str("Input ");
    push_decimal(&mut s, idx as u64);
    match c {
        PreampControl::Phantom => s.append(" has no 48V phantom power"),
        PreampControl::Pad => s.append(" has no pad switch"),
        PreampControl::Gain => s.append(" has no gain control"),
        PreampControl::Sensitivity => s.append(" has no sensitivity switch"),
        PreampControl::RefLevel => s.append(" has no ref-level switch"),
    }
    Err(Error::InvalidChannel(s))
}

/// Whether `source` is one of the clock sources the device reports.
pub open spec fn known_clock_source(sources: Seq<String>, source: Seq<char>) -> bool {
    exists|i: int| 0 <= i < sources.len() && #[trigger] sources[i]@ == source
}

/// Checks a requested clock source against the device's list, giving the
/// position of its first occurrence (the driver's enum item to select);
/// otherwise an `InvalidChannel` error `"Unknown clock source: {source}"`.
pub fn check_clock_source(sources: &Vec<String>, source: &str) -> (r: Result<usize, Error>)
    ensures
        known_clock_source(sources@, source@) <==> r is Ok,
        r matches Ok(i) ==> i < sources@.len() && sources@[i as int]@ == source@ && forall|j: int|
            0 <= j < i ==> #[trigger] sources@[j]@ != source@,
        !known_clock_source(sources@, source@) ==> (r matches Err(Error::InvalidChannel(m)) && m@
            == "Unknown clock source: "@ + source@),
{
    let mut i: usize = 0;
    while i < sources.len()
        invariant
            i <= sources@.len(),
            forall|j: int| 0 <= j < i ==> #[trigger] sources@[j]@ != source@,
        decreases sources@.len() - i,
    {
        if str_equal(sources[i].as_str(), source) {
            return Ok(i);
        }
        i = i + 1;
    }
    let mut s = String::from_str("Unknown clock source: ");
    s.append(source);
    Err(Error::InvalidChannel(s))
}

/// The kernel driver's sensitivity control of instrument input `name`:
/// `"Line-{name} Sens."`.
pub fn sensitivity_control_name(name: &str) -> (r: String)
    ensures
        r@ == "Line-"@ + name@ + " Sens."@,
{
    let mut s = String::from_str("Line-");
    s.append(name);
    s.append(" Sens.");
    s
}

/// The driver's enum item of a sensitivity: -10 dBV = 0, +4 dBu = 1.
pub fn sensitivity_item(s: Sensitivity) -> (r: u32)
    ensures
        r == (if s == Sensitivity::Minus10dBV {
            0u32
        } else {
            1u32
        }),
{
    match s {
        Sensitivity::Minus10dBV => 0,
        Sensitivity::Plus4dBu => 1,
    }
}

/// Checks an output pair for its loopback switch (six pairs); otherwise
/// an `InvalidChannel` error `"Output pair {pair}"`.
pub fn check_loopback_pair(pair: usize) -> (r: Result<(), Error>)
    ensures
        pair < OUTPUT_PAIR_COUNT <==> r is Ok,
        pair >= OUTPUT_PAIR_COUNT ==> (r matches Err(Error::InvalidChannel(m)) && m@ == indexed_message(
            "Output pair"@,
            pair as nat,
        )),
{
    if pair >= OUTPUT_PAIR_COUNT {
        return Err(invalid_index("Output pair", pair));
    }
    Ok(())
}

/// A pan value limited to -100 (hard left) ..= 100 (hard right).
pub fn clamp_pan(pan: i8) -> (r: i8)
    ensures
        r == (if pan < -100 {
            -100i8
        } else if pan > 100 {
            100i8
        } else {
            pan
        }),
{
    if pan < -100 {
        -100
    } else if pan > 100 {
        100
    } else {
        pan
    }
}

/// A low-cut or band frequency limited to 20 kHz.
pub fn clamp_eq_freq(freq_hz: u16) -> (r: u16)
    ensures
        r == (if freq_hz > 20_000 {
            20_000u16
        } else {
            freq_hz
        }),
{
    if freq_hz > 20_000 {
        20_000
    } else {
        freq_hz
    }
}

// ── Laws ─────────────────────────────────────────────────────────

/// Line, S/PDIF and ADAT inputs have no preamp control at all; only Mic
/// inputs have 48V and pad, and every input with 48V also has gain.
pub proof fn lemma_preamp_controls_by_type(ct: ChannelType, c: PreampControl)
    ensures
        (ct == ChannelType::Line || ct == ChannelType::SPDIF || ct == ChannelType::ADAT) ==> !has_control(
            ct,
            c,
        ),
        has_control(ct, PreampControl::Phantom) <==> has_control(ct, PreampControl::Pad),
        has_control(ct, PreampControl::Phantom) ==> has_control(ct, PreampControl::Gain),
{
}

/// Clamping a pan is idempotent and keeps it in -100..=100.
pub proof fn lemma_pan_clamp(pan: int)
    ensures
        ({
            let c = if pan < -100 {
                -100
            } else if pan > 100 {
                100
            } else {
                pan
            };
            &&& -100 <= c <= 100
            &&& (-100 <= pan <= 100 ==> c == pan)
        }),
{
}

} // verus!
