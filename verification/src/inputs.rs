//! The preamp state of the inputs as an in-memory backend (the mock
//! device) keeps it, and the state changes it allows: each control only on
//! the input types that have it, the gain clamped to the input's maximum,
//! every change to a missing input refused; and applying a scene's copy of
//! that state when the scene fits the device.
use vstd::prelude::*;

use crate::channel::{ChannelId, ChannelType, Sensitivity};
use crate::error::{indexed_message, invalid_index, Error};
use crate::scene::{check_compatible, models_compatible};
use crate::settings::{check_control, has_control, missing_control_text, PreampControl};
use crate::text::decimal;

verus! {

/// The preamp state of one input.
#[derive(Debug, Clone, Copy, PartialEq, Eq, Structural)]
pub struct InputState {
    pub channel_type: ChannelType,
    /// 48V phantom power.
    pub phantom: bool,
    /// The -20 dB pad.
    pub pad: bool,
    /// Preamp gain in dB, when the input has one.
    pub gain: Option<u32>,
    /// The gain's maximum, when known.
    pub gain_max: Option<u32>,
    /// +4 dBu / -10 dBV, on instrument inputs.
    pub sensitivity: Option<Sensitivity>,
    /// Phase inverted.
    pub phase: bool,
    /// Reference-level code (0 = unset).
    pub ref_level: u16,
}

/// A change to one input's preamp state.
#[derive(Debug, Clone, Copy, PartialEq, Eq, Structural)]
pub enum InputChange {
    Phantom(bool),
    Pad(bool),
    Gain(u32),
    Sensitivity(Sensitivity),
    Phase(bool),
    RefLevel(u16),
}

/// The control a change needs, if any (phase is on every input).
pub open spec fn control_of(c: InputChange) -> Option<PreampControl> {
    match c {
        InputChange::Phantom(_) => Some(PreampControl::Phantom),
        InputChange::Pad(_) => Some(PreampControl::Pad),
        InputChange::Gain(_) => Some(PreampControl::Gain),
        InputChange::Sensitivity(_) => Some(PreampControl::Sensitivity),
        InputChange::RefLevel(_) => Some(PreampControl::RefLevel),
        InputChange::Phase(_) => None,
    }
}

/// A gain limited to the input's maximum when it has one.
pub open spec fn clamped_gain(gain: u32, gain_max: Option<u32>) -> u32 {
    match gain_max {
        Some(m) => if gain < m {
            gain
        } else {
            m
        },
        None => gain,
    }
}

/// An input's state after a change it allows.
pub open spec fn changed(s: InputState, c: InputChange) -> InputState {
    match c {
        InputChange::Phantom(on) => InputState { phantom: on, ..s },
        InputChange::Pad(on) => InputState { pad: on, ..s },
        InputChange::Gain(g) => InputState { gain: Some(clamped_gain(g, s.gain_max)), ..s },
        InputChange::Sensitivity(v) => InputState { sensitivity: Some(v), ..s },
        InputChange::Phase(on) => InputState { phase: on, ..s },
        InputChange::RefLevel(r) => InputState { ref_level: r, ..s },
    }
}

/// Whether input `s` allows change `c`.
pub open spec fn allows(s: InputState, c: InputChange) -> bool {
    match control_of(c) {
        Some(ctl) => has_control(s.channel_type, ctl),
        None => true,
    }
}

/// Applies `change` to input `idx`. An input past the list is an
/// `InvalidChannel` error `"Input {idx}"`; a control the input's type
/// lacks is the error `"Input {idx} has no ..."`; either way nothing
/// changes.
pub fn change_input(inputs: &mut Vec<InputState>, idx: usize, change: InputChange) -> (r: Result<(), Error>)
    ensures
        idx >= old(inputs)@.len() ==> (r matches Err(Error::InvalidChannel(m)) && m@ == indexed_message(
            "Input"@,
            idx as nat,
        )),
        idx < old(inputs)@.len() && !allows(old(inputs)@[idx as int], change) ==> (r matches Err(
            Error::InvalidChannel(m),
        ) && m@ == "Input "@ + decimal(idx as nat) + missing_control_text(
            control_of(change)->0,
        )),
        r is Ok <==> idx < old(inputs)@.len() && allows(old(inputs)@[idx as int], change),
        r is Ok ==> final(inputs)@ == old(inputs)@.update(idx as int, changed(old(inputs)@[idx as int], change)),
        r is Err ==> final(inputs)@ == old(inputs)@,
{
    if idx >= inputs.len() {
        return Err(invalid_index("Input", idx));
    }
    let s = inputs[idx];
    let ctl = match change {
        InputChange::Phantom(_) => Some(PreampControl::Phantom),
        InputChange::Pad(_) => Some(PreampControl::Pad),
        InputChange::Gain(_) => Some(PreampControl::Gain),
        InputChange::Sensitivity(_) => Some(PreampControl::Sensitivity),
        InputChange::RefLevel(_) => Some(PreampControl::RefLevel),
        InputChange::Phase(_) => None,
    };
    if let Some(c) = ctl {
        if let Err(e) = check_control(s.channel_type, idx, c) {
            return Err(e);
        }
    }
    let n = match change {
        InputChange::Phantom(on) => InputState { phantom: on, ..s },
        InputChange::Pad(on) => InputState { pad: on, ..s },
        InputChange::Gain(g) => {
            let c = match s.gain_max {
                Some(m) => if g < m {
                    g
                } else {
                    m
                },
                None => g,
            };
            InputState { gain: Some(c), ..s }
        },
        InputChange::Sensitivity(v) => InputState { sensitivity: Some(v), ..s },
        InputChange::Phase(on) => InputState { phase: on, ..s },
        InputChange::RefLevel(r) => InputState { ref_level: r, ..s },
    };
    inputs.set(idx, n);
    Ok(())
}

/// Checks that `channel` exists on a device with `n_inputs` inputs,
/// `n_playbacks` playbacks and `n_outputs` outputs (before its mute or
/// solo flag is read or set); otherwise an `InvalidChannel` error naming
/// it.
pub fn check_channel(channel: ChannelId, n_inputs: usize, n_playbacks: usize, n_outputs: usize) -> (r: Result<(), Error>)
    ensures
        match channel {
            ChannelId::Input(i) => if i < n_inputs {
                r is Ok
            } else {
                r matches Err(Error::InvalidChannel(m)) && m@ == indexed_message("Input"@, i as nat)
            },
            ChannelId::Playback(i) => if i < n_playbacks {
                r is Ok
            } else {
                r matches Err(Error::InvalidChannel(m)) && m@ == indexed_message("Playback"@, i as nat)
            },
            ChannelId::Output(i) => if i < n_outputs {
                r is Ok
            } else {
                r matches Err(Error::InvalidChannel(m)) && m@ == indexed_message("Output"@, i as nat)
            },
        },
{
    match channel {
        ChannelId::Input(i) => if i < n_inputs {
            Ok(())
        } else {
            Err(invalid_index("Input", i))
        },
        ChannelId::Playback(i) => if i < n_playbacks {
            Ok(())
        } else {
            Err(invalid_index("Playback", i))
        },
        ChannelId::Output(i) => if i < n_outputs {
            Ok(())
        } else {
            Err(invalid_index("Output", i))
        },
    }
}

/// A copy of the inputs' state (a scene's capture of it).
pub fn capture_inputs(inputs: &Vec<InputState>) -> (r: Vec<InputState>)
    ensures
        r@ == inputs@,
{
    let mut out: Vec<InputState> = Vec::new();
    let mut i: usize = 0;
    while i < inputs.len()
        invariant
            i <= inputs@.len(),
            out@ == inputs@.subrange(0, i as int),
        decreases inputs@.len() - i,
    {
        out.push(inputs[i]);
        i = i + 1;
    }
    out
}

/// Applies a scene's inputs to a device of model `device_model`: refused
/// with the scene-model mismatch error (and nothing changed) when the
/// scene was captured on another model, else the device's inputs become
/// the scene's.
pub fn apply_inputs(
    inputs: &mut Vec<InputState>,
    device_model: &str,
    scene_model: &str,
    scene_inputs: &Vec<InputState>,
) -> (r: Result<(), Error>)
    ensures
        models_compatible(scene_model@, device_model@) <==> r is Ok,
        r is Ok ==> final(inputs)@ == scene_inputs@,
        r is Err ==> final(inputs)@ == old(inputs)@,
        r is Err ==> (r matches Err(Error::SceneModelMismatch { scene_model: s, device_model: d })
            && s@ == scene_model@ && d@ == device_model@),
{
    match check_compatible(scene_model, device_model) {
        Ok(()) => {
            *inputs = capture_inputs(scene_inputs);
            Ok(())
        },
        Err(e) => Err(e),
    }
}

// ── Laws ─────────────────────────────────────────────────────────

/// Reading an input back gives what the last allowed change wrote (the
/// gain as clamped), and a change leaves every other input and every
/// other control as it was.
pub proof fn lemma_change_read_back(s: InputState, c: InputChange)
    ensures
        c matches InputChange::Phantom(on) ==> changed(s, c).phantom == on,
        c matches InputChange::Pad(on) ==> changed(s, c).pad == on,
        c matches InputChange::Gain(g) ==> changed(s, c).gain == Some(clamped_gain(g, s.gain_max))
            && (s.gain_max matches Some(m) ==> clamped_gain(g, s.gain_max) <= m),
        c matches InputChange::Sensitivity(v) ==> changed(s, c).sensitivity == Some(v),
        c matches InputChange::Phase(on) ==> changed(s, c).phase == on,
        c matches InputChange::RefLevel(r) ==> changed(s, c).ref_level == r,
        changed(s, c).channel_type == s.channel_type,
        changed(s, c).gain_max == s.gain_max,
{
}

/// A second identical change changes nothing more.
pub proof fn lemma_change_is_idempotent(s: InputState, c: InputChange)
    ensures
        changed(changed(s, c), c) == changed(s, c),
{
}

} // verus!
