//! Host side of the front panel on the proprietary USB backend: what the
//! host does for each decoded panel event (the device only reports the
//! panel; the host writes the mixer registers), plus the preamp and
//! register encodings those writes use.
use vstd::prelude::*;

use crate::channel::ChannelType;
use crate::panel::{PanelDriver, PanelEvent, PanelState, SelectState, BUTTON_SET};
use crate::topology::{protocol_output_ordinal, ProtocolOutput};

verus! {

/// Preamp gain maximum (dB) of a Mic input.
pub const GAIN_DB_MAX: u32 = 65;
/// Preamp gain maximum (dB) of an Instrument input.
pub const GAIN_DB_MAX_INSTR: u32 = 9;
/// Ref-level code +4 dBu (Instrument inputs 3/4).
pub const REF_PLUS_4DBU: u16 = 1;
/// Ref-level code -10 dBV.
pub const REF_MINUS_10DBV: u16 = 2;
/// Ref-level code Boost.
pub const REF_BOOST: u16 = 3;
/// Number of loopback flag registers written on every loopback toggle.
pub const LOOPBACK_CHANNELS: usize = 30;

/// The preamp state mirrored in byte 0 of the `0x17` readback:
/// (48V AN1, 48V AN2, PAD AN1, PAD AN2) = bits 0, 1, 4, 5.
pub fn preamp_state_from_readback(st: [u8; 4]) -> (r: (bool, bool, bool, bool))
    ensures
        r.0 == (st@[0] & 0x01 != 0),
        r.1 == (st@[0] & 0x02 != 0),
        r.2 == (st@[0] & 0x10 != 0),
        r.3 == (st@[0] & 0x20 != 0),
{
    (st[0] & 0x01 != 0, st[0] & 0x02 != 0, st[0] & 0x10 != 0, st[0] & 0x20 != 0)
}

/// The model inputs a SELECT state targets on the IN-selected pair:
/// Ch1/2 (0) = AN1/AN2, Ch3/4 (1) = AN3/AN4; Opt (2) and a deselected
/// panel target nothing.
pub open spec fn select_targets_spec(select: SelectState, in_sel: int) -> Seq<usize> {
    if in_sel == 0 || in_sel == 1 {
        let base = (2 * in_sel) as usize;
        match select {
            SelectState::Left => seq![base],
            SelectState::Right => seq![(base + 1) as usize],
            SelectState::Both => seq![base, (base + 1) as usize],
            SelectState::Neither => Seq::empty(),
        }
    } else {
        Seq::empty()
    }
}

/// The model inputs a SELECT state targets on the IN-selected pair.
pub fn select_targets(select: SelectState, in_sel: usize) -> (r: Vec<usize>)
    ensures
        r@ == select_targets_spec(select, in_sel as int),
{
    let mut v: Vec<usize> = Vec::new();
    if in_sel == 0 || in_sel == 1 {
        let base = 2 * in_sel;
        match select {
            SelectState::Left => v.push(base),
            SelectState::Right => v.push(base + 1),
            SelectState::Both => {
                v.push(base);
                v.push(base + 1);
            },
            SelectState::Neither => {},
        }
    }
    v
}

/// The mics a SET press toggles 48V on: the SELECT-chosen mic(s) of
/// Ch1/2, and nothing in MIX or OUT mode or on another IN pair.
pub open spec fn set_phantom_targets_spec(ps: PanelState, select: SelectState) -> Seq<usize> {
    if ps.spec_mix_mode() || ps.spec_out_mode() || ps.spec_in_sel() != 0 {
        Seq::empty()
    } else {
        select_targets_spec(select, 0)
    }
}

/// The mics a SET press toggles 48V on for the current panel state.
pub fn set_phantom_targets(ps: PanelState, select: SelectState) -> (r: Vec<usize>)
    ensures
        r@ == set_phantom_targets_spec(ps, select),
{
    if ps.mix_mode() || ps.out_mode() || ps.in_sel() != 0 {
        return Vec::new();
    }
    select_targets(select, 0)
}

/// The model output index a panel OUT selection stands for: Ch1/2 = 0,
/// Phones = 1, Opt = 5 (ADAT7/8).
pub open spec fn panel_output_index(out_sel: int) -> int {
    if out_sel == 1 {
        1
    } else if out_sel == 2 {
        5
    } else {
        0
    }
}

/// The model input a panel IN selection starts at: Ch1/2 = AN1 (0),
/// Ch3/4 = AN3 (2), Opt = AS1 (4).
pub open spec fn panel_input_index(in_sel: int) -> int {
    if in_sel == 1 {
        2
    } else if in_sel == 2 {
        4
    } else {
        0
    }
}

/// The (input, output) model indices of the MIX-monitoring crosspoint for
/// a panel IN/OUT selection.
pub fn mix_crosspoint(in_sel: usize, out_sel: usize) -> (r: (usize, usize))
    ensures
        r.0 == panel_input_index(in_sel as int),
        r.1 == panel_output_index(out_sel as int),
{
    let i = if in_sel == 1 {
        2
    } else if in_sel == 2 {
        4
    } else {
        0
    };
    let o = if out_sel == 1 {
        1
    } else if out_sel == 2 {
        5
    } else {
        0
    };
    (i, o)
}

/// The interface's submix selection follows the panel's OUT selection,
/// but only when the panel's selection changes: a submix picked in the
/// interface keeps winning until OUT is touched on the panel. From the
/// last OUT selection seen, the panel's current one and the selected
/// submix pair: the new last-seen value and the new selected submix.
pub open spec fn follow_spec(last_seen: Option<usize>, out_sel: usize, selected: usize) -> (Option<usize>, usize) {
    if last_seen == Some(out_sel) {
        (last_seen, selected)
    } else {
        (Some(out_sel), panel_output_index(out_sel as int) as usize)
    }
}

/// One step of following the panel's OUT selection (see [`follow_spec`]).
pub fn follow_panel_out(last_seen: Option<usize>, out_sel: usize, selected: usize) -> (r: (
    Option<usize>,
    usize,
))
    ensures
        r == follow_spec(last_seen, out_sel, selected),
{
    let (_, out) = mix_crosspoint(0, out_sel);
    match last_seen {
        Some(l) => {
            if l == out_sel {
                (last_seen, selected)
            } else {
                (Some(out_sel), out)
            }
        },
        None => (Some(out_sel), out),
    }
}

/// The protocol output the MIX wheel writes for a panel OUT selection.
pub fn panel_output(out_sel: usize) -> (r: ProtocolOutput)
    ensures
        protocol_output_ordinal(r) == panel_output_index(out_sel as int),
{
    if out_sel == 1 {
        ProtocolOutput::Ph34
    } else if out_sel == 2 {
        ProtocolOutput::Adat78
    } else {
        ProtocolOutput::An12
    }
}

/// The input whose current crosspoint level MIX monitoring starts from:
/// AS1 on Opt, else the first SELECT-chosen input (AN1 when none is).
pub open spec fn mix_reference_input_spec(select: SelectState, in_sel: int) -> int {
    if in_sel == 2 {
        4
    } else if select_targets_spec(select, in_sel).len() == 0 {
        0
    } else {
        select_targets_spec(select, in_sel)[0] as int
    }
}

/// The input whose current crosspoint level MIX monitoring starts from.
pub fn mix_reference_input(select: SelectState, in_sel: usize) -> (r: usize)
    ensures
        r == mix_reference_input_spec(select, in_sel as int),
{
    if in_sel == 2 {
        return 4;
    }
    let sel = select_targets(select, in_sel);
    if sel.len() == 0 {
        0
    } else {
        sel[0]
    }
}

/// The inputs the MIX wheel moves: the SELECT-chosen inputs of Ch1/2 or
/// Ch3/4, or the AS1/2 pair's shared crosspoint on Opt.
pub open spec fn mix_wheel_inputs_spec(select: SelectState, in_sel: int) -> Seq<usize> {
    if in_sel == 1 {
        select_targets_spec(select, 1)
    } else if in_sel == 2 {
        seq![4usize]
    } else {
        select_targets_spec(select, 0)
    }
}

/// Mic preamp code of a gain in dB: 3.25 dB per code, rounded to the
/// nearest code, at most 20 (65 dB).
pub open spec fn mic_gain_code(gain: int) -> int {
    let c = (8 * gain + 13) / 26;
    if c > 20 {
        20
    } else {
        c
    }
}

/// Instrument preamp code of a gain in dB: 0.5 dB per code, at most 18
/// (9 dB).
pub open spec fn instrument_gain_code(gain: int) -> int {
    if 2 * gain > 18 {
        18
    } else {
        2 * gain
    }
}

/// Per-input preamp gain (dB) -> raw protocol code: Mic codes step by
/// 3.25 dB (0-20), Instrument codes by 0.5 dB (0-18); other inputs have
/// no preamp gain (0).
pub fn gain_to_raw(ct: ChannelType, gain: u32) -> (r: u8)
    ensures
        ct == ChannelType::Mic ==> r == mic_gain_code(gain as int),
        ct == ChannelType::Instrument ==> r == instrument_gain_code(gain as int),
        ct != ChannelType::Mic && ct != ChannelType::Instrument ==> r == 0,
{
    match ct {
        ChannelType::Mic => {
            if gain >= 66 {
                20
            } else {
                let c = (8 * gain + 13) / 26;
                c as u8
            }
        },
        ChannelType::Instrument => {
            if gain >= 9 {
                18
            } else {
                (2 * gain) as u8
            }
        },
        _ => 0,
    }
}

/// The hardware gain range (dB) of an input type: Mic 0-65, Instrument
/// 0-9, no gain otherwise.
pub fn gain_max_for(ct: ChannelType) -> (r: u32)
    ensures
        r == (if ct == ChannelType::Mic {
            GAIN_DB_MAX
        } else if ct == ChannelType::Instrument {
            GAIN_DB_MAX_INSTR
        } else {
            0
        }),
{
    match ct {
        ChannelType::Mic => GAIN_DB_MAX,
        ChannelType::Instrument => GAIN_DB_MAX_INSTR,
        _ => 0,
    }
}

/// A gain set by the UI, limited to the input's maximum when it has one.
pub fn clamp_gain(gain: u32, gain_max: Option<u32>) -> (r: u32)
    ensures
        r == (match gain_max {
            Some(m) => if gain < m {
                gain
            } else {
                m
            },
            None => gain,
        }),
{
    match gain_max {
        Some(m) => if gain < m {
            gain
        } else {
            m
        },
        None => gain,
    }
}

/// The gain after `delta` wheel clicks of 1 dB each, kept within
/// 0..=max (an unset gain counts as 0 dB, an unset maximum as 65 dB).
pub open spec fn wheel_gain_spec(gain: Option<u32>, gain_max: Option<u32>, delta: int) -> int {
    let g = match gain {
        Some(x) => x as int,
        None => 0,
    };
    let m = match gain_max {
        Some(x) => x as int,
        None => GAIN_DB_MAX as int,
    };
    if g + delta < 0 {
        0
    } else if g + delta > m {
        m
    } else {
        g + delta
    }
}

/// The gain after `delta` wheel clicks in gain mode.
pub fn wheel_gain(gain: Option<u32>, gain_max: Option<u32>, delta: i8) -> (r: u32)
    requires
        gain matches Some(g) ==> g <= 0x100_0000,
        gain_max matches Some(m) ==> m <= 0x100_0000,
    ensures
        r == wheel_gain_spec(gain, gain_max, delta as int),
{
    let g: i64 = match gain {
        Some(x) => x as i64,
        None => 0,
    };
    let m: i64 = match gain_max {
        Some(x) => x as i64,
        None => GAIN_DB_MAX as i64,
    };
    let n: i64 = g + delta as i64;
    if n < 0 {
        0
    } else if n > m {
        m as u32
    } else {
        n as u32
    }
}

/// The (state, commit) register words of an Instrument ref level:
/// -10 dBV = (0x0003, 0x0000), Boost = (0x0003, 0x0003), +4 dBu and any
/// other code = (0x000F, 0x0000).
pub fn ref_level_words(raw: u16) -> (r: (u16, u16))
    ensures
        r == (if raw == REF_MINUS_10DBV {
            (0x0003u16, 0x0000u16)
        } else if raw == REF_BOOST {
            (0x0003u16, 0x0003u16)
        } else {
            (0x000Fu16, 0x0000u16)
        }),
{
    if raw == REF_MINUS_10DBV {
        (0x0003, 0x0000)
    } else if raw == REF_BOOST {
        (0x0003, 0x0003)
    } else {
        (0x000F, 0x0000)
    }
}

/// The full loopback flag map written on every loopback toggle: channel
/// `c` (0-29) is active when output pair `c / 2` exists and has loopback.
pub fn loopback_map(loopback: &Vec<bool>) -> (r: Vec<bool>)
    ensures
        r@.len() == LOOPBACK_CHANNELS,
        forall|c: int|
            0 <= c < LOOPBACK_CHANNELS ==> #[trigger] r@[c] == (c / 2 < loopback@.len() && loopback@[c
                / 2]),
{
    let mut v: Vec<bool> = Vec::new();
    let mut c: usize = 0;
    while c < LOOPBACK_CHANNELS
        invariant
            c <= LOOPBACK_CHANNELS,
            v@.len() == c,
            forall|k: int| 0 <= k < c ==> #[trigger] v@[k] == (k / 2 < loopback@.len() && loopback@[k / 2]),
        decreases LOOPBACK_CHANNELS - c,
    {
        let active = c / 2 < loopback.len() && loopback[c / 2];
        v.push(active);
        c = c + 1;
    }
    v
}

/// Whether model input `i` is one of `t`.
pub open spec fn in_targets(t: Seq<usize>, i: int) -> bool {
    exists|k: int| 0 <= k < t.len() && #[trigger] t[k] as int == i
}

/// 48V states after a SET press on targets `t`: every target takes the
/// opposite of the first target's current state.
pub open spec fn phantom_after_toggle(p: Seq<bool>, t: Seq<usize>) -> Seq<bool> {
    Seq::new(p.len(), |i: int| if in_targets(t, i) { !p[t[0] as int] } else { p[i] })
}

/// Toggles 48V on the mics a SET press targets. Returns whether anything
/// changed (and the preamp state must be written).
pub fn toggle_phantom(phantom: &mut Vec<bool>, ps: PanelState, select: SelectState) -> (changed: bool)
    requires
        old(phantom)@.len() >= 2,
    ensures
        changed == (set_phantom_targets_spec(ps, select).len() > 0),
        !changed ==> final(phantom)@ == old(phantom)@,
        changed ==> final(phantom)@ == phantom_after_toggle(
            old(phantom)@,
            set_phantom_targets_spec(ps, select),
        ),
{
    let mics = set_phantom_targets(ps, select);
    if mics.len() == 0 {
        return false;
    }
    let ghost t = mics@;
    let ghost before = phantom@;
    let on = !phantom[mics[0]];
    let mut k: usize = 0;
    while k < mics.len()
        invariant
            mics@ == t,
            forall|j: int| 0 <= j < t.len() ==> t[j] < 2,
            before.len() >= 2,
            k <= t.len(),
            phantom@.len() == before.len(),
            on == !before[t[0] as int],
            t.len() > 0,
            forall|i: int|
                0 <= i < before.len() ==> #[trigger] phantom@[i] == (if in_targets(
                    t.subrange(0, k as int),
                    i,
                ) {
                    on
                } else {
                    before[i]
                }),
        decreases t.len() - k,
    {
        let m = mics[k];
        phantom.set(m, on);
        k = k + 1;
        assert forall|i: int| 0 <= i < before.len() implies #[trigger] phantom@[i] == (if in_targets(
            t.subrange(0, k as int),
            i,
        ) {
            on
        } else {
            before[i]
        }) by {
            let pre = t.subrange(0, k - 1);
            let post = t.subrange(0, k as int);
            if i == m as int {
                assert(post[k - 1] as int == i);
            } else {
                if in_targets(post, i) {
                    let w = choose|w: int| 0 <= w < post.len() && #[trigger] post[w] as int == i;
                    assert(w != k - 1);
                    assert(pre[w] as int == i);
                }
                if in_targets(pre, i) {
                    let w = choose|w: int| 0 <= w < pre.len() && #[trigger] pre[w] as int == i;
                    assert(post[w] as int == i);
                }
            }
        }
    }
    assert(t.subrange(0, t.len() as int) =~= t);
    assert(phantom@ =~= phantom_after_toggle(before, t));
    true
}

/// What the host does in answer to a front-panel event.
#[derive(Debug)]
pub enum PanelAction {
    /// Send one vendor control request.
    Vendor { request: u8, value: u16, index: u16 },
    /// MIX monitoring starts: take the current level of crosspoint
    /// (`input` -> `output`) as the wheel's starting level.
    StartMixMonitor { input: usize, output: usize },
    /// Move the monitoring level of `inputs` into model output `output`
    /// by `delta` wheel clicks (0.5 dB each, on the crosspoint fader
    /// curve).
    MixLevel { inputs: Vec<usize>, output: usize, delta: i8 },
    /// Move the master of model output `output` by `delta` clicks (0.5 dB
    /// each).
    OutputLevel { output: usize, delta: i8 },
    /// Move the preamp gain of `mics` by `delta` clicks (1 dB each, see
    /// [`wheel_gain`]) and write the panel gain registers.
    GainStep { mics: Vec<usize>, delta: i8 },
    /// Toggle 48V on `mics` (see [`toggle_phantom`]) and write the preamp
    /// state.
    TogglePhantom { mics: Vec<usize> },
}

/// The MIX acknowledge request (engages fader mode on the device).
pub open spec fn is_mix_ack(a: PanelAction) -> bool {
    a == (PanelAction::Vendor { request: 0x17, value: 0x8480, index: 0x8C80 })
}

/// The host's answer to one panel event. `driver` is the panel driver
/// after it produced the event and `ps` the readback it came from.
pub fn panel_actions(driver: &PanelDriver, ps: PanelState, ev: PanelEvent) -> (r: Vec<PanelAction>)
    ensures
        ev == PanelEvent::MixPressed ==> r@.len() == 2 && is_mix_ack(r@[0]) && r@[1]
            == (PanelAction::StartMixMonitor {
            input: mix_reference_input_spec(driver.select, driver.in_sel as int) as usize,
            output: panel_output_index(driver.out_sel as int) as usize,
        }),
        ev == PanelEvent::MixReleased ==> r@ == seq![
            PanelAction::Vendor { request: 0x17, value: 0x0400, index: 0x8000 },
            PanelAction::Vendor { request: 0x17, value: 0x0400, index: 0x8080 },
        ],
        ev == PanelEvent::DimPressed ==> r@.len() == 0,
        ev matches PanelEvent::Wheel { delta } ==> {
            if driver.mix_mode {
                r@.len() == 1 && (r@[0] matches PanelAction::MixLevel { inputs, output, delta: d }
                    && inputs@ == mix_wheel_inputs_spec(driver.select, driver.in_sel as int) && output
                    == panel_output_index(driver.out_sel as int) && d == delta)
            } else if ps.spec_out_mode() {
                r@ == seq![
                    PanelAction::OutputLevel {
                        output: panel_output_index(ps.spec_out_sel()) as usize,
                        delta,
                    },
                ]
            } else if ps.spec_in_sel() != 2 {
                r@.len() == 1 && (r@[0] matches PanelAction::GainStep { mics, delta: d } && mics@
                    == select_targets_spec(driver.select, ps.spec_in_sel()) && d == delta)
            } else {
                r@.len() == 0
            }
        },
        ev matches PanelEvent::Button { code } ==> {
            if code == BUTTON_SET && set_phantom_targets_spec(ps, driver.select).len() > 0 {
                r@.len() == 1 && (r@[0] matches PanelAction::TogglePhantom { mics } && mics@
                    == set_phantom_targets_spec(ps, driver.select))
            } else {
                r@.len() == 0
            }
        },
{
    let mut v: Vec<PanelAction> = Vec::new();
    match ev {
        PanelEvent::MixPressed => {
            v.push(PanelAction::Vendor { request: 0x17, value: 0x8480, index: 0x8C80 });
            let (_, o) = mix_crosspoint(driver.in_sel, driver.out_sel);
            let i = mix_reference_input(driver.select, driver.in_sel);
            v.push(PanelAction::StartMixMonitor { input: i, output: o });
        },
        PanelEvent::MixReleased => {
            v.push(PanelAction::Vendor { request: 0x17, value: 0x0400, index: 0x8000 });
            v.push(PanelAction::Vendor { request: 0x17, value: 0x0400, index: 0x8080 });
        },
        PanelEvent::Wheel { delta } => {
            if driver.mix_mode {
                let (_, o) = mix_crosspoint(driver.in_sel, driver.out_sel);
                let inputs = if driver.in_sel == 1 {
                    select_targets(driver.select, 1)
                } else if driver.in_sel == 2 {
                    let mut t: Vec<usize> = Vec::new();
                    t.push(4);
                    t
                } else {
                    select_targets(driver.select, 0)
                };
                v.push(PanelAction::MixLevel { inputs, output: o, delta });
            } else if ps.out_mode() {
                let (_, o) = mix_crosspoint(0, ps.out_sel());
                v.push(PanelAction::OutputLevel { output: o, delta });
            } else {
                let in_sel = ps.in_sel();
                if in_sel != 2 {
                    let mics = select_targets(driver.select, in_sel);
                    v.push(PanelAction::GainStep { mics, delta });
                }
            }
        },
        PanelEvent::DimPressed => {},
        PanelEvent::Button { code } => {
            if code == BUTTON_SET {
                let mics = set_phantom_targets(ps, driver.select);
                if mics.len() > 0 {
                    v.push(PanelAction::TogglePhantom { mics });
                }
            }
        },
    }
    v
}

// ── Laws ─────────────────────────────────────────────────────────

/// The panel never addresses anything outside its own pair: SELECT
/// targets are inputs of the IN-selected pair (AN1-AN4 only), a SET press
/// only ever reaches the two mics, and "none selected" reaches nothing.
pub proof fn lemma_panel_targets_stay_on_selected_pair(select: SelectState, in_sel: int, ps: PanelState)
    ensures
        forall|k: int|
            0 <= k < select_targets_spec(select, in_sel).len() ==> #[trigger] select_targets_spec(
                select,
                in_sel,
            )[k] / 2 == in_sel,
        forall|k: int|
            0 <= k < set_phantom_targets_spec(ps, select).len() ==> #[trigger] set_phantom_targets_spec(
                ps,
                select,
            )[k] < 2,
        select == SelectState::Neither ==> select_targets_spec(select, in_sel).len() == 0,
        select_targets_spec(select, in_sel).len() <= 2,
{
}

/// A SET press leaves all its target mics in the same state, the
/// opposite of the first target's; a second press on the same targets
/// therefore flips them all back, restoring the states before the first
/// press whenever the targets agreed beforehand.
pub proof fn lemma_phantom_toggle_twice_restores(p0: Seq<bool>, t: Seq<usize>)
    requires
        t.len() > 0,
        forall|k: int| 0 <= k < t.len() ==> t[k] < p0.len(),
    ensures
        forall|i: int|
            0 <= i < p0.len() && in_targets(t, i) ==> #[trigger] phantom_after_toggle(p0, t)[i]
                == !p0[t[0] as int],
        (forall|i: int| 0 <= i < p0.len() && in_targets(t, i) ==> #[trigger] p0[i] == p0[t[0] as int])
            ==> phantom_after_toggle(phantom_after_toggle(p0, t), t) == p0,
{
    let p1 = phantom_after_toggle(p0, t);
    assert(in_targets(t, t[0] as int));
    if forall|i: int| 0 <= i < p0.len() && in_targets(t, i) ==> #[trigger] p0[i] == p0[t[0] as int] {
        assert(phantom_after_toggle(p1, t) =~= p0);
    }
}

/// The MIX crosspoint's output and the output the MIX wheel writes are
/// the same output for every OUT selection.
pub proof fn lemma_mix_output_consistent(out_sel: int)
    ensures
        0 <= panel_output_index(out_sel) < 6,
        panel_output_index(out_sel) == 0 || panel_output_index(out_sel) == 1
            || panel_output_index(out_sel) == 5,
{
}

/// Every Mic gain in the hardware range maps to a code in 0-20 that is
/// monotone in the gain, and the code never moves more than 3.25 dB away
/// from the requested gain (each code is the nearest step).
pub proof fn lemma_mic_gain_code_nearest(g: int, h: int)
    requires
        0 <= g <= h <= GAIN_DB_MAX,
    ensures
        0 <= mic_gain_code(g) <= 20,
        mic_gain_code(g) <= mic_gain_code(h),
        -13 <= 13 * mic_gain_code(g) - 4 * g <= 13,
{
}

/// The interface follows a panel OUT change once: after following it,
/// the same panel selection never overrides a submix picked in the
/// interface since, while a different one is followed again.
pub proof fn lemma_panel_out_followed_once(last_seen: Option<usize>, out_sel: usize, selected: usize, picked: usize, next_sel: usize)
    ensures
        follow_spec(follow_spec(last_seen, out_sel, selected).0, out_sel, picked) == (
            Some(out_sel),
            picked,
        ),
        next_sel != out_sel ==> follow_spec(follow_spec(last_seen, out_sel, selected).0, next_sel, picked)
            == (Some(next_sel), panel_output_index(next_sel as int) as usize),
{
}

/// An Instrument gain maps to two codes per dB (0.5 dB per code): a gain
/// in the 0-9 dB range gives twice its value, a higher gain the 9 dB
/// code 18, so the code grows with the gain and each dB of the range is
/// a distinct code.
pub proof fn lemma_instrument_gain_code_half_db(g: int, h: int)
    ensures
        0 <= g <= 9 ==> instrument_gain_code(g) == 2 * g,
        g >= 9 ==> instrument_gain_code(g) == 18,
        0 <= g <= h ==> 0 <= instrument_gain_code(g) <= instrument_gain_code(h) <= 18,
        0 <= g < h <= 9 ==> instrument_gain_code(g) < instrument_gain_code(h),
{
}

} // verus!
