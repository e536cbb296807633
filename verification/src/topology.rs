//! Channel topology of the Babyface Pro FS: which protocol source or
//! output, and which ALSA crosspoint slot, each model channel maps to.
//!
//! The model has 12 inputs (AN1-AN4 mono, then the AS1/2 and ADAT 3/4,
//! 5/6, 7/8 stereo pairs), 12 playback channels (6 stereo pairs) and 6
//! output pairs (AN1/2, PH3/4, AS1/2, ADAT3/4, ADAT5/6, ADAT7/8).
use vstd::prelude::*;

use crate::error::{indexed_message, invalid_index, Error};

verus! {

/// Number of hardware input channels.
pub const INPUT_COUNT: usize = 12;
/// Number of software playback channels.
pub const PLAYBACK_COUNT: usize = 12;
/// Number of physical output pairs.
pub const OUTPUT_PAIR_COUNT: usize = 6;
/// Number of crosspoint sources of the kernel driver (4 mono analog
/// inputs, 4 stereo input pairs, 6 playback pairs).
pub const CROSSPOINT_SOURCES: usize = 14;

/// A protocol input source.
#[derive(Debug, Clone, Copy, PartialEq, Eq, Structural)]
pub enum ProtocolInput {
    An1,
    An2,
    An3,
    An4,
    As12,
    Adat34,
    Adat56,
    Adat78,
}

/// A crosspoint source of the USB protocol: an input, or a playback pair
/// (1-6).
#[derive(Debug, Clone, Copy, PartialEq, Eq, Structural)]
pub enum Source {
    Input(ProtocolInput),
    Playback(u8),
}

/// A protocol output pair.
#[derive(Debug, Clone, Copy, PartialEq, Eq, Structural)]
pub enum ProtocolOutput {
    An12,
    Ph34,
    As12,
    Adat34,
    Adat56,
    Adat78,
}

/// One side of a stereo ALSA control.
#[derive(Debug, Clone, Copy, PartialEq, Eq, Structural)]
pub enum Side {
    FrontLeft,
    FrontRight,
}

/// Position of a protocol input in source order (AN1 = 0 ... ADAT7/8 = 7).
pub open spec fn protocol_input_ordinal(p: ProtocolInput) -> int {
    match p {
        ProtocolInput::An1 => 0,
        ProtocolInput::An2 => 1,
        ProtocolInput::An3 => 2,
        ProtocolInput::An4 => 3,
        ProtocolInput::As12 => 4,
        ProtocolInput::Adat34 => 5,
        ProtocolInput::Adat56 => 6,
        ProtocolInput::Adat78 => 7,
    }
}

/// Position of a protocol output in strip order (AN1/2 = 0 ... ADAT7/8 = 5).
pub open spec fn protocol_output_ordinal(o: ProtocolOutput) -> int {
    match o {
        ProtocolOutput::An12 => 0,
        ProtocolOutput::Ph34 => 1,
        ProtocolOutput::As12 => 2,
        ProtocolOutput::Adat34 => 3,
        ProtocolOutput::Adat56 => 4,
        ProtocolOutput::Adat78 => 5,
    }
}

/// The source an input channel feeds: the four analog inputs are mono
/// sources 0-3; the later inputs come in stereo pairs sharing a source.
pub open spec fn input_source_ordinal(idx: int) -> int {
    if idx < 4 {
        idx
    } else {
        4 + (idx - 4) / 2
    }
}

/// Which side of its source's stereo control an input channel is.
pub open spec fn input_side(idx: int) -> Side {
    if idx < 4 || (idx - 4) % 2 == 0 {
        Side::FrontLeft
    } else {
        Side::FrontRight
    }
}

/// The protocol source for a model input channel. Both channels of a
/// stereo input pair map to the same source.
pub fn input_source(idx: usize) -> (r: Result<Source, Error>)
    ensures
        idx < INPUT_COUNT ==> (r matches Ok(Source::Input(p)) && protocol_input_ordinal(p)
            == input_source_ordinal(idx as int)),
        idx >= INPUT_COUNT ==> (r matches Err(Error::InvalidChannel(m)) && m@ == indexed_message(
            "Input"@,
            idx as nat,
        )),
{
    if idx == 0 {
        Ok(Source::Input(ProtocolInput::An1))
    } else if idx == 1 {
        Ok(Source::Input(ProtocolInput::An2))
    } else if idx == 2 {
        Ok(Source::Input(ProtocolInput::An3))
    } else if idx == 3 {
        Ok(Source::Input(ProtocolInput::An4))
    } else if idx == 4 || idx == 5 {
        Ok(Source::Input(ProtocolInput::As12))
    } else if idx == 6 || idx == 7 {
        Ok(Source::Input(ProtocolInput::Adat34))
    } else if idx == 8 || idx == 9 {
        Ok(Source::Input(ProtocolInput::Adat56))
    } else if idx == 10 || idx == 11 {
        Ok(Source::Input(ProtocolInput::Adat78))
    } else {
        Err(invalid_index("Input", idx))
    }
}

/// The protocol source for a model playback channel: pair `idx / 2 + 1`.
pub fn playback_source(idx: usize) -> (r: Result<Source, Error>)
    ensures
        idx < PLAYBACK_COUNT ==> (r matches Ok(Source::Playback(n)) && n == idx / 2 + 1),
        idx >= PLAYBACK_COUNT ==> (r matches Err(Error::InvalidChannel(m)) && m@
            == indexed_message("Playback"@, idx as nat)),
{
    if idx >= PLAYBACK_COUNT {
        return Err(invalid_index("Playback", idx));
    }
    Ok(Source::Playback((idx / 2 + 1) as u8))
}

/// The protocol output for a model output pair index.
pub fn output_for(idx: usize) -> (r: Result<ProtocolOutput, Error>)
    ensures
        idx < OUTPUT_PAIR_COUNT ==> (r matches Ok(o) && protocol_output_ordinal(o) == idx),
        idx >= OUTPUT_PAIR_COUNT ==> (r matches Err(Error::InvalidChannel(m)) && m@
            == indexed_message("Output"@, idx as nat)),
{
    if idx == 0 {
        Ok(ProtocolOutput::An12)
    } else if idx == 1 {
        Ok(ProtocolOutput::Ph34)
    } else if idx == 2 {
        Ok(ProtocolOutput::As12)
    } else if idx == 3 {
        Ok(ProtocolOutput::Adat34)
    } else if idx == 4 {
        Ok(ProtocolOutput::Adat56)
    } else if idx == 5 {
        Ok(ProtocolOutput::Adat78)
    } else {
        Err(invalid_index("Output", idx))
    }
}

/// The kernel driver's crosspoint slot of an input channel: its source
/// (0-7), which side of that source's control is this input's own level,
/// and whether the source is mono (only the four analog inputs are, and
/// only those can be panned).
pub fn input_crosspoint_slot(idx: usize) -> (r: Option<(usize, Side, bool)>)
    ensures
        idx < INPUT_COUNT ==> r == Some(
            (input_source_ordinal(idx as int) as usize, input_side(idx as int), idx < 4),
        ),
        idx >= INPUT_COUNT ==> r is None,
{
    if idx >= INPUT_COUNT {
        return None;
    }
    if idx < 4 {
        Some((idx, Side::FrontLeft, true))
    } else {
        let side = if (idx - 4) % 2 == 0 {
            Side::FrontLeft
        } else {
            Side::FrontRight
        };
        Some((4 + (idx - 4) / 2, side, false))
    }
}

/// The kernel driver's crosspoint slot of a playback channel: source
/// `8 + idx / 2` (PB1-PB6), left channel on the front-left side.
pub fn playback_crosspoint_slot(idx: usize) -> (r: Option<(usize, Side)>)
    ensures
        idx < PLAYBACK_COUNT ==> r == Some(
            (
                (8 + idx / 2) as usize,
                if idx % 2 == 0 {
                    Side::FrontLeft
                } else {
                    Side::FrontRight
                },
            ),
        ),
        idx >= PLAYBACK_COUNT ==> r is None,
{
    if idx >= PLAYBACK_COUNT {
        return None;
    }
    let side = if idx % 2 == 0 {
        Side::FrontLeft
    } else {
        Side::FrontRight
    };
    Some((8 + idx / 2, side))
}

/// The ALSA element index of a crosspoint control: `output * 14 + src`.
pub fn crosspoint_element_index(src: usize, output: usize) -> (r: u32)
    requires
        src < CROSSPOINT_SOURCES,
        output < OUTPUT_PAIR_COUNT,
    ensures
        r == output * 14 + src,
{
    (output * 14 + src) as u32
}

/// The kernel driver's name of crosspoint source `src`.
pub fn source_name(src: usize) -> (r: &'static str)
    requires
        src < CROSSPOINT_SOURCES,
    ensures
        src == 0 ==> r@ == "AN1"@,
        src == 1 ==> r@ == "AN2"@,
        src == 2 ==> r@ == "AN3"@,
        src == 3 ==> r@ == "AN4"@,
        src == 4 ==> r@ == "AS1/2"@,
        src == 5 ==> r@ == "ADAT3/4"@,
        src == 6 ==> r@ == "ADAT5/6"@,
        src == 7 ==> r@ == "ADAT7/8"@,
        src == 8 ==> r@ == "PB1"@,
        src == 9 ==> r@ == "PB2"@,
        src == 10 ==> r@ == "PB3"@,
        src == 11 ==> r@ == "PB4"@,
        src == 12 ==> r@ == "PB5"@,
        src == 13 ==> r@ == "PB6"@,
{
    if src == 0 {
        "AN1"
    } else if src == 1 {
        "AN2"
    } else if src == 2 {
        "AN3"
    } else if src == 3 {
        "AN4"
    } else if src == 4 {
        "AS1/2"
    } else if src == 5 {
        "ADAT3/4"
    } else if src == 6 {
        "ADAT5/6"
    } else if src == 7 {
        "ADAT7/8"
    } else if src == 8 {
        "PB1"
    } else if src == 9 {
        "PB2"
    } else if src == 10 {
        "PB3"
    } else if src == 11 {
        "PB4"
    } else if src == 12 {
        "PB5"
    } else {
        "PB6"
    }
}

/// The kernel driver's master-volume/mute control name of output pair
/// `pair`.
pub fn pair_label(pair: usize) -> (r: Option<&'static str>)
    ensures
        pair >= OUTPUT_PAIR_COUNT ==> r is None,
        pair == 0 ==> (r matches Some(n) && n@ == "AN1/2"@),
        pair == 1 ==> (r matches Some(n) && n@ == "PH3/4"@),
        pair == 2 ==> (r matches Some(n) && n@ == "AS1/2"@),
        pair == 3 ==> (r matches Some(n) && n@ == "ADAT3/4"@),
        pair == 4 ==> (r matches Some(n) && n@ == "ADAT5/6"@),
        pair == 5 ==> (r matches Some(n) && n@ == "ADAT7/8"@),
{
    if pair == 0 {
        Some("AN1/2")
    } else if pair == 1 {
        Some("PH3/4")
    } else if pair == 2 {
        Some("AS1/2")
    } else if pair == 3 {
        Some("ADAT3/4")
    } else if pair == 4 {
        Some("ADAT5/6")
    } else if pair == 5 {
        Some("ADAT7/8")
    } else {
        None
    }
}

/// The EQ strip name of an input (as returned by [`eq_strip_name`]).
pub open spec fn eq_strip_name_spec(idx: int) -> Option<&'static str> {
    if idx == 0 {
        Some("AN1")
    } else if idx == 1 {
        Some("AN2")
    } else if idx == 2 {
        Some("AN3")
    } else if idx == 3 {
        Some("AN4")
    } else {
        None
    }
}

/// The EQ strip name of an input: only the four analog inputs have a
/// hardware EQ, named after their crosspoint source.
pub fn eq_strip_name(idx: usize) -> (r: Option<&'static str>)
    ensures
        r == eq_strip_name_spec(idx as int),
        idx >= 4 ==> r is None,
        idx == 0 ==> (r matches Some(n) && n@ == "AN1"@),
        idx == 1 ==> (r matches Some(n) && n@ == "AN2"@),
        idx == 2 ==> (r matches Some(n) && n@ == "AN3"@),
        idx == 3 ==> (r matches Some(n) && n@ == "AN4"@),
{
    if idx == 0 {
        Some("AN1")
    } else if idx == 1 {
        Some("AN2")
    } else if idx == 2 {
        Some("AN3")
    } else if idx == 3 {
        Some("AN4")
    } else {
        None
    }
}

/// The kernel driver's control slot of an output channel: the pair's
/// master control (`idx / 2`) and the channel's side of it.
pub fn output_channel_slot(idx: usize) -> (r: Option<(usize, Side)>)
    ensures
        idx / 2 < OUTPUT_PAIR_COUNT ==> r == Some(
            (
                idx / 2,
                if idx % 2 == 0 {
                    Side::FrontLeft
                } else {
                    Side::FrontRight
                },
            ),
        ),
        idx / 2 >= OUTPUT_PAIR_COUNT ==> r is None,
{
    if idx / 2 >= OUTPUT_PAIR_COUNT {
        return None;
    }
    let side = if idx % 2 == 0 {
        Side::FrontLeft
    } else {
        Side::FrontRight
    };
    Some((idx / 2, side))
}

/// The output channels (of `outputs_len`) that share pair `pair`'s
/// hardware mute switch and loopback flag: both channels of the pair, as
/// far as they exist.
pub fn pair_outputs(pair: usize, outputs_len: usize) -> (r: Vec<usize>)
    requires
        2 * pair + 1 <= usize::MAX,
    ensures
        r@ == (if 2 * pair + 1 < outputs_len {
            seq![(2 * pair) as usize, (2 * pair + 1) as usize]
        } else if 2 * pair < outputs_len {
            seq![(2 * pair) as usize]
        } else {
            Seq::<usize>::empty()
        }),
{
    let mut v: Vec<usize> = Vec::new();
    if pair * 2 < outputs_len {
        v.push(pair * 2);
    }
    if pair * 2 + 1 < outputs_len {
        v.push(pair * 2 + 1);
    }
    v
}

/// Checks an EQ target: input `idx` must have a hardware EQ (AN1-AN4) and
/// `band` must be one of its three bands. Gives the EQ strip name.
pub fn check_eq_band(idx: usize, band: usize) -> (r: Result<&'static str, Error>)
    ensures
        idx >= 4 ==> (r matches Err(Error::InvalidChannel(m)) && m@ == indexed_message(
            "Input"@,
            idx as nat,
        ) + " has no EQ"@),
        idx < 4 && band >= 3 ==> (r matches Err(Error::InvalidChannel(m)) && m@ == indexed_message(
            "EQ band"@,
            band as nat,
        )),
        idx < 4 && band < 3 ==> (r matches Ok(n) && Some(n) == eq_strip_name_spec(idx as int)),
{
    match eq_strip_name(idx) {
        None => {
            let mut s = crate::error::indexed_message_string("Input", idx);
            s.append(" has no EQ");
            Err(Error::InvalidChannel(s))
        },
        Some(name) => {
            if band >= 3 {
                Err(invalid_index("EQ band", band))
            } else {
                Ok(name)
            }
        },
    }
}

// ── Laws ─────────────────────────────────────────────────────────

/// The two channels of a stereo input pair (AS1/2 and the ADAT pairs)
/// share one source, on opposite sides; every analog input is its own
/// mono source.
pub proof fn lemma_stereo_inputs_share_a_source(idx: int)
    requires
        4 <= idx < INPUT_COUNT,
    ensures
        input_source_ordinal(idx) == input_source_ordinal(if (idx - 4) % 2 == 0 {
            idx + 1
        } else {
            idx - 1
        }),
        input_side(idx) != input_side(if (idx - 4) % 2 == 0 {
            idx + 1
        } else {
            idx - 1
        }),
        forall|a: int, b: int|
            0 <= a < 4 && 0 <= b < INPUT_COUNT && a != b ==> input_source_ordinal(a)
                != input_source_ordinal(b),
{
}

/// Every input maps to a source in 0-7, and every source of 0-7 is fed by
/// some input: the input topology covers the protocol's input sources
/// exactly.
pub proof fn lemma_input_sources_cover_protocol(s: int)
    ensures
        forall|idx: int| 0 <= idx < INPUT_COUNT ==> 0 <= #[trigger] input_source_ordinal(idx) < 8,
        0 <= s < 8 ==> exists|idx: int| 0 <= idx < INPUT_COUNT && #[trigger] input_source_ordinal(idx) == s,
{
    if 0 <= s < 8 {
        if s < 4 {
            assert(input_source_ordinal(s) == s);
        } else {
            assert(input_source_ordinal(4 + (s - 4) * 2) == s);
        }
    }
}

} // verus!
