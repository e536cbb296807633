//! Which control a level or pan change writes, on the ALSA backend (the
//! kernel driver's mixer controls) and on the USB backend (the protocol's
//! crosspoints and masters). On ALSA an output channel's level is one side
//! of its pair's master control, and an input's or playback's level into
//! an output pair is its side of the crosspoint control of its source and
//! that pair. The four analog inputs are mono sources whose two crosspoint
//! sides carry level and pan together; every other source is a linked
//! stereo pair.
use vstd::prelude::*;

use crate::channel::ChannelId;
use crate::error::{indexed_message, invalid_index, Error};
use crate::topology::{
    input_side, input_source, input_source_ordinal, output_for, playback_source,
    protocol_input_ordinal, protocol_output_ordinal, ProtocolOutput, Side, Source, INPUT_COUNT,
    OUTPUT_PAIR_COUNT, PLAYBACK_COUNT,
};

verus! {

/// The control a level change writes.
#[derive(Debug, Clone, Copy, PartialEq, Eq, Structural)]
pub enum LevelControl {
    /// The master control of output pair `pair`, one side.
    OutputMaster { pair: usize, side: Side },
    /// The crosspoint control of source `src` into output pair `output`:
    /// one side of a stereo source, or both sides of a mono one (`mono`),
    /// re-encoded with the channel's pan.
    Crosspoint { src: usize, output: usize, side: Side, mono: bool },
}

/// The side of a pair a channel index is on: even left, odd right.
pub open spec fn side_of(idx: int) -> Side {
    if idx % 2 == 0 {
        Side::FrontLeft
    } else {
        Side::FrontRight
    }
}

/// Whether `r` is an `InvalidChannel` error with message `"{kind} {idx}"`.
pub open spec fn invalid_with(r: Result<LevelControl, Error>, kind: Seq<char>, idx: int) -> bool {
    r matches Err(Error::InvalidChannel(m)) && m@ == indexed_message(kind, idx as nat)
}

/// The control that sets `channel`'s level (into output pair `output`
/// for an input or playback), for a device with `n_outputs` output
/// channels; an `InvalidChannel` error names the missing output, input or
/// playback.
pub fn level_control(channel: ChannelId, output: usize, n_outputs: usize) -> (r: Result<LevelControl, Error>)
    ensures
        match channel {
            ChannelId::Output(idx) => if idx >= n_outputs || idx / 2 >= OUTPUT_PAIR_COUNT {
                invalid_with(r, "Output"@, idx as int)
            } else {
                r == Ok::<LevelControl, Error>(LevelControl::OutputMaster { pair: idx / 2, side: side_of(idx as int) })
            },
            ChannelId::Input(idx) => if output >= OUTPUT_PAIR_COUNT {
                invalid_with(r, "Output"@, output as int)
            } else if idx >= INPUT_COUNT {
                invalid_with(r, "Input"@, idx as int)
            } else {
                r == Ok::<LevelControl, Error>(
                    LevelControl::Crosspoint {
                        src: input_source_ordinal(idx as int) as usize,
                        output,
                        side: input_side(idx as int),
                        mono: idx < 4,
                    },
                )
            },
            ChannelId::Playback(idx) => if output >= OUTPUT_PAIR_COUNT {
                invalid_with(r, "Output"@, output as int)
            } else if idx >= PLAYBACK_COUNT {
                invalid_with(r, "Playback"@, idx as int)
            } else {
                r == Ok::<LevelControl, Error>(
                    LevelControl::Crosspoint {
                        src: (8 + idx / 2) as usize,
                        output,
                        side: side_of(idx as int),
                        mono: false,
                    },
                )
            },
        },
{
    match channel {
        ChannelId::Output(idx) => {
            if idx >= n_outputs || idx / 2 >= OUTPUT_PAIR_COUNT {
                return Err(invalid_index("Output", idx));
            }
            let side = if idx % 2 == 0 {
                Side::FrontLeft
            } else {
                Side::FrontRight
            };
            Ok(LevelControl::OutputMaster { pair: idx / 2, side })
        },
        ChannelId::Input(idx) => {
            if output >= OUTPUT_PAIR_COUNT {
                return Err(invalid_index("Output", output));
            }
            match crate::topology::input_crosspoint_slot(idx) {
                Some((src, side, mono)) => Ok(LevelControl::Crosspoint { src, output, side, mono }),
                None => Err(invalid_index("Input", idx)),
            }
        },
        ChannelId::Playback(idx) => {
            if output >= OUTPUT_PAIR_COUNT {
                return Err(invalid_index("Output", output));
            }
            match crate::topology::playback_crosspoint_slot(idx) {
                Some((src, side)) => Ok(LevelControl::Crosspoint { src, output, side, mono: false }),
                None => Err(invalid_index("Playback", idx)),
            }
        },
    }
}

/// The message of a pan change on a playback channel.
pub open spec fn playback_pan_text() -> Seq<char> {
    "Playback channels are linked stereo pairs and have no independent pan"@
}

/// The message of a pan change on an input of a stereo source.
pub open spec fn stereo_pan_text(idx: nat) -> Seq<char> {
    indexed_message("Input"@, idx) + " is a linked stereo source and has no independent pan"@
}

/// The crosspoint source whose two sides a pan change of `channel` into
/// output pair `output` writes, for a device with `n_inputs` inputs of
/// which input `channel` has `pans_len` pan values. Only the four mono
/// analog inputs can be panned; every other case is an `InvalidChannel`
/// error saying why.
pub fn pan_control(channel: ChannelId, output: usize, n_inputs: usize, pans_len: usize) -> (r: Result<
    usize,
    Error,
>)
    ensures
        match channel {
            ChannelId::Input(idx) => if idx >= n_inputs || (output < pans_len && idx >= INPUT_COUNT) {
                r matches Err(Error::InvalidChannel(m)) && m@ == indexed_message("Input"@, idx as nat)
            } else if output >= pans_len {
                r matches Err(Error::InvalidChannel(m)) && m@ == indexed_message("Output"@, output as nat)
            } else if idx >= 4 {
                r matches Err(Error::InvalidChannel(m)) && m@ == stereo_pan_text(idx as nat)
            } else {
                r == Ok::<usize, Error>(idx)
            },
            ChannelId::Playback(_) => r matches Err(Error::InvalidChannel(m)) && m@ == playback_pan_text(),
            ChannelId::Output(_) => r matches Err(Error::InvalidChannel(m)) && m@ == "Output has no pan"@,
        },
{
    match channel {
        ChannelId::Input(idx) => {
            if idx >= n_inputs {
                return Err(invalid_index("Input", idx));
            }
            if output >= pans_len {
                return Err(invalid_index("Output", output));
            }
            match crate::topology::input_crosspoint_slot(idx) {
                None => Err(invalid_index("Input", idx)),
                Some((src, _, mono)) => {
                    if !mono {
                        let mut m = crate::error::indexed_message_string("Input", idx);
                        m.append(" is a linked stereo source and has no independent pan");
                        Err(Error::InvalidChannel(m))
                    } else {
                        Ok(src)
                    }
                },
            }
        },
        ChannelId::Playback(_) => Err(
            Error::InvalidChannel(
                String::from_str("Playback channels are linked stereo pairs and have no independent pan"),
            ),
        ),
        ChannelId::Output(_) => Err(Error::InvalidChannel(String::from_str("Output has no pan"))),
    }
}

/// The register a level change of the USB backend writes.
#[derive(Debug, Clone, Copy, PartialEq, Eq, Structural)]
pub enum UsbLevel {
    /// The master of output pair `out`.
    Master { out: ProtocolOutput },
    /// The crosspoint of `src` into `out`; into AN1/2 the low-map mirror
    /// of the crosspoint is written too (`mirror_low_map`).
    Crosspoint { out: ProtocolOutput, src: Source, mirror_low_map: bool },
}

/// Whether `src` is the protocol source of model channel `channel` (an
/// input or a playback).
pub open spec fn is_source_of(src: Source, channel: ChannelId) -> bool {
    match channel {
        ChannelId::Input(i) => src matches Source::Input(p) && protocol_input_ordinal(p)
            == input_source_ordinal(i as int),
        ChannelId::Playback(c) => src == Source::Playback((c / 2 + 1) as u8),
        ChannelId::Output(_) => false,
    }
}

/// Whether `r` is an `InvalidChannel` error naming `kind` `idx`.
pub open spec fn usb_invalid<T>(r: Result<T, Error>, kind: Seq<char>, idx: int) -> bool {
    r matches Err(Error::InvalidChannel(m)) && m@ == indexed_message(kind, idx as nat)
}

/// The register a level change of `channel` into output pair `output`
/// writes on the USB backend. The output pair is checked first; an
/// output channel's level is the master of output pair `output`.
pub fn usb_level_target(channel: ChannelId, output: usize) -> (r: Result<UsbLevel, Error>)
    ensures
        output >= OUTPUT_PAIR_COUNT ==> usb_invalid(r, "Output"@, output as int),
        output < OUTPUT_PAIR_COUNT ==> match channel {
            ChannelId::Output(_) => r matches Ok(UsbLevel::Master { out }) && protocol_output_ordinal(out)
                == output,
            ChannelId::Input(i) => if i >= INPUT_COUNT {
                usb_invalid(r, "Input"@, i as int)
            } else {
                r matches Ok(UsbLevel::Crosspoint { out, src, mirror_low_map }) && protocol_output_ordinal(out)
                    == output && is_source_of(src, channel) && mirror_low_map == (output == 0)
            },
            ChannelId::Playback(c) => if c >= PLAYBACK_COUNT {
                usb_invalid(r, "Playback"@, c as int)
            } else {
                r matches Ok(UsbLevel::Crosspoint { out, src, mirror_low_map }) && protocol_output_ordinal(out)
                    == output && is_source_of(src, channel) && mirror_low_map == (output == 0)
            },
        },
{
    let out = match output_for(output) {
        Ok(o) => o,
        Err(e) => return Err(e),
    };
    let src = match channel {
        ChannelId::Input(i) => input_source(i),
        ChannelId::Playback(c) => playback_source(c),
        ChannelId::Output(_) => return Ok(UsbLevel::Master { out }),
    };
    match src {
        Ok(src) => Ok(UsbLevel::Crosspoint { out, src, mirror_low_map: out == ProtocolOutput::An12 }),
        Err(e) => Err(e),
    }
}

/// The balance write of a pan change of `channel` into output pair
/// `output` on the USB backend: the output, the source, and whether the
/// channel is the pair's left one (the side whose level stays fixed).
/// `None` when nothing is written: the mono analog inputs and the outputs
/// have no pan on this backend.
pub fn usb_pan_target(channel: ChannelId, output: usize) -> (r: Result<Option<(ProtocolOutput, Source, bool)>, Error>)
    ensures
        output >= OUTPUT_PAIR_COUNT ==> usb_invalid(r, "Output"@, output as int),
        output < OUTPUT_PAIR_COUNT ==> match channel {
            ChannelId::Output(_) => r == Ok::<Option<(ProtocolOutput, Source, bool)>, Error>(None),
            ChannelId::Input(i) => if i < 4 {
                r == Ok::<Option<(ProtocolOutput, Source, bool)>, Error>(None)
            } else if i >= INPUT_COUNT {
                usb_invalid(r, "Input"@, i as int)
            } else {
                r matches Ok(Some((out, src, left))) && protocol_output_ordinal(out) == output
                    && is_source_of(src, channel) && left == (i % 2 == 0)
            },
            ChannelId::Playback(c) => if c >= PLAYBACK_COUNT {
                usb_invalid(r, "Playback"@, c as int)
            } else {
                r matches Ok(Some((out, src, left))) && protocol_output_ordinal(out) == output
                    && is_source_of(src, channel) && left == (c % 2 == 0)
            },
        },
{
    let out = match output_for(output) {
        Ok(o) => o,
        Err(e) => return Err(e),
    };
    match channel {
        ChannelId::Input(i) => {
            if i < 4 {
                return Ok(None);
            }
            match input_source(i) {
                Ok(src) => Ok(Some((out, src, i % 2 == 0))),
                Err(e) => Err(e),
            }
        },
        ChannelId::Playback(c) => match playback_source(c) {
            Ok(src) => Ok(Some((out, src, c % 2 == 0))),
            Err(e) => Err(e),
        },
        ChannelId::Output(_) => Ok(None),
    }
}

// ── Laws ─────────────────────────────────────────────────────────

/// Every valid level change of an input or playback lands on a crosspoint
/// control that exists: a source below the driver's fourteen and an
/// output pair below six, and the two channels of a stereo pair land on
/// the same control, on opposite sides.
pub proof fn lemma_level_controls_exist(idx: int, output: int)
    requires
        0 <= output < OUTPUT_PAIR_COUNT,
        0 <= idx,
    ensures
        idx < INPUT_COUNT ==> 0 <= input_source_ordinal(idx) < 8,
        idx < PLAYBACK_COUNT ==> 8 <= 8 + idx / 2 < 14,
        4 <= idx < INPUT_COUNT && idx % 2 == 0 ==> input_source_ordinal(idx) == input_source_ordinal(idx + 1)
            && input_side(idx) != input_side(idx + 1),
        idx < PLAYBACK_COUNT && idx % 2 == 0 ==> (8 + idx / 2 == 8 + (idx + 1) / 2) && side_of(idx) != side_of(idx + 1),
{
}

} // verus!
