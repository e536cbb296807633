//! Exclusive solo on the proprietary USB backend. The device has no solo
//! register: soloing a strip is done by silencing every other strip's
//! crosspoints (and setting the soloed strip's AN1/2 low-map entry to its
//! "active" marker); un-soloing restores every strip from the model, each
//! respecting its own mute. Soloing a strip clears the other strips' solo
//! flags, so a later un-solo restores them cleanly.
use vstd::prelude::*;

use crate::channel::ChannelId;
use crate::error::{indexed_message, invalid_index, Error};

verus! {

/// Low-map marker of a soloed playback strip, and of a soloed input
/// while the AN1/2 inputs are split.
pub const SOLO_MARKER: u16 = 0x2000;
/// Low-map marker of a soloed input while the AN1/2 inputs are linked.
pub const SOLO_MARKER_LINKED: u16 = 0x1000;

/// What is written for one strip.
#[derive(Debug, Clone, Copy, PartialEq, Eq, Structural)]
pub enum StripWrite {
    /// Not rewritten (the soloed strip's crosspoints).
    Skip,
    /// Low map and every crosspoint set to 0 (silent).
    Silence,
    /// Low map and crosspoints rewritten from the model's volumes.
    Restore,
}

/// The soloed strip's low-map value.
#[derive(Debug, Clone, Copy, PartialEq, Eq, Structural)]
pub enum LowMapValue {
    /// A fixed marker value.
    Marker(u16),
    /// The strip's own volume into the AN1/2 output.
    Restore,
}

/// The register writes of one solo change.
#[derive(Debug)]
pub struct SoloPlan {
    /// Low-map value of the strip whose solo changed.
    pub soloed_low_map: LowMapValue,
    /// One entry per input strip.
    pub input_writes: Vec<StripWrite>,
    /// One entry per playback strip.
    pub playback_writes: Vec<StripWrite>,
}

/// The write for a strip other than the soloed one.
pub open spec fn other_write(solo: bool, muted: bool) -> StripWrite {
    if solo || muted {
        StripWrite::Silence
    } else {
        StripWrite::Restore
    }
}

/// The writes for strips of one kind: `skip` (if any) is left alone, the
/// others follow [`other_write`].
pub open spec fn strip_writes(mute: Seq<bool>, skip: int, solo: bool) -> Seq<StripWrite> {
    Seq::new(mute.len(), |j: int| if j == skip { StripWrite::Skip } else { other_write(solo, mute[j]) })
}

/// Solo flags after the strip at `idx` (or none, `idx == -1`) is set to
/// `solo`: soloing clears every other flag of the kind.
pub open spec fn solo_flags_after(flags: Seq<bool>, idx: int, solo: bool) -> Seq<bool> {
    Seq::new(flags.len(), |j: int| if j == idx { solo } else if solo { false } else { flags[j] })
}

/// Builds the write list for one kind of strip.
fn build_writes(mute: &Vec<bool>, skip: usize, has_skip: bool, solo: bool) -> (r: Vec<StripWrite>)
    ensures
        r@ == strip_writes(mute@, if has_skip { skip as int } else { -1 }, solo),
{
    let mut v: Vec<StripWrite> = Vec::new();
    let mut j: usize = 0;
    while j < mute.len()
        invariant
            j <= mute@.len(),
            v@ == strip_writes(mute@, if has_skip { skip as int } else { -1 }, solo).subrange(0, j as int),
        decreases mute@.len() - j,
    {
        let w = if has_skip && j == skip {
            StripWrite::Skip
        } else if solo || mute[j] {
            StripWrite::Silence
        } else {
            StripWrite::Restore
        };
        v.push(w);
        j = j + 1;
    }
    v
}

/// Updates one kind's solo flags (see [`solo_flags_after`]).
fn update_solo_flags(flags: &mut Vec<bool>, idx: usize, has_idx: bool, solo: bool)
    requires
        has_idx ==> idx < old(flags)@.len(),
    ensures
        final(flags)@ == solo_flags_after(old(flags)@, if has_idx { idx as int } else { -1 }, solo),
{
    let ghost f0 = flags@;
    let mut j: usize = 0;
    while j < flags.len()
        invariant
            flags@.len() == f0.len(),
            j <= f0.len(),
            forall|k: int|
                0 <= k < j ==> #[trigger] flags@[k] == solo_flags_after(
                    f0,
                    if has_idx { idx as int } else { -1 },
                    solo,
                )[k],
            forall|k: int| j <= k < f0.len() ==> #[trigger] flags@[k] == f0[k],
        decreases f0.len() - j,
    {
        if has_idx && j == idx {
            flags.set(j, solo);
        } else if solo {
            flags.set(j, false);
        }
        j = j + 1;
    }
    assert(flags@ =~= solo_flags_after(f0, if has_idx { idx as int } else { -1 }, solo));
}

/// Sets `channel`'s solo flag and plans the register writes. Outputs have
/// no solo (nothing changes, no plan); an index past the strips is an
/// `InvalidChannel` error and changes nothing.
pub fn plan_solo(
    input_solo: &mut Vec<bool>,
    playback_solo: &mut Vec<bool>,
    input_mute: &Vec<bool>,
    playback_mute: &Vec<bool>,
    channel: ChannelId,
    solo: bool,
    input_link: bool,
) -> (r: Result<Option<SoloPlan>, Error>)
    requires
        old(input_solo)@.len() == input_mute@.len(),
        old(playback_solo)@.len() == playback_mute@.len(),
    ensures
        channel is Output ==> {
            &&& r matches Ok(None)
            &&& final(input_solo)@ == old(input_solo)@
            &&& final(playback_solo)@ == old(playback_solo)@
        },
        channel matches ChannelId::Input(i) ==> {
            if i >= input_mute@.len() {
                &&& r matches Err(Error::InvalidChannel(m)) && m@ == indexed_message(
                    "Input"@,
                    i as nat,
                )
                &&& final(input_solo)@ == old(input_solo)@
                &&& final(playback_solo)@ == old(playback_solo)@
            } else {
                &&& final(input_solo)@ == solo_flags_after(old(input_solo)@, i as int, solo)
                &&& final(playback_solo)@ == solo_flags_after(old(playback_solo)@, -1, solo)
                &&& r matches Ok(Some(p)) && p.soloed_low_map == (if solo {
                    LowMapValue::Marker(
                        if input_link {
                            SOLO_MARKER_LINKED
                        } else {
                            SOLO_MARKER
                        },
                    )
                } else {
                    LowMapValue::Restore
                }) && p.input_writes@ == strip_writes(input_mute@, i as int, solo)
                    && p.playback_writes@ == strip_writes(playback_mute@, -1, solo)
            }
        },
        channel matches ChannelId::Playback(c) ==> {
            if c >= playback_mute@.len() {
                &&& r matches Err(Error::InvalidChannel(m)) && m@ == indexed_message(
                    "Playback"@,
                    c as nat,
                )
                &&& final(input_solo)@ == old(input_solo)@
                &&& final(playback_solo)@ == old(playback_solo)@
            } else {
                &&& final(playback_solo)@ == solo_flags_after(old(playback_solo)@, c as int, solo)
                &&& final(input_solo)@ == solo_flags_after(old(input_solo)@, -1, solo)
                &&& r matches Ok(Some(p)) && p.soloed_low_map == (if solo {
                    LowMapValue::Marker(SOLO_MARKER)
                } else {
                    LowMapValue::Restore
                }) && p.input_writes@ == strip_writes(input_mute@, -1, solo)
                    && p.playback_writes@ == strip_writes(playback_mute@, c as int, solo)
            }
        },
{
    match channel {
        ChannelId::Output(_) => Ok(None),
        ChannelId::Input(i) => {
            if i >= input_mute.len() {
                return Err(invalid_index("Input", i));
            }
            let marker = if solo {
                LowMapValue::Marker(
                    if input_link {
                        SOLO_MARKER_LINKED
                    } else {
                        SOLO_MARKER
                    },
                )
            } else {
                LowMapValue::Restore
            };
            update_solo_flags(input_solo, i, true, solo);
            update_solo_flags(playback_solo, 0, false, solo);
            let input_writes = build_writes(input_mute, i, true, solo);
            let playback_writes = build_writes(playback_mute, 0, false, solo);
            Ok(Some(SoloPlan { soloed_low_map: marker, input_writes, playback_writes }))
        },
        ChannelId::Playback(c) => {
            if c >= playback_mute.len() {
                return Err(invalid_index("Playback", c));
            }
            let marker = if solo {
                LowMapValue::Marker(SOLO_MARKER)
            } else {
                LowMapValue::Restore
            };
            update_solo_flags(input_solo, 0, false, solo);
            update_solo_flags(playback_solo, c, true, solo);
            let input_writes = build_writes(input_mute, 0, false, solo);
            let playback_writes = build_writes(playback_mute, c, true, solo);
            Ok(Some(SoloPlan { soloed_low_map: marker, input_writes, playback_writes }))
        },
    }
}

// ── Laws ─────────────────────────────────────────────────────────

/// Solo is exclusive: after soloing a strip it is the only soloed strip
/// of either kind, and every other strip is silenced.
pub proof fn lemma_solo_is_exclusive(
    input_solo: Seq<bool>,
    playback_solo: Seq<bool>,
    input_mute: Seq<bool>,
    playback_mute: Seq<bool>,
    i: int,
    j: int,
)
    requires
        0 <= i < input_solo.len(),
        input_solo.len() == input_mute.len(),
    ensures
        solo_flags_after(input_solo, i, true)[i],
        0 <= j < input_solo.len() && j != i ==> !solo_flags_after(input_solo, i, true)[j],
        0 <= j < playback_solo.len() ==> !solo_flags_after(playback_solo, -1, true)[j],
        0 <= j < input_mute.len() && j != i ==> strip_writes(input_mute, i, true)[j]
            == StripWrite::Silence,
        0 <= j < playback_mute.len() ==> strip_writes(playback_mute, -1, true)[j]
            == StripWrite::Silence,
{
}

/// Un-soloing restores every other strip unless it is muted, and changes
/// no other strip's solo flag.
pub proof fn lemma_unsolo_restores_unmuted(flags: Seq<bool>, mute: Seq<bool>, idx: int, j: int)
    requires
        flags.len() == mute.len(),
        0 <= j < mute.len(),
        j != idx,
    ensures
        strip_writes(mute, idx, false)[j] == (if mute[j] {
            StripWrite::Silence
        } else {
            StripWrite::Restore
        }),
        solo_flags_after(flags, idx, false)[j] == flags[j],
{
}

} // verus!
