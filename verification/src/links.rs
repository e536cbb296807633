//! Stereo link state of channel pairs.
//!
//! Every input, playback and output pair is shown as one linked stereo
//! bus by default (one fader/mute/solo drives both channels); the stereo
//! button splits it into two independent mono channels. Toggling the link
//! writes nothing to the device: it only decides which channels the next
//! volume/mute/solo/preamp write on the pair touches.
use vstd::prelude::*;

use crate::error::{indexed_message, invalid_index, Error};

verus! {

/// Whether pair `pair` is linked: its entry in `links`, or linked when
/// `links` has no entry for it yet.
pub open spec fn linked_at(links: Seq<bool>, pair: int) -> bool {
    if 0 <= pair < links.len() {
        links[pair]
    } else {
        true
    }
}

/// Whether pair `pair` is linked (missing entries are linked).
pub fn pair_linked(links: &Vec<bool>, pair: usize) -> (r: bool)
    ensures
        r == linked_at(links@, pair as int),
{
    if pair < links.len() {
        links[pair]
    } else {
        true
    }
}

/// The link table after pair `pair` is set to `linked`: missing entries
/// up to `pair` are filled with "linked" first.
pub open spec fn with_link(links: Seq<bool>, pair: int, linked: bool) -> Seq<bool> {
    if pair < links.len() {
        links.update(pair, linked)
    } else {
        (links + Seq::new((pair + 1 - links.len()) as nat, |i: int| true)).update(pair, linked)
    }
}

/// Sets whether pair `pair` is linked, growing `links` with linked
/// entries up to `pair` when it is too short.
pub fn set_pair_linked(links: &mut Vec<bool>, pair: usize, linked: bool)
    requires
        pair < usize::MAX,
    ensures
        final(links)@ == with_link(old(links)@, pair as int, linked),
{
    let ghost before = links@;
    if links.len() <= pair {
        links.resize(pair + 1, true);
        assert(links@ =~= before + Seq::new((pair + 1 - before.len()) as nat, |i: int| true)) by {
            assert forall|i: int| 0 <= i < links@.len() implies links@[i] == (before + Seq::new(
                (pair + 1 - before.len()) as nat,
                |i: int| true,
            ))[i] by {
                if i < before.len() {
                    assert(links@.subrange(0, before.len() as int)[i] == before[i]);
                }
            }
        }
    }
    links.set(pair, linked);
}

/// The left channel of pair `pair`, and the channel a write on side
/// `which` of a split pair targets.
pub open spec fn side_channel(pair: int, which: int) -> int {
    if which == 0 {
        2 * pair
    } else {
        2 * pair + 1
    }
}

/// The channels a volume/mute/solo write on side `which` (0 = left,
/// anything else = right) of pair `pair` touches: both channels when the
/// pair is linked, only the addressed one when it is split.
pub fn pair_write_targets(pair: usize, which: usize, linked: bool) -> (r: Vec<usize>)
    requires
        2 * pair + 1 <= usize::MAX,
    ensures
        linked ==> r@ == seq![(2 * pair) as usize, (2 * pair + 1) as usize],
        !linked ==> r@ == seq![side_channel(pair as int, which as int) as usize],
{
    let l = pair * 2;
    let r = pair * 2 + 1;
    let mut v: Vec<usize> = Vec::new();
    if linked {
        v.push(l);
        v.push(r);
    } else {
        v.push(if which == 0 {
            l
        } else {
            r
        });
    }
    v
}

/// The other channel of the pair that channel `idx` belongs to.
pub open spec fn partner(idx: int) -> int {
    if idx % 2 == 0 {
        idx + 1
    } else {
        idx - 1
    }
}

/// The other channel of `idx`'s pair (`idx ^ 1`).
pub fn partner_channel(idx: usize) -> (r: usize)
    ensures
        r == partner(idx as int),
{
    assert(idx % 2 == 0 ==> idx < usize::MAX) by {
        assert(usize::MAX % 2 == 1);
    }
    if idx % 2 == 0 {
        idx + 1
    } else {
        idx - 1
    }
}

/// The inputs a per-channel preamp write (48V, pad, gain) on input `idx`
/// touches: `idx` itself, then its partner when its pair is linked.
pub fn preamp_write_targets(idx: usize, linked: bool) -> (r: Vec<usize>)
    ensures
        linked ==> r@ == seq![idx, partner(idx as int) as usize],
        !linked ==> r@ == seq![idx],
{
    let mut v: Vec<usize> = Vec::new();
    v.push(idx);
    if linked {
        v.push(partner_channel(idx));
    }
    v
}

/// Whether playback pair `pair` is linked: a pair is linked unless its
/// left channel is marked split (a missing channel counts as linked).
pub fn playback_linked(splits: &Vec<bool>, pair: usize) -> (r: bool)
    requires
        2 * pair <= usize::MAX,
    ensures
        r == !(2 * pair < splits@.len() && splits@[2 * pair]),
{
    let i = pair * 2;
    if i < splits.len() {
        !splits[i]
    } else {
        true
    }
}

/// Marks playback channel `pb` and its partner as split (or not): the two
/// mono channels of a playback pair always share the split state.
pub fn set_stereo_split(splits: &mut Vec<bool>, pb: usize, split: bool) -> (r: Result<(), Error>)
    requires
        pb < old(splits)@.len() ==> 0 <= partner(pb as int) < old(splits)@.len(),
    ensures
        pb >= old(splits)@.len() ==> (r matches Err(Error::InvalidChannel(m)) && m@
            == indexed_message("Playback"@, pb as nat) && final(splits)@ == old(splits)@),
        pb < old(splits)@.len() ==> (r is Ok && final(splits)@ == old(splits)@.update(
            pb as int,
            split,
        ).update(partner(pb as int), split)),
{
    if pb >= splits.len() {
        return Err(invalid_index("Playback", pb));
    }
    let q = partner_channel(pb);
    splits.set(pb, split);
    splits.set(q, split);
    Ok(())
}

// ── Laws ─────────────────────────────────────────────────────────

/// Reading a pair's link state gives back what was last written to it,
/// and writing one pair leaves every other pair's state unchanged.
pub proof fn lemma_link_read_after_write(links: Seq<bool>, pair: int, linked: bool, other: int)
    requires
        0 <= pair,
    ensures
        linked_at(with_link(links, pair, linked), pair) == linked,
        other != pair ==> linked_at(with_link(links, pair, linked), other) == linked_at(links, other),
{
}

/// Writing a pair's current link state back changes nothing it reports.
pub proof fn lemma_link_rewrite_is_idempotent(links: Seq<bool>, pair: int, other: int)
    requires
        0 <= pair,
    ensures
        linked_at(with_link(links, pair, linked_at(links, pair)), other) == linked_at(links, other),
{
}

/// Every pair is linked until it is explicitly split.
pub proof fn lemma_pairs_start_linked(pair: int)
    ensures
        linked_at(Seq::<bool>::empty(), pair),
{
}

/// A linked write always covers both channels of the pair, a split write
/// exactly one of them, and no write ever leaves the pair.
pub proof fn lemma_pair_targets_stay_in_pair(pair: int, which: int)
    requires
        0 <= pair,
    ensures
        side_channel(pair, which) == 2 * pair || side_channel(pair, which) == 2 * pair + 1,
        side_channel(pair, which) / 2 == pair,
        partner(2 * pair) == 2 * pair + 1,
        partner(2 * pair + 1) == 2 * pair,
{
}

/// `partner` swaps the two channels of a pair: applying it twice gives
/// the channel back, and both are in the same pair.
pub proof fn lemma_partner_involution(idx: int)
    requires
        0 <= idx,
    ensures
        partner(partner(idx)) == idx,
        partner(idx) != idx,
        partner(idx) / 2 == idx / 2,
{
}

} // verus!
