//! Mute and solo of the mixer strips as the graphical interface applies
//! them: a change on one strip is written to the strip and, when its pair
//! is linked, to the pair's other channel; then the same happens for every
//! strip that follows it (the rest of a multi-selection it belongs to, and
//! the members of groups whose link for the action is engaged). A write to
//! a channel the device does not have is refused by the device and
//! changes nothing.
//!
//! The flags of all strips are kept in screen order: inputs, then
//! playbacks, then outputs (see [`crate::selection::position_of`]).
use vstd::prelude::*;

use crate::channel::ChannelId;
use crate::links::{linked_at, partner, partner_channel};
use crate::mixer::{propagates_to, propagation_set, Group, GroupLink};
use crate::error::Error;
use crate::scene::{check_compatible, models_compatible};
use crate::selection::{channel_at, lemma_channel_order_is_a_bijection, position_of};

verus! {

/// The pair link state of every section: input and output pairs by
/// their link tables (missing entries are linked), playback pairs by the
/// split flag of their left channel.
pub struct StripLinks {
    pub input_pair_link: Vec<bool>,
    pub playback_split: Vec<bool>,
    pub output_link: Vec<bool>,
}

/// Whether the pair of channel `cid` is linked.
pub open spec fn pair_linked_of(links: StripLinks, cid: ChannelId) -> bool {
    match cid {
        ChannelId::Input(i) => linked_at(links.input_pair_link@, (i / 2) as int),
        ChannelId::Playback(c) => !(2 * (c / 2) < links.playback_split@.len()
            && links.playback_split@[2 * (c / 2)]),
        ChannelId::Output(o) => linked_at(links.output_link@, (o / 2) as int),
    }
}

/// The other channel of `cid`'s pair.
pub open spec fn partner_id(cid: ChannelId) -> ChannelId {
    match cid {
        ChannelId::Input(i) => ChannelId::Input(partner(i as int) as usize),
        ChannelId::Playback(c) => ChannelId::Playback(partner(c as int) as usize),
        ChannelId::Output(o) => ChannelId::Output(partner(o as int) as usize),
    }
}

/// Whether a write on strip `cid` reaches channel `x`: `cid` itself, and
/// its partner when the pair is linked.
pub open spec fn written_with(links: StripLinks, cid: ChannelId, x: ChannelId) -> bool {
    x == cid || (pair_linked_of(links, cid) && x == partner_id(cid))
}

/// Whether a mute/solo change on `cid` (with `link` naming the action)
/// reaches channel `x`: through `cid` itself or through a strip that
/// follows it.
pub open spec fn reaches(
    links: StripLinks,
    selected: Seq<ChannelId>,
    groups: Seq<Group>,
    cid: ChannelId,
    link: GroupLink,
    x: ChannelId,
) -> bool {
    written_with(links, cid, x) || exists|c: ChannelId|
        #[trigger] propagates_to(selected, groups, cid, link, c) && written_with(links, c, x)
}

/// The flag position of `cid`, if the device has it (`ni` inputs, `np`
/// playbacks, `no` outputs).
pub open spec fn valid_channel(cid: ChannelId, ni: int, np: int, no: int) -> bool {
    match cid {
        ChannelId::Input(i) => i < ni,
        ChannelId::Playback(c) => c < np,
        ChannelId::Output(o) => o < no,
    }
}

/// Sets the flag of `cid` to `v` when the device has that channel.
fn write_one(flags: &mut Vec<bool>, ni: usize, np: usize, no: usize, cid: ChannelId, v: bool)
    requires
        old(flags)@.len() == ni + np + no,
    ensures
        final(flags)@.len() == old(flags)@.len(),
        forall|j: int|
            0 <= j < old(flags)@.len() ==> #[trigger] final(flags)@[j] == (if channel_at(j, ni as int, np as int)
                == cid {
                v
            } else {
                old(flags)@[j]
            }),
{
    let ghost f0 = flags@;
    let total = flags.len();
    assert(ni + np + no == total);
    let pos: Option<usize> = match cid {
        ChannelId::Input(i) => if i < ni {
            Some(i)
        } else {
            None
        },
        ChannelId::Playback(c) => if c < np {
            Some(ni + c)
        } else {
            None
        },
        ChannelId::Output(o) => if o < no {
            Some(ni + np + o)
        } else {
            None
        },
    };
    assert forall|j: int| 0 <= j < f0.len() implies (channel_at(j, ni as int, np as int) == cid)
        == (pos == Some(j as usize)) by {
        lemma_channel_order_is_a_bijection(cid, j, ni as int, np as int, no as int);
        if channel_at(j, ni as int, np as int) == cid {
            assert(position_of(channel_at(j, ni as int, np as int), ni as int, np as int) == j);
        }
    }
    if let Some(p) = pos {
        flags.set(p, v);
    }
}

/// Writes `v` to every channel a write on strip `cid` reaches.
fn write_strip(flags: &mut Vec<bool>, ni: usize, np: usize, no: usize, links: &StripLinks, cid: ChannelId, v: bool)
    requires
        old(flags)@.len() == ni + np + no,
    ensures
        final(flags)@.len() == old(flags)@.len(),
        forall|j: int|
            0 <= j < old(flags)@.len() ==> #[trigger] final(flags)@[j] == (if written_with(
                *links,
                cid,
                channel_at(j, ni as int, np as int),
            ) {
                v
            } else {
                old(flags)@[j]
            }),
{
    let ghost f0 = flags@;
    let (linked, idx) = match cid {
        ChannelId::Input(i) => (crate::links::pair_linked(&links.input_pair_link, i / 2), i),
        ChannelId::Playback(c) => (crate::links::playback_linked(&links.playback_split, c / 2), c),
        ChannelId::Output(o) => (crate::links::pair_linked(&links.output_link, o / 2), o),
    };
    write_one(flags, ni, np, no, cid, v);
    if linked {
        let q = partner_channel(idx);
        let other = match cid {
            ChannelId::Input(_) => ChannelId::Input(q),
            ChannelId::Playback(_) => ChannelId::Playback(q),
            ChannelId::Output(_) => ChannelId::Output(q),
        };
        assert(other == partner_id(cid));
        write_one(flags, ni, np, no, other, v);
    }
}

/// A mute or solo change of strip `cid` to `v` (`link` names which, for
/// the groups): written to `cid`, then to every strip that follows it,
/// each with its pair partner when linked. `flags` holds the flags of
/// `ni` inputs, `np` playbacks and `no` outputs in screen order.
pub fn set_strip_flag(
    flags: &mut Vec<bool>,
    ni: usize,
    np: usize,
    no: usize,
    links: &StripLinks,
    selected: &Vec<ChannelId>,
    groups: &Vec<Group>,
    cid: ChannelId,
    link: GroupLink,
    v: bool,
)
    requires
        old(flags)@.len() == ni + np + no,
        selected@.no_duplicates(),
    ensures
        final(flags)@.len() == old(flags)@.len(),
        forall|j: int|
            0 <= j < old(flags)@.len() ==> #[trigger] final(flags)@[j] == (if reaches(
                *links,
                selected@,
                groups@,
                cid,
                link,
                channel_at(j, ni as int, np as int),
            ) {
                v
            } else {
                old(flags)@[j]
            }),
{
    let ghost f0 = flags@;
    write_strip(flags, ni, np, no, links, cid, v);
    let others = propagation_set(selected, groups, cid, link);
    let mut k: usize = 0;
    while k < others.len()
        invariant
            k <= others@.len(),
            flags@.len() == f0.len(),
            f0.len() == ni + np + no,
            forall|x: ChannelId| #[trigger]
                others@.contains(x) <==> propagates_to(selected@, groups@, cid, link, x),
            forall|j: int|
                0 <= j < f0.len() ==> #[trigger] flags@[j] == (if written_with(
                    *links,
                    cid,
                    channel_at(j, ni as int, np as int),
                ) || exists|m: int|
                    0 <= m < k && written_with(*links, #[trigger] others@[m], channel_at(j, ni as int, np as int)) {
                    v
                } else {
                    f0[j]
                }),
        decreases others@.len() - k,
    {
        let c = others[k];
        let ghost before = flags@;
        write_strip(flags, ni, np, no, links, c, v);
        assert forall|j: int| 0 <= j < f0.len() implies #[trigger] flags@[j] == (if written_with(
            *links,
            cid,
            channel_at(j, ni as int, np as int),
        ) || exists|m: int|
            0 <= m < k + 1 && written_with(*links, #[trigger] others@[m], channel_at(j, ni as int, np as int)) {
            v
        } else {
            f0[j]
        }) by {
            let x = channel_at(j, ni as int, np as int);
            if written_with(*links, c, x) {
                assert(others@[k as int] == c);
            } else {
                if exists|m: int| 0 <= m < k + 1 && written_with(*links, #[trigger] others@[m], x) {
                    let m = choose|m: int| 0 <= m < k + 1 && written_with(*links, #[trigger] others@[m], x);
                    assert(m < k);
                }
            }
        }
        k = k + 1;
    }
    assert forall|j: int| 0 <= j < f0.len() implies #[trigger] flags@[j] == (if reaches(
        *links,
        selected@,
        groups@,
        cid,
        link,
        channel_at(j, ni as int, np as int),
    ) {
        v
    } else {
        f0[j]
    }) by {
        let x = channel_at(j, ni as int, np as int);
        if exists|m: int| 0 <= m < others@.len() && written_with(*links, #[trigger] others@[m], x) {
            let m = choose|m: int| 0 <= m < others@.len() && written_with(*links, #[trigger] others@[m], x);
            assert(others@.contains(others@[m]));
            assert(propagates_to(selected@, groups@, cid, link, others@[m]));
        }
        if exists|c: ChannelId|
            #[trigger] propagates_to(selected@, groups@, cid, link, c) && written_with(*links, c, x) {
            let c = choose|c: ChannelId|
                #[trigger] propagates_to(selected@, groups@, cid, link, c) && written_with(*links, c, x);
            assert(others@.contains(c));
            let m = choose|m: int| 0 <= m < others@.len() && others@[m] == c;
            assert(written_with(*links, others@[m], x));
        }
    }
}

/// A copy of a list of flags.
fn copy_flags(v: &Vec<bool>) -> (r: Vec<bool>)
    ensures
        r@ == v@,
{
    let mut out: Vec<bool> = Vec::new();
    let mut i: usize = 0;
    while i < v.len()
        invariant
            i <= v@.len(),
            out@ == v@.subrange(0, i as int),
        decreases v@.len() - i,
    {
        out.push(v[i]);
        i = i + 1;
    }
    out
}

/// Applies a scene's strip state (mute and solo flags, pair links) to a
/// device of model `device_model`: refused with the scene-model mismatch
/// error, changing nothing, when the scene was captured on another model;
/// else the device's state becomes the scene's.
pub fn apply_strip_state(
    muted: &mut Vec<bool>,
    soloed: &mut Vec<bool>,
    links: &mut StripLinks,
    device_model: &str,
    scene_model: &str,
    scene_muted: &Vec<bool>,
    scene_soloed: &Vec<bool>,
    scene_links: &StripLinks,
) -> (r: Result<(), Error>)
    ensures
        models_compatible(scene_model@, device_model@) <==> r is Ok,
        r is Ok ==> final(muted)@ == scene_muted@ && final(soloed)@ == scene_soloed@
            && final(links).input_pair_link@ == scene_links.input_pair_link@
            && final(links).playback_split@ == scene_links.playback_split@
            && final(links).output_link@ == scene_links.output_link@,
        r is Err ==> final(muted)@ == old(muted)@ && final(soloed)@ == old(soloed)@
            && final(links).input_pair_link@ == old(links).input_pair_link@
            && final(links).playback_split@ == old(links).playback_split@
            && final(links).output_link@ == old(links).output_link@,
        r is Err ==> (r matches Err(Error::SceneModelMismatch { scene_model: s, device_model: d })
            && s@ == scene_model@ && d@ == device_model@),
{
    match check_compatible(scene_model, device_model) {
        Ok(()) => {
            *muted = copy_flags(scene_muted);
            *soloed = copy_flags(scene_soloed);
            links.input_pair_link = copy_flags(&scene_links.input_pair_link);
            links.playback_split = copy_flags(&scene_links.playback_split);
            links.output_link = copy_flags(&scene_links.output_link);
            Ok(())
        },
        Err(e) => Err(e),
    }
}

// ── Laws ─────────────────────────────────────────────────────────

/// A change always reaches the strip itself and, when its pair is
/// linked, the pair's other channel; and it never reaches a channel that
/// neither the strip nor anything following it writes: with nothing
/// selected and no group engaged, only the strip's own pair.
pub proof fn lemma_change_reaches_pair(links: StripLinks, groups: Seq<Group>, cid: ChannelId, link: GroupLink, x: ChannelId)
    requires
        forall|g: int| 0 <= g < groups.len() ==> !crate::mixer::link_on(#[trigger] groups[g], link),
    ensures
        reaches(links, Seq::empty(), groups, cid, link, cid),
        pair_linked_of(links, cid) ==> reaches(links, Seq::empty(), groups, cid, link, partner_id(cid)),
        reaches(links, Seq::empty(), groups, cid, link, x) <==> written_with(links, cid, x),
{
    if exists|c: ChannelId| #[trigger] propagates_to(Seq::empty(), groups, cid, link, c) && written_with(links, c, x) {
        let c = choose|c: ChannelId| #[trigger] propagates_to(Seq::empty(), groups, cid, link, c) && written_with(links, c, x);
        assert(!propagates_to(Seq::empty(), groups, cid, link, c));
    }
}

} // verus!
