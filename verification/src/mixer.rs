//! Mixer-wide editing logic of the interfaces: the global mute and solo
//! buttons, mute/solo/fader groups, and the undo/redo history.
//!
//! Channels are addressed by their position in the channel order shown
//! on screen (inputs, then playbacks, then outputs) where flags are
//! concerned, and by [`ChannelId`] where groups are concerned.
use vstd::prelude::*;

use crate::channel::ChannelId;
use crate::frontpanel::in_targets;

verus! {

/// Indices `i < n` of `s` whose flag equals `b`, in increasing order.
pub open spec fn indices_with_upto(s: Seq<bool>, b: bool, n: int) -> Seq<usize>
    decreases n,
{
    if n <= 0 {
        Seq::empty()
    } else if s[n - 1] == b {
        indices_with_upto(s, b, n - 1).push((n - 1) as usize)
    } else {
        indices_with_upto(s, b, n - 1)
    }
}

/// Indices of `s` whose flag equals `b`, in increasing order.
pub open spec fn indices_with(s: Seq<bool>, b: bool) -> Seq<usize> {
    indices_with_upto(s, b, s.len() as int)
}

/// The flags after a global button press that drives every flag to `v`:
/// if some flag differs from `v`, all flags become `v`; otherwise the
/// flags recorded by the previous press (`last`) go back to `!v`.
pub open spec fn flags_after_press(flags: Seq<bool>, last: Seq<usize>, v: bool) -> Seq<bool> {
    if indices_with(flags, !v).len() > 0 {
        Seq::new(flags.len(), |i: int| v)
    } else {
        Seq::new(flags.len(), |i: int| if in_targets(last, i) { !v } else { flags[i] })
    }
}

/// What a global press records for the next press to undo: the flags it
/// changed, or nothing after a restore.
pub open spec fn record_after_press(flags: Seq<bool>, last: Seq<usize>, v: bool) -> Seq<usize> {
    if indices_with(flags, !v).len() > 0 {
        indices_with(flags, !v)
    } else {
        Seq::empty()
    }
}

/// Membership in `indices_with_upto` is exactly "below `n` with flag `b`".
proof fn lemma_indices_with_upto(s: Seq<bool>, b: bool, n: int, i: int)
    requires
        0 <= n <= s.len(),
        s.len() <= usize::MAX,
    ensures
        in_targets(indices_with_upto(s, b, n), i) <==> (0 <= i < n && s[i] == b),
        forall|k: int|
            0 <= k < indices_with_upto(s, b, n).len() ==> #[trigger] indices_with_upto(s, b, n)[k]
                < n,
    decreases n,
{
    if n > 0 {
        lemma_indices_with_upto(s, b, n - 1, i);
        let prev = indices_with_upto(s, b, n - 1);
        let cur = indices_with_upto(s, b, n);
        if s[n - 1] == b {
            assert(cur == prev.push((n - 1) as usize));
            if in_targets(prev, i) {
                let k = choose|k: int| 0 <= k < prev.len() && #[trigger] prev[k] as int == i;
                assert(cur[k] as int == i);
            }
            if i == n - 1 {
                assert(cur[prev.len() as int] as int == i);
            }
            if in_targets(cur, i) {
                let k = choose|k: int| 0 <= k < cur.len() && #[trigger] cur[k] as int == i;
                if k < prev.len() {
                    assert(prev[k] as int == i);
                }
            }
        }
    }
}

/// Membership in `indices_with`: exactly the indices with flag `b`, all
/// within the flags.
pub proof fn lemma_indices_with(s: Seq<bool>, b: bool, i: int)
    requires
        s.len() <= usize::MAX,
    ensures
        in_targets(indices_with(s, b), i) <==> (0 <= i < s.len() && s[i] == b),
        forall|k: int|
            0 <= k < indices_with(s, b).len() ==> #[trigger] indices_with(s, b)[k] < s.len(),
{
    lemma_indices_with_upto(s, b, s.len() as int, i);
}

/// A global press that drives every flag to `v` (see
/// [`flags_after_press`]); `last` is replaced by what this press changed.
pub fn global_press(flags: &mut Vec<bool>, last: &mut Vec<usize>, v: bool)
    requires
        forall|k: int| 0 <= k < old(last)@.len() ==> old(last)@[k] < old(flags)@.len(),
    ensures
        final(flags)@ == flags_after_press(old(flags)@, old(last)@, v),
        final(last)@ == record_after_press(old(flags)@, old(last)@, v),
        final(flags)@.len() == old(flags)@.len(),
        forall|k: int| 0 <= k < final(last)@.len() ==> #[trigger] final(last)@[k] < final(flags)@.len(),
{
    let ghost f0 = flags@;
    let ghost l0 = last@;
    let n = flags.len();
    proof {
        lemma_indices_with(f0, !v, 0);
    }
    let mut changed: Vec<usize> = Vec::new();
    let mut i: usize = 0;
    while i < n
        invariant
            n == flags@.len(),
            flags@ == f0,
            i <= n,
            changed@ == indices_with_upto(f0, !v, i as int),
        decreases n - i,
    {
        if flags[i] != v {
            changed.push(i);
        }
        i = i + 1;
    }
    assert(changed@ == indices_with(f0, !v));
    if changed.len() == 0 {
        let mut k: usize = 0;
        while k < last.len()
            invariant
                last@ == l0,
                flags@.len() == f0.len(),
                forall|j: int| 0 <= j < l0.len() ==> l0[j] < f0.len(),
                k <= l0.len(),
                forall|j: int|
                    0 <= j < f0.len() ==> #[trigger] flags@[j] == (if in_targets(l0.subrange(0, k as int), j) {
                        !v
                    } else {
                        f0[j]
                    }),
            decreases l0.len() - k,
        {
            let c = last[k];
            flags.set(c, !v);
            k = k + 1;
            assert forall|j: int| 0 <= j < f0.len() implies #[trigger] flags@[j] == (if in_targets(
                l0.subrange(0, k as int),
                j,
            ) {
                !v
            } else {
                f0[j]
            }) by {
                let pre = l0.subrange(0, k - 1);
                let post = l0.subrange(0, k as int);
                if j == c as int {
                    assert(post[k - 1] as int == j);
                } else {
                    if in_targets(post, j) {
                        let w = choose|w: int| 0 <= w < post.len() && #[trigger] post[w] as int == j;
                        assert(w != k - 1);
                        assert(pre[w] as int == j);
                    }
                    if in_targets(pre, j) {
                        let w = choose|w: int| 0 <= w < pre.len() && #[trigger] pre[w] as int == j;
                        assert(post[w] as int == j);
                    }
                }
            }
        }
        assert(l0.subrange(0, l0.len() as int) =~= l0);
        last.clear();
        assert(flags@ =~= flags_after_press(f0, l0, v));
        assert(last@ =~= record_after_press(f0, l0, v));
    } else {
        let mut k: usize = 0;
        while k < n
            invariant
                n == flags@.len(),
                k <= n,
                forall|j: int| 0 <= j < k ==> #[trigger] flags@[j] == v,
            decreases n - k,
        {
            flags.set(k, v);
            k = k + 1;
        }
        assert(flags@ =~= flags_after_press(f0, l0, v));
        *last = changed;
    }
}

/// The global mute button: mutes every channel if any is unmuted
/// (remembering which ones it muted), otherwise unmutes exactly the
/// channels the previous press muted.
pub fn global_mute_toggle(muted: &mut Vec<bool>, last_globally_muted: &mut Vec<usize>)
    requires
        forall|k: int|
            0 <= k < old(last_globally_muted)@.len() ==> old(last_globally_muted)@[k] < old(
                muted,
            )@.len(),
    ensures
        final(muted)@ == flags_after_press(old(muted)@, old(last_globally_muted)@, true),
        final(last_globally_muted)@ == record_after_press(
            old(muted)@,
            old(last_globally_muted)@,
            true,
        ),
        final(muted)@.len() == old(muted)@.len(),
        forall|k: int|
            0 <= k < final(last_globally_muted)@.len() ==> #[trigger] final(last_globally_muted)@[k] < final(muted)@.len(),
{
    global_press(muted, last_globally_muted, true);
}

/// The global solo button: clears every solo if any channel is soloed
/// (remembering which ones), otherwise re-solos exactly the channels the
/// previous press cleared.
pub fn global_solo_toggle(soloed: &mut Vec<bool>, last_cleared_solos: &mut Vec<usize>)
    requires
        forall|k: int|
            0 <= k < old(last_cleared_solos)@.len() ==> old(last_cleared_solos)@[k] < old(
                soloed,
            )@.len(),
    ensures
        final(soloed)@ == flags_after_press(old(soloed)@, old(last_cleared_solos)@, false),
        final(last_cleared_solos)@ == record_after_press(
            old(soloed)@,
            old(last_cleared_solos)@,
            false,
        ),
        final(soloed)@.len() == old(soloed)@.len(),
        forall|k: int|
            0 <= k < final(last_cleared_solos)@.len() ==> #[trigger] final(last_cleared_solos)@[k] < final(soloed)@.len(),
{
    global_press(soloed, last_cleared_solos, false);
}

/// Whether every flag is set (every channel muted).
pub fn all_set(flags: &Vec<bool>) -> (r: bool)
    ensures
        r == (forall|i: int| 0 <= i < flags@.len() ==> #[trigger] flags@[i]),
{
    let mut i: usize = 0;
    while i < flags.len()
        invariant
            i <= flags@.len(),
            forall|j: int| 0 <= j < i ==> #[trigger] flags@[j],
        decreases flags@.len() - i,
    {
        if !flags[i] {
            return false;
        }
        i = i + 1;
    }
    true
}

/// Whether any flag is set (some channel soloed).
pub fn any_set(flags: &Vec<bool>) -> (r: bool)
    ensures
        r == (exists|i: int| 0 <= i < flags@.len() && #[trigger] flags@[i]),
{
    let mut i: usize = 0;
    while i < flags.len()
        invariant
            i <= flags@.len(),
            forall|j: int| 0 <= j < i ==> !#[trigger] flags@[j],
        decreases flags@.len() - i,
    {
        if flags[i] {
            return true;
        }
        i = i + 1;
    }
    false
}

// ── Groups ───────────────────────────────────────────────────────

/// Which of a group's three independent links an action targets.
#[derive(Debug, Clone, Copy, PartialEq, Eq, Structural)]
pub enum GroupLink {
    Mute,
    Solo,
    Fader,
}

/// One mute/solo/fader group: a membership list shared by three
/// independent links.
#[derive(Debug, Clone)]
pub struct Group {
    pub members: Vec<ChannelId>,
    pub mute_linked: bool,
    pub solo_linked: bool,
    pub fader_linked: bool,
}

impl Default for Group {
    fn default() -> (r: Self)
        ensures
            r.members@.len() == 0,
            !r.mute_linked,
            !r.solo_linked,
            !r.fader_linked,
    {
        Group { members: Vec::new(), mute_linked: false, solo_linked: false, fader_linked: false }
    }
}

/// Whether group `g` has link `link` engaged.
pub open spec fn link_on(g: Group, link: GroupLink) -> bool {
    match link {
        GroupLink::Mute => g.mute_linked,
        GroupLink::Solo => g.solo_linked,
        GroupLink::Fader => g.fader_linked,
    }
}

/// Group `g` with link `link` set to `on`.
pub open spec fn with_link_on(g: Group, link: GroupLink, on: bool) -> (bool, bool, bool) {
    match link {
        GroupLink::Mute => (on, g.solo_linked, g.fader_linked),
        GroupLink::Solo => (g.mute_linked, on, g.fader_linked),
        GroupLink::Fader => (g.mute_linked, g.solo_linked, on),
    }
}

/// Whether `v` holds `c`.
fn contains_channel(v: &Vec<ChannelId>, c: ChannelId) -> (r: bool)
    ensures
        r == v@.contains(c),
{
    let mut i: usize = 0;
    while i < v.len()
        invariant
            i <= v@.len(),
            forall|j: int| 0 <= j < i ==> v@[j] != c,
        decreases v@.len() - i,
    {
        if v[i] == c {
            return true;
        }
        i = i + 1;
    }
    false
}

/// A copy of a channel list.
fn copy_channels(v: &Vec<ChannelId>) -> (r: Vec<ChannelId>)
    ensures
        r@ == v@,
{
    let mut out: Vec<ChannelId> = Vec::new();
    let mut i: usize = 0;
    while i < v.len()
        invariant
            i <= v@.len(),
            out@ == v@.subrange(0, i as int),
        decreases v@.len() - i,
    {
        out.push(v[i]);
        i = i + 1;
    }
    out
}

/// A click on group `idx`'s cell for `link`: in edit mode the current
/// selection becomes the group's membership and the link is engaged;
/// otherwise the link is flipped. Out-of-range groups are left alone.
pub fn group_link_toggle(
    groups: &mut Vec<Group>,
    idx: usize,
    link: GroupLink,
    editing: bool,
    selected: &Vec<ChannelId>,
)
    ensures
        final(groups)@.len() == old(groups)@.len(),
        forall|j: int|
            0 <= j < old(groups)@.len() && j != idx ==> #[trigger] final(groups)@[j] == old(
                groups,
            )@[j],
        idx < old(groups)@.len() ==> {
            let g0 = old(groups)@[idx as int];
            let g1 = final(groups)@[idx as int];
            &&& g1.members@ == (if editing {
                selected@
            } else {
                g0.members@
            })
            &&& (g1.mute_linked, g1.solo_linked, g1.fader_linked) == with_link_on(
                g0,
                link,
                if editing {
                    true
                } else {
                    !link_on(g0, link)
                },
            )
        },
{
    if idx < groups.len() {
        let mut g = Group {
            members: Vec::new(),
            mute_linked: groups[idx].mute_linked,
            solo_linked: groups[idx].solo_linked,
            fader_linked: groups[idx].fader_linked,
        };
        g.members = copy_channels(&groups[idx].members);
        if editing {
            g.members = copy_channels(selected);
            match link {
                GroupLink::Mute => g.mute_linked = true,
                GroupLink::Solo => g.solo_linked = true,
                GroupLink::Fader => g.fader_linked = true,
            }
        } else {
            match link {
                GroupLink::Mute => g.mute_linked = !g.mute_linked,
                GroupLink::Solo => g.solo_linked = !g.solo_linked,
                GroupLink::Fader => g.fader_linked = !g.fader_linked,
            }
        }
        groups.set(idx, g);
    }
}

/// Whether channel `x` moves along with `cid` for link `link`: it is
/// another member of the active multi-selection (when `cid` is part of a
/// selection of several channels), or another member of a group that has
/// `link` engaged and contains `cid`.
pub open spec fn propagates_to(
    selected: Seq<ChannelId>,
    groups: Seq<Group>,
    cid: ChannelId,
    link: GroupLink,
    x: ChannelId,
) -> bool {
    x != cid && ((selected.len() > 1 && selected.contains(cid) && selected.contains(x)) || exists|
        g: int,
    |
        0 <= g < groups.len() && link_on(#[trigger] groups[g], link) && groups[g].members@.contains(
            cid,
        ) && groups[g].members@.contains(x))
}

/// Appends the channels of `src` that are not `cid` and not yet in `out`.
fn extend_unique(out: &mut Vec<ChannelId>, src: &Vec<ChannelId>, cid: ChannelId)
    requires
        old(out)@.no_duplicates(),
        !old(out)@.contains(cid),
    ensures
        final(out)@.no_duplicates(),
        !final(out)@.contains(cid),
        forall|x: ChannelId| #[trigger]
            final(out)@.contains(x) <==> (old(out)@.contains(x) || (src@.contains(x) && x != cid)),
{
    let ghost o0 = out@;
    let mut i: usize = 0;
    while i < src.len()
        invariant
            i <= src@.len(),
            out@.no_duplicates(),
            !out@.contains(cid),
            forall|x: ChannelId| #[trigger]
                out@.contains(x) <==> (o0.contains(x) || (src@.subrange(0, i as int).contains(x)
                    && x != cid)),
        decreases src@.len() - i,
    {
        let x = src[i];
        let ghost before = out@;
        if x != cid && !contains_channel(out, x) {
            out.push(x);
        }
        i = i + 1;
        assert forall|y: ChannelId| #[trigger]
            out@.contains(y) <==> (o0.contains(y) || (src@.subrange(0, i as int).contains(y)
                && y != cid)) by {
            let pre = src@.subrange(0, i - 1);
            let post = src@.subrange(0, i as int);
            assert(post =~= pre.push(x));
            if out@.contains(y) && !before.contains(y) {
                assert(y == x);
                assert(post[i - 1] == y);
            }
            if post.contains(y) && y != cid && !pre.contains(y) {
                let w = choose|w: int| 0 <= w < post.len() && post[w] == y;
                if w < i - 1 {
                    assert(pre[w] == y);
                }
                assert(y == x);
                if !before.contains(y) {
                    assert(out@[out@.len() - 1] == y);
                }
            }
            if pre.contains(y) {
                let w = choose|w: int| 0 <= w < pre.len() && pre[w] == y;
                assert(post[w] == y);
            }
            if before.contains(y) {
                let w = choose|w: int| 0 <= w < before.len() && before[w] == y;
                assert(out@[w] == y);
            }
        }
    }
    assert(src@.subrange(0, src@.len() as int) =~= src@);
}

/// Every other channel that should move/mute/solo along with `cid`
/// (see [`propagates_to`]), each listed once.
pub fn propagation_set(
    selected: &Vec<ChannelId>,
    groups: &Vec<Group>,
    cid: ChannelId,
    link: GroupLink,
) -> (r: Vec<ChannelId>)
    requires
        selected@.no_duplicates(),
    ensures
        r@.no_duplicates(),
        forall|x: ChannelId| #[trigger]
            r@.contains(x) <==> propagates_to(selected@, groups@, cid, link, x),
{
    let mut out: Vec<ChannelId> = Vec::new();
    let sel_active = selected.len() > 1 && contains_channel(selected, cid);
    if sel_active {
        extend_unique(&mut out, selected, cid);
    }
    let mut g: usize = 0;
    while g < groups.len()
        invariant
            g <= groups@.len(),
            out@.no_duplicates(),
            !out@.contains(cid),
            sel_active == (selected@.len() > 1 && selected@.contains(cid)),
            forall|x: ChannelId| #[trigger]
                out@.contains(x) <==> (x != cid && ((sel_active && selected@.contains(x)) || exists|
                    h: int,
                |
                    0 <= h < g && link_on(#[trigger] groups@[h], link) && groups@[h].members@.contains(
                        cid,
                    ) && groups@[h].members@.contains(x))),
        decreases groups@.len() - g,
    {
        let grp = &groups[g];
        let on = match link {
            GroupLink::Mute => grp.mute_linked,
            GroupLink::Solo => grp.solo_linked,
            GroupLink::Fader => grp.fader_linked,
        };
        let ghost before = out@;
        if on && contains_channel(&grp.members, cid) {
            extend_unique(&mut out, &grp.members, cid);
        }
        g = g + 1;
        assert forall|x: ChannelId| #[trigger]
            out@.contains(x) <==> (x != cid && ((sel_active && selected@.contains(x)) || exists|
                h: int,
            |
                0 <= h < g && link_on(#[trigger] groups@[h], link) && groups@[h].members@.contains(cid)
                    && groups@[h].members@.contains(x))) by {
            if x != cid && on && groups@[g - 1].members@.contains(cid) && groups@[g
                - 1].members@.contains(x) {
                assert(out@.contains(x));
            }
            if exists|h: int|
                0 <= h < g && link_on(#[trigger] groups@[h], link) && groups@[h].members@.contains(cid)
                    && groups@[h].members@.contains(x) {
                let h = choose|h: int|
                    0 <= h < g && link_on(#[trigger] groups@[h], link) && groups@[h].members@.contains(
                        cid,
                    ) && groups@[h].members@.contains(x);
                if h < g - 1 {
                    assert(before.contains(x) || x == cid);
                }
            }
            if out@.contains(x) && !before.contains(x) {
                assert(link_on(groups@[g - 1], link) && groups@[g - 1].members@.contains(cid)
                    && groups@[g - 1].members@.contains(x));
            }
        }
    }
    out
}

/// A pan value clamped to -100 (hard left) .. 100 (hard right).
pub open spec fn clamp_pan_value(p: int) -> int {
    if p < -100 {
        -100
    } else if p > 100 {
        100
    } else {
        p
    }
}

/// The pan a fader-linked member at `cur` moves to when the dragged
/// strip's pan goes from `old` to `new`: the same relative move, clamped
/// to -100..100.
pub fn grouped_pan(old: i8, new: i8, cur: i8) -> (r: i8)
    ensures
        r == clamp_pan_value(cur + (new - old)),
{
    let delta: i16 = new as i16 - old as i16;
    let p: i16 = cur as i16 + delta;
    if p < -100 {
        -100
    } else if p > 100 {
        100
    } else {
        p as i8
    }
}

// ── Undo / redo ──────────────────────────────────────────────────

/// The kind of a message of the graphical interface, without its data.
#[derive(Debug, Clone, Copy, PartialEq, Eq, Structural)]
pub enum MessageKind {
    Tick,
    SetView,
    QuickChannelSelected,
    SelectOutput,
    ModifiersChanged,
    TabPressed,
    EscapePressed,
    WindowResized,
    WheelZoom,
    ZoomIn,
    ZoomOut,
    ZoomReset,
    Mute,
    Solo,
    GlobalMuteToggle,
    GlobalSoloToggle,
    Phantom,
    Pad,
    Gain,
    Sensitivity,
    TrimChanged,
    TrimReset,
    EqEnabled,
    EqBandType,
    EqBandFreq,
    EqBandQ,
    EqBandGain,
    EqLowCutFreq,
    EqLowCutSlope,
    LoopbackChanged,
    StereoLinkChanged,
    PitchChanged,
    WidthChanged,
    MsProcChanged,
    An12Changed,
    InputLinkChanged,
    VolumeChanged,
    FaderPressed,
    RangeCleared,
    Reset,
    PanChanged,
    PanReset,
    ToggleCollapse,
    ToggleFlyout,
    CloseFlyout,
    CollapseTick,
    SaveNow,
    EditStart,
    EditChanged,
    EditCommit,
    StripClicked,
    ClearSelection,
    StripHovered,
    OscReady,
    OscCommand,
    OscLog,
    ToggleOscLog,
    ClearOscLog,
    ToggleDevicePanel,
    ClockSourceSelected,
    SampleRateSelected,
    SpdifEnabledChanged,
    SpdifEmphasisChanged,
    SpdifProfessionalChanged,
    Undo,
    Redo,
    ToggleSidebarPanel,
    ToggleSidebar,
    ToggleSkeletonPair,
    SnapshotClicked,
    SnapshotStore,
    GroupEditToggle,
    GroupLinkToggle,
    GroupClear,
    LayoutClicked,
    LayoutStore,
}

/// Whether a message changes device state worth an undo step. Messages
/// that only change the interface (view, zoom, selection, flyouts,
/// sidebar, groups, layouts), a continuous fader drag (recorded once at
/// its start instead), the remote-control plumbing, saving, and undo and
/// redo themselves are not.
pub open spec fn undoable(m: MessageKind) -> bool {
    !(m == MessageKind::Tick
        || m == MessageKind::SetView
        || m == MessageKind::QuickChannelSelected
        || m == MessageKind::SelectOutput
        || m == MessageKind::ModifiersChanged
        || m == MessageKind::TabPressed
        || m == MessageKind::EscapePressed
        || m == MessageKind::WindowResized
        || m == MessageKind::WheelZoom
        || m == MessageKind::ZoomIn
        || m == MessageKind::ZoomOut
        || m == MessageKind::ZoomReset
        || m == MessageKind::VolumeChanged
        || m == MessageKind::RangeCleared
        || m == MessageKind::ToggleCollapse
        || m == MessageKind::ToggleFlyout
        || m == MessageKind::CloseFlyout
        || m == MessageKind::CollapseTick
        || m == MessageKind::SaveNow
        || m == MessageKind::EditStart
        || m == MessageKind::EditChanged
        || m == MessageKind::StripClicked
        || m == MessageKind::ClearSelection
        || m == MessageKind::StripHovered
        || m == MessageKind::OscReady
        || m == MessageKind::OscCommand
        || m == MessageKind::OscLog
        || m == MessageKind::ToggleOscLog
        || m == MessageKind::ClearOscLog
        || m == MessageKind::ToggleDevicePanel
        || m == MessageKind::Undo
        || m == MessageKind::Redo
        || m == MessageKind::ToggleSidebarPanel
        || m == MessageKind::ToggleSidebar
        || m == MessageKind::ToggleSkeletonPair
        || m == MessageKind::SnapshotStore
        || m == MessageKind::GroupEditToggle
        || m == MessageKind::GroupLinkToggle
        || m == MessageKind::GroupClear
        || m == MessageKind::LayoutClicked
        || m == MessageKind::LayoutStore)
}

/// Whether `m` records an undo snapshot before it is handled.
pub fn is_undoable(m: MessageKind) -> (r: bool)
    ensures
        r == undoable(m),
{
    match m {
        MessageKind::Tick => false,
        MessageKind::SetView => false,
        MessageKind::QuickChannelSelected => false,
        MessageKind::SelectOutput => false,
        MessageKind::ModifiersChanged => false,
        MessageKind::TabPressed => false,
        MessageKind::EscapePressed => false,
        MessageKind::WindowResized => false,
        MessageKind::WheelZoom => false,
        MessageKind::ZoomIn => false,
        MessageKind::ZoomOut => false,
        MessageKind::ZoomReset => false,
        MessageKind::VolumeChanged => false,
        MessageKind::RangeCleared => false,
        MessageKind::ToggleCollapse => false,
        MessageKind::ToggleFlyout => false,
        MessageKind::CloseFlyout => false,
        MessageKind::CollapseTick => false,
        MessageKind::SaveNow => false,
        MessageKind::EditStart => false,
        MessageKind::EditChanged => false,
        MessageKind::StripClicked => false,
        MessageKind::ClearSelection => false,
        MessageKind::StripHovered => false,
        MessageKind::OscReady => false,
        MessageKind::OscCommand => false,
        MessageKind::OscLog => false,
        MessageKind::ToggleOscLog => false,
        MessageKind::ClearOscLog => false,
        MessageKind::ToggleDevicePanel => false,
        MessageKind::Undo => false,
        MessageKind::Redo => false,
        MessageKind::ToggleSidebarPanel => false,
        MessageKind::ToggleSidebar => false,
        MessageKind::ToggleSkeletonPair => false,
        MessageKind::SnapshotStore => false,
        MessageKind::GroupEditToggle => false,
        MessageKind::GroupLinkToggle => false,
        MessageKind::GroupClear => false,
        MessageKind::LayoutClicked => false,
        MessageKind::LayoutStore => false,
        _ => true,
    }
}


/// The messages that change what the device does (or, for a fader
/// press, start a fader drag): mute, solo and their global buttons, the
/// preamp, trim, EQ, loopback, link, pitch, width, MS and AN 1>2
/// settings, reset, pan, a committed value edit, the clock and S/PDIF
/// settings, and a snapshot recall.
pub open spec fn changes_device(m: MessageKind) -> bool {
    m == MessageKind::Mute || m == MessageKind::Solo || m == MessageKind::GlobalMuteToggle
        || m == MessageKind::GlobalSoloToggle || m == MessageKind::Phantom || m == MessageKind::Pad
        || m == MessageKind::Gain || m == MessageKind::Sensitivity || m == MessageKind::TrimChanged
        || m == MessageKind::TrimReset || m == MessageKind::EqEnabled || m == MessageKind::EqBandType
        || m == MessageKind::EqBandFreq || m == MessageKind::EqBandQ || m == MessageKind::EqBandGain
        || m == MessageKind::EqLowCutFreq || m == MessageKind::EqLowCutSlope
        || m == MessageKind::LoopbackChanged || m == MessageKind::StereoLinkChanged
        || m == MessageKind::PitchChanged || m == MessageKind::WidthChanged
        || m == MessageKind::MsProcChanged || m == MessageKind::An12Changed
        || m == MessageKind::InputLinkChanged || m == MessageKind::FaderPressed
        || m == MessageKind::Reset || m == MessageKind::PanChanged || m == MessageKind::PanReset
        || m == MessageKind::EditCommit || m == MessageKind::ClockSourceSelected
        || m == MessageKind::SampleRateSelected || m == MessageKind::SpdifEnabledChanged
        || m == MessageKind::SpdifEmphasisChanged || m == MessageKind::SpdifProfessionalChanged
        || m == MessageKind::SnapshotClicked
}

/// Maximum number of snapshots kept on each history stack.
pub const UNDO_STACK_CAP: usize = 50;

/// Undo/redo history of snapshots.
pub struct UndoHistory<T> {
    /// Snapshots taken before each mutating action, oldest first.
    pub undo_stack: Vec<T>,
    /// Snapshots set aside by undo, most recently undone last.
    pub redo_stack: Vec<T>,
}

/// The undo stack after recording `s`: pushed on top, the oldest entry
/// dropped when the stack would exceed the cap.
pub open spec fn stack_after_record<T>(undo: Seq<T>, s: T) -> Seq<T> {
    if undo.len() + 1 > UNDO_STACK_CAP {
        undo.push(s).remove(0)
    } else {
        undo.push(s)
    }
}

impl<T> UndoHistory<T> {
    /// An empty history.
    pub fn new() -> (r: Self)
        ensures
            r.undo_stack@.len() == 0,
            r.redo_stack@.len() == 0,
    {
        UndoHistory { undo_stack: Vec::new(), redo_stack: Vec::new() }
    }

    /// Records the snapshot taken before a mutating action; a new action
    /// invalidates the redo history.
    pub fn record(&mut self, snapshot: T)
        ensures
            final(self).undo_stack@ == stack_after_record(old(self).undo_stack@, snapshot),
            final(self).redo_stack@.len() == 0,
    {
        self.undo_stack.push(snapshot);
        if self.undo_stack.len() > UNDO_STACK_CAP {
            self.undo_stack.remove(0);
        }
        self.redo_stack.clear();
    }

    /// The dispatcher's rule: before a message of kind `m` is handled,
    /// `snapshot` (the state before it) is recorded when the message is
    /// undoable; other messages leave the history alone. Gives whether
    /// it recorded.
    pub fn record_if_undoable(&mut self, m: MessageKind, snapshot: T) -> (recorded: bool)
        ensures
            recorded == undoable(m),
            recorded ==> final(self).undo_stack@ == stack_after_record(old(self).undo_stack@, snapshot)
                && final(self).redo_stack@.len() == 0,
            !recorded ==> final(self).undo_stack@ == old(self).undo_stack@ && final(self).redo_stack@
                == old(self).redo_stack@,
    {
        if is_undoable(m) {
            self.record(snapshot);
            true
        } else {
            false
        }
    }

    /// Undo: returns the snapshot to restore (the latest one recorded) and
    /// keeps `current` for redo; nothing happens when there is nothing to
    /// undo.
    pub fn undo(&mut self, current: T) -> (r: Option<T>)
        ensures
            old(self).undo_stack@.len() == 0 ==> {
                &&& r is None
                &&& final(self).undo_stack@ == old(self).undo_stack@
                &&& final(self).redo_stack@ == old(self).redo_stack@
            },
            old(self).undo_stack@.len() > 0 ==> {
                &&& r == Some(old(self).undo_stack@.last())
                &&& final(self).undo_stack@ == old(self).undo_stack@.drop_last()
                &&& final(self).redo_stack@ == old(self).redo_stack@.push(current)
            },
    {
        match self.undo_stack.pop() {
            Some(s) => {
                self.redo_stack.push(current);
                Some(s)
            },
            None => None,
        }
    }

    /// Redo: returns the snapshot to restore (the latest one undone) and
    /// keeps `current` for undo; nothing happens when there is nothing to
    /// redo.
    pub fn redo(&mut self, current: T) -> (r: Option<T>)
        ensures
            old(self).redo_stack@.len() == 0 ==> {
                &&& r is None
                &&& final(self).undo_stack@ == old(self).undo_stack@
                &&& final(self).redo_stack@ == old(self).redo_stack@
            },
            old(self).redo_stack@.len() > 0 ==> {
                &&& r == Some(old(self).redo_stack@.last())
                &&& final(self).redo_stack@ == old(self).redo_stack@.drop_last()
                &&& final(self).undo_stack@ == old(self).undo_stack@.push(current)
            },
    {
        match self.redo_stack.pop() {
            Some(s) => {
                self.undo_stack.push(current);
                Some(s)
            },
            None => None,
        }
    }
}

// ── Laws ─────────────────────────────────────────────────────────

/// Pressing a global button twice restores every flag: the first press
/// drives all flags to `v` (remembering the ones it changed), the second
/// sends exactly those back. For mute, channels muted before the first
/// press stay muted; for solo, the cleared solos come back.
pub proof fn lemma_global_press_twice_restores(flags: Seq<bool>, last: Seq<usize>, v: bool)
    requires
        flags.len() <= usize::MAX,
        indices_with(flags, !v).len() > 0,
    ensures
        flags_after_press(flags, last, v) == Seq::new(flags.len(), |i: int| v),
        flags_after_press(
            flags_after_press(flags, last, v),
            record_after_press(flags, last, v),
            v,
        ) == flags,
        record_after_press(
            flags_after_press(flags, last, v),
            record_after_press(flags, last, v),
            v,
        ).len() == 0,
{
    let f1 = flags_after_press(flags, last, v);
    let r1 = record_after_press(flags, last, v);
    assert(indices_with(f1, !v).len() == 0) by {
        if indices_with(f1, !v).len() > 0 {
            lemma_indices_with(f1, !v, indices_with(f1, !v)[0] as int);
            assert(in_targets(indices_with(f1, !v), indices_with(f1, !v)[0] as int));
        }
    }
    assert forall|i: int| 0 <= i < flags.len() implies #[trigger] flags_after_press(f1, r1, v)[i]
        == flags[i] by {
        lemma_indices_with(flags, !v, i);
    }
    assert(flags_after_press(f1, r1, v) =~= flags);
}

/// After a global mute press that found an unmuted channel every channel
/// is muted; after a global solo press that found a soloed channel no
/// channel is soloed.
pub proof fn lemma_global_press_reaches_target(flags: Seq<bool>, last: Seq<usize>, v: bool, i: int)
    requires
        indices_with(flags, !v).len() > 0,
        0 <= i < flags.len(),
    ensures
        flags_after_press(flags, last, v)[i] == v,
{
}

/// Undoing and then redoing (each time handing over the state the other
/// returned) leaves both history stacks exactly as they were.
pub proof fn lemma_undo_then_redo_restores<T>(undo: Seq<T>, redo: Seq<T>, current: T)
    requires
        undo.len() > 0,
    ensures
        ({
            let s = undo.last();
            let u1 = undo.drop_last();
            let r1 = redo.push(current);
            &&& r1.last() == current
            &&& u1.push(s) == undo
            &&& r1.drop_last() == redo
        }),
{
    assert(undo.drop_last().push(undo.last()) =~= undo);
    assert(redo.push(current).drop_last() =~= redo);
}

/// The undo stack never grows past its cap.
pub proof fn lemma_record_respects_cap<T>(undo: Seq<T>, s: T)
    requires
        undo.len() <= UNDO_STACK_CAP,
    ensures
        stack_after_record(undo, s).len() <= UNDO_STACK_CAP,
        stack_after_record(undo, s).last() == s,
{
}

/// The history never holds more than the cap in its two stacks together:
/// from a history within the cap, recording (which empties the redo
/// stack, pushes the snapshot and drops the oldest one past the cap),
/// undoing and redoing (which move one snapshot between the stacks, the
/// other side's current state taking its place) all keep undo + redo at
/// most the cap. A recorded snapshot is on top, and the undo stack grows
/// by one up to the cap.
pub proof fn lemma_history_within_cap<T>(undo: Seq<T>, redo: Seq<T>, s: T, current: T)
    requires
        undo.len() + redo.len() <= UNDO_STACK_CAP,
    ensures
        stack_after_record(undo, s).len() == (if undo.len() + 1 <= UNDO_STACK_CAP {
            undo.len() + 1
        } else {
            UNDO_STACK_CAP as nat
        }),
        stack_after_record(undo, s).last() == s,
        undo.len() > 0 ==> undo.drop_last().len() + redo.push(current).len() <= UNDO_STACK_CAP,
        redo.len() > 0 ==> undo.push(current).len() + redo.drop_last().len() <= UNDO_STACK_CAP,
{
}

/// Propagation never includes the channel itself, and a group whose link
/// is off propagates nothing on its own.
pub proof fn lemma_propagation_excludes_self(
    selected: Seq<ChannelId>,
    groups: Seq<Group>,
    cid: ChannelId,
    link: GroupLink,
)
    ensures
        !propagates_to(selected, groups, cid, link, cid),
        (selected.len() <= 1 && forall|g: int| 0 <= g < groups.len() ==> !link_on(#[trigger] groups[g], link))
            ==> forall|x: ChannelId| !#[trigger] propagates_to(selected, groups, cid, link, x),
{
}

/// Members of a fader-linked group keep their pan offsets to the dragged
/// strip while no one hits a limit, and every member stays within
/// -100..100.
pub proof fn lemma_grouped_pan_keeps_offsets(old: int, new: int, cur: int)
    ensures
        -100 <= clamp_pan_value(cur + (new - old)) <= 100,
        -100 <= cur + (new - old) <= 100 ==> clamp_pan_value(cur + (new - old)) - new == cur - old,
{
}

/// Exactly the messages that change device state are undoable: each of
/// them (mute, solo, phantom, gain, ...) records the state before it, so
/// that the next undo hands that state back, and no interface-only
/// message does.
pub proof fn lemma_device_changes_are_undoable<T>(m: MessageKind, undo: Seq<T>, before: T)
    ensures
        undoable(m) <==> changes_device(m),
        changes_device(m) ==> stack_after_record(undo, before).len() > 0 && stack_after_record(
            undo,
            before,
        ).last() == before,
{
}

} // verus!
