//! Strip multi-selection of the graphical interface: Ctrl+click toggles
//! one strip, Shift+click selects the on-screen range from the anchor, and
//! the channel order the range is measured in (inputs, then playbacks,
//! then outputs, each in index order).
use vstd::prelude::*;

use crate::channel::ChannelId;

verus! {

/// Position of a channel in the on-screen order, for `n_inputs` inputs
/// and `n_playbacks` playbacks.
pub open spec fn position_of(cid: ChannelId, n_inputs: int, n_playbacks: int) -> int {
    match cid {
        ChannelId::Input(i) => i as int,
        ChannelId::Playback(c) => n_inputs + c,
        ChannelId::Output(o) => n_inputs + n_playbacks + o,
    }
}

/// The channel at position `k` of the on-screen order.
pub open spec fn channel_at(k: int, n_inputs: int, n_playbacks: int) -> ChannelId {
    if k < n_inputs {
        ChannelId::Input(k as usize)
    } else if k < n_inputs + n_playbacks {
        ChannelId::Playback((k - n_inputs) as usize)
    } else {
        ChannelId::Output((k - n_inputs - n_playbacks) as usize)
    }
}

/// Every channel in on-screen order: inputs, then playbacks, then
/// outputs, each in index order.
pub fn channel_order(n_inputs: usize, n_playbacks: usize, n_outputs: usize) -> (r: Vec<ChannelId>)
    requires
        n_inputs + n_playbacks + n_outputs <= usize::MAX,
    ensures
        r@.len() == n_inputs + n_playbacks + n_outputs,
        forall|k: int| 0 <= k < r@.len() ==> #[trigger] r@[k] == channel_at(k, n_inputs as int, n_playbacks as int),
{
    let mut v: Vec<ChannelId> = Vec::new();
    let mut i: usize = 0;
    while i < n_inputs
        invariant
            i <= n_inputs,
            v@.len() == i,
            forall|k: int| 0 <= k < v@.len() ==> #[trigger] v@[k] == channel_at(k, n_inputs as int, n_playbacks as int),
        decreases n_inputs - i,
    {
        v.push(ChannelId::Input(i));
        i = i + 1;
    }
    let mut c: usize = 0;
    while c < n_playbacks
        invariant
            c <= n_playbacks,
            n_inputs + n_playbacks + n_outputs <= usize::MAX,
            v@.len() == n_inputs + c,
            forall|k: int| 0 <= k < v@.len() ==> #[trigger] v@[k] == channel_at(k, n_inputs as int, n_playbacks as int),
        decreases n_playbacks - c,
    {
        v.push(ChannelId::Playback(c));
        c = c + 1;
    }
    let mut o: usize = 0;
    while o < n_outputs
        invariant
            o <= n_outputs,
            n_inputs + n_playbacks + n_outputs <= usize::MAX,
            v@.len() == n_inputs + n_playbacks + o,
            forall|k: int| 0 <= k < v@.len() ==> #[trigger] v@[k] == channel_at(k, n_inputs as int, n_playbacks as int),
        decreases n_outputs - o,
    {
        v.push(ChannelId::Output(o));
        o = o + 1;
    }
    v
}

/// The first position of `c` in `v`, if any.
pub fn position(v: &Vec<ChannelId>, c: ChannelId) -> (r: Option<usize>)
    ensures
        r matches Some(k) ==> k < v@.len() && v@[k as int] == c && forall|j: int| 0 <= j < k ==> v@[j] != c,
        r is None ==> !v@.contains(c),
{
    let mut i: usize = 0;
    while i < v.len()
        invariant
            i <= v@.len(),
            forall|j: int| 0 <= j < i ==> v@[j] != c,
        decreases v@.len() - i,
    {
        if v[i] == c {
            return Some(i);
        }
        i = i + 1;
    }
    None
}

/// The strips currently selected, and the anchor Shift+click ranges are
/// measured from.
pub struct Selection {
    /// The selected strips, each once.
    pub selected: Vec<ChannelId>,
    /// The pivot of the next Shift+click.
    pub anchor: Option<ChannelId>,
}

impl Selection {
    /// An empty selection without anchor.
    pub fn new() -> (r: Self)
        ensures
            r.selected@.len() == 0,
            r.anchor is None,
    {
        Selection { selected: Vec::new(), anchor: None }
    }

    /// Ctrl+click: toggles `cid` alone, leaving the rest of the selection
    /// untouched, and makes it the anchor.
    pub fn ctrl_click(&mut self, cid: ChannelId)
        requires
            old(self).selected@.no_duplicates(),
        ensures
            final(self).selected@.no_duplicates(),
            final(self).selected@.contains(cid) == !old(self).selected@.contains(cid),
            forall|x: ChannelId|
                x != cid ==> (#[trigger] final(self).selected@.contains(x) == old(self).selected@.contains(x)),
            final(self).anchor == Some(cid),
    {
        let ghost s0 = self.selected@;
        match position(&self.selected, cid) {
            Some(k) => {
                self.selected.remove(k);
                assert forall|x: ChannelId| x != cid implies (#[trigger] self.selected@.contains(x)
                    == s0.contains(x)) by {
                    if s0.contains(x) {
                        let w = choose|w: int| 0 <= w < s0.len() && s0[w] == x;
                        if w < k {
                            assert(self.selected@[w] == x);
                        } else {
                            assert(w != k);
                            assert(self.selected@[w - 1] == x);
                        }
                    }
                    if self.selected@.contains(x) {
                        let w = choose|w: int| 0 <= w < self.selected@.len() && self.selected@[w] == x;
                        if w < k {
                            assert(s0[w] == x);
                        } else {
                            assert(s0[w + 1] == x);
                        }
                    }
                }
                assert(!self.selected@.contains(cid)) by {
                    if self.selected@.contains(cid) {
                        let w = choose|w: int| 0 <= w < self.selected@.len() && self.selected@[w] == cid;
                        if w < k {
                            assert(s0[w] == cid);
                        } else {
                            assert(s0[w + 1] == cid);
                        }
                    }
                }
            },
            None => {
                self.selected.push(cid);
                assert(self.selected@[s0.len() as int] == cid);
                assert forall|x: ChannelId| x != cid implies (#[trigger] self.selected@.contains(x)
                    == s0.contains(x)) by {
                    if s0.contains(x) {
                        let w = choose|w: int| 0 <= w < s0.len() && s0[w] == x;
                        assert(self.selected@[w] == x);
                    }
                    if self.selected@.contains(x) {
                        let w = choose|w: int| 0 <= w < self.selected@.len() && self.selected@[w] == x;
                        assert(w < s0.len());
                        assert(s0[w] == x);
                    }
                }
            },
        }
        self.anchor = Some(cid);
    }

    /// Shift+click: selects the on-screen range from the anchor (or `cid`
    /// itself without one) through `cid`, replacing the selection; the
    /// anchor stays, or becomes `cid` if there was none.
    pub fn shift_click(&mut self, cid: ChannelId, order: &Vec<ChannelId>)
        requires
            order@.no_duplicates(),
        ensures
            ({
                let a = match old(self).anchor {
                    Some(x) => x,
                    None => cid,
                };
                if order@.contains(a) && order@.contains(cid) {
                    let from = order@.index_of(a);
                    let to = order@.index_of(cid);
                    let lo = if from < to { from } else { to };
                    let hi = if from < to { to } else { from };
                    final(self).selected@ == order@.subrange(lo, hi + 1)
                } else {
                    final(self).selected@ == old(self).selected@
                }
            }),
            final(self).anchor == (match old(self).anchor {
                Some(x) => Some(x),
                None => Some(cid),
            }),
    {
        let anchor = match self.anchor {
            Some(x) => x,
            None => cid,
        };
        let from = position(order, anchor);
        let to = position(order, cid);
        match (from, to) {
            (Some(f), Some(t)) => {
                proof {
                    assert(order@.contains(anchor));
                    assert(order@.contains(cid));
                    order@.index_of_first_ensures(anchor);
                }
                assert(order@.index_of(anchor) == f) by {
                    assert(order@[f as int] == anchor);
                }
                assert(order@.index_of(cid) == t) by {
                    assert(order@[t as int] == cid);
                }
                let lo = if f < t {
                    f
                } else {
                    t
                };
                let hi = if f < t {
                    t
                } else {
                    f
                };
                let mut v: Vec<ChannelId> = Vec::new();
                let mut k = lo;
                while k <= hi
                    invariant
                        lo <= k <= hi + 1,
                        hi < order.len(),
                        v@ == order@.subrange(lo as int, k as int),
                    decreases hi + 1 - k,
                {
                    v.push(order[k]);
                    k = k + 1;
                }
                self.selected = v;
            },
            _ => {},
        }
        if self.anchor.is_none() {
            self.anchor = Some(cid);
        }
    }

    /// Clears the selection and its anchor.
    pub fn clear(&mut self)
        ensures
            final(self).selected@.len() == 0,
            final(self).anchor is None,
    {
        self.selected.clear();
        self.anchor = None;
    }
}

/// The strips an action on `cid` applies to (resetting a fader or a pan,
/// collapsing a strip): the whole selection when `cid` is part of a
/// selection of more than one strip, else `cid` alone.
pub open spec fn group_targets_spec(selected: Seq<ChannelId>, cid: ChannelId) -> Seq<ChannelId> {
    if selected.len() > 1 && selected.contains(cid) {
        selected
    } else {
        seq![cid]
    }
}

/// The strips an action on `cid` applies to (see [`group_targets_spec`]).
pub fn group_targets(selected: &Vec<ChannelId>, cid: ChannelId) -> (r: Vec<ChannelId>)
    ensures
        r@ == group_targets_spec(selected@, cid),
{
    let in_selection = match position(selected, cid) {
        Some(_) => true,
        None => false,
    };
    if selected.len() > 1 && in_selection {
        let mut v: Vec<ChannelId> = Vec::new();
        let mut i: usize = 0;
        while i < selected.len()
            invariant
                i <= selected@.len(),
                v@ == selected@.subrange(0, i as int),
            decreases selected@.len() - i,
        {
            v.push(selected[i]);
            i = i + 1;
        }
        v
    } else {
        vec![cid]
    }
}

/// Sets whether `cid` is collapsed, keeping every other strip's state and
/// listing each collapsed strip once.
fn set_collapsed(collapsed: &mut Vec<ChannelId>, cid: ChannelId, target: bool)
    requires
        old(collapsed)@.no_duplicates(),
    ensures
        final(collapsed)@.no_duplicates(),
        final(collapsed)@.contains(cid) == target,
        forall|x: ChannelId|
            x != cid ==> (#[trigger] final(collapsed)@.contains(x) == old(collapsed)@.contains(x)),
{
    let ghost s0 = collapsed@;
    match position(collapsed, cid) {
        Some(k) => {
            if !target {
                collapsed.remove(k);
                assert forall|x: ChannelId| x != cid implies (#[trigger] collapsed@.contains(x)
                    == s0.contains(x)) by {
                    if s0.contains(x) {
                        let w = choose|w: int| 0 <= w < s0.len() && s0[w] == x;
                        if w < k {
                            assert(collapsed@[w] == x);
                        } else {
                            assert(w != k);
                            assert(collapsed@[w - 1] == x);
                        }
                    }
                    if collapsed@.contains(x) {
                        let w = choose|w: int| 0 <= w < collapsed@.len() && collapsed@[w] == x;
                        if w < k {
                            assert(s0[w] == x);
                        } else {
                            assert(s0[w + 1] == x);
                        }
                    }
                }
                assert(!collapsed@.contains(cid)) by {
                    if collapsed@.contains(cid) {
                        let w = choose|w: int| 0 <= w < collapsed@.len() && collapsed@[w] == cid;
                        if w < k {
                            assert(s0[w] == cid);
                        } else {
                            assert(s0[w + 1] == cid);
                        }
                    }
                }
            }
        },
        None => {
            if target {
                collapsed.push(cid);
                assert(collapsed@[s0.len() as int] == cid);
                assert forall|x: ChannelId| x != cid implies (#[trigger] collapsed@.contains(x)
                    == s0.contains(x)) by {
                    if s0.contains(x) {
                        let w = choose|w: int| 0 <= w < s0.len() && s0[w] == x;
                        assert(collapsed@[w] == x);
                    }
                    if collapsed@.contains(x) {
                        let w = choose|w: int| 0 <= w < collapsed@.len() && collapsed@[w] == x;
                        assert(w < s0.len());
                        assert(s0[w] == x);
                    }
                }
            }
        },
    }
}

/// Double-click on a strip's header: collapses it if it was expanded and
/// expands it if it was collapsed, together with the rest of its
/// selection (see [`group_targets_spec`]), all to the same state. Gives
/// the state the strips were set to.
pub fn toggle_collapse(collapsed: &mut Vec<ChannelId>, selected: &Vec<ChannelId>, cid: ChannelId) -> (target: bool)
    requires
        old(collapsed)@.no_duplicates(),
    ensures
        target == !old(collapsed)@.contains(cid),
        final(collapsed)@.no_duplicates(),
        forall|x: ChannelId|
            #[trigger] final(collapsed)@.contains(x) == (if group_targets_spec(selected@, cid).contains(x) {
                target
            } else {
                old(collapsed)@.contains(x)
            }),
{
    let target = match position(collapsed, cid) {
        Some(_) => false,
        None => true,
    };
    let targets = group_targets(selected, cid);
    let ghost c0 = collapsed@;
    let mut i: usize = 0;
    while i < targets.len()
        invariant
            i <= targets@.len(),
            collapsed@.no_duplicates(),
            forall|x: ChannelId|
                #[trigger] collapsed@.contains(x) == (if targets@.subrange(0, i as int).contains(x) {
                    target
                } else {
                    c0.contains(x)
                }),
        decreases targets@.len() - i,
    {
        let t = targets[i];
        let ghost before = collapsed@;
        set_collapsed(collapsed, t, target);
        assert forall|x: ChannelId| #[trigger] collapsed@.contains(x) == (if targets@.subrange(
            0,
            i + 1,
        ).contains(x) {
            target
        } else {
            c0.contains(x)
        }) by {
            let pre = targets@.subrange(0, i as int);
            let post = targets@.subrange(0, i + 1);
            assert(post == pre.push(t));
            if x == t {
                assert(post[i as int] == t);
            } else {
                if pre.contains(x) {
                    let w = choose|w: int| 0 <= w < pre.len() && pre[w] == x;
                    assert(post[w] == x);
                }
                if post.contains(x) {
                    let w = choose|w: int| 0 <= w < post.len() && post[w] == x;
                    assert(w < i);
                    assert(pre[w] == x);
                }
            }
        }
        i = i + 1;
    }
    assert(targets@.subrange(0, targets@.len() as int) == targets@);
    target
}

/// The submix a click on output strip `i` selects: the strip index itself
/// when the backend shows one strip per output pair, else its pair.
pub fn submix_of_output(i: usize, one_per_pair: bool) -> (r: usize)
    ensures
        r == (if one_per_pair {
            i
        } else {
            i / 2
        }),
{
    if one_per_pair {
        i
    } else {
        i / 2
    }
}

// ── Laws ─────────────────────────────────────────────────────────

/// The on-screen order lists every channel exactly once: position and
/// channel are inverse to each other.
pub proof fn lemma_channel_order_is_a_bijection(cid: ChannelId, k: int, n_inputs: int, n_playbacks: int, n_outputs: int)
    requires
        0 <= n_inputs,
        0 <= n_playbacks,
        0 <= n_outputs,
        n_inputs + n_playbacks + n_outputs <= usize::MAX,
    ensures
        (match cid {
            ChannelId::Input(i) => i < n_inputs,
            ChannelId::Playback(c) => c < n_playbacks,
            ChannelId::Output(o) => o < n_outputs,
        }) ==> channel_at(position_of(cid, n_inputs, n_playbacks), n_inputs, n_playbacks) == cid,
        0 <= k < n_inputs + n_playbacks + n_outputs ==> position_of(
            channel_at(k, n_inputs, n_playbacks),
            n_inputs,
            n_playbacks,
        ) == k,
{
}

} // verus!
