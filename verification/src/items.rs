//! Pair-grouped display lists of the text interface: each section
//! (inputs, playbacks, outputs) shows a linked pair as one bus and a split
//! pair as its two channels, and the cursor resolves through that list.
use vstd::prelude::*;

use crate::channel::ChannelId;

verus! {

/// One entry of a pair-grouped display list: a linked pair (by pair
/// index) or one channel of a split pair (by channel index).
#[derive(Debug, Clone, Copy, PartialEq, Eq, Structural)]
pub enum PairItem {
    Linked(usize),
    Single(usize),
}

/// The kind of channel a section lists.
#[derive(Debug, Clone, Copy, PartialEq, Eq, Structural)]
pub enum ChannelKind {
    Input,
    Playback,
    Output,
}

/// The display list of the first `n` pairs, given each pair's link state.
pub open spec fn items_upto(linked: Seq<bool>, n: int) -> Seq<PairItem>
    decreases n,
{
    if n <= 0 {
        Seq::empty()
    } else if linked[n - 1] {
        items_upto(linked, n - 1).push(PairItem::Linked((n - 1) as usize))
    } else {
        items_upto(linked, n - 1).push(PairItem::Single((2 * (n - 1)) as usize)).push(
            PairItem::Single((2 * (n - 1) + 1) as usize),
        )
    }
}

/// Number of split pairs among the first `n`.
pub open spec fn split_count(linked: Seq<bool>, n: int) -> int
    decreases n,
{
    if n <= 0 {
        0
    } else {
        split_count(linked, n - 1) + if linked[n - 1] {
            0int
        } else {
            1int
        }
    }
}

/// The pair an item belongs to.
pub open spec fn pair_of(item: PairItem) -> int {
    match item {
        PairItem::Linked(p) => p as int,
        PairItem::Single(c) => c as int / 2,
    }
}

/// Whether some entry of `items` belongs to pair `p`.
pub open spec fn pair_listed(items: Seq<PairItem>, p: int) -> bool {
    exists|k: int| 0 <= k < items.len() && pair_of(#[trigger] items[k]) == p
}

/// How many entries of `items` belong to pair `p`.
pub open spec fn occurrences(items: Seq<PairItem>, p: int) -> nat
    decreases items.len(),
{
    if items.len() == 0 {
        0
    } else {
        occurrences(items.drop_last(), p) + if pair_of(items.last()) == p {
            1nat
        } else {
            0nat
        }
    }
}

/// Appending an item adds one occurrence of its own pair only.
proof fn lemma_occurrences_push(items: Seq<PairItem>, x: PairItem, p: int)
    ensures
        occurrences(items.push(x), p) == occurrences(items, p) + if pair_of(x) == p {
            1nat
        } else {
            0nat
        },
{
    assert(items.push(x).drop_last() =~= items);
}

/// The number of entries of pair `p` among the first `n` pairs' entries:
/// one for a linked pair, two for a split pair, none past `n`.
proof fn lemma_items_occurrences(linked: Seq<bool>, n: int, p: int)
    requires
        0 <= n <= linked.len(),
        2 * linked.len() <= usize::MAX,
    ensures
        occurrences(items_upto(linked, n), p) == (if 0 <= p < n {
            if linked[p] {
                1nat
            } else {
                2nat
            }
        } else {
            0nat
        }),
    decreases n,
{
    if n > 0 {
        lemma_items_occurrences(linked, n - 1, p);
        let prev = items_upto(linked, n - 1);
        if linked[n - 1] {
            lemma_occurrences_push(prev, PairItem::Linked((n - 1) as usize), p);
        } else {
            let a = PairItem::Single((2 * (n - 1)) as usize);
            let b = PairItem::Single((2 * (n - 1) + 1) as usize);
            lemma_occurrences_push(prev, a, p);
            lemma_occurrences_push(prev.push(a), b, p);
            assert(pair_of(a) == n - 1);
            assert(pair_of(b) == n - 1);
        }
    }
}

/// Builds a section's display list from each pair's link state
/// (`linked[p]` for pair `p`).
pub fn pair_items(linked: &Vec<bool>) -> (r: Vec<PairItem>)
    requires
        2 * linked@.len() <= usize::MAX,
    ensures
        r@ == items_upto(linked@, linked@.len() as int),
{
    let mut items: Vec<PairItem> = Vec::new();
    let mut pair: usize = 0;
    while pair < linked.len()
        invariant
            pair <= linked@.len(),
            2 * linked@.len() <= usize::MAX,
            items@ == items_upto(linked@, pair as int),
        decreases linked@.len() - pair,
    {
        if linked[pair] {
            items.push(PairItem::Linked(pair));
        } else {
            items.push(PairItem::Single(pair * 2));
            items.push(PairItem::Single(pair * 2 + 1));
        }
        pair = pair + 1;
    }
    items
}

/// The pair index an item belongs to, whether linked or one half of a
/// split.
pub fn item_pair(item: PairItem) -> (r: usize)
    ensures
        r == pair_of(item),
{
    match item {
        PairItem::Linked(p) => p,
        PairItem::Single(c) => c / 2,
    }
}

/// The channel id of kind `kind` with index `idx`.
pub open spec fn make_channel(kind: ChannelKind, idx: usize) -> ChannelId {
    match kind {
        ChannelKind::Input => ChannelId::Input(idx),
        ChannelKind::Playback => ChannelId::Playback(idx),
        ChannelKind::Output => ChannelId::Output(idx),
    }
}

/// Resolves a cursor position to the channel it points at: a linked
/// pair's left channel, a split channel itself, or (past the end of the
/// list) the raw cursor index.
pub fn item_channel_id(items: &Vec<PairItem>, channel: usize, kind: ChannelKind) -> (r: ChannelId)
    requires
        forall|k: int|
            0 <= k < items@.len() ==> (#[trigger] items@[k] matches PairItem::Linked(p) ==> 2 * p
                <= usize::MAX),
    ensures
        r == (if channel < items@.len() {
            match items@[channel as int] {
                PairItem::Linked(p) => make_channel(kind, (2 * p) as usize),
                PairItem::Single(c) => make_channel(kind, c),
            }
        } else {
            make_channel(kind, channel)
        }),
{
    let idx = if channel < items.len() {
        match items[channel] {
            PairItem::Linked(pair) => pair * 2,
            PairItem::Single(ch) => ch,
        }
    } else {
        channel
    };
    match kind {
        ChannelKind::Input => ChannelId::Input(idx),
        ChannelKind::Playback => ChannelId::Playback(idx),
        ChannelKind::Output => ChannelId::Output(idx),
    }
}

// ── Laws ─────────────────────────────────────────────────────────

/// A display list has one entry per linked pair and two per split pair,
/// lists the pairs in order, and every pair in range appears: once when
/// linked, twice when split, and no pair out of range appears.
pub proof fn lemma_items_shape(linked: Seq<bool>, n: int)
    requires
        0 <= n <= linked.len(),
        2 * linked.len() <= usize::MAX,
    ensures
        forall|p: int| #[trigger] occurrences(items_upto(linked, n), p) == (if 0 <= p < n {
            if linked[p] {
                1nat
            } else {
                2nat
            }
        } else {
            0nat
        }),
        items_upto(linked, n).len() == n + split_count(linked, n),
        forall|k: int|
            0 <= k < items_upto(linked, n).len() ==> 0 <= #[trigger] pair_of(items_upto(linked, n)[k])
                < n,
        forall|j: int, k: int|
            0 <= j <= k < items_upto(linked, n).len() ==> pair_of(#[trigger] items_upto(linked, n)[j])
                <= pair_of(#[trigger] items_upto(linked, n)[k]),
        forall|p: int| 0 <= p < n ==> #[trigger] pair_listed(items_upto(linked, n), p),
    decreases n,
{
    assert forall|p: int| #[trigger] occurrences(items_upto(linked, n), p) == (if 0 <= p < n {
        if linked[p] {
            1nat
        } else {
            2nat
        }
    } else {
        0nat
    }) by {
        lemma_items_occurrences(linked, n, p);
    }
    if n > 0 {
        lemma_items_shape(linked, n - 1);
        let prev = items_upto(linked, n - 1);
        let cur = items_upto(linked, n);
        assert forall|k: int| 0 <= k < prev.len() implies cur[k] == prev[k] by {
            if linked[n - 1] {
                assert(cur == prev.push(PairItem::Linked((n - 1) as usize)));
            } else {
                assert(cur == prev.push(PairItem::Single((2 * (n - 1)) as usize)).push(
                    PairItem::Single((2 * (n - 1) + 1) as usize),
                ));
            }
        }
        assert forall|k: int| prev.len() <= k < cur.len() implies pair_of(#[trigger] cur[k]) == n - 1 by {
            if linked[n - 1] {
                assert(cur[k] == PairItem::Linked((n - 1) as usize));
            } else if k == prev.len() {
                assert(cur[k] == PairItem::Single((2 * (n - 1)) as usize));
            } else {
                assert(cur[k] == PairItem::Single((2 * (n - 1) + 1) as usize));
            }
        }
        assert forall|p: int| 0 <= p < n implies #[trigger] pair_listed(cur, p) by {
            if p < n - 1 {
                assert(pair_listed(prev, p));
                let k = choose|k: int| 0 <= k < prev.len() && pair_of(#[trigger] prev[k]) == p;
                assert(pair_of(cur[k]) == p);
            } else {
                assert(pair_of(cur[prev.len() as int]) == p);
            }
        }
        assert forall|j: int, k: int| 0 <= j <= k < cur.len() implies pair_of(#[trigger] cur[j])
            <= pair_of(#[trigger] cur[k]) by {
            if k >= prev.len() {
                if j < prev.len() {
                    assert(pair_of(cur[j]) == pair_of(prev[j]));
                }
            } else {
                assert(pair_of(cur[j]) == pair_of(prev[j]));
                assert(pair_of(cur[k]) == pair_of(prev[k]));
            }
        }
    }
}

/// With every pair linked, the list is exactly one entry per pair, and
/// the cursor at position `k` resolves to pair `k`'s left channel.
pub proof fn lemma_all_linked_items(linked: Seq<bool>, n: int)
    requires
        0 <= n <= linked.len(),
        2 * linked.len() <= usize::MAX,
        forall|p: int| 0 <= p < linked.len() ==> #[trigger] linked[p],
    ensures
        items_upto(linked, n).len() == n,
        forall|k: int| 0 <= k < n ==> #[trigger] items_upto(linked, n)[k] == PairItem::Linked(k as usize),
    decreases n,
{
    if n > 0 {
        lemma_all_linked_items(linked, n - 1);
        assert(linked[n - 1]);
        let prev = items_upto(linked, n - 1);
        assert(items_upto(linked, n) == prev.push(PairItem::Linked((n - 1) as usize)));
    }
}

} // verus!
