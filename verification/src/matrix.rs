//! Row groups of the graphical interface's routing matrix. Every physical
//! channel gets its own row, whatever the link state; rows are grouped
//! under one label per hardware pair: a microphone input is its own jack
//! and group, every other input comes in a pair (a trailing unpaired input
//! stands alone), and playbacks are grouped by the output bus they belong
//! to.
use vstd::prelude::*;

use crate::channel::{tag_color, type_tag, ChannelType, TagColor};
use crate::text::{pair_bus_label, pair_bus_label_spec};

verus! {

/// One labelled group of matrix rows: `count` channels from `first_idx`.
pub struct RowGroup {
    pub label: String,
    pub color: TagColor,
    pub first_idx: usize,
    pub count: usize,
}

/// The number of rows of the group starting at input `i`: one for a
/// microphone input or the last input, else two.
pub open spec fn group_len(types: Seq<ChannelType>, i: int) -> int {
    if types[i] == ChannelType::Mic || i + 1 >= types.len() {
        1
    } else {
        2
    }
}

/// The label of an input group: the channel's name alone, or the pair's
/// bus label.
pub open spec fn group_label(names: Seq<String>, first: int, count: int) -> Seq<char> {
    if count == 1 {
        names[first]@
    } else {
        pair_bus_label_spec(names[first]@, names[first + 1]@)
    }
}

/// The row groups of the inputs, given each input's type and name.
pub fn input_row_groups(types: &Vec<ChannelType>, names: &Vec<String>) -> (r: Vec<RowGroup>)
    requires
        types@.len() == names@.len(),
    ensures
        r@.len() == 0 <==> types@.len() == 0,
        r@.len() > 0 ==> r@[0].first_idx == 0,
        r@.len() > 0 ==> r@.last().first_idx + r@.last().count == types@.len(),
        forall|k: int|
            0 <= k < r@.len() - 1 ==> #[trigger] r@[k + 1].first_idx == r@[k].first_idx + r@[k].count,
        forall|k: int|
            0 <= k < r@.len() ==> {
                let g = #[trigger] r@[k];
                &&& g.first_idx < types@.len()
                &&& g.count == group_len(types@, g.first_idx as int)
                &&& g.label@ == group_label(names@, g.first_idx as int, g.count as int)
                &&& g.color == tag_color(types@[g.first_idx as int])
            },
{
    let mut groups: Vec<RowGroup> = Vec::new();
    let mut i: usize = 0;
    while i < types.len()
        invariant
            i <= types@.len(),
            types@.len() == names@.len(),
            groups@.len() == 0 <==> i == 0,
            groups@.len() > 0 ==> groups@[0].first_idx == 0,
            groups@.len() > 0 ==> groups@.last().first_idx + groups@.last().count == i,
            forall|k: int|
                0 <= k < groups@.len() - 1 ==> #[trigger] groups@[k + 1].first_idx == groups@[k].first_idx
                    + groups@[k].count,
            forall|k: int|
                0 <= k < groups@.len() ==> {
                    let g = #[trigger] groups@[k];
                    &&& g.first_idx < types@.len()
                    &&& g.count == group_len(types@, g.first_idx as int)
                    &&& g.label@ == group_label(names@, g.first_idx as int, g.count as int)
                    &&& g.color == tag_color(types@[g.first_idx as int])
                },
        decreases types@.len() - i,
    {
        let ty = types[i];
        let (_, color) = type_tag(ty);
        let single = ty == ChannelType::Mic || i + 1 >= types.len();
        let (label, count) = if single {
            (names[i].clone(), 1)
        } else {
            (pair_bus_label(names[i].as_str(), names[i + 1].as_str()), 2)
        };
        let ghost before = groups@;
        groups.push(RowGroup { label, color, first_idx: i, count });
        assert(groups@[groups@.len() - 1].first_idx == i);
        assert forall|k: int| 0 <= k < groups@.len() - 1 implies #[trigger] groups@[k + 1].first_idx
            == groups@[k].first_idx + groups@[k].count by {
            if k + 1 < before.len() {
                assert(groups@[k + 1] == before[k + 1]);
                assert(groups@[k] == before[k]);
            } else {
                assert(groups@[k] == before.last());
            }
        }
        i = i + count;
    }
    groups
}

/// The label of the output bus `pair` in the matrix and the submix
/// picker.
pub open spec fn submix_label_spec(pair: int) -> Seq<char> {
    if pair == 0 {
        "AN1/2"@
    } else if pair == 1 {
        "PH3/4"@
    } else if pair == 2 {
        "AS1/2"@
    } else if pair == 3 {
        "A3/A4"@
    } else if pair == 4 {
        "A5/A6"@
    } else if pair == 5 {
        "A7/A8"@
    } else {
        Seq::empty()
    }
}

/// The label of output bus `pair` (empty past the six buses).
pub fn submix_label(pair: usize) -> (r: &'static str)
    ensures
        r@ == submix_label_spec(pair as int),
{
    proof {
        reveal_strlit("AN1/2");
        reveal_strlit("PH3/4");
        reveal_strlit("AS1/2");
        reveal_strlit("A3/A4");
        reveal_strlit("A5/A6");
        reveal_strlit("A7/A8");
        reveal_strlit("");
    }
    if pair == 0 {
        "AN1/2"
    } else if pair == 1 {
        "PH3/4"
    } else if pair == 2 {
        "AS1/2"
    } else if pair == 3 {
        "A3/A4"
    } else if pair == 4 {
        "A5/A6"
    } else if pair == 5 {
        "A7/A8"
    } else {
        ""
    }
}

/// The row groups of `n` playback channels: one per stereo pair, labelled
/// with its output bus.
pub fn playback_row_groups(n: usize) -> (r: Vec<RowGroup>)
    ensures
        r@.len() == n / 2,
        forall|k: int|
            0 <= k < r@.len() ==> {
                let g = #[trigger] r@[k];
                &&& g.first_idx == 2 * k
                &&& g.count == 2
                &&& g.label@ == submix_label_spec(k)
                &&& g.color == TagColor::PlaybackBus
            },
{
    let mut groups: Vec<RowGroup> = Vec::new();
    let mut pair: usize = 0;
    while pair < n / 2
        invariant
            pair <= n / 2,
            groups@.len() == pair,
            forall|k: int|
                0 <= k < groups@.len() ==> {
                    let g = #[trigger] groups@[k];
                    &&& g.first_idx == 2 * k
                    &&& g.count == 2
                    &&& g.label@ == submix_label_spec(k)
                    &&& g.color == TagColor::PlaybackBus
                },
        decreases n / 2 - pair,
    {
        let label = String::from_str(submix_label(pair));
        groups.push(RowGroup { label, color: TagColor::PlaybackBus, first_idx: 2 * pair, count: 2 });
        pair = pair + 1;
    }
    groups
}

// ── Laws ─────────────────────────────────────────────────────────

/// The input groups cover every input once: with groups laid end to end
/// from input 0 as `input_row_groups` gives them, input `j` lies in
/// exactly the group `k` whose range contains it, and no other.
pub proof fn lemma_groups_partition_inputs(first: Seq<int>, count: Seq<int>, n: int, j: int, k: int, l: int)
    requires
        first.len() == count.len(),
        first.len() > 0,
        first[0] == 0,
        first.last() + count.last() == n,
        forall|i: int| 0 <= i < first.len() ==> #[trigger] count[i] >= 1,
        forall|i: int| #![trigger count[i]] 0 <= i < first.len() - 1 ==> first[i + 1] == first[i] + count[i],
        0 <= k < first.len(),
        0 <= l < first.len(),
        first[k] <= j < first[k] + count[k],
        first[l] <= j < first[l] + count[l],
    ensures
        k == l,
        0 <= j < n,
{
    lemma_firsts_increase(first, count, k, l);
    lemma_firsts_increase(first, count, l, k);
    lemma_firsts_increase(first, count, 0, k);
    lemma_firsts_increase(first, count, k, first.len() - 1);
    if k < l {
        lemma_firsts_increase(first, count, k + 1, l);
    }
    if l < k {
        lemma_firsts_increase(first, count, l + 1, k);
    }
}

/// Group starts grow along the list: group `b` starts no earlier than
/// group `a` ends, for `a < b`.
proof fn lemma_firsts_increase(first: Seq<int>, count: Seq<int>, a: int, b: int)
    requires
        first.len() == count.len(),
        forall|i: int| 0 <= i < first.len() ==> #[trigger] count[i] >= 1,
        forall|i: int| #![trigger count[i]] 0 <= i < first.len() - 1 ==> first[i + 1] == first[i] + count[i],
        0 <= a,
        b < first.len(),
    ensures
        a < b ==> first[a] + count[a] <= first[b],
        a <= b ==> first[a] <= first[b],
    decreases b - a,
{
    if a < b {
        lemma_firsts_increase(first, count, a, b - 1);
        assert(first[b] == first[b - 1] + count[b - 1]);
    }
}

} // verus!
