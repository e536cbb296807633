//! The strip-layout slots of the graphical interface's sidebar: each of
//! the six slots remembers a set of collapsed strips; clicking a slot
//! recalls its set and makes it the slot the next store writes to.
use vstd::prelude::*;

use crate::channel::ChannelId;

verus! {

/// Number of layout slots ("Layout 1" to "Layout 6").
pub const LAYOUT_SLOTS: usize = 6;

/// The layout slots and the one last clicked.
pub struct Layouts {
    /// Slot `n - 1` holds "Layout n": the collapsed strips stored there,
    /// if any.
    pub slots: Vec<Option<Vec<ChannelId>>>,
    /// The slot number (1-based) last clicked, the target of a store.
    pub active: Option<u8>,
}

/// The slots as sets of strips: slot `i` holds "Layout `i + 1`".
pub open spec fn slots_view(slots: Seq<Option<Vec<ChannelId>>>) -> Seq<Option<Seq<ChannelId>>> {
    slots.map_values(|o: Option<Vec<ChannelId>>| match o {
        Some(v) => Some(v@),
        None => None,
    })
}

/// The collapsed set after clicking "Layout `n`" with `collapsed` shown:
/// the slot's set when it exists and holds one, else `collapsed`.
pub open spec fn recalled(slots: Seq<Option<Seq<ChannelId>>>, n: int, collapsed: Seq<ChannelId>) -> Seq<ChannelId> {
    if 1 <= n <= slots.len() {
        match slots[n - 1] {
            Some(s) => s,
            None => collapsed,
        }
    } else {
        collapsed
    }
}

/// The slots after storing `set` as "Layout `n`".
pub open spec fn stored(slots: Seq<Option<Seq<ChannelId>>>, n: int, set: Seq<ChannelId>) -> Seq<Option<Seq<ChannelId>>> {
    slots.update(n - 1, Some(set))
}

/// A copy of a list of strips.
fn copy_ids(v: &Vec<ChannelId>) -> (r: Vec<ChannelId>)
    ensures
        r@ == v@,
{
    let mut out: Vec<ChannelId> = Vec::new();
    let mut i: usize = 0;
    while i < v.len()
        invariant
            i <= v@.len(),
            out@ == v@.subrange(0, i as int),
        decreases v@.len() - i,
    {
        out.push(v[i]);
        i = i + 1;
    }
    out
}

impl Layouts {
    /// Six empty slots, none clicked.
    pub fn new() -> (r: Self)
        ensures
            r.slots@.len() == LAYOUT_SLOTS,
            forall|i: int| 0 <= i < LAYOUT_SLOTS ==> r.slots@[i] is None,
            r.active is None,
    {
        let mut slots: Vec<Option<Vec<ChannelId>>> = Vec::new();
        let mut i: usize = 0;
        while i < LAYOUT_SLOTS
            invariant
                i <= LAYOUT_SLOTS,
                slots@.len() == i,
                forall|j: int| 0 <= j < i ==> slots@[j] is None,
            decreases LAYOUT_SLOTS - i,
        {
            slots.push(None);
            i = i + 1;
        }
        Layouts { slots, active: None }
    }

    /// Click on "Layout `n`": it becomes the active slot, and the strips it
    /// stores (if any) become the collapsed set.
    pub fn click(&mut self, n: u8, collapsed: &mut Vec<ChannelId>)
        requires
            n >= 1,
        ensures
            final(self).slots@ == old(self).slots@,
            final(self).active == Some(n),
            final(collapsed)@ == recalled(slots_view(old(self).slots@), n as int, old(collapsed)@),
    {
        self.active = Some(n);
        let k: usize = (n - 1) as usize;
        if k < self.slots.len() {
            match &self.slots[k] {
                Some(v) => {
                    *collapsed = copy_ids(v);
                },
                None => {},
            }
        }
    }

    /// Stores the collapsed set in the active slot; gives the slot number
    /// written (for saving it to its file), or `None` when no slot was
    /// clicked yet.
    pub fn store(&mut self, collapsed: &Vec<ChannelId>) -> (r: Option<u8>)
        requires
            old(self).active matches Some(n) ==> 1 <= n <= old(self).slots@.len(),
        ensures
            r == old(self).active,
            final(self).active == old(self).active,
            match old(self).active {
                Some(n) => slots_view(final(self).slots@) == stored(slots_view(old(self).slots@), n as int, collapsed@),
                None => final(self).slots@ == old(self).slots@,
            },
    {
        match self.active {
            Some(n) => {
                let k: usize = (n - 1) as usize;
                self.slots.set(k, Some(copy_ids(collapsed)));
                Some(n)
            },
            None => None,
        }
    }
}

// ── Laws ─────────────────────────────────────────────────────────

/// Storing a layout and clicking its slot again recalls exactly the
/// stored set, whatever is collapsed in between; clicking any other slot
/// recalls what it held before the store.
pub proof fn lemma_store_then_click_recalls(
    slots: Seq<Option<Seq<ChannelId>>>,
    n: int,
    set: Seq<ChannelId>,
    m: int,
    shown: Seq<ChannelId>,
)
    requires
        1 <= n <= slots.len(),
    ensures
        recalled(stored(slots, n, set), n, shown) == set,
        m != n ==> recalled(stored(slots, n, set), m, shown) == recalled(slots, m, shown),
{
}

} // verus!
