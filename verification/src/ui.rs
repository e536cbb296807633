//! Interface state that is not device state: the page shown, strip
//! flyouts, and the sidebar's collapsible panels and two-way toggles.
use vstd::prelude::*;

use crate::channel::ChannelId;

verus! {

/// Which top-level page is showing.
#[derive(Debug, Clone, Copy, PartialEq, Eq, Structural)]
pub enum View {
    Quick,
    Mixer,
    Matrix,
}

/// The page Tab switches to: Quick, Mixer, Matrix, and round again.
pub open spec fn next_view_spec(v: View) -> View {
    match v {
        View::Quick => View::Mixer,
        View::Mixer => View::Matrix,
        View::Matrix => View::Quick,
    }
}

/// The page after `v` in the Tab cycle.
pub fn next_view(v: View) -> (r: View)
    ensures
        r == next_view_spec(v),
{
    match v {
        View::Quick => View::Mixer,
        View::Mixer => View::Matrix,
        View::Matrix => View::Quick,
    }
}

/// Which flyout panel of a strip is open.
#[derive(Debug, Clone, Copy, PartialEq, Eq, Structural)]
pub enum FlyoutKind {
    Route,
    Settings,
    Eq,
    Trim,
}

/// The flyout open after clicking `kind`'s button on strip `cid`: clicking
/// the open flyout's own button closes it, any other opens that one (only
/// one flyout is open at a time).
pub open spec fn flyout_after_click(
    open: Option<(ChannelId, FlyoutKind)>,
    cid: ChannelId,
    kind: FlyoutKind,
) -> Option<(ChannelId, FlyoutKind)> {
    if open == Some((cid, kind)) {
        None
    } else {
        Some((cid, kind))
    }
}

/// The flyout open after a click on `kind`'s button of strip `cid`.
pub fn toggle_flyout(open: Option<(ChannelId, FlyoutKind)>, cid: ChannelId, kind: FlyoutKind) -> (r:
    Option<(ChannelId, FlyoutKind)>)
    ensures
        r == flyout_after_click(open, cid, kind),
{
    match open {
        Some((c, k)) => {
            if c == cid && k == kind {
                None
            } else {
                Some((cid, kind))
            }
        },
        None => Some((cid, kind)),
    }
}

/// A collapsible sidebar panel.
#[derive(Debug, Clone, Copy, PartialEq, Eq, Hash, Structural)]
pub enum Panel {
    Options,
    Snapshots,
    Groups,
    Layout,
}

/// A two-way segmented toggle of the sidebar.
#[derive(Debug, Clone, Copy, PartialEq, Eq, Hash, Structural)]
pub enum SkeletonPair {
    /// "names" / "trim".
    Show,
    /// "2 row" / "2 row in".
    RowMode,
    /// "excl. solo" / "live".
    SoloMode,
    /// "all" / "submix", in the Mixer Layout panel.
    LayoutScope,
}

/// Which sidebar panels are expanded (all by default).
#[derive(Debug, Clone, Copy, PartialEq, Eq, Structural)]
pub struct PanelsOpen {
    pub options: bool,
    pub snapshots: bool,
    pub groups: bool,
    pub layout: bool,
}

impl Default for PanelsOpen {
    fn default() -> (r: Self)
        ensures
            r == (PanelsOpen { options: true, snapshots: true, groups: true, layout: true }),
    {
        PanelsOpen { options: true, snapshots: true, groups: true, layout: true }
    }
}

impl PanelsOpen {
    /// Whether `panel` is expanded.
    pub open spec fn is_open(self, panel: Panel) -> bool {
        match panel {
            Panel::Options => self.options,
            Panel::Snapshots => self.snapshots,
            Panel::Groups => self.groups,
            Panel::Layout => self.layout,
        }
    }

    /// The panels with `panel` collapsed or expanded.
    pub open spec fn toggled(self, panel: Panel) -> PanelsOpen {
        match panel {
            Panel::Options => PanelsOpen { options: !self.options, ..self },
            Panel::Snapshots => PanelsOpen { snapshots: !self.snapshots, ..self },
            Panel::Groups => PanelsOpen { groups: !self.groups, ..self },
            Panel::Layout => PanelsOpen { layout: !self.layout, ..self },
        }
    }

    /// Collapses or expands `panel`, leaving the others as they are.
    pub fn toggle(&mut self, panel: Panel)
        ensures
            *final(self) == old(self).toggled(panel),
    {
        match panel {
            Panel::Options => self.options = !self.options,
            Panel::Snapshots => self.snapshots = !self.snapshots,
            Panel::Groups => self.groups = !self.groups,
            Panel::Layout => self.layout = !self.layout,
        }
    }
}

/// State of every two-way toggle: `true` = first option highlighted (the
/// default).
#[derive(Debug, Clone, Copy, PartialEq, Eq, Structural)]
pub struct SkeletonPairs {
    pub show_first: bool,
    pub row_mode_first: bool,
    pub solo_mode_first: bool,
    pub layout_scope_first: bool,
}

impl Default for SkeletonPairs {
    fn default() -> (r: Self)
        ensures
            r == (SkeletonPairs {
                show_first: true,
                row_mode_first: true,
                solo_mode_first: true,
                layout_scope_first: true,
            }),
    {
        SkeletonPairs {
            show_first: true,
            row_mode_first: true,
            solo_mode_first: true,
            layout_scope_first: true,
        }
    }
}

impl SkeletonPairs {
    /// Whether toggle `pair` shows its first option.
    pub open spec fn first(self, pair: SkeletonPair) -> bool {
        match pair {
            SkeletonPair::Show => self.show_first,
            SkeletonPair::RowMode => self.row_mode_first,
            SkeletonPair::SoloMode => self.solo_mode_first,
            SkeletonPair::LayoutScope => self.layout_scope_first,
        }
    }

    /// The toggles with `pair` flipped.
    pub open spec fn toggled(self, pair: SkeletonPair) -> SkeletonPairs {
        match pair {
            SkeletonPair::Show => SkeletonPairs { show_first: !self.show_first, ..self },
            SkeletonPair::RowMode => SkeletonPairs { row_mode_first: !self.row_mode_first, ..self },
            SkeletonPair::SoloMode => SkeletonPairs { solo_mode_first: !self.solo_mode_first, ..self },
            SkeletonPair::LayoutScope => SkeletonPairs {
                layout_scope_first: !self.layout_scope_first,
                ..self
            },
        }
    }

    /// Flips toggle `pair`, leaving the others as they are.
    pub fn toggle(&mut self, pair: SkeletonPair)
        ensures
            *final(self) == old(self).toggled(pair),
    {
        match pair {
            SkeletonPair::Show => self.show_first = !self.show_first,
            SkeletonPair::RowMode => self.row_mode_first = !self.row_mode_first,
            SkeletonPair::SoloMode => self.solo_mode_first = !self.solo_mode_first,
            SkeletonPair::LayoutScope => self.layout_scope_first = !self.layout_scope_first,
        }
    }
}

// ── Laws ─────────────────────────────────────────────────────────

/// Toggling a panel flips exactly that panel, and toggling it twice gives
/// the panels back unchanged.
pub proof fn lemma_panel_toggle_twice(a: PanelsOpen, panel: Panel, other: Panel)
    ensures
        a.toggled(panel).is_open(panel) == !a.is_open(panel),
        other != panel ==> a.toggled(panel).is_open(other) == a.is_open(other),
        a.toggled(panel).toggled(panel) == a,
{
}

/// Flipping a two-way toggle flips exactly that toggle, and flipping it
/// twice gives the toggles back unchanged.
pub proof fn lemma_skeleton_toggle_twice(a: SkeletonPairs, pair: SkeletonPair, other: SkeletonPair)
    ensures
        a.toggled(pair).first(pair) == !a.first(pair),
        other != pair ==> a.toggled(pair).first(other) == a.first(other),
        a.toggled(pair).toggled(pair) == a,
{
}

/// Tab visits every page: three presses come back to the page shown, and
/// no press stays on it.
pub proof fn lemma_tab_cycles_all_views(v: View)
    ensures
        next_view_spec(next_view_spec(next_view_spec(v))) == v,
        next_view_spec(v) != v,
        next_view_spec(next_view_spec(v)) != v,
{
}

/// Clicking the same flyout button twice closes what the first click
/// opened, whatever was open before.
pub proof fn lemma_flyout_click_twice_closes(open: Option<(ChannelId, FlyoutKind)>, cid: ChannelId, kind: FlyoutKind)
    ensures
        flyout_after_click(flyout_after_click(open, cid, kind), cid, kind) == (if open == Some((cid, kind)) {
            Some((cid, kind))
        } else {
            None::<(ChannelId, FlyoutKind)>
        }),
{
}

} // verus!
