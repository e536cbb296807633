//! The shared auto-save of both interfaces. Each interface saves the
//! device state to the same file every few seconds and on exit; the device
//! has no readback for gains and volumes, so this file is how the two stay
//! in sync. Before saving, an interface re-applies the file if the other
//! one wrote it since its own last save; it skips a save that would write
//! what it wrote last; the mock device never saves (its model name would
//! make the real device refuse the file).
use vstd::prelude::*;

use crate::scene::{str_equal, written_by_other, written_by_other_spec};

verus! {

/// An interface's memory of its own last auto-save.
pub struct AutoSave {
    /// The JSON it last wrote, if any.
    pub last_saved_json: Option<String>,
}

/// The view of an optional string.
pub open spec fn opt_view(s: Option<String>) -> Option<Seq<char>> {
    match s {
        Some(x) => Some(x@),
        None => None,
    }
}

/// The view of an optional string slice.
pub open spec fn opt_str_view(s: Option<&str>) -> Option<Seq<char>> {
    match s {
        Some(x) => Some(x@),
        None => None,
    }
}

/// Whether a debounced save of `json` writes the file: only when it
/// differs from the last write.
pub open spec fn save_needed_spec(last: Option<Seq<char>>, json: Seq<char>) -> bool {
    last != Some(json)
}

impl AutoSave {
    /// Nothing saved yet.
    pub fn new() -> (r: Self)
        ensures
            r.last_saved_json is None,
    {
        AutoSave { last_saved_json: None }
    }

    /// Starts a save round: `false` (and the memory of the last save
    /// forgotten) on the mock device, which never saves.
    pub fn begin(&mut self, is_mock: bool) -> (proceed: bool)
        ensures
            proceed == !is_mock,
            is_mock ==> final(self).last_saved_json is None,
            !is_mock ==> opt_view(final(self).last_saved_json) == opt_view(old(self).last_saved_json),
    {
        if is_mock {
            self.last_saved_json = None;
            false
        } else {
            true
        }
    }

    /// Whether the file's content `on_disk` (None when absent) is the
    /// other interface's and must be applied before saving.
    pub fn should_reapply(&self, on_disk: Option<&str>) -> (r: bool)
        ensures
            r == written_by_other_spec(opt_view(self.last_saved_json), opt_str_view(on_disk)),
    {
        match &self.last_saved_json {
            Some(s) => written_by_other(Some(s.as_str()), on_disk),
            None => written_by_other(None, on_disk),
        }
    }

    /// Whether a debounced save writes `json`.
    pub fn should_save(&self, json: &str) -> (r: bool)
        ensures
            r == save_needed_spec(opt_view(self.last_saved_json), json@),
    {
        match &self.last_saved_json {
            Some(s) => !str_equal(s.as_str(), json),
            None => true,
        }
    }

    /// Records a successful save of `json`.
    pub fn saved(&mut self, json: String)
        ensures
            opt_view(final(self).last_saved_json) == Some(json@),
    {
        self.last_saved_json = Some(json);
    }
}

// ── Laws ─────────────────────────────────────────────────────────

/// After an interface saved `json`, the file holding that write is
/// neither re-applied as the other interface's nor written again; once
/// the other interface writes something else, it is re-applied; a missing
/// file is never re-applied.
pub proof fn lemma_own_save_is_settled(json: Seq<char>, other: Seq<char>, last: Option<Seq<char>>)
    ensures
        !written_by_other_spec(Some(json), Some(json)),
        !written_by_other_spec(last, None),
        !save_needed_spec(Some(json), json),
        other != json ==> written_by_other_spec(Some(json), Some(other)),
        other != json ==> save_needed_spec(Some(json), other),
{
}

} // verus!
