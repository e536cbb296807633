//! The activity log of the OSC remote control: the lines shown in the
//! interface's OSC panel, newest first and capped.
use vstd::prelude::*;

verus! {

/// Most lines the OSC activity log keeps.
pub const OSC_LOG_MAX: usize = 500;

/// The OSC activity log after `line` arrives: newest first, the oldest
/// dropped beyond [`OSC_LOG_MAX`] lines.
pub open spec fn log_after(log: Seq<String>, line: String) -> Seq<String> {
    let l = seq![line] + log;
    if l.len() > OSC_LOG_MAX {
        l.subrange(0, OSC_LOG_MAX as int)
    } else {
        l
    }
}

/// Records one line in the OSC activity log (see [`log_after`]).
pub fn push_osc_log(log: &mut Vec<String>, line: String)
    ensures
        final(log)@ == log_after(old(log)@, line),
{
    log.insert(0, line);
    log.truncate(OSC_LOG_MAX);
    assert(log@ =~= log_after(old(log)@, line));
}

// ── Laws ─────────────────────────────────────────────────────────

/// The OSC log never holds more than its cap, and the line just recorded
/// is the first.
pub proof fn lemma_osc_log_bounded(log: Seq<String>, line: String)
    requires
        log.len() <= OSC_LOG_MAX,
    ensures
        log_after(log, line).len() <= OSC_LOG_MAX,
        log_after(log, line)[0] == line,
        log.len() < OSC_LOG_MAX ==> log_after(log, line) == seq![line] + log,
{
}

} // verus!
