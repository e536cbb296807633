//! Decisions of the audio driver interface the sound-server plugin links
//! against: one streaming session per process, shared by every handle
//! opened in it (a playback and a capture stream use the same device
//! session) and released when the last handle closes; and the size of the
//! interleaved 24-bit buffers exchanged with it.
use vstd::prelude::*;

verus! {

/// Bytes per sample of the interleaved S24_LE buffers.
pub const BYTES_PER_SAMPLE: usize = 3;

/// The channel count of a buffer: 2 or 4, the requested count clamped.
pub open spec fn buffer_channels(channels: int) -> int {
    if channels < 2 {
        2
    } else if channels > 4 {
        4
    } else {
        channels
    }
}

/// The channel count used for a buffer of `channels` requested channels,
/// and the buffer's size in bytes for `frames` frames.
pub fn buffer_layout(frames: usize, channels: usize) -> (r: (usize, usize))
    requires
        frames * buffer_channels(channels as int) * BYTES_PER_SAMPLE <= usize::MAX,
    ensures
        r.0 == buffer_channels(channels as int),
        r.1 == frames * r.0 * BYTES_PER_SAMPLE,
{
    let ch: usize = if channels < 2 {
        2
    } else if channels > 4 {
        4
    } else {
        channels
    };
    assert(frames * ch <= frames * ch * 3) by (nonlinear_arith);
    (ch, frames * ch * BYTES_PER_SAMPLE)
}

/// What opening a handle does to the device.
#[derive(Debug, Clone, Copy, PartialEq, Eq, Structural)]
pub enum OpenAction {
    /// No session is running: open the device (and count the handle if
    /// that succeeds).
    OpenDevice,
    /// Share the running session.
    Share,
}

/// The process-wide session: whether the device is open, and how many
/// handles use it.
pub struct Session {
    pub device_open: bool,
    pub refs: usize,
}

/// The session (device open, handle count) after a handle is opened.
pub open spec fn after_open(s: (bool, int)) -> (bool, int) {
    (true, s.1 + 1)
}

/// The session after a handle is closed: the device is released with the
/// last handle.
pub open spec fn after_close(s: (bool, int)) -> (bool, int) {
    (s.0 && s.1 != 1, s.1 - 1)
}

/// The session after `n` handles are opened.
pub open spec fn after_opens(s: (bool, int), n: nat) -> (bool, int)
    decreases n,
{
    if n == 0 {
        s
    } else {
        after_open(after_opens(s, (n - 1) as nat))
    }
}

/// The session after `n` handles are closed.
pub open spec fn after_closes(s: (bool, int), n: nat) -> (bool, int)
    decreases n,
{
    if n == 0 {
        s
    } else {
        after_close(after_closes(s, (n - 1) as nat))
    }
}

impl Session {
    /// No session, no handles.
    pub fn new() -> (r: Self)
        ensures
            !r.device_open,
            r.refs == 0,
    {
        Session { device_open: false, refs: 0 }
    }

    /// A handle is being opened: what to do with the device.
    pub fn open_action(&self) -> (r: OpenAction)
        ensures
            r == (if self.device_open {
                OpenAction::Share
            } else {
                OpenAction::OpenDevice
            }),
    {
        if self.device_open {
            OpenAction::Share
        } else {
            OpenAction::OpenDevice
        }
    }

    /// A handle was opened (the device is open now): one more user.
    pub fn opened(&mut self)
        requires
            old(self).refs < usize::MAX,
        ensures
            (final(self).device_open, final(self).refs as int) == after_open((old(self).device_open, old(self).refs as int)),
    {
        self.device_open = true;
        self.refs = self.refs + 1;
    }

    /// A handle is closed. Gives whether it was the last one: then the
    /// session is stopped and the device released for other programs.
    pub fn closed(&mut self) -> (last: bool)
        requires
            old(self).refs > 0,
        ensures
            last == (old(self).refs == 1),
            (final(self).device_open, final(self).refs as int) == after_close((old(self).device_open, old(self).refs as int)),
    {
        let last = self.refs == 1;
        self.refs = self.refs - 1;
        if last {
            self.device_open = false;
        }
        last
    }
}

// ── Laws ─────────────────────────────────────────────────────────

/// The device stays open while any handle does: after `k` handles were
/// opened on a fresh session, closing `j` of them leaves `k - j` handles,
/// with the device open exactly while one remains.
pub proof fn lemma_released_with_last_handle(k: nat, j: nat)
    requires
        j <= k,
    ensures
        after_closes(after_opens((false, 0), k), j) == (j < k, k - j),
    decreases j,
{
    lemma_opens_count(k);
    if j > 0 {
        lemma_released_with_last_handle(k, (j - 1) as nat);
    }
}

/// Opening `k` handles on a fresh session opens the device (for `k > 0`)
/// and counts them.
proof fn lemma_opens_count(k: nat)
    ensures
        after_opens((false, 0), k) == (k > 0, k as int),
    decreases k,
{
    if k > 0 {
        lemma_opens_count((k - 1) as nat);
    }
}

} // verus!
