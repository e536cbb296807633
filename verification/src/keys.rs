//! The key handling of the terminal interface: the cursor (section,
//! channel, selected submix, EQ editor row) moves on each key press, and
//! each key names the device action the interface then performs. The
//! integer steps of those actions (pan, preamp gain, sensitivity, sample
//! rate, the loopback target) are computed here too; volume, pitch and
//! width steps are dB/percent values the caller computes.
use vstd::prelude::*;

use crate::channel::Sensitivity;
use crate::eq_edit::EQ_ROW_COUNT;
use crate::items::PairItem;
use vstd::arithmetic::div_mod::{lemma_mod_add_multiples_vanish, lemma_mod_self_0, lemma_small_mod};

verus! {

/// A key press, as far as the interface tells keys apart.
#[derive(Debug, Clone, Copy, PartialEq, Eq, Structural)]
pub enum Key {
    Esc,
    Up,
    Down,
    Left,
    Right,
    PageUp,
    PageDown,
    Tab,
    Char(char),
    Other,
}

/// What the interface does after a key press, besides moving the cursor.
/// `section` and `channel` are the cursor's; the caller resolves them
/// through the section's pair-grouped item list.
#[derive(Debug, Clone, Copy, PartialEq, Eq, Structural)]
pub enum KeyAction {
    Nothing,
    /// Leave, after a final save.
    Quit,
    /// One step of the EQ parameter on row `row` of input `input`'s EQ.
    AdjustEq { input: usize, row: usize, dir: i32, coarse: bool },
    /// Step the cursor channel's fader into `output`: 1 dB coarse, else
    /// 0.1 dB, between silence and +6 dB.
    StepVolume { section: usize, channel: usize, output: usize, up: bool, coarse: bool },
    ToggleMute { section: usize, channel: usize },
    ToggleSolo { section: usize, channel: usize },
    /// The cursor's input (section 0 only).
    TogglePhantom { channel: usize },
    TogglePad { channel: usize },
    GainUp { channel: usize },
    GainDown { channel: usize },
    ToggleSensitivity { channel: usize },
    /// Nudge the pan into `output` by 5 (sections 0 and 1 only).
    StepPan { section: usize, channel: usize, output: usize, up: bool },
    /// Varispeed pitch: 1 % coarse, else 0.1 %, within -5..+5 %.
    StepPitch { up: bool, coarse: bool },
    /// Stereo width by 0.05 within -1..+1.
    StepWidth { up: bool },
    ToggleMsProc,
    ToggleAn12,
    ToggleInputLink,
    /// Open the EQ editor if the cursor's input has an EQ (see
    /// [`TuiCursor::open_eq`]).
    OpenEq { channel: usize },
    /// Toggle the loopback of the cursor's output (section 2 only).
    ToggleLoopback { channel: usize },
    /// Toggle the stereo link of the cursor's pair; afterwards the
    /// cursor is kept in the changed list (see
    /// [`TuiCursor::clamp_channel`]).
    ToggleLink { section: usize, channel: usize },
    /// Switch to the next sample rate (see [`next_sample_rate`]).
    NextSampleRate,
}

/// The cursor of the terminal interface.
#[derive(Debug, Clone, Copy)]
pub struct TuiCursor {
    /// Whether the matrix view is shown instead of the strips.
    pub show_matrix: bool,
    /// 0 = inputs, 1 = playbacks, 2 = outputs.
    pub section: usize,
    /// Position in the section's item list.
    pub channel: usize,
    /// The selected submix pair the input and playback rows show.
    pub sel_out: usize,
    /// The EQ editor, when open: the input and the selected row.
    pub eq_view: Option<(usize, usize)>,
}

/// The action of a key while the EQ editor of `input` is open on `row`.
pub open spec fn eq_key_action(input: usize, row: usize, key: Key) -> KeyAction {
    match key {
        Key::Left => KeyAction::AdjustEq { input, row, dir: -1i32, coarse: false },
        Key::Right => KeyAction::AdjustEq { input, row, dir: 1i32, coarse: false },
        Key::PageDown => KeyAction::AdjustEq { input, row, dir: -1i32, coarse: true },
        Key::PageUp => KeyAction::AdjustEq { input, row, dir: 1i32, coarse: true },
        _ => KeyAction::Nothing,
    }
}

/// The EQ editor after a key while open on `row` of `input`: Esc closes
/// it, Up and Down move the row within the editor's rows.
pub open spec fn eq_view_after(input: usize, row: usize, key: Key) -> Option<(usize, usize)> {
    match key {
        Key::Esc => None,
        Key::Up => Some((input, if row > 0 { (row - 1) as usize } else { 0 })),
        Key::Down => Some(
            (input, if row + 1 < EQ_ROW_COUNT { (row + 1) as usize } else { (EQ_ROW_COUNT - 1) as usize }),
        ),
        _ => Some((input, row)),
    }
}

/// The output a volume key steps into: an output strip's own master, else
/// the selected submix.
pub open spec fn volume_output(c: TuiCursor) -> usize {
    if c.section == 2 {
        c.channel
    } else {
        c.sel_out
    }
}

/// The action of a key outside the EQ editor.
pub open spec fn key_action(c: TuiCursor, key: Key) -> KeyAction {
    let (s, ch) = (c.section, c.channel);
    match key {
        Key::Esc => KeyAction::Quit,
        Key::PageUp => KeyAction::StepVolume { section: s, channel: ch, output: volume_output(c), up: true, coarse: false },
        Key::PageDown => KeyAction::StepVolume { section: s, channel: ch, output: volume_output(c), up: false, coarse: false },
        Key::Char(k) => {
            if k == 'q' {
                KeyAction::Quit
            } else if k == '+' || k == '=' {
                KeyAction::StepVolume { section: s, channel: ch, output: volume_output(c), up: true, coarse: true }
            } else if k == '-' {
                KeyAction::StepVolume { section: s, channel: ch, output: volume_output(c), up: false, coarse: true }
            } else if k == 'm' {
                KeyAction::ToggleMute { section: s, channel: ch }
            } else if k == 's' {
                KeyAction::ToggleSolo { section: s, channel: ch }
            } else if s == 0 && k == 'p' {
                KeyAction::TogglePhantom { channel: ch }
            } else if s == 0 && k == 'P' {
                KeyAction::TogglePad { channel: ch }
            } else if s == 0 && (k == ']' || k == 'g') {
                KeyAction::GainUp { channel: ch }
            } else if s == 0 && (k == '[' || k == 'd') {
                KeyAction::GainDown { channel: ch }
            } else if s == 0 && k == 'v' {
                KeyAction::ToggleSensitivity { channel: ch }
            } else if s <= 1 && k == ',' {
                KeyAction::StepPan { section: s, channel: ch, output: c.sel_out, up: false }
            } else if s <= 1 && k == '.' {
                KeyAction::StepPan { section: s, channel: ch, output: c.sel_out, up: true }
            } else if k == 'y' {
                KeyAction::StepPitch { up: true, coarse: false }
            } else if k == 'h' {
                KeyAction::StepPitch { up: false, coarse: false }
            } else if k == 'Y' {
                KeyAction::StepPitch { up: true, coarse: true }
            } else if k == 'H' {
                KeyAction::StepPitch { up: false, coarse: true }
            } else if k == 'u' {
                KeyAction::StepWidth { up: true }
            } else if k == 'j' {
                KeyAction::StepWidth { up: false }
            } else if k == 'x' {
                KeyAction::ToggleMsProc
            } else if k == 'a' {
                KeyAction::ToggleAn12
            } else if k == 'k' {
                KeyAction::ToggleInputLink
            } else if s == 0 && k == 'e' {
                KeyAction::OpenEq { channel: ch }
            } else if s == 2 && k == 'l' {
                KeyAction::ToggleLoopback { channel: ch }
            } else if k == 't' {
                KeyAction::ToggleLink { section: s, channel: ch }
            } else if k == 'r' {
                KeyAction::NextSampleRate
            } else {
                KeyAction::Nothing
            }
        },
        _ => KeyAction::Nothing,
    }
}

/// The cursor after a key outside the EQ editor, with `section_len` items
/// in the current section and `pairs` submix pairs: Tab switches the
/// matrix view, Left and Right move within the section, Up and Down move
/// between the three sections (back to their first item), `o` and `O`
/// cycle the selected submix forwards and backwards.
pub open spec fn cursor_after(c: TuiCursor, key: Key, section_len: usize, pairs: usize) -> TuiCursor {
    match key {
        Key::Tab => TuiCursor { show_matrix: !c.show_matrix, ..c },
        Key::Left => if c.channel > 0 {
            TuiCursor { channel: (c.channel - 1) as usize, ..c }
        } else {
            c
        },
        Key::Right => if c.channel + 1 < section_len {
            TuiCursor { channel: (c.channel + 1) as usize, ..c }
        } else {
            c
        },
        Key::Up => if c.section > 0 {
            TuiCursor { section: (c.section - 1) as usize, channel: 0, ..c }
        } else {
            c
        },
        Key::Down => if c.section < 2 {
            TuiCursor { section: (c.section + 1) as usize, channel: 0, ..c }
        } else {
            c
        },
        Key::Char(k) => if k == 'o' {
            TuiCursor { sel_out: ((c.sel_out + 1) % (pairs as int)) as usize, ..c }
        } else if k == 'O' {
            TuiCursor { sel_out: ((c.sel_out + pairs - 1) % (pairs as int)) as usize, ..c }
        } else {
            c
        },
        _ => c,
    }
}

/// Whether `key` is the character `k`.
pub open spec fn is_char(key: Key, k: char) -> bool {
    key == Key::Char(k)
}

impl TuiCursor {
    /// The cursor at start: strips view, first input, first submix, no EQ
    /// editor.
    pub fn new() -> (r: Self)
        ensures
            r == (TuiCursor { show_matrix: false, section: 0, channel: 0, sel_out: 0, eq_view: None }),
    {
        TuiCursor { show_matrix: false, section: 0, channel: 0, sel_out: 0, eq_view: None }
    }

    /// Handles one key press (`section_len` items in the current section,
    /// `pairs` submix pairs) and names the action to perform.
    pub fn on_key(&mut self, key: Key, section_len: usize, pairs: usize) -> (r: KeyAction)
        requires
            (is_char(key, 'o') || is_char(key, 'O')) && old(self).eq_view is None ==> old(self).sel_out
                < pairs,
        ensures
            match old(self).eq_view {
                Some((input, row)) => {
                    &&& r == eq_key_action(input, row, key)
                    &&& *final(self) == TuiCursor { eq_view: eq_view_after(input, row, key), ..*old(self) }
                },
                None => {
                    &&& r == key_action(*old(self), key)
                    &&& *final(self) == cursor_after(*old(self), key, section_len, pairs)
                },
            },
    {
        match self.eq_view {
            Some((input, row)) => {
                let (a, v) = match key {
                    Key::Esc => (KeyAction::Nothing, None),
                    Key::Up => (KeyAction::Nothing, Some((input, if row > 0 { row - 1 } else { 0 }))),
                    Key::Down => (
                        KeyAction::Nothing,
                        Some((input, if row < EQ_ROW_COUNT - 1 { row + 1 } else { EQ_ROW_COUNT - 1 })),
                    ),
                    Key::Left => (KeyAction::AdjustEq { input, row, dir: -1i32, coarse: false }, Some((input, row))),
                    Key::Right => (KeyAction::AdjustEq { input, row, dir: 1i32, coarse: false }, Some((input, row))),
                    Key::PageDown => (KeyAction::AdjustEq { input, row, dir: -1i32, coarse: true }, Some((input, row))),
                    Key::PageUp => (KeyAction::AdjustEq { input, row, dir: 1i32, coarse: true }, Some((input, row))),
                    _ => (KeyAction::Nothing, Some((input, row))),
                };
                self.eq_view = v;
                a
            },
            None => {
                self.navigate(key, section_len, pairs);
                Self::action(self.section, self.channel, self.sel_out, key)
            },
        }
    }

    /// Moves the cursor for a key outside the EQ editor.
    fn navigate(&mut self, key: Key, section_len: usize, pairs: usize)
        requires
            (is_char(key, 'o') || is_char(key, 'O')) ==> old(self).sel_out < pairs,
        ensures
            *final(self) == cursor_after(*old(self), key, section_len, pairs),
            is_char(key, 'o') || is_char(key, 'O') || (key != Key::Left && key != Key::Right && key
                != Key::Up && key != Key::Down && key != Key::Tab) ==> final(self).section == old(
                self,
            ).section && final(self).channel == old(self).channel,
    {
        match key {
            Key::Tab => {
                self.show_matrix = !self.show_matrix;
            },
            Key::Left => {
                if self.channel > 0 {
                    self.channel = self.channel - 1;
                }
            },
            Key::Right => {
                if self.channel < section_len && self.channel + 1 < section_len {
                    self.channel = self.channel + 1;
                }
            },
            Key::Up => {
                if self.section > 0 {
                    self.section = self.section - 1;
                    self.channel = 0;
                }
            },
            Key::Down => {
                if self.section < 2 {
                    self.section = self.section + 1;
                    self.channel = 0;
                }
            },
            Key::Char(k) => {
                proof {
                    if k == 'o' || k == 'O' {
                        lemma_cycle_mod(self.sel_out as int, pairs as int);
                    }
                }
                if k == 'o' {
                    self.sel_out = if self.sel_out + 1 < pairs {
                        self.sel_out + 1
                    } else {
                        0
                    };
                } else if k == 'O' {
                    self.sel_out = if self.sel_out > 0 {
                        self.sel_out - 1
                    } else {
                        pairs - 1
                    };
                }
            },
            _ => {},
        }
    }

    /// The action of a key outside the EQ editor, for a cursor on
    /// `section`/`channel` with submix `sel_out` selected.
    fn action(section: usize, channel: usize, sel_out: usize, key: Key) -> (r: KeyAction)
        ensures
            r == key_action(
                TuiCursor { show_matrix: false, section, channel, sel_out, eq_view: None },
                key,
            ),
    {
        let (s, ch) = (section, channel);
        let output = if s == 2 {
            ch
        } else {
            sel_out
        };
        match key {
            Key::Esc => KeyAction::Quit,
            Key::PageUp => KeyAction::StepVolume { section: s, channel: ch, output, up: true, coarse: false },
            Key::PageDown => KeyAction::StepVolume { section: s, channel: ch, output, up: false, coarse: false },
            Key::Char(k) => {
                if k == 'q' {
                    KeyAction::Quit
                } else if k == '+' || k == '=' {
                    KeyAction::StepVolume { section: s, channel: ch, output, up: true, coarse: true }
                } else if k == '-' {
                    KeyAction::StepVolume { section: s, channel: ch, output, up: false, coarse: true }
                } else if k == 'm' {
                    KeyAction::ToggleMute { section: s, channel: ch }
                } else if k == 's' {
                    KeyAction::ToggleSolo { section: s, channel: ch }
                } else if s == 0 && k == 'p' {
                    KeyAction::TogglePhantom { channel: ch }
                } else if s == 0 && k == 'P' {
                    KeyAction::TogglePad { channel: ch }
                } else if s == 0 && (k == ']' || k == 'g') {
                    KeyAction::GainUp { channel: ch }
                } else if s == 0 && (k == '[' || k == 'd') {
                    KeyAction::GainDown { channel: ch }
                } else if s == 0 && k == 'v' {
                    KeyAction::ToggleSensitivity { channel: ch }
                } else if s <= 1 && k == ',' {
                    KeyAction::StepPan { section: s, channel: ch, output: sel_out, up: false }
                } else if s <= 1 && k == '.' {
                    KeyAction::StepPan { section: s, channel: ch, output: sel_out, up: true }
                } else if k == 'y' {
                    KeyAction::StepPitch { up: true, coarse: false }
                } else if k == 'h' {
                    KeyAction::StepPitch { up: false, coarse: false }
                } else if k == 'Y' {
                    KeyAction::StepPitch { up: true, coarse: true }
                } else if k == 'H' {
                    KeyAction::StepPitch { up: false, coarse: true }
                } else if k == 'u' {
                    KeyAction::StepWidth { up: true }
                } else if k == 'j' {
                    KeyAction::StepWidth { up: false }
                } else if k == 'x' {
                    KeyAction::ToggleMsProc
                } else if k == 'a' {
                    KeyAction::ToggleAn12
                } else if k == 'k' {
                    KeyAction::ToggleInputLink
                } else if s == 0 && k == 'e' {
                    KeyAction::OpenEq { channel: ch }
                } else if s == 2 && k == 'l' {
                    KeyAction::ToggleLoopback { channel: ch }
                } else if k == 't' {
                    KeyAction::ToggleLink { section: s, channel: ch }
                } else if k == 'r' {
                    KeyAction::NextSampleRate
                } else {
                    KeyAction::Nothing
                }
            },
            _ => KeyAction::Nothing,
        }
    }

    /// Opens the EQ editor on its first row for input `input`, if that
    /// input has a hardware EQ (AN1-AN4).
    pub fn open_eq(&mut self, input: usize)
        ensures
            *final(self) == (if input < 4 {
                TuiCursor { eq_view: Some((input, 0)), ..*old(self) }
            } else {
                *old(self)
            }),
    {
        if input < 4 {
            self.eq_view = Some((input, 0));
        }
    }

    /// Keeps the cursor within a section list that now has `len` items
    /// (after a link change split or merged a pair).
    pub fn clamp_channel(&mut self, len: usize)
        ensures
            *final(self) == (if old(self).channel >= len {
                TuiCursor { channel: if len > 0 { (len - 1) as usize } else { 0 }, ..*old(self) }
            } else {
                *old(self)
            }),
    {
        if self.channel >= len {
            self.channel = if len > 0 {
                len - 1
            } else {
                0
            };
        }
    }
}

/// A pan nudged by 5 towards the right (`up`) or the left, within
/// -100..+100.
pub fn pan_step(pan: i8, up: bool) -> (r: i8)
    requires
        up ==> pan <= 122,
        !up ==> pan >= -123,
    ensures
        up ==> r == (if pan + 5 > 100 { 100 } else { pan + 5 }),
        !up ==> r == (if pan - 5 < -100 { -100 } else { pan - 5 }),
{
    if up {
        let p = pan + 5;
        if p > 100 {
            100
        } else {
            p
        }
    } else {
        let p = pan - 5;
        if p < -100 {
            -100
        } else {
            p
        }
    }
}

/// The preamp gain one dB up: `gain` (0 when unknown) plus one, up to the
/// input's maximum; `None` (no write) for an input without gain control.
pub fn gain_step_up(gain: Option<u32>, gain_max: Option<u32>) -> (r: Option<u32>)
    ensures
        match gain_max {
            Some(m) => {
                let g = match gain {
                    Some(g) => g as int,
                    None => 0,
                };
                r == Some((if g + 1 < m { g + 1 } else { m as int }) as u32)
            },
            None => r is None,
        },
{
    match gain_max {
        Some(m) => {
            let g = match gain {
                Some(g) => g,
                None => 0,
            };
            if g < m && g + 1 < m {
                Some(g + 1)
            } else {
                Some(m)
            }
        },
        None => None,
    }
}

/// The preamp gain one dB down, not below 0; `None` (no write) for an
/// input without gain control.
pub fn gain_step_down(gain: Option<u32>, gain_max: Option<u32>) -> (r: Option<u32>)
    ensures
        match gain_max {
            Some(_) => {
                let g = match gain {
                    Some(g) => g as int,
                    None => 0,
                };
                r == Some((if g > 0 { g - 1 } else { 0 }) as u32)
            },
            None => r is None,
        },
{
    match gain_max {
        Some(_) => {
            let g = match gain {
                Some(g) => g,
                None => 0,
            };
            Some(if g > 0 {
                g - 1
            } else {
                0
            })
        },
        None => None,
    }
}

/// The other input sensitivity.
pub fn toggle_sensitivity(s: Sensitivity) -> (r: Sensitivity)
    ensures
        r != s,
{
    match s {
        Sensitivity::Plus4dBu => Sensitivity::Minus10dBV,
        Sensitivity::Minus10dBV => Sensitivity::Plus4dBu,
    }
}

/// The sample rate after `cur` in the cycle 44.1, 48, 96, 192 kHz; any
/// other rate goes to 44.1 kHz.
pub open spec fn next_rate_spec(cur: u32) -> u32 {
    if cur == 44100 {
        48000
    } else if cur == 48000 {
        96000
    } else if cur == 96000 {
        192000
    } else {
        44100
    }
}

/// The next sample rate (see [`next_rate_spec`]).
pub fn next_sample_rate(cur: u32) -> (r: u32)
    ensures
        r == next_rate_spec(cur),
{
    if cur == 44100 {
        48000
    } else if cur == 48000 {
        96000
    } else if cur == 96000 {
        192000
    } else {
        44100
    }
}

/// The loopback target of an output item: the submix pair whose flag is
/// written, and the output channel whose flag is read.
pub fn loopback_target(item: PairItem) -> (r: (usize, usize))
    requires
        item matches PairItem::Linked(p) ==> 2 * p <= usize::MAX,
    ensures
        item matches PairItem::Linked(p) ==> r == (p, (2 * p) as usize),
        item matches PairItem::Single(c) ==> r == (c / 2, c),
{
    match item {
        PairItem::Linked(p) => (p, p * 2),
        PairItem::Single(c) => (c / 2, c),
    }
}

// ── Laws ─────────────────────────────────────────────────────────

/// Key presses keep the cursor valid: the section stays one of the
/// three, Left and Right keep the channel inside the section's list, the
/// selected submix stays a submix, and the EQ editor's row stays a row.
pub proof fn lemma_keys_keep_cursor_valid(c: TuiCursor, key: Key, section_len: usize, pairs: usize, input: usize, row: usize)
    requires
        c.section <= 2,
        c.channel < section_len,
        c.sel_out < pairs,
        row < EQ_ROW_COUNT,
    ensures
        cursor_after(c, key, section_len, pairs).section <= 2,
        key == Key::Left || key == Key::Right ==> cursor_after(c, key, section_len, pairs).channel
            < section_len,
        cursor_after(c, key, section_len, pairs).sel_out < pairs,
        eq_view_after(input, row, key) matches Some((i, r)) ==> i == input && r < EQ_ROW_COUNT,
{
}

/// `o` then `O` (and `O` then `o`) come back to the submix selected
/// before.
pub proof fn lemma_submix_cycle_undoes(c: TuiCursor, section_len: usize, pairs: usize)
    requires
        c.sel_out < pairs,
    ensures
        cursor_after(cursor_after(c, Key::Char('o'), section_len, pairs), Key::Char('O'), section_len, pairs)
            == c,
        cursor_after(cursor_after(c, Key::Char('O'), section_len, pairs), Key::Char('o'), section_len, pairs)
            == c,
{
    let n = pairs as int;
    let s = c.sel_out as int;
    lemma_cycle_mod(s, n);
    lemma_cycle_mod((s + 1) % n, n);
    lemma_cycle_mod((s + n - 1) % n, n);
}

/// Stepping a position in `0..n` forwards or backwards, wrapping.
proof fn lemma_cycle_mod(s: int, n: int)
    requires
        0 <= s < n,
    ensures
        (s + 1) % n == (if s + 1 < n { s + 1 } else { 0 }),
        (s + n - 1) % n == (if s > 0 { s - 1 } else { n - 1 }),
{
    if s + 1 < n {
        lemma_small_mod((s + 1) as nat, n as nat);
    } else {
        lemma_mod_self_0(n);
    }
    if s > 0 {
        lemma_mod_add_multiples_vanish(s - 1, n);
        lemma_small_mod((s - 1) as nat, n as nat);
    } else {
        lemma_small_mod((n - 1) as nat, n as nat);
    }
}

/// Four presses of `r` from a supported rate come back to it.
pub proof fn lemma_sample_rate_cycle(cur: u32)
    requires
        cur == 44100 || cur == 48000 || cur == 96000 || cur == 192000,
    ensures
        next_rate_spec(next_rate_spec(next_rate_spec(next_rate_spec(cur)))) == cur,
{
}

/// The volume keys step the cursor channel's fader into the output it
/// shows (an output strip's own master, else the selected submix): `+`
/// and `=` one coarse step (1 dB) up, `-` one coarse step down, PageUp
/// and PageDown one fine step (0.1 dB) up and down. `+` and `-` are
/// opposite steps of the same fader, as are PageUp and PageDown.
pub proof fn lemma_volume_keys_step_the_fader(c: TuiCursor)
    ensures
        ({
            let out = if c.section == 2 {
                c.channel
            } else {
                c.sel_out
            };
            &&& key_action(c, Key::Char('-')) == (KeyAction::StepVolume {
                section: c.section,
                channel: c.channel,
                output: out,
                up: false,
                coarse: true,
            })
            &&& key_action(c, Key::Char('+')) == (KeyAction::StepVolume {
                section: c.section,
                channel: c.channel,
                output: out,
                up: true,
                coarse: true,
            })
            &&& key_action(c, Key::Char('=')) == key_action(c, Key::Char('+'))
            &&& key_action(c, Key::PageUp) == (KeyAction::StepVolume {
                section: c.section,
                channel: c.channel,
                output: out,
                up: true,
                coarse: false,
            })
            &&& key_action(c, Key::PageDown) == (KeyAction::StepVolume {
                section: c.section,
                channel: c.channel,
                output: out,
                up: false,
                coarse: false,
            })
        }),
{
}

/// The other paired keys are opposite steps: `.` nudges the pan into
/// the selected submix right and `,` left (inputs and playbacks), `]` or
/// `g` raise and `[` or `d` lower an input's preamp gain, `y` and `h`
/// step the pitch 0.1 % up and down, `Y` and `H` 1 % up and down, `u`
/// and `j` the width up and down.
pub proof fn lemma_paired_keys_step_opposite_ways(c: TuiCursor)
    ensures
        c.section <= 1 ==> key_action(c, Key::Char('.')) == (KeyAction::StepPan {
            section: c.section,
            channel: c.channel,
            output: c.sel_out,
            up: true,
        }) && key_action(c, Key::Char(',')) == (KeyAction::StepPan {
            section: c.section,
            channel: c.channel,
            output: c.sel_out,
            up: false,
        }),
        c.section == 0 ==> key_action(c, Key::Char(']')) == (KeyAction::GainUp { channel: c.channel })
            && key_action(c, Key::Char('g')) == (KeyAction::GainUp { channel: c.channel })
            && key_action(c, Key::Char('[')) == (KeyAction::GainDown { channel: c.channel })
            && key_action(c, Key::Char('d')) == (KeyAction::GainDown { channel: c.channel }),
        key_action(c, Key::Char('y')) == (KeyAction::StepPitch { up: true, coarse: false }),
        key_action(c, Key::Char('h')) == (KeyAction::StepPitch { up: false, coarse: false }),
        key_action(c, Key::Char('Y')) == (KeyAction::StepPitch { up: true, coarse: true }),
        key_action(c, Key::Char('H')) == (KeyAction::StepPitch { up: false, coarse: true }),
        key_action(c, Key::Char('u')) == (KeyAction::StepWidth { up: true }),
        key_action(c, Key::Char('j')) == (KeyAction::StepWidth { up: false }),
{
}

} // verus!
