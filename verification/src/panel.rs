//! Front-panel emulation: turns the device's `0x17` status readback into
//! front-panel events (MIX toggle, wheel clicks, DIM, button flashes).
//!
//! The front panel is host-driven: pressing MIX/SELECT or turning the
//! wheel only changes the status readback. The host polls it, decodes the
//! events and writes the mixer registers itself.
//!
//! Readback layout: byte 0 bit 7 = engaged; byte 1 bits 0-2 = OUT
//! position (4 = Ch1/2, 5 = Phones, 6 = Opt), bit 5 = DIM; byte 2 = mode
//! (high nibble) + wheel counter (low nibble); byte 3 = pressed-button
//! flash (0x40 idle, 0x41 IN, 0x42 SET, 0x44 MIX, 0x48 OUT, 0x50 SELECT,
//! 0x60 DIM).
use vstd::prelude::*;

verus! {

/// Byte 3 when no button is flashing.
pub const BUTTON_IDLE: u8 = 0x40;
/// Byte 3 flash of the IN button.
pub const BUTTON_IN: u8 = 0x41;
/// Byte 3 flash of the SET button.
pub const BUTTON_SET: u8 = 0x42;
/// Byte 3 flash of the MIX button.
pub const BUTTON_MIX: u8 = 0x44;
/// Byte 3 flash of the OUT button.
pub const BUTTON_OUT: u8 = 0x48;
/// Byte 3 flash of the SELECT button.
pub const BUTTON_SELECT: u8 = 0x50;
/// Byte 3 flash of the DIM button.
pub const BUTTON_DIM: u8 = 0x60;

/// The high nibble of a byte (the mode part of byte 2).
pub open spec fn hi_nibble(b: u8) -> int {
    b as int / 16
}

/// The low nibble of a byte (the wheel counter part of byte 2).
pub open spec fn lo_nibble(b: u8) -> int {
    b as int % 16
}

/// Panel state decoded from the `0x17` status readback.
#[derive(Debug, Clone, Copy, PartialEq, Eq, Structural)]
pub struct PanelState {
    /// byte0 & 0x80: the panel is engaged (a button held / MIX active).
    pub engaged: bool,
    /// byte1 & 0x07: OUT selection (0x04 = Ch1/2, 0x05 = Phones, 0x06 = Opt).
    pub out_pos: u8,
    /// byte1 & 0x20: DIM active flag.
    pub dim: bool,
    /// byte2: mode + selection + wheel counter.
    pub byte2: u8,
    /// byte3: the pressed-button flash (0x40 = idle).
    pub button: u8,
}

impl PanelState {
    /// IN-mode selection: 0x4x = Ch1/2 (0), 0x5x = Ch3/4 (1), 0x6x = Opt (2);
    /// any other mode reads as 0.
    pub open spec fn spec_in_sel(self) -> int {
        if hi_nibble(self.byte2) == 5 {
            1
        } else if hi_nibble(self.byte2) == 6 {
            2
        } else {
            0
        }
    }

    /// OUT-mode selection from the OUT position: 4 or below = 0, 5 = 1,
    /// 6 and 7 = 2.
    pub open spec fn spec_out_sel(self) -> int {
        let p = self.out_pos as int % 8;
        if p <= 4 {
            0
        } else if p == 5 {
            1
        } else {
            2
        }
    }

    /// Mode class of byte 2: 0 = fader (MIX, 0x0x), 1 = OUT (0x8x/0x9x),
    /// 2 = IN (everything else).
    pub open spec fn spec_mode_class(self) -> int {
        let h = hi_nibble(self.byte2);
        if h == 0 {
            0
        } else if h == 8 || h == 9 {
            1
        } else {
            2
        }
    }

    /// MIX (fader) mode: byte 2's high nibble is 0.
    pub open spec fn spec_mix_mode(self) -> bool {
        hi_nibble(self.byte2) == 0
    }

    /// OUT mode: the mode class is 1.
    pub open spec fn spec_out_mode(self) -> bool {
        self.spec_mode_class() == 1
    }

    /// Decode a `0x17` readback payload.
    pub fn decode(st: [u8; 4]) -> (r: Self)
        ensures
            r.engaged == (st@[0] & 0x80 != 0),
            r.out_pos == st@[1] & 0x07,
            r.dim == (st@[1] & 0x20 != 0),
            r.byte2 == st@[2],
            r.button == st@[3],
    {
        PanelState {
            engaged: st[0] & 0x80 != 0,
            out_pos: st[1] & 0x07,
            dim: st[1] & 0x20 != 0,
            byte2: st[2],
            button: st[3],
        }
    }

    /// IN-mode selection (0-2) from byte 2's high nibble.
    pub fn in_sel(&self) -> (r: usize)
        ensures
            r == self.spec_in_sel(),
    {
        let b = self.byte2;
        let hi = b >> 4;
        assert(hi == b / 16) by (bit_vector)
            requires
                hi == b >> 4,
        ;
        if hi == 5 {
            1
        } else if hi == 6 {
            2
        } else {
            0
        }
    }

    /// OUT-mode selection (0-2) from the OUT position.
    pub fn out_sel(&self) -> (r: usize)
        ensures
            r == self.spec_out_sel(),
    {
        let o = self.out_pos;
        let p = o & 0x07;
        assert(p == o % 8) by (bit_vector)
            requires
                p == o & 0x07,
        ;
        if p <= 4 {
            0
        } else if p == 5 {
            1
        } else {
            2
        }
    }

    /// True in OUT mode (byte 2 = 0x8x or 0x9x: the OUT counter carries
    /// past 0x8F).
    pub fn out_mode(&self) -> (r: bool)
        ensures
            r == self.spec_out_mode(),
    {
        self.mode_class() == 1
    }

    /// Mode class of byte 2's high nibble (0 = fader, 1 = OUT, 2 = IN).
    pub fn mode_class(&self) -> (r: u8)
        ensures
            r == self.spec_mode_class(),
    {
        let b = self.byte2;
        let hi = b >> 4;
        assert(hi == b / 16) by (bit_vector)
            requires
                hi == b >> 4,
        ;
        if hi == 0 {
            0
        } else if hi == 8 || hi == 9 {
            1
        } else {
            2
        }
    }

    /// True in MIX (fader) mode: byte 2's high nibble is 0. Not gated on
    /// the engaged bit (the press shows the flash before the mode flips).
    pub fn mix_mode(&self) -> (r: bool)
        ensures
            r == self.spec_mix_mode(),
    {
        let b = self.byte2;
        let hi = b >> 4;
        assert(hi == b / 16) by (bit_vector)
            requires
                hi == b >> 4,
        ;
        hi == 0
    }
}

impl Default for PanelState {
    fn default() -> (r: Self)
        ensures
            r == (PanelState { engaged: false, out_pos: 0, dim: false, byte2: 0, button: 0 }),
    {
        PanelState { engaged: false, out_pos: 0, dim: false, byte2: 0, button: 0 }
    }
}

/// SELECT channel-selection state (IN mode). Each SELECT press cycles
/// left -> right -> both -> neither -> left (`Neither` = no channel
/// selected).
#[derive(Debug, Clone, Copy, PartialEq, Eq, Structural)]
pub enum SelectState {
    Left,
    Right,
    Both,
    Neither,
}

impl Default for SelectState {
    fn default() -> (r: Self)
        ensures
            r == SelectState::Left,
    {
        SelectState::Left
    }
}

/// The selection that one SELECT press moves to.
pub open spec fn next_select(s: SelectState) -> SelectState {
    match s {
        SelectState::Left => SelectState::Right,
        SelectState::Right => SelectState::Both,
        SelectState::Both => SelectState::Neither,
        SelectState::Neither => SelectState::Left,
    }
}

/// A front-panel event detected between two polls.
#[derive(Debug, Clone, Copy, PartialEq, Eq, Structural)]
pub enum PanelEvent {
    /// MIX monitoring engaged (fader mode).
    MixPressed,
    /// MIX monitoring released (back to gain mode).
    MixReleased,
    /// The wheel moved by `delta` clicks.
    Wheel { delta: i8 },
    /// DIM pressed (byte 3 0x60 flash).
    DimPressed,
    /// Any other button flash (IN/OUT/SET/SELECT/MIX).
    Button { code: u8 },
}

/// A rising edge of the button flash `code` between two readbacks.
pub open spec fn flash_edge(prev: PanelState, st: PanelState, code: u8) -> bool {
    st.button == code && prev.button != code
}

/// Signed wheel clicks between two byte-2 values: the 4-bit counter
/// difference, wrapped into -8..8.
pub open spec fn wheel_delta(prev_b2: u8, b2: u8) -> int {
    let d = lo_nibble(b2) - lo_nibble(prev_b2);
    if d > 8 {
        d - 16
    } else if d < -8 {
        d + 16
    } else {
        d
    }
}

/// The MIX mode after the 0x44 flash is taken into account.
pub open spec fn mix_after_flash(old_mix: bool, prev: PanelState, st: PanelState) -> bool {
    if flash_edge(prev, st, BUTTON_MIX) {
        !old_mix
    } else {
        old_mix
    }
}

/// Whether fader mode counts as seen for the current MIX press before
/// this readback's own mode is looked at: a new MIX flash starts a new
/// press, which has not been seen in fader mode yet.
pub open spec fn saw_after_flash(old_saw: bool, prev: PanelState, st: PanelState) -> bool {
    if flash_edge(prev, st, BUTTON_MIX) {
        false
    } else {
        old_saw
    }
}

/// Device-driven MIX exit: the device left fader mode on its own (a mode
/// button pressed during MIX), after it had been seen in fader mode
/// during the current MIX press.
pub open spec fn device_exit(old_mix: bool, old_saw: bool, prev: PanelState, st: PanelState) -> bool {
    !st.spec_mix_mode() && mix_after_flash(old_mix, prev, st) && saw_after_flash(old_saw, prev, st)
        && st.button != BUTTON_MIX
}

/// The MIX mode after one poll.
pub open spec fn mix_after_poll(old_mix: bool, old_saw: bool, prev: PanelState, st: PanelState) -> bool {
    mix_after_flash(old_mix, prev, st) && !device_exit(old_mix, old_saw, prev, st)
}

/// Whether the device has been seen in fader mode, during the current
/// MIX press, after one poll: this readback is in fader mode, or it was
/// seen before, this readback starts no new press and ends none.
pub open spec fn saw_fader_after_poll(old_mix: bool, old_saw: bool, prev: PanelState, st: PanelState) -> bool {
    st.spec_mix_mode() || (saw_after_flash(old_saw, prev, st) && !device_exit(old_mix, old_saw, prev, st))
}

/// The MIX events of one poll (the flash toggle, then a device exit).
pub open spec fn mix_events(old_mix: bool, old_saw: bool, prev: PanelState, st: PanelState) -> Seq<PanelEvent> {
    (if flash_edge(prev, st, BUTTON_MIX) {
        if mix_after_flash(old_mix, prev, st) {
            seq![PanelEvent::MixPressed]
        } else {
            seq![PanelEvent::MixReleased]
        }
    } else {
        Seq::<PanelEvent>::empty()
    }) + (if device_exit(old_mix, old_saw, prev, st) {
        seq![PanelEvent::MixReleased]
    } else {
        Seq::<PanelEvent>::empty()
    })
}

/// The wheel event of one poll: only within one mode class, and only
/// when the counter moved.
pub open spec fn wheel_events(prev: PanelState, st: PanelState) -> Seq<PanelEvent> {
    if st.spec_mode_class() == prev.spec_mode_class() && lo_nibble(st.byte2) != lo_nibble(prev.byte2) {
        seq![PanelEvent::Wheel { delta: wheel_delta(prev.byte2, st.byte2) as i8 }]
    } else {
        Seq::<PanelEvent>::empty()
    }
}

/// The DIM event of one poll.
pub open spec fn dim_events(prev: PanelState, st: PanelState) -> Seq<PanelEvent> {
    if flash_edge(prev, st, BUTTON_DIM) {
        seq![PanelEvent::DimPressed]
    } else {
        Seq::<PanelEvent>::empty()
    }
}

/// The generic button event of one poll: any new flash other than idle
/// and DIM.
pub open spec fn button_events(prev: PanelState, st: PanelState) -> Seq<PanelEvent> {
    if st.button != BUTTON_IDLE && st.button != BUTTON_DIM && st.button != prev.button {
        seq![PanelEvent::Button { code: st.button }]
    } else {
        Seq::<PanelEvent>::empty()
    }
}

/// All events of a poll that follows an earlier readback `prev`.
pub open spec fn poll_events(old_mix: bool, old_saw: bool, prev: PanelState, st: PanelState) -> Seq<PanelEvent> {
    mix_events(old_mix, old_saw, prev, st) + wheel_events(prev, st) + dim_events(prev, st)
        + button_events(prev, st)
}

/// The events of the very first readback: MIX is reported if the capture
/// started mid-press (fader mode, or the MIX flash showing).
pub open spec fn first_events(st: PanelState) -> Seq<PanelEvent> {
    if st.spec_mix_mode() || st.button == BUTTON_MIX {
        seq![PanelEvent::MixPressed]
    } else {
        Seq::<PanelEvent>::empty()
    }
}

/// Tracks the panel state between polls and produces [`PanelEvent`]s.
#[derive(Debug)]
pub struct PanelDriver {
    /// The previous readback, if any.
    pub last: Option<PanelState>,
    /// True while MIX monitoring is active.
    pub mix_mode: bool,
    /// True once the device has been observed in fader mode (gates the
    /// device-driven MIX exit).
    pub saw_fader: bool,
    /// SELECT channel-selection state (IN mode).
    pub select: SelectState,
    /// The last IN selection (0-2) seen outside fader mode.
    pub in_sel: usize,
    /// The last OUT selection (0-2).
    pub out_sel: usize,
}

impl PanelDriver {
    /// A driver that has seen no readback yet.
    pub fn new() -> (r: Self)
        ensures
            r.last is None,
            !r.mix_mode,
            !r.saw_fader,
            r.select == SelectState::Left,
            r.in_sel == 0,
            r.out_sel == 0,
    {
        PanelDriver {
            last: Option::None,
            mix_mode: false,
            saw_fader: false,
            select: SelectState::Left,
            in_sel: 0,
            out_sel: 0,
        }
    }

    /// Feed one decoded readback; returns the events since the last poll.
    pub fn feed(&mut self, st: PanelState) -> (events: Vec<PanelEvent>)
        ensures
            final(self).last == Some(st),
            final(self).out_sel == st.spec_out_sel(),
            old(self).last is None ==> {
                &&& events@ == first_events(st)
                &&& final(self).mix_mode == (old(self).mix_mode || st.spec_mix_mode() || st.button
                    == BUTTON_MIX)
                &&& final(self).saw_fader == st.spec_mix_mode()
                &&& final(self).in_sel == st.spec_in_sel()
                &&& final(self).select == old(self).select
            },
            old(self).last is Some ==> {
                let prev = old(self).last->0;
                let m = old(self).mix_mode;
                let s = old(self).saw_fader;
                &&& events@ == poll_events(m, s, prev, st)
                &&& final(self).mix_mode == mix_after_poll(m, s, prev, st)
                &&& final(self).saw_fader == saw_fader_after_poll(m, s, prev, st)
                &&& final(self).in_sel == (if st.spec_mix_mode() {
                    old(self).in_sel as int
                } else {
                    st.spec_in_sel()
                })
                &&& final(self).select == (if flash_edge(prev, st, BUTTON_SELECT) {
                    next_select(old(self).select)
                } else {
                    old(self).select
                })
            },
    {
        let mut events: Vec<PanelEvent> = Vec::new();
        match self.last {
            Option::None => {
                if st.mix_mode() || st.button == BUTTON_MIX {
                    self.mix_mode = true;
                    events.push(PanelEvent::MixPressed);
                }
                self.saw_fader = st.mix_mode();
                self.in_sel = st.in_sel();
                self.out_sel = st.out_sel();
            },
            Option::Some(prev) => {
                let ghost m = self.mix_mode;
                let ghost s = self.saw_fader;
                // MIX is a toggle: each new 0x44 flash flips the mode.
                if st.button == BUTTON_MIX && prev.button != BUTTON_MIX {
                    self.mix_mode = !self.mix_mode;
                    // A new press: fader mode must be seen again before
                    // the device can end it.
                    self.saw_fader = false;
                    if self.mix_mode {
                        events.push(PanelEvent::MixPressed);
                    } else {
                        events.push(PanelEvent::MixReleased);
                    }
                }
                // Device-driven exit, only once fader mode was actually seen.
                if st.mix_mode() {
                    self.saw_fader = true;
                } else if self.mix_mode && self.saw_fader && st.button != BUTTON_MIX {
                    self.mix_mode = false;
                    self.saw_fader = false;
                    events.push(PanelEvent::MixReleased);
                }
                assert(events@ == mix_events(m, s, prev, st));
                // The IN selection is unreadable in fader mode: keep the latch.
                if !st.mix_mode() {
                    self.in_sel = st.in_sel();
                }
                self.out_sel = st.out_sel();
                // Wheel: only within one mode class.
                let pb = prev.byte2;
                let nb = st.byte2;
                let prev_cnt = pb & 0x0F;
                let new_cnt = nb & 0x0F;
                assert(prev_cnt == pb % 16) by (bit_vector)
                    requires
                        prev_cnt == pb & 0x0F,
                ;
                assert(new_cnt == nb % 16) by (bit_vector)
                    requires
                        new_cnt == nb & 0x0F,
                ;
                if st.mode_class() == prev.mode_class() && new_cnt != prev_cnt {
                    let mut d: i8 = new_cnt as i8 - prev_cnt as i8;
                    if d > 8 {
                        d = d - 16;
                    } else if d < -8 {
                        d = d + 16;
                    }
                    if d != 0 {
                        events.push(PanelEvent::Wheel { delta: d });
                    }
                }
                assert(events@ == mix_events(m, s, prev, st) + wheel_events(prev, st));
                // DIM flash.
                if st.button == BUTTON_DIM && prev.button != BUTTON_DIM {
                    events.push(PanelEvent::DimPressed);
                }
                // SELECT flash cycles the IN channel selection.
                if st.button == BUTTON_SELECT && prev.button != BUTTON_SELECT {
                    self.select =
                        match self.select {
                            SelectState::Left => SelectState::Right,
                            SelectState::Right => SelectState::Both,
                            SelectState::Both => SelectState::Neither,
                            SelectState::Neither => SelectState::Left,
                        };
                }
                // Any other distinct button flash.
                if st.button != BUTTON_IDLE && st.button != BUTTON_DIM && st.button != prev.button {
                    events.push(PanelEvent::Button { code: st.button });
                }
            },
        }
        self.last = Option::Some(st);
        events
    }
}

impl Default for PanelDriver {
    fn default() -> (r: Self)
        ensures
            r.last is None,
            !r.mix_mode,
            !r.saw_fader,
            r.select == SelectState::Left,
            r.in_sel == 0,
            r.out_sel == 0,
    {
        PanelDriver::new()
    }
}

// ── Laws ─────────────────────────────────────────────────────────

/// A wheel event reports the counter movement as the shortest signed
/// distance: never zero, at most 8 clicks either way, and congruent to
/// the counter difference modulo 16 (so a 0xF -> 0x0 wrap is +1).
pub proof fn lemma_wheel_delta_is_wrapped_difference(prev_b2: u8, b2: u8)
    requires
        lo_nibble(prev_b2) != lo_nibble(b2),
    ensures
        -8 <= wheel_delta(prev_b2, b2) <= 8,
        wheel_delta(prev_b2, b2) != 0,
        (wheel_delta(prev_b2, b2) - (lo_nibble(b2) - lo_nibble(prev_b2))) % 16 == 0,
{
}

/// SELECT presses cycle through four states: every press changes the
/// selection and four presses return to where they started.
pub proof fn lemma_select_cycles_in_four(s: SelectState)
    ensures
        next_select(s) != s,
        next_select(next_select(next_select(next_select(s)))) == s,
{
}

/// A new MIX flash always toggles MIX monitoring and reports exactly the
/// matching event.
pub proof fn lemma_mix_flash_toggles(old_mix: bool, old_saw: bool, prev: PanelState, st: PanelState)
    requires
        flash_edge(prev, st, BUTTON_MIX),
    ensures
        mix_after_poll(old_mix, old_saw, prev, st) == !old_mix,
        mix_events(old_mix, old_saw, prev, st) == (if old_mix {
            seq![PanelEvent::MixReleased]
        } else {
            seq![PanelEvent::MixPressed]
        }),
{
    assert(mix_events(old_mix, old_saw, prev, st) =~= (if old_mix {
        seq![PanelEvent::MixReleased]
    } else {
        seq![PanelEvent::MixPressed]
    }));
}

/// A MIX flash held across several polls toggles only once: the repeated
/// flash neither changes the mode nor reports a MIX event.
pub proof fn lemma_held_mix_flash_is_quiet(old_mix: bool, old_saw: bool, prev: PanelState, st: PanelState)
    requires
        prev.button == BUTTON_MIX,
        st.button == BUTTON_MIX,
    ensures
        mix_after_poll(old_mix, old_saw, prev, st) == old_mix,
        mix_events(old_mix, old_saw, prev, st) == Seq::<PanelEvent>::empty(),
{
    assert(mix_events(old_mix, old_saw, prev, st) =~= Seq::<PanelEvent>::empty());
}

/// Before the device has been seen in fader mode, no readback ends MIX
/// on its own (a pre-ack readback does not release), and a MIX press
/// starts unseen: after the flash that engages MIX, only a later
/// fader-mode readback can arm the device-driven exit, whatever was seen
/// during earlier presses.
pub proof fn lemma_no_exit_before_fader_seen(old_mix: bool, old_saw: bool, prev: PanelState, st: PanelState)
    ensures
        !device_exit(old_mix, false, prev, st),
        mix_after_poll(old_mix, false, prev, st) == mix_after_flash(old_mix, prev, st),
        flash_edge(prev, st, BUTTON_MIX) ==> !device_exit(old_mix, old_saw, prev, st)
            && saw_fader_after_poll(old_mix, old_saw, prev, st) == st.spec_mix_mode(),
{
}

/// The MIX events of a poll always agree with the mode the driver ends
/// in: at most one MIX event, MixPressed only when MIX ends engaged,
/// MixReleased only when it ends released, and none when it is unchanged.
pub proof fn lemma_mix_events_match_mode(old_mix: bool, old_saw: bool, prev: PanelState, st: PanelState)
    ensures
        mix_events(old_mix, old_saw, prev, st).len() <= 1,
        mix_events(old_mix, old_saw, prev, st) == seq![PanelEvent::MixPressed] ==> mix_after_poll(
            old_mix,
            old_saw,
            prev,
            st,
        ),
        mix_events(old_mix, old_saw, prev, st) == seq![PanelEvent::MixReleased] ==> !mix_after_poll(
            old_mix,
            old_saw,
            prev,
            st,
        ),
        mix_events(old_mix, old_saw, prev, st).len() == 0 <==> mix_after_poll(
            old_mix,
            old_saw,
            prev,
            st,
        ) == old_mix,
{
    let ev = mix_events(old_mix, old_saw, prev, st);
    if flash_edge(prev, st, BUTTON_MIX) {
        assert(!device_exit(old_mix, old_saw, prev, st));
        if mix_after_flash(old_mix, prev, st) {
            assert(ev =~= seq![PanelEvent::MixPressed]);
        } else {
            assert(ev =~= seq![PanelEvent::MixReleased]);
        }
    } else if device_exit(old_mix, old_saw, prev, st) {
        assert(ev =~= seq![PanelEvent::MixReleased]);
        assert(ev != seq![PanelEvent::MixPressed]) by {
            assert(ev[0] != PanelEvent::MixPressed);
        }
    } else {
        assert(ev =~= Seq::<PanelEvent>::empty());
    }
}

/// Feeding the same readback again reports nothing new: no flash, wheel,
/// DIM or button event; only a pending device-driven MIX exit can show.
pub proof fn lemma_repeated_readback_is_quiet(old_mix: bool, old_saw: bool, st: PanelState)
    ensures
        poll_events(old_mix, old_saw, st, st) == (if device_exit(old_mix, old_saw, st, st) {
            seq![PanelEvent::MixReleased]
        } else {
            Seq::<PanelEvent>::empty()
        }),
        mix_after_flash(old_mix, st, st) == old_mix,
{
    assert(poll_events(old_mix, old_saw, st, st) =~= (if device_exit(old_mix, old_saw, st, st) {
        seq![PanelEvent::MixReleased]
    } else {
        Seq::<PanelEvent>::empty()
    }));
}

/// Every new DIM flash (byte 3 turning to 0x60) is one DIM press,
/// whatever the DIM state bit says (pressing DIM while DIM is active, to
/// release it, is reported too): a poll reports DimPressed exactly when
/// the flash rises, and the DIM flash is never reported as a generic
/// button. Every other new flash but idle (0x40) is reported as that
/// button.
pub proof fn lemma_every_dim_flash_is_reported(old_mix: bool, old_saw: bool, prev: PanelState, st: PanelState)
    ensures
        (st.button == 0x60u8 && prev.button != 0x60u8) ==> dim_events(prev, st) == seq![
            PanelEvent::DimPressed,
        ],
        poll_events(old_mix, old_saw, prev, st).contains(PanelEvent::DimPressed) <==> (st.button
            == 0x60u8 && prev.button != 0x60u8),
        !button_events(prev, st).contains(PanelEvent::Button { code: 0x60u8 }),
        (st.button != 0x40u8 && st.button != 0x60u8 && st.button != prev.button) ==> button_events(
            prev,
            st,
        ) == seq![PanelEvent::Button { code: st.button }],
{
    let a = mix_events(old_mix, old_saw, prev, st);
    let b = wheel_events(prev, st);
    let c = dim_events(prev, st);
    let d = button_events(prev, st);
    let p = poll_events(old_mix, old_saw, prev, st);
    assert(p =~= a + b + c + d);
    assert forall|j: int| 0 <= j < a.len() implies a[j] == PanelEvent::MixPressed || a[j]
        == PanelEvent::MixReleased by {
        let f = if flash_edge(prev, st, BUTTON_MIX) {
            if mix_after_flash(old_mix, prev, st) {
                seq![PanelEvent::MixPressed]
            } else {
                seq![PanelEvent::MixReleased]
            }
        } else {
            Seq::<PanelEvent>::empty()
        };
        let g = if device_exit(old_mix, old_saw, prev, st) {
            seq![PanelEvent::MixReleased]
        } else {
            Seq::<PanelEvent>::empty()
        };
        assert(a =~= f + g);
        if j < f.len() {
            assert(a[j] == f[j]);
        } else {
            assert(a[j] == g[j - f.len()]);
        }
    }
    if st.button == 0x60u8 && prev.button != 0x60u8 {
        assert(p[(a.len() + b.len()) as int] == PanelEvent::DimPressed);
    }
    if p.contains(PanelEvent::DimPressed) {
        let i = choose|i: int| 0 <= i < p.len() && p[i] == PanelEvent::DimPressed;
        if i < a.len() {
            assert(p[i] == a[i]);
        } else if i < a.len() + b.len() {
            assert(p[i] == b[i - a.len()]);
        } else if i < a.len() + b.len() + c.len() {
            assert(p[i] == c[i - a.len() - b.len()]);
        } else {
            assert(p[i] == d[i - a.len() - b.len() - c.len()]);
        }
    }
}

} // verus!
