use tuxmix::panel::{PanelDriver, PanelEvent, PanelState, SelectState};

#[test]
fn decode_out_selection() {
    // cap_buttons2: 0x04 = Ch1/2, 0x05 = Phones, 0x06 = Opt.
    assert_eq!(PanelState::decode([0x0C, 0x04, 0x8A, 0x40]).out_sel(), 0);
    assert_eq!(PanelState::decode([0x0C, 0x05, 0x8A, 0x40]).out_sel(), 1);
    assert_eq!(PanelState::decode([0x0C, 0x06, 0x8A, 0x40]).out_sel(), 2);
}

#[test]
fn decode_in_selection() {
    // cap_mix: byte2 0x4A/0x5A/0x6A = Ch1/2, Ch3/4, Opt.
    assert_eq!(PanelState::decode([0x0C, 0x05, 0x4A, 0x40]).in_sel(), 0);
    assert_eq!(PanelState::decode([0x0C, 0x05, 0x5A, 0x40]).in_sel(), 1);
    assert_eq!(PanelState::decode([0x0C, 0x05, 0x6A, 0x40]).in_sel(), 2);
}

#[test]
fn out_mode_accepts_counter_carry_0x9x() {
    // cap_buttons2 idle OUT = 0x8x; cap_set2 (wheel on OUT) shows
    // byte2 0x90-0x9F — the counter is a full byte that carries
    // past 0x8F. Both classes are OUT mode.
    assert!(PanelState::decode([0x0C, 0x04, 0x8A, 0x40]).out_mode());
    assert!(PanelState::decode([0x0C, 0x04, 0x9A, 0x40]).out_mode());
    assert!(PanelState::decode([0x0C, 0x04, 0x9F, 0x40]).out_mode());
    assert!(!PanelState::decode([0x0C, 0x04, 0x4A, 0x40]).out_mode());
    assert!(!PanelState::decode([0x0C, 0x04, 0x0A, 0x40]).out_mode());
}

#[test]
fn wheel_delta_survives_out_counter_carry() {
    // The OUT counter carries 0x8F -> 0x90: the mode class is
    // unchanged (both OUT), so it's a +1 wheel click, not a mode
    // switch / dropped event.
    let mut drv = PanelDriver::new();
    drv.feed(PanelState::decode([0x0C, 0x04, 0x8F, 0x40]));
    let ev = drv.feed(PanelState::decode([0x0C, 0x04, 0x90, 0x40]));
    assert!(ev.contains(&PanelEvent::Wheel { delta: 1 }), "{ev:?}");
    // And backward across the carry: 0x90 -> 0x8F = -1.
    let mut drv = PanelDriver::new();
    drv.feed(PanelState::decode([0x0C, 0x04, 0x90, 0x40]));
    let ev = drv.feed(PanelState::decode([0x0C, 0x04, 0x8F, 0x40]));
    assert!(ev.contains(&PanelEvent::Wheel { delta: -1 }), "{ev:?}");
}

#[test]
fn mix_toggle_engage_release() {
    let mut drv = PanelDriver::new();
    // Idle.
    assert!(drv
        .feed(PanelState::decode([0x0C, 0x05, 0x8A, 0x40]))
        .is_empty());
    // MIX press #1: the 0x44 flash toggles fader mode ON.
    let ev = drv.feed(PanelState::decode([0x8C, 0x85, 0x0A, 0x44]));
    assert!(ev.contains(&PanelEvent::MixPressed));
    assert!(drv.mix_mode);
    // Still engaged, byte3 back to 0x40. The device STAYS in fader
    // mode after the physical release (byte2 0x0x) — that's what
    // makes MIX a toggle — so nothing fires.
    assert!(drv
        .feed(PanelState::decode([0x8C, 0x85, 0x0A, 0x40]))
        .is_empty());
    assert!(drv.mix_mode);
    // MIX press #2: toggles back to gain mode. The device is still
    // in fader mode when the flash arrives.
    let ev = drv.feed(PanelState::decode([0x8C, 0x85, 0x0A, 0x44]));
    assert!(ev.contains(&PanelEvent::MixReleased));
    assert!(!drv.mix_mode);
    // After the release acks the device returns to IN mode (0x49)
    // — no further events.
    assert!(drv
        .feed(PanelState::decode([0x0C, 0x05, 0x49, 0x40]))
        .is_empty());
    assert!(!drv.mix_mode);
}

#[test]
fn wheel_delta_wraps() {
    let mut drv = PanelDriver::new();
    drv.feed(PanelState::decode([0x8C, 0x85, 0x0B, 0x40]));
    let ev = drv.feed(PanelState::decode([0x8C, 0x85, 0x0C, 0x40]));
    assert!(ev.contains(&PanelEvent::Wheel { delta: 1 }));
    // Wrap 0x0F -> 0x00 = +1.
    drv.feed(PanelState::decode([0x8C, 0x85, 0x0F, 0x40]));
    let ev = drv.feed(PanelState::decode([0x8C, 0x85, 0x00, 0x40]));
    assert!(ev.contains(&PanelEvent::Wheel { delta: 1 }));
    // Backward 0x02 -> 0x01 = -1.
    drv.feed(PanelState::decode([0x8C, 0x85, 0x02, 0x40]));
    let ev = drv.feed(PanelState::decode([0x8C, 0x85, 0x01, 0x40]));
    assert!(ev.contains(&PanelEvent::Wheel { delta: -1 }));
}

#[test]
fn select_cycles_left_right_both_none() {
    let mut drv = PanelDriver::new();
    drv.feed(PanelState::decode([0x0C, 0x05, 0x4A, 0x40]));
    assert_eq!(drv.select, SelectState::Left);
    // SELECT press: byte3 flash 0x50 (one press = one step).
    let ev = drv.feed(PanelState::decode([0x0C, 0x05, 0x4A, 0x50]));
    assert!(ev.contains(&PanelEvent::Button { code: 0x50 }));
    assert_eq!(drv.select, SelectState::Right);
    drv.feed(PanelState::decode([0x0C, 0x05, 0x4A, 0x40]));
    drv.feed(PanelState::decode([0x0C, 0x05, 0x4A, 0x50]));
    assert_eq!(drv.select, SelectState::Both);
    drv.feed(PanelState::decode([0x0C, 0x05, 0x4A, 0x40]));
    drv.feed(PanelState::decode([0x0C, 0x05, 0x4A, 0x50]));
    assert_eq!(drv.select, SelectState::Neither);
    drv.feed(PanelState::decode([0x0C, 0x05, 0x4A, 0x40]));
    drv.feed(PanelState::decode([0x0C, 0x05, 0x4A, 0x50]));
    assert_eq!(drv.select, SelectState::Left);
}

#[test]
fn mix_press_detected_from_flash_before_ack() {
    // Hardware probe 2026-08-24: the RAW MIX press readback is
    // `0D 0D 41 44` — byte3 flash 0x44, but byte0 has NO engaged
    // bit and byte2 is still in IN mode (0x41).
    let mut drv = PanelDriver::new();
    drv.feed(PanelState::decode([0x0C, 0x0D, 0x41, 0x40]));
    let ev = drv.feed(PanelState::decode([0x0D, 0x0D, 0x41, 0x44]));
    assert!(ev.contains(&PanelEvent::MixPressed));
    assert!(drv.mix_mode);
    // Still held (flash persists, byte2 not yet in fader mode
    // because the host ack hasn't landed): NO release yet.
    assert!(drv
        .feed(PanelState::decode([0x0D, 0x0D, 0x41, 0x44]))
        .is_empty());
    // Ack landed: byte2 flips to the fader counter 0x0x.
    assert!(drv
        .feed(PanelState::decode([0x8C, 0x85, 0x0A, 0x40]))
        .is_empty());
    // Release: the NEXT 0x44 flash toggles back to gain mode.
    let ev = drv.feed(PanelState::decode([0x8C, 0x85, 0x0A, 0x44]));
    assert!(ev.contains(&PanelEvent::MixReleased));
    assert!(!drv.mix_mode);
}

#[test]
fn mix_latches_in_selection_across_fader_mode() {
    // The IN selection lives in byte2's high nibble, which becomes
    // 0x0 in fader mode — the driver must remember it.
    let mut drv = PanelDriver::new();
    drv.feed(PanelState::decode([0x0C, 0x05, 0x5A, 0x40])); // Ch3/4
    assert_eq!(drv.in_sel, 1);
    assert_eq!(drv.out_sel, 1); // byte1 0x05 = Phones
    let ev = drv.feed(PanelState::decode([0x0D, 0x05, 0x5A, 0x44])); // MIX
    assert!(ev.contains(&PanelEvent::MixPressed));
    // In fader mode the selection is not readable from byte2.
    drv.feed(PanelState::decode([0x8C, 0x85, 0x00, 0x40]));
    assert_eq!(drv.in_sel, 1);
    assert_eq!(drv.out_sel, 1);
    // Wheel in fader mode must keep using the latched selection.
    drv.feed(PanelState::decode([0x8C, 0x85, 0x01, 0x40]));
    assert!(drv.mix_mode);
    // Second MIX press: back to gain mode.
    let ev = drv.feed(PanelState::decode([0x8C, 0x85, 0x01, 0x44]));
    assert!(ev.contains(&PanelEvent::MixReleased));
    assert!(!drv.mix_mode);
    // Back in IN mode, the selection is readable again.
    drv.feed(PanelState::decode([0x0C, 0x05, 0x59, 0x40])); // Ch3/4
    assert_eq!(drv.in_sel, 1);
    drv.feed(PanelState::decode([0x0C, 0x05, 0x6A, 0x40])); // Opt
    assert_eq!(drv.in_sel, 2);
}

#[test]
fn mix_held_flash_toggles_once() {
    // A single physical press may keep the 0x44 flash across
    // several polls — it must toggle ON exactly once.
    let mut drv = PanelDriver::new();
    drv.feed(PanelState::decode([0x0C, 0x0D, 0x41, 0x40]));
    let ev = drv.feed(PanelState::decode([0x0D, 0x0D, 0x41, 0x44]));
    assert!(ev.contains(&PanelEvent::MixPressed));
    for _ in 0..3 {
        assert!(drv
            .feed(PanelState::decode([0x0D, 0x0D, 0x41, 0x44]))
            .is_empty());
    }
    assert!(drv.mix_mode);
    // Flash clears, then a NEW press toggles OFF.
    drv.feed(PanelState::decode([0x0D, 0x0D, 0x41, 0x40]));
    let ev = drv.feed(PanelState::decode([0x0D, 0x0D, 0x41, 0x44]));
    assert!(ev.contains(&PanelEvent::MixReleased));
    assert!(!drv.mix_mode);
}

#[test]
fn mix_pre_ack_readback_does_not_release() {
    // Before the host ack lands, byte2 is still 0x4x with the 0x44
    // flash showing — the driver must NOT treat that as a fader
    // exit (it has never seen fader mode yet).
    let mut drv = PanelDriver::new();
    drv.feed(PanelState::decode([0x0C, 0x0D, 0x41, 0x40]));
    let ev = drv.feed(PanelState::decode([0x0D, 0x0D, 0x41, 0x44]));
    assert!(ev.contains(&PanelEvent::MixPressed));
    // Flash clears but the ack hasn't taken effect: byte2 still IN.
    assert!(drv
        .feed(PanelState::decode([0x0D, 0x0D, 0x41, 0x40]))
        .is_empty());
    assert!(drv.mix_mode);
    // Ack lands: byte2 -> fader counter.
    assert!(drv
        .feed(PanelState::decode([0x8C, 0x85, 0x02, 0x40]))
        .is_empty());
    assert!(drv.mix_mode);
}

#[test]
fn in_press_during_mix_exits_fader_mode() {
    // Pressing IN while MIX is engaged makes the device leave fader
    // mode by itself (byte2 0x0x -> 0x4A) — that ends MIX (the user:
    // IN should return to gain control).
    let mut drv = PanelDriver::new();
    drv.feed(PanelState::decode([0x0C, 0x05, 0x41, 0x40]));
    let ev = drv.feed(PanelState::decode([0x0D, 0x05, 0x41, 0x44]));
    assert!(ev.contains(&PanelEvent::MixPressed));
    // Ack landed: in fader mode.
    drv.feed(PanelState::decode([0x8C, 0x85, 0x03, 0x40]));
    assert!(drv.mix_mode);
    // IN press: byte2 -> 0x4A (IN mode), flash 0x41.
    let ev = drv.feed(PanelState::decode([0x0C, 0x05, 0x4A, 0x41]));
    assert!(ev.contains(&PanelEvent::MixReleased));
    assert!(!drv.mix_mode);
    // The IN flash itself is also reported as a button event.
    assert!(ev.contains(&PanelEvent::Button { code: 0x41 }));
}

#[test]
fn set_press_emits_button_event() {
    let mut drv = PanelDriver::new();
    drv.feed(PanelState::decode([0x0C, 0x05, 0x4A, 0x40]));
    let ev = drv.feed(PanelState::decode([0x0C, 0x05, 0x4A, 0x42]));
    assert!(ev.contains(&PanelEvent::Button { code: 0x42 }));
}

#[test]
fn wheel_delta_limits_are_eight_clicks() {
    // A counter jump of exactly 8 reads as +8; 9 forward wraps to -7.
    let mut drv = PanelDriver::new();
    drv.feed(PanelState::decode([0x8C, 0x85, 0x00, 0x40]));
    let ev = drv.feed(PanelState::decode([0x8C, 0x85, 0x08, 0x40]));
    assert_eq!(ev, vec![PanelEvent::Wheel { delta: 8 }]);
    let ev = drv.feed(PanelState::decode([0x8C, 0x85, 0x00, 0x40]));
    assert_eq!(ev, vec![PanelEvent::Wheel { delta: -8 }]);
    let ev = drv.feed(PanelState::decode([0x8C, 0x85, 0x09, 0x40]));
    assert_eq!(ev, vec![PanelEvent::Wheel { delta: -7 }]);
}

#[test]
fn mode_switch_is_not_a_wheel_click() {
    // IN 0x4A -> fader 0x03: the counter changed but the mode class did too.
    let mut drv = PanelDriver::new();
    drv.feed(PanelState::decode([0x0C, 0x05, 0x4A, 0x40]));
    let ev = drv.feed(PanelState::decode([0x0C, 0x05, 0x83, 0x40]));
    assert!(ev.is_empty(), "{ev:?}");
}

#[test]
fn dim_flash_reports_dim_once() {
    let mut drv = PanelDriver::new();
    drv.feed(PanelState::decode([0x0C, 0x05, 0x4A, 0x40]));
    let ev = drv.feed(PanelState::decode([0x0C, 0x25, 0x4A, 0x60]));
    assert_eq!(ev, vec![PanelEvent::DimPressed]);
    let ev = drv.feed(PanelState::decode([0x0C, 0x25, 0x4A, 0x60]));
    assert!(ev.is_empty());
}

#[test]
fn first_sample_mid_press_reports_mix() {
    let mut drv = PanelDriver::new();
    let ev = drv.feed(PanelState::decode([0x8C, 0x85, 0x0A, 0x40]));
    assert_eq!(ev, vec![PanelEvent::MixPressed]);
    assert!(drv.mix_mode);
    assert!(drv.saw_fader);
    let mut drv = PanelDriver::new();
    let ev = drv.feed(PanelState::decode([0x0D, 0x0D, 0x41, 0x44]));
    assert_eq!(ev, vec![PanelEvent::MixPressed]);
    assert!(!drv.saw_fader);
    let mut drv = PanelDriver::new();
    assert!(drv.feed(PanelState::decode([0x0C, 0x06, 0x6A, 0x40])).is_empty());
    assert_eq!(drv.in_sel, 2);
    assert_eq!(drv.out_sel, 2);
}

#[test]
fn repeated_readback_is_quiet() {
    let mut drv = PanelDriver::new();
    let st = PanelState::decode([0x0C, 0x05, 0x5C, 0x42]);
    drv.feed(st);
    assert!(drv.feed(st).is_empty());
    assert!(drv.feed(st).is_empty());
}

#[test]
fn decode_reads_each_field() {
    let st = PanelState::decode([0x8C, 0xA5, 0x9B, 0x50]);
    assert!(st.engaged);
    assert_eq!(st.out_pos, 0x05);
    assert!(st.dim);
    assert_eq!(st.byte2, 0x9B);
    assert_eq!(st.button, 0x50);
    assert_eq!(st.mode_class(), 1);
    assert!(!st.mix_mode());
    assert_eq!(PanelState::decode([0, 0x07, 0x4A, 0x40]).out_sel(), 2);
    assert_eq!(PanelState::decode([0, 0x00, 0x4A, 0x40]).out_sel(), 0);
    assert_eq!(PanelState::decode([0, 0x00, 0x7A, 0x40]).in_sel(), 0);
    assert_eq!(PanelState::decode([0, 0x00, 0x7A, 0x40]).mode_class(), 2);
    assert_eq!(PanelState::decode([0, 0x00, 0x0A, 0x40]).mode_class(), 0);
}

#[test]
fn second_mix_press_is_not_ended_by_a_pre_ack_readback() {
    let mut drv = PanelDriver::new();
    drv.feed(PanelState::decode([0x0C, 0x0D, 0x41, 0x40]));
    // MIX on, the device enters fader mode.
    assert_eq!(drv.feed(PanelState::decode([0x0D, 0x0D, 0x41, 0x44])), vec![PanelEvent::MixPressed, PanelEvent::Button { code: 0x44 }]);
    drv.feed(PanelState::decode([0x8C, 0x85, 0x02, 0x40]));
    // MIX off by a second flash.
    assert_eq!(drv.feed(PanelState::decode([0x8C, 0x85, 0x02, 0x44])), vec![PanelEvent::MixReleased, PanelEvent::Button { code: 0x44 }]);
    assert!(!drv.mix_mode);
    drv.feed(PanelState::decode([0x0C, 0x0D, 0x41, 0x40]));
    // Second MIX press; the ack has not landed yet.
    assert_eq!(drv.feed(PanelState::decode([0x0D, 0x0D, 0x41, 0x44])), vec![PanelEvent::MixPressed, PanelEvent::Button { code: 0x44 }]);
    // A readback before the device enters fader mode must not end MIX.
    assert!(drv.feed(PanelState::decode([0x0D, 0x0D, 0x41, 0x40])).is_empty());
    assert!(drv.mix_mode);
    // Once fader mode was seen for this press, leaving it ends MIX.
    assert!(drv.feed(PanelState::decode([0x8C, 0x85, 0x02, 0x40])).is_empty());
    assert_eq!(drv.feed(PanelState::decode([0x8C, 0x85, 0x41, 0x40])), vec![PanelEvent::MixReleased]);
    assert!(!drv.mix_mode);
}
