use tuxmix::channel::Sensitivity;
use tuxmix::items::PairItem;
use tuxmix::keys::{
    gain_step_down, gain_step_up, loopback_target, next_sample_rate, pan_step, toggle_sensitivity,
    Key, KeyAction, TuiCursor,
};

#[test]
fn cursor_moves_within_and_between_sections() {
    let mut c = TuiCursor::new();
    assert_eq!(c.on_key(Key::Right, 3, 6), KeyAction::Nothing);
    c.on_key(Key::Right, 3, 6);
    assert_eq!(c.channel, 2);
    // The end of the list stops the cursor.
    c.on_key(Key::Right, 3, 6);
    assert_eq!(c.channel, 2);
    c.on_key(Key::Left, 3, 6);
    assert_eq!(c.channel, 1);
    // Changing section goes back to its first item.
    c.on_key(Key::Down, 3, 6);
    assert_eq!((c.section, c.channel), (1, 0));
    c.on_key(Key::Down, 4, 6);
    c.on_key(Key::Down, 4, 6);
    assert_eq!(c.section, 2);
    c.on_key(Key::Up, 4, 6);
    assert_eq!(c.section, 1);
    c.on_key(Key::Tab, 4, 6);
    assert!(c.show_matrix);
}

#[test]
fn submix_cycles_both_ways() {
    let mut c = TuiCursor::new();
    c.on_key(Key::Char('O'), 1, 6);
    assert_eq!(c.sel_out, 5);
    c.on_key(Key::Char('o'), 1, 6);
    assert_eq!(c.sel_out, 0);
    c.on_key(Key::Char('o'), 1, 6);
    assert_eq!(c.sel_out, 1);
}

#[test]
fn keys_name_actions_for_the_cursor() {
    let mut c = TuiCursor::new();
    c.sel_out = 3;
    assert_eq!(
        c.on_key(Key::Char('+'), 4, 6),
        KeyAction::StepVolume { section: 0, channel: 0, output: 3, up: true, coarse: true }
    );
    assert_eq!(c.on_key(Key::Char('p'), 4, 6), KeyAction::TogglePhantom { channel: 0 });
    assert_eq!(c.on_key(Key::Char('g'), 4, 6), KeyAction::GainUp { channel: 0 });
    assert_eq!(
        c.on_key(Key::Char(','), 4, 6),
        KeyAction::StepPan { section: 0, channel: 0, output: 3, up: false }
    );
    assert_eq!(c.on_key(Key::Char('q'), 4, 6), KeyAction::Quit);
    assert_eq!(c.on_key(Key::Esc, 4, 6), KeyAction::Quit);
    // On the outputs, volume keys step the output's own master, and the
    // input-only keys do nothing.
    c.on_key(Key::Down, 4, 6);
    c.on_key(Key::Down, 4, 6);
    c.on_key(Key::Right, 4, 6);
    assert_eq!(
        c.on_key(Key::PageDown, 4, 6),
        KeyAction::StepVolume { section: 2, channel: 1, output: 1, up: false, coarse: false }
    );
    assert_eq!(c.on_key(Key::Char('p'), 4, 6), KeyAction::Nothing);
    assert_eq!(c.on_key(Key::Char(','), 4, 6), KeyAction::Nothing);
    assert_eq!(c.on_key(Key::Char('l'), 4, 6), KeyAction::ToggleLoopback { channel: 1 });
    assert_eq!(c.on_key(Key::Char('r'), 4, 6), KeyAction::NextSampleRate);
}

#[test]
fn eq_editor_rows_and_steps() {
    let mut c = TuiCursor::new();
    c.open_eq(7);
    assert!(c.eq_view.is_none());
    c.open_eq(2);
    assert_eq!(c.eq_view, Some((2, 0)));
    c.on_key(Key::Up, 1, 6);
    assert_eq!(c.eq_view, Some((2, 0)));
    for _ in 0..20 {
        c.on_key(Key::Down, 1, 6);
    }
    assert_eq!(c.eq_view, Some((2, 14)));
    assert_eq!(
        c.on_key(Key::PageUp, 1, 6),
        KeyAction::AdjustEq { input: 2, row: 14, dir: 1, coarse: true }
    );
    assert_eq!(
        c.on_key(Key::Left, 1, 6),
        KeyAction::AdjustEq { input: 2, row: 14, dir: -1, coarse: false }
    );
    // Other keys do nothing while the editor is open.
    assert_eq!(c.on_key(Key::Char('q'), 1, 6), KeyAction::Nothing);
    c.on_key(Key::Esc, 1, 6);
    assert!(c.eq_view.is_none());
}

#[test]
fn cursor_is_clamped_after_a_link_change() {
    let mut c = TuiCursor::new();
    c.channel = 5;
    c.clamp_channel(4);
    assert_eq!(c.channel, 3);
    c.clamp_channel(8);
    assert_eq!(c.channel, 3);
    c.clamp_channel(0);
    assert_eq!(c.channel, 0);
}

#[test]
fn integer_steps() {
    assert_eq!(pan_step(98, true), 100);
    assert_eq!(pan_step(0, false), -5);
    assert_eq!(pan_step(-97, false), -100);
    assert_eq!(gain_step_up(Some(64), Some(65)), Some(65));
    assert_eq!(gain_step_up(Some(65), Some(65)), Some(65));
    assert_eq!(gain_step_up(None, Some(9)), Some(1));
    assert_eq!(gain_step_up(Some(3), None), None);
    assert_eq!(gain_step_down(Some(0), Some(65)), Some(0));
    assert_eq!(gain_step_down(Some(10), Some(65)), Some(9));
    assert_eq!(gain_step_down(Some(10), None), None);
    assert_eq!(toggle_sensitivity(Sensitivity::Plus4dBu), Sensitivity::Minus10dBV);
    assert_eq!(next_sample_rate(44100), 48000);
    assert_eq!(next_sample_rate(192000), 44100);
    assert_eq!(next_sample_rate(32000), 44100);
    assert_eq!(loopback_target(PairItem::Linked(2)), (2, 4));
    assert_eq!(loopback_target(PairItem::Single(5)), (2, 5));
}
