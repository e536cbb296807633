use tuxmix::channel::ChannelId;
use tuxmix::frontpanel::follow_panel_out;
use tuxmix::osc_log::{push_osc_log, OSC_LOG_MAX};
use tuxmix::selection::{group_targets, toggle_collapse};
use tuxmix::ui::{next_view, toggle_flyout, FlyoutKind, View};

#[test]
fn tab_cycles_through_all_three_views() {
    assert_eq!(next_view(View::Quick), View::Mixer);
    assert_eq!(next_view(View::Mixer), View::Matrix);
    assert_eq!(next_view(View::Matrix), View::Quick);
}

#[test]
fn flyout_button_toggles_and_switches() {
    let a = ChannelId::Input(0);
    let b = ChannelId::Playback(1);
    let open = toggle_flyout(None, a, FlyoutKind::Eq);
    assert_eq!(open, Some((a, FlyoutKind::Eq)));
    // Another button opens its own flyout, closing the first.
    assert_eq!(toggle_flyout(open, b, FlyoutKind::Route), Some((b, FlyoutKind::Route)));
    assert_eq!(toggle_flyout(open, a, FlyoutKind::Trim), Some((a, FlyoutKind::Trim)));
    // The same button closes it.
    assert_eq!(toggle_flyout(open, a, FlyoutKind::Eq), None);
}

#[test]
fn panel_out_is_followed_only_on_change() {
    // First sighting of OUT = Phones selects the PH3/4 submix.
    let (last, sel) = follow_panel_out(None, 1, 3);
    assert_eq!((last, sel), (Some(1), 1));
    // The user then picks submix 4 in the interface; the panel still
    // reads Phones, which must not override it.
    assert_eq!(follow_panel_out(last, 1, 4), (Some(1), 4));
    // Turning OUT to Opt selects the ADAT7/8 submix.
    assert_eq!(follow_panel_out(last, 2, 4), (Some(2), 5));
    assert_eq!(follow_panel_out(Some(2), 0, 5), (Some(0), 0));
}

#[test]
fn group_actions_cover_the_selection_only_when_clicked_inside_it() {
    let sel = vec![ChannelId::Input(0), ChannelId::Input(1)];
    assert_eq!(group_targets(&sel, ChannelId::Input(1)), sel);
    assert_eq!(group_targets(&sel, ChannelId::Output(0)), vec![ChannelId::Output(0)]);
    let single = vec![ChannelId::Input(0)];
    assert_eq!(group_targets(&single, ChannelId::Input(0)), vec![ChannelId::Input(0)]);
}

#[test]
fn collapse_brings_selection_to_one_state() {
    let sel = vec![ChannelId::Input(0), ChannelId::Input(1), ChannelId::Playback(0)];
    // Input 1 is already collapsed, the clicked Input 0 is not.
    let mut collapsed = vec![ChannelId::Input(1), ChannelId::Output(2)];
    let target = toggle_collapse(&mut collapsed, &sel, ChannelId::Input(0));
    assert!(target);
    for c in &sel {
        assert!(collapsed.contains(c));
    }
    assert!(collapsed.contains(&ChannelId::Output(2)));
    assert_eq!(collapsed.len(), 4);
    // Clicking it again expands the whole selection; Output 2 stays.
    let target = toggle_collapse(&mut collapsed, &sel, ChannelId::Playback(0));
    assert!(!target);
    assert_eq!(collapsed, vec![ChannelId::Output(2)]);
}

#[test]
fn osc_log_keeps_newest_first_and_caps() {
    let mut log: Vec<String> = Vec::new();
    push_osc_log(&mut log, "a".to_string());
    push_osc_log(&mut log, "b".to_string());
    assert_eq!(log, vec!["b".to_string(), "a".to_string()]);
    for i in 0..OSC_LOG_MAX + 10 {
        push_osc_log(&mut log, format!("{i}"));
    }
    assert_eq!(log.len(), OSC_LOG_MAX);
    assert_eq!(log[0], format!("{}", OSC_LOG_MAX + 9));
}
