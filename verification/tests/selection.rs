use tuxmix::channel::ChannelId;
use tuxmix::selection::{channel_order, position, submix_of_output, Selection};

#[test]
fn channel_order_lists_inputs_playbacks_outputs() {
    let order = channel_order(2, 1, 2);
    assert_eq!(
        order,
        vec![
            ChannelId::Input(0),
            ChannelId::Input(1),
            ChannelId::Playback(0),
            ChannelId::Output(0),
            ChannelId::Output(1),
        ]
    );
    assert!(channel_order(0, 0, 0).is_empty());
}

#[test]
fn position_finds_first_occurrence() {
    let order = channel_order(2, 2, 2);
    assert_eq!(position(&order, ChannelId::Playback(1)), Some(3));
    assert_eq!(position(&order, ChannelId::Output(5)), None);
}

#[test]
fn ctrl_click_toggles_one_strip() {
    let mut s = Selection::new();
    s.ctrl_click(ChannelId::Input(1));
    s.ctrl_click(ChannelId::Output(0));
    assert_eq!(s.selected, vec![ChannelId::Input(1), ChannelId::Output(0)]);
    assert_eq!(s.anchor, Some(ChannelId::Output(0)));
    // A second Ctrl+click on the same strip removes it again.
    s.ctrl_click(ChannelId::Input(1));
    assert_eq!(s.selected, vec![ChannelId::Output(0)]);
    assert_eq!(s.anchor, Some(ChannelId::Input(1)));
}

#[test]
fn shift_click_selects_range_from_anchor() {
    let order = channel_order(4, 2, 2);
    let mut s = Selection::new();
    s.ctrl_click(ChannelId::Input(2));
    s.shift_click(ChannelId::Playback(1), &order);
    assert_eq!(
        s.selected,
        vec![
            ChannelId::Input(2),
            ChannelId::Input(3),
            ChannelId::Playback(0),
            ChannelId::Playback(1),
        ]
    );
    // The anchor stays, so a range backwards replaces the selection.
    s.shift_click(ChannelId::Input(0), &order);
    assert_eq!(
        s.selected,
        vec![ChannelId::Input(0), ChannelId::Input(1), ChannelId::Input(2)]
    );
    assert_eq!(s.anchor, Some(ChannelId::Input(2)));
}

#[test]
fn shift_click_without_anchor_selects_the_strip() {
    let order = channel_order(2, 0, 2);
    let mut s = Selection::new();
    s.shift_click(ChannelId::Output(1), &order);
    assert_eq!(s.selected, vec![ChannelId::Output(1)]);
    assert_eq!(s.anchor, Some(ChannelId::Output(1)));
    // A strip outside the order leaves the selection unchanged.
    s.shift_click(ChannelId::Playback(7), &order);
    assert_eq!(s.selected, vec![ChannelId::Output(1)]);
}

#[test]
fn clear_empties_selection_and_anchor() {
    let mut s = Selection::new();
    s.ctrl_click(ChannelId::Input(0));
    s.clear();
    assert!(s.selected.is_empty());
    assert_eq!(s.anchor, None);
}

#[test]
fn submix_of_output_per_pair_or_per_channel() {
    assert_eq!(submix_of_output(5, false), 2);
    assert_eq!(submix_of_output(5, true), 5);
    assert_eq!(submix_of_output(0, false), 0);
}
