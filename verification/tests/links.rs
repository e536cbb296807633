use tuxmix::error::Error;
use tuxmix::links::{
    pair_linked, pair_write_targets, partner_channel, playback_linked, preamp_write_targets,
    set_pair_linked, set_stereo_split,
};

#[test]
fn pairs_default_to_linked_and_read_back_writes() {
    let mut links: Vec<bool> = Vec::new();
    assert!(pair_linked(&links, 0));
    assert!(pair_linked(&links, 5));
    set_pair_linked(&mut links, 3, false);
    assert_eq!(links, vec![true, true, true, false]);
    assert!(!pair_linked(&links, 3));
    assert!(pair_linked(&links, 2));
    assert!(pair_linked(&links, 9));
    set_pair_linked(&mut links, 1, false);
    assert_eq!(links, vec![true, false, true, false]);
    set_pair_linked(&mut links, 3, true);
    assert!(pair_linked(&links, 3));
}

#[test]
fn pair_writes_cover_one_or_both_channels() {
    assert_eq!(pair_write_targets(2, 1, true), vec![4, 5]);
    assert_eq!(pair_write_targets(2, 0, false), vec![4]);
    assert_eq!(pair_write_targets(2, 1, false), vec![5]);
    assert_eq!(pair_write_targets(0, 7, false), vec![1]);
}

#[test]
fn preamp_writes_follow_the_partner() {
    assert_eq!(partner_channel(0), 1);
    assert_eq!(partner_channel(1), 0);
    assert_eq!(partner_channel(8), 9);
    assert_eq!(preamp_write_targets(1, true), vec![1, 0]);
    assert_eq!(preamp_write_targets(2, false), vec![2]);
}

#[test]
fn stereo_split_marks_both_channels() {
    let mut splits = vec![false; 12];
    assert!(playback_linked(&splits, 2));
    set_stereo_split(&mut splits, 5, true).unwrap();
    assert!(splits[4] && splits[5]);
    assert!(!playback_linked(&splits, 2));
    assert!(playback_linked(&splits, 9));
    match set_stereo_split(&mut splits, 12, true) {
        Err(Error::InvalidChannel(m)) => assert_eq!(m, "Playback 12"),
        other => panic!("unexpected {other:?}"),
    }
}
