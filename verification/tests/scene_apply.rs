use tuxmix::scene_apply::{scene_followups, SceneFollowup};

#[test]
fn followups_write_loopback_for_every_output_then_set_states() {
    let r = scene_followups(
        &vec![false, true],
        true,
        false,
        true,
        false,
        &vec![false, true, false],
        &vec![0, 0, 2],
        &vec![true, true, false, false, true, true],
    );
    assert_eq!(
        r,
        vec![
            SceneFollowup::Loopback { output: 0, on: false },
            SceneFollowup::Loopback { output: 1, on: true },
            SceneFollowup::An12,
            SceneFollowup::FxSend,
            SceneFollowup::Phase { input: 1 },
            SceneFollowup::RefLevel { input: 2, raw: 2 },
            SceneFollowup::StereoSplit { playback: 0 },
            SceneFollowup::StereoSplit { playback: 4 },
        ]
    );
}

#[test]
fn unset_scene_writes_only_loopback() {
    let r = scene_followups(
        &vec![false, false, false],
        false,
        false,
        false,
        false,
        &vec![false, false],
        &vec![0, 0],
        &vec![false, false],
    );
    assert_eq!(r.len(), 3);
    assert!(r.iter().all(|s| matches!(s, SceneFollowup::Loopback { on: false, .. })));
}

#[test]
fn split_flag_on_odd_channel_alone_is_not_written() {
    let r = scene_followups(&vec![], false, true, false, true, &vec![], &vec![], &vec![false, true]);
    assert_eq!(r, vec![SceneFollowup::MsProc, SceneFollowup::Width]);
}
