use tuxmix::channel::ChannelId;
use tuxmix::controls::{level_control, pan_control, usb_level_target, usb_pan_target, LevelControl, UsbLevel};
use tuxmix::error::Error;
use tuxmix::topology::{ProtocolInput, ProtocolOutput, Side, Source};

fn message(r: Result<LevelControl, Error>) -> String {
    match r {
        Err(Error::InvalidChannel(m)) => m,
        other => panic!("unexpected {:?}", other),
    }
}

#[test]
fn output_levels_go_to_the_pair_master() {
    assert_eq!(
        level_control(ChannelId::Output(3), 0, 12).unwrap(),
        LevelControl::OutputMaster { pair: 1, side: Side::FrontRight }
    );
    assert_eq!(message(level_control(ChannelId::Output(12), 0, 12)), "Output 12");
    // Beyond the six pairs even if the model had more outputs.
    assert_eq!(message(level_control(ChannelId::Output(13), 0, 20)), "Output 13");
}

#[test]
fn input_and_playback_levels_go_to_their_crosspoint() {
    assert_eq!(
        level_control(ChannelId::Input(2), 4, 12).unwrap(),
        LevelControl::Crosspoint { src: 2, output: 4, side: Side::FrontLeft, mono: true }
    );
    assert_eq!(
        level_control(ChannelId::Input(7), 1, 12).unwrap(),
        LevelControl::Crosspoint { src: 5, output: 1, side: Side::FrontRight, mono: false }
    );
    assert_eq!(
        level_control(ChannelId::Playback(11), 5, 12).unwrap(),
        LevelControl::Crosspoint { src: 13, output: 5, side: Side::FrontRight, mono: false }
    );
    assert_eq!(message(level_control(ChannelId::Input(0), 6, 12)), "Output 6");
    assert_eq!(message(level_control(ChannelId::Input(12), 0, 12)), "Input 12");
    assert_eq!(message(level_control(ChannelId::Playback(12), 0, 12)), "Playback 12");
}

#[test]
fn only_mono_inputs_can_be_panned() {
    assert_eq!(pan_control(ChannelId::Input(3), 2, 12, 6).unwrap(), 3);
    let msg = |r: Result<usize, Error>| match r {
        Err(Error::InvalidChannel(m)) => m,
        other => panic!("unexpected {:?}", other),
    };
    assert_eq!(
        msg(pan_control(ChannelId::Input(4), 0, 12, 6)),
        "Input 4 is a linked stereo source and has no independent pan"
    );
    assert_eq!(msg(pan_control(ChannelId::Input(0), 6, 12, 6)), "Output 6");
    assert_eq!(msg(pan_control(ChannelId::Input(20), 0, 12, 6)), "Input 20");
    assert_eq!(
        msg(pan_control(ChannelId::Playback(0), 0, 12, 6)),
        "Playback channels are linked stereo pairs and have no independent pan"
    );
    assert_eq!(msg(pan_control(ChannelId::Output(0), 0, 12, 6)), "Output has no pan");
}

#[test]
fn usb_levels_address_crosspoints_and_masters() {
    assert_eq!(
        usb_level_target(ChannelId::Input(5), 0).unwrap(),
        UsbLevel::Crosspoint {
            out: ProtocolOutput::An12,
            src: Source::Input(ProtocolInput::As12),
            mirror_low_map: true
        }
    );
    assert_eq!(
        usb_level_target(ChannelId::Playback(3), 1).unwrap(),
        UsbLevel::Crosspoint { out: ProtocolOutput::Ph34, src: Source::Playback(2), mirror_low_map: false }
    );
    assert_eq!(
        usb_level_target(ChannelId::Output(0), 5).unwrap(),
        UsbLevel::Master { out: ProtocolOutput::Adat78 }
    );
    match usb_level_target(ChannelId::Input(0), 6) {
        Err(Error::InvalidChannel(m)) => assert_eq!(m, "Output 6"),
        other => panic!("unexpected {:?}", other),
    }
    match usb_level_target(ChannelId::Playback(12), 0) {
        Err(Error::InvalidChannel(m)) => assert_eq!(m, "Playback 12"),
        other => panic!("unexpected {:?}", other),
    }
}

#[test]
fn usb_pan_skips_mono_inputs_and_outputs() {
    assert_eq!(usb_pan_target(ChannelId::Input(2), 0).unwrap(), None);
    assert_eq!(usb_pan_target(ChannelId::Output(1), 0).unwrap(), None);
    assert_eq!(
        usb_pan_target(ChannelId::Input(7), 2).unwrap(),
        Some((ProtocolOutput::As12, Source::Input(ProtocolInput::Adat34), false))
    );
    assert_eq!(
        usb_pan_target(ChannelId::Playback(0), 3).unwrap(),
        Some((ProtocolOutput::Adat34, Source::Playback(1), true))
    );
    match usb_pan_target(ChannelId::Input(13), 0) {
        Err(Error::InvalidChannel(m)) => assert_eq!(m, "Input 13"),
        other => panic!("unexpected {:?}", other),
    }
}
