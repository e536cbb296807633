use tuxmix::channel::{ChannelId, ChannelType, Sensitivity};
use tuxmix::error::Error;
use tuxmix::inputs::{apply_inputs, capture_inputs, change_input, check_channel, InputChange, InputState};

fn input(t: ChannelType, gain_max: Option<u32>) -> InputState {
    InputState {
        channel_type: t,
        phantom: false,
        pad: false,
        gain: gain_max.map(|_| 0),
        gain_max,
        sensitivity: None,
        phase: false,
        ref_level: 0,
    }
}

fn babyface() -> Vec<InputState> {
    vec![
        input(ChannelType::Mic, Some(65)),
        input(ChannelType::Mic, Some(65)),
        input(ChannelType::Instrument, Some(9)),
        input(ChannelType::Line, None),
    ]
}

fn message(r: Result<(), Error>) -> String {
    match r {
        Err(Error::InvalidChannel(m)) => m,
        other => panic!("unexpected {:?}", other),
    }
}

#[test]
fn controls_only_on_the_input_types_that_have_them() {
    let mut ins = babyface();
    change_input(&mut ins, 0, InputChange::Phantom(true)).unwrap();
    assert!(ins[0].phantom && !ins[1].phantom);
    assert_eq!(message(change_input(&mut ins, 2, InputChange::Phantom(true))), "Input 2 has no 48V phantom power");
    assert_eq!(message(change_input(&mut ins, 3, InputChange::Gain(3))), "Input 3 has no gain control");
    assert_eq!(message(change_input(&mut ins, 0, InputChange::Sensitivity(Sensitivity::Plus4dBu))), "Input 0 has no sensitivity switch");
    change_input(&mut ins, 2, InputChange::Sensitivity(Sensitivity::Plus4dBu)).unwrap();
    assert_eq!(ins[2].sensitivity, Some(Sensitivity::Plus4dBu));
    change_input(&mut ins, 3, InputChange::Phase(true)).unwrap();
    assert!(ins[3].phase);
    assert_eq!(message(change_input(&mut ins, 4, InputChange::Phase(true))), "Input 4");
    assert_eq!(ins, {
        let mut e = babyface();
        e[0].phantom = true;
        e[2].sensitivity = Some(Sensitivity::Plus4dBu);
        e[3].phase = true;
        e
    });
}

#[test]
fn gain_is_clamped_to_the_inputs_maximum() {
    let mut ins = babyface();
    change_input(&mut ins, 2, InputChange::Gain(12)).unwrap();
    assert_eq!(ins[2].gain, Some(9));
    change_input(&mut ins, 1, InputChange::Gain(40)).unwrap();
    assert_eq!(ins[1].gain, Some(40));
    assert_eq!(message(change_input(&mut ins, 0, InputChange::RefLevel(1))), "Input 0 has no ref-level switch");
}

#[test]
fn mute_and_solo_need_an_existing_channel() {
    assert!(check_channel(ChannelId::Input(11), 12, 12, 12).is_ok());
    assert_eq!(message(check_channel(ChannelId::Input(99), 12, 12, 12)), "Input 99");
    assert_eq!(message(check_channel(ChannelId::Playback(12), 12, 12, 12)), "Playback 12");
    assert_eq!(message(check_channel(ChannelId::Output(6), 12, 12, 6)), "Output 6");
}

#[test]
fn a_captured_scene_applies_back_unless_the_model_differs() {
    let mut ins = babyface();
    change_input(&mut ins, 0, InputChange::Pad(true)).unwrap();
    let scene = capture_inputs(&ins);
    let mut other = babyface();
    apply_inputs(&mut other, "Babyface Pro FS (mock)", "Babyface Pro FS (mock)", &scene).unwrap();
    assert_eq!(other, ins);
    let mut fresh = babyface();
    match apply_inputs(&mut fresh, "Babyface Pro FS (mock)", "Some Other RME Device", &scene) {
        Err(Error::SceneModelMismatch { .. }) => {}
        other => panic!("unexpected {:?}", other),
    }
    assert_eq!(fresh, babyface());
    // A legacy scene (no model) is accepted.
    apply_inputs(&mut fresh, "Babyface Pro FS (mock)", "", &scene).unwrap();
    assert!(fresh[0].pad);
}
