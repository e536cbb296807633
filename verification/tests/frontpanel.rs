use tuxmix::channel::ChannelType;
use tuxmix::frontpanel::{
    gain_max_for, gain_to_raw, loopback_map, mix_crosspoint, mix_reference_input, panel_actions,
    panel_output, preamp_state_from_readback, ref_level_words, select_targets,
    set_phantom_targets, toggle_phantom, wheel_gain, PanelAction, REF_BOOST, REF_MINUS_10DBV,
    REF_PLUS_4DBU,
};
use tuxmix::panel::{PanelDriver, PanelEvent, PanelState, SelectState};
use tuxmix::topology::ProtocolOutput;

#[test]
fn preamp_readback_decodes_state_byte() {
    // 0x17 readback byte 0 mirrors the preamp state (0x0C base).
    assert_eq!(
        preamp_state_from_readback([0x0C, 0x01, 0x40, 0x40]),
        (false, false, false, false)
    );
    // 48V AN1 on.
    assert_eq!(
        preamp_state_from_readback([0x0D, 0x01, 0x40, 0x40]),
        (true, false, false, false)
    );
    // 48V AN1 + PAD AN1.
    assert_eq!(
        preamp_state_from_readback([0x1D, 0x01, 0x40, 0x40]),
        (true, false, true, false)
    );
    // PAD AN2 only (bit 0x20) would read 0x2C.
    assert_eq!(
        preamp_state_from_readback([0x2C, 0x01, 0x40, 0x40]),
        (false, false, false, true)
    );
}

#[test]
fn set_phantom_targets_follow_in_and_select() {
    // Ch1/2 selected (byte2 0x4x) + SELECT = Left -> AN1 only.
    let ps = PanelState::decode([0x0C, 0x05, 0x4A, 0x40]);
    assert_eq!(set_phantom_targets(ps, SelectState::Left), &[0]);
    assert_eq!(set_phantom_targets(ps, SelectState::Right), &[1]);
    assert_eq!(set_phantom_targets(ps, SelectState::Both), &[0, 1]);
    // SELECT = none -> no channel -> nothing.
    assert!(set_phantom_targets(ps, SelectState::Neither).is_empty());
    // Ch3/4 (0x5x) and Opt (0x6x) have no phantom on this unit.
    let ps34 = PanelState::decode([0x0C, 0x05, 0x5A, 0x40]);
    assert!(set_phantom_targets(ps34, SelectState::Both).is_empty());
    let psopt = PanelState::decode([0x0C, 0x05, 0x6A, 0x40]);
    assert!(set_phantom_targets(psopt, SelectState::Both).is_empty());
    // OUT and MIX modes are not a 48V context.
    let psout = PanelState::decode([0x0C, 0x05, 0x8A, 0x40]);
    assert!(set_phantom_targets(psout, SelectState::Both).is_empty());
    let psmix = PanelState::decode([0x8C, 0x85, 0x0A, 0x44]);
    assert!(set_phantom_targets(psmix, SelectState::Both).is_empty());
}

#[test]
fn select_targets_follow_select_and_in_pair() {
    // Ch1/2 (in_sel 0): Left -> AN1, Right -> AN2, Both -> both.
    assert_eq!(select_targets(SelectState::Left, 0), &[0]);
    assert_eq!(select_targets(SelectState::Right, 0), &[1]);
    assert_eq!(select_targets(SelectState::Both, 0), &[0, 1]);
    // SELECT none (deselected): nothing moves.
    assert!(select_targets(SelectState::Neither, 0).is_empty());
    assert!(select_targets(SelectState::Neither, 1).is_empty());
    // Ch3/4 (in_sel 1): Left -> AN3, Right -> AN4.
    assert_eq!(select_targets(SelectState::Left, 1), &[2]);
    assert_eq!(select_targets(SelectState::Right, 1), &[3]);
    assert_eq!(select_targets(SelectState::Both, 1), &[2, 3]);
    // Opt (in_sel 2): no preamp targets.
    assert!(select_targets(SelectState::Both, 2).is_empty());
}

#[test]
fn instr_gain_scale_calibrated() {
    // Instrument AN3/4: 0-9 dB, 0.5 dB/step = raw 0-18 (raw = dB x 2).
    assert_eq!(gain_to_raw(ChannelType::Instrument, 0), 0);
    assert_eq!(gain_to_raw(ChannelType::Instrument, 4), 8);
    assert_eq!(gain_to_raw(ChannelType::Instrument, 9), 18);
    assert_eq!(gain_to_raw(ChannelType::Instrument, 99), 18); // clamped
    // The mic law is untouched: 0-65 dB, raw 0-20.
    assert_eq!(gain_to_raw(ChannelType::Mic, 0), 0);
    assert_eq!(gain_to_raw(ChannelType::Mic, 65), 20);
    assert_eq!(gain_to_raw(ChannelType::Mic, 35), 11); // 35/3.25 ~ 10.8
    // Line/SPDIF/ADAT inputs have no preamp gain.
    assert_eq!(gain_to_raw(ChannelType::Line, 40), 0);
}

#[test]
fn mic_gain_code_rounds_to_nearest_step() {
    // 3.25 dB per code: 1 dB -> 0.31 -> 0, 2 dB -> 0.62 -> 1, 5 dB -> 1.54 -> 2.
    assert_eq!(gain_to_raw(ChannelType::Mic, 1), 0);
    assert_eq!(gain_to_raw(ChannelType::Mic, 2), 1);
    assert_eq!(gain_to_raw(ChannelType::Mic, 5), 2);
    assert_eq!(gain_to_raw(ChannelType::Mic, 64), 20);
    assert_eq!(gain_to_raw(ChannelType::Mic, u32::MAX), 20);
    assert_eq!(gain_to_raw(ChannelType::ADAT, 65), 0);
    assert_eq!(gain_to_raw(ChannelType::SPDIF, 9), 0);
}

#[test]
fn gain_ranges_follow_input_type() {
    assert_eq!(gain_max_for(ChannelType::Mic), 65);
    assert_eq!(gain_max_for(ChannelType::Instrument), 9);
    assert_eq!(gain_max_for(ChannelType::Line), 0);
}

#[test]
fn wheel_gain_clamps_to_range() {
    assert_eq!(wheel_gain(Some(10), Some(65), 3), 13);
    assert_eq!(wheel_gain(Some(1), Some(65), -3), 0);
    assert_eq!(wheel_gain(Some(8), Some(9), 5), 9);
    assert_eq!(wheel_gain(None, None, 2), 2);
    assert_eq!(wheel_gain(Some(64), None, 4), 65);
}

#[test]
fn ref_level_codes_map_to_register_words() {
    assert_eq!(ref_level_words(REF_MINUS_10DBV), (0x0003, 0x0000));
    assert_eq!(ref_level_words(REF_BOOST), (0x0003, 0x0003));
    assert_eq!(ref_level_words(REF_PLUS_4DBU), (0x000F, 0x0000));
    assert_eq!(ref_level_words(0), (0x000F, 0x0000));
}

#[test]
fn loopback_map_covers_thirty_channels() {
    let map = loopback_map(&vec![false, true, false, false, false, true]);
    assert_eq!(map.len(), 30);
    assert!(!map[0] && !map[1]);
    assert!(map[2] && map[3]);
    assert!(map[10] && map[11]);
    assert!(map[12..].iter().all(|b| !b));
    assert!(loopback_map(&vec![]).iter().all(|b| !b));
}

#[test]
fn mix_crosspoint_and_output_agree() {
    assert_eq!(mix_crosspoint(0, 0), (0, 0));
    assert_eq!(mix_crosspoint(1, 1), (2, 1));
    assert_eq!(mix_crosspoint(2, 2), (4, 5));
    assert_eq!(panel_output(0), ProtocolOutput::An12);
    assert_eq!(panel_output(1), ProtocolOutput::Ph34);
    assert_eq!(panel_output(2), ProtocolOutput::Adat78);
    assert_eq!(mix_reference_input(SelectState::Right, 1), 3);
    assert_eq!(mix_reference_input(SelectState::Neither, 0), 0);
    assert_eq!(mix_reference_input(SelectState::Right, 2), 4);
}

#[test]
fn set_press_toggles_phantom_on_selected_mics() {
    let ps = PanelState::decode([0x0C, 0x05, 0x4A, 0x42]);
    let mut ph = vec![true, false, false, false];
    assert!(toggle_phantom(&mut ph, ps, SelectState::Both));
    assert_eq!(ph, vec![false, false, false, false]);
    assert!(toggle_phantom(&mut ph, ps, SelectState::Both));
    assert_eq!(ph, vec![true, true, false, false]);
    assert!(toggle_phantom(&mut ph, ps, SelectState::Right));
    assert_eq!(ph, vec![true, false, false, false]);
    let out = PanelState::decode([0x0C, 0x05, 0x8A, 0x42]);
    assert!(!toggle_phantom(&mut ph, out, SelectState::Both));
    assert_eq!(ph, vec![true, false, false, false]);
}

#[test]
fn panel_events_become_host_actions() {
    let mut drv = PanelDriver::new();
    drv.feed(PanelState::decode([0x0C, 0x05, 0x5A, 0x40]));
    let ps = PanelState::decode([0x0D, 0x05, 0x5A, 0x44]);
    let ev = drv.feed(ps);
    assert_eq!(ev, vec![PanelEvent::MixPressed, PanelEvent::Button { code: 0x44 }]);
    let acts = panel_actions(&drv, ps, PanelEvent::MixPressed);
    assert!(matches!(
        acts[0],
        PanelAction::Vendor { request: 0x17, value: 0x8480, index: 0x8C80 }
    ));
    // Ch3/4 with SELECT = Left: AN3 into the Phones output.
    assert!(matches!(acts[1], PanelAction::StartMixMonitor { input: 2, output: 1 }));
    // Wheel in fader mode moves the SELECT-chosen input's monitoring level.
    let ps = PanelState::decode([0x8C, 0x85, 0x03, 0x40]);
    drv.feed(ps);
    match &panel_actions(&drv, ps, PanelEvent::Wheel { delta: 2 })[0] {
        PanelAction::MixLevel { inputs, output, delta } => {
            assert_eq!(inputs, &vec![2]);
            assert_eq!(*output, 1);
            assert_eq!(*delta, 2);
        }
        other => panic!("unexpected {other:?}"),
    }
    let rel = panel_actions(&drv, ps, PanelEvent::MixReleased);
    assert_eq!(rel.len(), 2);
    assert!(matches!(rel[1], PanelAction::Vendor { request: 0x17, value: 0x0400, index: 0x8080 }));
    // OUT mode: the wheel moves the selected output's master.
    let mut drv = PanelDriver::new();
    let ps = PanelState::decode([0x0C, 0x06, 0x8A, 0x40]);
    drv.feed(ps);
    assert!(matches!(
        panel_actions(&drv, ps, PanelEvent::Wheel { delta: -1 })[0],
        PanelAction::OutputLevel { output: 5, delta: -1 }
    ));
    // IN mode on Opt: no preamp, nothing to do.
    let mut drv = PanelDriver::new();
    let ps = PanelState::decode([0x0C, 0x05, 0x6A, 0x40]);
    drv.feed(ps);
    assert!(panel_actions(&drv, ps, PanelEvent::Wheel { delta: 1 }).is_empty());
    // IN mode on Ch1/2: gain step on AN1.
    let ps = PanelState::decode([0x0C, 0x05, 0x4A, 0x40]);
    drv.feed(ps);
    match &panel_actions(&drv, ps, PanelEvent::Wheel { delta: 1 })[0] {
        PanelAction::GainStep { mics, delta } => {
            assert_eq!(mics, &vec![0]);
            assert_eq!(*delta, 1);
        }
        other => panic!("unexpected {other:?}"),
    }
    // SET in IN mode Ch1/2: 48V toggle on AN1; DIM does nothing.
    let ps = PanelState::decode([0x0C, 0x05, 0x4A, 0x42]);
    match &panel_actions(&drv, ps, PanelEvent::Button { code: 0x42 })[0] {
        PanelAction::TogglePhantom { mics } => assert_eq!(mics, &vec![0]),
        other => panic!("unexpected {other:?}"),
    }
    assert!(panel_actions(&drv, ps, PanelEvent::DimPressed).is_empty());
    assert!(panel_actions(&drv, ps, PanelEvent::Button { code: 0x41 }).is_empty());
}
