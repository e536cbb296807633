use tuxmix::topology::output_channel_slot;
use tuxmix::topology::pair_outputs;
use tuxmix::topology::check_eq_band;
use tuxmix::channel::{
    eq_band_type_from_enum, eq_band_type_label, eq_band_type_to_enum, eq_slope_from_enum,
    eq_slope_to_enum, EqBandType,
};
use tuxmix::error::Error;
use tuxmix::topology::{
    crosspoint_element_index, eq_strip_name, input_crosspoint_slot, input_source, output_for,
    pair_label, playback_crosspoint_slot, playback_source, source_name, ProtocolInput,
    ProtocolOutput, Side, Source,
};

#[test]
fn input_topology_maps_to_protocol_sources() {
    assert_eq!(input_source(0).unwrap(), Source::Input(ProtocolInput::An1));
    assert_eq!(input_source(3).unwrap(), Source::Input(ProtocolInput::An4));
    // Both AS channels map to the AS1/2 pair.
    assert_eq!(input_source(4).unwrap(), Source::Input(ProtocolInput::As12));
    assert_eq!(input_source(5).unwrap(), Source::Input(ProtocolInput::As12));
    assert_eq!(input_source(6).unwrap(), Source::Input(ProtocolInput::Adat34));
    assert_eq!(input_source(11).unwrap(), Source::Input(ProtocolInput::Adat78));
    assert!(input_source(12).is_err());
}

#[test]
fn playback_topology_maps_to_pairs() {
    // 12 playbacks -> 6 stereo pairs.
    assert_eq!(playback_source(0).unwrap(), Source::Playback(1));
    assert_eq!(playback_source(1).unwrap(), Source::Playback(1));
    assert_eq!(playback_source(10).unwrap(), Source::Playback(6));
    assert_eq!(playback_source(11).unwrap(), Source::Playback(6));
    assert!(playback_source(12).is_err());
}

#[test]
fn output_topology_maps_to_strip_order() {
    assert_eq!(output_for(0).unwrap(), ProtocolOutput::An12);
    assert_eq!(output_for(1).unwrap(), ProtocolOutput::Ph34);
    assert_eq!(output_for(2).unwrap(), ProtocolOutput::As12);
    assert_eq!(output_for(5).unwrap(), ProtocolOutput::Adat78);
    assert!(output_for(6).is_err());
}

#[test]
fn invalid_topology_indices_name_the_index() {
    match input_source(12) {
        Err(Error::InvalidChannel(m)) => assert_eq!(m, "Input 12"),
        other => panic!("unexpected {other:?}"),
    }
    match playback_source(40) {
        Err(Error::InvalidChannel(m)) => assert_eq!(m, "Playback 40"),
        other => panic!("unexpected {other:?}"),
    }
    match output_for(7) {
        Err(e) => assert_eq!(e.message(), "Invalid channel: Output 7"),
        other => panic!("unexpected {other:?}"),
    }
}

#[test]
fn alsa_crosspoint_slots_follow_the_kernel_layout() {
    assert_eq!(input_crosspoint_slot(0), Some((0, Side::FrontLeft, true)));
    assert_eq!(input_crosspoint_slot(3), Some((3, Side::FrontLeft, true)));
    assert_eq!(input_crosspoint_slot(4), Some((4, Side::FrontLeft, false)));
    assert_eq!(input_crosspoint_slot(5), Some((4, Side::FrontRight, false)));
    assert_eq!(input_crosspoint_slot(11), Some((7, Side::FrontRight, false)));
    assert_eq!(input_crosspoint_slot(12), None);
    assert_eq!(playback_crosspoint_slot(0), Some((8, Side::FrontLeft)));
    assert_eq!(playback_crosspoint_slot(11), Some((13, Side::FrontRight)));
    assert_eq!(playback_crosspoint_slot(12), None);
    assert_eq!(crosspoint_element_index(13, 5), 83);
    assert_eq!(source_name(4), "AS1/2");
    assert_eq!(source_name(13), "PB6");
    assert_eq!(pair_label(1), Some("PH3/4"));
    assert_eq!(pair_label(6), None);
}

#[test]
fn eq_strips_exist_only_on_analog_inputs() {
    assert_eq!(eq_strip_name(0), Some("AN1"));
    assert_eq!(eq_strip_name(3), Some("AN4"));
    assert_eq!(eq_strip_name(4), None);
}

#[test]
fn eq_enum_items_round_trip() {
    for t in [EqBandType::Off, EqBandType::Bell, EqBandType::LowShelf, EqBandType::HighShelf] {
        assert_eq!(eq_band_type_from_enum(eq_band_type_to_enum(t)), t);
    }
    assert_eq!(eq_band_type_to_enum(EqBandType::LowShelf), 2);
    assert_eq!(eq_band_type_from_enum(9), EqBandType::Off);
    for s in [6u8, 12, 18, 24] {
        assert_eq!(eq_slope_from_enum(eq_slope_to_enum(s)), s);
    }
    assert_eq!(eq_slope_to_enum(7), 0);
    assert_eq!(eq_slope_from_enum(5), 6);
    assert_eq!(eq_band_type_label(EqBandType::HighShelf), "High Shelf");
    assert_eq!(eq_band_type_label(EqBandType::Off), "Off");
}

#[test]
fn output_channel_slot_maps_pairs_and_sides() {
    assert_eq!(output_channel_slot(0), Some((0, Side::FrontLeft)));
    assert_eq!(output_channel_slot(5), Some((2, Side::FrontRight)));
    assert_eq!(output_channel_slot(200), None);
}

#[test]
fn pair_outputs_lists_existing_channels_of_pair() {
    assert_eq!(pair_outputs(1, 12), vec![2, 3]);
    assert_eq!(pair_outputs(2, 5), vec![4]);
    assert_eq!(pair_outputs(3, 5), Vec::<usize>::new());
}

#[test]
fn check_eq_band_rejects_inputs_without_eq_and_bad_bands() {
    assert_eq!(check_eq_band(1, 2).unwrap(), "AN2");
    match check_eq_band(4, 0) {
        Err(Error::InvalidChannel(m)) => assert_eq!(m, "Input 4 has no EQ"),
        other => panic!("unexpected {:?}", other),
    }
    match check_eq_band(0, 3) {
        Err(Error::InvalidChannel(m)) => assert_eq!(m, "EQ band 3"),
        other => panic!("unexpected {:?}", other),
    }
}
