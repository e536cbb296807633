use tuxmix::channel::{ChannelType, TagColor};
use tuxmix::matrix::{input_row_groups, playback_row_groups, submix_label};

fn babyface_inputs() -> (Vec<ChannelType>, Vec<String>) {
    let types = vec![
        ChannelType::Mic,
        ChannelType::Mic,
        ChannelType::Instrument,
        ChannelType::Instrument,
        ChannelType::Line,
        ChannelType::Line,
        ChannelType::ADAT,
        ChannelType::ADAT,
    ];
    let names = ["AN1", "AN2", "IN3", "IN4", "AS1", "AS2", "ADAT3", "ADAT4"]
        .iter()
        .map(|s| s.to_string())
        .collect();
    (types, names)
}

#[test]
fn mic_inputs_stand_alone_and_others_pair_up() {
    let (types, names) = babyface_inputs();
    let g = input_row_groups(&types, &names);
    let shape: Vec<(String, usize, usize, TagColor)> =
        g.iter().map(|g| (g.label.clone(), g.first_idx, g.count, g.color)).collect();
    assert_eq!(
        shape,
        vec![
            ("AN1".to_string(), 0, 1, TagColor::Mute),
            ("AN2".to_string(), 1, 1, TagColor::Mute),
            ("IN3/4".to_string(), 2, 2, TagColor::Amber),
            ("AS1/2".to_string(), 4, 2, TagColor::Accent),
            ("ADAT3/4".to_string(), 6, 2, TagColor::Purple),
        ]
    );
}

#[test]
fn a_trailing_unpaired_input_is_its_own_group() {
    let types = vec![ChannelType::Line, ChannelType::Line, ChannelType::ADAT];
    let names: Vec<String> = vec!["AS1".into(), "AS2".into(), "ADAT3".into()];
    let g = input_row_groups(&types, &names);
    assert_eq!(g.len(), 2);
    assert_eq!((g[1].label.as_str(), g[1].first_idx, g[1].count), ("ADAT3", 2, 1));
    assert!(input_row_groups(&Vec::new(), &Vec::new()).is_empty());
}

#[test]
fn playback_groups_follow_the_output_buses() {
    let g = playback_row_groups(12);
    assert_eq!(g.len(), 6);
    assert_eq!((g[1].label.as_str(), g[1].first_idx, g[1].count), ("PH3/4", 2, 2));
    assert_eq!(g[5].label, "A7/A8");
    assert!(g.iter().all(|g| g.color == TagColor::PlaybackBus));
    assert_eq!(playback_row_groups(15).len(), 7);
    assert_eq!(playback_row_groups(15)[6].label, "");
    assert_eq!(submix_label(3), "A3/A4");
}
