use tuxmix::channel::ChannelId;
use tuxmix::error::Error;
use tuxmix::solo::{plan_solo, LowMapValue, StripWrite};

#[test]
fn soloing_an_input_silences_every_other_strip() {
    let mut isolo = vec![false; 12];
    let mut psolo = vec![false; 12];
    psolo[3] = true;
    let imute = vec![false; 12];
    let pmute = vec![false; 12];
    let plan = plan_solo(&mut isolo, &mut psolo, &imute, &pmute, ChannelId::Input(2), true, true)
        .unwrap()
        .unwrap();
    assert_eq!(plan.soloed_low_map, LowMapValue::Marker(0x1000));
    assert!(isolo[2]);
    assert_eq!(isolo.iter().filter(|s| **s).count(), 1);
    assert!(psolo.iter().all(|s| !s));
    assert_eq!(plan.input_writes[2], StripWrite::Skip);
    assert_eq!(plan.input_writes[0], StripWrite::Silence);
    assert!(plan.playback_writes.iter().all(|w| *w == StripWrite::Silence));
}

#[test]
fn unsoloing_restores_unmuted_strips() {
    let mut isolo = vec![false; 12];
    let mut psolo = vec![false; 12];
    psolo[5] = true;
    let mut imute = vec![false; 12];
    imute[7] = true;
    let pmute = vec![false; 12];
    let plan = plan_solo(&mut isolo, &mut psolo, &imute, &pmute, ChannelId::Playback(5), false, true)
        .unwrap()
        .unwrap();
    assert_eq!(plan.soloed_low_map, LowMapValue::Restore);
    assert!(!psolo[5]);
    assert_eq!(plan.input_writes[7], StripWrite::Silence);
    assert_eq!(plan.input_writes[6], StripWrite::Restore);
    assert_eq!(plan.playback_writes[5], StripWrite::Skip);
    assert_eq!(plan.playback_writes[4], StripWrite::Restore);
}

#[test]
fn playback_solo_uses_the_fixed_marker_and_outputs_have_none() {
    let mut isolo = vec![true; 12];
    let mut psolo = vec![false; 12];
    let imute = vec![false; 12];
    let pmute = vec![false; 12];
    let plan = plan_solo(&mut isolo, &mut psolo, &imute, &pmute, ChannelId::Playback(0), true, true)
        .unwrap()
        .unwrap();
    assert_eq!(plan.soloed_low_map, LowMapValue::Marker(0x2000));
    assert!(isolo.iter().all(|s| !s));
    let mut isolo2 = vec![false; 12];
    let plan = plan_solo(&mut isolo2, &mut psolo, &imute, &pmute, ChannelId::Input(0), true, false)
        .unwrap()
        .unwrap();
    assert_eq!(plan.soloed_low_map, LowMapValue::Marker(0x2000));
    assert!(plan_solo(&mut isolo2, &mut psolo, &imute, &pmute, ChannelId::Output(1), true, true)
        .unwrap()
        .is_none());
    match plan_solo(&mut isolo2, &mut psolo, &imute, &pmute, ChannelId::Input(12), true, true) {
        Err(Error::InvalidChannel(m)) => assert_eq!(m, "Input 12"),
        other => panic!("unexpected {:?}", other.map(|p| p.is_some())),
    }
}
