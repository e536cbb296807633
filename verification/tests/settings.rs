use tuxmix::channel::ChannelType;
use tuxmix::error::Error;
use tuxmix::frontpanel::clamp_gain;
use tuxmix::settings::{
    check_clock_source, check_control, clamp_eq_freq, clamp_pan, default_input_link,
    default_sample_rate, sensitivity_control_name, sensitivity_item, check_loopback_pair,
    PreampControl,
};
use tuxmix::channel::Sensitivity;

#[test]
fn defaults() {
    assert_eq!(default_sample_rate(), 48_000);
    assert!(default_input_link());
}

#[test]
fn preamp_controls_follow_input_type() {
    assert!(check_control(ChannelType::Mic, 0, PreampControl::Phantom).is_ok());
    assert!(check_control(ChannelType::Instrument, 2, PreampControl::Gain).is_ok());
    assert!(check_control(ChannelType::Instrument, 2, PreampControl::RefLevel).is_ok());
    match check_control(ChannelType::Instrument, 2, PreampControl::Phantom) {
        Err(Error::InvalidChannel(m)) => assert_eq!(m, "Input 2 has no 48V phantom power"),
        other => panic!("unexpected {other:?}"),
    }
    match check_control(ChannelType::Line, 4, PreampControl::Gain) {
        Err(Error::InvalidChannel(m)) => assert_eq!(m, "Input 4 has no gain control"),
        other => panic!("unexpected {other:?}"),
    }
    match check_control(ChannelType::Mic, 1, PreampControl::Sensitivity) {
        Err(Error::InvalidChannel(m)) => assert_eq!(m, "Input 1 has no sensitivity switch"),
        other => panic!("unexpected {other:?}"),
    }
    match check_control(ChannelType::ADAT, 10, PreampControl::Pad) {
        Err(e) => assert_eq!(e.message(), "Invalid channel: Input 10 has no pad switch"),
        other => panic!("unexpected {other:?}"),
    }
}

#[test]
fn clock_source_must_be_reported_by_the_device() {
    let sources = vec!["Internal".to_string(), "AutoSync".to_string()];
    assert_eq!(check_clock_source(&sources, "AutoSync").unwrap(), 1);
    match check_clock_source(&sources, "Word Clock") {
        Err(Error::InvalidChannel(m)) => assert_eq!(m, "Unknown clock source: Word Clock"),
        other => panic!("unexpected {other:?}"),
    }
    assert!(check_clock_source(&Vec::new(), "Internal").is_err());
}

#[test]
fn value_ranges_are_clamped() {
    assert_eq!(clamp_pan(-128), -100);
    assert_eq!(clamp_pan(50), 50);
    assert_eq!(clamp_pan(127), 100);
    assert_eq!(clamp_eq_freq(25_000), 20_000);
    assert_eq!(clamp_eq_freq(1_000), 1_000);
    assert_eq!(clamp_gain(70, Some(65)), 65);
    assert_eq!(clamp_gain(70, None), 70);
    assert_eq!(clamp_gain(3, Some(9)), 3);
}

#[test]
fn alsa_sensitivity_and_loopback_controls() {
    assert_eq!(sensitivity_control_name("IN3"), "Line-IN3 Sens.");
    assert_eq!(sensitivity_item(Sensitivity::Minus10dBV), 0);
    assert_eq!(sensitivity_item(Sensitivity::Plus4dBu), 1);
    assert!(check_loopback_pair(5).is_ok());
    match check_loopback_pair(6) {
        Err(Error::InvalidChannel(m)) => assert_eq!(m, "Output pair 6"),
        other => panic!("unexpected {other:?}"),
    }
}
