use tuxmix::error::Error;
use tuxmix::ui::{Panel, PanelsOpen, SkeletonPair, SkeletonPairs};

#[test]
fn sidebar_panels_toggle_independently() {
    let mut p = PanelsOpen::default();
    assert!(p.options && p.snapshots && p.groups && p.layout);
    p.toggle(Panel::Groups);
    assert!(!p.groups);
    assert!(p.options && p.snapshots && p.layout);
    p.toggle(Panel::Groups);
    assert_eq!(p, PanelsOpen::default());
}

#[test]
fn skeleton_pairs_toggle_independently() {
    let mut s = SkeletonPairs::default();
    s.toggle(SkeletonPair::SoloMode);
    assert!(!s.solo_mode_first);
    assert!(s.show_first && s.row_mode_first && s.layout_scope_first);
    s.toggle(SkeletonPair::SoloMode);
    assert_eq!(s, SkeletonPairs::default());
}

#[test]
fn error_messages() {
    let e = Error::DeviceNotFound { model: "Babyface".to_string() };
    assert_eq!(e.message(), "No RME device found matching: Babyface");
    let e = Error::MixerElementNotFound("AN1".to_string());
    assert_eq!(e.message(), "Mixer element not found: AN1");
    let e = Error::UnsupportedDeviceMode { card: "FS".to_string(), missing: "AN1".to_string() };
    assert!(e.message().starts_with("FS: found, but its mixer matches neither grammar TuxMix knows (missing: AN1). If this really"));
}
