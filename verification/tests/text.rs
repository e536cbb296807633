use tuxmix::text::{decimal_string, pair_bus_label, pan_text, short_label};

#[test]
fn pair_bus_label_combines_channel_names() {
    assert_eq!(pair_bus_label("AN1", "AN2"), "AN1/2");
    assert_eq!(pair_bus_label("ADAT7", "ADAT8"), "ADAT7/8");
}

#[test]
fn pair_bus_label_without_digits_keeps_the_right_name() {
    assert_eq!(pair_bus_label("L", "R"), "L/R");
    assert_eq!(pair_bus_label("PH3", "PH4"), "PH3/4");
    assert_eq!(pair_bus_label("", "x12"), "/12");
}

#[test]
fn short_label_strips_bus_prefixes() {
    assert_eq!(short_label("PCM 1"), "1");
    assert_eq!(short_label("OUT ADAT3"), "ADAT3");
    assert_eq!(short_label("AN1"), "AN1");
    assert_eq!(short_label("PCM"), "PCM");
    assert_eq!(short_label("OUT "), "");
}

#[test]
fn pan_text_reads_left_center_right() {
    assert_eq!(pan_text(0), "C");
    assert_eq!(pan_text(-50), "L50");
    assert_eq!(pan_text(100), "R100");
    assert_eq!(pan_text(-127), "L127");
}

#[test]
fn decimal_strings() {
    assert_eq!(decimal_string(0), "0");
    assert_eq!(decimal_string(10), "10");
    assert_eq!(decimal_string(48000), "48000");
    assert_eq!(decimal_string(u64::MAX), u64::MAX.to_string());
}
