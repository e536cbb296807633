use tuxmix::eq_edit::eq_control_name;
use tuxmix::channel::EqBandType;
use tuxmix::eq_edit::{cycle_band_type, cycle_low_cut_slope, eq_row, step_freq, EqRow, EQ_ROW_COUNT};

#[test]
fn eq_rows_map_to_parameters() {
    assert_eq!(eq_row(0), EqRow::Enabled);
    assert_eq!(eq_row(1), EqRow::BandType(0));
    assert_eq!(eq_row(6), EqRow::BandFreq(1));
    assert_eq!(eq_row(11), EqRow::BandQ(2));
    assert_eq!(eq_row(12), EqRow::BandGain(2));
    assert_eq!(eq_row(13), EqRow::LowCutFreq);
    assert_eq!(eq_row(14), EqRow::LowCutSlope);
    assert_eq!(eq_row(EQ_ROW_COUNT), EqRow::Nothing);
}

#[test]
fn band_type_cycles_both_ways() {
    assert_eq!(cycle_band_type(EqBandType::Off, 1), EqBandType::Bell);
    assert_eq!(cycle_band_type(EqBandType::HighShelf, 1), EqBandType::Off);
    assert_eq!(cycle_band_type(EqBandType::Off, -1), EqBandType::HighShelf);
    assert_eq!(cycle_band_type(EqBandType::LowShelf, -1), EqBandType::Bell);
    let there = cycle_band_type(EqBandType::Bell, 1);
    assert_eq!(cycle_band_type(there, -1), EqBandType::Bell);
}

#[test]
fn low_cut_slope_cycles_both_ways() {
    assert_eq!(cycle_low_cut_slope(6, 1), 12);
    assert_eq!(cycle_low_cut_slope(24, 1), 6);
    assert_eq!(cycle_low_cut_slope(6, -1), 24);
    // An unknown slope counts as 6 dB/oct.
    assert_eq!(cycle_low_cut_slope(9, 1), 12);
}

#[test]
fn freq_steps_fine_and_coarse_within_limits() {
    assert_eq!(step_freq(1000, 1, false), 1010);
    assert_eq!(step_freq(1000, -1, true), 900);
    assert_eq!(step_freq(25, -1, false), 20);
    assert_eq!(step_freq(19_950, 1, true), 20_000);
}

#[test]
fn eq_control_names_follow_driver_naming() {
    assert_eq!(eq_control_name("AN1", EqRow::Enabled).unwrap(), "AN1 EQ Enable");
    assert_eq!(eq_control_name("AN2", EqRow::BandType(0)).unwrap(), "AN2 EQ Band 1 Type");
    assert_eq!(eq_control_name("AN1", EqRow::BandFreq(1)).unwrap(), "AN1 EQ Band 2 Freq");
    assert_eq!(eq_control_name("AN3", EqRow::BandQ(2)).unwrap(), "AN3 EQ Band 3 Q");
    assert_eq!(eq_control_name("AN4", EqRow::BandGain(0)).unwrap(), "AN4 EQ Band 1 Gain");
    assert_eq!(eq_control_name("AN1", EqRow::LowCutFreq).unwrap(), "AN1 EQ Low Cut Freq");
    assert_eq!(eq_control_name("AN1", EqRow::LowCutSlope).unwrap(), "AN1 EQ Low Cut Slope");
    assert_eq!(eq_control_name("AN1", EqRow::Nothing), None);
}
