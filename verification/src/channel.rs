//! Channel identities and the small enums of the channel model.
use vstd::prelude::*;

verus! {

/// Identifies one channel of the mixer: a hardware input, a software
/// playback channel or a physical output, by index.
#[derive(Debug, Clone, Copy, PartialEq, Eq, Hash, Structural)]
pub enum ChannelId {
    Input(usize),
    Playback(usize),
    Output(usize),
}

/// The kind of a hardware input.
#[derive(Debug, Clone, Copy, PartialEq, Eq, Hash, Structural)]
pub enum ChannelType {
    Mic,
    Instrument,
    Line,
    SPDIF,
    ADAT,
}

/// Input sensitivity of an instrument input.
#[derive(Debug, Clone, Copy, PartialEq, Eq, Structural)]
pub enum Sensitivity {
    Minus10dBV,
    Plus4dBu,
}

/// Filter type of one hardware EQ band.
#[derive(Debug, Clone, Copy, PartialEq, Eq, Structural)]
pub enum EqBandType {
    Off,
    Bell,
    LowShelf,
    HighShelf,
}

/// The kernel driver's enum item for a band type (Off/Bell/Low Shelf/High
/// Shelf = 0/1/2/3).
pub open spec fn band_type_item(t: EqBandType) -> u32 {
    match t {
        EqBandType::Off => 0,
        EqBandType::Bell => 1,
        EqBandType::LowShelf => 2,
        EqBandType::HighShelf => 3,
    }
}

/// The band type of a driver enum item; unknown items read as `Off`.
pub open spec fn band_type_of_item(v: u32) -> EqBandType {
    if v == 1 {
        EqBandType::Bell
    } else if v == 2 {
        EqBandType::LowShelf
    } else if v == 3 {
        EqBandType::HighShelf
    } else {
        EqBandType::Off
    }
}

/// Band type -> the driver's enum item.
pub fn eq_band_type_to_enum(t: EqBandType) -> (r: u32)
    ensures
        r == band_type_item(t),
{
    match t {
        EqBandType::Off => 0,
        EqBandType::Bell => 1,
        EqBandType::LowShelf => 2,
        EqBandType::HighShelf => 3,
    }
}

/// The driver's enum item -> band type; unknown items read as `Off`.
pub fn eq_band_type_from_enum(v: u32) -> (r: EqBandType)
    ensures
        r == band_type_of_item(v),
{
    if v == 1 {
        EqBandType::Bell
    } else if v == 2 {
        EqBandType::LowShelf
    } else if v == 3 {
        EqBandType::HighShelf
    } else {
        EqBandType::Off
    }
}

/// The kernel driver's enum item for a low-cut slope (6/12/18/24 dB/oct
/// = 0/1/2/3); any other slope falls back to item 0.
pub open spec fn slope_item(slope_db_oct: u8) -> u32 {
    if slope_db_oct == 12 {
        1
    } else if slope_db_oct == 18 {
        2
    } else if slope_db_oct == 24 {
        3
    } else {
        0
    }
}

/// The low-cut slope (dB/oct) of a driver enum item: 6 for item 0 and
/// any unknown item.
pub open spec fn slope_of_item(v: u32) -> u8 {
    if v == 1 {
        12
    } else if v == 2 {
        18
    } else if v == 3 {
        24
    } else {
        6
    }
}

/// Low-cut slope (dB/oct) -> the driver's enum item.
pub fn eq_slope_to_enum(slope_db_oct: u8) -> (r: u32)
    ensures
        r == slope_item(slope_db_oct),
{
    if slope_db_oct == 12 {
        1
    } else if slope_db_oct == 18 {
        2
    } else if slope_db_oct == 24 {
        3
    } else {
        0
    }
}

/// The driver's enum item -> low-cut slope in dB/oct (6 for item 0 and
/// any unknown item).
pub fn eq_slope_from_enum(v: u32) -> (r: u8)
    ensures
        r == slope_of_item(v),
{
    if v == 1 {
        12
    } else if v == 2 {
        18
    } else if v == 3 {
        24
    } else {
        6
    }
}

/// The display label of a band type.
pub fn eq_band_type_label(t: EqBandType) -> (r: &'static str)
    ensures
        t == EqBandType::Off ==> r@ == "Off"@,
        t == EqBandType::Bell ==> r@ == "Bell"@,
        t == EqBandType::LowShelf ==> r@ == "Low Shelf"@,
        t == EqBandType::HighShelf ==> r@ == "High Shelf"@,
{
    match t {
        EqBandType::Off => "Off",
        EqBandType::Bell => "Bell",
        EqBandType::LowShelf => "Low Shelf",
        EqBandType::HighShelf => "High Shelf",
    }
}

/// The palette entry a channel-type tag is drawn in.
#[derive(Debug, Clone, Copy, PartialEq, Eq, Structural)]
pub enum TagColor {
    /// The mute color (microphone inputs).
    Mute,
    /// Amber (instrument inputs).
    Amber,
    /// The accent color (line inputs).
    Accent,
    /// Purple (the digital inputs, SPDIF and ADAT).
    Purple,
    /// Teal, the playback buses' tag.
    PlaybackBus,
}

/// The color of a channel type's tag.
pub open spec fn tag_color(t: ChannelType) -> TagColor {
    match t {
        ChannelType::Mic => TagColor::Mute,
        ChannelType::Instrument => TagColor::Amber,
        ChannelType::Line => TagColor::Accent,
        ChannelType::SPDIF | ChannelType::ADAT => TagColor::Purple,
    }
}

/// The tag shown on an input strip for its channel type, and its color.
pub fn type_tag(t: ChannelType) -> (r: (&'static str, TagColor))
    ensures
        r.1 == tag_color(t),
        t == ChannelType::Mic ==> (r.0)@ == "MIC"@,
        t == ChannelType::Instrument ==> (r.0)@ == "INST"@,
        t == ChannelType::Line ==> (r.0)@ == "LINE"@,
        t == ChannelType::SPDIF ==> (r.0)@ == "SPDIF"@,
        t == ChannelType::ADAT ==> (r.0)@ == "ADAT"@,
{
    match t {
        ChannelType::Mic => ("MIC", TagColor::Mute),
        ChannelType::Instrument => ("INST", TagColor::Amber),
        ChannelType::Line => ("LINE", TagColor::Accent),
        ChannelType::SPDIF => ("SPDIF", TagColor::Purple),
        ChannelType::ADAT => ("ADAT", TagColor::Purple),
    }
}

// ── Laws ─────────────────────────────────────────────────────────

/// Writing a band type to the driver and reading it back gives the same
/// band type, and every valid item (0-3) reads back to itself.
pub proof fn lemma_band_type_round_trip(t: EqBandType, v: u32)
    ensures
        band_type_of_item(band_type_item(t)) == t,
        v < 4 ==> band_type_item(band_type_of_item(v)) == v,
{
}

/// Every supported slope (6, 12, 18, 24 dB/oct) survives the trip to the
/// driver's enum item and back, and every valid item (0-3) reads back to
/// itself.
pub proof fn lemma_slope_round_trip(slope_db_oct: u8, v: u32)
    ensures
        (slope_db_oct == 6 || slope_db_oct == 12 || slope_db_oct == 18 || slope_db_oct == 24)
            ==> slope_of_item(slope_item(slope_db_oct)) == slope_db_oct,
        v < 4 ==> slope_item(slope_of_item(v)) == v,
{
}

} // verus!
