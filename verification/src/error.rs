//! Errors of device discovery and control.
use vstd::prelude::*;

use crate::text::{decimal, push_decimal};

verus! {

/// Errors that can occur during device discovery or control.
#[derive(Debug)]
pub enum Error {
    /// No device matched the wanted model.
    DeviceNotFound { model: String },
    /// A mixer element the backend needs is missing.
    MixerElementNotFound(String),
    /// A card with a matching name was found, but its mixer matches
    /// neither control grammar the backend knows.
    UnsupportedDeviceMode { card: String, missing: String },
    /// A channel, output or control that does not exist on the device.
    InvalidChannel(String),
    /// A scene captured on one model applied to another.
    SceneModelMismatch { scene_model: String, device_model: String },
}

/// The message of an `InvalidChannel` error naming `kind` and `idx`:
/// `"{kind} {idx}"`.
pub open spec fn indexed_message(kind: Seq<char>, idx: nat) -> Seq<char> {
    kind + seq![' '] + decimal(idx)
}

/// `"{kind} {idx}"`, the message of an invalid-index error.
pub fn indexed_message_string(kind: &str, idx: usize) -> (r: String)
    ensures
        r@ == indexed_message(kind@, idx as nat),
{
    proof {
        reveal_strlit(" ");
    }
    let mut s = String::from_str(kind);
    s.append(" ");
    push_decimal(&mut s, idx as u64);
    s
}

/// An `InvalidChannel` error whose message is `"{kind} {idx}"`.
pub fn invalid_index(kind: &str, idx: usize) -> (e: Error)
    ensures
        e matches Error::InvalidChannel(m) && m@ == indexed_message(kind@, idx as nat),
{
    Error::InvalidChannel(indexed_message_string(kind, idx))
}

impl Error {
    /// The human-readable message of the error.
    pub fn message(&self) -> (r: String)
        ensures
            self matches Error::DeviceNotFound { model } ==> r@
                == "No RME device found matching: "@ + model@,
            self matches Error::MixerElementNotFound(name) ==> r@ == "Mixer element not found: "@
                + name@,
            self matches Error::UnsupportedDeviceMode { card, missing } ==> r@ == card@
                + ": found, but its mixer matches neither grammar TuxMix knows (missing: "@
                + missing@ + "). If this really is a Babyface Pro, try switching personality \
                 \u{2014} hold SELECT + DIM while plugging power toggles between proprietary \
                 and Class Compliant mode."@,
            self matches Error::InvalidChannel(what) ==> r@ == "Invalid channel: "@ + what@,
            self matches Error::SceneModelMismatch { scene_model, device_model } ==> r@
                == "Scene captured on '"@ + scene_model@ + "' cannot be applied to '"@
                + device_model@ + "'"@,
    {
        match self {
            Error::DeviceNotFound { model } => {
                let mut s = String::from_str("No RME device found matching: ");
                s.append(model.as_str());
                s
            },
            Error::MixerElementNotFound(name) => {
                let mut s = String::from_str("Mixer element not found: ");
                s.append(name.as_str());
                s
            },
            Error::UnsupportedDeviceMode { card, missing } => {
                let mut s = String::from_str(card.as_str());
                s.append(": found, but its mixer matches neither grammar TuxMix knows (missing: ");
                s.append(missing.as_str());
                s.append(
                    "). If this really is a Babyface Pro, try switching personality \
                     \u{2014} hold SELECT + DIM while plugging power toggles between proprietary \
                     and Class Compliant mode.",
                );
                s
            },
            Error::InvalidChannel(what) => {
                let mut s = String::from_str("Invalid channel: ");
                s.append(what.as_str());
                s
            },
            Error::SceneModelMismatch { scene_model, device_model } => {
                let mut s = String::from_str("Scene captured on '");
                s.append(scene_model.as_str());
                s.append("' cannot be applied to '");
                s.append(device_model.as_str());
                s.append("'");
                s
            },
        }
    }
}

} // verus!
