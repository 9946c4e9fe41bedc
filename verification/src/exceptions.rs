//! The ways in which a command to a player, a channel or a mixer can fail.

use vstd::prelude::*;
use vstd::string::StringExecFns;

verus! {

/// A parameter of the backend that a scheduled effect can own.
#[derive(Clone, Copy, Debug, PartialEq, Eq, Structural)]
pub enum Property {
    Volume,
    Speed,
}

/// Why a command was refused.
#[derive(Clone, Copy, Debug, PartialEq, Eq, Structural)]
pub enum PlayerError {
    /// `load_audio` on a player that has audio already.
    AlreadyLoaded,
    /// No output device, and the load was not forced.
    BackendUnavailable,
    /// A playback command before any audio was loaded.
    NotLoaded,
    /// A volume outside 0 to `UNIT`, a speed of 0 or less, a negative seek
    /// target or a negative duration.
    InvalidParameter,
    /// A direct write to a parameter that a scheduled effect owns.
    EffectConflict(Property),
    /// The backend refused a seek.
    SeekFailure,
    /// The file's metadata could not be read.
    MetadataExtractionFailure,
    /// The mixer has no channel of that name.
    ChannelNotFound,
    /// The remaining time was asked of a track whose length is unknown.
    DurationUnknown,
}

impl Property {
    /// The property's name as it stands in messages.
    pub fn name(&self) -> (r: &'static str)
        ensures
            r@ == match *self {
                Property::Volume => "Volume"@,
                Property::Speed => "Speed"@,
            },
    {
        match self {
            Property::Volume => "Volume",
            Property::Speed => "Speed",
        }
    }
}

/// The text of the refusal to change the property named `context`.
pub open spec fn conflict_message(context: Seq<char>) -> Seq<char> {
    "Cannot change property "@ + context
        + " on AudioSink while scheduled effects are actively being applied."@
}

/// The refusal of a direct write to a parameter that an effect owns.
#[derive(Debug)]
pub struct EffectConflictException {
    pub message: String,
}

impl EffectConflictException {
    /// The refusal to change the property named `context`.
    pub fn with_context(context: &str) -> (r: Self)
        ensures
            r.message@ == conflict_message(context@),
    {
        let mut message = String::from_str("Cannot change property ");
        message.append(context);
        message.append(" on AudioSink while scheduled effects are actively being applied.");
        EffectConflictException { message }
    }

    /// What the refusal says where no property is named.
    pub fn description() -> (r: &'static str)
        ensures
            r@ == "Value cannot be changed while effects are actively being applied."@,
    {
        "Value cannot be changed while effects are actively being applied."
    }
}

impl PlayerError {
    /// The text of the error.
    pub open spec fn spec_message(self) -> Seq<char> {
        match self {
            PlayerError::AlreadyLoaded =>
                "Audio is already loaded. Please stop the current audio before loading a new one."@,
            PlayerError::BackendUnavailable => "No audio output device is available."@,
            PlayerError::NotLoaded => "No sink available. Load audio first."@,
            PlayerError::InvalidParameter => "Parameter out of range."@,
            PlayerError::EffectConflict(Property::Volume) => conflict_message("Volume"@),
            PlayerError::EffectConflict(Property::Speed) => conflict_message("Speed"@),
            PlayerError::SeekFailure => "Seek failed."@,
            PlayerError::MetadataExtractionFailure => "Failed to extract metadata"@,
            PlayerError::ChannelNotFound => "Channel not found"@,
            PlayerError::DurationUnknown => "Audio duration is not available."@,
        }
    }

    /// The text of the error.
    pub fn message(&self) -> (r: String)
        ensures
            r@ == self.spec_message(),
    {
        match self {
            PlayerError::AlreadyLoaded => String::from_str(
                "Audio is already loaded. Please stop the current audio before loading a new one.",
            ),
            PlayerError::BackendUnavailable => String::from_str(
                "No audio output device is available.",
            ),
            PlayerError::NotLoaded => String::from_str("No sink available. Load audio first."),
            PlayerError::InvalidParameter => String::from_str("Parameter out of range."),
            PlayerError::EffectConflict(property) => EffectConflictException::with_context(
                property.name(),
            ).message,
            PlayerError::SeekFailure => String::from_str("Seek failed."),
            PlayerError::MetadataExtractionFailure => String::from_str(
                "Failed to extract metadata",
            ),
            PlayerError::ChannelNotFound => String::from_str("Channel not found"),
            PlayerError::DurationUnknown => String::from_str("Audio duration is not available."),
        }
    }
}

} // verus!
