//! Addresses as they are exchanged with clients, and their conversion from and to those of
//! the engine.

use vstd::prelude::*;
use crate::base::ClipPlayState;
use crate::base::ClipSlotAddress;
use crate::base::InputMonitoringMode;
use crate::base::PlayState;
use crate::base::RecordingInput;
use crate::base::RgbColor;

verus! {

/// Why an address of a client has no counterpart in the engine.
#[derive(Copy, Clone, Debug, PartialEq, Eq, Structural)]
pub enum AddressError {
    /// The address of a clip does not say in which slot the clip lies.
    SlotAddressMissing,
}

impl AddressError {
    pub fn description(&self) -> (text: &'static str)
        ensures
            text@ == "slot address missing"@,
    {
        "slot address missing"
    }
}

/// The address of a slot, with indexes of 32 bits.
#[derive(Copy, Clone, Debug, PartialEq, Eq, Structural)]
pub struct SlotAddress {
    pub column_index: u32,
    pub row_index: u32,
}

/// The address of a clip, in which the slot may be missing.
#[derive(Copy, Clone, Debug, PartialEq, Eq, Structural)]
pub struct ClipAddress {
    pub slot_address: Option<SlotAddress>,
    pub clip_index: u32,
}

impl SlotAddress {
    /// Converts an address of the engine. An index that does not fit into 32 bits is cut
    /// down to its lowest 32 bits.
    pub fn from_engine(address: ClipSlotAddress) -> (converted: Self)
        ensures
            converted.column_index == address.column_index as u32,
            converted.row_index == address.row_index as u32,
            address.column_index <= u32::MAX ==> converted.column_index == address.column_index,
            address.row_index <= u32::MAX ==> converted.row_index == address.row_index,
    {
        Self {
            column_index: #[verifier::truncate]
            (address.column() as u32),
            row_index: #[verifier::truncate]
            (address.row() as u32),
        }
    }

    /// Converts to an address of the engine.
    pub fn to_engine(&self) -> (converted: ClipSlotAddress)
        ensures
            converted.column_index == self.column_index,
            converted.row_index == self.row_index,
    {
        ClipSlotAddress::new(self.column_index as usize, self.row_index as usize)
    }
}

impl ClipAddress {
    /// Converts an address of the engine. An index that does not fit into 32 bits is cut
    /// down to its lowest 32 bits.
    pub fn from_engine(address: crate::base::ClipAddress) -> (converted: Self)
        ensures
            converted.slot_address matches Some(slot) && slot.column_index
                == address.slot_address.column_index as u32 && slot.row_index
                == address.slot_address.row_index as u32,
            converted.clip_index == address.clip_index as u32,
            address.clip_index <= u32::MAX ==> converted.clip_index == address.clip_index,
    {
        Self {
            slot_address: Some(SlotAddress::from_engine(address.slot_address)),
            clip_index: #[verifier::truncate]
            (address.clip_index as u32),
        }
    }

    /// Converts to an address of the engine, which needs the slot.
    pub fn to_engine(&self) -> (converted: Result<crate::base::ClipAddress, AddressError>)
        ensures
            self.slot_address.is_none() ==> converted == Err::<
                crate::base::ClipAddress,
                AddressError,
            >(AddressError::SlotAddressMissing),
            self.slot_address matches Some(slot) ==> converted matches Ok(address)
                && address.slot_address.column_index == slot.column_index
                && address.slot_address.row_index == slot.row_index && address.clip_index
                == self.clip_index,
    {
        match self.slot_address {
            None => Err(AddressError::SlotAddressMissing),
            Some(slot) => Ok(
                crate::base::ClipAddress {
                    slot_address: slot.to_engine(),
                    clip_index: self.clip_index as usize,
                },
            ),
        }
    }
}

/// The play state of a slot.
#[derive(Copy, Clone, Debug, PartialEq, Eq, Structural)]
pub enum SlotPlayState {
    Stopped,
    ScheduledForPlayStart,
    Playing,
    Paused,
    ScheduledForPlayStop,
    ScheduledForRecordingStart,
    Recording,
    ScheduledForRecordingStop,
}

impl SlotPlayState {
    /// The play state of a slot that holds a clip of the given play state: the one of the
    /// same name.
    pub open spec fn of(play_state: ClipPlayState) -> SlotPlayState {
        match play_state {
            ClipPlayState::Stopped => SlotPlayState::Stopped,
            ClipPlayState::ScheduledForPlayStart => SlotPlayState::ScheduledForPlayStart,
            ClipPlayState::Playing => SlotPlayState::Playing,
            ClipPlayState::Paused => SlotPlayState::Paused,
            ClipPlayState::ScheduledForPlayStop => SlotPlayState::ScheduledForPlayStop,
            ClipPlayState::ScheduledForRecordingStart => SlotPlayState::ScheduledForRecordingStart,
            ClipPlayState::Recording => SlotPlayState::Recording,
            ClipPlayState::ScheduledForRecordingStop => SlotPlayState::ScheduledForRecordingStop,
        }
    }

    /// Converts the play state of a clip.
    pub fn from_engine(play_state: ClipPlayState) -> (converted: Self)
        ensures
            converted == SlotPlayState::of(play_state),
    {
        match play_state {
            ClipPlayState::Stopped => SlotPlayState::Stopped,
            ClipPlayState::ScheduledForPlayStart => SlotPlayState::ScheduledForPlayStart,
            ClipPlayState::Playing => SlotPlayState::Playing,
            ClipPlayState::Paused => SlotPlayState::Paused,
            ClipPlayState::ScheduledForPlayStop => SlotPlayState::ScheduledForPlayStop,
            ClipPlayState::ScheduledForRecordingStart => SlotPlayState::ScheduledForRecordingStart,
            ClipPlayState::Recording => SlotPlayState::Recording,
            ClipPlayState::ScheduledForRecordingStop => SlotPlayState::ScheduledForRecordingStop,
        }
    }
}

/// The color of a track as one number, or none for a track without color.
#[derive(Copy, Clone, Debug, PartialEq, Eq, Structural)]
pub struct TrackColor {
    pub color: Option<i32>,
}

impl TrackColor {
    /// The number of a color: red in the bits 16 to 23, green in the bits 8 to 15, blue in
    /// the lowest 8 bits.
    pub open spec fn number_of(color: RgbColor) -> int {
        color.r * 65536 + color.g * 256 + color.b
    }

    /// Converts the color of a track.
    pub fn from_engine(color: Option<RgbColor>) -> (converted: Self)
        ensures
            color.is_none() ==> converted.color.is_none(),
            color matches Some(c) ==> converted.color == Some(TrackColor::number_of(c) as i32),
    {
        match color {
            None => TrackColor { color: None },
            Some(c) => {
                let number: u32 = (c.r as u32) * 65536 + (c.g as u32) * 256 + (c.b as u32);
                TrackColor { color: Some(number as i32) }
            },
        }
    }
}

/// The MIDI input of a track: a device or all, a channel or all.
#[derive(Copy, Clone, Debug, PartialEq, Eq, Structural)]
pub struct TrackMidiInput {
    pub device: Option<u32>,
    pub channel: Option<u32>,
}

/// An input of a track that clients know.
#[derive(Copy, Clone, Debug, PartialEq, Eq, Structural)]
pub enum Input {
    Mono(u32),
    Stereo(u32),
    Midi(TrackMidiInput),
}

/// The input of a track, or none for an input that clients do not know.
#[derive(Copy, Clone, Debug, PartialEq, Eq, Structural)]
pub struct TrackInput {
    pub input: Option<Input>,
}

impl TrackInput {
    /// The input as clients know it.
    pub open spec fn of(input: Option<RecordingInput>) -> Option<Input> {
        match input {
            Some(RecordingInput::Mono(channel)) => Some(Input::Mono(channel)),
            Some(RecordingInput::Stereo(channel)) => Some(Input::Stereo(channel)),
            Some(RecordingInput::Midi { device_id, channel }) => Some(
                Input::Midi(
                    TrackMidiInput {
                        device: match device_id {
                            Some(id) => Some(id as u32),
                            None => None,
                        },
                        channel: match channel {
                            Some(ch) => Some(ch as u32),
                            None => None,
                        },
                    },
                ),
            ),
            _ => None,
        }
    }

    /// Converts the input of a track.
    pub fn from_engine(input: Option<RecordingInput>) -> (converted: Self)
        ensures
            converted.input == TrackInput::of(input),
    {
        let input = match input {
            Some(RecordingInput::Mono(ch)) => Some(Input::Mono(ch)),
            Some(RecordingInput::Stereo(ch)) => Some(Input::Stereo(ch)),
            Some(RecordingInput::Midi { device_id, channel }) => {
                let midi_input = TrackMidiInput {
                    device: match device_id {
                        Some(id) => Some(id as u32),
                        None => None,
                    },
                    channel: match channel {
                        Some(ch) => Some(ch as u32),
                        None => None,
                    },
                };
                Some(Input::Midi(midi_input))
            },
            _ => None,
        };
        Self { input }
    }
}

/// When the input of a track is heard, as clients know it.
#[derive(Copy, Clone, Debug, PartialEq, Eq, Structural)]
pub enum TrackInputMonitoring {
    Unknown,
    Off,
    Normal,
    TapeStyle,
}

impl TrackInputMonitoring {
    /// Converts the monitoring mode of a track. Monitoring that stops while the project plays
    /// is called tape style.
    pub fn from_engine(mode: InputMonitoringMode) -> (converted: Self)
        ensures
            mode == InputMonitoringMode::Off ==> converted == TrackInputMonitoring::Off,
            mode == InputMonitoringMode::Normal ==> converted == TrackInputMonitoring::Normal,
            mode == InputMonitoringMode::NotWhenPlaying ==> converted
                == TrackInputMonitoring::TapeStyle,
            mode is Unknown ==> converted == TrackInputMonitoring::Unknown,
    {
        match mode {
            InputMonitoringMode::Off => TrackInputMonitoring::Off,
            InputMonitoringMode::Normal => TrackInputMonitoring::Normal,
            InputMonitoringMode::NotWhenPlaying => TrackInputMonitoring::TapeStyle,
            InputMonitoringMode::Unknown(_) => TrackInputMonitoring::Unknown,
        }
    }
}

/// The play state of the arrangement, as clients know it.
#[derive(Copy, Clone, Debug, PartialEq, Eq, Structural)]
pub enum ArrangementPlayState {
    Stopped,
    Playing,
    PlayingPaused,
    Recording,
    RecordingPaused,
}

impl ArrangementPlayState {
    /// Recording counts before playing. A project that is only paused counts as playing
    /// and paused.
    pub open spec fn of(play_state: PlayState) -> ArrangementPlayState {
        if play_state.is_recording {
            if play_state.is_paused {
                ArrangementPlayState::RecordingPaused
            } else {
                ArrangementPlayState::Recording
            }
        } else if play_state.is_paused {
            ArrangementPlayState::PlayingPaused
        } else if play_state.is_playing {
            ArrangementPlayState::Playing
        } else {
            ArrangementPlayState::Stopped
        }
    }

    /// Converts the play state of a project.
    pub fn from_engine(play_state: PlayState) -> (converted: Self)
        ensures
            converted == ArrangementPlayState::of(play_state),
    {
        if play_state.is_recording {
            if play_state.is_paused {
                Self::RecordingPaused
            } else {
                Self::Recording
            }
        } else if play_state.is_playing {
            if play_state.is_paused {
                Self::PlayingPaused
            } else {
                Self::Playing
            }
        } else if play_state.is_paused {
            Self::PlayingPaused
        } else {
            Self::Stopped
        }
    }
}

} // verus!
