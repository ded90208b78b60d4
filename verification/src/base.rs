//! Addresses of slots and clips within a clip matrix.

use vstd::prelude::*;

verus! {

/// The address of a slot: its column and its row.
#[derive(Copy, Clone, Debug, PartialEq, Eq, Structural)]
pub struct ClipSlotAddress {
    pub column_index: usize,
    pub row_index: usize,
}

impl ClipSlotAddress {
    /// Returns the address of the slot in the given column and row.
    pub fn new(column_index: usize, row_index: usize) -> (address: Self)
        ensures
            address == (ClipSlotAddress { column_index, row_index }),
    {
        Self { column_index, row_index }
    }

    /// Returns the index of the column.
    pub fn column(&self) -> (column: usize)
        ensures
            column == self.column_index,
    {
        self.column_index
    }

    /// Returns the index of the row.
    pub fn row(&self) -> (row: usize)
        ensures
            row == self.row_index,
    {
        self.row_index
    }
}

/// The address of a clip: its slot and its position within the slot.
#[derive(Copy, Clone, Debug, PartialEq, Eq, Structural)]
pub struct ClipAddress {
    pub slot_address: ClipSlotAddress,
    pub clip_index: usize,
}

/// The play state of a clip.
#[derive(Copy, Clone, Debug, PartialEq, Eq, Structural)]
pub enum ClipPlayState {
    Stopped,
    ScheduledForPlayStart,
    Playing,
    Paused,
    ScheduledForPlayStop,
    ScheduledForRecordingStart,
    Recording,
    ScheduledForRecordingStop,
}

/// A color, by its red, green and blue parts.
#[derive(Copy, Clone, Debug, PartialEq, Eq, Structural)]
pub struct RgbColor {
    pub r: u8,
    pub g: u8,
    pub b: u8,
}

/// What a track records.
#[derive(Copy, Clone, Debug, PartialEq, Eq, Structural)]
pub enum RecordingInput {
    Mono(u32),
    Stereo(u32),
    /// MIDI of one device or of all, on one channel or on all.
    Midi { device_id: Option<u8>, channel: Option<u8> },
    /// Any other input.
    Other,
}

/// When the input of a track is heard.
#[derive(Copy, Clone, Debug, PartialEq, Eq, Structural)]
pub enum InputMonitoringMode {
    Off,
    Normal,
    NotWhenPlaying,
    Unknown(i32),
}

/// The play state of a project.
#[derive(Copy, Clone, Debug, PartialEq, Eq, Structural)]
pub struct PlayState {
    pub is_playing: bool,
    pub is_paused: bool,
    pub is_recording: bool,
}

} // verus!
