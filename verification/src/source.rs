//! The sources that a mapping can listen to, as they are written down in presets.

use vstd::prelude::*;

verus! {

/// How the values of a source behave.
#[derive(Copy, Clone, Debug, PartialEq, Eq, Structural)]
pub enum SourceCharacter {
    Range,
    Button,
    Relative1,
    Relative2,
    Relative3,
    StatefulButton,
}

impl Default for SourceCharacter {
    fn default() -> (value: Self)
        ensures
            value == SourceCharacter::Range,
    {
        SourceCharacter::Range
    }
}

/// A transport message of the MIDI clock.
#[derive(Copy, Clone, Debug, PartialEq, Eq, Structural)]
pub enum MidiClockTransportMessage {
    Start,
    Continue,
    Stop,
}

impl Default for MidiClockTransportMessage {
    fn default() -> (value: Self)
        ensures
            value == MidiClockTransportMessage::Start,
    {
        MidiClockTransportMessage::Start
    }
}

/// The digits of a Mackie seven-segment display that are written.
#[derive(Copy, Clone, Debug, PartialEq, Eq, Structural)]
pub enum MackieSevenSegmentDisplayScope {
    All,
    Assignment,
    Tc,
    TcHoursBars,
    TcMinutesBeats,
    TcSecondsSub,
    TcFramesTicks,
}

impl Default for MackieSevenSegmentDisplayScope {
    fn default() -> (value: Self)
        ensures
            value == MackieSevenSegmentDisplayScope::Assignment,
    {
        MackieSevenSegmentDisplayScope::Assignment
    }
}

/// The type of an OSC argument.
#[derive(Copy, Clone, Debug, PartialEq, Eq, Structural)]
pub enum OscArgKind {
    Float,
    Double,
    Bool,
    Nil,
    Inf,
    Int,
    String,
    Blob,
    Time,
    Long,
    Char,
    Color,
    Midi,
    Array,
}

impl Default for OscArgKind {
    fn default() -> (value: Self)
        ensures
            value == OscArgKind::Float,
    {
        OscArgKind::Float
    }
}

/// The kind of a virtual control element.
#[derive(Copy, Clone, Debug, PartialEq, Eq, Structural)]
pub enum VirtualControlElementKind {
    Multi,
    Button,
}

impl Default for VirtualControlElementKind {
    fn default() -> (value: Self)
        ensures
            value == VirtualControlElementKind::Multi,
    {
        VirtualControlElementKind::Multi
    }
}

/// A note whose velocity is the value. A field that is not set is not constrained.
#[derive(Copy, Clone, Debug, PartialEq, Eq, Structural)]
pub struct MidiNoteVelocitySource {
    pub channel: Option<u8>,
    pub key_number: Option<u8>,
}

impl Default for MidiNoteVelocitySource {
    fn default() -> (value: Self)
        ensures
            value.channel.is_none(),
            value.key_number.is_none(),
    {
        Self { channel: None, key_number: None }
    }
}

/// A note whose key number is the value. A field that is not set is not constrained.
#[derive(Copy, Clone, Debug, PartialEq, Eq, Structural)]
pub struct MidiNoteKeyNumberSource {
    pub channel: Option<u8>,
}

impl Default for MidiNoteKeyNumberSource {
    fn default() -> (value: Self)
        ensures
            value.channel.is_none(),
    {
        Self { channel: None }
    }
}

/// The pressure on one key. A field that is not set is not constrained.
#[derive(Copy, Clone, Debug, PartialEq, Eq, Structural)]
pub struct MidiPolyphonicKeyPressureAmountSource {
    pub channel: Option<u8>,
    pub key_number: Option<u8>,
}

impl Default for MidiPolyphonicKeyPressureAmountSource {
    fn default() -> (value: Self)
        ensures
            value.channel.is_none(),
            value.key_number.is_none(),
    {
        Self { channel: None, key_number: None }
    }
}

/// The value of a Control Change message. A field that is not set is not constrained.
#[derive(Copy, Clone, Debug, PartialEq, Eq, Structural)]
pub struct MidiControlChangeValueSource {
    pub channel: Option<u8>,
    pub controller_number: Option<u8>,
    pub character: Option<SourceCharacter>,
    pub fourteen_bit: Option<bool>,
}

impl Default for MidiControlChangeValueSource {
    fn default() -> (value: Self)
        ensures
            value.channel.is_none(),
            value.controller_number.is_none(),
            value.character.is_none(),
            value.fourteen_bit.is_none(),
    {
        Self { channel: None, controller_number: None, character: None, fourteen_bit: None }
    }
}

/// The number of a Program Change message. A field that is not set is not constrained.
#[derive(Copy, Clone, Debug, PartialEq, Eq, Structural)]
pub struct MidiProgramChangeNumberSource {
    pub channel: Option<u8>,
}

impl Default for MidiProgramChangeNumberSource {
    fn default() -> (value: Self)
        ensures
            value.channel.is_none(),
    {
        Self { channel: None }
    }
}

/// The pressure on a channel. A field that is not set is not constrained.
#[derive(Copy, Clone, Debug, PartialEq, Eq, Structural)]
pub struct MidiChannelPressureAmountSource {
    pub channel: Option<u8>,
}

impl Default for MidiChannelPressureAmountSource {
    fn default() -> (value: Self)
        ensures
            value.channel.is_none(),
    {
        Self { channel: None }
    }
}

/// The position of the pitch wheel. A field that is not set is not constrained.
#[derive(Copy, Clone, Debug, PartialEq, Eq, Structural)]
pub struct MidiPitchBendChangeValueSource {
    pub channel: Option<u8>,
}

impl Default for MidiPitchBendChangeValueSource {
    fn default() -> (value: Self)
        ensures
            value.channel.is_none(),
    {
        Self { channel: None }
    }
}

/// The value of a registered or non-registered parameter. A field that is not set is not constrained.
#[derive(Copy, Clone, Debug, PartialEq, Eq, Structural)]
pub struct MidiParameterNumberValueSource {
    pub channel: Option<u8>,
    pub number: Option<u16>,
    pub fourteen_bit: Option<bool>,
    pub registered: Option<bool>,
    pub character: Option<SourceCharacter>,
}

impl Default for MidiParameterNumberValueSource {
    fn default() -> (value: Self)
        ensures
            value.channel.is_none(),
            value.number.is_none(),
            value.fourteen_bit.is_none(),
            value.registered.is_none(),
            value.character.is_none(),
    {
        Self { channel: None, number: None, fourteen_bit: None, registered: None, character: None }
    }
}

/// The tempo of the MIDI clock.
#[derive(Copy, Clone, Debug, PartialEq, Eq, Structural)]
pub struct MidiClockTempoSource;

impl Default for MidiClockTempoSource {
    fn default() -> (value: Self)
        ensures
            value == MidiClockTempoSource,
    {
        MidiClockTempoSource
    }
}

/// A change of the connected MIDI devices.
#[derive(Copy, Clone, Debug, PartialEq, Eq, Structural)]
pub struct MidiDeviceChangesSource;

impl Default for MidiDeviceChangesSource {
    fn default() -> (value: Self)
        ensures
            value == MidiDeviceChangesSource,
    {
        MidiDeviceChangesSource
    }
}

/// The start of an instance.
#[derive(Copy, Clone, Debug, PartialEq, Eq, Structural)]
pub struct RealearnInstanceStartSource;

impl Default for RealearnInstanceStartSource {
    fn default() -> (value: Self)
        ensures
            value == RealearnInstanceStartSource,
    {
        RealearnInstanceStartSource
    }
}

/// A transport message of the MIDI clock. A field that is not set is not constrained.
#[derive(Copy, Clone, Debug, PartialEq, Eq, Structural)]
pub struct MidiClockTransportSource {
    pub message: Option<MidiClockTransportMessage>,
}

impl Default for MidiClockTransportSource {
    fn default() -> (value: Self)
        ensures
            value.message.is_none(),
    {
        Self { message: None }
    }
}

/// A raw MIDI message that matches a pattern. A field that is not set is not constrained.
#[derive(Clone, Debug, PartialEq, Eq)]
pub struct MidiRawSource {
    pub pattern: Option<String>,
    pub character: Option<SourceCharacter>,
}

impl Default for MidiRawSource {
    fn default() -> (value: Self)
        ensures
            value.pattern.is_none(),
            value.character.is_none(),
    {
        Self { pattern: None, character: None }
    }
}

/// A script that produces MIDI feedback. A field that is not set is not constrained.
#[derive(Clone, Debug, PartialEq, Eq)]
pub struct MidiScriptSource {
    pub script: Option<String>,
}

impl Default for MidiScriptSource {
    fn default() -> (value: Self)
        ensures
            value.script.is_none(),
    {
        Self { script: None }
    }
}

/// A line of a Mackie display. A field that is not set is not constrained.
#[derive(Copy, Clone, Debug, PartialEq, Eq, Structural)]
pub struct MackieLcd {
    pub channel: Option<u8>,
    pub line: Option<u8>,
}

impl Default for MackieLcd {
    fn default() -> (value: Self)
        ensures
            value.channel.is_none(),
            value.line.is_none(),
    {
        Self { channel: None, line: None }
    }
}

/// A Mackie seven-segment display. A field that is not set is not constrained.
#[derive(Copy, Clone, Debug, PartialEq, Eq, Structural)]
pub struct MackieSevenSegmentDisplay {
    pub scope: Option<MackieSevenSegmentDisplayScope>,
}

impl Default for MackieSevenSegmentDisplay {
    fn default() -> (value: Self)
        ensures
            value.scope.is_none(),
    {
        Self { scope: None }
    }
}

/// A cell of a SiniCon E24 display. A field that is not set is not constrained.
#[derive(Copy, Clone, Debug, PartialEq, Eq, Structural)]
pub struct SiniConE24Display {
    pub cell_index: Option<u8>,
    pub item_index: Option<u8>,
}

impl Default for SiniConE24Display {
    fn default() -> (value: Self)
        ensures
            value.cell_index.is_none(),
            value.item_index.is_none(),
    {
        Self { cell_index: None, item_index: None }
    }
}

/// The scrolling text of a Launchpad Pro.
#[derive(Copy, Clone, Debug, PartialEq, Eq, Structural)]
pub struct LaunchpadProScrollingTextDisplay;

impl Default for LaunchpadProScrollingTextDisplay {
    fn default() -> (value: Self)
        ensures
            value == LaunchpadProScrollingTextDisplay,
    {
        LaunchpadProScrollingTextDisplay
    }
}

/// An argument of an OSC message. A field that is not set is not constrained.
#[derive(Clone, Debug, PartialEq, Eq)]
pub struct OscSource {
    pub address: Option<String>,
    pub argument: Option<OscArgument>,
}

impl Default for OscSource {
    fn default() -> (value: Self)
        ensures
            value.address.is_none(),
            value.argument.is_none(),
    {
        Self { address: None, argument: None }
    }
}

/// Which argument of an OSC message is meant, and how it is read. A field that is not set is not constrained.
#[derive(Copy, Clone, Debug, PartialEq, Eq, Structural)]
pub struct OscArgument {
    pub index: Option<u32>,
    pub kind: Option<OscArgKind>,
    pub relative: Option<bool>,
}

impl Default for OscArgument {
    fn default() -> (value: Self)
        ensures
            value.index.is_none(),
            value.kind.is_none(),
            value.relative.is_none(),
    {
        Self { index: None, kind: None, relative: None }
    }
}

/// The name of a virtual control element: its position among those of its kind, or a name.
#[derive(Clone, Debug, PartialEq, Eq)]
pub enum VirtualControlElementId {
    Indexed(u32),
    Named(String),
}

/// A control element of a virtual controller.
#[derive(Clone, Debug, PartialEq, Eq)]
pub struct VirtualSource {
    pub id: VirtualControlElementId,
    pub kind: VirtualControlElementKind,
}

/// A source, tagged by its kind.
#[derive(Clone, Debug, PartialEq, Eq)]
pub enum Source {
    NoneSource,
    MidiDeviceChanges(MidiDeviceChangesSource),
    RealearnInstanceStart(RealearnInstanceStartSource),
    MidiNoteVelocity(MidiNoteVelocitySource),
    MidiNoteKeyNumber(MidiNoteKeyNumberSource),
    MidiPolyphonicKeyPressureAmount(MidiPolyphonicKeyPressureAmountSource),
    MidiControlChangeValue(MidiControlChangeValueSource),
    MidiProgramChangeNumber(MidiProgramChangeNumberSource),
    MidiChannelPressureAmount(MidiChannelPressureAmountSource),
    MidiPitchBendChangeValue(MidiPitchBendChangeValueSource),
    MidiParameterNumberValue(MidiParameterNumberValueSource),
    MidiClockTempo(MidiClockTempoSource),
    MidiClockTransport(MidiClockTransportSource),
    MidiRaw(MidiRawSource),
    MidiScript(MidiScriptSource),
    MackieLcd(MackieLcd),
    MackieSevenSegmentDisplay(MackieSevenSegmentDisplay),
    SiniConE24Display(SiniConE24Display),
    LaunchpadProScrollingTextDisplay(LaunchpadProScrollingTextDisplay),
    Osc(OscSource),
    Virtual(VirtualSource),
}

impl Default for Source {
    fn default() -> (value: Self)
        ensures
            value == Source::NoneSource,
    {
        Source::NoneSource
    }
}

} // verus!
