//! The MIDI messages that silence a clip.

use helgoboss_midi::controller_numbers;
use helgoboss_midi::Channel;
use helgoboss_midi::ControllerNumber;
use helgoboss_midi::RawShortMessage;
use helgoboss_midi::ShortMessage;
use helgoboss_midi::ShortMessageFactory;
use helgoboss_midi::U7;
use vstd::prelude::*;

verus! {

/// The number of MIDI channels.
pub const CHANNEL_COUNT: u8 = 16;

/// The status byte of a Control Change message on channel 0.
pub const CONTROL_CHANGE: u8 = 0xB0;

/// The controller number of "All Sound Off".
pub const ALL_SOUND_OFF: u8 = 0x78;

/// The controller number of "All Notes Off".
pub const ALL_NOTES_OFF: u8 = 0x7B;

/// A short MIDI message: a status byte and two data bytes.
#[derive(Copy, Clone, Debug, PartialEq, Eq, Structural)]
pub struct MidiMessage {
    pub status: u8,
    pub data_1: u8,
    pub data_2: u8,
}

/// The Control Change message that sets a controller of a channel to a value.
pub open spec fn control_change_message(
    channel: u8,
    controller_number: u8,
    control_value: u8,
) -> MidiMessage {
    MidiMessage {
        status: (CONTROL_CHANGE + channel) as u8,
        data_1: controller_number,
        data_2: control_value,
    }
}

/// The messages that silence all channels: for each channel in turn "All Notes Off", then
/// "All Sound Off".
pub open spec fn silence_messages() -> Seq<MidiMessage> {
    Seq::new(
        2 * CHANNEL_COUNT as nat,
        |i: int|
            control_change_message(
                (i / 2) as u8,
                if i % 2 == 0 {
                    ALL_NOTES_OFF
                } else {
                    ALL_SOUND_OFF
                },
                0,
            ),
    )
}

/// `RawShortMessage::control_change` of `helgoboss_midi`. Trusted: the message that it
/// builds has the status byte of a Control Change on the given channel, the controller
/// number as its first and the value as its second data byte. The arguments are in the
/// ranges outside of which `Channel::new`, `ControllerNumber::new` and `U7::new` panic.
#[verifier::external_body]
fn control_change(channel: u8, controller_number: u8, control_value: u8) -> (message: MidiMessage)
    requires
        channel < 16,
        controller_number < 128,
        control_value < 128,
    ensures
        message == control_change_message(channel, controller_number, control_value),
{
    let message = RawShortMessage::control_change(
        Channel::new(channel),
        ControllerNumber::new(controller_number),
        U7::new(control_value),
    );
    MidiMessage {
        status: message.status_byte(),
        data_1: message.data_byte_1().get(),
        data_2: message.data_byte_2().get(),
    }
}

/// `controller_numbers::ALL_NOTES_OFF` of `helgoboss_midi`. Trusted: it is controller 123.
#[verifier::external_body]
fn all_notes_off() -> (controller_number: u8)
    ensures
        controller_number == ALL_NOTES_OFF,
{
    controller_numbers::ALL_NOTES_OFF.get()
}

/// `controller_numbers::ALL_SOUND_OFF` of `helgoboss_midi`. Trusted: it is controller 120.
#[verifier::external_body]
fn all_sound_off() -> (controller_number: u8)
    ensures
        controller_number == ALL_SOUND_OFF,
{
    controller_numbers::ALL_SOUND_OFF.get()
}

/// Returns the messages that silence all 16 channels.
pub fn silence_midi() -> (messages: Vec<MidiMessage>)
    ensures
        messages@ == silence_messages(),
        messages@.len() == 32,
        forall|channel: int|
            0 <= channel < 16 ==> #[trigger] messages@[2 * channel] == control_change_message(
                channel as u8,
                ALL_NOTES_OFF,
                0,
            ) && messages@[2 * channel + 1] == control_change_message(
                channel as u8,
                ALL_SOUND_OFF,
                0,
            ),
{
    let notes_off = all_notes_off();
    let sound_off = all_sound_off();
    let mut messages: Vec<MidiMessage> = Vec::new();
    let mut channel: u8 = 0;
    while channel < CHANNEL_COUNT
        invariant
            channel <= CHANNEL_COUNT,
            notes_off == ALL_NOTES_OFF,
            sound_off == ALL_SOUND_OFF,
            messages@.len() == 2 * channel,
            forall|i: int| 0 <= i < messages@.len() ==> messages@[i] == silence_messages()[i],
        decreases CHANNEL_COUNT - channel,
    {
        messages.push(control_change(channel, notes_off, 0));
        messages.push(control_change(channel, sound_off, 0));
        channel = channel + 1;
    }
    assert(messages@ =~= silence_messages());
    messages
}

} // verus!
