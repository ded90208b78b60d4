//! Targets: what a control value does to the transport of a project and to a slot of the
//! clip matrix, and what a change of state means for a target.

use vstd::prelude::*;
use crate::base::PlayState;

verus! {

/// What a transport target does.
#[derive(Copy, Clone, Debug, PartialEq, Eq, Structural)]
pub enum TransportAction {
    PlayStop,
    PlayPause,
    Stop,
    Pause,
    RecordStop,
    Repeat,
}

/// A command to the transport of a project.
#[derive(Copy, Clone, Debug, PartialEq, Eq, Structural)]
pub enum TransportCommand {
    Play,
    Stop,
    Pause,
    EnableRecord,
    DisableRecord,
    EnableRepeat,
    DisableRepeat,
}

/// A change that a transport target may care about.
#[derive(Copy, Clone, Debug, PartialEq, Eq, Structural)]
pub enum TransportChangeEvent {
    /// The play state of a project has changed.
    PlayStateChanged { is_target_project: bool, new_value: PlayState },
    /// Repeat has been switched on or off in a project.
    RepeatStateChanged { is_target_project: bool, is_enabled: bool },
    /// A project has reached a new beat.
    BeatChanged { is_target_project: bool, is_current_project: bool },
    /// Anything else.
    Other,
}

/// How a target takes control values.
#[derive(Copy, Clone, Debug, PartialEq, Eq, Structural)]
pub enum ControlType {
    AbsoluteContinuous,
    AbsoluteContinuousRetriggerable,
}

/// How a target behaves.
#[derive(Copy, Clone, Debug, PartialEq, Eq, Structural)]
pub enum TargetCharacter {
    Trigger,
    Switch,
}

/// A target that invokes a transport action.
#[derive(Copy, Clone, Debug, PartialEq, Eq, Structural)]
pub struct TransportTarget {
    pub action: TransportAction,
}

impl TransportTarget {
    /// The command that a control value causes, which is on or off. The actions that toggle
    /// between two commands react to both; stop and pause react to on only.
    pub open spec fn command_for(self, on: bool) -> Option<TransportCommand> {
        match self.action {
            TransportAction::PlayStop => Some(
                if on {
                    TransportCommand::Play
                } else {
                    TransportCommand::Stop
                },
            ),
            TransportAction::PlayPause => Some(
                if on {
                    TransportCommand::Play
                } else {
                    TransportCommand::Pause
                },
            ),
            TransportAction::Stop => if on {
                Some(TransportCommand::Stop)
            } else {
                None
            },
            TransportAction::Pause => if on {
                Some(TransportCommand::Pause)
            } else {
                None
            },
            TransportAction::RecordStop => Some(
                if on {
                    TransportCommand::EnableRecord
                } else {
                    TransportCommand::DisableRecord
                },
            ),
            TransportAction::Repeat => Some(
                if on {
                    TransportCommand::EnableRepeat
                } else {
                    TransportCommand::DisableRepeat
                },
            ),
        }
    }

    /// Whether the target is on in the given state of its project.
    pub open spec fn value_in(self, play_state: PlayState, repeat_is_enabled: bool) -> bool {
        match self.action {
            TransportAction::PlayStop | TransportAction::PlayPause => play_state.is_playing,
            TransportAction::Stop => !play_state.is_playing && !play_state.is_paused,
            TransportAction::Pause => play_state.is_paused,
            TransportAction::RecordStop => play_state.is_recording,
            TransportAction::Repeat => repeat_is_enabled,
        }
    }

    /// What a change means for the target: whether it concerns the target, and the new
    /// value of the target if the change says it.
    ///
    /// A change of the play state of the target's project concerns every action but
    /// repeat, and a change of its repeat state concerns repeat. A new beat concerns every
    /// action but repeat if the target's project is not the current one; it says no value.
    pub open spec fn change_for(self, evt: TransportChangeEvent) -> (bool, Option<bool>) {
        match evt {
            TransportChangeEvent::PlayStateChanged { is_target_project, new_value } => {
                if is_target_project && self.action != TransportAction::Repeat {
                    (true, Some(self.value_in(new_value, false)))
                } else {
                    (false, None)
                }
            },
            TransportChangeEvent::RepeatStateChanged { is_target_project, is_enabled } => {
                if is_target_project && self.action == TransportAction::Repeat {
                    (true, Some(is_enabled))
                } else {
                    (false, None)
                }
            },
            TransportChangeEvent::BeatChanged { is_target_project, is_current_project } => {
                if self.action != TransportAction::Repeat && is_target_project
                    && !is_current_project {
                    (true, None)
                } else {
                    (false, None)
                }
            },
            TransportChangeEvent::Other => (false, None),
        }
    }

    /// Returns the command that a control value causes, or `None` if the value is ignored.
    pub fn hit(&self, on: bool) -> (command: Option<TransportCommand>)
        ensures
            command == self.command_for(on),
    {
        match self.action {
            TransportAction::PlayStop => {
                if on {
                    Some(TransportCommand::Play)
                } else {
                    Some(TransportCommand::Stop)
                }
            },
            TransportAction::PlayPause => {
                if on {
                    Some(TransportCommand::Play)
                } else {
                    Some(TransportCommand::Pause)
                }
            },
            TransportAction::Stop => {
                if on {
                    Some(TransportCommand::Stop)
                } else {
                    None
                }
            },
            TransportAction::Pause => {
                if on {
                    Some(TransportCommand::Pause)
                } else {
                    None
                }
            },
            TransportAction::RecordStop => {
                if on {
                    Some(TransportCommand::EnableRecord)
                } else {
                    Some(TransportCommand::DisableRecord)
                }
            },
            TransportAction::Repeat => {
                if on {
                    Some(TransportCommand::EnableRepeat)
                } else {
                    Some(TransportCommand::DisableRepeat)
                }
            },
        }
    }

    /// Returns whether the target is on in the given state of its project.
    pub fn current_value(&self, play_state: PlayState, repeat_is_enabled: bool) -> (on: bool)
        ensures
            on == self.value_in(play_state, repeat_is_enabled),
    {
        match self.action {
            TransportAction::PlayStop | TransportAction::PlayPause => play_state.is_playing,
            TransportAction::Stop => !play_state.is_playing && !play_state.is_paused,
            TransportAction::Pause => play_state.is_paused,
            TransportAction::RecordStop => play_state.is_recording,
            TransportAction::Repeat => repeat_is_enabled,
        }
    }

    /// Returns what a change means for the target.
    pub fn process_change_event(&self, evt: TransportChangeEvent) -> (change: (bool, Option<bool>))
        ensures
            change == self.change_for(evt),
    {
        match evt {
            TransportChangeEvent::PlayStateChanged { is_target_project, new_value } => {
                if !is_target_project {
                    return (false, None);
                }
                match self.action {
                    TransportAction::PlayStop | TransportAction::PlayPause => (
                        true,
                        Some(new_value.is_playing),
                    ),
                    TransportAction::Stop => (
                        true,
                        Some(!new_value.is_playing && !new_value.is_paused),
                    ),
                    TransportAction::Pause => (true, Some(new_value.is_paused)),
                    TransportAction::RecordStop => (true, Some(new_value.is_recording)),
                    TransportAction::Repeat => (false, None),
                }
            },
            TransportChangeEvent::RepeatStateChanged { is_target_project, is_enabled } => {
                match self.action {
                    TransportAction::Repeat => {
                        if is_target_project {
                            (true, Some(is_enabled))
                        } else {
                            (false, None)
                        }
                    },
                    _ => (false, None),
                }
            },
            TransportChangeEvent::BeatChanged { is_target_project, is_current_project } => {
                let is_repeat = match self.action {
                    TransportAction::Repeat => true,
                    _ => false,
                };
                if !is_repeat && is_target_project && !is_current_project {
                    (true, None)
                } else {
                    (false, None)
                }
            },
            TransportChangeEvent::Other => (false, None),
        }
    }
}

/// What a slot management target does.
#[derive(Copy, Clone, Debug, PartialEq, Eq, Structural)]
pub enum PlaytimeSlotManagementAction {
    ClearSlot,
    FillSlotWithSelectedItem,
    EditClip,
    /// Changes the length of the section of the clip by a factor, in millionths.
    AdjustClipSectionLength { factor: u64 },
    CopyOrPasteClip,
    QuantizationOnOffState,
    Duplicate,
    Double,
}

/// An operation on a slot of the clip matrix.
#[derive(Copy, Clone, Debug, PartialEq, Eq, Structural)]
pub enum SlotOperation {
    ClearSlot,
    ImportSelectedItems,
    StartEditingClip,
    StopEditingClip,
    /// Changes the length of the section of the slot by a factor, in millionths.
    AdjustSectionLength { factor: u64 },
    PasteSlot,
    CopySlot,
    QuantizeClip,
    UnquantizeClip,
    DuplicateSlot,
}

/// A target that manages a slot of the clip matrix.
#[derive(Copy, Clone, Debug, PartialEq, Eq, Structural)]
pub struct PlaytimeSlotManagementActionTarget {
    pub action: PlaytimeSlotManagementAction,
}

impl PlaytimeSlotManagementActionTarget {
    /// The target is a switch: it reacts to both on and off.
    pub open spec fn is_switch(self) -> bool {
        self.action == PlaytimeSlotManagementAction::EditClip || self.action
            == PlaytimeSlotManagementAction::QuantizationOnOffState
    }

    /// The operation that a control value causes, which is on or off, on a slot that is
    /// empty or not. A trigger ignores off. Copy-or-paste pastes into an empty slot and
    /// copies a slot that is filled.
    pub open spec fn operation_for(self, is_on: bool, slot_is_empty: bool) -> Option<SlotOperation> {
        match self.action {
            PlaytimeSlotManagementAction::EditClip => Some(
                if is_on {
                    SlotOperation::StartEditingClip
                } else {
                    SlotOperation::StopEditingClip
                },
            ),
            PlaytimeSlotManagementAction::QuantizationOnOffState => Some(
                if is_on {
                    SlotOperation::QuantizeClip
                } else {
                    SlotOperation::UnquantizeClip
                },
            ),
            _ => if !is_on {
                None
            } else {
                Some(
                    match self.action {
                        PlaytimeSlotManagementAction::ClearSlot => SlotOperation::ClearSlot,
                        PlaytimeSlotManagementAction::FillSlotWithSelectedItem => SlotOperation::ImportSelectedItems,
                        PlaytimeSlotManagementAction::AdjustClipSectionLength { factor } => SlotOperation::AdjustSectionLength {
                            factor,
                        },
                        PlaytimeSlotManagementAction::CopyOrPasteClip => if slot_is_empty {
                            SlotOperation::PasteSlot
                        } else {
                            SlotOperation::CopySlot
                        },
                        PlaytimeSlotManagementAction::Duplicate => SlotOperation::DuplicateSlot,
                        _ => SlotOperation::AdjustSectionLength { factor: 2_000_000 },
                    },
                )
            },
        }
    }

    /// Returns the operation that a control value causes, or `None` if the value is
    /// ignored.
    pub fn hit_internal(&self, is_on: bool, slot_is_empty: bool) -> (operation: Option<
        SlotOperation,
    >)
        ensures
            operation == self.operation_for(is_on, slot_is_empty),
    {
        match self.action {
            PlaytimeSlotManagementAction::ClearSlot => {
                if !is_on {
                    return None;
                }
                Some(SlotOperation::ClearSlot)
            },
            PlaytimeSlotManagementAction::FillSlotWithSelectedItem => {
                if !is_on {
                    return None;
                }
                Some(SlotOperation::ImportSelectedItems)
            },
            PlaytimeSlotManagementAction::EditClip => {
                if is_on {
                    Some(SlotOperation::StartEditingClip)
                } else {
                    Some(SlotOperation::StopEditingClip)
                }
            },
            PlaytimeSlotManagementAction::AdjustClipSectionLength { factor } => {
                if !is_on {
                    return None;
                }
                Some(SlotOperation::AdjustSectionLength { factor })
            },
            PlaytimeSlotManagementAction::CopyOrPasteClip => {
                if !is_on {
                    return None;
                }
                if slot_is_empty {
                    Some(SlotOperation::PasteSlot)
                } else {
                    Some(SlotOperation::CopySlot)
                }
            },
            PlaytimeSlotManagementAction::QuantizationOnOffState => {
                if is_on {
                    Some(SlotOperation::QuantizeClip)
                } else {
                    Some(SlotOperation::UnquantizeClip)
                }
            },
            PlaytimeSlotManagementAction::Duplicate => {
                if !is_on {
                    return None;
                }
                Some(SlotOperation::DuplicateSlot)
            },
            PlaytimeSlotManagementAction::Double => {
                if !is_on {
                    return None;
                }
                Some(SlotOperation::AdjustSectionLength { factor: 2_000_000 })
            },
        }
    }

    /// Returns how the target takes control values: a switch takes them continuously, a
    /// trigger can be fired again and again.
    pub fn control_type_and_character(&self) -> (kind: (ControlType, TargetCharacter))
        ensures
            self.is_switch() ==> kind == (ControlType::AbsoluteContinuous, TargetCharacter::Switch),
            !self.is_switch() ==> kind == (
                ControlType::AbsoluteContinuousRetriggerable,
                TargetCharacter::Trigger,
            ),
    {
        match self.action {
            PlaytimeSlotManagementAction::EditClip
            | PlaytimeSlotManagementAction::QuantizationOnOffState => (
                ControlType::AbsoluteContinuous,
                TargetCharacter::Switch,
            ),
            _ => (ControlType::AbsoluteContinuousRetriggerable, TargetCharacter::Trigger),
        }
    }
}

} // verus!
