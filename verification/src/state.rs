//! The transport state of a clip and what is derived from it at a given moment.

use vstd::prelude::*;
use crate::time::clamp_duration;
use crate::time::duration_from;

verus! {

/// How often a clip is played before it stops by itself.
#[derive(Copy, Clone, Debug, PartialEq, Eq, Structural)]
pub enum Repetition {
    Infinitely,
    Times(u32),
}

impl Repetition {
    /// The stop that the repetition implies: none if the clip repeats for ever, otherwise
    /// the end of its last cycle. The first cycle is cycle 0, and a clip plays at least once.
    pub open spec fn stop_instruction(self) -> Option<StopInstruction> {
        match self {
            Repetition::Infinitely => None,
            Repetition::Times(n) => Some(
                StopInstruction::AtEndOfCycle(
                    if n <= 1 {
                        0u32
                    } else {
                        (n - 1) as u32
                    },
                ),
            ),
        }
    }

    /// Returns the repetition of a clip that repeats for ever or plays once.
    pub fn from_bool(repeated: bool) -> (r: Self)
        ensures
            repeated ==> r == Repetition::Infinitely,
            !repeated ==> r == Repetition::Times(1),
    {
        if repeated {
            Repetition::Infinitely
        } else {
            Repetition::Times(1)
        }
    }

    /// Returns the stop that the repetition implies.
    pub fn to_stop_instruction(self) -> (instruction: Option<StopInstruction>)
        ensures
            instruction == self.stop_instruction(),
    {
        match self {
            Repetition::Infinitely => None,
            Repetition::Times(n) => {
                let cycles: u32 = if n <= 1 {
                    1
                } else {
                    n
                };
                Some(StopInstruction::AtEndOfCycle(cycles - 1))
            },
        }
    }
}

/// The one piece of position state that is carried from block to block.
#[derive(Copy, Clone, Debug, PartialEq, Eq, Structural)]
pub struct PlayInfo {
    /// The position at which the next block starts: a position within the clip, or a
    /// negative position during count-in.
    pub next_block_pos: i64,
}

impl PlayInfo {
    /// Returns the play info together with the position of the timeline cursor.
    pub fn cursor_info_at(&self, timeline_cursor_pos: i64) -> (info: CursorInfo)
        ensures
            info == (CursorInfo { timeline_cursor_pos, play_info: *self }),
    {
        CursorInfo { play_info: *self, timeline_cursor_pos }
    }
}

/// Why playing is being suspended, which decides the state that follows.
#[derive(Copy, Clone, Debug, PartialEq, Eq, Structural)]
pub enum SuspensionReason {
    /// The clip is retriggered: it plays again from its start.
    Retrigger,
    /// The clip is paused.
    Pause,
    /// The clip is stopped.
    Stop,
    /// A play request arrived during the suspension: the clip plays from this position.
    PlayWhileSuspending { next_block_pos: i64 },
}

/// Where a scheduled stop takes place.
#[derive(Copy, Clone, Debug, PartialEq, Eq, Structural)]
pub enum ClipStopPosition {
    /// At this position of the timeline.
    At(i64),
    /// At the end of the cycle that is being played.
    AtEndOfClip,
}

/// A pending stop.
#[derive(Copy, Clone, Debug, PartialEq, Eq, Structural)]
pub enum StopInstruction {
    /// After this duration.
    In(u64),
    /// At the end of this cycle. The first cycle is cycle 0.
    AtEndOfCycle(u32),
}

impl StopInstruction {
    /// The instruction after `duration` has passed.
    pub open spec fn counted_down_by(self, duration: u64) -> StopInstruction {
        match self {
            StopInstruction::In(countdown) => StopInstruction::In(
                if countdown <= duration {
                    0u64
                } else {
                    (countdown - duration) as u64
                },
            ),
            StopInstruction::AtEndOfCycle(_) => self,
        }
    }

    /// Returns the instruction after `duration` has passed.
    pub fn count_down_by(&self, duration: u64) -> (next: Self)
        ensures
            next == self.counted_down_by(duration),
    {
        match self {
            StopInstruction::In(countdown) => {
                if *countdown <= duration {
                    StopInstruction::In(0)
                } else {
                    StopInstruction::In(*countdown - duration)
                }
            },
            StopInstruction::AtEndOfCycle(_) => *self,
        }
    }
}

/// The state of a clip.
#[derive(Copy, Clone, Debug, PartialEq, Eq, Structural)]
pub enum ClipState {
    Stopped,
    ScheduledOrPlaying {
        play_info: PlayInfo,
        /// Set while the clip is scheduled for stop.
        stop_instruction: Option<StopInstruction>,
    },
    /// A short transition that fades the clip out before the next state is entered.
    Suspending {
        reason: SuspensionReason,
        /// The position that playing would have had, for the fade-out.
        play_info: PlayInfo,
        /// What is left of the fade-out.
        transition_countdown: u64,
    },
    Paused {
        /// The position within the clip at which playing resumes.
        next_block_pos: u64,
    },
}

impl ClipState {
    /// The play info of a clip that is playing or fading out.
    pub open spec fn spec_play_info(&self) -> Option<PlayInfo> {
        match *self {
            ClipState::Stopped => None,
            ClipState::Paused { .. } => None,
            ClipState::ScheduledOrPlaying { play_info, .. } => Some(play_info),
            ClipState::Suspending { play_info, .. } => Some(play_info),
        }
    }

    /// Returns the play info of a clip that is playing or fading out.
    #[verifier::when_used_as_spec(spec_play_info)]
    pub fn play_info(&self) -> (info: Option<PlayInfo>)
        ensures
            info == self.spec_play_info(),
    {
        match self {
            ClipState::Stopped => None,
            ClipState::Paused { .. } => None,
            ClipState::ScheduledOrPlaying { play_info, .. } => Some(*play_info),
            ClipState::Suspending { play_info, .. } => Some(*play_info),
        }
    }
}

/// Play info together with the position of the timeline cursor.
#[derive(Copy, Clone, Debug, PartialEq, Eq, Structural)]
pub struct CursorInfo {
    pub timeline_cursor_pos: i64,
    pub play_info: PlayInfo,
}

impl CursorInfo {
    /// The scheduled start has been reached: count-in is over.
    pub open spec fn spec_has_started_already(&self) -> bool {
        self.play_info.next_block_pos >= 0
    }

    /// Returns whether the scheduled start has been reached.
    #[verifier::when_used_as_spec(spec_has_started_already)]
    pub fn has_started_already(&self) -> (started: bool)
        ensures
            started == self.spec_has_started_already(),
    {
        self.play_info.next_block_pos >= 0
    }
}

/// Cursor info together with the effective clip length and the repetition. It is derived
/// anew for every block and for every control operation.
#[derive(Copy, Clone, Debug, PartialEq, Eq, Structural)]
pub struct CursorAndLengthInfo {
    pub cursor_info: CursorInfo,
    /// The effective clip length: the native length divided by the tempo factor.
    pub clip_length: u64,
    pub repetition: Repetition,
}

impl CursorAndLengthInfo {
    /// The position at which the next block starts.
    pub open spec fn next_block_pos(self) -> int {
        self.cursor_info.play_info.next_block_pos as int
    }

    /// The cycle that contains the next block position, counted from 0 and capped at
    /// `u32::MAX`. During count-in it is 0. In a clip without length every position after
    /// the start lies in the last cycle that can be counted.
    pub open spec fn hypothetical_cycle_index(self) -> int {
        if self.next_block_pos() <= 0 {
            0
        } else if self.clip_length == 0 {
            u32::MAX as int
        } else if self.next_block_pos() / (self.clip_length as int) > u32::MAX as int {
            u32::MAX as int
        } else {
            self.next_block_pos() / (self.clip_length as int)
        }
    }

    /// The cycle that is being played, if the repetition still lets it play.
    pub open spec fn cycle_index(self) -> Option<u32> {
        match self.repetition {
            Repetition::Infinitely => Some(self.hypothetical_cycle_index() as u32),
            Repetition::Times(n) => if self.hypothetical_cycle_index() < n {
                Some(self.hypothetical_cycle_index() as u32)
            } else {
                None
            },
        }
    }

    /// The time until the given stop, from the next block position on. It is never negative:
    /// a stop whose cycle has already ended is due at once.
    pub open spec fn resolved_countdown(self, stop_instruction: StopInstruction) -> int {
        match stop_instruction {
            StopInstruction::In(countdown) => countdown as int,
            StopInstruction::AtEndOfCycle(n) => clamp_duration(
                self.clip_length * (n + 1) - self.next_block_pos(),
            ),
        }
    }

    /// The time until the clip stops: the smaller of the time until its repetition ends and
    /// the time until the scheduled stop, as far as there is either.
    pub open spec fn effective_countdown(self, scheduled_stop: Option<StopInstruction>) -> Option<
        u64,
    > {
        match (self.repetition.stop_instruction(), scheduled_stop) {
            (None, None) => None,
            (Some(natural), None) => Some(self.resolved_countdown(natural) as u64),
            (None, Some(scheduled)) => Some(self.resolved_countdown(scheduled) as u64),
            (Some(natural), Some(scheduled)) => Some(
                if self.resolved_countdown(natural) <= self.resolved_countdown(scheduled) {
                    self.resolved_countdown(natural) as u64
                } else {
                    self.resolved_countdown(scheduled) as u64
                },
            ),
        }
    }

    /// The stop instruction for a stop that is requested at `pos`, if the clip can be
    /// stopped there: a stop at a timeline position must not lie before the cursor, and a
    /// stop at the end of the clip needs a cycle that is being played.
    pub open spec fn stop_instruction_for(self, pos: ClipStopPosition) -> Option<StopInstruction> {
        match pos {
            ClipStopPosition::At(p) => if p - self.cursor_info.timeline_cursor_pos < 0 {
                None
            } else {
                Some(StopInstruction::In((p - self.cursor_info.timeline_cursor_pos) as u64))
            },
            ClipStopPosition::AtEndOfClip => match self.cycle_index() {
                Some(cycle) => Some(StopInstruction::AtEndOfCycle(cycle)),
                None => None,
            },
        }
    }

    /// Returns the stop instruction for a stop that is requested at `pos`.
    pub fn determine_stop_instruction(&self, pos: ClipStopPosition) -> (instruction: Option<
        StopInstruction,
    >)
        ensures
            instruction == self.stop_instruction_for(pos),
    {
        match pos {
            ClipStopPosition::At(p) => {
                let distance: i128 = (p as i128) - (self.cursor_info.timeline_cursor_pos as i128);
                if distance < 0 {
                    None
                } else {
                    Some(StopInstruction::In(distance as u64))
                }
            },
            ClipStopPosition::AtEndOfClip => {
                match self.current_cycle_index() {
                    Some(cycle) => Some(StopInstruction::AtEndOfCycle(cycle)),
                    None => None,
                }
            },
        }
    }

    /// Returns the cycle that is being played, counted from 0, or `None` if the repetition
    /// has been used up.
    pub fn current_cycle_index(&self) -> (index: Option<u32>)
        ensures
            index == self.cycle_index(),
    {
        let cycle_index = self.current_hypothetical_cycle_index();
        match self.repetition {
            Repetition::Infinitely => Some(cycle_index),
            Repetition::Times(n) => {
                if cycle_index < n {
                    Some(cycle_index)
                } else {
                    None
                }
            },
        }
    }

    /// Returns the cycle that contains the next block position, whatever the repetition.
    pub fn current_hypothetical_cycle_index(&self) -> (index: u32)
        ensures
            index as int == self.hypothetical_cycle_index(),
    {
        let pos: i64 = self.cursor_info.play_info.next_block_pos;
        if pos <= 0 {
            0
        } else if self.clip_length == 0 {
            u32::MAX
        } else {
            let cycles: u64 = (pos as u64) / self.clip_length;
            if cycles > u32::MAX as u64 {
                u32::MAX
            } else {
                cycles as u32
            }
        }
    }

    /// Returns the time until the clip stops, if a stop is due.
    pub fn effective_stop_countdown(&self, scheduled_stop: Option<StopInstruction>) -> (countdown:
        Option<u64>)
        ensures
            countdown == self.effective_countdown(scheduled_stop),
    {
        let natural_stop = self.repetition.to_stop_instruction();
        match (natural_stop, scheduled_stop) {
            (None, None) => None,
            (Some(natural), None) => Some(self.resolve_stop_instruction(natural)),
            (None, Some(scheduled)) => Some(self.resolve_stop_instruction(scheduled)),
            (Some(natural), Some(scheduled)) => {
                let a = self.resolve_stop_instruction(natural);
                let b = self.resolve_stop_instruction(scheduled);
                if a <= b {
                    Some(a)
                } else {
                    Some(b)
                }
            },
        }
    }

    /// Returns the time until the given stop. It is never negative.
    pub fn resolve_stop_instruction(&self, stop_instruction: StopInstruction) -> (countdown: u64)
        ensures
            countdown as int == self.resolved_countdown(stop_instruction),
    {
        match stop_instruction {
            StopInstruction::In(countdown) => countdown,
            StopInstruction::AtEndOfCycle(n) => {
                let cycles: u64 = (n as u64) + 1;
                proof {
                    assert(0 <= (self.clip_length as int) * (cycles as int) <= 0xFFFF_FFFF_FFFF_FFFF
                        * 0x1_0000_0000) by (nonlinear_arith)
                        requires
                            0 <= self.clip_length <= 0xFFFF_FFFF_FFFF_FFFF,
                            0 <= cycles <= 0x1_0000_0000,
                    ;
                }
                let requested_end_pos: u128 = (self.clip_length as u128) * (cycles as u128);
                let duration: i128 = (requested_end_pos as i128) - (
                self.cursor_info.play_info.next_block_pos as i128);
                duration_from(duration)
            },
        }
    }

    /// However a stop is given and whatever the state, the time until it is never negative.
    pub proof fn lemma_resolved_countdown_not_negative(self, stop_instruction: StopInstruction)
        ensures
            0 <= self.resolved_countdown(stop_instruction) <= u64::MAX,
    {
    }

    /// Where both a stop by repetition and a scheduled stop exist, the earlier one counts.
    pub proof fn lemma_effective_countdown_is_smallest(
        self,
        scheduled_stop: StopInstruction,
        natural_stop: StopInstruction,
    )
        requires
            self.repetition.stop_instruction() == Some(natural_stop),
        ensures
            self.effective_countdown(Some(scheduled_stop)).is_some(),
            self.effective_countdown(Some(scheduled_stop)).unwrap() <= self.resolved_countdown(
                scheduled_stop,
            ),
            self.effective_countdown(Some(scheduled_stop)).unwrap() <= self.resolved_countdown(
                natural_stop,
            ),
    {
    }
}

} // verus!
