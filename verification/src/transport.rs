//! The transitions of the transport state machine, as functions of state and event.

use vstd::prelude::*;
use crate::block::end_pos_of;
use crate::state::ClipState;
use crate::state::ClipStopPosition;
use crate::state::CursorAndLengthInfo;
use crate::state::CursorInfo;
use crate::state::PlayInfo;
use crate::state::Repetition;
use crate::state::StopInstruction;
use crate::state::SuspensionReason;
use crate::time::clamp_position;

verus! {

/// The length of the fade-out of a suspension, and of the fades at the start and at the end
/// of a clip: 10 milliseconds.
pub const FADE_LENGTH: u64 = 10_000_000;

/// The position that a paused clip resumes at, as a position of the next block.
pub open spec fn resume_pos(paused_pos: u64) -> i64 {
    clamp_position(paused_pos as int) as i64
}

/// The position at which a suspended clip pauses: the position that it had, or the start
/// of the clip if it was still counting in.
pub open spec fn pause_pos(next_block_pos: i64) -> u64 {
    if next_block_pos < 0 {
        0u64
    } else {
        next_block_pos as u64
    }
}

impl ClipState {
    /// The state of a clip that has just been scheduled: the next block starts as far
    /// before the start of the clip as the cursor is before the start position.
    pub open spec fn scheduled(timeline_cursor_pos: i64, start_pos: i64) -> ClipState {
        ClipState::ScheduledOrPlaying {
            play_info: PlayInfo {
                next_block_pos: clamp_position(timeline_cursor_pos - start_pos) as i64,
            },
            stop_instruction: None,
        }
    }

    /// The clip is scheduled and still counts in.
    pub open spec fn is_counting_in(self) -> bool {
        match self {
            ClipState::ScheduledOrPlaying { play_info, .. } => play_info.next_block_pos < 0,
            _ => false,
        }
    }

    /// A start request sets the repetition of the clip: it does so unless the clip is
    /// playing already or is paused.
    pub open spec fn start_sets_repetition(self) -> bool {
        match self {
            ClipState::Stopped => true,
            ClipState::ScheduledOrPlaying { play_info, stop_instruction } => {
                stop_instruction.is_none() && play_info.next_block_pos < 0
            },
            ClipState::Suspending { .. } => true,
            ClipState::Paused { .. } => false,
        }
    }

    /// The state after a request to start at `start_pos`, made when the cursor is at
    /// `timeline_cursor_pos`.
    ///
    /// A stopped clip is scheduled. A clip that is scheduled for stop keeps playing. A clip
    /// that still counts in is scheduled anew. A playing clip is retriggered after a
    /// fade-out. A suspending clip remembers the request. A paused clip resumes at once.
    pub open spec fn after_start(self, timeline_cursor_pos: i64, start_pos: i64) -> ClipState {
        match self {
            ClipState::Stopped => ClipState::scheduled(timeline_cursor_pos, start_pos),
            ClipState::ScheduledOrPlaying { play_info, stop_instruction } => {
                if stop_instruction.is_some() {
                    ClipState::ScheduledOrPlaying { play_info, stop_instruction: None }
                } else if play_info.next_block_pos >= 0 {
                    ClipState::Suspending {
                        reason: SuspensionReason::Retrigger,
                        play_info,
                        transition_countdown: FADE_LENGTH,
                    }
                } else {
                    ClipState::scheduled(timeline_cursor_pos, start_pos)
                }
            },
            ClipState::Suspending { play_info, transition_countdown, .. } => ClipState::Suspending {
                reason: SuspensionReason::PlayWhileSuspending {
                    next_block_pos: clamp_position(timeline_cursor_pos - start_pos) as i64,
                },
                play_info,
                transition_countdown,
            },
            ClipState::Paused { next_block_pos } => ClipState::ScheduledOrPlaying {
                play_info: PlayInfo { next_block_pos: resume_pos(next_block_pos) },
                stop_instruction: None,
            },
        }
    }

    /// The state after a request to pause.
    ///
    /// A playing clip fades out and pauses. A suspending clip keeps fading out and pauses.
    /// Nothing changes for a clip that is stopped, paused or still counting in.
    pub open spec fn after_pause(self) -> ClipState {
        match self {
            ClipState::ScheduledOrPlaying { play_info, .. } => {
                if play_info.next_block_pos >= 0 {
                    ClipState::Suspending {
                        reason: SuspensionReason::Pause,
                        play_info,
                        transition_countdown: FADE_LENGTH,
                    }
                } else {
                    self
                }
            },
            ClipState::Suspending { play_info, transition_countdown, .. } => ClipState::Suspending {
                reason: SuspensionReason::Pause,
                play_info,
                transition_countdown,
            },
            _ => self,
        }
    }

    /// The state after a request to stop at `pos`, made when the cursor is at
    /// `timeline_cursor_pos` and the clip has the effective length `clip_length`.
    ///
    /// Nothing changes for a clip that is stopped, suspending or scheduled for stop already.
    /// A paused clip and a clip that still counts in are stopped. A playing clip keeps
    /// playing with the stop instruction that `pos` amounts to, or is stopped if there is
    /// none.
    pub open spec fn after_schedule_stop(
        self,
        timeline_cursor_pos: i64,
        clip_length: u64,
        repetition: Repetition,
        pos: ClipStopPosition,
    ) -> ClipState {
        match self {
            ClipState::ScheduledOrPlaying { play_info, stop_instruction } => {
                if stop_instruction.is_some() {
                    self
                } else if play_info.next_block_pos >= 0 {
                    let info = CursorAndLengthInfo {
                        cursor_info: CursorInfo { timeline_cursor_pos, play_info },
                        clip_length,
                        repetition,
                    };
                    match info.stop_instruction_for(pos) {
                        Some(instruction) => ClipState::ScheduledOrPlaying {
                            play_info,
                            stop_instruction: Some(instruction),
                        },
                        None => ClipState::Stopped,
                    }
                } else {
                    ClipState::Stopped
                }
            },
            ClipState::Paused { .. } => ClipState::Stopped,
            _ => self,
        }
    }

    /// The state after a request to stop at once.
    ///
    /// A clip that plays or is scheduled for stop fades out and stops. A suspending clip
    /// keeps fading out and stops. A clip that still counts in and a paused clip are
    /// stopped without a fade-out.
    pub open spec fn after_stop_immediately(self) -> ClipState {
        match self {
            ClipState::Stopped => self,
            ClipState::ScheduledOrPlaying { play_info, stop_instruction } => {
                if stop_instruction.is_some() || play_info.next_block_pos >= 0 {
                    ClipState::Suspending {
                        reason: SuspensionReason::Stop,
                        play_info,
                        transition_countdown: FADE_LENGTH,
                    }
                } else {
                    ClipState::Stopped
                }
            },
            ClipState::Suspending { play_info, transition_countdown, .. } => ClipState::Suspending {
                reason: SuspensionReason::Stop,
                play_info,
                transition_countdown,
            },
            ClipState::Paused { .. } => ClipState::Stopped,
        }
    }

    /// The state after seeking to the position `desired_pos` within the clip. Only a clip
    /// that is scheduled, playing or paused has a position to set; its kind of state and a
    /// pending stop stay as they are.
    pub open spec fn after_seek(self, desired_pos: u64) -> ClipState {
        match self {
            ClipState::ScheduledOrPlaying { stop_instruction, .. } => ClipState::ScheduledOrPlaying {
                play_info: PlayInfo { next_block_pos: resume_pos(desired_pos) },
                stop_instruction,
            },
            ClipState::Paused { .. } => ClipState::Paused { next_block_pos: desired_pos },
            _ => self,
        }
    }

    /// The state that follows a suspension.
    pub open spec fn after_suspension(reason: SuspensionReason, play_info: PlayInfo) -> ClipState {
        match reason {
            SuspensionReason::Retrigger => ClipState::ScheduledOrPlaying {
                play_info: PlayInfo { next_block_pos: 0 },
                stop_instruction: None,
            },
            SuspensionReason::Pause => ClipState::Paused {
                next_block_pos: pause_pos(play_info.next_block_pos),
            },
            SuspensionReason::Stop => ClipState::Stopped,
            SuspensionReason::PlayWhileSuspending { next_block_pos } => ClipState::ScheduledOrPlaying {
                play_info: PlayInfo { next_block_pos },
                stop_instruction: None,
            },
        }
    }

    /// The state after a block of the duration `duration` has been rendered at the tempo
    /// factor `factor`, for a clip of the effective length `clip_length`.
    ///
    /// A stopped or paused clip stays as it is. A suspending MIDI clip enters the state that
    /// follows its suspension at once; a suspending audio clip does so when its fade-out is
    /// over. A scheduled or playing clip advances by the block. If the time until its stop is
    /// not longer than the block, it is stopped, without a suspension.
    pub open spec fn after_block(
        self,
        is_midi: bool,
        repetition: Repetition,
        timeline_cursor_pos: i64,
        clip_length: u64,
        factor: u64,
        duration: u64,
    ) -> ClipState {
        match self {
            ClipState::Stopped => self,
            ClipState::Paused { .. } => self,
            ClipState::Suspending { reason, play_info, transition_countdown } => {
                if !is_midi && transition_countdown > duration {
                    ClipState::Suspending {
                        reason,
                        play_info,
                        transition_countdown: (transition_countdown - duration) as u64,
                    }
                } else {
                    ClipState::after_suspension(reason, play_info)
                }
            },
            ClipState::ScheduledOrPlaying { play_info, stop_instruction } => {
                let info = CursorAndLengthInfo {
                    cursor_info: CursorInfo { timeline_cursor_pos, play_info },
                    clip_length,
                    repetition,
                };
                let next_play_info = PlayInfo {
                    next_block_pos: end_pos_of(
                        play_info.next_block_pos as int,
                        duration as int,
                        factor as int,
                        clip_length as int,
                    ) as i64,
                };
                match info.effective_countdown(stop_instruction) {
                    Some(countdown) => if countdown > duration {
                        ClipState::ScheduledOrPlaying {
                            play_info: next_play_info,
                            stop_instruction: match stop_instruction {
                                Some(instruction) => Some(instruction.counted_down_by(duration)),
                                None => None,
                            },
                        }
                    } else {
                        ClipState::Stopped
                    },
                    None => ClipState::ScheduledOrPlaying {
                        play_info: next_play_info,
                        stop_instruction: None,
                    },
                }
            },
        }
    }

    /// The position within the clip: none for a stopped clip, the next block position for a
    /// clip that plays or fades out, the resume position for a paused clip.
    pub open spec fn pos_within_clip(self) -> Option<i64> {
        match self {
            ClipState::Stopped => None,
            ClipState::ScheduledOrPlaying { play_info, .. } => Some(play_info.next_block_pos),
            ClipState::Suspending { play_info, .. } => Some(play_info.next_block_pos),
            ClipState::Paused { next_block_pos } => Some(resume_pos(next_block_pos)),
        }
    }

    /// A start request on a stopped clip schedules it: the next block starts at the
    /// distance of the cursor from the start position, and no stop is pending.
    pub proof fn lemma_start_when_stopped(timeline_cursor_pos: i64, start_pos: i64)
        requires
            i64::MIN <= timeline_cursor_pos - start_pos <= i64::MAX,
        ensures
            ClipState::Stopped.after_start(timeline_cursor_pos, start_pos) == (
            ClipState::ScheduledOrPlaying {
                play_info: PlayInfo { next_block_pos: (timeline_cursor_pos - start_pos) as i64 },
                stop_instruction: None,
            }),
            ClipState::Stopped.start_sets_repetition(),
    {
    }

    /// A request to stop at once leaves a clip stopped or fading out towards a stop, and a
    /// second request changes nothing.
    pub proof fn lemma_stop_immediately_idempotent(self)
        ensures
            self.after_stop_immediately() == ClipState::Stopped
                || self.after_stop_immediately() matches ClipState::Suspending {
                reason: SuspensionReason::Stop,
                ..
            },
            self.after_stop_immediately().after_stop_immediately() == self.after_stop_immediately(),
    {
    }

    /// A request to pause does not change a clip that still counts in.
    pub proof fn lemma_pause_during_count_in(self)
        requires
            self.is_counting_in(),
        ensures
            self.after_pause() == self,
    {
    }

    /// After seeking, a clip that is scheduled, playing or paused is at the position that
    /// was asked for.
    pub proof fn lemma_seek_sets_position(self, desired_pos: u64)
        requires
            self matches ClipState::ScheduledOrPlaying { .. } || self matches ClipState::Paused {
                ..
            },
        ensures
            self.after_seek(desired_pos).pos_within_clip() == Some(resume_pos(desired_pos)),
            desired_pos <= i64::MAX ==> self.after_seek(desired_pos).pos_within_clip() == Some(
                desired_pos as i64,
            ),
    {
    }

    /// A block leaves a scheduled or playing clip stopped or at a position that is negative
    /// or lies within the clip.
    pub proof fn lemma_block_keeps_position_within_clip(
        self,
        is_midi: bool,
        repetition: Repetition,
        timeline_cursor_pos: i64,
        clip_length: u64,
        factor: u64,
        duration: u64,
    )
        requires
            self matches ClipState::ScheduledOrPlaying { .. },
            clip_length > 0,
        ensures
            match self.after_block(
                is_midi,
                repetition,
                timeline_cursor_pos,
                clip_length,
                factor,
                duration,
            ) {
                ClipState::Stopped => true,
                ClipState::ScheduledOrPlaying { play_info, .. } => play_info.next_block_pos
                    < clip_length,
                _ => false,
            },
    {
        let start = self->ScheduledOrPlaying_play_info.next_block_pos;
        let p = start + crate::time::scaled(duration as int, factor as int);
        assert(0 <= (duration as int) * (factor as int)) by (nonlinear_arith)
            requires
                0 <= duration,
                0 <= factor,
        ;
        if p < 0 {
            assert(i64::MIN <= start <= p);
        } else {
            assert(0 <= crate::time::wrapped(p, clip_length as int) < clip_length);
        }
    }

    /// A clip that is to play more than once and has no stop scheduled plays on after a
    /// block that is shorter than the clip, wherever within the clip the block starts: the
    /// position is kept within the clip, so that the end of the last cycle is never less
    /// than one clip length away.
    pub proof fn lemma_repeated_clip_plays_on(
        self,
        is_midi: bool,
        times: u32,
        timeline_cursor_pos: i64,
        clip_length: u64,
        factor: u64,
        duration: u64,
        play_info: PlayInfo,
    )
        requires
            self == (ClipState::ScheduledOrPlaying { play_info, stop_instruction: None }),
            times >= 2,
            0 <= play_info.next_block_pos < clip_length,
            duration < clip_length,
        ensures
            self.after_block(
                is_midi,
                Repetition::Times(times),
                timeline_cursor_pos,
                clip_length,
                factor,
                duration,
            ) matches ClipState::ScheduledOrPlaying { stop_instruction: None, .. },
    {
        let info = CursorAndLengthInfo {
            cursor_info: CursorInfo { timeline_cursor_pos, play_info },
            clip_length,
            repetition: Repetition::Times(times),
        };
        let cycles = (times - 1) as u32;
        assert(Repetition::Times(times).stop_instruction() == Some(
            StopInstruction::AtEndOfCycle(cycles),
        ));
        assert((clip_length as int) * (cycles + 1) >= (clip_length as int) * 2) by (nonlinear_arith)
            requires
                clip_length >= 0,
                cycles + 1 >= 2,
        ;
        assert(info.resolved_countdown(StopInstruction::AtEndOfCycle(cycles)) > duration);
    }

    /// A clip whose stop is due within the block is stopped by the block, without a
    /// suspension.
    pub proof fn lemma_block_reaches_stop(
        self,
        is_midi: bool,
        repetition: Repetition,
        timeline_cursor_pos: i64,
        clip_length: u64,
        factor: u64,
        duration: u64,
        play_info: PlayInfo,
        stop_instruction: Option<StopInstruction>,
    )
        requires
            self == (ClipState::ScheduledOrPlaying { play_info, stop_instruction }),
            (CursorAndLengthInfo {
                cursor_info: CursorInfo { timeline_cursor_pos, play_info },
                clip_length,
                repetition,
            }).effective_countdown(stop_instruction) matches Some(countdown) && countdown
                <= duration,
        ensures
            self.after_block(is_midi, repetition, timeline_cursor_pos, clip_length, factor, duration)
                == ClipState::Stopped,
    {
    }
}

} // verus!
