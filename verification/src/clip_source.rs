//! The clip: its transport state, the control operations and the rendering of blocks.

use vstd::prelude::*;
use crate::block::BlockInfo;
use crate::block::SourceQuery;
use crate::midi::silence_messages;
use crate::midi::silence_midi;
use crate::midi::MidiMessage;
use crate::state::ClipState;
use crate::state::ClipStopPosition;
use crate::state::CursorAndLengthInfo;
use crate::state::CursorInfo;
use crate::state::PlayInfo;
use crate::state::Repetition;
use crate::state::StopInstruction;
use crate::state::SuspensionReason;
use crate::time::clamp_duration;
use crate::time::duration_from_unsigned;
use crate::time::frames_to_nanos;
use crate::time::lemma_product_fits;
use crate::time::position_from;
use crate::time::scale_duration;
use crate::time::scaled;
use crate::time::unscale_duration;
use crate::time::unscaled;
use crate::time::MILLION;
use crate::transport::pause_pos;
use crate::transport::resume_pos;
use crate::transport::FADE_LENGTH;

verus! {

/// The smallest tempo factor at which a clip is played: a quarter of its own tempo.
pub const MIN_TEMPO_FACTOR: u64 = 250_000;

/// The tempo that the material of a clip is taken to have, in thousandths of a beat per
/// minute.
pub const ORIGINAL_TEMPO: u32 = 96_000;

/// The tempo factor at which a clip with the manual tempo factor `manual_tempo_factor` is
/// played when the timeline has the tempo `timeline_tempo`: the manual factor times the
/// ratio of the timeline tempo to the tempo of the material, but at least the minimum.
pub open spec fn final_tempo_factor(manual_tempo_factor: u64, timeline_tempo: u32) -> u64 {
    let factor = clamp_duration(manual_tempo_factor * timeline_tempo / (ORIGINAL_TEMPO as int));
    if factor < MIN_TEMPO_FACTOR {
        MIN_TEMPO_FACTOR
    } else {
        factor as u64
    }
}

/// The length of a clip of the native length `native_clip_length` at the given tempo factor.
pub open spec fn effective_clip_length(native_clip_length: u64, factor: u64) -> u64 {
    clamp_duration(unscaled(native_clip_length as int, factor as int)) as u64
}

/// The proportion of a clip of the length `length` that lies before `position`, in
/// millionths, kept between 0 and 1. A clip without length is always at its start.
pub open spec fn proportional_position(position: Option<i64>, length: u64) -> Option<u32> {
    if length == 0 {
        Some(0u32)
    } else {
        match position {
            None => None,
            Some(p) => Some(
                if p < 0 {
                    0u32
                } else if p * MILLION / (length as int) > MILLION {
                    MILLION as u32
                } else {
                    (p * MILLION / (length as int)) as u32
                },
            ),
        }
    }
}

/// Arguments of a request to stop.
#[derive(Clone, Copy, Debug)]
pub struct ScheduleStopArgs {
    pub timeline_cursor_pos: i64,
    pub timeline_tempo: u32,
    pub pos: ClipStopPosition,
}

/// Arguments of a request to seek.
#[derive(Clone, Copy, Debug)]
pub struct SeekToArgs {
    pub timeline_cursor_pos: i64,
    pub timeline_tempo: u32,
    /// The position within the clip as a proportion of its length, in millionths.
    pub desired_pos: u32,
}

/// Arguments of a request to repeat or not to repeat.
#[derive(Clone, Copy, Debug)]
pub struct SetRepeatedArgs {
    pub timeline_cursor_pos: i64,
    pub timeline_tempo: u32,
    pub repeated: bool,
}

/// Arguments of a query for the position within the clip.
#[derive(Clone, Copy, Debug)]
pub struct PosWithinClipArgs {
    pub timeline_cursor_pos: i64,
    pub timeline_tempo: u32,
}

/// What the host has to do for one block.
#[derive(Debug)]
pub enum RenderCommand {
    /// Nothing is played.
    Idle,
    /// These messages are added to the events of the block.
    SilenceMidi { messages: Vec<MidiMessage> },
    /// The block belongs to the clip. If it reaches the part that is played, `query` is
    /// the first request to the source.
    Fill { info: BlockInfo, query: Option<SourceQuery> },
}

/// A clip: source material with a transport state of its own.
///
/// The clip holds of its material what the scheduling depends on: whether it is MIDI or
/// audio, and how long it is at its own tempo.
#[derive(Debug)]
pub struct ClipPcmSource {
    is_midi: bool,
    native_clip_length: u64,
    repetition: Repetition,
    manual_tempo_factor: u64,
    state: ClipState,
}

impl ClipPcmSource {
    /// Whether the material is MIDI.
    pub closed spec fn spec_is_midi(&self) -> bool {
        self.is_midi
    }

    /// The length of the material at its own tempo.
    pub closed spec fn spec_native_clip_length(&self) -> u64 {
        self.native_clip_length
    }

    /// How often the clip is played.
    pub closed spec fn spec_repetition(&self) -> Repetition {
        self.repetition
    }

    /// The tempo factor that was set by hand, in millionths.
    pub closed spec fn spec_get_tempo_factor(&self) -> u64 {
        self.manual_tempo_factor
    }

    /// The transport state.
    pub closed spec fn spec_clip_state(&self) -> ClipState {
        self.state
    }

    /// The tempo factor at which the clip is played at the given timeline tempo.
    pub open spec fn final_tempo_factor_at(&self, timeline_tempo: u32) -> u64 {
        final_tempo_factor(self.spec_get_tempo_factor(), timeline_tempo)
    }

    /// The length of the clip at the given timeline tempo.
    pub open spec fn spec_clip_length(&self, timeline_tempo: u32) -> u64 {
        effective_clip_length(
            self.spec_native_clip_length(),
            self.final_tempo_factor_at(timeline_tempo),
        )
    }

    /// Only the transport state may differ between `self` and `other`.
    pub open spec fn same_settings(&self, other: &ClipPcmSource) -> bool {
        &&& self.spec_is_midi() == other.spec_is_midi()
        &&& self.spec_native_clip_length() == other.spec_native_clip_length()
        &&& self.spec_repetition() == other.spec_repetition()
        &&& self.spec_get_tempo_factor() == other.spec_get_tempo_factor()
    }

    /// Only the transport state and the repetition may differ between `self` and `other`.
    pub open spec fn same_material(&self, other: &ClipPcmSource) -> bool {
        &&& self.spec_is_midi() == other.spec_is_midi()
        &&& self.spec_native_clip_length() == other.spec_native_clip_length()
        &&& self.spec_get_tempo_factor() == other.spec_get_tempo_factor()
    }

    /// What is derived for a block or a control operation from the play info `play_info`.
    pub open spec fn cursor_and_length_info_at(
        &self,
        play_info: PlayInfo,
        timeline_cursor_pos: i64,
        timeline_tempo: u32,
    ) -> CursorAndLengthInfo {
        CursorAndLengthInfo {
            cursor_info: CursorInfo { timeline_cursor_pos, play_info },
            clip_length: self.spec_clip_length(timeline_tempo),
            repetition: self.spec_repetition(),
        }
    }

    /// The number of times that a clip is played once it is told not to repeat: a clip that
    /// plays or fades out finishes the cycle that it is in; any other clip plays once.
    pub open spec fn times_when_unrepeated(&self, timeline_cursor_pos: i64, timeline_tempo: u32) -> u32 {
        match self.spec_clip_state().spec_play_info() {
            Some(play_info) => {
                let cycle = self.cursor_and_length_info_at(
                    play_info,
                    timeline_cursor_pos,
                    timeline_tempo,
                ).hypothetical_cycle_index();
                if cycle + 1 > u32::MAX {
                    u32::MAX
                } else {
                    (cycle + 1) as u32
                }
            },
            None => 1u32,
        }
    }

    /// What is known of a block of `length` frames at `sample_rate` hertz before it is
    /// rendered, for the play info `play_info` and the time `stop_countdown` until the stop.
    pub open spec fn block_is(
        &self,
        info: &BlockInfo,
        length: u32,
        sample_rate: u32,
        play_info: PlayInfo,
        timeline_cursor_pos: i64,
        timeline_tempo: u32,
        stop_countdown: Option<u64>,
    ) -> bool {
        &&& info.spec_length() == length
        &&& info.spec_sample_rate() == sample_rate
        &&& info.spec_duration() as int == frames_to_nanos(length as int, sample_rate as int)
        &&& info.spec_cursor_and_lenght_info() == self.cursor_and_length_info_at(
            play_info,
            timeline_cursor_pos,
            timeline_tempo,
        )
        &&& info.spec_block_start_pos() == play_info.next_block_pos
        &&& info.spec_block_end_pos() as int == crate::block::end_pos_of(
            play_info.next_block_pos as int,
            frames_to_nanos(length as int, sample_rate as int),
            self.final_tempo_factor_at(timeline_tempo) as int,
            self.spec_clip_length(timeline_tempo) as int,
        )
        &&& info.spec_final_tempo_factor() == self.final_tempo_factor_at(timeline_tempo)
        &&& info.spec_stop_countdown() == stop_countdown
    }

    /// The first request to the source for the block `info`: none if the block ends during
    /// count-in, otherwise the request for MIDI or for audio.
    pub open spec fn first_query(&self, info: &BlockInfo) -> Option<SourceQuery> {
        if !info.reaches_start() {
            None
        } else if self.spec_is_midi() {
            Some(info.midi_query(ORIGINAL_TEMPO))
        } else {
            Some(info.audio_query())
        }
    }

    /// What the host has to do for a block, given the state before the block.
    pub open spec fn command_is(
        &self,
        command: &RenderCommand,
        length: u32,
        sample_rate: u32,
        timeline_tempo: u32,
        timeline_cursor_pos: i64,
    ) -> bool {
        match self.spec_clip_state() {
            ClipState::Stopped => *command matches RenderCommand::Idle,
            ClipState::Paused { .. } => *command matches RenderCommand::Idle,
            ClipState::Suspending { play_info, transition_countdown, .. } => {
                if self.spec_is_midi() {
                    *command matches RenderCommand::SilenceMidi { messages } && messages@
                        == silence_messages()
                } else {
                    *command matches RenderCommand::Fill { info, query } && self.block_is(
                        &info,
                        length,
                        sample_rate,
                        play_info,
                        timeline_cursor_pos,
                        timeline_tempo,
                        Some(transition_countdown),
                    ) && query == self.first_query(&info)
                }
            },
            ClipState::ScheduledOrPlaying { play_info, stop_instruction } => {
                *command matches RenderCommand::Fill { info, query } && self.block_is(
                    &info,
                    length,
                    sample_rate,
                    play_info,
                    timeline_cursor_pos,
                    timeline_tempo,
                    self.cursor_and_length_info_at(
                        play_info,
                        timeline_cursor_pos,
                        timeline_tempo,
                    ).effective_countdown(stop_instruction),
                ) && query == self.first_query(&info)
            },
        }
    }

    /// A clip that repeats for ever and is told not to repeat while it plays in cycle `k`
    /// is played `k + 1` times: it finishes the cycle that it is in.
    pub proof fn lemma_unrepeat_finishes_current_cycle(
        &self,
        timeline_cursor_pos: i64,
        timeline_tempo: u32,
        play_info: PlayInfo,
        k: u32,
    )
        requires
            self.spec_repetition() == Repetition::Infinitely,
            self.spec_clip_state().spec_play_info() == Some(play_info),
            self.cursor_and_length_info_at(
                play_info,
                timeline_cursor_pos,
                timeline_tempo,
            ).cycle_index() == Some(k),
            k < u32::MAX,
        ensures
            self.times_when_unrepeated(timeline_cursor_pos, timeline_tempo) == k + 1,
    {
    }

    /// A clip that is scheduled, playing or paused and seeks to a proportion of its length
    /// is at that position afterwards: at half of its length if it seeks to one half.
    pub proof fn lemma_seek_round_trip(&self, after: &ClipPcmSource, args: SeekToArgs)
        requires
            self.spec_clip_state() matches ClipState::ScheduledOrPlaying { .. }
                || self.spec_clip_state() matches ClipState::Paused { .. },
            after.spec_clip_state() == self.spec_clip_state().after_seek(
                clamp_duration(
                    scaled(self.spec_clip_length(args.timeline_tempo) as int, args.desired_pos as int),
                ) as u64,
            ),
            self.spec_clip_length(args.timeline_tempo) <= i64::MAX,
            args.desired_pos <= MILLION,
        ensures
            after.spec_clip_state().pos_within_clip() == Some(
                scaled(
                    self.spec_clip_length(args.timeline_tempo) as int,
                    args.desired_pos as int,
                ) as i64,
            ),
            args.desired_pos == 500_000 ==> after.spec_clip_state().pos_within_clip() == Some(
                (self.spec_clip_length(args.timeline_tempo) / 2) as i64,
            ),
    {
        let length = self.spec_clip_length(args.timeline_tempo) as int;
        let fraction = args.desired_pos as int;
        assert(0 <= length * fraction <= length * 1_000_000) by (nonlinear_arith)
            requires
                0 <= length,
                0 <= fraction <= 1_000_000,
        ;
        assert(0 <= scaled(length, fraction) <= length);
        if args.desired_pos == 500_000 {
            assert(length * 500_000 / 1_000_000 == length / 2);
        }
    }

    /// Creates a stopped clip that plays once, at its own tempo.
    pub fn new(is_midi: bool, native_clip_length: u64) -> (clip: Self)
        ensures
            clip.spec_is_midi() == is_midi,
            clip.spec_native_clip_length() == native_clip_length,
            clip.spec_repetition() == Repetition::Times(1),
            clip.spec_get_tempo_factor() == MILLION,
            clip.spec_clip_state() == ClipState::Stopped,
    {
        Self {
            is_midi,
            native_clip_length,
            repetition: Repetition::Times(1),
            state: ClipState::Stopped,
            manual_tempo_factor: MILLION,
        }
    }

    /// Returns whether the material is MIDI.
    #[verifier::when_used_as_spec(spec_is_midi)]
    pub fn is_midi(&self) -> (is_midi: bool)
        ensures
            is_midi == self.spec_is_midi(),
    {
        self.is_midi
    }

    /// Returns how often the clip is played.
    #[verifier::when_used_as_spec(spec_repetition)]
    pub fn repetition(&self) -> (repetition: Repetition)
        ensures
            repetition == self.spec_repetition(),
    {
        self.repetition
    }

    /// Returns the tempo factor at which the clip is played at the given timeline tempo.
    pub fn calc_final_tempo_factor(&self, timeline_tempo: u32) -> (factor: u64)
        ensures
            factor == self.final_tempo_factor_at(timeline_tempo),
            factor >= MIN_TEMPO_FACTOR,
    {
        proof {
            lemma_product_fits(self.manual_tempo_factor, timeline_tempo as u64);
        }
        let wide: u128 = (self.manual_tempo_factor as u128) * (timeline_tempo as u128);
        let factor: u64 = duration_from_unsigned(wide / (ORIGINAL_TEMPO as u128));
        if factor < MIN_TEMPO_FACTOR {
            MIN_TEMPO_FACTOR
        } else {
            factor
        }
    }

    fn start_internal(&mut self, timeline_cursor_pos: i64, start_pos: i64, repeated: bool)
        ensures
            final(self).spec_clip_state() == old(self).spec_clip_state().after_start(
                timeline_cursor_pos,
                start_pos,
            ),
            final(self).spec_repetition() == if old(self).spec_clip_state().start_sets_repetition() {
                if repeated {
                    Repetition::Infinitely
                } else {
                    Repetition::Times(1)
                }
            } else {
                old(self).spec_repetition()
            },
            final(self).same_material(old(self)),
    {
        match self.state {
            ClipState::Stopped => self.schedule_start_internal(
                timeline_cursor_pos,
                start_pos,
                repeated,
            ),
            ClipState::ScheduledOrPlaying { stop_instruction, play_info } => {
                if stop_instruction.is_some() {
                    self.state = ClipState::ScheduledOrPlaying { play_info, stop_instruction: None };
                } else {
                    let cursor_info = play_info.cursor_info_at(timeline_cursor_pos);
                    if cursor_info.has_started_already() {
                        self.state = ClipState::Suspending {
                            reason: SuspensionReason::Retrigger,
                            play_info,
                            transition_countdown: start_end_fade_length(),
                        };
                    } else {
                        self.schedule_start_internal(timeline_cursor_pos, start_pos, repeated);
                    }
                }
            },
            ClipState::Suspending { play_info, transition_countdown, .. } => {
                self.repetition = Repetition::from_bool(repeated);
                self.state = ClipState::Suspending {
                    reason: SuspensionReason::PlayWhileSuspending {
                        next_block_pos: position_from(
                            (timeline_cursor_pos as i128) - (start_pos as i128),
                        ),
                    },
                    play_info,
                    transition_countdown,
                };
            },
            ClipState::Paused { next_block_pos } => {
                self.state = ClipState::ScheduledOrPlaying {
                    play_info: PlayInfo { next_block_pos: position_from(next_block_pos as i128) },
                    stop_instruction: None,
                };
            },
        }
    }

    fn schedule_start_internal(&mut self, timeline_cursor_pos: i64, start_pos: i64, repeated: bool)
        ensures
            final(self).spec_clip_state() == ClipState::scheduled(timeline_cursor_pos, start_pos),
            repeated ==> final(self).spec_repetition() == Repetition::Infinitely,
            !repeated ==> final(self).spec_repetition() == Repetition::Times(1),
            final(self).same_material(old(self)),
    {
        self.repetition = Repetition::from_bool(repeated);
        self.state = ClipState::ScheduledOrPlaying {
            play_info: PlayInfo {
                next_block_pos: position_from((timeline_cursor_pos as i128) - (start_pos as i128)),
            },
            stop_instruction: None,
        };
    }

    fn create_cursor_and_length_info_at(
        &self,
        play_info: PlayInfo,
        timeline_cursor_pos: i64,
        timeline_tempo: u32,
    ) -> (info: CursorAndLengthInfo)
        ensures
            info == self.cursor_and_length_info_at(play_info, timeline_cursor_pos, timeline_tempo),
    {
        let cursor_info = play_info.cursor_info_at(timeline_cursor_pos);
        self.create_cursor_and_length_info(cursor_info, timeline_tempo)
    }

    fn create_cursor_and_length_info(&self, cursor_info: CursorInfo, timeline_tempo: u32) -> (info:
        CursorAndLengthInfo)
        ensures
            info == (CursorAndLengthInfo {
                cursor_info,
                clip_length: self.spec_clip_length(timeline_tempo),
                repetition: self.spec_repetition(),
            }),
    {
        CursorAndLengthInfo {
            cursor_info,
            clip_length: self.clip_length(timeline_tempo),
            repetition: self.repetition,
        }
    }

    /// Renders one block unless the timeline stands still: a clip does not play the same
    /// block over and over while the timeline is paused.
    pub fn get_samples(
        &mut self,
        timeline_is_running: bool,
        length: u32,
        sample_rate: u32,
        timeline_tempo: u32,
        timeline_cursor_pos: i64,
    ) -> (command: RenderCommand)
        requires
            sample_rate > 0,
        ensures
            !timeline_is_running ==> (command matches RenderCommand::Idle),
            !timeline_is_running ==> *final(self) == *old(self),
            timeline_is_running ==> old(self).command_is(
                &command,
                length,
                sample_rate,
                timeline_tempo,
                timeline_cursor_pos,
            ) && final(self).spec_clip_state() == old(self).spec_clip_state().after_block(
                old(self).spec_is_midi(),
                old(self).spec_repetition(),
                timeline_cursor_pos,
                old(self).spec_clip_length(timeline_tempo),
                old(self).final_tempo_factor_at(timeline_tempo),
                frames_to_nanos(length as int, sample_rate as int) as u64,
            ) && final(self).same_settings(old(self)),
    {
        if !timeline_is_running {
            return RenderCommand::Idle;
        }
        self.get_samples_internal(length, sample_rate, timeline_tempo, timeline_cursor_pos)
    }

    /// Renders one block of `length` frames at `sample_rate` hertz: advances the transport
    /// state by the block and says what the host has to do for it.
    pub fn get_samples_internal(
        &mut self,
        length: u32,
        sample_rate: u32,
        timeline_tempo: u32,
        timeline_cursor_pos: i64,
    ) -> (command: RenderCommand)
        requires
            sample_rate > 0,
        ensures
            old(self).command_is(
                &command,
                length,
                sample_rate,
                timeline_tempo,
                timeline_cursor_pos,
            ),
            final(self).spec_clip_state() == old(self).spec_clip_state().after_block(
                old(self).spec_is_midi(),
                old(self).spec_repetition(),
                timeline_cursor_pos,
                old(self).spec_clip_length(timeline_tempo),
                old(self).final_tempo_factor_at(timeline_tempo),
                frames_to_nanos(length as int, sample_rate as int) as u64,
            ),
            final(self).same_settings(old(self)),
    {
        let final_tempo_factor = self.calc_final_tempo_factor(timeline_tempo);
        match self.state {
            ClipState::Stopped => RenderCommand::Idle,
            ClipState::Paused { .. } => RenderCommand::Idle,
            ClipState::Suspending { reason, play_info, transition_countdown } => {
                if self.is_midi {
                    let messages = silence_midi();
                    self.state = self.get_suspension_follow_up_state(
                        reason,
                        play_info,
                        timeline_cursor_pos,
                        timeline_tempo,
                    );
                    RenderCommand::SilenceMidi { messages }
                } else {
                    let cursor_and_length_info = self.create_cursor_and_length_info_at(
                        play_info,
                        timeline_cursor_pos,
                        timeline_tempo,
                    );
                    let block_info = BlockInfo::new(
                        length,
                        sample_rate,
                        cursor_and_length_info,
                        final_tempo_factor,
                        Some(transition_countdown),
                    );
                    let query = self.fill_samples(&block_info);
                    self.state = if transition_countdown > block_info.duration() {
                        ClipState::Suspending {
                            reason,
                            play_info,
                            transition_countdown: transition_countdown - block_info.duration(),
                        }
                    } else {
                        self.get_suspension_follow_up_state(
                            reason,
                            play_info,
                            timeline_cursor_pos,
                            timeline_tempo,
                        )
                    };
                    RenderCommand::Fill { info: block_info, query }
                }
            },
            ClipState::ScheduledOrPlaying { play_info, stop_instruction } => {
                let cursor_and_length_info = self.create_cursor_and_length_info_at(
                    play_info,
                    timeline_cursor_pos,
                    timeline_tempo,
                );
                let stop_countdown = cursor_and_length_info.effective_stop_countdown(
                    stop_instruction,
                );
                let block_info = BlockInfo::new(
                    length,
                    sample_rate,
                    cursor_and_length_info,
                    final_tempo_factor,
                    stop_countdown,
                );
                let query = self.fill_samples(&block_info);
                let next_play_info = PlayInfo { next_block_pos: block_info.block_end_pos() };
                self.state = match stop_countdown {
                    Some(countdown) => {
                        if countdown > block_info.duration() {
                            ClipState::ScheduledOrPlaying {
                                play_info: next_play_info,
                                stop_instruction: match stop_instruction {
                                    Some(instruction) => Some(
                                        instruction.count_down_by(block_info.duration()),
                                    ),
                                    None => None,
                                },
                            }
                        } else {
                            ClipState::Stopped
                        }
                    },
                    None => ClipState::ScheduledOrPlaying {
                        play_info: next_play_info,
                        stop_instruction: None,
                    },
                };
                RenderCommand::Fill { info: block_info, query }
            },
        }
    }

    fn get_suspension_follow_up_state(
        &self,
        reason: SuspensionReason,
        play_info: PlayInfo,
        timeline_cursor_pos: i64,
        timeline_tempo: u32,
    ) -> (state: ClipState)
        ensures
            state == ClipState::after_suspension(reason, play_info),
    {
        match reason {
            SuspensionReason::Retrigger => ClipState::ScheduledOrPlaying {
                play_info: PlayInfo { next_block_pos: 0 },
                stop_instruction: None,
            },
            SuspensionReason::Pause => ClipState::Paused {
                next_block_pos: if play_info.next_block_pos < 0 {
                    0
                } else {
                    play_info.next_block_pos as u64
                },
            },
            SuspensionReason::Stop => ClipState::Stopped,
            SuspensionReason::PlayWhileSuspending { next_block_pos } => ClipState::ScheduledOrPlaying {
                play_info: PlayInfo { next_block_pos },
                stop_instruction: None,
            },
        }
    }

    /// Returns the first request to the source for the block, or `None` if the block ends
    /// during count-in: the clip plays as soon as the end of a block reaches its start.
    pub fn fill_samples(&self, info: &BlockInfo) -> (query: Option<SourceQuery>)
        ensures
            query == self.first_query(info),
    {
        if info.block_end_pos() < 0 {
            return None;
        }
        if self.is_midi {
            Some(self.fill_samples_midi(info))
        } else {
            Some(self.fill_samples_audio(info))
        }
    }

    /// Returns the first request to the source for a block of audio.
    pub fn fill_samples_audio(&self, info: &BlockInfo) -> (query: SourceQuery)
        ensures
            query == info.audio_query(),
    {
        info.first_audio_query()
    }

    /// Returns the first request to the source for a block of MIDI. The source is made to
    /// keep the tempo of the material, so that a change of the timeline tempo while the
    /// clip plays is dealt with by the clip alone.
    pub fn fill_samples_midi(&self, info: &BlockInfo) -> (query: SourceQuery)
        ensures
            query == info.midi_query(ORIGINAL_TEMPO),
    {
        info.first_midi_query(ORIGINAL_TEMPO)
    }

    /// Returns what follows the first request for the block, of which the source wrote
    /// `written` frames.
    pub fn continue_fill(&self, info: &BlockInfo, written: u32) -> (follow_up:
        crate::block::FillFollowUp)
        ensures
            self.spec_is_midi() ==> follow_up == info.midi_follow_up(written, ORIGINAL_TEMPO),
            !self.spec_is_midi() ==> follow_up == info.audio_follow_up(written),
    {
        if self.is_midi {
            info.continue_midi(written, ORIGINAL_TEMPO)
        } else {
            info.continue_audio(written)
        }
    }

    /// Returns the state of this clip.
    #[verifier::when_used_as_spec(spec_clip_state)]
    pub fn clip_state(&self) -> (state: ClipState)
        ensures
            state == self.spec_clip_state(),
    {
        self.state
    }

    /// Schedules the clip for playing at `pos`.
    pub fn schedule_start(&mut self, timeline_cursor_pos: i64, pos: i64, repeated: bool)
        ensures
            final(self).spec_clip_state() == old(self).spec_clip_state().after_start(
                timeline_cursor_pos,
                pos,
            ),
            final(self).spec_repetition() == if old(self).spec_clip_state().start_sets_repetition() {
                if repeated {
                    Repetition::Infinitely
                } else {
                    Repetition::Times(1)
                }
            } else {
                old(self).spec_repetition()
            },
            final(self).same_material(old(self)),
    {
        self.start_internal(timeline_cursor_pos, pos, repeated);
    }

    /// Starts the clip at once: schedules it for the position of the cursor.
    pub fn start_immediately(&mut self, timeline_cursor_pos: i64, repeated: bool)
        ensures
            final(self).spec_clip_state() == old(self).spec_clip_state().after_start(
                timeline_cursor_pos,
                timeline_cursor_pos,
            ),
            final(self).spec_repetition() == if old(self).spec_clip_state().start_sets_repetition() {
                if repeated {
                    Repetition::Infinitely
                } else {
                    Repetition::Times(1)
                }
            } else {
                old(self).spec_repetition()
            },
            final(self).same_material(old(self)),
    {
        self.start_internal(timeline_cursor_pos, timeline_cursor_pos, repeated);
    }

    /// Pauses the clip.
    pub fn pause(&mut self, timeline_cursor_pos: i64)
        ensures
            final(self).spec_clip_state() == old(self).spec_clip_state().after_pause(),
            final(self).same_settings(old(self)),
    {
        match self.state {
            ClipState::Stopped => {},
            ClipState::Paused { .. } => {},
            ClipState::ScheduledOrPlaying { play_info, .. } => {
                let info = play_info.cursor_info_at(timeline_cursor_pos);
                if info.has_started_already() {
                    self.state = ClipState::Suspending {
                        reason: SuspensionReason::Pause,
                        play_info,
                        transition_countdown: start_end_fade_length(),
                    };
                }
            },
            ClipState::Suspending { play_info, transition_countdown, .. } => {
                self.state = ClipState::Suspending {
                    reason: SuspensionReason::Pause,
                    play_info,
                    transition_countdown,
                };
            },
        }
    }

    /// Schedules the clip for stop.
    pub fn schedule_stop(&mut self, args: ScheduleStopArgs)
        ensures
            final(self).spec_clip_state() == old(self).spec_clip_state().after_schedule_stop(
                args.timeline_cursor_pos,
                old(self).spec_clip_length(args.timeline_tempo),
                old(self).spec_repetition(),
                args.pos,
            ),
            final(self).same_settings(old(self)),
    {
        match self.state {
            ClipState::Stopped => {},
            ClipState::ScheduledOrPlaying { stop_instruction, play_info } => {
                if stop_instruction.is_some() {
                    return ;
                }
                let info = play_info.cursor_info_at(args.timeline_cursor_pos);
                self.state = if info.has_started_already() {
                    let info = self.create_cursor_and_length_info(info, args.timeline_tempo);
                    match info.determine_stop_instruction(args.pos) {
                        Some(next_stop_instruction) => ClipState::ScheduledOrPlaying {
                            play_info,
                            stop_instruction: Some(next_stop_instruction),
                        },
                        None => ClipState::Stopped,
                    }
                } else {
                    ClipState::Stopped
                };
            },
            ClipState::Paused { .. } => {
                self.state = ClipState::Stopped;
            },
            ClipState::Suspending { .. } => {},
        }
    }

    /// Stops the clip at once.
    pub fn stop_immediately(&mut self, timeline_cursor_pos: i64)
        ensures
            final(self).spec_clip_state() == old(self).spec_clip_state().after_stop_immediately(),
            final(self).same_settings(old(self)),
    {
        match self.state {
            ClipState::Stopped => {},
            ClipState::ScheduledOrPlaying { stop_instruction, play_info } => {
                if stop_instruction.is_some() {
                    self.state = ClipState::Suspending {
                        reason: SuspensionReason::Stop,
                        play_info,
                        transition_countdown: start_end_fade_length(),
                    };
                } else {
                    let info = play_info.cursor_info_at(timeline_cursor_pos);
                    self.state = if info.has_started_already() {
                        ClipState::Suspending {
                            reason: SuspensionReason::Stop,
                            play_info,
                            transition_countdown: start_end_fade_length(),
                        }
                    } else {
                        ClipState::Stopped
                    };
                }
            },
            ClipState::Suspending { play_info, transition_countdown, .. } => {
                self.state = ClipState::Suspending {
                    reason: SuspensionReason::Stop,
                    play_info,
                    transition_countdown,
                };
            },
            ClipState::Paused { .. } => {
                self.state = ClipState::Stopped;
            },
        }
    }

    /// Seeks to the given proportion of the clip.
    pub fn seek_to(&mut self, args: SeekToArgs)
        ensures
            final(self).spec_clip_state() == old(self).spec_clip_state().after_seek(
                clamp_duration(
                    scaled(
                        old(self).spec_clip_length(args.timeline_tempo) as int,
                        args.desired_pos as int,
                    ),
                ) as u64,
            ),
            final(self).same_settings(old(self)),
    {
        let length = self.clip_length(args.timeline_tempo);
        let desired_pos_in_secs = scale_duration(length, args.desired_pos as u64);
        match self.state {
            ClipState::Stopped => {},
            ClipState::Suspending { .. } => {},
            ClipState::ScheduledOrPlaying { stop_instruction, .. } => {
                self.state = ClipState::ScheduledOrPlaying {
                    play_info: PlayInfo {
                        next_block_pos: position_from(desired_pos_in_secs as i128),
                    },
                    stop_instruction,
                };
            },
            ClipState::Paused { .. } => {
                self.state = ClipState::Paused { next_block_pos: desired_pos_in_secs };
            },
        }
    }

    /// Returns the length of the clip at the given timeline tempo.
    #[verifier::when_used_as_spec(spec_clip_length)]
    pub fn clip_length(&self, timeline_tempo: u32) -> (length: u64)
        ensures
            length == self.spec_clip_length(timeline_tempo),
    {
        let final_tempo_factor = self.calc_final_tempo_factor(timeline_tempo);
        unscale_duration(self.native_clip_length(), final_tempo_factor)
    }

    /// Returns the length of the clip at its own tempo.
    #[verifier::when_used_as_spec(spec_native_clip_length)]
    pub fn native_clip_length(&self) -> (length: u64)
        ensures
            length == self.spec_native_clip_length(),
    {
        self.native_clip_length
    }

    /// Sets the manual tempo factor, in millionths. It is raised to the minimum if need be.
    pub fn set_tempo_factor(&mut self, tempo_factor: u64)
        ensures
            final(self).spec_get_tempo_factor() == if tempo_factor < MIN_TEMPO_FACTOR {
                MIN_TEMPO_FACTOR
            } else {
                tempo_factor
            },
            final(self).spec_clip_state() == old(self).spec_clip_state(),
            final(self).spec_repetition() == old(self).spec_repetition(),
            final(self).spec_is_midi() == old(self).spec_is_midi(),
            final(self).spec_native_clip_length() == old(self).spec_native_clip_length(),
    {
        self.manual_tempo_factor = if tempo_factor < MIN_TEMPO_FACTOR {
            MIN_TEMPO_FACTOR
        } else {
            tempo_factor
        };
    }

    /// Returns the manual tempo factor, in millionths.
    #[verifier::when_used_as_spec(spec_get_tempo_factor)]
    pub fn get_tempo_factor(&self) -> (tempo_factor: u64)
        ensures
            tempo_factor == self.spec_get_tempo_factor(),
    {
        self.manual_tempo_factor
    }

    /// Changes whether the clip repeats. A clip that is told not to repeat while it plays
    /// is not cut off: it finishes the cycle that it is in.
    pub fn set_repeated(&mut self, args: SetRepeatedArgs)
        ensures
            args.repeated ==> final(self).spec_repetition() == Repetition::Infinitely,
            !args.repeated ==> final(self).spec_repetition() == Repetition::Times(
                old(self).times_when_unrepeated(args.timeline_cursor_pos, args.timeline_tempo),
            ),
            final(self).spec_clip_state() == old(self).spec_clip_state(),
            final(self).same_material(old(self)),
    {
        self.repetition = if args.repeated {
            Repetition::Infinitely
        } else {
            let times: u32 = match self.state.play_info() {
                Some(play_info) => {
                    let current_cycle_index = self.create_cursor_and_length_info_at(
                        play_info,
                        args.timeline_cursor_pos,
                        args.timeline_tempo,
                    ).current_hypothetical_cycle_index();
                    if current_cycle_index == u32::MAX {
                        u32::MAX
                    } else {
                        current_cycle_index + 1
                    }
                },
                None => 1,
            };
            Repetition::Times(times)
        };
    }

    /// Returns the position within the clip: negative while the clip counts in, `None` if
    /// it is stopped.
    pub fn pos_within_clip(&self, args: PosWithinClipArgs) -> (pos: Option<i64>)
        ensures
            pos == self.spec_clip_state().pos_within_clip(),
    {
        match self.state {
            ClipState::Stopped => None,
            ClipState::ScheduledOrPlaying { play_info, .. } => Some(play_info.next_block_pos),
            ClipState::Suspending { play_info, .. } => Some(play_info.next_block_pos),
            ClipState::Paused { next_block_pos } => Some(position_from(next_block_pos as i128)),
        }
    }

    /// Returns the position within the clip as a proportion of its length, in millionths.
    pub fn proportional_pos_within_clip(&self, args: PosWithinClipArgs) -> (pos: Option<u32>)
        ensures
            pos == proportional_position(
                self.spec_clip_state().pos_within_clip(),
                self.spec_clip_length(args.timeline_tempo),
            ),
    {
        let pos_within_clip = self.pos_within_clip(args);
        let length = self.clip_length(args.timeline_tempo);
        calculate_proportional_position(pos_within_clip, length)
    }
}

/// Returns the length of the fade-in at the start and of the fade-out at the end of a clip.
pub fn start_end_fade_length() -> (length: u64)
    ensures
        length == FADE_LENGTH,
{
    FADE_LENGTH
}

/// Returns the length of the fades at a loop boundary.
pub fn repetition_fade_length() -> (length: u64)
    ensures
        length == FADE_LENGTH,
{
    FADE_LENGTH
}

/// Returns `position` as a proportion of `length`, in millionths.
pub fn calculate_proportional_position(position: Option<i64>, length: u64) -> (proportion: Option<
    u32,
>)
    ensures
        proportion == proportional_position(position, length),
{
    if length == 0 {
        return Some(0);
    }
    match position {
        None => None,
        Some(p) => {
            if p < 0 {
                Some(0)
            } else {
                proof {
                    lemma_product_fits(p as u64, MILLION);
                }
                let wide: u128 = (p as u128) * (MILLION as u128) / (length as u128);
                if wide > MILLION as u128 {
                    Some(MILLION as u32)
                } else {
                    Some(wide as u32)
                }
            }
        },
    }
}

} // verus!
