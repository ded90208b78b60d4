//! What is known of one block before it is rendered, and the queries that fill it.

use vstd::prelude::*;
use crate::fade::FadeCalculator;
use crate::state::CursorAndLengthInfo;
use crate::time::clamp_frames;
use crate::time::clamp_position;
use crate::time::clamp_duration;
use crate::time::duration_of_frames;
use crate::time::frame_at;
use crate::time::frame_of_position;
use crate::time::frames_in_duration;
use crate::time::frames_of_duration;
use crate::time::frames_to_nanos;
use crate::time::nanos_to_frames;
use crate::time::position_from;
use crate::time::scale_wide;
use crate::time::scaled;
use crate::time::wrap_position;
use crate::time::wrapped;
use crate::time::NANOS_PER_SECOND;

verus! {

/// The position at which a block ends that starts at `start`, lasts `duration` and is played
/// at the tempo factor `factor`: still negative during count-in, otherwise wrapped into the
/// clip.
pub open spec fn end_pos_of(start: int, duration: int, factor: int, clip_length: int) -> int {
    let p = start + scaled(duration, factor);
    if p < 0 {
        p
    } else {
        clamp_position(wrapped(p, clip_length))
    }
}

/// The rate at which the source is read when a block of rate `sample_rate` hertz is played
/// at the tempo factor `factor`, in millihertz.
pub open spec fn inner_rate_of(sample_rate: int, factor: int) -> int {
    sample_rate * (NANOS_PER_SECOND as int) / factor
}

/// One request to the source that holds the material of the clip.
#[derive(Copy, Clone, Debug, PartialEq, Eq, Structural)]
pub struct SourceQuery {
    /// The position in the source at which the request starts, in nanoseconds.
    pub time: i64,
    /// The rate at which the source is read, in millihertz.
    pub sample_rate: u64,
    /// The number of frames at the start of the block that the request leaves untouched.
    pub frame_offset: u32,
    /// The number of frames that the request asks for.
    pub frame_count: u32,
    /// The tempo that the source is made to keep, in thousandths of a beat per minute.
    pub forced_tempo: Option<u32>,
}

/// What is left to do after the source has answered the first request of a block.
#[derive(Copy, Clone, Debug, PartialEq, Eq, Structural)]
pub enum FillFollowUp {
    /// The source has filled the block.
    Done,
    /// The clip ends within this block: the block is reported as filled.
    ReportFilled,
    /// The clip repeats within this block: the source is asked again, and after that the
    /// block is reported as filled if `report_filled` is set.
    QueryAgain { query: SourceQuery, report_filled: bool },
}

/// What is known of a block before it is rendered.
#[derive(Copy, Clone, Debug)]
pub struct BlockInfo {
    length: u32,
    sample_rate: u32,
    duration: u64,
    block_end_pos: i64,
    cursor_and_lenght_info: CursorAndLengthInfo,
    final_tempo_factor: u64,
    stop_countdown: Option<u64>,
}

impl BlockInfo {
    #[verifier::type_invariant]
    spec fn inv(self) -> bool {
        &&& self.sample_rate > 0
        &&& self.final_tempo_factor > 0
        &&& self.duration as int == frames_to_nanos(self.length as int, self.sample_rate as int)
        &&& self.block_end_pos as int == end_pos_of(
            self.cursor_and_lenght_info.next_block_pos(),
            self.duration as int,
            self.final_tempo_factor as int,
            self.cursor_and_lenght_info.clip_length as int,
        )
    }

    /// The number of frames of the block.
    pub closed spec fn spec_length(&self) -> u32 {
        self.length
    }

    /// The sample rate of the block, in hertz.
    pub closed spec fn spec_sample_rate(&self) -> u32 {
        self.sample_rate
    }

    /// The time that the block takes on the timeline.
    pub closed spec fn spec_duration(&self) -> u64 {
        self.duration
    }

    /// The position at which the block starts: negative during count-in, otherwise a
    /// position within the clip.
    pub closed spec fn spec_block_start_pos(&self) -> i64 {
        self.cursor_and_lenght_info.cursor_info.play_info.next_block_pos
    }

    /// The position at which the block ends.
    pub closed spec fn spec_block_end_pos(&self) -> i64 {
        self.block_end_pos
    }

    /// What the block was derived from.
    pub closed spec fn spec_cursor_and_lenght_info(&self) -> CursorAndLengthInfo {
        self.cursor_and_lenght_info
    }

    /// The time until the clip stops, if a stop is due.
    pub closed spec fn spec_stop_countdown(&self) -> Option<u64> {
        self.stop_countdown
    }

    /// The tempo factor at which the block is played, in millionths.
    pub closed spec fn spec_final_tempo_factor(&self) -> u64 {
        self.final_tempo_factor
    }

    /// The block is the last one of the clip: the clip stops within it.
    pub open spec fn spec_is_last_block(&self) -> bool {
        match self.spec_stop_countdown() {
            Some(countdown) => countdown <= self.spec_duration(),
            None => false,
        }
    }

    /// The block reaches the part that is played: it does not end during count-in.
    pub open spec fn reaches_start(&self) -> bool {
        self.spec_block_end_pos() >= 0
    }

    /// The first request for a block of audio: the source is read from the block's start
    /// position, or, where the block starts during count-in, from its beginning, and the
    /// frames of the count-in are left untouched.
    pub open spec fn audio_query(&self) -> SourceQuery {
        let rate = inner_rate_of(
            self.spec_sample_rate() as int,
            self.spec_final_tempo_factor() as int,
        ) as u64;
        if self.spec_block_start_pos() < 0 {
            let count_in = clamp_frames(
                nanos_to_frames(-self.spec_block_start_pos(), self.spec_sample_rate() as int),
            );
            let offset = if count_in > self.spec_length() {
                self.spec_length()
            } else {
                count_in as u32
            };
            SourceQuery {
                time: 0,
                sample_rate: rate,
                frame_offset: offset,
                frame_count: (self.spec_length() - offset) as u32,
                forced_tempo: None,
            }
        } else {
            SourceQuery {
                time: self.spec_block_start_pos(),
                sample_rate: rate,
                frame_offset: 0,
                frame_count: self.spec_length(),
                forced_tempo: None,
            }
        }
    }

    /// What follows the first request for a block of audio of which the source wrote
    /// `written` frames: nothing if the block is full; at the end of the clip the block is
    /// reported as filled; otherwise the clip repeats, and the rest of the block is read
    /// from the beginning of the source.
    pub open spec fn audio_follow_up(&self, written: u32) -> FillFollowUp {
        if written >= self.spec_length() {
            FillFollowUp::Done
        } else if self.spec_is_last_block() {
            FillFollowUp::ReportFilled
        } else {
            FillFollowUp::QueryAgain {
                query: SourceQuery {
                    time: 0,
                    sample_rate: inner_rate_of(
                        self.spec_sample_rate() as int,
                        self.spec_final_tempo_factor() as int,
                    ) as u64,
                    frame_offset: written,
                    frame_count: (self.spec_length() - written) as u32,
                    forced_tempo: None,
                },
                report_filled: true,
            }
        }
    }

    /// The first request for a block of MIDI: the source is read from the block's start
    /// position, which may be negative, at the tempo `forced_tempo`.
    pub open spec fn midi_query(&self, forced_tempo: u32) -> SourceQuery {
        SourceQuery {
            time: self.spec_block_start_pos(),
            sample_rate: inner_rate_of(
                self.spec_sample_rate() as int,
                self.spec_final_tempo_factor() as int,
            ) as u64,
            frame_offset: 0,
            frame_count: self.spec_length(),
            forced_tempo: Some(forced_tempo),
        }
    }

    /// The position from which a repeating block of MIDI is read again: as far before the
    /// start of the source as the frames that are already written reach into the block.
    pub open spec fn midi_repeat_pos(&self, written: u32) -> int {
        clamp_position(
            -scaled(
                frames_to_nanos(written as int, self.spec_sample_rate() as int),
                self.spec_final_tempo_factor() as int,
            ),
        )
    }

    /// What follows the first request for a block of MIDI of which the source wrote
    /// `written` frames.
    pub open spec fn midi_follow_up(&self, written: u32, forced_tempo: u32) -> FillFollowUp {
        if written >= self.spec_length() {
            FillFollowUp::Done
        } else if self.spec_is_last_block() {
            FillFollowUp::ReportFilled
        } else {
            FillFollowUp::QueryAgain {
                query: SourceQuery {
                    time: self.midi_repeat_pos(written) as i64,
                    sample_rate: inner_rate_of(
                        self.spec_sample_rate() as int,
                        self.spec_final_tempo_factor() as int,
                    ) as u64,
                    frame_offset: 0,
                    frame_count: self.spec_length(),
                    forced_tempo: Some(forced_tempo),
                },
                report_filled: false,
            }
        }
    }

    /// The frame of the block's start position, counted from the start of the clip.
    pub open spec fn first_frame(&self) -> int {
        clamp_position(frame_at(self.spec_block_start_pos() as int, self.spec_sample_rate() as int))
    }

    /// The fade calculator for the frames of the block, all counted in frames at the sample
    /// rate of the block. Position zero is the start of the clip. Playing ends where the
    /// stop is due, if one is due. The fades at the start, at the end and at the loop
    /// boundaries all have the length `fade_length`.
    pub open spec fn fade_calculator_for(&self, fade_length: u64) -> FadeCalculator {
        FadeCalculator {
            end_pos: match self.spec_stop_countdown() {
                Some(countdown) => clamp_duration(
                    self.first_frame() + nanos_to_frames(
                        countdown as int,
                        self.spec_sample_rate() as int,
                    ),
                ) as u64,
                None => u64::MAX,
            },
            clip_length: clamp_duration(
                nanos_to_frames(
                    self.spec_cursor_and_lenght_info().clip_length as int,
                    self.spec_sample_rate() as int,
                ),
            ) as u64,
            clip_cursor_offset: 0,
            start_end_fade_length: clamp_duration(
                nanos_to_frames(fade_length as int, self.spec_sample_rate() as int),
            ) as u64,
            intermediate_fade_length: clamp_duration(
                nanos_to_frames(fade_length as int, self.spec_sample_rate() as int),
            ) as u64,
        }
    }

    /// Derives what is known of a block of `length` frames at `sample_rate` hertz that
    /// starts at the next block position of `cursor_and_length_info`.
    pub fn new(
        length: u32,
        sample_rate: u32,
        cursor_and_length_info: CursorAndLengthInfo,
        final_tempo_factor: u64,
        stop_countdown: Option<u64>,
    ) -> (info: Self)
        requires
            sample_rate > 0,
            final_tempo_factor > 0,
        ensures
            info.spec_length() == length,
            info.spec_sample_rate() == sample_rate,
            info.spec_duration() as int == frames_to_nanos(length as int, sample_rate as int),
            info.spec_block_start_pos() == cursor_and_length_info.next_block_pos(),
            info.spec_block_end_pos() as int == end_pos_of(
                cursor_and_length_info.next_block_pos(),
                frames_to_nanos(length as int, sample_rate as int),
                final_tempo_factor as int,
                cursor_and_length_info.clip_length as int,
            ),
            info.spec_cursor_and_lenght_info() == cursor_and_length_info,
            info.spec_final_tempo_factor() == final_tempo_factor,
            info.spec_stop_countdown() == stop_countdown,
    {
        let duration = duration_of_frames(length, sample_rate);
        let block_start_pos: i64 = cursor_and_length_info.cursor_info.play_info.next_block_pos;
        let advance: u128 = scale_wide(duration, final_tempo_factor);
        let p: i128 = (block_start_pos as i128) + (advance as i128);
        let block_end_pos: i64 = if p < 0 {
            p as i64
        } else {
            wrap_position(p as u128, cursor_and_length_info.clip_length)
        };
        Self {
            length,
            sample_rate,
            duration,
            block_end_pos,
            cursor_and_lenght_info: cursor_and_length_info,
            final_tempo_factor,
            stop_countdown,
        }
    }

    /// Returns the time that the block takes on the timeline.
    #[verifier::when_used_as_spec(spec_duration)]
    pub fn duration(&self) -> (duration: u64)
        ensures
            duration == self.spec_duration(),
            duration as int == frames_to_nanos(
                self.spec_length() as int,
                self.spec_sample_rate() as int,
            ),
    {
        proof {
            use_type_invariant(self);
        }
        self.duration
    }

    /// Returns the number of frames of the block.
    #[verifier::when_used_as_spec(spec_length)]
    pub fn length(&self) -> (length: u32)
        ensures
            length == self.spec_length(),
    {
        self.length
    }

    /// Returns the sample rate of the block, in hertz.
    #[verifier::when_used_as_spec(spec_sample_rate)]
    pub fn sample_rate(&self) -> (sample_rate: u32)
        ensures
            sample_rate == self.spec_sample_rate(),
            sample_rate > 0,
    {
        proof {
            use_type_invariant(self);
        }
        self.sample_rate
    }

    /// Returns the position at which the block starts.
    #[verifier::when_used_as_spec(spec_block_start_pos)]
    pub fn block_start_pos(&self) -> (pos: i64)
        ensures
            pos == self.spec_block_start_pos(),
    {
        self.cursor_and_lenght_info.cursor_info.play_info.next_block_pos
    }

    /// Returns the position at which the block ends.
    #[verifier::when_used_as_spec(spec_block_end_pos)]
    pub fn block_end_pos(&self) -> (pos: i64)
        ensures
            pos == self.spec_block_end_pos(),
            pos as int == end_pos_of(
                self.spec_block_start_pos() as int,
                self.spec_duration() as int,
                self.spec_final_tempo_factor() as int,
                self.spec_cursor_and_lenght_info().clip_length as int,
            ),
    {
        proof {
            use_type_invariant(self);
        }
        self.block_end_pos
    }

    /// Returns what the block was derived from.
    #[verifier::when_used_as_spec(spec_cursor_and_lenght_info)]
    pub fn cursor_and_lenght_info(&self) -> (info: CursorAndLengthInfo)
        ensures
            info == self.spec_cursor_and_lenght_info(),
    {
        self.cursor_and_lenght_info
    }

    /// Returns the time until the clip stops, if a stop is due.
    #[verifier::when_used_as_spec(spec_stop_countdown)]
    pub fn stop_countdown(&self) -> (countdown: Option<u64>)
        ensures
            countdown == self.spec_stop_countdown(),
    {
        self.stop_countdown
    }

    /// Returns the tempo factor at which the block is played, in millionths.
    #[verifier::when_used_as_spec(spec_final_tempo_factor)]
    pub fn final_tempo_factor(&self) -> (factor: u64)
        ensures
            factor == self.spec_final_tempo_factor(),
            factor > 0,
    {
        proof {
            use_type_invariant(self);
        }
        self.final_tempo_factor
    }

    /// Returns whether the clip stops within the block.
    #[verifier::when_used_as_spec(spec_is_last_block)]
    pub fn is_last_block(&self) -> (last: bool)
        ensures
            last == self.spec_is_last_block(),
    {
        match self.stop_countdown {
            Some(countdown) => countdown <= self.duration,
            None => false,
        }
    }

    /// Returns the rate at which the source is read for this block, in millihertz.
    pub fn inner_sample_rate(&self) -> (rate: u64)
        ensures
            rate as int == inner_rate_of(
                self.spec_sample_rate() as int,
                self.spec_final_tempo_factor() as int,
            ),
    {
        proof {
            use_type_invariant(self);
            assert((self.sample_rate as int) * (NANOS_PER_SECOND as int) <= 0xFFFF_FFFF
                * 1_000_000_000) by (nonlinear_arith)
                requires
                    0 <= self.sample_rate <= 0xFFFF_FFFF,
                    NANOS_PER_SECOND == 1_000_000_000,
            ;
            vstd::arithmetic::div_mod::lemma_div_nonincreasing(
                (self.sample_rate as int) * (NANOS_PER_SECOND as int),
                self.final_tempo_factor as int,
            );
            vstd::arithmetic::div_mod::lemma_div_pos_is_pos(
                (self.sample_rate as int) * (NANOS_PER_SECOND as int),
                self.final_tempo_factor as int,
            );
        }
        (self.sample_rate as u64) * NANOS_PER_SECOND / self.final_tempo_factor
    }

    /// Returns the frame of the block's start position, counted from the start of the clip.
    /// The frame `i` of the block has the position `first_frame + i`.
    pub fn first_frame_pos(&self) -> (frame: i64)
        ensures
            frame as int == self.first_frame(),
    {
        frame_of_position(self.block_start_pos(), self.sample_rate)
    }

    /// Returns the fade calculator for the frames of the block, with fades of the length
    /// `fade_length`.
    pub fn fade_calculator(&self, fade_length: u64) -> (calculator: FadeCalculator)
        ensures
            calculator == self.fade_calculator_for(fade_length),
    {
        let first_frame = self.first_frame_pos();
        let fade_frames = frames_of_duration(fade_length, self.sample_rate);
        FadeCalculator {
            end_pos: match self.stop_countdown {
                Some(countdown) => {
                    proof {
                        crate::time::lemma_product_fits(countdown, self.sample_rate as u64);
                        assert((countdown as int) * (self.sample_rate as int)
                            <= 0xFFFF_FFFF_FFFF_FFFF * 0xFFFF_FFFF) by (nonlinear_arith)
                            requires
                                0 <= countdown <= 0xFFFF_FFFF_FFFF_FFFF,
                                0 <= self.sample_rate <= 0xFFFF_FFFF,
                        ;
                    }
                    let frames: u128 = (countdown as u128) * (self.sample_rate as u128) / (
                    NANOS_PER_SECOND as u128);
                    crate::time::duration_from((first_frame as i128) + (frames as i128))
                },
                None => u64::MAX,
            },
            clip_length: frames_of_duration(
                self.cursor_and_lenght_info.clip_length,
                self.sample_rate,
            ),
            clip_cursor_offset: 0,
            start_end_fade_length: fade_frames,
            intermediate_fade_length: fade_frames,
        }
    }

    /// Returns the first request for a block of audio.
    pub fn first_audio_query(&self) -> (query: SourceQuery)
        ensures
            query == self.audio_query(),
            query.frame_offset + query.frame_count == self.spec_length(),
    {
        let rate = self.inner_sample_rate();
        let start: i64 = self.block_start_pos();
        if start < 0 {
            let count_in: u64 = if start == i64::MIN {
                0x8000_0000_0000_0000u64
            } else {
                (-start) as u64
            };
            let frames: i32 = frames_in_duration(count_in, self.sample_rate);
            let offset: u32 = if frames as u32 > self.length {
                self.length
            } else {
                frames as u32
            };
            SourceQuery {
                time: 0,
                sample_rate: rate,
                frame_offset: offset,
                frame_count: self.length - offset,
                forced_tempo: None,
            }
        } else {
            SourceQuery {
                time: start,
                sample_rate: rate,
                frame_offset: 0,
                frame_count: self.length,
                forced_tempo: None,
            }
        }
    }

    /// Returns what follows the first request for a block of audio of which the source
    /// wrote `written` frames.
    pub fn continue_audio(&self, written: u32) -> (follow_up: FillFollowUp)
        ensures
            follow_up == self.audio_follow_up(written),
    {
        if written >= self.length {
            FillFollowUp::Done
        } else if self.is_last_block() {
            FillFollowUp::ReportFilled
        } else {
            FillFollowUp::QueryAgain {
                query: SourceQuery {
                    time: 0,
                    sample_rate: self.inner_sample_rate(),
                    frame_offset: written,
                    frame_count: self.length - written,
                    forced_tempo: None,
                },
                report_filled: true,
            }
        }
    }

    /// Returns the first request for a block of MIDI.
    pub fn first_midi_query(&self, forced_tempo: u32) -> (query: SourceQuery)
        ensures
            query == self.midi_query(forced_tempo),
    {
        SourceQuery {
            time: self.block_start_pos(),
            sample_rate: self.inner_sample_rate(),
            frame_offset: 0,
            frame_count: self.length,
            forced_tempo: Some(forced_tempo),
        }
    }

    /// Returns what follows the first request for a block of MIDI of which the source
    /// wrote `written` frames.
    pub fn continue_midi(&self, written: u32, forced_tempo: u32) -> (follow_up: FillFollowUp)
        ensures
            follow_up == self.midi_follow_up(written, forced_tempo),
    {
        if written >= self.length {
            FillFollowUp::Done
        } else if self.is_last_block() {
            FillFollowUp::ReportFilled
        } else {
            proof {
                use_type_invariant(self);
            }
            let written_duration: u64 = duration_of_frames(written, self.sample_rate);
            let advance: u128 = scale_wide(written_duration, self.final_tempo_factor);
            let negative_pos: i64 = position_from(-(advance as i128));
            FillFollowUp::QueryAgain {
                query: SourceQuery {
                    time: negative_pos,
                    sample_rate: self.inner_sample_rate(),
                    frame_offset: 0,
                    frame_count: self.length,
                    forced_tempo: Some(forced_tempo),
                },
                report_filled: false,
            }
        }
    }
}

} // verus!
