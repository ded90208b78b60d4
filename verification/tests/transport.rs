use clip_engine::clip_source::ClipPcmSource;
use clip_engine::clip_source::PosWithinClipArgs;
use clip_engine::clip_source::ScheduleStopArgs;
use clip_engine::clip_source::SeekToArgs;
use clip_engine::clip_source::SetRepeatedArgs;
use clip_engine::clip_source::RenderCommand;
use clip_engine::clip_source::calculate_proportional_position;
use clip_engine::clip_source::repetition_fade_length;
use clip_engine::clip_source::start_end_fade_length;
use clip_engine::clip_source::MIN_TEMPO_FACTOR;
use clip_engine::clip_source::ORIGINAL_TEMPO;
use clip_engine::state::ClipState;
use clip_engine::state::ClipStopPosition;
use clip_engine::state::PlayInfo;
use clip_engine::state::Repetition;
use clip_engine::state::StopInstruction;
use clip_engine::state::SuspensionReason;
use clip_engine::transport::FADE_LENGTH;

const SECOND: i64 = 1_000_000_000;
const CLIP_LENGTH: u64 = 4_000_000_000;

fn playing(pos: i64) -> ClipState {
    ClipState::ScheduledOrPlaying {
        play_info: PlayInfo { next_block_pos: pos },
        stop_instruction: None,
    }
}

fn audio_clip() -> ClipPcmSource {
    ClipPcmSource::new(false, CLIP_LENGTH)
}

fn playing_clip() -> ClipPcmSource {
    let mut clip = audio_clip();
    clip.start_immediately(10 * SECOND, true);
    clip
}

#[test]
fn new_clip_is_stopped_and_plays_once() {
    let clip = audio_clip();
    assert_eq!(clip.clip_state(), ClipState::Stopped);
    assert_eq!(clip.repetition(), Repetition::Times(1));
    assert_eq!(clip.get_tempo_factor(), 1_000_000);
    assert_eq!(clip.native_clip_length(), CLIP_LENGTH);
    assert!(!clip.is_midi());
}

#[test]
fn schedule_start_on_stopped_clip() {
    let mut clip = audio_clip();
    clip.schedule_start(10 * SECOND, 12 * SECOND, false);
    assert_eq!(clip.clip_state(), playing(-2 * SECOND));
    assert_eq!(clip.repetition(), Repetition::Times(1));
}

#[test]
fn schedule_start_at_cursor_starts_at_zero() {
    let mut clip = audio_clip();
    clip.schedule_start(10 * SECOND, 10 * SECOND, true);
    assert_eq!(clip.clip_state(), playing(0));
    assert_eq!(clip.repetition(), Repetition::Infinitely);
}

#[test]
fn schedule_start_saturates_at_the_ends_of_the_range() {
    let mut clip = audio_clip();
    clip.schedule_start(i64::MAX, i64::MIN, false);
    assert_eq!(clip.clip_state(), playing(i64::MAX));
    let mut clip = audio_clip();
    clip.schedule_start(i64::MIN, i64::MAX, false);
    assert_eq!(clip.clip_state(), playing(i64::MIN));
}

#[test]
fn start_immediately_has_no_count_in() {
    let mut clip = audio_clip();
    clip.start_immediately(77 * SECOND, false);
    assert_eq!(clip.clip_state(), playing(0));
}

#[test]
fn start_during_count_in_reschedules() {
    let mut clip = audio_clip();
    clip.schedule_start(10 * SECOND, 12 * SECOND, false);
    clip.schedule_start(11 * SECOND, 14 * SECOND, true);
    assert_eq!(clip.clip_state(), playing(-3 * SECOND));
    assert_eq!(clip.repetition(), Repetition::Infinitely);
}

#[test]
fn start_while_playing_retriggers_after_fade_out() {
    let mut clip = playing_clip();
    clip.schedule_start(11 * SECOND, 12 * SECOND, false);
    assert_eq!(
        clip.clip_state(),
        ClipState::Suspending {
            reason: SuspensionReason::Retrigger,
            play_info: PlayInfo { next_block_pos: 0 },
            transition_countdown: 10_000_000,
        }
    );
    // A retrigger does not touch the repetition.
    assert_eq!(clip.repetition(), Repetition::Infinitely);
    // 480 frames at 48 kHz are 10 ms: the fade-out is over after this block.
    let _ = clip.get_samples_internal(480, 48_000, ORIGINAL_TEMPO, 11 * SECOND);
    assert_eq!(clip.clip_state(), playing(0));
}

#[test]
fn start_while_scheduled_for_stop_backpedals() {
    let mut clip = playing_clip();
    clip.schedule_stop(ScheduleStopArgs {
        timeline_cursor_pos: 10 * SECOND,
        timeline_tempo: ORIGINAL_TEMPO,
        pos: ClipStopPosition::At(13 * SECOND),
    });
    assert_eq!(
        clip.clip_state(),
        ClipState::ScheduledOrPlaying {
            play_info: PlayInfo { next_block_pos: 0 },
            stop_instruction: Some(StopInstruction::In(3_000_000_000)),
        }
    );
    clip.schedule_start(10 * SECOND, 20 * SECOND, false);
    assert_eq!(clip.clip_state(), playing(0));
    assert_eq!(clip.repetition(), Repetition::Infinitely);
}

#[test]
fn start_while_suspending_is_remembered() {
    let mut clip = playing_clip();
    clip.stop_immediately(10 * SECOND);
    clip.schedule_start(10 * SECOND, 11 * SECOND, false);
    assert_eq!(
        clip.clip_state(),
        ClipState::Suspending {
            reason: SuspensionReason::PlayWhileSuspending { next_block_pos: -SECOND },
            play_info: PlayInfo { next_block_pos: 0 },
            transition_countdown: FADE_LENGTH,
        }
    );
    assert_eq!(clip.repetition(), Repetition::Times(1));
    let _ = clip.get_samples_internal(480, 48_000, ORIGINAL_TEMPO, 10 * SECOND);
    assert_eq!(clip.clip_state(), playing(-SECOND));
}

#[test]
fn start_while_paused_resumes_at_once() {
    let mut clip = playing_clip();
    let _ = clip.get_samples_internal(48_000, 48_000, ORIGINAL_TEMPO, 10 * SECOND);
    clip.pause(11 * SECOND);
    let _ = clip.get_samples_internal(480, 48_000, ORIGINAL_TEMPO, 11 * SECOND);
    assert_eq!(clip.clip_state(), ClipState::Paused { next_block_pos: 1_000_000_000 });
    // The requested start position is ignored.
    clip.schedule_start(20 * SECOND, 25 * SECOND, false);
    assert_eq!(clip.clip_state(), playing(SECOND));
    assert_eq!(clip.repetition(), Repetition::Infinitely);
}

#[test]
fn pause_before_actual_start_is_a_no_op() {
    let mut clip = audio_clip();
    clip.schedule_start(10 * SECOND, 12 * SECOND, false);
    let before = clip.clip_state();
    clip.pause(10 * SECOND);
    assert_eq!(clip.clip_state(), before);
    assert_eq!(clip.clip_state(), playing(-2 * SECOND));
}

#[test]
fn pause_on_stopped_or_paused_clip_is_a_no_op() {
    let mut clip = audio_clip();
    clip.pause(0);
    assert_eq!(clip.clip_state(), ClipState::Stopped);
    let mut clip = playing_clip();
    clip.pause(10 * SECOND);
    let _ = clip.get_samples_internal(480, 48_000, ORIGINAL_TEMPO, 10 * SECOND);
    assert_eq!(clip.clip_state(), ClipState::Paused { next_block_pos: 0 });
    clip.pause(10 * SECOND);
    assert_eq!(clip.clip_state(), ClipState::Paused { next_block_pos: 0 });
}

#[test]
fn pause_while_playing_suspends() {
    let mut clip = playing_clip();
    clip.pause(10 * SECOND);
    assert_eq!(
        clip.clip_state(),
        ClipState::Suspending {
            reason: SuspensionReason::Pause,
            play_info: PlayInfo { next_block_pos: 0 },
            transition_countdown: 10_000_000,
        }
    );
}

#[test]
fn pause_retargets_a_suspension() {
    let mut clip = playing_clip();
    clip.stop_immediately(10 * SECOND);
    let _ = clip.get_samples_internal(240, 48_000, ORIGINAL_TEMPO, 10 * SECOND);
    clip.pause(10 * SECOND);
    assert_eq!(
        clip.clip_state(),
        ClipState::Suspending {
            reason: SuspensionReason::Pause,
            play_info: PlayInfo { next_block_pos: 0 },
            transition_countdown: 5_000_000,
        }
    );
}

#[test]
fn schedule_stop_on_stopped_clip_is_a_no_op() {
    let mut clip = audio_clip();
    clip.schedule_stop(ScheduleStopArgs {
        timeline_cursor_pos: 0,
        timeline_tempo: ORIGINAL_TEMPO,
        pos: ClipStopPosition::AtEndOfClip,
    });
    assert_eq!(clip.clip_state(), ClipState::Stopped);
}

#[test]
fn schedule_stop_during_count_in_backpedals() {
    let mut clip = audio_clip();
    clip.schedule_start(10 * SECOND, 12 * SECOND, false);
    clip.schedule_stop(ScheduleStopArgs {
        timeline_cursor_pos: 10 * SECOND,
        timeline_tempo: ORIGINAL_TEMPO,
        pos: ClipStopPosition::At(20 * SECOND),
    });
    assert_eq!(clip.clip_state(), ClipState::Stopped);
}

#[test]
fn schedule_stop_at_end_of_clip_stops_after_current_cycle() {
    let mut clip = playing_clip();
    clip.schedule_stop(ScheduleStopArgs {
        timeline_cursor_pos: 10 * SECOND,
        timeline_tempo: ORIGINAL_TEMPO,
        pos: ClipStopPosition::AtEndOfClip,
    });
    assert_eq!(
        clip.clip_state(),
        ClipState::ScheduledOrPlaying {
            play_info: PlayInfo { next_block_pos: 0 },
            stop_instruction: Some(StopInstruction::AtEndOfCycle(0)),
        }
    );
}

#[test]
fn schedule_stop_before_the_cursor_stops() {
    let mut clip = playing_clip();
    clip.schedule_stop(ScheduleStopArgs {
        timeline_cursor_pos: 10 * SECOND,
        timeline_tempo: ORIGINAL_TEMPO,
        pos: ClipStopPosition::At(9 * SECOND),
    });
    assert_eq!(clip.clip_state(), ClipState::Stopped);
}

#[test]
fn schedule_stop_twice_keeps_the_first_instruction() {
    let mut clip = playing_clip();
    clip.schedule_stop(ScheduleStopArgs {
        timeline_cursor_pos: 10 * SECOND,
        timeline_tempo: ORIGINAL_TEMPO,
        pos: ClipStopPosition::At(13 * SECOND),
    });
    clip.schedule_stop(ScheduleStopArgs {
        timeline_cursor_pos: 10 * SECOND,
        timeline_tempo: ORIGINAL_TEMPO,
        pos: ClipStopPosition::AtEndOfClip,
    });
    assert_eq!(
        clip.clip_state(),
        ClipState::ScheduledOrPlaying {
            play_info: PlayInfo { next_block_pos: 0 },
            stop_instruction: Some(StopInstruction::In(3_000_000_000)),
        }
    );
}

#[test]
fn schedule_stop_when_paused_or_suspending() {
    let mut clip = playing_clip();
    clip.pause(10 * SECOND);
    let suspending = clip.clip_state();
    clip.schedule_stop(ScheduleStopArgs {
        timeline_cursor_pos: 10 * SECOND,
        timeline_tempo: ORIGINAL_TEMPO,
        pos: ClipStopPosition::AtEndOfClip,
    });
    assert_eq!(clip.clip_state(), suspending);
    let _ = clip.get_samples_internal(480, 48_000, ORIGINAL_TEMPO, 10 * SECOND);
    assert_eq!(clip.clip_state(), ClipState::Paused { next_block_pos: 0 });
    clip.schedule_stop(ScheduleStopArgs {
        timeline_cursor_pos: 10 * SECOND,
        timeline_tempo: ORIGINAL_TEMPO,
        pos: ClipStopPosition::AtEndOfClip,
    });
    assert_eq!(clip.clip_state(), ClipState::Stopped);
}

#[test]
fn stop_immediately_twice_is_idempotent() {
    // Playing: the first call suspends, the second changes nothing.
    let mut clip = playing_clip();
    clip.stop_immediately(10 * SECOND);
    let after_first = clip.clip_state();
    assert_eq!(
        after_first,
        ClipState::Suspending {
            reason: SuspensionReason::Stop,
            play_info: PlayInfo { next_block_pos: 0 },
            transition_countdown: 10_000_000,
        }
    );
    clip.stop_immediately(10 * SECOND);
    assert_eq!(clip.clip_state(), after_first);
    // Counting in: the first call stops, the second changes nothing.
    let mut clip = audio_clip();
    clip.schedule_start(10 * SECOND, 12 * SECOND, false);
    clip.stop_immediately(10 * SECOND);
    assert_eq!(clip.clip_state(), ClipState::Stopped);
    clip.stop_immediately(10 * SECOND);
    assert_eq!(clip.clip_state(), ClipState::Stopped);
}

#[test]
fn stop_immediately_when_scheduled_for_stop_suspends() {
    let mut clip = playing_clip();
    clip.schedule_stop(ScheduleStopArgs {
        timeline_cursor_pos: 10 * SECOND,
        timeline_tempo: ORIGINAL_TEMPO,
        pos: ClipStopPosition::At(13 * SECOND),
    });
    clip.stop_immediately(10 * SECOND);
    assert!(matches!(
        clip.clip_state(),
        ClipState::Suspending { reason: SuspensionReason::Stop, .. }
    ));
}

#[test]
fn stop_immediately_when_paused_stops_without_fade() {
    let mut clip = playing_clip();
    clip.pause(10 * SECOND);
    let _ = clip.get_samples_internal(480, 48_000, ORIGINAL_TEMPO, 10 * SECOND);
    clip.stop_immediately(10 * SECOND);
    assert_eq!(clip.clip_state(), ClipState::Stopped);
}

#[test]
fn stop_immediately_retargets_a_suspension() {
    let mut clip = playing_clip();
    clip.pause(10 * SECOND);
    clip.stop_immediately(10 * SECOND);
    assert_eq!(
        clip.clip_state(),
        ClipState::Suspending {
            reason: SuspensionReason::Stop,
            play_info: PlayInfo { next_block_pos: 0 },
            transition_countdown: 10_000_000,
        }
    );
    let _ = clip.get_samples_internal(480, 48_000, ORIGINAL_TEMPO, 10 * SECOND);
    assert_eq!(clip.clip_state(), ClipState::Stopped);
}

#[test]
fn seek_to_half_then_read_position() {
    let mut clip = playing_clip();
    let args = PosWithinClipArgs { timeline_cursor_pos: 10 * SECOND, timeline_tempo: ORIGINAL_TEMPO };
    clip.seek_to(SeekToArgs {
        timeline_cursor_pos: 10 * SECOND,
        timeline_tempo: ORIGINAL_TEMPO,
        desired_pos: 500_000,
    });
    assert_eq!(clip.pos_within_clip(args), Some(2_000_000_000));
    assert_eq!(clip.proportional_pos_within_clip(args), Some(500_000));
    assert_eq!(clip.clip_state(), playing(2 * SECOND));
}

#[test]
fn seek_to_keeps_a_pending_stop() {
    let mut clip = playing_clip();
    clip.schedule_stop(ScheduleStopArgs {
        timeline_cursor_pos: 10 * SECOND,
        timeline_tempo: ORIGINAL_TEMPO,
        pos: ClipStopPosition::At(13 * SECOND),
    });
    clip.seek_to(SeekToArgs {
        timeline_cursor_pos: 10 * SECOND,
        timeline_tempo: ORIGINAL_TEMPO,
        desired_pos: 250_000,
    });
    assert_eq!(
        clip.clip_state(),
        ClipState::ScheduledOrPlaying {
            play_info: PlayInfo { next_block_pos: SECOND },
            stop_instruction: Some(StopInstruction::In(3_000_000_000)),
        }
    );
}

#[test]
fn seek_to_when_paused_sets_resume_position() {
    let mut clip = playing_clip();
    clip.pause(10 * SECOND);
    let _ = clip.get_samples_internal(480, 48_000, ORIGINAL_TEMPO, 10 * SECOND);
    clip.seek_to(SeekToArgs {
        timeline_cursor_pos: 10 * SECOND,
        timeline_tempo: ORIGINAL_TEMPO,
        desired_pos: 750_000,
    });
    assert_eq!(clip.clip_state(), ClipState::Paused { next_block_pos: 3_000_000_000 });
    let args = PosWithinClipArgs { timeline_cursor_pos: 0, timeline_tempo: ORIGINAL_TEMPO };
    assert_eq!(clip.pos_within_clip(args), Some(3_000_000_000));
}

#[test]
fn seek_to_when_stopped_or_suspending_has_no_effect() {
    let mut clip = audio_clip();
    let seek = SeekToArgs { timeline_cursor_pos: 0, timeline_tempo: ORIGINAL_TEMPO, desired_pos: 500_000 };
    clip.seek_to(seek);
    assert_eq!(clip.clip_state(), ClipState::Stopped);
    let mut clip = playing_clip();
    clip.stop_immediately(10 * SECOND);
    let before = clip.clip_state();
    clip.seek_to(seek);
    assert_eq!(clip.clip_state(), before);
}

#[test]
fn seek_to_follows_the_tempo() {
    let mut clip = playing_clip();
    // At twice the tempo the clip is half as long.
    clip.seek_to(SeekToArgs {
        timeline_cursor_pos: 10 * SECOND,
        timeline_tempo: 2 * ORIGINAL_TEMPO,
        desired_pos: 500_000,
    });
    assert_eq!(clip.clip_state(), playing(SECOND));
}

#[test]
fn set_repeated_false_finishes_the_current_cycle() {
    let mut clip = playing_clip();
    assert_eq!(clip.repetition(), Repetition::Infinitely);
    // Cycle 0.
    clip.set_repeated(SetRepeatedArgs {
        timeline_cursor_pos: 10 * SECOND,
        timeline_tempo: ORIGINAL_TEMPO,
        repeated: false,
    });
    assert_eq!(clip.repetition(), Repetition::Times(1));
    // The position of the end of the first cycle lies in cycle 1.
    clip.set_repeated(SetRepeatedArgs {
        timeline_cursor_pos: 10 * SECOND,
        timeline_tempo: ORIGINAL_TEMPO,
        repeated: true,
    });
    assert_eq!(clip.repetition(), Repetition::Infinitely);
    clip.seek_to(SeekToArgs {
        timeline_cursor_pos: 10 * SECOND,
        timeline_tempo: ORIGINAL_TEMPO,
        desired_pos: 1_000_000,
    });
    clip.set_repeated(SetRepeatedArgs {
        timeline_cursor_pos: 10 * SECOND,
        timeline_tempo: ORIGINAL_TEMPO,
        repeated: false,
    });
    assert_eq!(clip.repetition(), Repetition::Times(2));
}

#[test]
fn set_repeated_false_when_not_playing_plays_once() {
    let mut clip = audio_clip();
    clip.set_repeated(SetRepeatedArgs { timeline_cursor_pos: 0, timeline_tempo: ORIGINAL_TEMPO, repeated: true });
    assert_eq!(clip.repetition(), Repetition::Infinitely);
    clip.set_repeated(SetRepeatedArgs { timeline_cursor_pos: 0, timeline_tempo: ORIGINAL_TEMPO, repeated: false });
    assert_eq!(clip.repetition(), Repetition::Times(1));
    assert_eq!(clip.clip_state(), ClipState::Stopped);
}

#[test]
fn tempo_factor_has_a_minimum() {
    let mut clip = audio_clip();
    clip.set_tempo_factor(100_000);
    assert_eq!(clip.get_tempo_factor(), 250_000);
    assert_eq!(MIN_TEMPO_FACTOR, 250_000);
    clip.set_tempo_factor(2_000_000);
    assert_eq!(clip.get_tempo_factor(), 2_000_000);
    clip.set_tempo_factor(0);
    assert_eq!(clip.get_tempo_factor(), 250_000);
}

#[test]
fn final_tempo_factor_combines_manual_and_timeline_tempo() {
    let mut clip = audio_clip();
    assert_eq!(clip.calc_final_tempo_factor(96_000), 1_000_000);
    assert_eq!(clip.calc_final_tempo_factor(120_000), 1_250_000);
    assert_eq!(clip.calc_final_tempo_factor(48_000), 500_000);
    // Clamped to a quarter.
    assert_eq!(clip.calc_final_tempo_factor(12_000), 250_000);
    assert_eq!(clip.calc_final_tempo_factor(0), 250_000);
    clip.set_tempo_factor(1_500_000);
    assert_eq!(clip.calc_final_tempo_factor(120_000), 1_875_000);
    clip.set_tempo_factor(u64::MAX);
    assert_eq!(clip.calc_final_tempo_factor(960_000), u64::MAX);
}

#[test]
fn clip_length_is_native_length_divided_by_tempo_factor() {
    let mut clip = audio_clip();
    assert_eq!(clip.clip_length(96_000), 4_000_000_000);
    assert_eq!(clip.clip_length(192_000), 2_000_000_000);
    assert_eq!(clip.clip_length(48_000), 8_000_000_000);
    assert_eq!(clip.clip_length(1_000), 16_000_000_000);
    clip.set_tempo_factor(3_000_000);
    assert_eq!(clip.clip_length(96_000), 1_333_333_333);
    let huge = ClipPcmSource::new(false, u64::MAX);
    assert_eq!(huge.clip_length(48_000), u64::MAX);
}

#[test]
fn pos_within_clip_by_state() {
    let args = PosWithinClipArgs { timeline_cursor_pos: 10 * SECOND, timeline_tempo: ORIGINAL_TEMPO };
    let mut clip = audio_clip();
    assert_eq!(clip.pos_within_clip(args), None);
    assert_eq!(clip.proportional_pos_within_clip(args), None);
    clip.schedule_start(10 * SECOND, 12 * SECOND, false);
    assert_eq!(clip.pos_within_clip(args), Some(-2 * SECOND));
    assert_eq!(clip.proportional_pos_within_clip(args), Some(0));
    clip.schedule_start(10 * SECOND, 10 * SECOND, false);
    let _ = clip.get_samples_internal(48_000, 48_000, ORIGINAL_TEMPO, 10 * SECOND);
    assert_eq!(clip.pos_within_clip(args), Some(SECOND));
    assert_eq!(clip.proportional_pos_within_clip(args), Some(250_000));
    clip.stop_immediately(11 * SECOND);
    assert_eq!(clip.pos_within_clip(args), Some(SECOND));
}

#[test]
fn proportional_position_formula() {
    assert_eq!(calculate_proportional_position(Some(1_000_000_000), 4_000_000_000), Some(250_000));
    assert_eq!(calculate_proportional_position(Some(1), 3), Some(333_333));
    assert_eq!(calculate_proportional_position(Some(-5), 3), Some(0));
    assert_eq!(calculate_proportional_position(Some(9), 3), Some(1_000_000));
    assert_eq!(calculate_proportional_position(Some(3), 3), Some(1_000_000));
    assert_eq!(calculate_proportional_position(None, 3), None);
    // A clip without length is always at its start.
    assert_eq!(calculate_proportional_position(None, 0), Some(0));
    assert_eq!(calculate_proportional_position(Some(7), 0), Some(0));
    assert_eq!(calculate_proportional_position(Some(i64::MAX), 1), Some(1_000_000));
}

#[test]
fn fade_lengths_are_ten_milliseconds() {
    assert_eq!(start_end_fade_length(), 10_000_000);
    assert_eq!(repetition_fade_length(), 10_000_000);
    assert_eq!(FADE_LENGTH, 10_000_000);
}

#[test]
fn stopped_and_paused_clips_render_nothing() {
    let mut clip = audio_clip();
    assert!(matches!(
        clip.get_samples_internal(512, 48_000, ORIGINAL_TEMPO, 0),
        RenderCommand::Idle
    ));
    assert_eq!(clip.clip_state(), ClipState::Stopped);
    let mut clip = playing_clip();
    clip.pause(10 * SECOND);
    let _ = clip.get_samples_internal(480, 48_000, ORIGINAL_TEMPO, 10 * SECOND);
    assert!(matches!(
        clip.get_samples_internal(512, 48_000, ORIGINAL_TEMPO, 0),
        RenderCommand::Idle
    ));
    assert_eq!(clip.clip_state(), ClipState::Paused { next_block_pos: 0 });
}

#[test]
fn nothing_is_rendered_while_the_timeline_stands_still() {
    let mut clip = playing_clip();
    let before = clip.clip_state();
    assert!(matches!(
        clip.get_samples(false, 512, 48_000, ORIGINAL_TEMPO, 10 * SECOND),
        RenderCommand::Idle
    ));
    assert_eq!(clip.clip_state(), before);
    assert!(matches!(
        clip.get_samples(true, 48_000, 48_000, ORIGINAL_TEMPO, 10 * SECOND),
        RenderCommand::Fill { .. }
    ));
    assert_eq!(clip.clip_state(), playing(SECOND));
}
