use clip_engine::chain::SupplierChain;
use clip_engine::recorder::ClipRecordInput;
use clip_engine::recorder::OwnedAudioBuffer;
use clip_engine::recorder::Recorder;
use clip_engine::recorder::RecorderError;
use clip_engine::recorder::RecordingState;
use clip_engine::recorder::RecordingSubState;
use clip_engine::recorder::State;
use clip_engine::recorder::WriteAudioRequest;

type TestRecorder = Recorder<&'static str, u8, u16, i32>;

fn audio_sub_state(frames: usize) -> RecordingSubState<&'static str, u8, i32> {
    let buffer = OwnedAudioBuffer::from_vec(vec![0i32; frames * 2], 2).unwrap();
    RecordingSubState::audio(9, buffer)
}

#[test]
fn commit_when_ready_fails_and_keeps_source() {
    let mut recorder = TestRecorder::ready("old");
    assert_eq!(recorder.commit_recording(), Err(RecorderError::NotRecording));
    assert_eq!(recorder.audio_source(), Some(&"old"));
    assert_eq!(recorder.midi_source(), Some(&"old"));
}

#[test]
fn commit_midi_recording_swaps_in_new_source() {
    let mut recorder = TestRecorder::ready("old");
    recorder.prepare_recording(RecordingSubState::midi("new"), Some(7));
    assert_eq!(recorder.audio_source(), None);
    assert_eq!(recorder.midi_source(), Some(&"new"));
    assert_eq!(recorder.commit_recording(), Ok(Some(7)));
    assert_eq!(recorder.audio_source(), Some(&"new"));
    // The old source is gone and nothing is recorded: a rollback is refused.
    assert_eq!(recorder.rollback_recording(), Err(RecorderError::NotRecording));
    assert_eq!(recorder.audio_source(), Some(&"new"));
}

#[test]
fn commit_audio_recording_is_not_implemented_and_keeps_recording() {
    let mut recorder = TestRecorder::ready("old");
    recorder.prepare_recording(audio_sub_state(4), None);
    assert_eq!(recorder.commit_recording(), Err(RecorderError::NotImplemented));
    assert_eq!(recorder.audio_source(), None);
    assert_eq!(recorder.midi_source(), None);
    // Still recording, and the old source can still be restored.
    assert_eq!(recorder.commit_recording(), Err(RecorderError::NotImplemented));
    assert_eq!(recorder.rollback_recording(), Ok(()));
    assert_eq!(recorder.audio_source(), Some(&"old"));
}

#[test]
fn rollback_restores_old_source() {
    let mut recorder = TestRecorder::ready("old");
    recorder.prepare_recording(RecordingSubState::midi("new"), None);
    assert_eq!(recorder.rollback_recording(), Ok(()));
    assert_eq!(recorder.audio_source(), Some(&"old"));
    assert_eq!(recorder.commit_recording(), Err(RecorderError::NotRecording));
}

#[test]
fn rollback_of_fresh_recording_fails_and_keeps_recording() {
    let mut recorder = TestRecorder::recording(RecordingSubState::midi("new"), Some(3));
    assert_eq!(recorder.rollback_recording(), Err(RecorderError::NothingToRollBackTo));
    assert_eq!(recorder.midi_source(), Some(&"new"));
    assert_eq!(recorder.commit_recording(), Ok(Some(3)));
    assert_eq!(recorder.audio_source(), Some(&"new"));
}

#[test]
fn prepare_twice_keeps_the_first_old_source() {
    let mut recorder = TestRecorder::ready("old");
    recorder.prepare_recording(RecordingSubState::midi("first"), None);
    recorder.prepare_recording(RecordingSubState::midi("second"), None);
    assert_eq!(recorder.midi_source(), Some(&"second"));
    assert_eq!(recorder.rollback_recording(), Ok(()));
    assert_eq!(recorder.audio_source(), Some(&"old"));
}

#[test]
fn recorder_error_descriptions() {
    assert_eq!(RecorderError::NotRecording.description(), "not recording");
    assert_eq!(RecorderError::NotImplemented.description(), "not implemented");
    assert_eq!(RecorderError::NothingToRollBackTo.description(), "nothing to roll back to");
}

#[test]
fn sub_state_inputs() {
    assert_eq!(audio_sub_state(1).input(), ClipRecordInput::Audio);
    let midi: RecordingSubState<&'static str, u8, i32> = RecordingSubState::midi("m");
    assert_eq!(midi.input(), ClipRecordInput::Midi);
}

#[test]
fn audio_buffer_from_vec() {
    assert!(OwnedAudioBuffer::from_vec(vec![1i32, 2, 3], 2).is_none());
    assert!(OwnedAudioBuffer::from_vec(vec![1i32, 2, 3], 0).is_none());
    let buffer = OwnedAudioBuffer::from_vec(vec![1i32, 2, 3, 4, 5, 6], 2).unwrap();
    assert_eq!(buffer.channel_count(), 2);
    assert_eq!(buffer.frame_count(), 3);
    assert_eq!(buffer.sample(0, 0), Some(1));
    assert_eq!(buffer.sample(0, 1), Some(2));
    assert_eq!(buffer.sample(2, 1), Some(6));
    assert_eq!(buffer.sample(3, 0), None);
    assert_eq!(buffer.sample(0, 2), None);
    let empty = OwnedAudioBuffer::from_vec(Vec::<i32>::new(), 3).unwrap();
    assert_eq!(empty.frame_count(), 0);
}

fn buffer_of(recorder: &TestRecorder) -> Vec<i32> {
    match recorder.current_state() {
        State::Recording(RecordingState { sub_state: RecordingSubState::Audio(audio), .. }) => {
            let buffer = &audio.temporary_audio_buffer;
            let mut samples = Vec::new();
            for frame in 0..buffer.frame_count() {
                for channel in 0..buffer.channel_count() {
                    samples.push(buffer.sample(frame, channel).unwrap());
                }
            }
            samples
        }
        _ => panic!("no audio recording"),
    }
}

fn next_frame_of(recorder: &TestRecorder) -> usize {
    match recorder.current_state() {
        State::Recording(RecordingState { sub_state: RecordingSubState::Audio(audio), .. }) => {
            audio.next_record_start_frame
        }
        _ => panic!("no audio recording"),
    }
}

#[test]
fn write_audio_fills_first_channel() {
    let mut recorder = TestRecorder::recording(audio_sub_state(4), None);
    let left = [11, 12, 13];
    let right = [21, 22, 23];
    recorder.write_audio(WriteAudioRequest {
        input_sample_rate: 48_000,
        block_length: 3,
        left_buffer: &left,
        right_buffer: &right,
    });
    assert_eq!(buffer_of(&recorder), vec![11, 0, 12, 0, 13, 0, 0, 0]);
    assert_eq!(next_frame_of(&recorder), 3);
    // Only one frame of room is left.
    let left = [31, 32, 33];
    recorder.write_audio(WriteAudioRequest {
        input_sample_rate: 48_000,
        block_length: 3,
        left_buffer: &left,
        right_buffer: &right,
    });
    assert_eq!(buffer_of(&recorder), vec![11, 0, 12, 0, 13, 0, 31, 0]);
    assert_eq!(next_frame_of(&recorder), 4);
    // The buffer is full: nothing changes.
    recorder.write_audio(WriteAudioRequest {
        input_sample_rate: 48_000,
        block_length: 3,
        left_buffer: &left,
        right_buffer: &right,
    });
    assert_eq!(buffer_of(&recorder), vec![11, 0, 12, 0, 13, 0, 31, 0]);
}

#[test]
fn write_audio_outside_audio_recording_changes_nothing() {
    let left = [1, 2];
    let mut recorder = TestRecorder::ready("old");
    recorder.write_audio(WriteAudioRequest { input_sample_rate: 48_000, block_length: 2, left_buffer: &left, right_buffer: &left });
    assert_eq!(recorder.audio_source(), Some(&"old"));
    let mut recorder = TestRecorder::recording(RecordingSubState::midi("new"), None);
    recorder.write_audio(WriteAudioRequest { input_sample_rate: 48_000, block_length: 2, left_buffer: &left, right_buffer: &left });
    assert_eq!(recorder.midi_source(), Some(&"new"));
}

#[test]
fn chain_is_wired_with_defaults() {
    let chain = SupplierChain::new(TestRecorder::ready("source"));
    assert!(chain.resampler().enabled);
    assert!(chain.time_stretcher().enabled);
    assert!(chain.looper().fades_enabled);
    assert_eq!(chain.recorder().audio_source(), Some(&"source"));
    assert!(chain.head().supplier().enabled);
    assert!(chain.fader().supplier().supplier().enabled);
}

#[test]
fn chain_accessors_reach_each_stage() {
    let mut chain = SupplierChain::new(TestRecorder::ready("source"));
    chain.resampler_mut().set_enabled(false);
    chain.looper_mut().set_fades_enabled(false);
    assert!(!chain.resampler().enabled);
    assert!(chain.time_stretcher().enabled);
    assert!(!chain.looper().fades_enabled);
    chain.time_stretcher_mut().set_enabled(false);
    assert!(!chain.time_stretcher().enabled);
    chain.head_mut().supplier_mut().set_enabled(true);
    assert!(chain.resampler().enabled);
    chain.fader_mut().supplier_mut().supplier_mut().set_enabled(true);
    assert!(chain.time_stretcher().enabled);
    chain.recorder_mut().prepare_recording(RecordingSubState::midi("new"), None);
    assert_eq!(chain.recorder().midi_source(), Some(&"new"));
    assert_eq!(chain.recorder_mut().commit_recording(), Ok(None));
    assert_eq!(chain.recorder().audio_source(), Some(&"new"));
    assert!(!chain.looper().fades_enabled);
}

#[test]
fn rollback_when_ready_fails_and_keeps_source() {
    let mut recorder = TestRecorder::ready("old");
    assert_eq!(recorder.rollback_recording(), Err(RecorderError::NotRecording));
    assert_eq!(recorder.audio_source(), Some(&"old"));
    assert_eq!(recorder.midi_source(), Some(&"old"));
    // A second rollback after a successful one is refused as well.
    recorder.prepare_recording(RecordingSubState::midi("new"), None);
    assert_eq!(recorder.rollback_recording(), Ok(()));
    assert_eq!(recorder.rollback_recording(), Err(RecorderError::NotRecording));
    assert_eq!(recorder.audio_source(), Some(&"old"));
}
