//! The recorder: the innermost supplier, which holds the source of a clip and replaces it
//! by what is recorded.

use vstd::prelude::*;

verus! {

/// What is recorded.
#[derive(Copy, Clone, Debug, PartialEq, Eq, Structural)]
pub enum ClipRecordInput {
    Midi,
    Audio,
}

/// Why a recording could not be committed or rolled back.
#[derive(Copy, Clone, Debug, PartialEq, Eq, Structural)]
pub enum RecorderError {
    /// There is no recording to commit or to roll back.
    NotRecording,
    /// Committing recorded audio is not supported.
    NotImplemented,
    /// The recording did not replace a source that could be restored.
    NothingToRollBackTo,
}

impl RecorderError {
    pub fn description(&self) -> (text: &'static str)
        ensures
            *self == RecorderError::NotRecording ==> text@ == "not recording"@,
            *self == RecorderError::NotImplemented ==> text@ == "not implemented"@,
            *self == RecorderError::NothingToRollBackTo ==> text@ == "nothing to roll back to"@,
    {
        match self {
            RecorderError::NotRecording => "not recording",
            RecorderError::NotImplemented => "not implemented",
            RecorderError::NothingToRollBackTo => "nothing to roll back to",
        }
    }
}

/// Interleaved samples of a fixed number of channels and frames.
#[derive(Debug)]
pub struct OwnedAudioBuffer<T> {
    data: Vec<T>,
    channel_count: usize,
    frame_count: usize,
}

impl<T> OwnedAudioBuffer<T> {
    /// The buffer has at least one channel and holds whole frames.
    pub closed spec fn wf(&self) -> bool {
        &&& self.channel_count > 0
        &&& self.data@.len() == self.frame_count * self.channel_count
        &&& self.frame_count * self.channel_count <= usize::MAX
    }

    /// The samples: those of frame `i` start at index `i * channel_count`.
    pub closed spec fn spec_data(&self) -> Seq<T> {
        self.data@
    }

    /// The number of channels.
    pub closed spec fn spec_channel_count(&self) -> usize {
        self.channel_count
    }

    /// The number of frames.
    pub closed spec fn spec_frame_count(&self) -> usize {
        self.frame_count
    }

    /// Takes `data` as the samples of a buffer with `channel_count` channels, if it holds
    /// whole frames of that many channels.
    pub fn from_vec(data: Vec<T>, channel_count: usize) -> (buffer: Option<Self>)
        ensures
            buffer.is_some() <==> channel_count > 0 && (data@.len() as int) % (channel_count as int) == 0,
            buffer matches Some(b) ==> b.wf() && b.spec_data() == data@ && b.spec_channel_count()
                == channel_count && b.spec_frame_count() == (data@.len() as int) / (channel_count as int),
    {
        if channel_count == 0 || data.len() % channel_count != 0 {
            return None;
        }
        let frame_count: usize = data.len() / channel_count;
        proof {
            vstd::arithmetic::div_mod::lemma_fundamental_div_mod(
                data@.len() as int,
                channel_count as int,
            );
            vstd::arithmetic::mul::lemma_mul_is_commutative(
                frame_count as int,
                channel_count as int,
            );
        }
        Some(Self { data, channel_count, frame_count })
    }

    /// Returns the number of channels.
    #[verifier::when_used_as_spec(spec_channel_count)]
    pub fn channel_count(&self) -> (count: usize)
        ensures
            count == self.spec_channel_count(),
            self.wf() ==> count > 0,
    {
        self.channel_count
    }

    /// Returns the number of frames.
    #[verifier::when_used_as_spec(spec_frame_count)]
    pub fn frame_count(&self) -> (count: usize)
        ensures
            count == self.spec_frame_count(),
            self.wf() ==> self.spec_data().len() == count * self.spec_channel_count(),
    {
        self.frame_count
    }

}

impl<T: Copy> OwnedAudioBuffer<T> {
    /// Returns the sample of `channel` in `frame`.
    pub fn sample(&self, frame: usize, channel: usize) -> (sample: Option<T>)
        requires
            self.wf(),
        ensures
            sample.is_some() <==> frame < self.spec_frame_count() && channel
                < self.spec_channel_count(),
            sample matches Some(s) ==> s == self.spec_data()[frame * self.spec_channel_count()
                + channel],
    {
        if frame < self.frame_count && channel < self.channel_count {
            proof {
                lemma_sample_index(
                    frame as int,
                    channel as int,
                    self.frame_count as int,
                    self.channel_count as int,
                );
            }
            Some(self.data[frame * self.channel_count + channel])
        } else {
            None
        }
    }

    /// The samples after `count` frames of one channel have been written to the first
    /// channel, from the frame `start` on.
    pub open spec fn with_first_channel(
        data: Seq<T>,
        channel_count: int,
        start: int,
        count: int,
        samples: Seq<T>,
    ) -> Seq<T> {
        Seq::new(
            data.len(),
            |k: int|
                if k % channel_count == 0 && start <= k / channel_count < start + count {
                    samples[k / channel_count - start]
                } else {
                    data[k]
                },
        )
    }

    /// Writes the first `count` of `samples` to the first channel of the frames from `start`
    /// on.
    fn write_first_channel(&mut self, start: usize, count: usize, samples: &[T])
        requires
            old(self).wf(),
            start + count <= old(self).spec_frame_count(),
            count <= samples@.len(),
        ensures
            final(self).wf(),
            final(self).spec_data() == Self::with_first_channel(
                old(self).spec_data(),
                old(self).spec_channel_count() as int,
                start as int,
                count as int,
                samples@,
            ),
            final(self).spec_channel_count() == old(self).spec_channel_count(),
            final(self).spec_frame_count() == old(self).spec_frame_count(),
    {
        let channel_count = self.channel_count;
        let ghost before = self.data@;
        let mut i: usize = 0;
        while i < count
            invariant
                i <= count,
                start + count <= self.frame_count,
                count <= samples@.len(),
                channel_count == self.channel_count,
                channel_count > 0,
                self.frame_count == old(self).frame_count,
                self.channel_count == old(self).channel_count,
                self.data@.len() == self.frame_count * channel_count,
                self.frame_count * channel_count <= usize::MAX,
                before == old(self).data@,
                self.data@ == Self::with_first_channel(
                    before,
                    channel_count as int,
                    start as int,
                    i as int,
                    samples@,
                ),
            decreases count - i,
        {
            proof {
                lemma_sample_index(
                    (start + i) as int,
                    0,
                    self.frame_count as int,
                    channel_count as int,
                );
            }
            let index: usize = (start + i) * channel_count;
            let ghost prev = self.data@;
            self.data.set(index, samples[i]);
            proof {
                let next = Self::with_first_channel(
                    before,
                    channel_count as int,
                    start as int,
                    i + 1,
                    samples@,
                );
                assert forall|k: int| 0 <= k < next.len() implies self.data@[k] == next[k] by {
                    lemma_frame_of_index(k, (start + i) as int, channel_count as int);
                }
                assert(self.data@ =~= next);
            }
            i = i + 1;
        }
    }
}

/// The recorder holds one source and plays it.
#[derive(Debug)]
pub struct ReadyState<S> {
    pub source: S,
}

/// The recorder records. The source that it held before, if any, is kept for a rollback.
#[derive(Debug)]
pub struct RecordingState<S, K, P, T> {
    pub sub_state: RecordingSubState<S, K, T>,
    pub old_source: Option<S>,
    pub project: Option<P>,
}

/// What a recording is written to.
#[derive(Debug)]
pub enum RecordingSubState<S, K, T> {
    Audio(RecordingAudioState<K, T>),
    Midi(RecordingMidiState<S>),
}

/// Audio is written to a buffer, from the frame `next_record_start_frame` on.
#[derive(Debug)]
pub struct RecordingAudioState<K, T> {
    pub sink: K,
    pub temporary_audio_buffer: OwnedAudioBuffer<T>,
    pub next_record_start_frame: usize,
}

/// MIDI is written to a new source.
#[derive(Debug)]
pub struct RecordingMidiState<S> {
    pub new_source: S,
}

/// The two states of a recorder.
#[derive(Debug)]
pub enum State<S, K, P, T> {
    Ready(ReadyState<S>),
    Recording(RecordingState<S, K, P, T>),
}

/// A block of audio that was captured.
#[derive(Debug)]
pub struct WriteAudioRequest<'a, T> {
    /// The sample rate of the input, in hertz.
    pub input_sample_rate: u32,
    /// The number of frames of the block.
    pub block_length: usize,
    pub left_buffer: &'a [T],
    pub right_buffer: &'a [T],
}

impl<S, K, T> RecordingSubState<S, K, T> {
    /// The buffer of an audio recording is well-formed, and the next frame to be written
    /// does not lie behind its end.
    pub open spec fn wf(&self) -> bool {
        match self {
            RecordingSubState::Audio(audio) => audio.temporary_audio_buffer.wf()
                && audio.next_record_start_frame
                <= audio.temporary_audio_buffer.spec_frame_count(),
            RecordingSubState::Midi(_) => true,
        }
    }

    /// What is recorded.
    pub open spec fn spec_input(&self) -> ClipRecordInput {
        match self {
            RecordingSubState::Audio(_) => ClipRecordInput::Audio,
            RecordingSubState::Midi(_) => ClipRecordInput::Midi,
        }
    }

    /// A recording of MIDI into `new_source`.
    pub fn midi(new_source: S) -> (sub_state: Self)
        ensures
            sub_state == RecordingSubState::<S, K, T>::Midi(RecordingMidiState { new_source }),
            sub_state.wf(),
    {
        RecordingSubState::Midi(RecordingMidiState { new_source })
    }

    /// A recording of audio into `sink`, which starts at the first frame of
    /// `temporary_audio_buffer`.
    pub fn audio(sink: K, temporary_audio_buffer: OwnedAudioBuffer<T>) -> (sub_state: Self)
        requires
            temporary_audio_buffer.wf(),
        ensures
            sub_state == RecordingSubState::<S, K, T>::Audio(
                RecordingAudioState { sink, temporary_audio_buffer, next_record_start_frame: 0 },
            ),
            sub_state.wf(),
    {
        RecordingSubState::Audio(
            RecordingAudioState { sink, temporary_audio_buffer, next_record_start_frame: 0 },
        )
    }

    /// Returns what is recorded.
    #[verifier::when_used_as_spec(spec_input)]
    pub fn input(&self) -> (input: ClipRecordInput)
        ensures
            input == self.spec_input(),
    {
        match self {
            RecordingSubState::Audio(_) => ClipRecordInput::Audio,
            RecordingSubState::Midi(_) => ClipRecordInput::Midi,
        }
    }
}

/// The innermost supplier of a clip: it is ready to play a source, or it records.
#[derive(Debug)]
pub struct Recorder<S, K, P, T> {
    state: Option<State<S, K, P, T>>,
}

impl<S, K, P, T> Recorder<S, K, P, T> {
    /// The recorder is in one of its two states, and a recording is well-formed.
    pub closed spec fn wf(&self) -> bool {
        match self.state {
            Some(State::Ready(_)) => true,
            Some(State::Recording(recording)) => recording.sub_state.wf(),
            None => false,
        }
    }

    /// The state of the recorder.
    pub closed spec fn state(&self) -> State<S, K, P, T> {
        self.state.unwrap()
    }

    /// The recorder is ready to play.
    pub open spec fn is_ready(&self) -> bool {
        self.state() is Ready
    }

    /// The source that supplies audio: that of a ready recorder.
    pub open spec fn spec_audio_source(&self) -> Option<S> {
        match self.state() {
            State::Ready(ready) => Some(ready.source),
            State::Recording(_) => None,
        }
    }

    /// The source that supplies MIDI and to which MIDI is written: that of a ready
    /// recorder, or the new source of a MIDI recording.
    pub open spec fn spec_midi_source(&self) -> Option<S> {
        match self.state() {
            State::Ready(ready) => Some(ready.source),
            State::Recording(recording) => match recording.sub_state {
                RecordingSubState::Audio(_) => None,
                RecordingSubState::Midi(midi) => Some(midi.new_source),
            },
        }
    }

    /// The number of frames that a block of `block_length` frames adds to the recording:
    /// those that the buffer of an audio recording still has room for.
    pub open spec fn frames_to_write(&self, block_length: usize) -> int {
        match self.state() {
            State::Recording(recording) => match recording.sub_state {
                RecordingSubState::Audio(audio) => {
                    let room = audio.temporary_audio_buffer.spec_frame_count()
                        - audio.next_record_start_frame;
                    if block_length <= room {
                        block_length as int
                    } else {
                        room
                    }
                },
                RecordingSubState::Midi(_) => 0,
            },
            State::Ready(_) => 0,
        }
    }

    /// Creates a recorder that is ready to play `source`.
    pub fn ready(source: S) -> (recorder: Self)
        ensures
            recorder.wf(),
            recorder.state() == State::<S, K, P, T>::Ready(ReadyState { source }),
    {
        Self { state: Some(State::Ready(ReadyState { source })) }
    }

    /// Creates a recorder that records and has nothing to roll back to.
    pub fn recording(sub_state: RecordingSubState<S, K, T>, project: Option<P>) -> (recorder: Self)
        requires
            sub_state.wf(),
        ensures
            recorder.wf(),
            recorder.state() == State::Recording(
                RecordingState { sub_state, old_source: None, project },
            ),
    {
        Self {
            state: Some(State::Recording(RecordingState { sub_state, old_source: None, project })),
        }
    }

    /// Starts a recording. The source that was played is kept for a rollback; where a
    /// recording was going on, the source that it kept is kept instead.
    pub fn prepare_recording(&mut self, sub_state: RecordingSubState<S, K, T>, project: Option<P>)
        requires
            old(self).wf(),
            sub_state.wf(),
        ensures
            final(self).wf(),
            final(self).state() == State::Recording(
                RecordingState {
                    sub_state,
                    old_source: match old(self).state() {
                        State::Ready(ready) => Some(ready.source),
                        State::Recording(recording) => recording.old_source,
                    },
                    project,
                },
            ),
    {
        let old_source = match self.state.take().unwrap() {
            State::Ready(s) => Some(s.source),
            State::Recording(s) => s.old_source,
        };
        let recording_state = RecordingState { sub_state, old_source, project };
        self.state = Some(State::Recording(recording_state));
    }

    /// Ends a recording and plays what was recorded. Returns the project of the recording.
    ///
    /// Only a recording of MIDI can be committed. In every other case the recorder stays as
    /// it is.
    pub fn commit_recording(&mut self) -> (result: Result<Option<P>, RecorderError>)
        requires
            old(self).wf(),
        ensures
            final(self).wf(),
            match old(self).state() {
                State::Ready(_) => result == Err::<Option<P>, RecorderError>(
                    RecorderError::NotRecording,
                ) && final(self).state() == old(self).state(),
                State::Recording(recording) => match recording.sub_state {
                    RecordingSubState::Audio(_) => result == Err::<Option<P>, RecorderError>(
                        RecorderError::NotImplemented,
                    ) && final(self).state() == old(self).state(),
                    RecordingSubState::Midi(midi) => result == Ok::<Option<P>, RecorderError>(
                        recording.project,
                    ) && final(self).state() == State::<S, K, P, T>::Ready(
                        ReadyState { source: midi.new_source },
                    ),
                },
            },
    {
        let (res, next_state) = match self.state.take().unwrap() {
            State::Ready(s) => (Err(RecorderError::NotRecording), State::Ready(s)),
            State::Recording(s) => {
                match s.sub_state {
                    RecordingSubState::Audio(ss) => {
                        let recording_state = RecordingState {
                            sub_state: RecordingSubState::Audio(ss),
                            old_source: s.old_source,
                            project: s.project,
                        };
                        (Err(RecorderError::NotImplemented), State::Recording(recording_state))
                    },
                    RecordingSubState::Midi(ss) => (
                        Ok(s.project),
                        State::Ready(ReadyState { source: ss.new_source }),
                    ),
                }
            },
        };
        self.state = Some(next_state);
        res
    }

    /// Gives up a recording and plays the source that was played before it.
    ///
    /// A recorder that does not record has nothing to give up: it stays as it is. A
    /// recording that kept no source cannot be rolled back and goes on.
    pub fn rollback_recording(&mut self) -> (result: Result<(), RecorderError>)
        requires
            old(self).wf(),
        ensures
            final(self).wf(),
            match old(self).state() {
                State::Ready(_) => result == Err::<(), RecorderError>(RecorderError::NotRecording)
                    && final(self).state() == old(self).state(),
                State::Recording(recording) => match recording.old_source {
                    Some(old_source) => result.is_ok() && final(self).state() == State::<
                        S,
                        K,
                        P,
                        T,
                    >::Ready(ReadyState { source: old_source }),
                    None => result == Err::<(), RecorderError>(RecorderError::NothingToRollBackTo)
                        && final(self).state() == old(self).state(),
                },
            },
    {
        let (res, next_state) = match self.state.take().unwrap() {
            State::Ready(s) => (Err(RecorderError::NotRecording), State::Ready(s)),
            State::Recording(s) => {
                match s.old_source {
                    Some(old_source) => {
                        let ready_state = ReadyState { source: old_source };
                        (Ok(()), State::Ready(ready_state))
                    },
                    None => {
                        let recording_state = RecordingState {
                            sub_state: s.sub_state,
                            old_source: None,
                            project: s.project,
                        };
                        (
                            Err(RecorderError::NothingToRollBackTo),
                            State::Recording(recording_state),
                        )
                    },
                }
            },
        };
        self.state = Some(next_state);
        res
    }

    /// Returns the state of the recorder.
    pub fn current_state(&self) -> (state: &State<S, K, P, T>)
        requires
            self.wf(),
        ensures
            *state == self.state(),
    {
        self.state.as_ref().unwrap()
    }

    /// Returns the source that supplies audio, if the recorder is ready. While it records,
    /// the recorder supplies nothing.
    pub fn audio_source(&self) -> (source: Option<&S>)
        requires
            self.wf(),
        ensures
            source.is_some() == self.spec_audio_source().is_some(),
            source matches Some(s) ==> Some(*s) == self.spec_audio_source(),
    {
        match self.state.as_ref().unwrap() {
            State::Ready(s) => Some(&s.source),
            State::Recording(_) => None,
        }
    }

    /// Returns the source that supplies MIDI and that captured MIDI is written to, if there
    /// is one.
    pub fn midi_source(&self) -> (source: Option<&S>)
        requires
            self.wf(),
        ensures
            source.is_some() == self.spec_midi_source().is_some(),
            source matches Some(s) ==> Some(*s) == self.spec_midi_source(),
    {
        match self.state.as_ref().unwrap() {
            State::Ready(s) => Some(&s.source),
            State::Recording(s) => match &s.sub_state {
                RecordingSubState::Audio(_) => None,
                RecordingSubState::Midi(s) => Some(&s.new_source),
            },
        }
    }
}

impl<S, K, P, T: Copy> Recorder<S, K, P, T> {
    /// Appends a block of captured audio to an audio recording: the left channel of as many
    /// frames as the buffer still has room for is written to its first channel. Any other
    /// recorder stays as it is.
    pub fn write_audio(&mut self, request: WriteAudioRequest<'_, T>)
        requires
            old(self).wf(),
            old(self).frames_to_write(request.block_length) <= request.left_buffer@.len(),
        ensures
            final(self).wf(),
            match old(self).state() {
                State::Recording(
                    RecordingState { sub_state: RecordingSubState::Audio(audio), old_source, project },
                ) => final(self).state() matches State::Recording(
                    RecordingState {
                        sub_state: RecordingSubState::Audio(written),
                        old_source: kept_source,
                        project: kept_project,
                    },
                ) && kept_source == old_source && kept_project == project && written.sink
                    == audio.sink && written.next_record_start_frame
                    == audio.next_record_start_frame + old(self).frames_to_write(
                    request.block_length,
                ) && written.temporary_audio_buffer.spec_channel_count()
                    == audio.temporary_audio_buffer.spec_channel_count()
                    && written.temporary_audio_buffer.spec_frame_count()
                    == audio.temporary_audio_buffer.spec_frame_count()
                    && written.temporary_audio_buffer.spec_data()
                    == OwnedAudioBuffer::<T>::with_first_channel(
                    audio.temporary_audio_buffer.spec_data(),
                    audio.temporary_audio_buffer.spec_channel_count() as int,
                    audio.next_record_start_frame as int,
                    old(self).frames_to_write(request.block_length),
                    request.left_buffer@,
                ),
                _ => final(self).state() == old(self).state(),
            },
    {
        match self.state.take().unwrap() {
            State::Recording(
                RecordingState { sub_state: RecordingSubState::Audio(mut s), old_source, project },
            ) => {
                let start_frame = s.next_record_start_frame;
                let room: usize = s.temporary_audio_buffer.frame_count() - start_frame;
                let num_frames_written: usize = if request.block_length <= room {
                    request.block_length
                } else {
                    room
                };
                s.temporary_audio_buffer.write_first_channel(
                    start_frame,
                    num_frames_written,
                    request.left_buffer,
                );
                s.next_record_start_frame = start_frame + num_frames_written;
                self.state = Some(
                    State::Recording(
                        RecordingState {
                            sub_state: RecordingSubState::Audio(s),
                            old_source,
                            project,
                        },
                    ),
                );
            },
            other => {
                self.state = Some(other);
            },
        }
    }
}

/// The index of a sample lies within the buffer.
pub proof fn lemma_sample_index(frame: int, channel: int, frame_count: int, channel_count: int)
    requires
        0 <= frame < frame_count,
        0 <= channel < channel_count,
    ensures
        0 <= frame * channel_count <= frame * channel_count + channel,
        frame * channel_count + channel < frame_count * channel_count,
{
    assert(frame * channel_count + channel < frame_count * channel_count) by (nonlinear_arith)
        requires
            0 <= frame < frame_count,
            0 <= channel < channel_count,
    ;
    assert(0 <= frame * channel_count) by (nonlinear_arith)
        requires
            0 <= frame,
            0 < channel_count,
    ;
}

/// The index `k` is that of the first channel of `frame` exactly if it is the product of
/// `frame` and the number of channels.
pub proof fn lemma_frame_of_index(k: int, frame: int, channel_count: int)
    requires
        channel_count > 0,
        0 <= k,
        0 <= frame,
    ensures
        (k % channel_count == 0 && k / channel_count == frame) <==> k == frame * channel_count,
{
    vstd::arithmetic::div_mod::lemma_fundamental_div_mod(k, channel_count);
    if k == frame * channel_count {
        vstd::arithmetic::div_mod::lemma_fundamental_div_mod_converse(
            k,
            channel_count,
            frame,
            0,
        );
    } else if k % channel_count == 0 && k / channel_count == frame {
        vstd::arithmetic::mul::lemma_mul_is_commutative(frame, channel_count);
    }
}

} // verus!
