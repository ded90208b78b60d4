//! The matrix of columns as the real-time thread sees it: the commands that change its
//! columns, and the detection of jumps of the play position.

use vstd::prelude::*;

verus! {

/// Why a column cannot be had.
#[derive(Copy, Clone, Debug, PartialEq, Eq, Structural)]
pub enum MatrixError {
    ColumnMissing,
}

impl MatrixError {
    pub fn description(&self) -> (text: &'static str)
        ensures
            text@ == "column doesn't exist"@,
    {
        "column doesn't exist"
    }
}

/// A command to the matrix.
#[derive(Debug)]
pub enum MatrixCommand<C, S> {
    InsertColumn(usize, C),
    RemoveColumn(usize),
    ClearColumns,
    UpdateSettings(S),
}

/// Detects a jump of the play position while the project plays. A change of tempo is no
/// jump.
#[derive(Copy, Clone, Debug, PartialEq, Eq, Structural)]
pub struct PlayPositionJumpDetector {
    pub previous_beat: Option<isize>,
}

impl PlayPositionJumpDetector {
    /// The beat `beat` follows the beat `previous_beat` without a jump: it is the same beat
    /// or the next one.
    pub open spec fn follows(previous_beat: isize, beat: isize) -> bool {
        0 <= beat - previous_beat <= 1
    }

    /// Creates a detector that has not noted a beat yet.
    pub fn new() -> (detector: Self)
        ensures
            detector.previous_beat.is_none(),
    {
        Self { previous_beat: None }
    }

    /// Takes note of the beat that the play position lies in, or of `None` if the project
    /// does not play. Returns `true` if the play position has jumped.
    ///
    /// The first beat that is noted is no jump.
    pub fn detect_play_jump(&mut self, beat: Option<isize>) -> (jumped: bool)
        ensures
            beat.is_none() ==> !jumped && *final(self) == *old(self),
            beat.is_some() ==> final(self).previous_beat == beat,
            beat matches Some(b) ==> jumped == (old(self).previous_beat matches Some(p)
                && !PlayPositionJumpDetector::follows(p, b)),
    {
        match beat {
            None => false,
            Some(beat) => {
                let previous = self.previous_beat;
                self.previous_beat = Some(beat);
                match previous {
                    Some(previous_beat) => {
                        let beat_diff: i128 = (beat as i128) - (previous_beat as i128);
                        beat_diff < 0 || beat_diff > 1
                    },
                    None => false,
                }
            },
        }
    }
}

/// The columns of a matrix and its settings.
#[derive(Debug)]
pub struct Matrix<C, S> {
    settings: S,
    columns: Vec<C>,
    play_position_jump_detector: PlayPositionJumpDetector,
}

impl<C, S> Matrix<C, S> {
    /// The columns, in order.
    pub closed spec fn columns(&self) -> Seq<C> {
        self.columns@
    }

    /// The settings.
    pub closed spec fn spec_settings(&self) -> S {
        self.settings
    }

    /// The detector of jumps of the play position.
    pub closed spec fn detector(&self) -> PlayPositionJumpDetector {
        self.play_position_jump_detector
    }

    /// The command can be carried out: a column is inserted at or before the end, and a
    /// column that is removed exists.
    pub open spec fn admits(&self, command: MatrixCommand<C, S>) -> bool {
        match command {
            MatrixCommand::InsertColumn(index, _) => index <= self.columns().len(),
            MatrixCommand::RemoveColumn(index) => index < self.columns().len(),
            _ => true,
        }
    }

    /// Creates a matrix without columns.
    pub fn new(settings: S) -> (matrix: Self)
        ensures
            matrix.columns() == Seq::<C>::empty(),
            matrix.spec_settings() == settings,
            matrix.detector().previous_beat.is_none(),
    {
        Self {
            settings,
            columns: Vec::with_capacity(500),
            play_position_jump_detector: PlayPositionJumpDetector::new(),
        }
    }

    /// Returns whether the command can be carried out.
    pub fn can_process(&self, command: &MatrixCommand<C, S>) -> (admitted: bool)
        ensures
            admitted == self.admits(*command),
    {
        match command {
            MatrixCommand::InsertColumn(index, _) => *index <= self.columns.len(),
            MatrixCommand::RemoveColumn(index) => *index < self.columns.len(),
            _ => true,
        }
    }

    /// Carries out a command. Returns the columns that have left the matrix, which are to be
    /// disposed of outside the real-time thread.
    pub fn process_command(&mut self, command: MatrixCommand<C, S>) -> (thrown_away: Vec<C>)
        requires
            old(self).admits(command),
        ensures
            final(self).detector() == old(self).detector(),
            match command {
                MatrixCommand::InsertColumn(index, column) => final(self).columns() == old(
                    self,
                ).columns().insert(index as int, column) && thrown_away@.len() == 0
                    && final(self).spec_settings() == old(self).spec_settings(),
                MatrixCommand::RemoveColumn(index) => final(self).columns() == old(
                    self,
                ).columns().remove(index as int) && thrown_away@ == seq![
                    old(self).columns()[index as int],
                ] && final(self).spec_settings() == old(self).spec_settings(),
                MatrixCommand::ClearColumns => final(self).columns().len() == 0 && thrown_away@
                    == old(self).columns() && final(self).spec_settings() == old(
                    self,
                ).spec_settings(),
                MatrixCommand::UpdateSettings(settings) => final(self).columns() == old(
                    self,
                ).columns() && thrown_away@.len() == 0 && final(self).spec_settings() == settings,
            },
    {
        let mut thrown_away: Vec<C> = Vec::new();
        match command {
            MatrixCommand::InsertColumn(index, source) => {
                self.columns.insert(index, source);
            },
            MatrixCommand::RemoveColumn(index) => {
                let column = self.columns.remove(index);
                thrown_away.push(column);
            },
            MatrixCommand::ClearColumns => {
                std::mem::swap(&mut self.columns, &mut thrown_away);
            },
            MatrixCommand::UpdateSettings(s) => {
                self.settings = s;
            },
        }
        thrown_away
    }

    /// Takes note of the beat that the play position lies in. Returns `true` if the play
    /// position has jumped.
    pub fn detect_play_jump(&mut self, beat: Option<isize>) -> (jumped: bool)
        ensures
            final(self).columns() == old(self).columns(),
            final(self).spec_settings() == old(self).spec_settings(),
            beat.is_none() ==> !jumped && final(self).detector() == old(self).detector(),
            beat.is_some() ==> final(self).detector().previous_beat == beat,
            beat matches Some(b) ==> jumped == (old(self).detector().previous_beat matches Some(p)
                && !PlayPositionJumpDetector::follows(p, b)),
    {
        let mut detector = self.play_position_jump_detector;
        let jumped = detector.detect_play_jump(beat);
        self.play_position_jump_detector = detector;
        jumped
    }

    /// Returns the settings.
    pub fn settings(&self) -> (settings: &S)
        ensures
            *settings == self.spec_settings(),
    {
        &self.settings
    }

    /// Returns the number of columns.
    pub fn column_count(&self) -> (count: usize)
        ensures
            count == self.columns().len(),
    {
        self.columns.len()
    }

    /// Returns the column at `index`.
    pub fn column(&self, index: usize) -> (column: Result<&C, MatrixError>)
        ensures
            index >= self.columns().len() ==> column == Err::<&C, MatrixError>(
                MatrixError::ColumnMissing,
            ),
            index < self.columns().len() ==> column == Ok::<&C, MatrixError>(
                &self.columns()[index as int],
            ),
    {
        if index < self.columns.len() {
            Ok(&self.columns[index])
        } else {
            Err(MatrixError::ColumnMissing)
        }
    }
}

} // verus!
