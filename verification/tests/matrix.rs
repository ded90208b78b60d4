use clip_engine::matrix::Matrix;
use clip_engine::matrix::MatrixCommand;
use clip_engine::matrix::MatrixError;
use clip_engine::matrix::PlayPositionJumpDetector;

fn columns_of(matrix: &Matrix<&'static str, u8>) -> Vec<&'static str> {
    (0..matrix.column_count()).map(|i| *matrix.column(i).unwrap()).collect()
}

#[test]
fn first_beat_is_no_jump() {
    let mut detector = PlayPositionJumpDetector::new();
    assert!(!detector.detect_play_jump(Some(17)));
    assert_eq!(detector.previous_beat, Some(17));
}

#[test]
fn same_or_next_beat_is_no_jump() {
    let mut detector = PlayPositionJumpDetector { previous_beat: Some(4) };
    assert!(!detector.detect_play_jump(Some(4)));
    assert!(!detector.detect_play_jump(Some(5)));
    assert_eq!(detector.previous_beat, Some(5));
}

#[test]
fn backward_or_far_forward_is_a_jump() {
    let mut detector = PlayPositionJumpDetector { previous_beat: Some(4) };
    assert!(detector.detect_play_jump(Some(3)));
    assert!(detector.detect_play_jump(Some(5)));
    assert!(detector.detect_play_jump(Some(-1)));
    assert!(!detector.detect_play_jump(Some(0)));
    let mut extreme = PlayPositionJumpDetector { previous_beat: Some(isize::MIN) };
    assert!(extreme.detect_play_jump(Some(isize::MAX)));
    assert!(extreme.detect_play_jump(Some(isize::MIN)));
}

#[test]
fn nothing_is_noted_while_the_project_does_not_play() {
    let mut detector = PlayPositionJumpDetector { previous_beat: Some(4) };
    assert!(!detector.detect_play_jump(None));
    assert_eq!(detector.previous_beat, Some(4));
    assert!(detector.detect_play_jump(Some(9)));
}

#[test]
fn matrix_commands_change_columns() {
    let mut matrix: Matrix<&'static str, u8> = Matrix::new(1);
    assert_eq!(matrix.column_count(), 0);
    assert_eq!(*matrix.settings(), 1);
    assert!(matrix.process_command(MatrixCommand::InsertColumn(0, "a")).is_empty());
    assert!(matrix.process_command(MatrixCommand::InsertColumn(1, "c")).is_empty());
    assert!(matrix.process_command(MatrixCommand::InsertColumn(1, "b")).is_empty());
    assert_eq!(columns_of(&matrix), vec!["a", "b", "c"]);
    assert_eq!(matrix.process_command(MatrixCommand::RemoveColumn(0)), vec!["a"]);
    assert_eq!(columns_of(&matrix), vec!["b", "c"]);
    assert!(matrix.process_command(MatrixCommand::UpdateSettings(9)).is_empty());
    assert_eq!(*matrix.settings(), 9);
    assert_eq!(columns_of(&matrix), vec!["b", "c"]);
    assert_eq!(matrix.process_command(MatrixCommand::ClearColumns), vec!["b", "c"]);
    assert_eq!(matrix.column_count(), 0);
    assert_eq!(*matrix.settings(), 9);
}

#[test]
fn matrix_checks_commands_and_columns() {
    let mut matrix: Matrix<&'static str, u8> = Matrix::new(0);
    assert!(matrix.can_process(&MatrixCommand::InsertColumn(0, "a")));
    assert!(!matrix.can_process(&MatrixCommand::InsertColumn(1, "a")));
    assert!(!matrix.can_process(&MatrixCommand::RemoveColumn(0)));
    assert!(matrix.can_process(&MatrixCommand::ClearColumns));
    assert!(matrix.can_process(&MatrixCommand::UpdateSettings(3)));
    assert_eq!(matrix.column(0), Err(MatrixError::ColumnMissing));
    assert_eq!(MatrixError::ColumnMissing.description(), "column doesn't exist");
    let _ = matrix.process_command(MatrixCommand::InsertColumn(0, "a"));
    assert!(matrix.can_process(&MatrixCommand::RemoveColumn(0)));
    assert_eq!(matrix.column(0), Ok(&"a"));
    assert_eq!(matrix.column(1), Err(MatrixError::ColumnMissing));
}

#[test]
fn matrix_detects_jumps() {
    let mut matrix: Matrix<&'static str, u8> = Matrix::new(0);
    assert!(!matrix.detect_play_jump(Some(1)));
    assert!(!matrix.detect_play_jump(Some(2)));
    assert!(!matrix.detect_play_jump(None));
    assert!(matrix.detect_play_jump(Some(7)));
}
