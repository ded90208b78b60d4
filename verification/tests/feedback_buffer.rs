use clip_engine::feedback_buffer::FeedbackBuffer;
use clip_engine::feedback_buffer::MappingCompartment;
use clip_engine::feedback_buffer::MappingId;
use clip_engine::feedback_buffer::BUFFER_DURATION;

fn id(n: u128) -> MappingId {
    MappingId { uuid: n }
}

#[test]
fn buffer_holds_each_id_once() {
    let mut buffer = FeedbackBuffer::default();
    assert_eq!(buffer.len(), 0);
    buffer.buffer_feedback_for_mapping(MappingCompartment::MainMappings, id(1));
    buffer.buffer_feedback_for_mapping(MappingCompartment::MainMappings, id(1));
    buffer.buffer_feedback_for_mapping(MappingCompartment::ControllerMappings, id(1));
    buffer.buffer_feedback_for_mapping(MappingCompartment::MainMappings, id(2));
    assert_eq!(buffer.len(), 3);
}

#[test]
fn reset_all_empties_the_buffer() {
    let mut buffer = FeedbackBuffer::new();
    buffer.buffer_feedback_for_mapping(MappingCompartment::MainMappings, id(1));
    buffer.reset_all();
    assert_eq!(buffer.len(), 0);
}

#[test]
fn reset_in_compartment_keeps_the_other_compartment() {
    let mut buffer = FeedbackBuffer::new();
    buffer.buffer_feedback_for_mapping(MappingCompartment::MainMappings, id(1));
    buffer.buffer_feedback_for_mapping(MappingCompartment::ControllerMappings, id(2));
    buffer.buffer_feedback_for_mapping(MappingCompartment::MainMappings, id(3));
    buffer.reset_all_in_compartment(MappingCompartment::MainMappings);
    assert_eq!(buffer.len(), 1);
    let batch = buffer.poll_after(BUFFER_DURATION + 1).unwrap();
    assert_eq!(batch, vec![(MappingCompartment::ControllerMappings, id(2))]);
}

#[test]
fn poll_hands_out_nothing_before_the_buffer_duration_is_over() {
    let mut buffer = FeedbackBuffer::new();
    buffer.buffer_feedback_for_mapping(MappingCompartment::MainMappings, id(1));
    assert_eq!(buffer.poll_after(0), None);
    assert_eq!(buffer.poll_after(10_000_000), None);
    assert_eq!(buffer.len(), 1);
    // A buffer that was just created has not collected for 10 ms yet.
    let mut fresh = FeedbackBuffer::new();
    fresh.buffer_feedback_for_mapping(MappingCompartment::MainMappings, id(1));
    assert_eq!(fresh.poll(), None);
    assert_eq!(fresh.len(), 1);
}

#[test]
fn poll_hands_out_all_ids_after_the_buffer_duration() {
    let mut buffer = FeedbackBuffer::new();
    buffer.buffer_feedback_for_mapping(MappingCompartment::MainMappings, id(1));
    buffer.buffer_feedback_for_mapping(MappingCompartment::ControllerMappings, id(2));
    let batch = buffer.poll_after(10_000_001).unwrap();
    assert_eq!(
        batch,
        vec![(MappingCompartment::MainMappings, id(1)), (MappingCompartment::ControllerMappings, id(2))]
    );
    assert_eq!(buffer.len(), 0);
    assert_eq!(buffer.poll_after(u128::MAX), Some(vec![]));
}

#[test]
fn poll_by_the_clock_hands_out_after_waiting() {
    let mut buffer = FeedbackBuffer::new();
    buffer.buffer_feedback_for_mapping(MappingCompartment::MainMappings, id(1));
    let start = std::time::Instant::now();
    while start.elapsed() < std::time::Duration::from_millis(15) {}
    assert_eq!(buffer.poll(), Some(vec![(MappingCompartment::MainMappings, id(1))]));
    // The buffer has started to collect anew.
    assert_eq!(buffer.poll(), None);
}
