use clip_engine::backbone::LastTouchedTargetFilter;
use clip_engine::backbone::LastTouchedTargetsContainer;
use clip_engine::backbone::ReaperTarget;
use clip_engine::backbone::ReaperTargetType;
use clip_engine::backbone::TargetTouchCause;
use clip_engine::backbone::TargetTouchEvent;

fn target(code: u32, key: u64) -> ReaperTarget {
    ReaperTarget { target_type: ReaperTargetType { code }, key }
}

fn event(code: u32, key: u64, caused_by_realearn: bool) -> TargetTouchEvent {
    TargetTouchEvent { target: target(code, key), caused_by_realearn }
}

fn types(codes: &[u32]) -> Vec<ReaperTargetType> {
    codes.iter().map(|c| ReaperTargetType { code: *c }).collect()
}

#[test]
fn update_reports_change_of_last_touched_target() {
    let mut container = LastTouchedTargetsContainer::new(8);
    assert!(container.update(event(1, 10, false)));
    assert!(!container.update(event(1, 10, false)));
    assert!(container.update(event(1, 11, false)));
    assert!(container.update(event(1, 11, true)));
    assert!(!container.update(event(1, 11, true)));
    assert!(container.update(event(2, 11, true)));
}

#[test]
fn update_replaces_touches_of_same_type_and_cause() {
    let mut container = LastTouchedTargetsContainer::new(8);
    let all = types(&[1, 2]);
    container.update(event(1, 10, false));
    container.update(event(2, 20, false));
    container.update(event(1, 11, false));
    // The most recent touch of type 2 is still there, that of type 1 was replaced.
    let only_2 = types(&[2]);
    let only_1 = types(&[1]);
    assert_eq!(
        container.find(LastTouchedTargetFilter { included_target_types: &only_2, touch_cause: TargetTouchCause::Any }),
        Some(target(2, 20))
    );
    assert_eq!(
        container.find(LastTouchedTargetFilter { included_target_types: &only_1, touch_cause: TargetTouchCause::Any }),
        Some(target(1, 11))
    );
    assert_eq!(
        container.find(LastTouchedTargetFilter { included_target_types: &all, touch_cause: TargetTouchCause::Any }),
        Some(target(1, 11))
    );
    // Touching the older target again makes it the last one, so this is a change.
    assert!(container.update(event(2, 20, false)));
    assert_eq!(
        container.find(LastTouchedTargetFilter { included_target_types: &all, touch_cause: TargetTouchCause::Any }),
        Some(target(2, 20))
    );
}

#[test]
fn find_respects_the_touch_cause() {
    let mut container = LastTouchedTargetsContainer::new(8);
    let all = types(&[1]);
    container.update(event(1, 10, true));
    container.update(event(1, 11, false));
    assert_eq!(
        container.find(LastTouchedTargetFilter { included_target_types: &all, touch_cause: TargetTouchCause::Realearn }),
        Some(target(1, 10))
    );
    assert_eq!(
        container.find(LastTouchedTargetFilter { included_target_types: &all, touch_cause: TargetTouchCause::Reaper }),
        Some(target(1, 11))
    );
    assert_eq!(
        container.find(LastTouchedTargetFilter { included_target_types: &all, touch_cause: TargetTouchCause::Any }),
        Some(target(1, 11))
    );
    let none = types(&[]);
    assert_eq!(
        container.find(LastTouchedTargetFilter { included_target_types: &none, touch_cause: TargetTouchCause::Any }),
        None
    );
    let empty = LastTouchedTargetsContainer::new(0);
    assert_eq!(
        empty.find(LastTouchedTargetFilter { included_target_types: &all, touch_cause: TargetTouchCause::Any }),
        None
    );
}

#[test]
fn filter_matches_events() {
    let included = types(&[1, 3]);
    let any = LastTouchedTargetFilter { included_target_types: &included, touch_cause: TargetTouchCause::Any };
    assert!(any.matches(&event(1, 0, true)));
    assert!(any.matches(&event(3, 0, false)));
    assert!(!any.matches(&event(2, 0, false)));
    let realearn = LastTouchedTargetFilter { included_target_types: &included, touch_cause: TargetTouchCause::Realearn };
    assert!(realearn.matches(&event(1, 0, true)));
    assert!(!realearn.matches(&event(1, 0, false)));
    let reaper = LastTouchedTargetFilter { included_target_types: &included, touch_cause: TargetTouchCause::Reaper };
    assert!(!reaper.matches(&event(1, 0, true)));
    assert!(reaper.matches(&event(1, 0, false)));
}
