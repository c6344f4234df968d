use charsheet::state::updateTrackerState_SingleState;
use charsheet::tracks::{Tracker, TrackerState};

fn filled(count: usize, state: TrackerState) -> Tracker {
    let mut tracker = Tracker::new(10);
    for _ in 0..count {
        tracker.add(state);
    }
    tracker
}

#[test]
fn new_tracker_has_no_filled_box() {
    let tracker = Tracker::new(7);
    assert_eq!(tracker.max, 7);
    assert!(tracker.values.is_empty());
}

#[test]
fn add_appends_at_the_end() {
    let mut tracker = Tracker::new(3);
    tracker.add(TrackerState::One);
    tracker.add(TrackerState::Three);
    tracker.add(TrackerState::Two);
    assert_eq!(
        tracker.values,
        vec![TrackerState::One, TrackerState::Three, TrackerState::Two]
    );
    assert_eq!(tracker.max, 3);
}

#[test]
fn add_is_not_held_back_by_max() {
    let mut tracker = Tracker::new(1);
    tracker.add(TrackerState::One);
    tracker.add(TrackerState::One);
    assert_eq!(tracker.values.len(), 2);
    assert_eq!(tracker.max, 1);
}

#[test]
fn remove_takes_the_last_box_of_the_state() {
    let mut tracker = Tracker::new(5);
    tracker.add(TrackerState::Two);
    tracker.add(TrackerState::One);
    tracker.add(TrackerState::Two);
    tracker.add(TrackerState::Three);
    tracker.remove(TrackerState::Two);
    assert_eq!(
        tracker.values,
        vec![TrackerState::Two, TrackerState::One, TrackerState::Three]
    );
}

#[test]
fn remove_takes_one_box_only() {
    let mut tracker = filled(3, TrackerState::One);
    tracker.remove(TrackerState::One);
    assert_eq!(tracker.values, vec![TrackerState::One, TrackerState::One]);
}

#[test]
fn remove_without_a_box_of_the_state_changes_nothing() {
    let mut tracker = filled(2, TrackerState::One);
    tracker.remove(TrackerState::Three);
    assert_eq!(tracker.values, vec![TrackerState::One, TrackerState::One]);
    let mut empty = Tracker::new(4);
    empty.remove(TrackerState::One);
    assert!(empty.values.is_empty());
    assert_eq!(empty.max, 4);
}

#[test]
fn update_sets_the_box_at_the_index() {
    let mut tracker = filled(3, TrackerState::One);
    tracker.update(TrackerState::Three, 1, false);
    assert_eq!(
        tracker.values,
        vec![TrackerState::One, TrackerState::Three, TrackerState::One]
    );
}

#[test]
fn update_with_remove_takes_the_box_at_the_index() {
    let mut tracker = Tracker::new(5);
    tracker.add(TrackerState::One);
    tracker.add(TrackerState::Two);
    tracker.add(TrackerState::Three);
    tracker.update(TrackerState::One, 1, true);
    assert_eq!(tracker.values, vec![TrackerState::One, TrackerState::Three]);
}

#[test]
fn update_past_the_end_changes_nothing() {
    let mut tracker = filled(2, TrackerState::One);
    tracker.update(TrackerState::Two, 2, false);
    assert_eq!(tracker.values, vec![TrackerState::One, TrackerState::One]);
    tracker.update(TrackerState::Two, 9, true);
    assert_eq!(tracker.values, vec![TrackerState::One, TrackerState::One]);
}

#[test]
fn update_max_keeps_the_boxes() {
    let mut tracker = filled(4, TrackerState::Two);
    tracker.updateMax(2);
    assert_eq!(tracker.max, 2);
    assert_eq!(tracker.values.len(), 4);
}

#[test]
fn click_past_the_end_fills_through_the_index() {
    let mut tracker = filled(2, TrackerState::Two);
    updateTrackerState_SingleState(&mut tracker, 4, TrackerState::Two, false);
    assert_eq!(tracker.values, vec![TrackerState::Two; 5]);
    assert_eq!(tracker.max, 10);
}

#[test]
fn click_at_the_end_fills_one_box() {
    let mut tracker = filled(2, TrackerState::Two);
    updateTrackerState_SingleState(&mut tracker, 2, TrackerState::Two, false);
    assert_eq!(tracker.values, vec![TrackerState::Two; 3]);
}

#[test]
fn click_on_an_empty_tracker_fills_the_first_box() {
    let mut tracker = Tracker::new(5);
    updateTrackerState_SingleState(&mut tracker, 0, TrackerState::Two, false);
    assert_eq!(tracker.values, vec![TrackerState::Two]);
}

#[test]
fn click_below_the_end_puts_one_box_back() {
    let mut tracker = filled(5, TrackerState::Two);
    updateTrackerState_SingleState(&mut tracker, 2, TrackerState::Two, false);
    assert_eq!(tracker.values.len(), 3);
    assert_eq!(tracker.values, vec![TrackerState::Two; 3]);
}

#[test]
fn click_on_the_only_box_empties_the_tracker() {
    let mut tracker = filled(1, TrackerState::Two);
    updateTrackerState_SingleState(&mut tracker, 0, TrackerState::Two, false);
    assert_eq!(tracker.values.len(), 0);
}

#[test]
fn click_on_the_topmost_box_empties_it() {
    let mut tracker = filled(4, TrackerState::Two);
    updateTrackerState_SingleState(&mut tracker, 3, TrackerState::Two, false);
    assert_eq!(tracker.values, vec![TrackerState::Two; 3]);
}

#[test]
fn click_on_the_first_of_many_boxes_leaves_one() {
    let mut tracker = filled(4, TrackerState::Two);
    updateTrackerState_SingleState(&mut tracker, 0, TrackerState::Two, false);
    assert_eq!(tracker.values, vec![TrackerState::Two]);
}

#[test]
fn override_fills_exactly_index_boxes() {
    let mut tracker = Tracker::new(5);
    tracker.add(TrackerState::One);
    tracker.add(TrackerState::Three);
    tracker.add(TrackerState::One);
    tracker.add(TrackerState::Two);
    tracker.add(TrackerState::Three);
    updateTrackerState_SingleState(&mut tracker, 3, TrackerState::Two, true);
    assert_eq!(tracker.values, vec![TrackerState::Two; 3]);
    assert_eq!(tracker.max, 5);
}

#[test]
fn override_on_an_empty_tracker_fills_exactly_index_boxes() {
    let mut tracker = Tracker::new(5);
    updateTrackerState_SingleState(&mut tracker, 3, TrackerState::One, true);
    assert_eq!(tracker.values, vec![TrackerState::One; 3]);
}

#[test]
fn override_with_index_zero_empties_the_tracker() {
    let mut tracker = filled(3, TrackerState::Two);
    updateTrackerState_SingleState(&mut tracker, 0, TrackerState::Two, true);
    assert!(tracker.values.is_empty());
}

#[test]
fn click_below_the_end_empties_only_boxes_of_the_state() {
    let mut tracker = Tracker::new(5);
    tracker.add(TrackerState::One);
    tracker.add(TrackerState::Two);
    tracker.add(TrackerState::One);
    tracker.add(TrackerState::Two);
    updateTrackerState_SingleState(&mut tracker, 1, TrackerState::Two, false);
    assert_eq!(
        tracker.values,
        vec![TrackerState::One, TrackerState::One, TrackerState::Two]
    );
}

#[test]
fn same_click_twice_keeps_a_tracker_with_few_boxes_of_the_state() {
    let mut tracker = Tracker::new(5);
    tracker.add(TrackerState::One);
    tracker.add(TrackerState::Two);
    tracker.add(TrackerState::One);
    tracker.add(TrackerState::One);
    updateTrackerState_SingleState(&mut tracker, 1, TrackerState::Two, false);
    let once = tracker.values.clone();
    assert_eq!(
        once,
        vec![
            TrackerState::One,
            TrackerState::One,
            TrackerState::One,
            TrackerState::Two
        ]
    );
    updateTrackerState_SingleState(&mut tracker, 1, TrackerState::Two, false);
    assert_eq!(tracker.values, once);
    assert_eq!(tracker.values.len(), once.len());
}

#[test]
fn same_click_twice_on_a_tracker_without_the_state_changes_nothing() {
    let mut tracker = filled(3, TrackerState::One);
    updateTrackerState_SingleState(&mut tracker, 2, TrackerState::Two, false);
    assert_eq!(tracker.values, vec![TrackerState::One; 3]);
    updateTrackerState_SingleState(&mut tracker, 2, TrackerState::Two, false);
    assert_eq!(tracker.values, vec![TrackerState::One; 3]);
}

#[test]
fn same_click_twice_on_a_full_run_toggles_the_box() {
    let mut tracker = filled(5, TrackerState::Two);
    updateTrackerState_SingleState(&mut tracker, 2, TrackerState::Two, false);
    assert_eq!(tracker.values.len(), 3);
    updateTrackerState_SingleState(&mut tracker, 2, TrackerState::Two, false);
    assert_eq!(tracker.values.len(), 2);
    updateTrackerState_SingleState(&mut tracker, 2, TrackerState::Two, false);
    assert_eq!(tracker.values.len(), 3);
}

#[test]
fn states_are_ordered_by_severity() {
    assert!(TrackerState::One < TrackerState::Two);
    assert!(TrackerState::Two < TrackerState::Three);
}
