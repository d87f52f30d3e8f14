use dirbrowse::detector::ActivationState;

#[test]
fn single_event_never_activates() {
    let mut s = ActivationState::new();
    assert_eq!(s.on_event(5, 1000), None);
    let mut t = ActivationState::new();
    assert_eq!(t.on_event(5, 0), None);
}

#[test]
fn second_event_of_burst_activates() {
    let mut s = ActivationState::new();
    // Slow first event: only the recency clock moves.
    assert_eq!(s.on_event(5, 1000), None);
    // Within the window: starts a burst on row 5.
    assert_eq!(s.on_event(5, 1000), None);
    // Second event of the burst: activates.
    assert_eq!(s.on_event(5, 1000), Some(5));
}

#[test]
fn triple_click_activates_once() {
    let mut s = ActivationState::new();
    assert_eq!(s.on_event(5, 0), None);
    assert_eq!(s.on_event(5, 0), Some(5));
    assert_eq!(s.on_event(5, 0), None);
}

#[test]
fn quadruple_click_activates_once_and_resets() {
    let mut s = ActivationState::new();
    assert_eq!(s.on_event(5, 0), None);
    assert_eq!(s.on_event(5, 0), Some(5));
    assert_eq!(s.on_event(5, 0), None);
    assert_eq!(s.on_event(5, 0), None);
    assert_eq!(s.burst_count, 0);
}

#[test]
fn slow_event_is_inert() {
    let mut s = ActivationState::new();
    assert_eq!(s.on_event(5, 0), None);
    assert_eq!(s.on_event(5, 0), Some(5));
    let burst_before = s.burst_count;
    let last_before = s.last_selected_index;
    // One full second later: too slow, nothing but the clock changes.
    assert_eq!(s.on_event(7, 1), None);
    assert_eq!(s.burst_count, burst_before);
    assert_eq!(s.last_selected_index, last_before);
    assert_eq!(s.last_event_at, 1);
}

#[test]
fn clock_moving_backward_counts_as_within_window() {
    let mut s = ActivationState::new();
    assert_eq!(s.on_event(5, 100), None);
    assert_eq!(s.on_event(5, 100), None);
    // `now` earlier than the last event: treated as elapsed 0.
    assert_eq!(s.on_event(5, 90), Some(5));
}

#[test]
fn deselection_counts_toward_burst_but_never_activates() {
    let mut s = ActivationState::new();
    assert_eq!(s.on_event(5, 0), None);
    assert_eq!(s.on_event(-1, 0), None);
    assert_eq!(s.on_event(-1, 0), None);
    assert_eq!(s.burst_count, 2);
    // A fourth burst event would pass the limit: forced back to zero.
    assert_eq!(s.on_event(-1, 0), None);
    assert_eq!(s.burst_count, 0);
}

#[test]
fn switching_rows_starts_a_new_burst() {
    let mut s = ActivationState::new();
    assert_eq!(s.on_event(5, 0), None);
    assert_eq!(s.on_event(3, 0), None);
    assert_eq!(s.on_event(3, 0), Some(3));
}
