use evscript::mux::first_ready;

#[test]
fn lowest_index_wins_the_tiebreak() {
    let flags = vec![true, false, true];
    assert_eq!(first_ready(&flags), Some(0));
}

#[test]
fn later_device_is_picked_when_earlier_are_quiet() {
    let flags = vec![false, false, true];
    assert_eq!(first_ready(&flags), Some(2));
}

#[test]
fn ready_device_wins_over_a_blocked_one() {
    // first device has buffered events, second never becomes ready
    let flags = vec![true, false];
    assert_eq!(first_ready(&flags), Some(0));
}

#[test]
fn no_ready_device_picks_none() {
    assert_eq!(first_ready(&vec![false, false]), None);
    assert_eq!(first_ready(&Vec::new()), None);
}
