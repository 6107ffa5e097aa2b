use spacestate::{check, render_message, replay_observations, Driver, RoomStatus};

#[test]
fn transition_matrix_is_exact() {
    assert!(!check(RoomStatus::Open, RoomStatus::Open));
    assert!(check(RoomStatus::Open, RoomStatus::Closed));
    assert!(check(RoomStatus::Closed, RoomStatus::Open));
    assert!(!check(RoomStatus::Closed, RoomStatus::Closed));
}

#[test]
fn status_names() {
    assert_eq!(RoomStatus::Open.name(), "open");
    assert_eq!(RoomStatus::Closed.name(), "closed");
}

#[test]
fn observe_updates_optimistically_on_change() {
    let mut driver = Driver::new(RoomStatus::Closed);
    let to_notify = driver.observe(RoomStatus::Open);
    assert_eq!(to_notify, Some(RoomStatus::Open));
    // The slot has already advanced, before any delivery is confirmed.
    assert_eq!(driver.last_observed, RoomStatus::Open);
}

#[test]
fn observe_is_silent_without_change() {
    let mut driver = Driver::new(RoomStatus::Closed);
    let to_notify = driver.observe(RoomStatus::Closed);
    assert_eq!(to_notify, None);
    assert_eq!(driver.last_observed, RoomStatus::Closed);
}

#[test]
fn five_polls_notify_twice_open_then_closed() {
    let observed = vec![
        RoomStatus::Closed,
        RoomStatus::Closed,
        RoomStatus::Open,
        RoomStatus::Open,
        RoomStatus::Closed,
    ];
    let notified = replay_observations(RoomStatus::Closed, &observed);
    assert_eq!(notified, vec![RoomStatus::Open, RoomStatus::Closed]);
    let messages: Vec<String> = notified.iter().map(|s| render_message(*s)).collect();
    assert_eq!(
        messages,
        vec![
            "Der Raum ist aktuell open!".to_string(),
            "Der Raum ist aktuell closed!".to_string(),
        ]
    );
}

#[test]
fn alternating_source_fires_nine_of_ten() {
    let mut observed = Vec::new();
    for cycle in 0..10 {
        if cycle % 2 == 0 {
            observed.push(RoomStatus::Closed);
        } else {
            observed.push(RoomStatus::Open);
        }
    }
    let notified = replay_observations(RoomStatus::Closed, &observed);
    assert_eq!(notified.len(), 9);
    for (i, status) in notified.iter().enumerate() {
        // Strictly alternating, starting with the first change to Open.
        if i % 2 == 0 {
            assert_eq!(*status, RoomStatus::Open);
        } else {
            assert_eq!(*status, RoomStatus::Closed);
        }
        let expected = if i % 2 == 0 {
            "Der Raum ist aktuell open!"
        } else {
            "Der Raum ist aktuell closed!"
        };
        assert_eq!(render_message(*status), expected);
    }
}

#[test]
fn constant_source_never_notifies() {
    let observed = vec![RoomStatus::Open; 10];
    let notified = replay_observations(RoomStatus::Open, &observed);
    assert!(notified.is_empty());
}
