use sreader::playback::{PlaybackState, ReadRate, Swap, SECOND, STANDARD_RATE};

#[test]
fn a_rate_is_never_zero() {
    assert!(ReadRate::new(0).is_none());
    assert_eq!(ReadRate::new(1).unwrap().per_second(), 1);
    assert_eq!(ReadRate::new(u32::MAX).unwrap().per_second(), u32::MAX);
    assert_eq!(ReadRate::standard().per_second(), 6);
    assert_eq!(STANDARD_RATE, 6);
}

#[test]
fn the_interval_is_a_share_of_a_second() {
    assert_eq!(SECOND, 1_000_000_000);
    assert_eq!(ReadRate::standard().interval_nanos(), 166_666_666);
    assert_eq!(ReadRate::new(1).unwrap().interval_nanos(), 1_000_000_000);
    assert_eq!(ReadRate::new(2).unwrap().interval_nanos(), 500_000_000);
    assert_eq!(ReadRate::new(3).unwrap().interval_nanos(), 333_333_333);
    assert_eq!(ReadRate::new(u32::MAX).unwrap().interval_nanos(), 0);
    assert_eq!(
        ReadRate::standard().interval_nanos() as u128,
        (std::time::Duration::from_secs(1) / 6).as_nanos()
    );
}

#[test]
fn playback_starts_switched_off() {
    let playback = PlaybackState::new(ReadRate::standard());
    assert!(!playback.is_active());
    assert_eq!(playback.handle(), None);
    assert_eq!(playback.interval_nanos(), 166_666_666);
    assert!(!playback.drives(0));
}

#[test]
fn toggle_starts_a_task() {
    let mut playback = PlaybackState::new(ReadRate::standard());
    assert_eq!(playback.toggle(), Swap { cancel: None, spawn: Some(0) });
    assert!(playback.is_active());
    assert_eq!(playback.handle(), Some(0));
    assert!(playback.drives(0));
    assert!(!playback.drives(1));
}

#[test]
fn toggle_twice_leaves_playback_off_and_no_task() {
    let mut playback = PlaybackState::new(ReadRate::standard());
    let start = playback.toggle();
    let stop = playback.toggle();
    assert_eq!(start, Swap { cancel: None, spawn: Some(0) });
    assert_eq!(stop, Swap { cancel: Some(0), spawn: None });
    assert!(!playback.is_active());
    assert_eq!(playback.handle(), None);
    assert!(!playback.drives(0));
}

#[test]
fn every_start_cancels_what_ran_before_and_takes_a_new_number() {
    let mut playback = PlaybackState::new(ReadRate::standard());
    let mut alive: Vec<u64> = Vec::new();
    for round in 0..6u64 {
        let swap = playback.toggle();
        if let Some(task) = swap.cancel {
            alive.retain(|other| *other != task);
        }
        if let Some(task) = swap.spawn {
            alive.push(task);
        }
        assert!(alive.len() <= 1);
        if round % 2 == 0 {
            assert_eq!(swap, Swap { cancel: None, spawn: Some(round / 2) });
            assert_eq!(alive, vec![round / 2]);
            assert!(playback.is_active());
        } else {
            assert_eq!(swap, Swap { cancel: Some(round / 2), spawn: None });
            assert!(alive.is_empty());
            assert!(!playback.is_active());
        }
    }
}

#[test]
fn stop_cancels_the_task_held() {
    let mut playback = PlaybackState::new(ReadRate::standard());
    assert_eq!(playback.stop(), Swap { cancel: None, spawn: None });
    playback.toggle();
    assert_eq!(playback.stop(), Swap { cancel: Some(0), spawn: None });
    assert!(!playback.is_active());
    assert_eq!(playback.handle(), None);
    assert_eq!(playback.toggle(), Swap { cancel: None, spawn: Some(1) });
}
