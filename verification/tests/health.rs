use dcr::health::HealthState;
use std::sync::{Arc, Mutex};

#[test]
fn a_new_flag_is_healthy() {
    let health = HealthState::new();
    assert!(health.read());
}

#[test]
fn toggle_returns_the_new_value() {
    let mut health = HealthState::new();
    assert_eq!(health.toggle(), false);
    assert_eq!(health.read(), false);
    assert_eq!(health.toggle(), true);
    assert_eq!(health.read(), true);
}

#[test]
fn reading_does_not_change_the_flag() {
    let mut health = HealthState::new();
    health.toggle();
    for _ in 0..1000 {
        assert_eq!(health.read(), false);
    }
}

#[test]
fn the_flag_follows_the_parity_of_the_toggles() {
    for n in 0..64u32 {
        let mut health = HealthState::new();
        for _ in 0..n {
            health.toggle();
        }
        assert_eq!(health.read(), n % 2 == 0, "after {} toggles", n);
    }
}

#[test]
fn toggles_of_many_callers_are_all_counted() {
    for (callers, each) in [(4usize, 25usize), (3, 111), (8, 1), (5, 0), (1, 7)] {
        let shared = Arc::new(Mutex::new(HealthState::new()));
        let handles: Vec<Arc<Mutex<HealthState>>> =
            (0..callers).map(|_| Arc::clone(&shared)).collect();
        for round in 0..each {
            for turn in 0..callers {
                let caller = &handles[(turn * 3 + round) % callers];
                caller.lock().unwrap().toggle();
            }
        }
        let toggles = callers * each;
        assert_eq!(shared.lock().unwrap().read(), toggles % 2 == 0);
    }
}
