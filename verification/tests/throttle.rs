use login_guard::auth::attempts::{Attempt, AttemptTable};
use login_guard::auth::throttle::{
    count_failure, delay_for_failures, prune, taken_slot, LoginThrottle, FREE_ATTEMPTS,
    MAX_CONCURRENT_VERIFICATIONS, MAX_DELAY_SECS, MAX_TRACKED_USERNAMES, WINDOW_SECS,
};
use std::sync::Arc;
use std::time::Duration;
use tokio::sync::Semaphore;

const SECOND: u128 = 1_000_000_000;
const WINDOW: u128 = WINDOW_SECS as u128 * SECOND;

#[test]
fn first_attempts_are_not_delayed() {
    for failures in 0..=FREE_ATTEMPTS {
        assert_eq!(
            delay_for_failures(failures),
            Duration::ZERO,
            "failures={failures}"
        );
    }
}

#[test]
fn delay_doubles_then_stops_at_the_ceiling() {
    assert_eq!(delay_for_failures(FREE_ATTEMPTS + 1), Duration::from_secs(1));
    assert_eq!(delay_for_failures(FREE_ATTEMPTS + 2), Duration::from_secs(2));
    assert_eq!(delay_for_failures(FREE_ATTEMPTS + 3), Duration::from_secs(4));
    assert_eq!(delay_for_failures(FREE_ATTEMPTS + 4), Duration::from_secs(8));
    assert_eq!(delay_for_failures(FREE_ATTEMPTS + 5), Duration::from_secs(16));
    // 32s would be next, so the ceiling takes over here and stays.
    assert_eq!(
        delay_for_failures(FREE_ATTEMPTS + 6),
        Duration::from_secs(MAX_DELAY_SECS)
    );
    assert_eq!(
        delay_for_failures(FREE_ATTEMPTS + 40),
        Duration::from_secs(MAX_DELAY_SECS)
    );
}

/// A long attack must not wrap the shift back round to a short delay.
#[test]
fn absurd_failure_counts_stay_at_the_ceiling() {
    for failures in [u32::MAX, u32::MAX - 1, 1_000_000] {
        assert_eq!(
            delay_for_failures(failures),
            Duration::from_secs(MAX_DELAY_SECS),
            "failures={failures}"
        );
    }
}

#[test]
fn the_shift_never_wraps() {
    for excess in 6..200 {
        assert_eq!(
            delay_for_failures(FREE_ATTEMPTS + excess),
            Duration::from_secs(MAX_DELAY_SECS)
        );
    }
}

#[test]
fn unknown_username_is_not_delayed() {
    let t = LoginThrottle::new();
    assert_eq!(t.delay_for("nobody"), Duration::ZERO);
}

#[test]
fn failures_accumulate_into_a_delay() {
    let mut t = LoginThrottle::new();
    for _ in 0..FREE_ATTEMPTS {
        t.record_failure("admin");
    }
    assert_eq!(t.delay_for("admin"), Duration::ZERO, "still within the free attempts");

    t.record_failure("admin");
    assert_eq!(t.delay_for("admin"), Duration::from_secs(1));
    t.record_failure("admin");
    assert_eq!(t.delay_for("admin"), Duration::from_secs(2));
}

#[test]
fn a_successful_login_clears_the_count() {
    let mut t = LoginThrottle::new();
    for _ in 0..FREE_ATTEMPTS + 3 {
        t.record_failure("admin");
    }
    assert!(t.delay_for("admin") > Duration::ZERO);

    t.record_success("admin");
    assert_eq!(t.delay_for("admin"), Duration::ZERO);
    assert_eq!(t.tracked_usernames(), 0);
}

/// One account's failures must never delay another's login.
#[test]
fn throttling_one_username_leaves_the_others_alone() {
    let mut t = LoginThrottle::new();
    for _ in 0..FREE_ATTEMPTS + 5 {
        t.record_failure("admin");
    }
    assert!(t.delay_for("admin") > Duration::ZERO);
    assert_eq!(t.delay_for("alice"), Duration::ZERO);
}

#[test]
fn verification_slots_are_finite_and_returned_on_drop() {
    let t = LoginThrottle::new();
    let permits: Vec<_> = (0..MAX_CONCURRENT_VERIFICATIONS)
        .map(|i| {
            t.try_begin_verification()
                .unwrap_or_else(|| panic!("slot {i} should have been free"))
        })
        .collect();
    assert!(
        t.try_begin_verification().is_none(),
        "the cap must reject the attempt past the last slot"
    );

    drop(permits);
    assert!(
        t.try_begin_verification().is_some(),
        "slots must come back once the permits are dropped"
    );
}

/// Spraying distinct usernames must not grow the map without limit, and
/// must not be usable to flush out the account actually under attack.
#[test]
fn spraying_names_is_bounded_and_keeps_the_attacked_account() {
    let mut t = LoginThrottle::new();
    for _ in 0..FREE_ATTEMPTS + 6 {
        t.record_failure("admin");
    }
    let attacked = t.delay_for("admin");
    assert!(attacked > Duration::ZERO);

    for i in 0..MAX_TRACKED_USERNAMES * 2 {
        t.record_failure(&format!("sprayed-{i}"));
    }

    assert!(
        t.tracked_usernames() <= MAX_TRACKED_USERNAMES,
        "map grew past the cap: {}",
        t.tracked_usernames()
    );
    assert_eq!(
        t.delay_for("admin"),
        attacked,
        "the sprayed names must not evict the account under attack"
    );
}

#[test]
fn a_default_throttle_is_a_new_one() {
    let t = LoginThrottle::default();
    assert_eq!(t.tracked_usernames(), 0);
    assert!(t.try_begin_verification().is_some());
}

#[test]
fn the_throttle_reads_a_real_clock() {
    let mut t = LoginThrottle::new();
    for _ in 0..FREE_ATTEMPTS + 1 {
        t.record_failure_at("admin", 0);
    }
    // The count was made at the start of the clock and still stands.
    assert_eq!(t.delay_for("admin"), Duration::from_secs(1));
    assert_eq!(t.delay_for_at("admin", WINDOW), Duration::ZERO);
}

#[test]
fn a_count_stands_for_a_window_and_then_lapses() {
    let mut t = LoginThrottle::new();
    for _ in 0..FREE_ATTEMPTS + 2 {
        t.record_failure_at("admin", 5 * SECOND);
    }
    assert_eq!(t.delay_for_at("admin", 5 * SECOND), Duration::from_secs(2));
    assert_eq!(t.delay_for_at("admin", 5 * SECOND + WINDOW - 1), Duration::from_secs(2));
    assert_eq!(t.delay_for_at("admin", 5 * SECOND + WINDOW), Duration::ZERO);
    // A reading before the last failure counts as no time at all.
    assert_eq!(t.delay_for_at("admin", 0), Duration::from_secs(2));
}

#[test]
fn a_lapsed_count_starts_over() {
    let mut t = LoginThrottle::new();
    for _ in 0..FREE_ATTEMPTS + 2 {
        t.record_failure_at("admin", 0);
    }
    t.record_failure_at("admin", WINDOW);
    assert_eq!(t.delay_for_at("admin", WINDOW), Duration::ZERO);
    for _ in 0..FREE_ATTEMPTS {
        t.record_failure_at("admin", WINDOW);
    }
    assert_eq!(t.delay_for_at("admin", WINDOW), Duration::from_secs(1));
}

#[test]
fn a_failure_renews_the_window() {
    let mut t = LoginThrottle::new();
    for i in 0..FREE_ATTEMPTS + 1 {
        t.record_failure_at("admin", i as u128 * (WINDOW - 1));
    }
    let last = FREE_ATTEMPTS as u128 * (WINDOW - 1);
    assert_eq!(t.delay_for_at("admin", last), Duration::from_secs(1));
}

#[test]
fn clearing_one_account_leaves_the_others() {
    let mut t = LoginThrottle::new();
    for _ in 0..FREE_ATTEMPTS + 2 {
        t.record_failure_at("admin", 0);
        t.record_failure_at("alice", 0);
        t.record_failure_at("bob", 0);
    }
    t.record_success("admin");
    t.record_success("nobody");
    assert_eq!(t.delay_for_at("admin", 0), Duration::ZERO);
    assert_eq!(t.delay_for_at("alice", 0), Duration::from_secs(2));
    assert_eq!(t.delay_for_at("bob", 0), Duration::from_secs(2));
    assert_eq!(t.tracked_usernames(), 2);
}

#[test]
fn lapsed_names_stay_until_the_table_is_half_full() {
    let mut t = LoginThrottle::new();
    for i in 0..MAX_TRACKED_USERNAMES / 2 {
        t.record_failure_at(&format!("old-{i}"), 0);
    }
    assert_eq!(t.tracked_usernames(), MAX_TRACKED_USERNAMES / 2);
    t.record_failure_at("new", WINDOW);
    assert_eq!(t.tracked_usernames(), 1);
}

#[test]
fn below_half_the_cap_nothing_is_pruned() {
    let mut table = AttemptTable::new();
    for i in 0..MAX_TRACKED_USERNAMES / 2 - 1 {
        table.insert(&format!("old-{i}"), Attempt { failures: 1, last_seen: 0 });
    }
    prune(&mut table, WINDOW);
    assert_eq!(table.len(), MAX_TRACKED_USERNAMES / 2 - 1);
}

#[test]
fn a_full_table_keeps_its_more_suspicious_half() {
    let mut table = AttemptTable::new();
    for i in 0..MAX_TRACKED_USERNAMES {
        table.insert(
            &format!("name-{i}"),
            Attempt { failures: 1 + (i as u32 * 7) % 4096, last_seen: 0 },
        );
    }
    prune(&mut table, 1);
    assert_eq!(table.len(), MAX_TRACKED_USERNAMES / 2);
    for i in 0..MAX_TRACKED_USERNAMES {
        let failures = 1 + (i as u32 * 7) % 4096;
        let kept = table.get(&format!("name-{i}"));
        assert_eq!(kept.is_some(), failures > 2048, "failures={failures}");
        if let Some(a) = kept {
            assert_eq!(a, Attempt { failures, last_seen: 0 });
        }
    }
}

#[test]
fn counts_saturate() {
    let full = Attempt { failures: u32::MAX, last_seen: 3 };
    assert_eq!(count_failure(Some(full), 5), Attempt { failures: u32::MAX, last_seen: 5 });
    let nearly = Attempt { failures: u32::MAX - 1, last_seen: 3 };
    assert_eq!(count_failure(Some(nearly), 5), Attempt { failures: u32::MAX, last_seen: 5 });
    assert_eq!(delay_for_failures(u32::MAX), Duration::from_secs(MAX_DELAY_SECS));
}

#[test]
fn a_failure_is_counted_from_what_was_remembered() {
    let window = WINDOW_SECS as u128 * 1_000_000_000;
    let one = |now| Attempt { failures: 1, last_seen: now };
    assert_eq!(count_failure(None, 9), one(9));
    let seen = Some(Attempt { failures: 6, last_seen: 4 });
    assert_eq!(count_failure(seen, 9), Attempt { failures: 7, last_seen: 9 });
    assert_eq!(
        count_failure(seen, 3 + window),
        Attempt { failures: 7, last_seen: 3 + window }
    );
    assert_eq!(count_failure(seen, 4 + window), one(4 + window));
}

#[test]
fn the_table_survives_removals_in_any_order() {
    let mut table = AttemptTable::new();
    for i in 0..50u32 {
        table.insert(&format!("n{i}"), Attempt { failures: i, last_seen: i as u128 });
    }
    for i in (0..50u32).filter(|i| i % 3 != 1) {
        table.remove(&format!("n{i}"));
    }
    for i in 0..50u32 {
        let expected = if i % 3 == 1 {
            Some(Attempt { failures: i, last_seen: i as u128 })
        } else {
            None
        };
        assert_eq!(table.get(&format!("n{i}")), expected);
    }
    assert_eq!(table.len(), 17);
    table.evict_to(5);
    assert_eq!(table.len(), 5);
    for i in [37u32, 40, 43, 46, 49] {
        assert_eq!(table.get(&format!("n{i}")).unwrap().failures, i);
    }
    table.drop_idle(50, 5);
    assert_eq!(table.len(), 2);
    assert!(table.get("n46").is_some() && table.get("n49").is_some());
}

#[test]
fn idle_time_is_counted_from_the_last_failure() {
    let a = Attempt { failures: 1, last_seen: 10 };
    assert_eq!(a.idle(25), 15);
    assert_eq!(a.idle(10), 0);
    assert_eq!(a.idle(3), 0);
}

#[test]
fn a_slot_is_taken_exactly_when_one_was_handed_out() {
    let semaphore = Arc::new(Semaphore::new(1));
    let slot = taken_slot(semaphore.clone().try_acquire_owned());
    assert!(slot.is_some());
    assert_eq!(semaphore.available_permits(), 0);
    assert!(taken_slot(semaphore.clone().try_acquire_owned()).is_none());
    drop(slot);
    assert_eq!(semaphore.available_permits(), 1);
    semaphore.close();
    assert!(taken_slot(semaphore.try_acquire_owned()).is_none());
}
