//! What the throttle promises as a whole: of its schedule, of one account
//! against another, and of every run of failures and successes.

use std::sync::Arc;
use std::time::{Duration, Instant};

use tokio::sync::{OwnedSemaphorePermit, Semaphore, TryAcquireError};
use vstd::arithmetic::power2::{
    lemma2_to64, lemma_pow2_strictly_increases, lemma_pow2_unfold,
};
use vstd::prelude::*;
use vstd::set_lib::{lemma_len_subset, lemma_set_subset_finite};

use crate::auth::attempts::{Attempt, Attempts};
use crate::auth::throttle::{
    count_failure, delay_at, delay_for_failures, delay_secs, failure_counted, is_answer, lapsed,
    law_pruning_makes_room, one_more_failure, pruned, semaphore_size, standing, LoginThrottle,
    FREE_ATTEMPTS, MAX_DELAY_SECS, MAX_TRACKED_USERNAMES,
};
use crate::clock::{duration_nanos, is_reading, NANOS_PER_SEC};

verus! {

/// The schedule: the first attempts are free, the next owes one second, and
/// from there each failure doubles the delay until the ceiling is reached.
pub proof fn law_delay_doubles_to_the_ceiling(failures: nat)
    ensures
        failures <= FREE_ATTEMPTS ==> delay_secs(failures) == 0,
        delay_secs(FREE_ATTEMPTS as nat + 1) == 1,
        failures > FREE_ATTEMPTS ==> delay_secs(failures + 1) == (if 2 * delay_secs(failures)
            < MAX_DELAY_SECS {
            2 * delay_secs(failures)
        } else {
            MAX_DELAY_SECS as nat
        }),
{
    lemma2_to64();
    if failures > FREE_ATTEMPTS {
        lemma_pow2_unfold((failures - FREE_ATTEMPTS) as nat);
    }
}

/// More failures never owe less, and no number of them owes more than the
/// ceiling.
pub proof fn law_delay_never_falls(fewer: nat, more: nat)
    requires
        fewer <= more,
    ensures
        delay_secs(fewer) <= delay_secs(more) <= MAX_DELAY_SECS,
{
    if fewer > FREE_ATTEMPTS && fewer < more {
        lemma_pow2_strictly_increases(
            (fewer - FREE_ATTEMPTS - 1) as nat,
            (more - FREE_ATTEMPTS - 1) as nat,
        );
    }
}

/// From the sixth failure past the free ones on, the delay stays at the
/// ceiling however long the attack goes on.
pub proof fn law_delay_stays_at_the_ceiling(failures: nat)
    requires
        failures >= FREE_ATTEMPTS + 6,
    ensures
        delay_secs(failures) == MAX_DELAY_SECS,
{
    lemma2_to64();
    law_delay_never_falls(FREE_ATTEMPTS as nat + 6, failures);
}

/// A successful login clears the account's delay at every time and touches no
/// other account.
pub proof fn law_success_clears_one_account(
    table: Attempts,
    name: Seq<char>,
    other: Seq<char>,
    now: u128,
)
    ensures
        delay_at(table.remove(name), name, now) == 0,
        other != name ==> delay_at(table.remove(name), other, now) == delay_at(table, other, now),
{
}

/// Once a window has passed without a failure nothing is owed, and it stays so.
pub proof fn law_a_count_lapses(table: Attempts, name: Seq<char>, now: u128, later: u128)
    requires
        table.contains_key(name),
        lapsed(table[name], now),
        now <= later,
    ensures
        delay_at(table, name, now) == 0,
        delay_at(table, name, later) == 0,
{
}

/// The state between pruning and counting.
proof fn lemma_kept(before: Attempts, after: Attempts, name: Seq<char>, now: u128) -> (kept:
    Attempts)
    requires
        before.dom().finite(),
        failure_counted(before, after, name, now),
    ensures
        pruned(before, kept, now),
        after == kept.insert(name, one_more_failure(kept, name, now)),
        kept.dom().finite(),
        kept.len() < MAX_TRACKED_USERNAMES,
        forall|other: Seq<char>| #[trigger]
            kept.contains_key(other) ==> before.contains_key(other) && kept[other] == before[other],
{
    let kept = choose|kept: Attempts| #[trigger]
        pruned(before, kept, now) && after == kept.insert(name, one_more_failure(kept, name, now));
    law_pruning_makes_room(before, kept, now);
    assert forall|other: Seq<char>| #[trigger] kept.contains_key(other) implies before.contains_key(
        other,
    ) && kept[other] == before[other] by {
        assert(kept.dom().contains(other) && before.dom().contains(other));
    }
    kept
}

/// One account's failure never makes another wait longer, at any time.
pub proof fn law_failures_never_delay_others(
    before: Attempts,
    after: Attempts,
    name: Seq<char>,
    now: u128,
    other: Seq<char>,
    at: u128,
)
    requires
        before.dom().finite(),
        failure_counted(before, after, name, now),
        other != name,
    ensures
        delay_at(after, other, at) <= delay_at(before, other, at),
        after.contains_key(other) ==> before.contains_key(other) && after[other] == before[other],
{
    let kept = lemma_kept(before, after, name, now);
    assert(after.contains_key(other) ==> kept.contains_key(other));
}

/// The other standing names with at least as many failures as `name`.
pub open spec fn rivals(table: Attempts, name: Seq<char>, now: u128) -> Set<Seq<char>> {
    Set::new(
        |other: Seq<char>|
            other != name && table.contains_key(other) && !lapsed(table[other], now)
                && table[other].failures >= table[name].failures,
    )
}

/// Pruning keeps an account whose count stands unless half a table of others
/// have at least as many failures: spraying names cannot flush it out.
pub proof fn law_attacked_account_is_kept(
    before: Attempts,
    after: Attempts,
    name: Seq<char>,
    now: u128,
)
    requires
        before.dom().finite(),
        pruned(before, after, now),
        before.contains_key(name),
        !lapsed(before[name], now),
        rivals(before, name, now).len() < MAX_TRACKED_USERNAMES / 2,
    ensures
        after.contains_key(name),
        after[name] == before[name],
{
    let current = standing(before, now);
    law_pruning_makes_room(before, after, now);
    assert(current.contains_key(name));
    if !after.contains_key(name) {
        let others = rivals(before, name, now);
        assert forall|stayed: Seq<char>| #[trigger] after.dom().contains(
            stayed,
        ) implies others.contains(stayed) by {
            assert(after.contains_key(stayed));
            assert(current.dom().contains(stayed));
            assert(current[name].failures <= after[stayed].failures);
        }
        assert(others.subset_of(before.dom()));
        lemma_set_subset_finite(before.dom(), others);
        lemma_len_subset(after.dom(), others);
        assert(false);
    }
    assert(after.dom().contains(name) && before.dom().contains(name));
}

/// Such an account also goes on adding up, full table or not: each further
/// failure raises its count by one.
pub proof fn law_attacked_account_adds_up(
    before: Attempts,
    after: Attempts,
    name: Seq<char>,
    now: u128,
)
    requires
        before.dom().finite(),
        failure_counted(before, after, name, now),
        before.contains_key(name),
        !lapsed(before[name], now),
        rivals(before, name, now).len() < MAX_TRACKED_USERNAMES / 2,
        before[name].failures < u32::MAX,
    ensures
        after.contains_key(name),
        after[name].failures == before[name].failures + 1,
        after[name].last_seen == now,
{
    let kept = lemma_kept(before, after, name, now);
    law_attacked_account_is_kept(before, kept, name, now);
}

/// What happens to the throttle.
pub enum Event {
    /// A failed attempt for `name` at `now`.
    Failure { name: Seq<char>, now: u128 },
    /// A successful login of `name`.
    Success { name: Seq<char> },
}

/// `after` is what `event` may leave of `before`.
pub open spec fn happened(before: Attempts, after: Attempts, event: Event) -> bool {
    match event {
        Event::Failure { name, now } => failure_counted(before, after, name, now),
        Event::Success { name } => after == before.remove(name),
    }
}

/// `tables` are the states that a new throttle goes through as `events` happen.
pub open spec fn is_run(tables: Seq<Attempts>, events: Seq<Event>) -> bool {
    &&& tables.len() == events.len() + 1
    &&& tables[0] == Attempts::empty()
    &&& forall|i: int|
        #![trigger events[i]]
        0 <= i < events.len() ==> happened(tables[i], tables[i + 1], events[i])
}

/// However many names are tried, and in whatever order, the table never holds
/// more than its cap.
pub proof fn law_table_is_bounded(tables: Seq<Attempts>, events: Seq<Event>, at: int)
    requires
        is_run(tables, events),
        0 <= at <= events.len(),
    ensures
        tables[at].dom().finite(),
        tables[at].len() <= MAX_TRACKED_USERNAMES,
    decreases at,
{
    if at > 0 {
        law_table_is_bounded(tables, events, at - 1);
        assert(happened(tables[at - 1], tables[at], events[at - 1]));
        match events[at - 1] {
            Event::Failure { name, now } => {
                let kept = lemma_kept(tables[at - 1], tables[at], name, now);
            },
            Event::Success { name } => {},
        }
    }
}

/// What the first `upto` events leave to be remembered of `name` alone: its
/// own failures since its last success, a lapsed count starting over.
pub open spec fn own_history(events: Seq<Event>, upto: int, name: Seq<char>) -> Option<Attempt>
    decreases upto,
{
    if upto <= 0 {
        None
    } else {
        let earlier = own_history(events, upto - 1, name);
        match events[upto - 1] {
            Event::Failure { name: failed, now } => if failed == name {
                let failures = match earlier {
                    Some(a) => if now >= a.last_seen + 900 * 1_000_000_000 {
                        1
                    } else if a.failures < u32::MAX {
                        (a.failures + 1) as u32
                    } else {
                        u32::MAX
                    },
                    None => 1,
                };
                Some(Attempt { failures, last_seen: now })
            } else {
                earlier
            },
            Event::Success { name: cleared } => if cleared == name {
                None
            } else {
                earlier
            },
        }
    }
}

/// No failure among the first `upto` events lies after `now`.
pub open spec fn none_after(events: Seq<Event>, upto: int, now: u128) -> bool {
    forall|i: int|
        #![trigger events[i]]
        0 <= i < upto ==> (events[i] matches Event::Failure { name, now: t } ==> t <= now)
}

/// The clock never runs backwards from one event to the next.
pub open spec fn clock_is_monotonic(events: Seq<Event>) -> bool {
    forall|i: int|
        #![trigger events[i]]
        0 <= i < events.len() ==> (events[i] matches Event::Failure { name, now } ==> none_after(
            events,
            i,
            now,
        ))
}

/// No failure meets a table whose standing entries have reached the cap.
pub open spec fn stays_below_capacity(tables: Seq<Attempts>, events: Seq<Event>) -> bool {
    forall|i: int|
        #![trigger events[i]]
        0 <= i < events.len() ==> (events[i] matches Event::Failure { name, now } ==> standing(
            tables[i],
            now,
        ).len() < MAX_TRACKED_USERNAMES)
}

/// `entry` is what the table holds of `name`; where the table holds nothing of
/// it, there is no entry or it has lapsed at `now`.
spec fn holds(table: Attempts, name: Seq<char>, entry: Option<Attempt>, now: u128) -> bool {
    if table.contains_key(name) {
        entry == Some(table[name])
    } else {
        entry matches Some(a) ==> lapsed(a, now)
    }
}

/// As long as the table stays below capacity, what an account owes is decided
/// by its own history alone: its failures add up, a success clears them, a
/// quiet window lapses them, and nobody else's attempts count.
pub proof fn law_own_history_decides(
    tables: Seq<Attempts>,
    events: Seq<Event>,
    at: int,
    name: Seq<char>,
    now: u128,
)
    requires
        is_run(tables, events),
        clock_is_monotonic(events),
        stays_below_capacity(tables, events),
        0 <= at <= events.len(),
        none_after(events, at, now),
    ensures
        delay_at(tables[at], name, now) == match own_history(events, at, name) {
            Some(a) => if now >= a.last_seen + 900 * 1_000_000_000 {
                0
            } else {
                delay_secs(a.failures as nat)
            },
            None => 0,
        },
{
    lemma_table_holds_history(tables, events, at, name, now);
}

proof fn lemma_table_holds_history(
    tables: Seq<Attempts>,
    events: Seq<Event>,
    at: int,
    name: Seq<char>,
    now: u128,
)
    requires
        is_run(tables, events),
        clock_is_monotonic(events),
        stays_below_capacity(tables, events),
        0 <= at <= events.len(),
        none_after(events, at, now),
    ensures
        holds(tables[at], name, own_history(events, at, name), now),
    decreases at,
{
    if at > 0 {
        let before = tables[at - 1];
        let after = tables[at];
        assert(happened(before, after, events[at - 1]));
        law_table_is_bounded(tables, events, at - 1);
        match events[at - 1] {
            Event::Failure { name: failed, now: t } => {
                assert(none_after(events, at - 1, t));
                lemma_table_holds_history(tables, events, at - 1, name, t);
                let kept = lemma_kept(before, after, failed, t);
                assert(kept == before || kept == standing(before, t));
                assert(before.contains_key(name) && !kept.contains_key(name) ==> lapsed(
                    before[name],
                    t,
                ));
            },
            Event::Success { name: cleared } => {
                assert(none_after(events, at - 1, now));
                lemma_table_holds_history(tables, events, at - 1, name, now);
            },
        }
    }
}

/// `tables` are the states that failures of `names`, one after the other at
/// `times`, lead through; the names are all different, none of them is in the
/// first state, and none is `victim`.
pub open spec fn is_spray(
    tables: Seq<Attempts>,
    names: Seq<Seq<char>>,
    times: Seq<u128>,
    victim: Seq<char>,
) -> bool {
    &&& tables.len() == names.len() + 1
    &&& times.len() == names.len()
    &&& names.no_duplicates()
    &&& forall|i: int|
        #![trigger names[i]]
        0 <= i < names.len() ==> names[i] != victim && !tables[0].contains_key(names[i])
            && failure_counted(tables[i], tables[i + 1], names[i], times[i])
}

/// `victim` has failed at least twice, and more often than every other name.
pub open spec fn is_most_suspicious(table: Attempts, victim: Seq<char>) -> bool {
    &&& table.contains_key(victim)
    &&& table[victim].failures >= 2
    &&& forall|other: Seq<char>| #[trigger]
        table.contains_key(other) && other != victim ==> table[other].failures
            < table[victim].failures
}

/// Spraying fresh names, however many, never evicts the account under attack:
/// one that failed at least twice, and more often than every other, keeps its
/// entry as long as its own count stands.
pub proof fn law_spraying_keeps_the_attacked_account(
    tables: Seq<Attempts>,
    names: Seq<Seq<char>>,
    times: Seq<u128>,
    victim: Seq<char>,
    at: int,
)
    requires
        is_spray(tables, names, times, victim),
        tables[0].dom().finite(),
        is_most_suspicious(tables[0], victim),
        forall|i: int|
            0 <= i < times.len() ==> !lapsed(tables[0][victim], #[trigger] times[i]),
        0 <= at <= names.len(),
    ensures
        tables[at].contains_key(victim),
        tables[at][victim] == tables[0][victim],
{
    lemma_spray(tables, names, times, victim, at);
}

proof fn lemma_spray(
    tables: Seq<Attempts>,
    names: Seq<Seq<char>>,
    times: Seq<u128>,
    victim: Seq<char>,
    at: int,
)
    requires
        is_spray(tables, names, times, victim),
        tables[0].dom().finite(),
        is_most_suspicious(tables[0], victim),
        forall|i: int|
            0 <= i < times.len() ==> !lapsed(tables[0][victim], #[trigger] times[i]),
        0 <= at <= names.len(),
    ensures
        tables[at].dom().finite(),
        is_most_suspicious(tables[at], victim),
        tables[at][victim] == tables[0][victim],
        forall|i: int| at <= i < names.len() ==> !tables[at].contains_key(#[trigger] names[i]),
    decreases at,
{
    if at > 0 {
        lemma_spray(tables, names, times, victim, at - 1);
        let before = tables[at - 1];
        let name = names[at - 1];
        let now = times[at - 1];
        let kept = lemma_kept(before, tables[at], name, now);
        assert(rivals(before, victim, now) =~= Set::empty());
        law_attacked_account_is_kept(before, kept, victim, now);
        assert(!kept.contains_key(name));
    }
}

/// The schedule in seconds: three free failures, then 1, 2, 4, 8 and 16, and 30
/// from there on.
pub proof fn law_schedule_in_seconds(failures: nat)
    ensures
        failures <= 3 ==> delay_secs(failures) == 0,
        failures == 4 ==> delay_secs(failures) == 1,
        failures == 5 ==> delay_secs(failures) == 2,
        failures == 6 ==> delay_secs(failures) == 4,
        failures == 7 ==> delay_secs(failures) == 8,
        failures == 8 ==> delay_secs(failures) == 16,
        failures >= 9 ==> delay_secs(failures) == 30,
{
    lemma2_to64();
    if failures >= 9 {
        law_delay_stays_at_the_ceiling(failures);
    }
}

/// The delay that is handed out for a number of failures has the length that
/// the schedule gives.
pub proof fn law_delay_has_its_length(failures: u32, d: Duration)
    requires
        call_ensures(delay_for_failures, (failures,), d),
    ensures
        failures <= 3 ==> duration_nanos(d) == 0,
        failures == 4 ==> duration_nanos(d) == 1_000_000_000,
        failures == 5 ==> duration_nanos(d) == 2_000_000_000,
        failures == 6 ==> duration_nanos(d) == 4_000_000_000,
        failures == 7 ==> duration_nanos(d) == 8_000_000_000,
        failures == 8 ==> duration_nanos(d) == 16_000_000_000,
        failures >= 9 ==> duration_nanos(d) == 30_000_000_000,
{
    law_schedule_in_seconds(failures as nat);
}

/// A count stands for 900 seconds after the last failure and then nothing is
/// owed, whatever the count; for an unknown name nothing ever is.
pub proof fn law_a_count_stands_for_the_window(table: Attempts, name: Seq<char>, now: u128)
    ensures
        !table.contains_key(name) ==> delay_at(table, name, now) == 0,
        table.contains_key(name) && now >= table[name].last_seen + 900 * 1_000_000_000 ==> delay_at(
            table,
            name,
            now,
        ) == 0,
        table.contains_key(name) && now < table[name].last_seen + 900 * 1_000_000_000 ==> delay_at(
            table,
            name,
            now,
        ) == delay_secs(table[name].failures as nat),
{
}

/// The wait that a throttle asks for at a given time: none for a name that it
/// does not hold or that last failed 900 seconds ago, else what the schedule
/// gives for its failures.
pub proof fn law_wait_at_a_time(t: &LoginThrottle, username: &str, now: u128, d: Duration)
    requires
        call_ensures(LoginThrottle::delay_for_at, (t, username, now), d),
    ensures
        ({
            let held = t@.contains_key(username@);
            let entry = t@[username@];
            if held && now < entry.last_seen + 900 * 1_000_000_000 {
                duration_nanos(d) == delay_secs(entry.failures as nat) * 1_000_000_000
            } else {
                duration_nanos(d) == 0
            }
        }),
{
    law_a_count_stands_for_the_window(t@, username@, now);
}

/// The wait that a throttle asks for is the one at the time that has elapsed
/// since its clock started.
pub proof fn law_wait_follows_the_clock(t: &LoginThrottle, username: &str, d: Duration)
    requires
        call_ensures(LoginThrottle::delay_for, (t, username), d),
    ensures
        exists|elapsed: Duration| #[trigger]
            call_ensures(Instant::elapsed, (&t.start(),), elapsed) && duration_nanos(d) == (
            if t@.contains_key(username@) && duration_nanos(elapsed) < t@[username@].last_seen + 900
                * 1_000_000_000 {
                delay_secs(t@[username@].failures as nat) * 1_000_000_000
            } else {
                0
            }),
{
    let now = choose|now: u128| #[trigger]
        is_reading(t.start(), now) && duration_nanos(d) == delay_at(t@, username@, now)
            * NANOS_PER_SEC;
    law_a_count_stands_for_the_window(t@, username@, now);
    let elapsed = choose|elapsed: Duration| #[trigger]
        call_ensures(Instant::elapsed, (&t.start(),), elapsed) && now == duration_nanos(elapsed);
    assert(call_ensures(Instant::elapsed, (&t.start(),), elapsed));
}

/// One more failure is stamped with its time and counts as one more than a
/// count that is younger than 900 seconds; any other count starts at one.
pub proof fn law_counting_one_more(previous: Option<Attempt>, now: u128, attempt: Attempt)
    requires
        call_ensures(count_failure, (previous, now), attempt),
    ensures
        attempt.last_seen == now,
        previous is None ==> attempt.failures == 1,
        previous matches Some(a) ==> {
            &&& now >= a.last_seen + 900 * 1_000_000_000 ==> attempt.failures == 1
            &&& now < a.last_seen + 900 * 1_000_000_000 && a.failures < u32::MAX
                ==> attempt.failures == a.failures + 1
            &&& now < a.last_seen + 900 * 1_000_000_000 && a.failures == u32::MAX
                ==> attempt.failures == u32::MAX
        },
{
}

/// What pruning does, in numbers. Below 2048 names it leaves the table alone.
/// From there on no entry stays whose last failure is 900 seconds old, and one
/// that is younger goes only where 4096 or more are; then 2048 stay, and none
/// of those that go had more failures than one that stays.
pub proof fn law_pruning_in_numbers(before: Attempts, after: Attempts, now: u128)
    requires
        before.dom().finite(),
        pruned(before, after, now),
    ensures
        forall|n: Seq<char>| #[trigger]
            after.contains_key(n) ==> before.contains_key(n) && after[n] == before[n],
        before.len() < 2048 ==> after == before,
        before.len() >= 2048 ==> forall|n: Seq<char>| #[trigger]
            after.contains_key(n) ==> now < before[n].last_seen + 900 * 1_000_000_000,
        ({
            let young = before.dom().filter(
                |n: Seq<char>| now < before[n].last_seen + 900 * 1_000_000_000,
            );
            &&& young.len() < 4096 ==> forall|n: Seq<char>| #[trigger]
                young.contains(n) ==> after.contains_key(n)
            &&& young.len() >= 4096 ==> after.len() == 2048
            &&& forall|gone: Seq<char>, stayed: Seq<char>|
                #![trigger young.contains(gone), after.contains_key(stayed)]
                young.contains(gone) && !after.contains_key(gone) && after.contains_key(stayed)
                    ==> before[gone].failures <= before[stayed].failures
        }),
{
    let young = before.dom().filter(|n: Seq<char>| now < before[n].last_seen + 900 * 1_000_000_000);
    let current = standing(before, now);
    assert(current.dom() =~= young);
    lemma_len_subset(young, before.dom());
    law_pruning_makes_room(before, after, now);
    assert forall|n: Seq<char>| #[trigger] after.contains_key(n) implies before.contains_key(n)
        && after[n] == before[n] by {
        assert(after.dom().contains(n) && before.dom().contains(n));
    }
    assert forall|n: Seq<char>| #[trigger] after.contains_key(n) && before.len()
        >= 2048 implies now < before[n].last_seen + 900 * 1_000_000_000 by {
        assert(after.dom().contains(n) ==> current.dom().contains(n));
        assert(young.contains(n));
    }
    assert forall|n: Seq<char>| #[trigger] young.contains(n) implies current.contains_key(n) by {
        assert(current.dom().contains(n));
    }
}

/// What counting a failure does, in numbers. The name is held afterwards, with
/// the time of the failure and a count of at least one. The count is one where
/// no entry younger than 900 seconds was held before; else it is one more,
/// unless the entry was evicted from a full table. Every other name is left as
/// pruning leaves it.
pub proof fn law_failure_in_numbers(
    before: Attempts,
    after: Attempts,
    name: Seq<char>,
    now: u128,
)
    requires
        before.dom().finite(),
        failure_counted(before, after, name, now),
    ensures
        after.contains_key(name),
        after[name].last_seen == now,
        after[name].failures >= 1,
        !(before.contains_key(name) && now < before[name].last_seen + 900 * 1_000_000_000)
            ==> after[name].failures == 1,
        before.contains_key(name) && now < before[name].last_seen + 900 * 1_000_000_000
            && before.len() < 4096 ==> after[name].failures == (if before[name].failures < u32::MAX {
            before[name].failures + 1
        } else {
            u32::MAX as int
        }),
        exists|kept: Attempts| #[trigger]
            pruned(before, kept, now) && after.remove(name) == kept.remove(name)
                && after[name].failures == (if kept.contains_key(name) && now < kept[name].last_seen
                + 900 * 1_000_000_000 {
                if kept[name].failures < u32::MAX {
                    kept[name].failures + 1
                } else {
                    u32::MAX as int
                }
            } else {
                1
            }),
{
    let kept = lemma_kept(before, after, name, now);
    law_pruning_in_numbers(before, kept, now);
    let young = before.dom().filter(|n: Seq<char>| now < before[n].last_seen + 900 * 1_000_000_000);
    lemma_len_subset(young, before.dom());
    if before.contains_key(name) && now < before[name].last_seen + 900 * 1_000_000_000
        && before.len() < 4096 {
        assert(young.contains(name));
    }
    assert(after.remove(name) =~= kept.remove(name));
    assert(pruned(before, kept, now));
}

/// `tables` are the states, each below 4096 names, that failures of `name` at
/// `times` lead through; each comes less than 900 seconds after the one before.
pub open spec fn is_streak(tables: Seq<Attempts>, times: Seq<u128>, name: Seq<char>) -> bool {
    &&& tables.len() == times.len() + 1
    &&& forall|i: int|
        #![trigger times[i]]
        0 <= i < times.len() ==> {
            &&& tables[i].dom().finite()
            &&& tables[i].len() < 4096
            &&& failure_counted(tables[i], tables[i + 1], name, times[i])
        }
    &&& forall|i: int, j: int|
        #![trigger times[i], times[j]]
        0 <= i && j == i + 1 && j < times.len() ==> times[i] <= times[j] < times[i] + 900
            * 1_000_000_000
}

/// Failures add up: as long as the table is below 4096 names, a name that it
/// did not hold and that fails `k` times, each less than 900 seconds after the
/// one before, has a count of `k` and owes what the schedule gives for `k`,
/// whenever the first of them was.
pub proof fn law_failures_add_up(
    tables: Seq<Attempts>,
    times: Seq<u128>,
    name: Seq<char>,
    k: int,
)
    requires
        is_streak(tables, times, name),
        !tables[0].contains_key(name),
        0 < k <= times.len(),
        k <= u32::MAX,
    ensures
        tables[k].contains_key(name),
        tables[k][name].failures == k,
        tables[k][name].last_seen == times[k - 1],
        delay_at(tables[k], name, times[k - 1]) == delay_secs(k as nat),
    decreases k,
{
    assert(failure_counted(tables[k - 1], tables[k - 1 + 1], name, times[k - 1]));
    if k > 1 {
        law_failures_add_up(tables, times, name, k - 1);
        assert(times[k - 2] <= times[k - 1] < times[k - 2] + 900 * 1_000_000_000);
    }
    law_failure_in_numbers(tables[k - 1], tables[k], name, times[k - 1]);
    law_a_count_stands_for_the_window(tables[k], name, times[k - 1]);
}

/// A new throttle holds nothing, has four verification slots, and its clock
/// starts now.
pub proof fn law_a_new_throttle(t: LoginThrottle)
    requires
        call_ensures(LoginThrottle::new, (), t),
    ensures
        forall|name: Seq<char>| !#[trigger] t@.contains_key(name),
        semaphore_size(t.slots()) == 4,
        call_ensures(Instant::now, (), t.start()),
{
}

/// No throttle holds more than 4096 names or has other than four slots.
pub proof fn law_limits_in_numbers(t: &LoginThrottle)
    requires
        t.wf(),
    ensures
        t@.dom().finite(),
        t@.len() <= 4096,
        semaphore_size(t.slots()) == 4,
{
    t.law_throttle_is_bounded();
}

/// A verification slot is what tokio's semaphore handed out when it was asked,
/// and there is none exactly where it handed out none.
pub proof fn law_a_slot_is_the_semaphores_answer(
    t: &LoginThrottle,
    permit: Option<OwnedSemaphorePermit>,
)
    requires
        call_ensures(LoginThrottle::try_begin_verification, (t,), permit),
    ensures
        exists|acquired: Result<OwnedSemaphorePermit, TryAcquireError>| #[trigger]
            call_ensures(Semaphore::try_acquire_owned, (Arc::new(t.slots()),), acquired) && (
            permit is Some <==> acquired is Ok) && (acquired matches Ok(p) ==> permit == Some(p)),
{
    let acquired = choose|acquired: Result<OwnedSemaphorePermit, TryAcquireError>| #[trigger]
        is_answer(t.slots(), acquired) && permit == acquired.ok();
    assert(call_ensures(Semaphore::try_acquire_owned, (Arc::new(t.slots()),), acquired));
}

} // verus!
