//! Login throttling: a progressive per-username delay, plus a hard cap on how
//! many password verifications may run at once.
//!
//! Checking a password is the one piece of real work that is done before it is
//! known who is calling. Unthrottled, an account with a well-known name can be
//! guessed at full speed, and every guess costs a memory-hard hash.
//!
//! Neither mechanism looks at the client's address. Behind a reverse proxy the
//! peer address is the same for everyone, so that one person's typing errors
//! would lock out all; a forwarded-for header is written by the client, so that
//! trusting it hands over a bypass. The delay is keyed on the submitted
//! username, whether or not such a user exists, and the cap is global.
//!
//! It is a delay and not a lockout: a lockout would let anyone deny an account
//! to its owner just by failing against it.

use std::sync::Arc;
use std::time::{Duration, Instant};

use tokio::sync::{OwnedSemaphorePermit, Semaphore, TryAcquireError};
use vstd::arithmetic::power2::{lemma2_to64, lemma_pow2_strictly_increases, pow2};
use vstd::prelude::*;
use vstd::set_lib::lemma_set_subset_finite;

use crate::auth::attempts::{keeps_most_suspicious, seen_within, Attempt, AttemptTable, Attempts};
use crate::clock::{duration_nanos, is_reading, NANOS_PER_SEC};

verus! {

/// Failures that cost nothing: people mistype passwords.
pub const FREE_ATTEMPTS: u32 = 3;

/// Ceiling on the per-attempt delay.
pub const MAX_DELAY_SECS: u64 = 30;

/// How long a username's failure count survives without new attempts.
pub const WINDOW_SECS: u64 = 900;

/// Hard cap on remembered usernames, so that spraying random names cannot grow
/// the table without limit.
pub const MAX_TRACKED_USERNAMES: usize = 4096;

/// How many password verifications may run concurrently.
pub const MAX_CONCURRENT_VERIFICATIONS: usize = 4;

/// The delay owed after `failures` consecutive failed attempts, in seconds:
/// nothing for the first few, then doubling from one second up to the ceiling.
pub open spec fn delay_secs(failures: nat) -> nat {
    if failures <= FREE_ATTEMPTS {
        0
    } else if pow2((failures - FREE_ATTEMPTS - 1) as nat) < MAX_DELAY_SECS {
        pow2((failures - FREE_ATTEMPTS - 1) as nat)
    } else {
        MAX_DELAY_SECS as nat
    }
}

/// The delay owed by an account with `failures` consecutive failed attempts.
///
/// It saturates: a long attack pushes `failures` arbitrarily high, and the
/// delay must not wrap round to something small.
pub fn delay_for_failures(failures: u32) -> (d: Duration)
    ensures
        duration_nanos(d) == delay_secs(failures as nat) * NANOS_PER_SEC,
{
    let excess: u32 = failures.saturating_sub(FREE_ATTEMPTS);
    if excess == 0 {
        return Duration::from_secs(0);
    }
    let shift: u32 = excess - 1;
    let secs: u64 = if shift < u64::BITS {
        1u64 << shift
    } else {
        u64::MAX
    };
    proof {
        if shift < u64::BITS {
            vstd::bits::lemma_u64_pow2_no_overflow(shift as nat);
            vstd::bits::lemma_u64_shl_is_mul(1, shift as u64);
        } else {
            lemma2_to64();
            lemma_pow2_strictly_increases(5, shift as nat);
        }
    }
    Duration::from_secs(
        if secs < MAX_DELAY_SECS {
            secs
        } else {
            MAX_DELAY_SECS
        },
    )
}

/// A semaphore of tokio; nothing is known of what it holds.
#[verifier::external_type_specification]
#[verifier::external_body]
pub struct ExSemaphore(Semaphore);

/// A slot taken from a semaphore of tokio; dropping it gives the slot back.
#[verifier::external_type_specification]
#[verifier::external_body]
pub struct ExOwnedSemaphorePermit(OwnedSemaphorePermit);

/// Why tokio handed out no slot.
#[verifier::external_type_specification]
#[verifier::external_body]
pub struct ExTryAcquireError(TryAcquireError);

/// The number of slots that a semaphore was made with.
pub uninterp spec fn semaphore_size(semaphore: Semaphore) -> nat;

/// The semaphore that a permit gives its slots back to.
pub uninterp spec fn permit_semaphore(permit: OwnedSemaphorePermit) -> Semaphore;

/// The number of slots that a permit holds.
pub uninterp spec fn permit_slots(permit: OwnedSemaphorePermit) -> nat;

/// `Semaphore::new` makes a semaphore with that many slots.
pub assume_specification[ Semaphore::new ](permits: usize) -> (semaphore: Semaphore)
    requires
        permits <= usize::MAX / 8,
    ensures
        semaphore_size(semaphore) == permits,
;

/// `Semaphore::try_acquire_owned` takes one slot of the semaphore without
/// waiting. Whether one is free rests on the permits that are held at that
/// moment, so nothing is claimed of when it succeeds.
pub assume_specification[ Semaphore::try_acquire_owned ](semaphore: Arc<Semaphore>) -> (r: Result<
    OwnedSemaphorePermit,
    TryAcquireError,
>)
    ensures
        r matches Ok(permit) ==> permit_semaphore(permit) == *semaphore && permit_slots(permit)
            == 1,
;

/// `acquired` is what asking the semaphore for a slot may give.
pub open spec fn is_answer(
    semaphore: Semaphore,
    acquired: Result<OwnedSemaphorePermit, TryAcquireError>,
) -> bool {
    call_ensures(Semaphore::try_acquire_owned, (Arc::new(semaphore),), acquired)
}

/// The slot that asking for one gave; one that was not handed out is no slot,
/// whatever the reason.
pub fn taken_slot(acquired: Result<OwnedSemaphorePermit, TryAcquireError>) -> (permit: Option<
    OwnedSemaphorePermit,
>)
    ensures
        match acquired {
            Ok(p) => permit == Some(p),
            Err(_) => permit is None,
        },
{
    match acquired {
        Ok(permit) => Some(permit),
        Err(_) => None,
    }
}

/// The length of the window in nanoseconds.
pub open spec fn window_nanos() -> u128 {
    (WINDOW_SECS * NANOS_PER_SEC) as u128
}

/// Whether the failure count of an entry no longer stands at `now`.
pub open spec fn lapsed(attempt: Attempt, now: u128) -> bool {
    attempt.idle_nanos(now) >= window_nanos()
}

/// The entries whose failure counts still stand at `now`.
pub open spec fn standing(table: Attempts, now: u128) -> Attempts {
    seen_within(table, now, window_nanos())
}

/// The delay owed for `name` at `now`, in seconds.
pub open spec fn delay_at(table: Attempts, name: Seq<char>, now: u128) -> nat {
    if table.contains_key(name) && !lapsed(table[name], now) {
        delay_secs(table[name].failures as nat)
    } else {
        0
    }
}

/// `after` is what pruning at `now` may leave of `before`: below half the cap
/// all of it; otherwise the standing entries; and where these reach the cap,
/// only the more suspicious half.
pub open spec fn pruned(before: Attempts, after: Attempts, now: u128) -> bool {
    if before.len() < MAX_TRACKED_USERNAMES / 2 {
        after == before
    } else if standing(before, now).len() < MAX_TRACKED_USERNAMES {
        after == standing(before, now)
    } else {
        keeps_most_suspicious(standing(before, now), after, (MAX_TRACKED_USERNAMES / 2) as nat)
    }
}

/// What is remembered of a name once one more failure is counted at `now`, given
/// what was remembered before: a lapsed count starts over.
pub open spec fn after_failure(previous: Option<Attempt>, now: u128) -> Attempt {
    let failures = match previous {
        Some(a) => if lapsed(a, now) {
            1
        } else if a.failures < u32::MAX {
            (a.failures + 1) as u32
        } else {
            u32::MAX
        },
        None => 1,
    };
    Attempt { failures, last_seen: now }
}

/// What is remembered of `name` once one more failure is counted at `now`.
pub open spec fn one_more_failure(table: Attempts, name: Seq<char>, now: u128) -> Attempt {
    after_failure(
        if table.contains_key(name) {
            Some(table[name])
        } else {
            None
        },
        now,
    )
}

/// `after` is what counting one failure of `name` at `now` may leave of
/// `before`: the table is pruned first, then the failure is counted.
pub open spec fn failure_counted(
    before: Attempts,
    after: Attempts,
    name: Seq<char>,
    now: u128,
) -> bool {
    exists|kept: Attempts| #[trigger]
        pruned(before, kept, now) && after == kept.insert(name, one_more_failure(kept, name, now))
}

/// Counts one more failure at `now`. A lapsed entry starts over rather than
/// resuming where it left off, and the count saturates.
pub fn count_failure(previous: Option<Attempt>, now: u128) -> (attempt: Attempt)
    ensures
        attempt == after_failure(previous, now),
{
    let failures: u32 = match previous {
        Some(a) => if a.idle(now) >= WINDOW_SECS as u128 * NANOS_PER_SEC {
            0
        } else {
            a.failures
        },
        None => 0,
    };
    Attempt { failures: failures.saturating_add(1), last_seen: now }
}

/// Drops lapsed entries, then, where the table is still at capacity, the
/// less suspicious half.
///
/// An entry with many failures is the account under attack, and the one that
/// an attacker would want flushed out by spraying names: the lowest counts go
/// first. Below half the cap nothing is done, so that the common path does not
/// walk the table; a lapsed entry costs nothing there, as every reader checks
/// the window.
pub fn prune(map: &mut AttemptTable, now: u128)
    requires
        old(map).wf(),
    ensures
        final(map).wf(),
        pruned(old(map)@, final(map)@, now),
{
    if map.len() < MAX_TRACKED_USERNAMES / 2 {
        return ;
    }
    let window: u128 = WINDOW_SECS as u128 * NANOS_PER_SEC;
    map.drop_idle(now, window);
    if map.len() < MAX_TRACKED_USERNAMES {
        return ;
    }
    map.evict_to(MAX_TRACKED_USERNAMES / 2);
}

/// The login throttle. Whoever shares it between requests holds it behind a
/// lock.
pub struct LoginThrottle {
    attempts: AttemptTable,
    started: Instant,
    verifications: Arc<Semaphore>,
}

impl View for LoginThrottle {
    type V = Attempts;

    closed spec fn view(&self) -> Attempts {
        self.attempts@
    }
}

impl Default for LoginThrottle {
    fn default() -> (t: Self)
        ensures
            t.wf(),
            t@ == Attempts::empty(),
            semaphore_size(t.slots()) == MAX_CONCURRENT_VERIFICATIONS,
            call_ensures(Instant::now, (), t.start()),
    {
        Self::new()
    }
}

impl LoginThrottle {
    /// The table is sound and within its cap, and the semaphore has the slots
    /// that verifications may take.
    pub closed spec fn wf(&self) -> bool {
        &&& self.attempts.wf()
        &&& self@.dom().finite()
        &&& self@.len() <= MAX_TRACKED_USERNAMES
        &&& semaphore_size(self.slots()) == MAX_CONCURRENT_VERIFICATIONS
    }

    /// The semaphore that hands out the verification slots.
    pub closed spec fn slots(&self) -> Semaphore {
        *self.verifications
    }

    /// When the throttle's clock starts.
    pub closed spec fn start(&self) -> Instant {
        self.started
    }

    /// In every state the table is finite and within its cap, and so are the
    /// verification slots.
    pub proof fn law_throttle_is_bounded(&self)
        requires
            self.wf(),
        ensures
            self@.dom().finite(),
            self@.len() <= MAX_TRACKED_USERNAMES,
            semaphore_size(self.slots()) == MAX_CONCURRENT_VERIFICATIONS,
    {
    }

    pub fn new() -> (t: Self)
        ensures
            t.wf(),
            t@ == Attempts::empty(),
            semaphore_size(t.slots()) == MAX_CONCURRENT_VERIFICATIONS,
            call_ensures(Instant::now, (), t.start()),
    {
        Self {
            attempts: AttemptTable::new(),
            started: Instant::now(),
            verifications: Arc::new(Semaphore::new(MAX_CONCURRENT_VERIFICATIONS)),
        }
    }

    /// The throttle's clock: nanoseconds since it was made.
    fn now(&self) -> (now: u128)
        ensures
            is_reading(self.start(), now),
    {
        self.started.elapsed().as_nanos()
    }

    /// How long to wait at `now` before verifying a password for `username`.
    pub fn delay_for_at(&self, username: &str, now: u128) -> (d: Duration)
        requires
            self.wf(),
        ensures
            duration_nanos(d) == delay_at(self@, username@, now) * NANOS_PER_SEC,
    {
        match self.attempts.get(username) {
            Some(a) => if a.idle(now) < WINDOW_SECS as u128 * NANOS_PER_SEC {
                delay_for_failures(a.failures)
            } else {
                // Last seen so long ago that the count has lapsed.
                Duration::from_secs(0)
            },
            None => Duration::from_secs(0),
        }
    }

    /// How long to wait before verifying a password for `username`.
    ///
    /// Keyed on the name as submitted, whether or not such a user exists, so
    /// that the throttle never tells existing accounts from absent ones.
    pub fn delay_for(&self, username: &str) -> (d: Duration)
        requires
            self.wf(),
        ensures
            exists|now: u128| #[trigger]
                is_reading(self.start(), now) && duration_nanos(d) == delay_at(self@, username@, now)
                    * NANOS_PER_SEC,
    {
        let now: u128 = self.now();
        self.delay_for_at(username, now)
    }

    /// Records one failed attempt for `username` at `now` and prunes the table.
    pub fn record_failure_at(&mut self, username: &str, now: u128)
        requires
            old(self).wf(),
        ensures
            final(self).wf(),
            failure_counted(old(self)@, final(self)@, username@, now),
            final(self)@.len() <= MAX_TRACKED_USERNAMES,
            final(self).slots() == old(self).slots(),
            final(self).start() == old(self).start(),
    {
        prune(&mut self.attempts, now);
        let ghost kept = self.attempts@;
        proof {
            law_pruning_makes_room(old(self)@, kept, now);
        }
        let attempt = count_failure(self.attempts.get(username), now);
        self.attempts.insert(username, attempt);
        assert(pruned(old(self)@, kept, now));
    }

    /// Records one failed attempt for `username` and prunes the table.
    pub fn record_failure(&mut self, username: &str)
        requires
            old(self).wf(),
        ensures
            final(self).wf(),
            exists|now: u128| #[trigger]
                is_reading(old(self).start(), now) && failure_counted(
                    old(self)@,
                    final(self)@,
                    username@,
                    now,
                ),
            final(self)@.len() <= MAX_TRACKED_USERNAMES,
            final(self).slots() == old(self).slots(),
            final(self).start() == old(self).start(),
    {
        let now: u128 = self.now();
        self.record_failure_at(username, now);
    }

    /// Clears the failure count for `username` after a successful login.
    pub fn record_success(&mut self, username: &str)
        requires
            old(self).wf(),
        ensures
            final(self).wf(),
            final(self)@ == old(self)@.remove(username@),
            final(self).slots() == old(self).slots(),
            final(self).start() == old(self).start(),
    {
        self.attempts.remove(username);
    }

    /// Takes one of the verification slots, or `None` when they are all in use.
    ///
    /// It never waits: a queue would let an attacker fill it and make everyone
    /// else wait behind. The permit gives the slot back when it is dropped.
    /// The semaphore is asked once and its answer handed on; whether a slot is
    /// free rests on the permits held elsewhere at that moment, and no clause
    /// speaks of it.
    pub fn try_begin_verification(&self) -> (permit: Option<OwnedSemaphorePermit>)
        ensures
            permit matches Some(p) ==> permit_semaphore(p) == self.slots() && permit_slots(p) == 1,
            exists|acquired: Result<OwnedSemaphorePermit, TryAcquireError>| #[trigger]
                is_answer(self.slots(), acquired) && permit == acquired.ok(),
    {
        let acquired = self.verifications.clone().try_acquire_owned();
        assert(is_answer(self.slots(), acquired));
        taken_slot(acquired)
    }

    /// The number of usernames that the table holds.
    pub fn tracked_usernames(&self) -> (n: usize)
        requires
            self.wf(),
        ensures
            n == self@.len(),
            n <= MAX_TRACKED_USERNAMES,
    {
        self.attempts.len()
    }
}

/// Pruning always leaves room for one more name.
pub proof fn law_pruning_makes_room(before: Attempts, after: Attempts, now: u128)
    requires
        before.dom().finite(),
        pruned(before, after, now),
    ensures
        after.dom().finite(),
        after.len() < MAX_TRACKED_USERNAMES,
        after.submap_of(before),
{
    assert(standing(before, now).dom().subset_of(before.dom()));
    lemma_set_subset_finite(before.dom(), standing(before, now).dom());
    if !(before.len() < MAX_TRACKED_USERNAMES / 2) && !(standing(before, now).len()
        < MAX_TRACKED_USERNAMES) {
        assert(after.dom().subset_of(standing(before, now).dom()));
        lemma_set_subset_finite(standing(before, now).dom(), after.dom());
        assert forall|name: Seq<char>| #[trigger] after.dom().contains(
            name,
        ) implies before.dom().contains(name) && after[name] == before[name] by {
            assert(standing(before, now).dom().contains(name));
        }
    }
}

} // verus!
