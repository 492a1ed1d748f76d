//! The table of failed login attempts, one entry per username.
//!
//! Lookups go through a hash map from name to position; the entries
//! themselves stand in a vector, so that they can be walked.

use vstd::hash_map::StringHashMap;
use vstd::prelude::*;

verus! {

/// What is remembered of one username.
#[derive(Debug, Clone, Copy, PartialEq, Eq, Structural)]
pub struct Attempt {
    /// Consecutive failed attempts.
    pub failures: u32,
    /// When the last of them was made, in nanoseconds on the throttle's clock.
    pub last_seen: u128,
}

impl Attempt {
    /// How long ago the last failure was, in nanoseconds; a reading that lies
    /// before it counts as no time at all.
    pub open spec fn idle_nanos(self, now: u128) -> int {
        if now > self.last_seen {
            now - self.last_seen
        } else {
            0
        }
    }

    /// How long ago the last failure was, in nanoseconds.
    pub fn idle(&self, now: u128) -> (nanos: u128)
        ensures
            nanos == self.idle_nanos(now),
            nanos + self.last_seen == if now > self.last_seen {
                now
            } else {
                self.last_seen
            },
    {
        now.saturating_sub(self.last_seen)
    }
}

/// What is remembered, by username.
pub type Attempts = Map<Seq<char>, Attempt>;

/// The entries whose last failure is less than `window` nanoseconds old.
pub open spec fn seen_within(table: Attempts, now: u128, window: u128) -> Attempts {
    table.restrict(
        Set::new(
            |name: Seq<char>| table.contains_key(name) && table[name].idle_nanos(now) < window,
        ),
    )
}

/// `after` holds `keep` of the entries of `before`, unchanged, and nothing
/// that left had more failures than anything that stayed.
pub open spec fn keeps_most_suspicious(before: Attempts, after: Attempts, keep: nat) -> bool {
    &&& after.submap_of(before)
    &&& after.len() == keep
    &&& forall|gone: Seq<char>, stayed: Seq<char>|
        #![trigger before.contains_key(gone), after.contains_key(stayed)]
        before.contains_key(gone) && !after.contains_key(gone) && after.contains_key(stayed)
            ==> before[gone].failures <= after[stayed].failures
}

/// `slice::sort_unstable_by_key` with the first component as the key: the
/// same pairs, in an order in which that component never falls.
#[verifier::external_body]
fn sort_by_first(pairs: &mut Vec<(u32, usize)>)
    ensures
        final(pairs)@.to_multiset() == old(pairs)@.to_multiset(),
        forall|i: int, j: int|
            0 <= i < j < final(pairs)@.len() ==> final(pairs)@[i].0 <= final(pairs)@[j].0,
{
    pairs.sort_unstable_by_key(|pair| pair.0);
}

/// A username with what is remembered of it.
struct Entry {
    name: String,
    attempt: Attempt,
}

/// Failed attempts by username.
pub struct AttemptTable {
    entries: Vec<Entry>,
    slots: StringHashMap<usize>,
}

impl View for AttemptTable {
    type V = Attempts;

    closed spec fn view(&self) -> Attempts {
        Map::new(
            |name: Seq<char>| self.slots@.contains_key(name),
            |name: Seq<char>| self.entries@[self.slots@[name] as int].attempt,
        )
    }
}

impl AttemptTable {
    /// Each entry stands at the position that its name maps to, and every
    /// mapped name has its entry: a name occurs once.
    pub closed spec fn wf(&self) -> bool {
        &&& self.slots@.dom().finite()
        &&& self.slots@.len() == self.entries@.len()
        &&& forall|i: int|
            #![trigger self.entries@[i]]
            0 <= i < self.entries@.len() ==> self.slots@.contains_key(self.entries@[i].name@)
                && self.slots@[self.entries@[i].name@] == i
        &&& forall|name: Seq<char>| #[trigger]
            self.slots@.contains_key(name) ==> self.slots@[name] < self.entries@.len()
                && self.entries@[self.slots@[name] as int].name@ == name
    }

    pub fn new() -> (t: Self)
        ensures
            t.wf(),
            t@ == Attempts::empty(),
    {
        let t = AttemptTable { entries: Vec::new(), slots: StringHashMap::new() };
        assert(t@ =~= Attempts::empty());
        t
    }

    /// The number of names in the table.
    pub fn len(&self) -> (n: usize)
        requires
            self.wf(),
        ensures
            n == self@.len(),
            self@.dom().finite(),
    {
        assert(self@.dom() =~= self.slots@.dom());
        self.entries.len()
    }

    /// What is remembered of `name`, if anything.
    pub fn get(&self, name: &str) -> (r: Option<Attempt>)
        requires
            self.wf(),
        ensures
            match r {
                Some(a) => self@.contains_key(name@) && a == self@[name@],
                None => !self@.contains_key(name@),
            },
    {
        match self.slots.get(name) {
            Some(slot) => Some(self.entries[*slot].attempt),
            None => None,
        }
    }

    /// Sets what is remembered of `name`.
    pub fn insert(&mut self, name: &str, attempt: Attempt)
        requires
            old(self).wf(),
        ensures
            final(self).wf(),
            final(self)@ == old(self)@.insert(name@, attempt),
    {
        let slot = match self.slots.get(name) {
            Some(slot) => Some(*slot),
            None => None,
        };
        match slot {
            Some(slot) => {
                self.entries[slot].attempt = attempt;
            },
            None => {
                let slot = self.entries.len();
                self.slots.insert(name.to_owned(), slot);
                self.entries.push(Entry { name: name.to_owned(), attempt });
            },
        }
        assert(self@ =~= old(self)@.insert(name@, attempt));
    }

    /// Takes out the entry at position `at`; the last one fills the gap.
    fn remove_at(&mut self, at: usize)
        requires
            old(self).wf(),
            at < old(self).entries@.len(),
        ensures
            final(self).wf(),
            final(self)@ == old(self)@.remove(old(self).entries@[at as int].name@),
            final(self).entries@ == old(self).entries@.update(
                at as int,
                old(self).entries@.last(),
            ).drop_last(),
    {
        let ghost entries = self.entries@;
        let ghost slots = self.slots@;
        let gone = self.entries.swap_remove(at);
        assert(gone == entries[at as int]);
        self.slots.remove(gone.name.as_str());
        if at < self.entries.len() {
            let moved = self.entries[at].name.clone();
            assert(moved@ == entries.last().name@);
            assert(slots[moved@] == entries.len() - 1);
            self.slots.insert(moved, at);
        }
        assert forall|i: int| #![trigger self.entries@[i]] 0 <= i < self.entries@.len() implies
            self.slots@.contains_key(self.entries@[i].name@) && self.slots@[self.entries@[i].name@]
            == i by {
            let origin = if i == at { entries.len() - 1 } else { i };
            assert(self.entries@[i] == entries[origin]);
            assert(slots[entries[origin].name@] == origin);
        }
        assert forall|name: Seq<char>| #[trigger] self.slots@.contains_key(name) implies
            self.slots@[name] < self.entries@.len() && self.entries@[self.slots@[name] as int].name@
            == name by {
            assert(slots.contains_key(name));
        }
        assert(self@ =~= old(self)@.remove(gone.name@));
    }

    /// Forgets `name`.
    pub fn remove(&mut self, name: &str)
        requires
            old(self).wf(),
        ensures
            final(self).wf(),
            final(self)@ == old(self)@.remove(name@),
    {
        let slot = match self.slots.get(name) {
            Some(slot) => Some(*slot),
            None => None,
        };
        match slot {
            Some(slot) => self.remove_at(slot),
            None => {},
        }
        assert(self@ =~= old(self)@.remove(name@));
    }

    /// Forgets every name whose last failure is `window` nanoseconds old or
    /// older.
    pub fn drop_idle(&mut self, now: u128, window: u128)
        requires
            old(self).wf(),
        ensures
            final(self).wf(),
            final(self)@ == seen_within(old(self)@, now, window),
    {
        let ghost before = self@;
        let mut at: usize = 0;
        while at < self.entries.len()
            invariant
                self.wf(),
                at <= self.entries@.len(),
                self@.submap_of(before),
                forall|i: int|
                    #![trigger self.entries@[i]]
                    0 <= i < at ==> self.entries@[i].attempt.idle_nanos(now) < window,
                forall|name: Seq<char>| #[trigger]
                    before.contains_key(name) && before[name].idle_nanos(now) < window
                        ==> self@.contains_key(name),
            decreases self.entries@.len() - at,
        {
            let ghost entry = self.entries@[at as int];
            assert(self@.contains_key(entry.name@) && self@[entry.name@] == entry.attempt);
            if self.entries[at].attempt.idle(now) < window {
                at = at + 1;
            } else {
                let ghost entries = self.entries@;
                self.remove_at(at);
                assert forall|i: int| #![trigger self.entries@[i]] 0 <= i < at implies
                    self.entries@[i].attempt.idle_nanos(now) < window by {
                    assert(self.entries@[i] == entries[i]);
                }
            }
        }
        assert forall|name: Seq<char>| #[trigger] self@.contains_key(name) implies
            self@[name].idle_nanos(now) < window by {
            assert(self.slots@.contains_key(name));
        }
        assert(self@ =~= seen_within(before, now, window));
    }

    /// The failure count of every entry with its position, lowest count first.
    fn ranking(&self) -> (ranked: Vec<(u32, usize)>)
        requires
            self.wf(),
        ensures
            ranked@.len() == self.entries@.len(),
            ranked@.no_duplicates(),
            forall|i: int|
                #![trigger ranked@[i]]
                0 <= i < ranked@.len() ==> ranked@[i].1 < self.entries@.len() && ranked@[i].0
                    == self.entries@[ranked@[i].1 as int].attempt.failures,
            forall|at: int|
                #![trigger self.entries@[at]]
                0 <= at < self.entries@.len() ==> ranked@.contains(
                    (self.entries@[at].attempt.failures, at as usize),
                ),
            forall|i: int, j: int| 0 <= i < j < ranked@.len() ==> ranked@[i].0 <= ranked@[j].0,
    {
        let mut ranked: Vec<(u32, usize)> = Vec::new();
        for at in 0..self.entries.len()
            invariant
                ranked@.len() == at,
                forall|i: int|
                    #![trigger ranked@[i]]
                    0 <= i < at ==> ranked@[i] == (self.entries@[i].attempt.failures, i as usize),
        {
            ranked.push((self.entries[at].attempt.failures, at));
        }
        let ghost unsorted = ranked@;
        sort_by_first(&mut ranked);
        proof {
            broadcast use vstd::seq_lib::to_multiset_contains, vstd::seq_lib::to_multiset_len;

            assert(ranked@.to_multiset().len() == unsorted.to_multiset().len());
            unsorted.lemma_multiset_has_no_duplicates();
            ranked@.lemma_multiset_has_no_duplicates_conv();
            assert forall|i: int| #![trigger ranked@[i]] 0 <= i < ranked@.len() implies ranked@[i].1
                < self.entries@.len() && ranked@[i].0
                == self.entries@[ranked@[i].1 as int].attempt.failures by {
                assert(ranked@.contains(ranked@[i]));
                assert(unsorted.to_multiset().count(ranked@[i]) > 0);
                assert(unsorted.contains(ranked@[i]));
            }
            assert forall|at: int| #![trigger self.entries@[at]] 0 <= at
                < self.entries@.len() implies ranked@.contains(
                (self.entries@[at].attempt.failures, at as usize),
            ) by {
                assert(unsorted.contains(unsorted[at]));
                assert(ranked@.to_multiset().count(unsorted[at]) > 0);
            }
        }
        ranked
    }

    /// Forgets the names with the fewest failures until `keep` are left; which
    /// of two equally suspicious names goes is left open.
    pub fn evict_to(&mut self, keep: usize)
        requires
            old(self).wf(),
        ensures
            final(self).wf(),
            keep < old(self)@.len() ==> keeps_most_suspicious(
                old(self)@,
                final(self)@,
                keep as nat,
            ),
            keep >= old(self)@.len() ==> final(self)@ == old(self)@,
    {
        let ghost before = *self;
        let total = self.len();
        if keep >= total {
            return ;
        }
        let ranked = self.ranking();
        assert(self@.dom() =~= self.slots@.dom());
        let excess: usize = total - keep;
        let mut leaving: Vec<String> = Vec::new();
        for i in 0..excess
            invariant
                before == *self,
                before.wf(),
                excess <= ranked@.len(),
                leaving@.len() == i,
                forall|k: int|
                    #![trigger ranked@[k]]
                    0 <= k < ranked@.len() ==> ranked@[k].1 < before.entries@.len(),
                forall|k: int|
                    #![trigger leaving@[k]]
                    0 <= k < i ==> leaving@[k]@ == before.entries@[ranked@[k].1 as int].name@,
        {
            assert(ranked@[i as int].1 < before.entries@.len());
            leaving.push(self.entries[ranked[i].1].name.clone());
        }
        for i in 0..excess
            invariant
                self.wf(),
                before.wf(),
                total == before@.len(),
                leaving@.len() == excess,
                excess <= ranked@.len(),
                ranked@.no_duplicates(),
                forall|k: int|
                    #![trigger ranked@[k]]
                    0 <= k < ranked@.len() ==> ranked@[k].1 < before.entries@.len() && ranked@[k].0
                        == before.entries@[ranked@[k].1 as int].attempt.failures,
                forall|k: int|
                    #![trigger leaving@[k]]
                    0 <= k < excess ==> leaving@[k]@ == before.entries@[ranked@[k].1 as int].name@,
                self@.dom().finite(),
                self@.len() == total - i,
                self@.submap_of(before@),
                forall|k: int|
                    #![trigger ranked@[k]]
                    0 <= k < ranked@.len() ==> (self@.contains_key(
                        before.entries@[ranked@[k].1 as int].name@,
                    ) <==> i <= k),
        {
            let ghost current = self@;
            let ghost at = ranked@[i as int].1 as int;
            self.remove(leaving[i].as_str());
            assert(current.contains_key(before.entries@[at].name@));
            assert forall|name: Seq<char>| #[trigger] self@.dom().contains(name) implies (
            before@.dom().contains(name) && self@[name] == before@[name]) by {
                assert(current.dom().contains(name) && before@.dom().contains(name));
            }
            assert forall|k: int| #![trigger ranked@[k]] 0 <= k < ranked@.len() implies (
            self@.contains_key(before.entries@[ranked@[k].1 as int].name@) <==> i < k) by {
                if before.entries@[ranked@[k].1 as int].name@ == before.entries@[at].name@ {
                    assert(ranked@[k] == ranked@[i as int]);
                }
            }
        }
        assert forall|gone: Seq<char>, stayed: Seq<char>|
            #![trigger before@.contains_key(gone), self@.contains_key(stayed)]
            before@.contains_key(gone) && !self@.contains_key(gone) && self@.contains_key(
                stayed,
            ) implies before@[gone].failures <= self@[stayed].failures by {
            let g = before.slots@[gone] as int;
            let s = before.slots@[stayed] as int;
            assert(before@.contains_key(stayed));
            assert(before.entries@[g].name@ == gone && before.entries@[s].name@ == stayed);
            let i = ranked@.index_of((before.entries@[g].attempt.failures, g as usize));
            let j = ranked@.index_of((before.entries@[s].attempt.failures, s as usize));
            assert(i < excess <= j);
        }
    }
}

/// Idle time is what lies between the last failure and now, however many
/// failures there were.
pub proof fn law_idle_time(attempt: Attempt, now: u128, nanos: u128)
    requires
        call_ensures(Attempt::idle, (&attempt, now), nanos),
    ensures
        now >= attempt.last_seen ==> attempt.last_seen + nanos == now,
        now < attempt.last_seen ==> nanos == 0,
{
}

/// Of a table there stay exactly the entries that are younger than the window,
/// each as it was.
pub proof fn law_young_entries_stay(table: Attempts, now: u128, window: u128, name: Seq<char>)
    ensures
        seen_within(table, now, window).contains_key(name) <==> table.contains_key(name) && window
            > 0 && now < table[name].last_seen + window,
        seen_within(table, now, window).contains_key(name) ==> seen_within(table, now, window)[name]
            == table[name],
{
}

/// An eviction leaves as many entries as it is told to, each as it was, and
/// none that it drops had more failures than one that it keeps.
pub proof fn law_eviction_drops_the_lowest_counts(
    before: Attempts,
    after: Attempts,
    keep: nat,
    gone: Seq<char>,
    stayed: Seq<char>,
)
    requires
        keeps_most_suspicious(before, after, keep),
        after.contains_key(stayed),
    ensures
        after.len() == keep,
        before.contains_key(stayed) && after[stayed] == before[stayed],
        before.contains_key(gone) && !after.contains_key(gone) ==> before[gone].failures
            <= before[stayed].failures,
{
    assert(after.dom().contains(stayed) && before.dom().contains(stayed));
}

} // verus!
