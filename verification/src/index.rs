//! The idempotency gate: which email addresses have been granted a trial, and
//! when.

use crate::timestamp::Timestamp;
use vstd::prelude::*;

verus! {

/// What became of an attempt to enter an address.
#[derive(Clone, Copy, Debug, PartialEq, Eq, Structural)]
pub enum Admission {
    /// The address was not known and has now been entered.
    Admitted,
    /// The address was known already; nothing was changed.
    AlreadyPresent,
}

/// What the index decides about `email`, given what it holds.
pub open spec fn admission(known: Map<Seq<char>, Timestamp>, email: Seq<char>) -> Admission {
    if known.contains_key(email) {
        Admission::AlreadyPresent
    } else {
        Admission::Admitted
    }
}

/// What the index holds after it was asked to enter `email` at the time
/// `now`: a known address keeps its time, an unknown one is entered.
pub open spec fn after_admission(
    known: Map<Seq<char>, Timestamp>,
    email: Seq<char>,
    now: Timestamp,
) -> Map<Seq<char>, Timestamp> {
    if known.contains_key(email) {
        known
    } else {
        known.insert(email, now)
    }
}

/// Admission is idempotent: a second attempt for the same address is turned
/// away and changes nothing, so the time of the first grant stands.
pub proof fn lemma_first_grant_stands(
    known: Map<Seq<char>, Timestamp>,
    email: Seq<char>,
    first: Timestamp,
    second: Timestamp,
)
    ensures
        admission(after_admission(known, email, first), email) == Admission::AlreadyPresent,
        after_admission(after_admission(known, email, first), email, second) == after_admission(
            known,
            email,
            first,
        ),
        !known.contains_key(email) ==> after_admission(
            after_admission(known, email, first),
            email,
            second,
        )[email] == first,
{
}

/// Once an address is held, no later attempt for it is admitted, whatever
/// other addresses were entered in between.
pub proof fn lemma_known_stays_known(
    known: Map<Seq<char>, Timestamp>,
    email: Seq<char>,
    other: Seq<char>,
    now: Timestamp,
)
    requires
        known.contains_key(email),
    ensures
        after_admission(known, other, now).contains_key(email),
        after_admission(known, other, now)[email] == known[email],
        admission(after_admission(known, other, now), email) == Admission::AlreadyPresent,
{
}

/// One address of the index with the time of its grant.
struct IndexEntry {
    email: String,
    at: Timestamp,
}

/// The addresses that have been granted a trial, each with the time of the
/// grant. A well-formed index holds no address twice; every index that this
/// module hands out is well formed.
pub struct TrialIndex {
    entries: Vec<IndexEntry>,
}

/// Whether some entry of `entries` is for the address `email`.
spec fn holds(entries: Seq<IndexEntry>, email: Seq<char>) -> bool {
    exists|i: int| 0 <= i < entries.len() && #[trigger] entries[i].email@ == email
}

/// A position of `entries` that is for the address `email`.
spec fn position(entries: Seq<IndexEntry>, email: Seq<char>) -> int {
    choose|i: int| 0 <= i < entries.len() && #[trigger] entries[i].email@ == email
}

/// No two entries are for the same address.
spec fn distinct(entries: Seq<IndexEntry>) -> bool {
    forall|i: int, j: int|
        0 <= i < j < entries.len() ==> #[trigger] entries[i].email@ != #[trigger] entries[j].email@
}

/// The mapping that `entries` stand for.
spec fn mapping(entries: Seq<IndexEntry>) -> Map<Seq<char>, Timestamp> {
    Map::new(|email: Seq<char>| holds(entries, email), |email: Seq<char>| entries[position(entries, email)].at)
}

/// Where nothing occurs twice, the entry at `i` is what the mapping holds for
/// its address.
proof fn lemma_mapping_at(entries: Seq<IndexEntry>, i: int)
    requires
        distinct(entries),
        0 <= i < entries.len(),
    ensures
        mapping(entries).contains_key(entries[i].email@),
        mapping(entries)[entries[i].email@] == entries[i].at,
{
    let email = entries[i].email@;
    assert(holds(entries, email));
    let p = position(entries, email);
    assert(0 <= p < entries.len() && entries[p].email@ == email);
    if p < i {
        assert(entries[p].email@ != entries[i].email@);
    } else if i < p {
        assert(entries[i].email@ != entries[p].email@);
    }
}

impl View for TrialIndex {
    type V = Map<Seq<char>, Timestamp>;

    /// The index as a mapping from address to the time of its grant.
    closed spec fn view(&self) -> Map<Seq<char>, Timestamp> {
        mapping(self.entries@)
    }
}

impl TrialIndex {
    /// No address is held twice.
    pub closed spec fn wf(&self) -> bool {
        distinct(self.entries@)
    }

    /// An index without addresses.
    pub fn new() -> (index: TrialIndex)
        ensures
            index.wf(),
            index@ == Map::<Seq<char>, Timestamp>::empty(),
    {
        let index = TrialIndex { entries: Vec::new() };
        assert(index@ =~= Map::<Seq<char>, Timestamp>::empty());
        index
    }

    /// The position of the entry for `email`, if there is one.
    fn find(&self, email: &String) -> (found: Option<usize>)
        ensures
            match found {
                Some(i) => i < self.entries.len() && self.entries[i as int].email@ == email@,
                None => !holds(self.entries@, email@),
            },
    {
        let mut i: usize = 0;
        while i < self.entries.len()
            invariant
                i <= self.entries.len(),
                forall|j: int| 0 <= j < i ==> self.entries[j].email@ != email@,
            decreases self.entries.len() - i,
        {
            if self.entries[i].email == *email {
                return Some(i);
            }
            i = i + 1;
        }
        None
    }

    /// The time at which `email` was granted a trial, if it ever was.
    pub fn get(&self, email: &str) -> (found: Option<Timestamp>)
        requires
            self.wf(),
        ensures
            found == if self@.contains_key(email@) {
                Some(self@[email@])
            } else {
                None::<Timestamp>
            },
    {
        let key = email.to_string();
        match self.find(&key) {
            Some(i) => {
                proof {
                    lemma_mapping_at(self.entries@, i as int);
                }
                Some(self.entries[i].at)
            },
            None => None,
        }
    }

    /// Whether `email` has been granted a trial.
    pub fn contains(&self, email: &str) -> (known: bool)
        requires
            self.wf(),
        ensures
            known == self@.contains_key(email@),
    {
        self.get(email).is_some()
    }

    /// The test-and-set of the index: enters `email` with the time `now` unless it
    /// is known already, and says which of the two happened. A known address
    /// keeps the time of its first grant.
    pub fn try_admit(&mut self, email: &str, now: Timestamp) -> (decision: Admission)
        requires
            old(self).wf(),
        ensures
            final(self).wf(),
            decision == admission(old(self)@, email@),
            final(self)@ == after_admission(old(self)@, email@, now),
    {
        let key = email.to_string();
        match self.find(&key) {
            Some(i) => {
                proof {
                    lemma_mapping_at(self.entries@, i as int);
                }
                Admission::AlreadyPresent
            },
            None => {
                let ghost before = self.entries@;
                self.entries.push(IndexEntry { email: key, at: now });
                proof {
                    let after = self.entries@;
                    assert(after == before.push(after[before.len() as int]));
                    assert(distinct(after));
                    assert forall|k: Seq<char>| holds(after, k) <==> (k == email@ || holds(
                        before,
                        k,
                    )) by {
                        if holds(after, k) {
                            let p = position(after, k);
                            if p < before.len() {
                                assert(before[p].email@ == k);
                            }
                        }
                        if holds(before, k) {
                            let p = position(before, k);
                            assert(after[p].email@ == k);
                        }
                        if k == email@ {
                            assert(after[before.len() as int].email@ == k);
                        }
                    }
                    assert forall|k: Seq<char>| holds(after, k) implies mapping(after)[k]
                        == old(self)@.insert(email@, now)[k] by {
                        let p = position(after, k);
                        lemma_mapping_at(after, p);
                        if p < before.len() {
                            assert(before[p].email@ == k);
                            lemma_mapping_at(before, p);
                        }
                    }
                    assert(self@ =~= old(self)@.insert(email@, now));
                }
                Admission::Admitted
            },
        }
    }

    /// Enters `email` with the time `at`, in place of an earlier time where
    /// the address is known already.
    pub fn record(&mut self, email: String, at: Timestamp)
        requires
            old(self).wf(),
        ensures
            final(self).wf(),
            final(self)@ == old(self)@.insert(email@, at),
    {
        let ghost before = self.entries@;
        let ghost key = email@;
        match self.find(&email) {
            Some(i) => {
                self.entries.set(i, IndexEntry { email, at });
            },
            None => {
                self.entries.push(IndexEntry { email, at });
            },
        }
        proof {
            let after = self.entries@;
            assert(distinct(after));
            assert forall|k: Seq<char>| holds(after, k) <==> (k == key || holds(before, k)) by {
                if holds(after, k) {
                    let p = position(after, k);
                    if p < before.len() && k != key {
                        assert(before[p].email@ == k);
                    }
                }
                if holds(before, k) {
                    let p = position(before, k);
                    assert(after[p].email@ == k);
                }
                if k == key {
                    if holds(before, k) {
                        let p = position(before, k);
                        assert(after[p].email@ == k);
                    } else {
                        assert(after[before.len() as int].email@ == k);
                    }
                }
            }
            assert forall|k: Seq<char>| holds(after, k) implies mapping(after)[k] == old(
                self,
            )@.insert(key, at)[k] by {
                let p = position(after, k);
                lemma_mapping_at(after, p);
                if k != key {
                    assert(before[p].email@ == k);
                    lemma_mapping_at(before, p);
                }
            }
            assert(self@ =~= old(self)@.insert(key, at));
        }
    }
}

} // verus!
