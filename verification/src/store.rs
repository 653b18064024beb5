use vstd::prelude::*;
use vstd::string::*;
use crate::types::{Payload, Record, RecordData, RecordModel};

verus! {

/// What one call of `consume` found and did.
#[derive(Clone, Copy, Debug, PartialEq, Eq, Structural)]
pub enum ConsumeOutcome {
    /// The record has no counter: nothing was changed.
    Unlimited,
    /// One access was taken; so many are left.
    Remaining(u64),
    /// The last access was taken and the record deleted.
    Exhausted,
    /// The record was already gone.
    Gone,
}

impl ConsumeOutcome {
    /// The call found the record still there.
    pub open spec fn found(self) -> bool {
        self != ConsumeOutcome::Gone
    }

    pub fn is_found(&self) -> (r: bool)
        ensures
            r == self.found(),
    {
        match self {
            ConsumeOutcome::Gone => false,
            _ => true,
        }
    }
}

/// What a backend's atomic decrement reports, read as an outcome. `None`
/// says that no record was there. Otherwise the number is what the counter
/// came to: at zero or below the backend has deleted the record in the same
/// step, above zero so many accesses are left.
pub open spec fn outcome_of_count(left: Option<i64>) -> ConsumeOutcome {
    match left {
        None => ConsumeOutcome::Gone,
        Some(n) => if n <= 0 {
            ConsumeOutcome::Exhausted
        } else {
            ConsumeOutcome::Remaining(n as u64)
        },
    }
}

/// The file to delete, as far as that can be done, after an access to a
/// record of payload `data` came out as `outcome`: the record's backing
/// file, once the record itself was deleted, and none otherwise.
pub open spec fn payload_to_delete_spec(data: Payload, outcome: ConsumeOutcome) -> Option<
    Seq<char>,
> {
    match data {
        Payload::File { path, name } => if outcome == ConsumeOutcome::Exhausted {
            Some(path)
        } else {
            None
        },
        _ => None,
    }
}

/// Reads the reply of a backend's atomic decrement as an outcome.
pub fn after_decrement(left: Option<i64>) -> (r: ConsumeOutcome)
    ensures
        r == outcome_of_count(left),
{
    match left {
        None => ConsumeOutcome::Gone,
        Some(n) => if n <= 0 {
            ConsumeOutcome::Exhausted
        } else {
            ConsumeOutcome::Remaining(n as u64)
        },
    }
}

/// Names the backing file that is to be deleted after an access, if any.
pub fn payload_to_delete(record: &Record, outcome: ConsumeOutcome) -> (r: Option<String>)
    ensures
        match r {
            Some(path) => payload_to_delete_spec(record@.data, outcome) == Some(path@),
            None => payload_to_delete_spec(record@.data, outcome) is None,
        },
{
    match record.data() {
        RecordData::File { path, name: _ } => match outcome {
            ConsumeOutcome::Exhausted => Some(path.clone()),
            _ => None,
        },
        _ => None,
    }
}

/// The record served for `slug` at `now`: the one stored under it, unless
/// it is exhausted or expired.
pub open spec fn fetch_spec(m: Map<Seq<char>, RecordModel>, slug: Seq<char>, now: u64) -> Option<
    RecordModel,
> {
    if m.contains_key(slug) && m[slug].live(now) {
        Some(m[slug])
    } else {
        None
    }
}

/// The backend after `r` was written under its slug.
pub open spec fn ingest_spec(m: Map<Seq<char>, RecordModel>, r: RecordModel) -> Map<
    Seq<char>,
    RecordModel,
> {
    m.insert(r.slug, r)
}

/// The record stored as `r` with its counter set to `left`.
pub open spec fn with_remaining(r: RecordModel, left: u64) -> RecordModel {
    RecordModel { remaining_accesses: Some(left), ..r }
}

/// One atomic step of access accounting for the slug of `r`: the backend
/// after it, and what it found. A record fetched without a counter changes
/// nothing. Otherwise the stored counter goes down by one, and the record
/// is deleted in the same step when that takes the last access.
pub open spec fn consume_spec(m: Map<Seq<char>, RecordModel>, r: RecordModel) -> (
    Map<Seq<char>, RecordModel>,
    ConsumeOutcome,
) {
    if r.remaining_accesses is None {
        (m, ConsumeOutcome::Unlimited)
    } else if !m.contains_key(r.slug) {
        (m, ConsumeOutcome::Gone)
    } else {
        match m[r.slug].remaining_accesses {
            None => (m, ConsumeOutcome::Unlimited),
            Some(left) => if left == 0 {
                (m.remove(r.slug), ConsumeOutcome::Gone)
            } else if left == 1 {
                (m.remove(r.slug), ConsumeOutcome::Exhausted)
            } else {
                (
                    m.insert(r.slug, with_remaining(m[r.slug], (left - 1) as u64)),
                    ConsumeOutcome::Remaining((left - 1) as u64),
                )
            },
        }
    }
}

/// Every record of `m` is stored under its own slug.
pub open spec fn keyed(m: Map<Seq<char>, RecordModel>) -> bool {
    forall|s: Seq<char>| m.contains_key(s) ==> (#[trigger] m[s]).slug == s
}

/// No two of `recs` share a slug.
spec fn distinct(recs: Seq<Record>) -> bool {
    forall|a: int, b: int|
        #![trigger recs[a], recs[b]]
        0 <= a < recs.len() && 0 <= b < recs.len() && recs[a]@.slug == recs[b]@.slug ==> a == b
}

/// Some record of `recs` has the slug `s`.
spec fn holds(recs: Seq<Record>, s: Seq<char>) -> bool {
    exists|i: int| 0 <= i < recs.len() && (#[trigger] recs[i])@.slug == s
}

/// A place in `recs` of a record with the slug `s`.
spec fn place(recs: Seq<Record>, s: Seq<char>) -> int {
    choose|i: int| 0 <= i < recs.len() && (#[trigger] recs[i])@.slug == s
}

/// The mapping from slugs to records that `recs` stands for.
spec fn mapping(recs: Seq<Record>) -> Map<Seq<char>, RecordModel> {
    Map::new(|s: Seq<char>| holds(recs, s), |s: Seq<char>| recs[place(recs, s)]@)
}

proof fn lemma_place(recs: Seq<Record>, i: int)
    requires
        distinct(recs),
        0 <= i < recs.len(),
    ensures
        holds(recs, recs[i]@.slug),
        place(recs, recs[i]@.slug) == i,
        mapping(recs).contains_key(recs[i]@.slug),
        mapping(recs)[recs[i]@.slug] == recs[i]@,
{
    let s = recs[i]@.slug;
    assert(holds(recs, s));
    let j = place(recs, s);
    assert(recs[j]@.slug == recs[i]@.slug);
}

proof fn lemma_replace(recs: Seq<Record>, i: int, r: Record)
    requires
        distinct(recs),
        0 <= i < recs.len(),
        r@.slug == recs[i]@.slug,
    ensures
        distinct(recs.update(i, r)),
        mapping(recs.update(i, r)) == mapping(recs).insert(r@.slug, r@),
{
    let next = recs.update(i, r);
    assert forall|a: int, b: int|
        #![trigger next[a], next[b]]
        0 <= a < next.len() && 0 <= b < next.len() && next[a]@.slug == next[b]@.slug implies a
        == b by {
        assert(recs[a]@.slug == next[a]@.slug);
        assert(recs[b]@.slug == next[b]@.slug);
    }
    let want = mapping(recs).insert(r@.slug, r@);
    assert forall|s: Seq<char>| mapping(next).contains_key(s) == want.contains_key(s) by {
        if holds(next, s) {
            let j = place(next, s);
            assert(recs[j]@.slug == s);
        }
        if holds(recs, s) {
            let j = place(recs, s);
            assert(next[j]@.slug == s);
        }
        if s == r@.slug {
            assert(next[i]@.slug == s);
        }
    }
    assert forall|s: Seq<char>| mapping(next).contains_key(s) implies mapping(next)[s] == want[s] by {
        let j = place(next, s);
        assert(next[j]@.slug == s);
        assert(recs[j]@.slug == s);
        lemma_place(recs, j);
        if j == i {
            assert(s == r@.slug);
        } else {
            assert(next[j] == recs[j]);
        }
    }
    assert(mapping(next) =~= want);
}

proof fn lemma_append(recs: Seq<Record>, r: Record)
    requires
        distinct(recs),
        !holds(recs, r@.slug),
    ensures
        distinct(recs.push(r)),
        mapping(recs.push(r)) == mapping(recs).insert(r@.slug, r@),
{
    let next = recs.push(r);
    let n = recs.len() as int;
    assert forall|a: int, b: int|
        #![trigger next[a], next[b]]
        0 <= a < next.len() && 0 <= b < next.len() && next[a]@.slug == next[b]@.slug implies a
        == b by {
        if a < n {
            assert(recs[a]@.slug == next[a]@.slug);
        }
        if b < n {
            assert(recs[b]@.slug == next[b]@.slug);
        }
    }
    let want = mapping(recs).insert(r@.slug, r@);
    assert forall|s: Seq<char>| mapping(next).contains_key(s) == want.contains_key(s) by {
        if holds(next, s) {
            let j = place(next, s);
            if j < n {
                assert(recs[j]@.slug == s);
            }
        }
        if holds(recs, s) {
            let j = place(recs, s);
            assert(next[j]@.slug == s);
        }
        if s == r@.slug {
            assert(next[n]@.slug == s);
        }
    }
    assert forall|s: Seq<char>| mapping(next).contains_key(s) implies mapping(next)[s] == want[s] by {
        let j = place(next, s);
        assert(next[j]@.slug == s);
        if j < n {
            assert(recs[j]@.slug == s);
            lemma_place(recs, j);
        }
    }
    assert(mapping(next) =~= want);
}

proof fn lemma_delete(recs: Seq<Record>, i: int)
    requires
        distinct(recs),
        0 <= i < recs.len(),
    ensures
        distinct(recs.remove(i)),
        mapping(recs.remove(i)) == mapping(recs).remove(recs[i]@.slug),
{
    let next = recs.remove(i);
    let gone = recs[i]@.slug;
    assert forall|a: int, b: int|
        #![trigger next[a], next[b]]
        0 <= a < next.len() && 0 <= b < next.len() && next[a]@.slug == next[b]@.slug implies a
        == b by {
        let a0 = if a < i { a } else { a + 1 };
        let b0 = if b < i { b } else { b + 1 };
        assert(next[a] == recs[a0]);
        assert(next[b] == recs[b0]);
    }
    let want = mapping(recs).remove(gone);
    assert forall|s: Seq<char>| mapping(next).contains_key(s) == want.contains_key(s) by {
        if holds(next, s) {
            let j = place(next, s);
            let j0 = if j < i { j } else { j + 1 };
            assert(next[j] == recs[j0]);
            assert(recs[j0]@.slug == s);
            assert(recs[i]@.slug == gone);
        }
        if holds(recs, s) && s != gone {
            let j = place(recs, s);
            let j1 = if j < i { j } else { j - 1 };
            assert(next[j1] == recs[j]);
            assert(next[j1]@.slug == s);
        }
    }
    assert forall|s: Seq<char>| mapping(next).contains_key(s) implies mapping(next)[s] == want[s] by {
        let j = place(next, s);
        let j0 = if j < i { j } else { j + 1 };
        assert(next[j] == recs[j0]);
        lemma_place(recs, j0);
    }
    assert(mapping(next) =~= want);
}

/// A backend held in memory: the records, each under its own slug.
pub struct Store {
    records: Vec<Record>,
}

impl View for Store {
    type V = Map<Seq<char>, RecordModel>;

    closed spec fn view(&self) -> Map<Seq<char>, RecordModel> {
        mapping(self.records@)
    }
}

impl Store {
    /// No slug is stored twice.
    pub closed spec fn wf(&self) -> bool {
        distinct(self.records@)
    }

    pub fn new() -> (r: Store)
        ensures
            r.wf(),
            r@ == Map::<Seq<char>, RecordModel>::empty(),
    {
        let r = Store { records: Vec::new() };
        assert(r@ =~= Map::<Seq<char>, RecordModel>::empty());
        r
    }

    fn find(&self, slug: &str) -> (r: Option<usize>)
        ensures
            match r {
                Some(i) => i < self.records.len() && self.records[i as int]@.slug == slug@,
                None => !holds(self.records@, slug@),
            },
    {
        let key: String = String::from_str(slug);
        let mut i: usize = 0;
        while i < self.records.len()
            invariant
                i <= self.records.len(),
                key@ == slug@,
                forall|j: int| 0 <= j < i ==> (#[trigger] self.records@[j])@.slug != slug@,
            decreases self.records.len() - i,
        {
            if self.records[i].has_slug(&key) {
                return Some(i);
            }
            i += 1;
        }
        None
    }

    /// Writes `record` under its slug, in place of what was there.
    pub fn ingest(&mut self, record: Record)
        requires
            old(self).wf(),
        ensures
            final(self).wf(),
            final(self)@ == ingest_spec(old(self)@, record@),
    {
        match self.find(record.slug()) {
            Some(i) => {
                proof {
                    lemma_replace(self.records@, i as int, record);
                }
                self.records.set(i, record);
            },
            None => {
                proof {
                    lemma_append(self.records@, record);
                }
                self.records.push(record);
            },
        }
    }

    /// Looks `slug` up at the time `now`, and changes nothing.
    pub fn fetch(&self, slug: &str, now: u64) -> (r: Option<Record>)
        requires
            self.wf(),
        ensures
            match r {
                Some(record) => fetch_spec(self@, slug@, now) == Some(record@),
                None => fetch_spec(self@, slug@, now) is None,
            },
    {
        match self.find(slug) {
            Some(i) => {
                proof {
                    lemma_place(self.records@, i as int);
                }
                if self.records[i].is_live(now) {
                    Some(self.records[i].clone())
                } else {
                    None
                }
            },
            None => None,
        }
    }

    /// Accounts for one access to `record`, in one step: the counter stored
    /// under its slug goes down by one, and the record is deleted when that
    /// was its last access.
    pub fn consume(&mut self, record: &Record) -> (r: ConsumeOutcome)
        requires
            old(self).wf(),
        ensures
            final(self).wf(),
            (final(self)@, r) == consume_spec(old(self)@, record@),
    {
        if record.remaining_accesses().is_none() {
            return ConsumeOutcome::Unlimited;
        }
        match self.find(record.slug()) {
            None => ConsumeOutcome::Gone,
            Some(i) => {
                proof {
                    lemma_place(self.records@, i as int);
                }
                match self.records[i].remaining_accesses() {
                    None => ConsumeOutcome::Unlimited,
                    Some(left) => {
                        if left <= 1 {
                            proof {
                                lemma_delete(self.records@, i as int);
                            }
                            self.records.remove(i);
                            if left == 0 {
                                ConsumeOutcome::Gone
                            } else {
                                ConsumeOutcome::Exhausted
                            }
                        } else {
                            let next: u64 = left - 1;
                            let updated: Record = self.records[i].clone().with_remaining_accesses(
                                next,
                            );
                            proof {
                                lemma_replace(self.records@, i as int, updated);
                            }
                            self.records.set(i, updated);
                            ConsumeOutcome::Remaining(next)
                        }
                    },
                }
            },
        }
    }

    /// The store holds each record under the record's own slug.
    pub proof fn lemma_keyed(&self)
        requires
            self.wf(),
        ensures
            keyed(self@),
    {
        assert forall|s: Seq<char>| self@.contains_key(s) implies (#[trigger] self@[s]).slug
            == s by {
            let j = place(self.records@, s);
            assert(self.records@[j]@.slug == s);
        }
    }

    /// The number of records stored.
    pub fn len(&self) -> (r: usize)
        requires
            self.wf(),
        ensures
            r == self@.dom().len(),
            self@.dom().finite(),
    {
        proof {
            lemma_size(self.records@);
        }
        self.records.len()
    }
}

proof fn lemma_size(recs: Seq<Record>)
    requires
        distinct(recs),
    ensures
        mapping(recs).dom().finite(),
        mapping(recs).dom().len() == recs.len(),
    decreases recs.len(),
{
    if recs.len() == 0 {
        assert(mapping(recs).dom() =~= Set::<Seq<char>>::empty());
    } else {
        let last = recs.len() - 1;
        let front = recs.remove(last);
        lemma_delete(recs, last);
        lemma_size(front);
        lemma_place(recs, last);
        let s = recs[last]@.slug;
        assert(mapping(recs).dom() =~= mapping(front).dom().insert(s));
    }
}

} // verus!
