use vstd::prelude::*;
use crate::api::get::{fail_spec, get_spec, resolve_spec, ActionModel, EventModel, StageModel};
use crate::dispatch::{rendered, Response};
use crate::error::Failure;
use crate::types::{Payload, RecordModel};
use crate::store::{consume_spec, fetch_spec, ingest_spec, keyed, with_remaining, ConsumeOutcome};

verus! {

/// The backend after `n` accounting steps for `r`, taken one after another,
/// and what each of them found. The step is atomic, so calls made at the
/// same time take effect in some such order.
pub open spec fn consume_times(m: Map<Seq<char>, RecordModel>, r: RecordModel, n: nat) -> (
    Map<Seq<char>, RecordModel>,
    Seq<ConsumeOutcome>,
)
    decreases n,
{
    if n == 0 {
        (m, Seq::<ConsumeOutcome>::empty())
    } else {
        let before = consume_times(m, r, (n - 1) as nat);
        let step = consume_spec(before.0, r);
        (step.0, before.1.push(step.1))
    }
}

/// How many of `outcomes` found the record still there.
pub open spec fn count_found(outcomes: Seq<ConsumeOutcome>) -> nat
    decreases outcomes.len(),
{
    if outcomes.len() == 0 {
        0
    } else {
        count_found(outcomes.drop_last()) + if outcomes.last().found() {
            1nat
        } else {
            0nat
        }
    }
}

/// What the call number `i`, counted from 0, finds of a record that had
/// `k` accesses left before the first call.
pub open spec fn nth_outcome(k: u64, i: int) -> ConsumeOutcome {
    if i + 1 < k {
        ConsumeOutcome::Remaining((k - 1 - i) as u64)
    } else if i + 1 == k {
        ConsumeOutcome::Exhausted
    } else {
        ConsumeOutcome::Gone
    }
}

/// The backend after `n` calls for a record that had `k` accesses left.
pub open spec fn after_calls(m: Map<Seq<char>, RecordModel>, slug: Seq<char>, k: u64, n: nat) -> Map<
    Seq<char>,
    RecordModel,
> {
    if n < k {
        m.insert(slug, with_remaining(m[slug], (k - n) as u64))
    } else {
        m.remove(slug)
    }
}

/// Of a record with `k > 0` accesses left, any number `n` of accounting
/// steps leaves the counter at `k - n` while `n < k` and the record deleted
/// from the `k`-th step on. The steps find, in turn, what [`nth_outcome`]
/// says, and `min(n, k)` of them find the record.
pub proof fn law_consume_counts_down(m: Map<Seq<char>, RecordModel>, r: RecordModel, k: u64, n: nat)
    requires
        m.contains_key(r.slug),
        m[r.slug].remaining_accesses == Some(k),
        k > 0,
        r.remaining_accesses is Some,
    ensures
        consume_times(m, r, n).0 == after_calls(m, r.slug, k, n),
        consume_times(m, r, n).1.len() == n,
        forall|i: int| 0 <= i < n ==> consume_times(m, r, n).1[i] == nth_outcome(k, i),
        count_found(consume_times(m, r, n).1) == if n < k {
            n
        } else {
            k as nat
        },
    decreases n,
{
    if n == 0 {
        assert(after_calls(m, r.slug, k, 0) =~= m);
    } else {
        let p = (n - 1) as nat;
        law_consume_counts_down(m, r, k, p);
        let before = consume_times(m, r, p);
        let step = consume_spec(before.0, r);
        let outs = before.1.push(step.1);
        assert(outs.drop_last() =~= before.1);
        assert(outs.last() == step.1);
        if p < k {
            assert(before.0.contains_key(r.slug));
            assert(before.0[r.slug].remaining_accesses == Some((k - p) as u64));
            assert(step.1 == nth_outcome(k, p as int));
            if n < k {
                assert(step.0 =~= after_calls(m, r.slug, k, n));
            } else {
                assert(step.0 =~= after_calls(m, r.slug, k, n));
            }
        } else {
            assert(!before.0.contains_key(r.slug));
            assert(step.0 =~= after_calls(m, r.slug, k, n));
        }
    }
}

/// Where `n >= k` calls account for accesses to a record that has `k > 0`
/// accesses left, exactly `k` of them find the record and `n - k` find it
/// gone; the record is deleted by the `k`-th call, by no other, and nothing
/// else in the backend changes.
pub proof fn law_last_access_is_taken_once(
    m: Map<Seq<char>, RecordModel>,
    r: RecordModel,
    k: u64,
    n: nat,
)
    requires
        m.contains_key(r.slug),
        m[r.slug].remaining_accesses == Some(k),
        k > 0,
        r.remaining_accesses is Some,
        n >= k,
    ensures
        consume_times(m, r, n).1.len() == n,
        count_found(consume_times(m, r, n).1) == k,
        n - count_found(consume_times(m, r, n).1) == n - k,
        forall|i: int|
            0 <= i < n ==> (#[trigger] consume_times(m, r, n).1[i] == ConsumeOutcome::Gone <==> i
                >= k),
        forall|i: int|
            0 <= i < n ==> (#[trigger] consume_times(m, r, n).1[i] == ConsumeOutcome::Exhausted
                <==> i == k - 1),
        consume_times(m, r, n).0 == m.remove(r.slug),
        forall|j: nat| j < k ==> (#[trigger] consume_times(m, r, j)).0.contains_key(r.slug),
{
    law_consume_counts_down(m, r, k, n);
    assert forall|i: int| 0 <= i < n implies (#[trigger] consume_times(m, r, n).1[i]
        == ConsumeOutcome::Gone <==> i >= k) by {
        assert(consume_times(m, r, n).1[i] == nth_outcome(k, i));
    }
    assert forall|i: int| 0 <= i < n implies (#[trigger] consume_times(m, r, n).1[i]
        == ConsumeOutcome::Exhausted <==> i == k - 1) by {
        assert(consume_times(m, r, n).1[i] == nth_outcome(k, i));
    }
    assert forall|j: nat| j < k implies (#[trigger] consume_times(m, r, j)).0.contains_key(
        r.slug,
    ) by {
        law_consume_counts_down(m, r, k, j);
    }
}

/// The accounting step reads of the record it is given only the slug and
/// whether there is a counter: two fetched copies of one record, whatever
/// count each of them saw, are accounted for alike. So the laws on
/// repeated calls hold as well where each call has a copy of its own.
pub proof fn law_consume_goes_by_the_slug(
    m: Map<Seq<char>, RecordModel>,
    r1: RecordModel,
    r2: RecordModel,
)
    requires
        r1.slug == r2.slug,
        r1.remaining_accesses is Some <==> r2.remaining_accesses is Some,
    ensures
        consume_spec(m, r1) == consume_spec(m, r2),
{
}

/// Accounting for an access to one slug leaves every other slug as it
/// was, and two steps for different slugs come to the same in either
/// order: requests for different records do not contend.
pub proof fn law_slugs_do_not_contend(
    m: Map<Seq<char>, RecordModel>,
    r1: RecordModel,
    r2: RecordModel,
    other: Seq<char>,
)
    requires
        r1.slug != r2.slug,
        other != r1.slug,
    ensures
        consume_spec(m, r1).0.contains_key(other) == m.contains_key(other),
        m.contains_key(other) ==> consume_spec(m, r1).0[other] == m[other],
        consume_spec(consume_spec(m, r1).0, r2).0 == consume_spec(consume_spec(m, r2).0, r1).0,
        consume_spec(consume_spec(m, r1).0, r2).1 == consume_spec(m, r2).1,
        consume_spec(consume_spec(m, r2).0, r1).1 == consume_spec(m, r1).1,
{
    let a = consume_spec(consume_spec(m, r1).0, r2).0;
    let b = consume_spec(consume_spec(m, r2).0, r1).0;
    assert(a =~= b);
}

/// A slug that is absent, or whose record is exhausted, is not found: the
/// backend hands out nothing for it, and a request that is handed such a
/// record all the same fails as not found.
pub proof fn law_exhausted_is_not_found(
    m: Map<Seq<char>, RecordModel>,
    slug: Seq<char>,
    now: u64,
)
    requires
        !m.contains_key(slug) || m[slug].exhausted(),
    ensures
        fetch_spec(m, slug, now) is None,
        resolve_spec(slug, fetch_spec(m, slug, now)) == fail_spec(Failure::NotFound(slug)),
        m.contains_key(slug) ==> resolve_spec(slug, Some(m[slug])) == fail_spec(
            Failure::NotFound(slug),
        ),
{
}

/// Once a call has taken the last access, or found the record gone, no
/// fetch finds the record again.
pub proof fn law_consumed_record_is_gone(m: Map<Seq<char>, RecordModel>, r: RecordModel, now: u64)
    requires
        consume_spec(m, r).1 == ConsumeOutcome::Exhausted || consume_spec(m, r).1
            == ConsumeOutcome::Gone,
    ensures
        fetch_spec(consume_spec(m, r).0, r.slug, now) is None,
{
}

/// A fetch followed by the accounting for it takes exactly one access: of a
/// record fetched with `k > 1` accesses left, `k - 1` are left afterwards,
/// and the rest of the backend is as before.
pub proof fn law_one_access_counts_once(
    m: Map<Seq<char>, RecordModel>,
    slug: Seq<char>,
    now: u64,
    r: RecordModel,
    k: u64,
)
    requires
        keyed(m),
        fetch_spec(m, slug, now) == Some(r),
        r.remaining_accesses == Some(k),
        k > 1,
    ensures
        consume_spec(m, r).1 == ConsumeOutcome::Remaining((k - 1) as u64),
        consume_spec(m, r).0 == m.insert(slug, with_remaining(r, (k - 1) as u64)),
        consume_spec(m, r).0[slug].remaining_accesses == Some((k - 1) as u64),
{
    assert(m[slug].slug == slug);
}

/// Accounting for accesses to a record without a counter never changes the
/// backend, however often it is done.
pub proof fn law_unlimited_is_never_deleted(m: Map<Seq<char>, RecordModel>, r: RecordModel, n: nat)
    requires
        r.remaining_accesses is None || (m.contains_key(r.slug) && m[r.slug].remaining_accesses
            is None),
    ensures
        consume_times(m, r, n).0 == m,
        consume_times(m, r, n).1.len() == n,
        forall|i: int|
            0 <= i < n ==> #[trigger] consume_times(m, r, n).1[i] == ConsumeOutcome::Unlimited,
    decreases n,
{
    if n > 0 {
        law_unlimited_is_never_deleted(m, r, (n - 1) as nat);
    }
}

/// A paste that is written to the backend and fetched while it is live
/// comes back as it was written, and is rendered as its body, character
/// for character.
pub proof fn law_paste_round_trip(
    m: Map<Seq<char>, RecordModel>,
    r: RecordModel,
    body: Seq<char>,
    now: u64,
)
    requires
        r.data == (Payload::Paste { body }),
        r.live(now),
    ensures
        fetch_spec(ingest_spec(m, r), r.slug, now) == Some(r),
        rendered(fetch_spec(ingest_spec(m, r), r.slug, now).unwrap().data) == Ok::<
            Response,
            Failure,
        >(Response::Paste { body }),
{
}

/// The response is rendered before the access is accounted for. Whenever
/// a decision asks to consume a record, the request holds from then on the
/// response rendered from that very record; whenever it asks to open a
/// file, the path is that of the record it holds; and a request ends, with
/// a response or a failure, in the finished stage and nowhere else.
pub proof fn law_render_precedes_consume(stage: StageModel, event: EventModel)
    requires
        stage.sound(),
        get_spec(stage, event) is Some,
    ensures
        get_spec(stage, event).unwrap().0.sound(),
        match get_spec(stage, event).unwrap().1 {
            ActionModel::Consume { record } => {
                &&& record.remaining_accesses is Some
                &&& !record.exhausted()
                &&& get_spec(stage, event).unwrap().0 matches StageModel::Consuming { response }
                &&& rendered(record.data) == Ok::<Response, Failure>(response)
            },
            ActionModel::OpenFile { path } => {
                &&& get_spec(stage, event).unwrap().0 matches StageModel::Opening { record, response }
                &&& record.data matches Payload::File { path: stored, name }
                &&& stored == path
            },
            ActionModel::Respond { response, warning } => get_spec(stage, event).unwrap().0
                == StageModel::Finished,
            ActionModel::Fail(f) => get_spec(stage, event).unwrap().0 == StageModel::Finished,
            _ => get_spec(stage, event).unwrap().0 != StageModel::Finished,
        },
{
}

/// Every decision brings a request nearer to its end: no request takes
/// more than five of them.
pub proof fn law_request_makes_progress(stage: StageModel, event: EventModel)
    requires
        get_spec(stage, event) is Some,
    ensures
        get_spec(stage, event).unwrap().0.rank() < stage.rank(),
        stage.rank() <= 5,
{
}

/// A failure of the backend is never taken for the absence of a record:
/// whatever the stage, a decision on that event does not fail as not
/// found, and before the response is ready it fails as unavailable.
pub proof fn law_backend_failure_is_not_absence(stage: StageModel)
    requires
        get_spec(stage, EventModel::BackendFailed) is Some,
    ensures
        !(get_spec(stage, EventModel::BackendFailed).unwrap().1 matches ActionModel::Fail(
            Failure::NotFound(_),
        )),
        stage is Connecting || stage is Fetching ==> get_spec(
            stage,
            EventModel::BackendFailed,
        ).unwrap() == fail_spec(Failure::BackendUnavailable),
{
}

} // verus!
