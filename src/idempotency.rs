use vstd::prelude::*;
use vstd::string::StringExecFns;
use crate::keys::{idem_key, spec_idem_key};
use crate::pipeline::{next_stage, spec_outcome, Action, OutcomeView, Reply, Stage};

verus! {

/// The write that finalizes a reservation: the request id maps to
/// `notification_id` for `ttl_secs`, whatever the key held. Only the owner
/// of the reservation issues it.
pub fn idempotency_finalize(request_id: &str, notification_id: &str, ttl_secs: u64) -> (r: Action)
    ensures
        r is SetEx,
        r->SetEx_key@ == spec_idem_key(request_id@),
        r->SetEx_value@ == notification_id@,
        r->SetEx_secs == ttl_secs,
{
    Action::SetEx { key: idem_key(request_id), value: String::from_str(notification_id), secs: ttl_secs }
}

/// One store round trip of a reservation on a shared idempotency key whose
/// value is `value`: the stage's operation runs atomically against the key
/// (the claim writes the marker together with its expiry), and the stage
/// moves on by the pipeline's own rule. A reservation that has returned (its
/// key claimed and publishing, or a prior value found) stays put.
pub open spec fn reserve_step(stage: Stage, value: Option<String>, sentinel: String) -> (Stage, Option<String>) {
    match stage {
        Stage::CheckingKey => (next_stage(stage, Reply::Flag(value is Some), 0), value),
        Stage::ReadingKey => (next_stage(stage, Reply::Value(value), 0), value),
        Stage::Claiming => if value is None {
            (next_stage(stage, Reply::Flag(true), 0), Some(sentinel))
        } else {
            (next_stage(stage, Reply::Flag(false), 0), value)
        },
        _ => (stage, value),
    }
}

/// Concurrent reservations of one request id, and the value of its key.
pub struct Race {
    pub stages: Seq<Stage>,
    pub value: Option<String>,
}

/// Caller `k` performs its next round trip.
pub open spec fn race_step(r: Race, k: int, sentinel: String) -> Race {
    if 0 <= k < r.stages.len() {
        let s = reserve_step(r.stages[k], r.value, sentinel);
        Race { stages: r.stages.update(k, s.0), value: s.1 }
    } else {
        r
    }
}

/// The race after round trips in the order of `schedule`.
pub open spec fn run_race(r: Race, schedule: Seq<int>, sentinel: String) -> Race
    decreases schedule.len(),
{
    if schedule.len() == 0 {
        r
    } else {
        race_step(run_race(r, schedule.drop_last(), sentinel), schedule.last(), sentinel)
    }
}

/// `n` callers about to reserve a key that no one holds.
pub open spec fn fresh_race(n: nat) -> Race {
    Race { stages: Seq::new(n, |i: int| Stage::CheckingKey), value: None }
}

/// The caller won the create-if-absent write: its reservation returns no prior value.
pub open spec fn claimed(s: Stage) -> bool {
    s is Publishing
}

/// The caller's reservation has returned.
pub open spec fn returned(s: Stage) -> bool {
    s is Publishing || s is Finished
}

pub open spec fn in_reserve(s: Stage) -> bool {
    s is CheckingKey || s is ReadingKey || s is Claiming || s is Publishing || s is Finished
}

pub open spec fn race_inv(r: Race) -> bool {
    &&& forall|i: int| 0 <= i < r.stages.len() ==> in_reserve(#[trigger] r.stages[i])
    &&& forall|i: int, j: int|
        0 <= i < r.stages.len() && 0 <= j < r.stages.len() && claimed(#[trigger] r.stages[i])
            && claimed(#[trigger] r.stages[j]) ==> i == j
    &&& r.value is Some <==> exists|i: int| 0 <= i < r.stages.len() && claimed(#[trigger] r.stages[i])
    &&& forall|i: int| 0 <= i < r.stages.len() && #[trigger] r.stages[i] is Finished ==> r.value is Some
}

proof fn lemma_race_step(r: Race, k: int, sentinel: String)
    requires
        race_inv(r),
    ensures
        race_inv(race_step(r, k, sentinel)),
{
    if 0 <= k < r.stages.len() {
        let s = r.stages[k];
        let r2 = race_step(r, k, sentinel);
        assert(r2.stages.len() == r.stages.len());
        assert(forall|i: int| 0 <= i < r.stages.len() && i != k ==> r2.stages[i] == r.stages[i]);
        if claimed(s) {
            // the claimant moves on and stays the claimant
            assert(claimed(r2.stages[k]));
            assert(r2.value == r.value);
        } else if s is Claiming && r.value is None {
            assert(claimed(r2.stages[k]));
            assert forall|i: int| 0 <= i < r.stages.len() && i != k implies !claimed(#[trigger] r2.stages[i]) by {
                if claimed(r2.stages[i]) {
                    assert(claimed(r.stages[i]));
                }
            }
        } else {
            assert(!claimed(r2.stages[k]));
            assert(r2.value == r.value);
            if r.value is Some {
                let w = choose|i: int| 0 <= i < r.stages.len() && claimed(#[trigger] r.stages[i]);
                assert(w != k);
                assert(claimed(r2.stages[w]));
            } else {
                assert forall|i: int| 0 <= i < r.stages.len() implies !claimed(#[trigger] r2.stages[i]) by {
                    if i != k {
                        assert(!claimed(r.stages[i]));
                    }
                }
            }
        }
    }
}

proof fn lemma_run_race(r: Race, schedule: Seq<int>, sentinel: String)
    requires
        race_inv(r),
    ensures
        race_inv(run_race(r, schedule, sentinel)),
        run_race(r, schedule, sentinel).stages.len() == r.stages.len(),
    decreases schedule.len(),
{
    if schedule.len() > 0 {
        lemma_run_race(r, schedule.drop_last(), sentinel);
        lemma_race_step(run_race(r, schedule.drop_last(), sentinel), schedule.last(), sentinel);
    }
}

/// At most one enqueue per request id: however `n` concurrent reservations
/// of a key that no one holds interleave, at most one caller wins the key;
/// a caller that finds a prior value finds it only after some caller won;
/// and once every reservation has returned, exactly one returned no prior
/// value while all the others returned the value they observed.
pub proof fn lemma_single_reservation(n: nat, schedule: Seq<int>, sentinel: String)
    ensures
        ({
            let r = run_race(fresh_race(n), schedule, sentinel);
            &&& r.stages.len() == n
            &&& forall|i: int, j: int|
                0 <= i < n && 0 <= j < n && claimed(#[trigger] r.stages[i]) && claimed(
                    #[trigger] r.stages[j],
                ) ==> i == j
            &&& (exists|i: int| 0 <= i < n && #[trigger] r.stages[i] is Finished) ==> (exists|i: int|
                0 <= i < n && claimed(#[trigger] r.stages[i]))
            &&& (n > 0 && forall|i: int| 0 <= i < n ==> returned(#[trigger] r.stages[i])) ==> (exists|
                i: int,
            | 0 <= i < n && #[trigger] r.stages[i] is Publishing)
        }),
{
    let r0 = fresh_race(n);
    assert(race_inv(r0));
    lemma_run_race(r0, schedule, sentinel);
    let r = run_race(r0, schedule, sentinel);
    if n > 0 && forall|i: int| 0 <= i < n ==> returned(#[trigger] r.stages[i]) {
        if r.value is Some {
            let w = choose|i: int| 0 <= i < r.stages.len() && claimed(#[trigger] r.stages[i]);
            assert(returned(r.stages[w]));
            assert(r.stages[w] is Publishing);
        } else {
            assert(returned(r.stages[0]));
            assert(r.stages[0] is Finished);
        }
    }
}

proof fn lemma_resubmission_run(x: String, schedule: Seq<int>, sentinel: String)
    ensures
        ({
            let r = run_race(Race { stages: seq![Stage::CheckingKey], value: Some(x) }, schedule, sentinel);
            &&& r.stages.len() == 1
            &&& r.value == Some(x)
            &&& (r.stages[0] is CheckingKey || r.stages[0] is ReadingKey || r.stages[0] is Finished)
        }),
    decreases schedule.len(),
{
    if schedule.len() > 0 {
        lemma_resubmission_run(x, schedule.drop_last(), sentinel);
    }
}

/// Resubmission: once a request id maps to the id `x` of an earlier
/// submission, a later submission with that request id never wins the key,
/// so it publishes nothing, and when its reservation reads the key it answers
/// with `x` as a duplicate.
pub proof fn lemma_resubmission(x: String, schedule: Seq<int>, sentinel: String, limit: u32, id: Seq<char>)
    ensures
        ({
            let r = run_race(Race { stages: seq![Stage::CheckingKey], value: Some(x) }, schedule, sentinel);
            &&& r.value == Some(x)
            &&& !claimed(r.stages[0])
        }),
        next_stage(Stage::ReadingKey, Reply::Value(Some(x)), limit) == Stage::Finished,
        spec_outcome(Stage::ReadingKey, Reply::Value(Some(x)), id) == OutcomeView::Duplicate(x@),
{
    lemma_resubmission_run(x, schedule, sentinel);
}

} // verus!
