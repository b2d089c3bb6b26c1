//! What holds of every run of a generator: identifiers strictly increase, so
//! they never repeat, they carry the generator's identity, and one millisecond
//! never holds more identifiers than the sequence field has values.
use vstd::prelude::*;
use crate::generator::{last_issued, run, state_wf, step, Attempt, GeneratorState, IdError};
use crate::layout::{
    compose, datacenter_field, fields_in_range, lemma_decode_compose, sequence_field,
    timestamp_field, worker_field, MAX_SEQUENCE,
};

verus! {

/// Every clock reading fits an `i64`.
pub open spec fn readings_fit(nows: Seq<int>) -> bool {
    forall|i: int| 0 <= i < nows.len() ==> i64::MIN <= #[trigger] nows[i] <= i64::MAX
}

/// Two states of one generator: same identity and epoch offset.
pub open spec fn same_identity(a: GeneratorState, b: GeneratorState) -> bool {
    &&& a.worker_id == b.worker_id
    &&& a.datacenter_id == b.datacenter_id
    &&& a.epoch_offset == b.epoch_offset
}

/// `id` is an identifier of the generator in state `s`: its fields are in range
/// and its datacenter and worker fields are those of `s`.
pub open spec fn issued_by(id: int, s: GeneratorState) -> bool {
    &&& fields_in_range(timestamp_field(id), datacenter_field(id), worker_field(id), sequence_field(id))
    &&& datacenter_field(id) == s.datacenter_id
    &&& worker_field(id) == s.worker_id
    &&& id == compose(timestamp_field(id), s.datacenter_id, s.worker_id, sequence_field(id))
}

/// One step keeps the state well formed and the identity; an issued identifier
/// is above every earlier one, encodes the clock reading as its timestamp, and
/// becomes the last issued; a step that issues nothing changes nothing.
pub proof fn lemma_step(s: GeneratorState, now: int)
    requires
        state_wf(s),
        i64::MIN <= now <= i64::MAX,
    ensures
        state_wf(step(s, now).0),
        same_identity(s, step(s, now).0),
        step(s, now).1 matches Ok(Attempt::Issued(id)) ==> {
            &&& last_issued(s) < id
            &&& id as int == last_issued(step(s, now).0)
            &&& timestamp_field(id as int) == now - s.epoch_offset
            &&& s.last_timestamp <= timestamp_field(id as int)
            &&& issued_by(id as int, s)
        },
        !(step(s, now).1 matches Ok(Attempt::Issued(_))) ==> step(s, now).0 == s,
{
    let (n, r) = step(s, now);
    if let Ok(Attempt::Issued(id)) = r {
        lemma_decode_compose(n.last_timestamp, n.datacenter_id, n.worker_id, n.sequence);
        if s.last_timestamp >= 0 {
            lemma_decode_compose(s.last_timestamp, s.datacenter_id, s.worker_id, s.sequence);
        }
    }
}

/// Per-instance monotonicity: over any run of one generator, each identifier
/// issued is strictly greater than every one issued before it, within the run
/// and before it started, and all of them carry the generator's identity.
pub proof fn lemma_run_increasing(s: GeneratorState, nows: Seq<int>)
    requires
        state_wf(s),
        readings_fit(nows),
    ensures
        state_wf(run(s, nows).0),
        same_identity(s, run(s, nows).0),
        forall|i: int, j: int|
            0 <= i < j < run(s, nows).1.len() ==> run(s, nows).1[i] < run(s, nows).1[j],
        forall|i: int|
            0 <= i < run(s, nows).1.len() ==> last_issued(s) < #[trigger] run(s, nows).1[i]
                && run(s, nows).1[i] <= last_issued(run(s, nows).0),
        forall|i: int| 0 <= i < run(s, nows).1.len() ==> issued_by(#[trigger] run(s, nows).1[i] as int, s),
        last_issued(s) <= last_issued(run(s, nows).0),
    decreases nows.len(),
{
    if nows.len() > 0 {
        let (s1, r) = step(s, nows[0]);
        lemma_step(s, nows[0]);
        let rest = nows.drop_first();
        assert forall|i: int| 0 <= i < rest.len() implies i64::MIN <= #[trigger] rest[i] <= i64::MAX by {
            assert(rest[i] == nows[i + 1]);
        }
        lemma_run_increasing(s1, rest);
        let ids = run(s1, rest).1;
        if let Ok(Attempt::Issued(id)) = r {
            let all = seq![id] + ids;
            assert(run(s, nows).1 == all);
            assert forall|i: int| 0 <= i < all.len() implies issued_by(#[trigger] all[i] as int, s) by {
                if i > 0 {
                    assert(all[i] == ids[i - 1]);
                }
            }
        }
    }
}

/// Uniqueness: the identifiers issued over any run of one generator are
/// pairwise distinct.
pub proof fn lemma_run_unique(s: GeneratorState, nows: Seq<int>)
    requires
        state_wf(s),
        readings_fit(nows),
    ensures
        run(s, nows).1.no_duplicates(),
{
    lemma_run_increasing(s, nows);
}

/// Sequence bound: over any run of one generator, identifiers that share a
/// timestamp field have strictly increasing sequence fields, each at most
/// `MAX_SEQUENCE`; so one millisecond holds at most `MAX_SEQUENCE + 1` of them.
pub proof fn lemma_millisecond_budget(s: GeneratorState, nows: Seq<int>)
    requires
        state_wf(s),
        readings_fit(nows),
    ensures
        forall|i: int| 0 <= i < run(s, nows).1.len() ==>
            0 <= #[trigger] sequence_field(run(s, nows).1[i] as int) <= MAX_SEQUENCE,
        forall|i: int, j: int|
            0 <= i < j < run(s, nows).1.len() && timestamp_field(run(s, nows).1[i] as int)
                == timestamp_field(run(s, nows).1[j] as int) ==> sequence_field(run(s, nows).1[i] as int)
                < sequence_field(run(s, nows).1[j] as int),
{
    lemma_run_increasing(s, nows);
    let ids = run(s, nows).1;
    assert forall|i: int, j: int|
        0 <= i < j < ids.len() && timestamp_field(ids[i] as int) == timestamp_field(ids[j] as int)
        implies sequence_field(ids[i] as int) < sequence_field(ids[j] as int) by {
        assert(issued_by(ids[i] as int, s));
        assert(issued_by(ids[j] as int, s));
    }
    assert forall|i: int| 0 <= i < ids.len() implies 0 <= #[trigger] sequence_field(ids[i] as int)
        <= MAX_SEQUENCE by {
        assert(issued_by(ids[i] as int, s));
    }
}

/// How many of `ids` have `t` as their timestamp field.
pub open spec fn count_in_millisecond(ids: Seq<u64>, t: int) -> nat
    decreases ids.len(),
{
    if ids.len() == 0 {
        0
    } else {
        (if timestamp_field(ids[0] as int) == t { 1nat } else { 0nat })
            + count_in_millisecond(ids.drop_first(), t)
    }
}

/// Within one millisecond, sequence fields strictly increase and stay at most
/// `MAX_SEQUENCE`, so if all of them are at least `k` there are at most
/// `MAX_SEQUENCE + 1 - k` of them.
proof fn lemma_count_from(ids: Seq<u64>, t: int, k: int)
    requires
        0 <= k <= MAX_SEQUENCE + 1,
        forall|i: int| 0 <= i < ids.len() ==> #[trigger] sequence_field(ids[i] as int) <= MAX_SEQUENCE,
        forall|i: int, j: int|
            0 <= i < j < ids.len() && timestamp_field(ids[i] as int) == timestamp_field(ids[j] as int)
                ==> sequence_field(ids[i] as int) < sequence_field(ids[j] as int),
        forall|i: int|
            0 <= i < ids.len() && timestamp_field(ids[i] as int) == t ==> k <= #[trigger] sequence_field(
                ids[i] as int,
            ),
    ensures
        count_in_millisecond(ids, t) <= MAX_SEQUENCE + 1 - k,
        count_in_millisecond(ids, t) == MAX_SEQUENCE + 1 - k && k <= MAX_SEQUENCE ==> exists|i: int|
            0 <= i < ids.len() && timestamp_field(ids[i] as int) == t && #[trigger] sequence_field(
                ids[i] as int,
            ) == MAX_SEQUENCE,
    decreases ids.len(),
{
    if ids.len() > 0 {
        let rest = ids.drop_first();
        assert forall|i: int| 0 <= i < rest.len() implies #[trigger] sequence_field(rest[i] as int)
            <= MAX_SEQUENCE by {
            assert(rest[i] == ids[i + 1]);
            assert(sequence_field(ids[i + 1] as int) <= MAX_SEQUENCE);
        }
        assert forall|i: int, j: int|
            0 <= i < j < rest.len() && timestamp_field(rest[i] as int) == timestamp_field(rest[j] as int)
            implies sequence_field(rest[i] as int) < sequence_field(rest[j] as int) by {
            assert(rest[i] == ids[i + 1] && rest[j] == ids[j + 1]);
        }
        if timestamp_field(ids[0] as int) == t {
            let k2 = sequence_field(ids[0] as int) + 1;
            assert(sequence_field(ids[0] as int) <= MAX_SEQUENCE);
            assert forall|i: int|
                0 <= i < rest.len() && timestamp_field(rest[i] as int) == t implies k2
                <= #[trigger] sequence_field(rest[i] as int) by {
                assert(rest[i] == ids[i + 1]);
            }
            lemma_count_from(rest, t, k2);
            if count_in_millisecond(ids, t) == MAX_SEQUENCE + 1 - k && k <= MAX_SEQUENCE {
                if count_in_millisecond(rest, t) > 0 {
                    let i = choose|i: int|
                        0 <= i < rest.len() && timestamp_field(rest[i] as int) == t
                            && #[trigger] sequence_field(rest[i] as int) == MAX_SEQUENCE;
                    assert(rest[i] == ids[i + 1]);
                    assert(sequence_field(ids[i + 1] as int) == MAX_SEQUENCE);
                } else {
                    assert(sequence_field(ids[0] as int) == MAX_SEQUENCE);
                }
            }
        } else {
            assert forall|i: int|
                0 <= i < rest.len() && timestamp_field(rest[i] as int) == t implies k
                <= #[trigger] sequence_field(rest[i] as int) by {
                assert(rest[i] == ids[i + 1]);
            }
            lemma_count_from(rest, t, k);
            if count_in_millisecond(ids, t) == MAX_SEQUENCE + 1 - k && k <= MAX_SEQUENCE {
                let i = choose|i: int|
                    0 <= i < rest.len() && timestamp_field(rest[i] as int) == t
                        && #[trigger] sequence_field(rest[i] as int) == MAX_SEQUENCE;
                assert(rest[i] == ids[i + 1]);
                assert(sequence_field(ids[i + 1] as int) == MAX_SEQUENCE);
            }
        }
    }
}

/// Over any run of one generator, no millisecond holds more than
/// `MAX_SEQUENCE + 1` of the identifiers issued.
pub proof fn lemma_millisecond_count(s: GeneratorState, nows: Seq<int>, t: int)
    requires
        state_wf(s),
        readings_fit(nows),
    ensures
        count_in_millisecond(run(s, nows).1, t) <= MAX_SEQUENCE + 1,
{
    lemma_millisecond_budget(s, nows);
    lemma_count_from(run(s, nows).1, t, 0);
}

/// A spent millisecond: once a run of one generator has issued
/// `MAX_SEQUENCE + 1` identifiers with timestamp field `t`, a further attempt
/// with the clock still reading `t` issues nothing: it reports the spent
/// sequence, or a clock that moved backward if later identifiers were issued
/// meanwhile. When it reports the spent sequence, the next identifier issued
/// has a later timestamp field and sequence field 0.
pub proof fn lemma_spent_millisecond(s: GeneratorState, nows: Seq<int>, t: int, later: int)
    requires
        state_wf(s),
        readings_fit(nows),
        count_in_millisecond(run(s, nows).1, t) == MAX_SEQUENCE + 1,
        i64::MIN <= t + s.epoch_offset <= i64::MAX,
        i64::MIN <= later <= i64::MAX,
    ensures
        step(run(s, nows).0, t + s.epoch_offset).1 == Ok::<Attempt, IdError>(Attempt::SequenceExhausted)
            || step(run(s, nows).0, t + s.epoch_offset).1 is Err,
        step(run(s, nows).0, t + s.epoch_offset).1 == Ok::<Attempt, IdError>(Attempt::SequenceExhausted)
            ==> (step(run(s, nows).0, later).1 matches Ok(Attempt::Issued(id)) ==> timestamp_field(id as int)
            > t && sequence_field(id as int) == 0),
{
    let (s2, ids) = run(s, nows);
    lemma_millisecond_budget(s, nows);
    lemma_run_increasing(s, nows);
    lemma_count_from(ids, t, 0);
    let i = choose|i: int|
        0 <= i < ids.len() && timestamp_field(ids[i] as int) == t && #[trigger] sequence_field(ids[i] as int)
            == MAX_SEQUENCE;
    assert(issued_by(ids[i] as int, s));
    assert(ids[i] <= last_issued(s2));
    assert(ids[i] as int == compose(t, s.datacenter_id, s.worker_id, MAX_SEQUENCE as int));
    assert(s2.last_timestamp >= t);
    if s2.last_timestamp == t {
        assert(s2.sequence == MAX_SEQUENCE);
    }
    lemma_step(s2, later);
    if let Ok(Attempt::Issued(id)) = step(s2, later).1 {
        if step(s2, t + s.epoch_offset).1 == Ok::<Attempt, IdError>(Attempt::SequenceExhausted) {
            let n = step(s2, later).0;
            lemma_decode_compose(n.last_timestamp, n.datacenter_id, n.worker_id, n.sequence);
        }
    }
}

} // verus!
