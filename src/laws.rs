use vstd::prelude::*;
use crate::dispatch::{Failure, Outcome, SearchError, run, run_from};
use crate::query::is_blank;
use crate::station::Station;

verus! {

/// A blank query (empty, or whitespace only) succeeds with no stations and
/// asks no mirror, whatever the mirrors would have answered.
pub proof fn blank_query_asks_no_mirror<E>(q: Seq<char>, outs: Seq<Outcome<E>>)
    requires
        is_blank(q),
    ensures
        run(q, outs) == (0nat, Ok::<Seq<Station>, SearchError<E>>(Seq::empty())),
{
}

proof fn run_from_reaches_success<E>(outs: Seq<Outcome<E>>, j: nat, k: nat)
    requires
        j <= k < outs.len(),
        outs[k as int] is Success,
        forall|i: int| j <= i < k ==> (#[trigger] outs[i]) is Failed,
    ensures
        run_from(outs, j) == ((k + 1) as nat, Ok::<Seq<Station>, SearchError<E>>(outs[k as int]->Success_0@)),
    decreases k - j,
{
    if j < k {
        run_from_reaches_success(outs, j + 1, k);
    }
}

/// When the mirror at position `k` is the first that succeeds, exactly
/// `k + 1` mirrors are asked and the search returns that mirror's stations.
/// What the mirrors after `k` would answer, or how many there are, changes
/// nothing: they are never asked.
pub proof fn first_success_ends_search<E>(q: Seq<char>, outs: Seq<Outcome<E>>, k: nat)
    requires
        !is_blank(q),
        k < outs.len(),
        outs[k as int] is Success,
        forall|i: int| 0 <= i < k ==> (#[trigger] outs[i]) is Failed,
    ensures
        run(q, outs) == ((k + 1) as nat, Ok::<Seq<Station>, SearchError<E>>(outs[k as int]->Success_0@)),
        forall|other: Seq<Outcome<E>>|
            k < other.len() && other.subrange(0, k + 1 as int) == outs.subrange(0, k + 1 as int)
                ==> run(q, other) == #[trigger] run(q, outs),
{
    run_from_reaches_success(outs, 0, k);
    assert forall|other: Seq<Outcome<E>>|
        k < other.len() && other.subrange(0, k + 1 as int) == outs.subrange(0, k + 1 as int)
            implies run(q, other) == #[trigger] run(q, outs) by {
        assert forall|i: int| 0 <= i <= k implies other[i] == outs[i] by {
            assert(other[i] == other.subrange(0, k + 1 as int)[i]);
        }
        run_from_reaches_success(other, 0, k);
    }
}

proof fn run_from_all_failed<E>(outs: Seq<Outcome<E>>, j: nat)
    requires
        j < outs.len(),
        forall|i: int| j <= i < outs.len() ==> (#[trigger] outs[i]) is Failed,
    ensures
        run_from(outs, j) == (
            outs.len(),
            Err::<Seq<Station>, SearchError<E>>(SearchError::AllMirrorsFailed(outs.last()->Failed_0)),
        ),
    decreases outs.len() - j,
{
    if j + 1 < outs.len() {
        run_from_all_failed(outs, j + 1);
    }
}

/// When every mirror fails, all of them are asked and the search reports
/// the last mirror's failure alone: two registries whose mirrors all fail,
/// alike in length and in the last failure, give the same error whatever the
/// earlier mirrors' failures were.
pub proof fn last_failure_decides<E>(q: Seq<char>, outs: Seq<Outcome<E>>, other: Seq<Outcome<E>>)
    requires
        !is_blank(q),
        outs.len() > 0,
        other.len() == outs.len(),
        forall|i: int| 0 <= i < outs.len() ==> (#[trigger] outs[i]) is Failed,
        forall|i: int| 0 <= i < other.len() ==> (#[trigger] other[i]) is Failed,
        other.last() == outs.last(),
    ensures
        run(q, outs) == (
            outs.len(),
            Err::<Seq<Station>, SearchError<E>>(SearchError::AllMirrorsFailed(outs.last()->Failed_0)),
        ),
        run(q, other) == run(q, outs),
{
    run_from_all_failed(outs, 0);
    run_from_all_failed(other, 0);
}

proof fn run_from_same_tail<E>(a: Seq<Outcome<E>>, b: Seq<Outcome<E>>, j: nat)
    requires
        a.len() == b.len(),
        forall|i: int| j <= i < a.len() ==> a[i] == b[i],
    ensures
        run_from(a, j) == run_from(b, j),
    decreases a.len() - j,
{
    if j < a.len() {
        run_from_same_tail(a, b, j + 1);
    }
}

proof fn run_from_swapped_failure<E>(a: Seq<Outcome<E>>, b: Seq<Outcome<E>>, i: nat, j: nat)
    requires
        j <= i < a.len(),
        a.len() == b.len(),
        a[i as int] is Failed,
        b[i as int] is Failed,
        forall|m: int| 0 <= m < a.len() && m != i ==> a[m] == b[m],
    ensures
        run_from(a, j).0 == run_from(b, j).0,
        i + 1 < a.len() ==> run_from(a, j) == run_from(b, j),
    decreases i - j,
{
    if j < i {
        run_from_swapped_failure(a, b, i, j + 1);
    } else {
        run_from_same_tail(a, b, j + 1);
    }
}

/// A success response whose body does not parse is passed over like a
/// connection failure: with either at position `i`, the same mirrors are
/// asked, and unless `i` is the last mirror the search returns the same.
pub proof fn parse_failure_passes_over<E>(q: Seq<char>, outs: Seq<Outcome<E>>, i: nat, detail: E)
    requires
        i < outs.len(),
    ensures
        run(q, outs.update(i as int, Outcome::Failed(Failure::Parse(detail)))).0
            == run(q, outs.update(i as int, Outcome::Failed(Failure::Transport(detail)))).0,
        i + 1 < outs.len() ==> run(q, outs.update(i as int, Outcome::Failed(Failure::Parse(detail))))
            == run(q, outs.update(i as int, Outcome::Failed(Failure::Transport(detail)))),
{
    let a = outs.update(i as int, Outcome::Failed(Failure::Parse(detail)));
    let b = outs.update(i as int, Outcome::Failed(Failure::Transport(detail)));
    run_from_swapped_failure(a, b, i, 0);
}

} // verus!
