use vstd::prelude::*;
use crate::query::{is_blank, query_is_blank};
use crate::registry::MirrorRegistry;
use crate::station::Station;

verus! {

/// The number of stations asked of a mirror in one request.
pub const RESULT_LIMIT: u32 = 20;

/// How long one attempt at one mirror may take, in seconds.
pub const ATTEMPT_TIMEOUT_SECS: u64 = 5;

/// Why one mirror's attempt failed, with the transport's own detail `E`.
#[derive(Debug, Clone, PartialEq, Eq)]
pub enum Failure<E> {
    /// No response came back: connection refused, timeout, name lookup, ...
    Transport(E),
    /// A response came back with a non-success status.
    Status(E),
    /// A success response whose body is not a list of stations.
    Parse(E),
}

/// What one mirror answered.
#[derive(Debug, Clone, PartialEq, Eq)]
pub enum Outcome<E> {
    Success(Vec<Station>),
    Failed(Failure<E>),
}

/// The error a search reports once every mirror has failed: the failure of
/// the last mirror tried, and nothing of the earlier ones.
#[derive(Debug, Clone, PartialEq, Eq)]
pub enum SearchError<E> {
    AllMirrorsFailed(Failure<E>),
}

/// One request to send: `GET {url}?name={name}&limit={limit}`, given up
/// after `timeout_secs`, addressed to the mirror at position `mirror`.
#[derive(Debug, Clone, PartialEq, Eq)]
pub struct MirrorRequest {
    pub mirror: usize,
    pub url: String,
    pub name: String,
    pub limit: u32,
    pub timeout_secs: u64,
}

/// What the caller does next: send a request and report its outcome, or
/// stop with the search's result.
#[derive(Debug, PartialEq, Eq)]
pub enum Step<E> {
    Request(MirrorRequest),
    Done(Result<Vec<Station>, SearchError<E>>),
}

/// The station-search path below a mirror's base address.
pub open spec fn search_path() -> Seq<char> {
    "/json/stations/search"@
}

/// `r` asks the mirror at position `k` of `mirrors` for stations named `q`.
pub open spec fn is_request_for(r: MirrorRequest, mirrors: Seq<Seq<char>>, q: Seq<char>, k: int) -> bool {
    &&& r.mirror == k
    &&& r.url@ == mirrors[k] + search_path()
    &&& r.name@ == q
    &&& r.limit == RESULT_LIMIT
    &&& r.timeout_secs == ATTEMPT_TIMEOUT_SECS
}

/// A search result with its stations seen as a sequence.
pub open spec fn result_view<E>(r: Result<Vec<Station>, SearchError<E>>) -> Result<Seq<Station>, SearchError<E>> {
    match r {
        Ok(v) => Ok(v@),
        Err(e) => Err(e),
    }
}

/// How a search for `q` over `n` mirrors opens: finished at once with the
/// given result, or `None` when the first mirror is to be asked.
pub open spec fn opening<E>(q: Seq<char>, n: nat) -> Option<Result<Seq<Station>, SearchError<E>>> {
    if is_blank(q) || n == 0 {
        Some(Ok(Seq::empty()))
    } else {
        None
    }
}

/// What follows the answer `o` of the mirror at position `k` of `n`: the
/// search's result, or `None` when the mirror at `k + 1` is to be asked.
pub open spec fn settle<E>(k: int, n: int, o: Outcome<E>) -> Option<Result<Seq<Station>, SearchError<E>>> {
    match o {
        Outcome::Success(v) => Some(Ok(v@)),
        Outcome::Failed(f) => if k + 1 < n {
            None
        } else {
            Some(Err(SearchError::AllMirrorsFailed(f)))
        },
    }
}

/// `s` carries out `decided`: it stops with that result, or asks the mirror
/// at position `next` for `q`.
pub open spec fn carries_out<E>(
    s: Step<E>,
    decided: Option<Result<Seq<Station>, SearchError<E>>>,
    mirrors: Seq<Seq<char>>,
    q: Seq<char>,
    next: int,
) -> bool {
    match decided {
        Some(r) => s is Done && result_view(s->Done_0) == r,
        None => s is Request && is_request_for(s->Request_0, mirrors, q, next),
    }
}

/// A search for `q` where the mirror at position `i` would answer `outs[i]`:
/// how many mirrors are asked, and what the search returns.
pub open spec fn run<E>(q: Seq<char>, outs: Seq<Outcome<E>>) -> (nat, Result<Seq<Station>, SearchError<E>>) {
    match opening::<E>(q, outs.len()) {
        Some(r) => (0, r),
        None => run_from(outs, 0),
    }
}

/// The rest of such a search from the mirror at position `k` on.
pub open spec fn run_from<E>(outs: Seq<Outcome<E>>, k: nat) -> (nat, Result<Seq<Station>, SearchError<E>>)
    decreases outs.len() - k,
{
    if k < outs.len() {
        match settle(k as int, outs.len() as int, outs[k as int]) {
            Some(r) => ((k + 1) as nat, r),
            None => run_from(outs, k + 1),
        }
    } else {
        (k, Ok(Seq::empty()))
    }
}

/// The request for mirror `k`: the query goes out as given, untrimmed.
fn request_for(query: &str, registry: &MirrorRegistry, k: usize) -> (r: MirrorRequest)
    requires
        k < registry@.len(),
    ensures
        is_request_for(r, registry@, query@, k as int),
{
    let mut url = String::from_str(registry.base(k));
    url.append("/json/stations/search");
    proof {
        reveal_strlit("/json/stations/search");
    }
    MirrorRequest {
        mirror: k,
        url,
        name: String::from_str(query),
        limit: RESULT_LIMIT,
        timeout_secs: ATTEMPT_TIMEOUT_SECS,
    }
}

/// How a search for `query` begins. A blank query ends at once with no
/// stations and no request; so does an empty registry. Otherwise the first
/// mirror is asked.
pub fn first_step<E>(query: &str, registry: &MirrorRegistry) -> (s: Step<E>)
    ensures
        carries_out(s, opening::<E>(query@, registry@.len()), registry@, query@, 0),
{
    if query_is_blank(query) || registry.len() == 0 {
        Step::Done(Ok(Vec::new()))
    } else {
        Step::Request(request_for(query, registry, 0))
    }
}

/// What follows the answer of the mirror at position `mirror`. A success
/// ends the search with its stations. A failure moves on to the next mirror;
/// at the last mirror it ends the search with that failure alone.
pub fn next_step<E>(query: &str, registry: &MirrorRegistry, mirror: usize, outcome: Outcome<E>) -> (s: Step<E>)
    requires
        mirror < registry@.len(),
    ensures
        carries_out(s, settle(mirror as int, registry@.len() as int, outcome), registry@, query@, mirror + 1),
{
    match outcome {
        Outcome::Success(stations) => Step::Done(Ok(stations)),
        Outcome::Failed(f) => {
            if mirror < registry.len() - 1 {
                Step::Request(request_for(query, registry, mirror + 1))
            } else {
                Step::Done(Err(SearchError::AllMirrorsFailed(f)))
            }
        },
    }
}

} // verus!
