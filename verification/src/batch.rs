//! Assembling per-address outcomes into one index-aligned batch result.
//!
//! The transports hand back, for each address, either the raw body with its
//! elapsed time or a scoped error, in input order. The functions here carry
//! each success through extraction and fold the whole batch into a
//! `BatchResult` whose two sequences are index-aligned with the input
//! addresses — regardless of the order in which the concurrent tasks actually
//! finished — or into the batch's aggregate error: the failure of the
//! earliest-indexed failing address.

use vstd::prelude::*;

use crate::error::ScrapeError;
use crate::selector::CompiledMatcher;
use crate::selector::extract;
use crate::selector::extraction_of;
use crate::selector::selector_valid;

verus! {

/// What one transport exchange produced: the full response body and the
/// wall-clock time the exchange took, in milliseconds.
pub struct FetchOutcome {
    pub body: Vec<u8>,
    pub elapsed_ms: u64,
}

/// What one task produced once its fetch succeeded and its body was parsed:
/// the extracted fragments and the fetch's elapsed time.
pub struct TaskOutput {
    pub fragments: Vec<String>,
    pub elapsed_ms: u64,
}

/// A whole batch's answer: one fragment list and one latency per input
/// address, both sequences index-aligned with the input address list.
pub struct BatchResult {
    pub results: Vec<Vec<String>>,
    pub latencies_ms: Vec<u64>,
}

/// The error of the earliest-indexed failing outcome, if any outcome failed.
pub open spec fn first_failure<T>(outcomes: Seq<Result<T, ScrapeError>>) -> Option<ScrapeError>
    decreases outcomes.len(),
{
    if outcomes.len() == 0 {
        None
    } else if outcomes.first() is Err {
        Some(outcomes.first()->Err_0)
    } else {
        first_failure(outcomes.drop_first())
    }
}

/// Whether every outcome succeeded.
pub open spec fn all_ok<T>(outcomes: Seq<Result<T, ScrapeError>>) -> bool {
    forall|i: int| 0 <= i < outcomes.len() ==> outcomes[i] is Ok
}

/// There is no first failure exactly when every outcome succeeded.
pub proof fn lemma_first_failure_none_iff_all_ok<T>(outcomes: Seq<Result<T, ScrapeError>>)
    ensures
        first_failure(outcomes) is None <==> all_ok(outcomes),
    decreases outcomes.len(),
{
    if outcomes.len() == 0 {
    } else if outcomes.first() is Err {
        assert(outcomes[0] is Err);
        assert(!all_ok(outcomes));
    } else {
        let rest = outcomes.drop_first();
        lemma_first_failure_none_iff_all_ok(rest);
        if all_ok(rest) {
            assert forall|i: int| 0 <= i < outcomes.len() implies outcomes[i] is Ok by {
                if i > 0 {
                    assert(rest[i - 1] == outcomes[i]);
                }
            }
        } else {
            let i = choose|i: int| 0 <= i < rest.len() && !(rest[i] is Ok);
            assert(outcomes[i + 1] == rest[i]);
            assert(!all_ok(outcomes));
        }
    }
}

/// The first failure is the one at the least failing index.
pub proof fn lemma_first_failure_at<T>(outcomes: Seq<Result<T, ScrapeError>>, i: int)
    requires
        0 <= i < outcomes.len(),
        outcomes[i] is Err,
        forall|j: int| 0 <= j < i ==> outcomes[j] is Ok,
    ensures
        first_failure(outcomes) == Some(outcomes[i]->Err_0),
    decreases i,
{
    if i > 0 {
        assert(forall|j: int|
            0 <= j < outcomes.drop_first().len() ==> outcomes.drop_first()[j] == outcomes[j + 1]);
        lemma_first_failure_at(outcomes.drop_first(), i - 1);
    }
}

/// Two outcome sequences that fail at the same indices with the same errors
/// have the same first failure.
pub proof fn lemma_first_failure_pointwise<A, B>(
    s: Seq<Result<A, ScrapeError>>,
    t: Seq<Result<B, ScrapeError>>,
)
    requires
        s.len() == t.len(),
        forall|i: int| 0 <= i < s.len() ==> (s[i] is Err <==> t[i] is Err),
        forall|i: int| 0 <= i < s.len() ==> (s[i] is Err ==> s[i]->Err_0 == t[i]->Err_0),
    ensures
        first_failure(s) == first_failure(t),
    decreases s.len(),
{
    if s.len() > 0 {
        assert(s[0] is Err <==> t[0] is Err);
        if s[0] is Ok {
            assert(forall|i: int|
                0 <= i < s.drop_first().len() ==> s.drop_first()[i] == s[i + 1]);
            assert(forall|i: int|
                0 <= i < t.drop_first().len() ==> t.drop_first()[i] == t[i + 1]);
            lemma_first_failure_pointwise(s.drop_first(), t.drop_first());
        }
    }
}

/// Fold the per-task outcomes, already in input order, into the batch's
/// answer. On full success the two sequences of the result are index-aligned
/// with the outcomes; otherwise the batch fails with the earliest-indexed
/// task's error, and no partial result is returned.
#[verifier::loop_isolation(false)]
pub fn assemble_batch(per_task: Vec<Result<TaskOutput, ScrapeError>>) -> (r: Result<
    BatchResult,
    ScrapeError,
>)
    ensures
        r is Ok <==> all_ok(per_task@),
        (match first_failure(per_task@) {
            Some(e) => r == Err::<BatchResult, ScrapeError>(e),
            None => r matches Ok(b) && {
                &&& b.results@.len() == per_task@.len()
                &&& b.latencies_ms@.len() == per_task@.len()
                &&& forall|i: int|
                    0 <= i < per_task@.len() ==> b.results@[i] == per_task@[i]->Ok_0.fragments
                &&& forall|i: int|
                    0 <= i < per_task@.len() ==> b.latencies_ms@[i] == per_task@[i]->Ok_0.elapsed_ms
            },
        }),
{
    let ghost orig = per_task@;
    let mut queue = per_task;
    let mut results: Vec<Vec<String>> = Vec::new();
    let mut latencies_ms: Vec<u64> = Vec::new();
    while queue.len() > 0
        invariant
            results@.len() == latencies_ms@.len(),
            results@.len() + queue@.len() == orig.len(),
            queue@ == orig.skip(results@.len() as int),
            forall|j: int| 0 <= j < results@.len() ==> orig[j] is Ok,
            forall|j: int| 0 <= j < results@.len() ==> results@[j] == orig[j]->Ok_0.fragments,
            forall|j: int|
                0 <= j < results@.len() ==> latencies_ms@[j] == orig[j]->Ok_0.elapsed_ms,
        decreases queue@.len(),
    {
        let ghost k = results@.len() as int;
        proof {
            assert(orig.skip(k)[0] == orig[k]);
        }
        let item = queue.remove(0);
        proof {
            assert(orig.skip(k).remove(0) =~= orig.skip(k + 1));
        }
        match item {
            Ok(output) => {
                results.push(output.fragments);
                latencies_ms.push(output.elapsed_ms);
            },
            Err(e) => {
                proof {
                    lemma_first_failure_at(orig, k);
                }
                return Err(e);
            },
        }
    }
    proof {
        lemma_first_failure_none_iff_all_ok(orig);
    }
    Ok(BatchResult { results, latencies_ms })
}

/// What a fully successful batch looks like for the given fetch outcomes and
/// query: both sequences index-aligned with the input, each fragment list the
/// extraction of that address's body, each latency that address's elapsed
/// time.
pub open spec fn batch_aligned(
    b: BatchResult,
    fetches: Seq<Result<FetchOutcome, ScrapeError>>,
    query: Seq<char>,
) -> bool {
    &&& b.results@.len() == fetches.len()
    &&& b.latencies_ms@.len() == fetches.len()
    &&& forall|i: int|
        0 <= i < fetches.len() ==> b.results@[i].deep_view() == extraction_of(
            fetches[i]->Ok_0.body@,
            query,
        )
    &&& forall|i: int| 0 <= i < fetches.len() ==> b.latencies_ms@[i] == fetches[i]->Ok_0.elapsed_ms
}

/// Run one batch over fetch outcomes that arrived index-aligned with the
/// input addresses. The selector is compiled once: a malformed query fails
/// the whole batch as `MalformedQuery`, whatever the transports returned —
/// in particular when nothing was fetched at all. Otherwise each successful
/// body is parsed and, on full success, the batch answer is index-aligned
/// with the addresses; a failed address fails the batch with its scoped
/// error, the earliest-indexed one.
pub fn run_batch(
    addresses: &Vec<String>,
    query: &str,
    fetches: Vec<Result<FetchOutcome, ScrapeError>>,
) -> (r: Result<BatchResult, ScrapeError>)
    requires
        fetches@.len() == addresses@.len(),
    ensures
        r is Ok <==> selector_valid(query@) && all_ok(fetches@),
        !selector_valid(query@) ==> r == Err::<BatchResult, ScrapeError>(
            ScrapeError::MalformedQuery,
        ),
        selector_valid(query@) ==> (match first_failure(fetches@) {
            Some(e) => r == Err::<BatchResult, ScrapeError>(e),
            None => r matches Ok(b) && batch_aligned(b, fetches@, query@),
        }),
{
    let matcher = match CompiledMatcher::compile(query) {
        Ok(m) => m,
        Err(e) => {
            return Err(e);
        },
    };
    let mut per_task: Vec<Result<TaskOutput, ScrapeError>> = Vec::new();
    let mut i: usize = 0;
    while i < fetches.len()
        invariant
            i <= fetches@.len(),
            per_task@.len() == i,
            matcher.query() == query@,
            selector_valid(query@),
            forall|j: int| 0 <= j < i ==> (fetches@[j] is Err <==> per_task@[j] is Err),
            forall|j: int|
                0 <= j < i ==> (fetches@[j] is Err ==> per_task@[j]->Err_0 == fetches@[j]->Err_0),
            forall|j: int|
                0 <= j < i ==> (fetches@[j] is Ok ==> per_task@[j]->Ok_0.fragments.deep_view()
                    == extraction_of(fetches@[j]->Ok_0.body@, query@) && per_task@[j]->Ok_0.elapsed_ms
                    == fetches@[j]->Ok_0.elapsed_ms),
        decreases fetches@.len() - i,
    {
        match &fetches[i] {
            Ok(outcome) => {
                let fragments = extract(outcome.body.as_slice(), &matcher);
                per_task.push(Ok(TaskOutput { fragments, elapsed_ms: outcome.elapsed_ms }));
            },
            Err(e) => {
                per_task.push(Err(*e));
            },
        }
        i = i + 1;
    }
    proof {
        lemma_first_failure_pointwise(fetches@, per_task@);
        lemma_first_failure_none_iff_all_ok(fetches@);
    }
    assemble_batch(per_task)
}

} // verus!
