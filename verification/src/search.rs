//! The decisions of a search: filter-only or semantic, whether it can be
//! served, its row cap, and the rows it answers with.
use vstd::prelude::*;

use crate::dto::{
    semantic_query_spec, SearchHit, SearchParams, SearchResults, SemanticHit, SemanticParams,
    SemanticResults, MAX_LIMIT,
};
use crate::job::{summary_of, Job, JobSummary};
use crate::ranking::RankError;
use crate::text::{owned, trim, trim_seq};

verus! {

/// Default number of semantic hits to return.
pub const SEMANTIC_TOP: usize = 25;

/// The refusal of a semantic query when no embeddings model is configured.
pub open spec fn search_without_model_message() -> Seq<char> {
    "a semantic query requires a configured embeddings model; none is set"@
}

/// Decides how a search runs: `Ok(None)` for a filter-only search, `Ok(Some(q))`
/// for a semantic search by the trimmed query `q`, refused when a query is
/// given but no embeddings model is configured (`has_embedder`).
pub fn search_mode(params: &SearchParams, has_embedder: bool) -> (r: Result<Option<&str>, RankError>)
    ensures
        match semantic_query_spec(params.query) {
            None => r matches Ok(None),
            Some(q) => if has_embedder {
                r matches Ok(Some(t)) && t@ == q
            } else {
                r matches Err(RankError::BadRequest(msg)) && msg@ == search_without_model_message()
            },
        },
{
    match params.semantic_query() {
        None => Ok(None),
        Some(q) => {
            if has_embedder {
                Ok(Some(q))
            } else {
                Err(
                    RankError::BadRequest(
                        owned("a semantic query requires a configured embeddings model; none is set"),
                    ),
                )
            }
        },
    }
}

/// The rows of a filter-only search: each job's summary, without a score.
pub fn filter_results(jobs: &Vec<Job>, total: usize) -> (r: SearchResults)
    ensures
        r.total == total,
        r.results@.len() == jobs@.len(),
        forall|i: int|
            0 <= i < jobs@.len() ==> (#[trigger] r.results@[i]).summary == summary_of(&jobs@[i])
                && r.results@[i].score is None,
{
    let mut results: Vec<SearchHit> = Vec::new();
    let mut i: usize = 0;
    while i < jobs.len()
        invariant
            i <= jobs@.len(),
            results@.len() == i,
            forall|k: int|
                0 <= k < i ==> (#[trigger] results@[k]).summary == summary_of(&jobs@[k])
                    && results@[k].score is None,
        decreases jobs.len() - i,
    {
        results.push(SearchHit { summary: JobSummary::from(&jobs[i]), score: None });
        i = i + 1;
    }
    SearchResults { total, results }
}

/// The rows of a semantic search: each hit's summary and score (the bit
/// pattern of the `f32` similarity), best first as given.
pub fn semantic_search_results(hits: &Vec<(Job, u32)>, total: usize) -> (r: SearchResults)
    ensures
        r.total == total,
        r.results@.len() == hits@.len(),
        forall|i: int|
            0 <= i < hits@.len() ==> (#[trigger] r.results@[i]).summary == summary_of(&hits@[i].0)
                && r.results@[i].score == Some(hits@[i].1),
{
    let mut results: Vec<SearchHit> = Vec::new();
    let mut i: usize = 0;
    while i < hits.len()
        invariant
            i <= hits@.len(),
            results@.len() == i,
            forall|k: int|
                0 <= k < i ==> (#[trigger] results@[k]).summary == summary_of(&hits@[k].0)
                    && results@[k].score == Some(hits@[k].1),
        decreases hits.len() - i,
    {
        results.push(SearchHit { summary: JobSummary::from(&hits[i].0), score: Some(hits[i].1) });
        i = i + 1;
    }
    SearchResults { total, results }
}

/// How a semantic search runs: the trimmed query and the row cap.
#[derive(Debug)]
pub struct SemanticPlan {
    pub query: String,
    pub limit: usize,
}

/// The refusal of a blank semantic query.
pub open spec fn blank_query_message() -> Seq<char> {
    "semantic search requires a non-empty query"@
}

/// The refusal of a semantic search without an embeddings model.
pub open spec fn semantic_without_model_message() -> Seq<char> {
    "semantic search requires a configured embeddings model; none is set"@
}

/// Decides how a semantic search runs: refused for a blank query, then when no
/// embeddings model is configured; otherwise by the trimmed query, capped at the
/// requested limit (25 by default) and at most [`MAX_LIMIT`] rows.
pub fn plan_semantic(params: &SemanticParams, has_embedder: bool) -> (r: Result<
    SemanticPlan,
    RankError,
>)
    ensures
        trim_seq(params.query@).len() == 0 ==> (r matches Err(RankError::BadRequest(msg)) && msg@
            == blank_query_message()),
        trim_seq(params.query@).len() > 0 && !has_embedder ==> (r matches Err(
            RankError::BadRequest(msg),
        ) && msg@ == semantic_without_model_message()),
        trim_seq(params.query@).len() > 0 && has_embedder ==> (r matches Ok(p) && p.query@
            == trim_seq(params.query@) && p.limit == {
            let requested = match params.filter.limit {
                Some(l) => l,
                None => SEMANTIC_TOP,
            };
            if requested < MAX_LIMIT {
                requested
            } else {
                MAX_LIMIT
            }
        }),
{
    let query = trim(params.query.as_str());
    if query.as_str().is_empty() {
        return Err(RankError::BadRequest(owned("semantic search requires a non-empty query")));
    }
    if !has_embedder {
        return Err(
            RankError::BadRequest(
                owned("semantic search requires a configured embeddings model; none is set"),
            ),
        );
    }
    let requested = match params.filter.limit {
        Some(l) => l,
        None => SEMANTIC_TOP,
    };
    let limit = if requested < MAX_LIMIT {
        requested
    } else {
        MAX_LIMIT
    };
    Ok(SemanticPlan { query, limit })
}

/// The rows of a semantic search: each hit's summary and score, best first.
pub fn semantic_hits(hits: &Vec<(Job, u32)>) -> (r: SemanticResults)
    ensures
        r.results@.len() == hits@.len(),
        forall|i: int|
            0 <= i < hits@.len() ==> (#[trigger] r.results@[i]).summary == summary_of(&hits@[i].0)
                && r.results@[i].score == hits@[i].1,
{
    let mut results: Vec<SemanticHit> = Vec::new();
    let mut i: usize = 0;
    while i < hits.len()
        invariant
            i <= hits@.len(),
            results@.len() == i,
            forall|k: int|
                0 <= k < i ==> (#[trigger] results@[k]).summary == summary_of(&hits@[k].0)
                    && results@[k].score == hits@[k].1,
        decreases hits.len() - i,
    {
        results.push(SemanticHit { summary: JobSummary::from(&hits[i].0), score: hits[i].1 });
        i = i + 1;
    }
    SemanticResults { results }
}

} // verus!
