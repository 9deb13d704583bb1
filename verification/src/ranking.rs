//! The decisions of the rank funnel: which method a request asks for, whether
//! it can be served, how many candidates to draw, and how candidate ids and
//! feedback are gathered before the embeddings are read.
use vstd::prelude::*;

use crate::dto::{polarity_spec, FeedbackItem, RankParams};
use crate::job::Job;
use crate::text::{
    append, ascii_lower, chars_of, contains_string, is_blank, owned, same_text,
    to_ascii_lowercase, trim, trim_seq, views,
};

verus! {

/// Default ranked-shortlist size.
pub const RANK_TOP: usize = 25;

/// How many candidates to draw (by hard filter) before ranking, when ranking
/// from criteria rather than explicit ids.
pub const RANK_CANDIDATE_LIMIT: usize = 1000;

/// Hard ceiling on the candidate draw.
pub const RANK_MAX_CANDIDATES: usize = 2000;

/// How many taste-ordered candidates the `match` pass scores.
pub const REFINE_MATCH: usize = 20;

/// How many the `pairwise` pass compares — smaller, since it is O(n²) calls.
pub const REFINE_PAIRWISE: usize = 8;

/// A ranking failure, mapped to each face's error type by the caller.
#[derive(Debug)]
pub enum RankError {
    /// The request can't be served as asked — unknown method, missing resume, or
    /// a model-backed method with no model configured. (invalid-params / 400)
    BadRequest(String),
    /// A query or model failure. (internal-error / 500)
    Internal(String),
}

/// How a candidate set is ordered.
#[derive(Debug, Clone, Copy, PartialEq, Eq, Structural)]
pub enum Method {
    /// Free taste ranking from feedback alone.
    Free,
    /// A cheap model scores each top candidate against the resume.
    Match,
    /// A cheap model compares top candidates pairwise.
    Pairwise,
}

/// The outcome of reading a method name.
pub enum MethodChoice {
    Known(Method),
    Unknown(Seq<char>),
}

/// The method a name asks for, read from its trimmed ASCII lowercase; the free
/// method when none is given.
pub open spec fn method_spec(method: Option<Seq<char>>) -> MethodChoice {
    match method {
        None => MethodChoice::Known(Method::Free),
        Some(m) => {
            let n = ascii_lower(trim_seq(m));
            if n.len() == 0 || n == "free"@ {
                MethodChoice::Known(Method::Free)
            } else if n == "match"@ {
                MethodChoice::Known(Method::Match)
            } else if n == "pairwise"@ {
                MethodChoice::Known(Method::Pairwise)
            } else {
                MethodChoice::Unknown(n)
            }
        },
    }
}

/// The message for an unknown method.
pub open spec fn unknown_method_message(name: Seq<char>) -> Seq<char> {
    "unknown rank method '"@ + name + "' (use 'match', 'pairwise', or omit)"@
}

/// Parses the `method` string into a [`Method`], defaulting to free taste ranking.
pub fn parse_method(method: Option<&str>) -> (r: Result<Method, RankError>)
    ensures
        match method_spec(
            match method {
                Some(m) => Some(m@),
                None => None,
            },
        ) {
            MethodChoice::Known(m) => r == Ok::<Method, RankError>(m),
            MethodChoice::Unknown(n) => r matches Err(RankError::BadRequest(msg)) && msg@
                == unknown_method_message(n),
        },
{
    match method {
        None => Ok(Method::Free),
        Some(m) => {
            let t = trim(m);
            let n = to_ascii_lowercase(t.as_str());
            let s = n.as_str();
            if s.is_empty() || same_text(s, "free") {
                Ok(Method::Free)
            } else if same_text(s, "match") {
                Ok(Method::Match)
            } else if same_text(s, "pairwise") {
                Ok(Method::Pairwise)
            } else {
                let mut msg = owned("unknown rank method '");
                append(&mut msg, s);
                append(&mut msg, "' (use 'match', 'pairwise', or omit)");
                Err(RankError::BadRequest(msg))
            }
        },
    }
}

/// How a rank request is served.
#[derive(Debug)]
pub struct RankPlan {
    /// The ordering method.
    pub method: Method,
    /// The shortlist size.
    pub top: usize,
    /// How many taste-ordered candidates the model pass refines.
    pub refine_k: usize,
    /// How many candidates are drawn by hard filter.
    pub candidate_limit: usize,
    /// Whether candidates need their title and summary (the model passes do).
    pub need_metadata: bool,
}

/// The name of a model-backed method.
pub open spec fn model_method_name(m: Method) -> Seq<char> {
    if m == Method::Match {
        "match"@
    } else {
        "pairwise"@
    }
}

/// The message for a model-backed method with no model.
pub open spec fn no_model_message(name: Seq<char>) -> Seq<char> {
    "ranking method '"@ + name + "' requires a configured model; none is set"@
}

/// The message for a model-backed method with no resume.
pub open spec fn no_resume_message(name: Seq<char>) -> Seq<char> {
    "ranking method '"@ + name + "' requires a resume"@
}

/// A resume is given and not blank.
pub open spec fn has_resume(resume: Option<String>) -> bool {
    resume matches Some(r) && trim_seq(r@).len() > 0
}

/// The plan for `params` once its method `m` is known.
pub open spec fn plan_matches(params: RankParams, m: Method, p: RankPlan) -> bool {
    &&& p.method == m
    &&& p.top == match params.top {
        Some(t) => t,
        None => RANK_TOP,
    }
    &&& p.refine_k == if m == Method::Pairwise {
        REFINE_PAIRWISE
    } else {
        REFINE_MATCH
    }
    &&& p.candidate_limit == {
        let requested = match params.filter.limit {
            Some(l) => l,
            None => RANK_CANDIDATE_LIMIT,
        };
        if requested < RANK_MAX_CANDIDATES {
            requested
        } else {
            RANK_MAX_CANDIDATES
        }
    }
    &&& p.need_metadata == (m != Method::Free)
}

/// Decides how a rank request is served: the method it asks for, refused
/// when unknown, or model-backed without a model (`has_model`) or without a
/// resume; the shortlist size, refine depth and candidate draw otherwise.
pub fn plan_rank(params: &RankParams, has_model: bool) -> (r: Result<RankPlan, RankError>)
    ensures
        match method_spec(crate::text::opt_view(params.method)) {
            MethodChoice::Unknown(n) => r matches Err(RankError::BadRequest(msg)) && msg@
                == unknown_method_message(n),
            MethodChoice::Known(m) => if m != Method::Free && !has_model {
                r matches Err(RankError::BadRequest(msg)) && msg@ == no_model_message(
                    model_method_name(m),
                )
            } else if m != Method::Free && !has_resume(params.resume) {
                r matches Err(RankError::BadRequest(msg)) && msg@ == no_resume_message(
                    model_method_name(m),
                )
            } else {
                r matches Ok(p) && plan_matches(*params, m, p)
            },
        },
{
    let name: Option<&str> = match &params.method {
        Some(m) => Some(m.as_str()),
        None => None,
    };
    let method = match parse_method(name) {
        Ok(m) => m,
        Err(e) => {
            return Err(e);
        },
    };
    if method != Method::Free {
        let label = if method == Method::Match {
            "match"
        } else {
            "pairwise"
        };
        if !has_model {
            let mut msg = owned("ranking method '");
            append(&mut msg, label);
            append(&mut msg, "' requires a configured model; none is set");
            return Err(RankError::BadRequest(msg));
        }
        let resume_given = match &params.resume {
            Some(r) => !is_blank(r.as_str()),
            None => false,
        };
        if !resume_given {
            let mut msg = owned("ranking method '");
            append(&mut msg, label);
            append(&mut msg, "' requires a resume");
            return Err(RankError::BadRequest(msg));
        }
    }
    let top = match params.top {
        Some(t) => t,
        None => RANK_TOP,
    };
    let refine_k = if method == Method::Pairwise {
        REFINE_PAIRWISE
    } else {
        REFINE_MATCH
    };
    let requested = match params.filter.limit {
        Some(l) => l,
        None => RANK_CANDIDATE_LIMIT,
    };
    let candidate_limit = if requested < RANK_MAX_CANDIDATES {
        requested
    } else {
        RANK_MAX_CANDIDATES
    };
    Ok(RankPlan { method, top, refine_k, candidate_limit, need_metadata: method != Method::Free })
}

// ---------------------------------------------------------------------------
// Candidate ids
// ---------------------------------------------------------------------------

/// The ids in first-seen order, without repeats.
pub open spec fn first_seen(ids: Seq<Seq<char>>) -> Seq<Seq<char>>
    decreases ids.len(),
{
    if ids.len() == 0 {
        Seq::empty()
    } else {
        let p = first_seen(ids.drop_last());
        if p.contains(ids.last()) {
            p
        } else {
            p.push(ids.last())
        }
    }
}

/// The explicit candidate ids without repeats, keeping first-seen order.
pub fn unique_ids(ids: &Vec<String>) -> (r: Vec<String>)
    ensures
        views(r@) == first_seen(views(ids@)),
{
    let ghost xs = views(ids@);
    let mut r: Vec<String> = Vec::new();
    let mut i: usize = 0;
    while i < ids.len()
        invariant
            xs == views(ids@),
            i <= ids@.len(),
            views(r@) == first_seen(xs.take(i as int)),
        decreases ids.len() - i,
    {
        assert(xs.take(i + 1).drop_last() =~= xs.take(i as int));
        assert(xs.take(i + 1).last() == xs[i as int]);
        if !contains_string(&r, ids[i].as_str()) {
            let ghost before = views(r@);
            let id = ids[i].clone();
            r.push(id);
            assert(views(r@) =~= before.push(xs[i as int]));
        }
        i = i + 1;
    }
    assert(xs.take(ids@.len() as int) =~= xs);
    r
}

/// Where the candidates of a rank request come from.
#[derive(Debug)]
pub enum CandidateSource {
    /// The full records of the rows matching the hard filters.
    FilteredJobs,
    /// Only the ids of the rows matching the hard filters.
    FilteredIds,
    /// The full records of each of these ids that exists.
    JobsOf(Vec<String>),
    /// These ids, as they are.
    Ids(Vec<String>),
}

/// Chooses the candidate source: the filters when no explicit ids are given,
/// else the ids without repeats in first-seen order; full records when the
/// model passes need titles and summaries (`need_metadata`), bare ids
/// otherwise.
pub fn candidate_source(ids: &Vec<String>, need_metadata: bool) -> (r: CandidateSource)
    ensures
        ids@.len() == 0 && need_metadata ==> r is FilteredJobs,
        ids@.len() == 0 && !need_metadata ==> r is FilteredIds,
        ids@.len() > 0 && need_metadata ==> (r matches CandidateSource::JobsOf(v) && views(v@)
            == first_seen(views(ids@))),
        ids@.len() > 0 && !need_metadata ==> (r matches CandidateSource::Ids(v) && views(v@)
            == first_seen(views(ids@))),
{
    if ids.len() == 0 {
        if need_metadata {
            CandidateSource::FilteredJobs
        } else {
            CandidateSource::FilteredIds
        }
    } else if need_metadata {
        CandidateSource::JobsOf(unique_ids(ids))
    } else {
        CandidateSource::Ids(unique_ids(ids))
    }
}

/// Deduplicating explicit ids keeps each given id exactly once: nothing
/// repeats, nothing is lost and nothing is added.
pub proof fn law_unique_ids_keep_each_id_once(ids: Seq<Seq<char>>)
    ensures
        first_seen(ids).no_duplicates(),
        forall|y: Seq<char>| first_seen(ids).contains(y) <==> ids.contains(y),
    decreases ids.len(),
{
    if ids.len() > 0 {
        let rest = ids.drop_last();
        law_unique_ids_keep_each_id_once(rest);
        assert forall|y: Seq<char>| first_seen(ids).contains(y) <==> ids.contains(y) by {
            if ids.contains(y) {
                let k = choose|k: int| 0 <= k < ids.len() && ids[k] == y;
                if k < ids.len() - 1 {
                    assert(rest[k] == y);
                }
            }
            if rest.contains(y) {
                let k = choose|k: int| 0 <= k < rest.len() && rest[k] == y;
                assert(ids[k] == y);
            }
            if first_seen(ids).contains(y) && !first_seen(rest).contains(y) {
                let p = first_seen(rest);
                let k = choose|k: int| 0 <= k < first_seen(ids).len() && first_seen(ids)[k] == y;
                if k < p.len() {
                    assert(p[k] == y);
                }
            }
            if first_seen(rest).contains(y) {
                let p = first_seen(rest);
                let k = choose|k: int| 0 <= k < p.len() && p[k] == y;
                if !p.contains(ids.last()) {
                    assert(p.push(ids.last())[k] == y);
                }
            }
            if y == ids.last() && !first_seen(rest).contains(y) {
                let p = first_seen(rest);
                assert(p.push(ids.last())[p.len() as int] == y);
            }
        }
    }
}

/// What a candidate contributes to a rank request besides its embedding.
#[derive(Debug)]
pub struct CandidateInfo {
    pub id: String,
    /// The title, or empty on the free path.
    pub title: String,
    /// The role summary, or empty on the free path.
    pub summary: String,
}

/// The candidates of full job records: id, title and summary.
pub fn candidates_from_jobs(jobs: &Vec<Job>) -> (r: Vec<CandidateInfo>)
    ensures
        r@.len() == jobs@.len(),
        forall|i: int|
            0 <= i < jobs@.len() ==> #[trigger] r@[i].id@ == jobs@[i].id@ && r@[i].title@
                == jobs@[i].title@ && r@[i].summary@ == jobs@[i].role_summary@,
{
    let mut r: Vec<CandidateInfo> = Vec::new();
    let mut i: usize = 0;
    while i < jobs.len()
        invariant
            i <= jobs@.len(),
            r@.len() == i,
            forall|k: int|
                0 <= k < i ==> #[trigger] r@[k].id@ == jobs@[k].id@ && r@[k].title@
                    == jobs@[k].title@ && r@[k].summary@ == jobs@[k].role_summary@,
        decreases jobs.len() - i,
    {
        let job = &jobs[i];
        r.push(
            CandidateInfo {
                id: job.id.clone(),
                title: job.title.clone(),
                summary: job.role_summary.clone(),
            },
        );
        i = i + 1;
    }
    r
}

/// The candidates of bare ids, with empty title and summary.
pub fn candidates_from_ids(ids: &Vec<String>) -> (r: Vec<CandidateInfo>)
    ensures
        r@.len() == ids@.len(),
        forall|i: int|
            0 <= i < ids@.len() ==> #[trigger] r@[i].id@ == ids@[i]@ && r@[i].title@.len() == 0
                && r@[i].summary@.len() == 0,
{
    let mut r: Vec<CandidateInfo> = Vec::new();
    let mut i: usize = 0;
    while i < ids.len()
        invariant
            i <= ids@.len(),
            r@.len() == i,
            forall|k: int|
                0 <= k < i ==> #[trigger] r@[k].id@ == ids@[k]@ && r@[k].title@.len() == 0
                    && r@[k].summary@.len() == 0,
        decreases ids.len() - i,
    {
        r.push(CandidateInfo { id: ids[i].clone(), title: String::new(), summary: String::new() });
        i = i + 1;
    }
    r
}

// ---------------------------------------------------------------------------
// The embedding ids: sorted, without repeats
// ---------------------------------------------------------------------------

/// `a` sorts before `b`, character by character (for UTF-8 text this is the
/// byte order in which `String`s compare).
pub open spec fn text_before(a: Seq<char>, b: Seq<char>) -> bool
    decreases a.len(),
{
    if a.len() == 0 {
        b.len() > 0
    } else if b.len() == 0 {
        false
    } else if a[0] != b[0] {
        a[0] < b[0]
    } else {
        text_before(a.drop_first(), b.drop_first())
    }
}

/// No text sorts before itself.
pub proof fn lemma_text_before_irreflexive(a: Seq<char>)
    ensures
        !text_before(a, a),
    decreases a.len(),
{
    if a.len() > 0 {
        lemma_text_before_irreflexive(a.drop_first());
    }
}

/// The order is transitive.
pub proof fn lemma_text_before_transitive(a: Seq<char>, b: Seq<char>, c: Seq<char>)
    requires
        text_before(a, b),
        text_before(b, c),
    ensures
        text_before(a, c),
    decreases a.len(),
{
    if a.len() > 0 && b.len() > 0 && c.len() > 0 && a[0] == b[0] && b[0] == c[0] {
        lemma_text_before_transitive(a.drop_first(), b.drop_first(), c.drop_first());
    }
}

/// Two different texts are ordered one way or the other.
pub proof fn lemma_text_before_total(a: Seq<char>, b: Seq<char>)
    requires
        a != b,
    ensures
        text_before(a, b) || text_before(b, a),
    decreases a.len(),
{
    if a.len() > 0 && b.len() > 0 && a[0] == b[0] {
        if a.drop_first() == b.drop_first() {
            assert(a =~= seq![a[0]] + a.drop_first());
            assert(b =~= seq![b[0]] + b.drop_first());
        }
        lemma_text_before_total(a.drop_first(), b.drop_first());
    } else if a.len() == 0 && b.len() == 0 {
        assert(a =~= b);
    }
}

/// Decides [`text_before`].
pub fn text_less(a: &str, b: &str) -> (r: bool)
    ensures
        r == text_before(a@, b@),
{
    let x = chars_of(a);
    let y = chars_of(b);
    let mut i: usize = 0;
    assert(x@.skip(0) =~= x@);
    assert(y@.skip(0) =~= y@);
    loop
        invariant
            x@ == a@,
            y@ == b@,
            i <= x@.len(),
            i <= y@.len(),
            text_before(a@, b@) == text_before(x@.skip(i as int), y@.skip(i as int)),
        decreases x@.len() - i,
    {
        if i == x.len() {
            return i < y.len();
        }
        if i == y.len() {
            return false;
        }
        if x[i] != y[i] {
            return x[i] < y[i];
        }
        assert(x@.skip(i as int).drop_first() =~= x@.skip(i + 1));
        assert(y@.skip(i as int).drop_first() =~= y@.skip(i + 1));
        i = i + 1;
    }
}

/// Strictly increasing in [`text_before`] order: sorted and without repeats.
pub open spec fn strictly_sorted(s: Seq<Seq<char>>) -> bool {
    forall|i: int, j: int| 0 <= i < j < s.len() ==> text_before(#[trigger] s[i], #[trigger] s[j])
}

/// Adds `x` to a strictly sorted list in its place, unless it is there already.
pub fn insert_sorted(v: &mut Vec<String>, x: String)
    requires
        strictly_sorted(views(old(v)@)),
    ensures
        strictly_sorted(views(final(v)@)),
        forall|y: Seq<char>|
            views(final(v)@).contains(y) <==> (views(old(v)@).contains(y) || y == x@),
{
    let ghost s = views(v@);
    let mut p: usize = 0;
    while p < v.len() && text_less(v[p].as_str(), x.as_str())
        invariant
            s == views(v@),
            p <= v@.len(),
            forall|k: int| 0 <= k < p ==> text_before(#[trigger] s[k], x@),
        decreases v.len() - p,
    {
        p = p + 1;
    }
    if p < v.len() && same_text(v[p].as_str(), x.as_str()) {
        assert(s[p as int] == x@);
        return;
    }
    proof {
        if p < s.len() {
            assert(!text_before(s[p as int], x@));
            lemma_text_before_total(s[p as int], x@);
        }
    }
    v.insert(p, x);
    let ghost t = views(v@);
    assert(t =~= s.insert(p as int, x@));
    assert forall|i: int, j: int| 0 <= i < j < t.len() implies text_before(
        #[trigger] t[i],
        #[trigger] t[j],
    ) by {
        if j < p {
        } else if j == p {
            assert(t[i] == s[i]);
        } else if i < p {
            assert(t[j] == s[j - 1]);
            assert(text_before(s[i], x@));
            if j - 1 > p {
                assert(text_before(s[p as int], s[j - 1]));
                lemma_text_before_transitive(x@, s[p as int], s[j - 1]);
            }
            lemma_text_before_transitive(s[i], x@, s[j - 1]);
        } else if i == p {
            assert(t[j] == s[j - 1]);
            if j - 1 > p {
                assert(text_before(s[p as int], s[j - 1]));
                lemma_text_before_transitive(x@, s[p as int], s[j - 1]);
            }
        } else {
            assert(t[i] == s[i - 1]);
            assert(t[j] == s[j - 1]);
        }
    }
    assert forall|y: Seq<char>| t.contains(y) <==> (s.contains(y) || y == x@) by {
        if t.contains(y) {
            let k = choose|k: int| 0 <= k < t.len() && t[k] == y;
            if k < p {
                assert(s[k] == y);
            } else if k > p {
                assert(s[k - 1] == y);
            }
        }
        if s.contains(y) {
            let k = choose|k: int| 0 <= k < s.len() && s[k] == y;
            if k < p {
                assert(t[k] == y);
            } else {
                assert(t[k + 1] == y);
            }
        }
        if y == x@ {
            assert(t[p as int] == y);
        }
    }
}

/// The ids of the feedback items.
pub open spec fn feedback_ids(fb: Seq<FeedbackItem>) -> Seq<Seq<char>> {
    fb.map_values(|f: FeedbackItem| f.id@)
}

/// The ids whose embeddings a rank request reads: the candidates' and the
/// feedback items', sorted, each once.
pub fn embedding_ids(candidates: &Vec<CandidateInfo>, feedback: &Vec<FeedbackItem>) -> (r: Vec<
    String,
>)
    ensures
        strictly_sorted(views(r@)),
        forall|y: Seq<char>|
            views(r@).contains(y) <==> ((exists|i: int|
                0 <= i < candidates@.len() && #[trigger] candidates@[i].id@ == y)
                || feedback_ids(feedback@).contains(y)),
{
    let mut r: Vec<String> = Vec::new();
    let mut i: usize = 0;
    while i < candidates.len()
        invariant
            i <= candidates@.len(),
            strictly_sorted(views(r@)),
            forall|y: Seq<char>|
                views(r@).contains(y) <==> (exists|k: int|
                    0 <= k < i && #[trigger] candidates@[k].id@ == y),
        decreases candidates.len() - i,
    {
        let id = candidates[i].id.clone();
        insert_sorted(&mut r, id);
        assert forall|y: Seq<char>|
            views(r@).contains(y) <==> (exists|k: int|
                0 <= k < i + 1 && #[trigger] candidates@[k].id@ == y) by {
            if y == candidates@[i as int].id@ {
                assert(candidates@[i as int].id@ == y);
            }
        }
        i = i + 1;
    }
    let ghost fs = feedback_ids(feedback@);
    let mut j: usize = 0;
    while j < feedback.len()
        invariant
            fs == feedback_ids(feedback@),
            j <= feedback@.len(),
            strictly_sorted(views(r@)),
            forall|y: Seq<char>|
                views(r@).contains(y) <==> ((exists|k: int|
                    0 <= k < candidates@.len() && #[trigger] candidates@[k].id@ == y)
                    || fs.take(j as int).contains(y)),
        decreases feedback.len() - j,
    {
        let id = feedback[j].id.clone();
        insert_sorted(&mut r, id);
        let ghost before = fs.take(j as int);
        let ghost after = fs.take(j + 1);
        assert(after =~= before.push(fs[j as int]));
        assert forall|y: Seq<char>| after.contains(y) <==> (before.contains(y) || y == fs[j as int]) by {
            if after.contains(y) {
                let k = choose|k: int| 0 <= k < after.len() && after[k] == y;
                if k < j {
                    assert(before[k] == y);
                }
            }
            if before.contains(y) {
                let k = choose|k: int| 0 <= k < before.len() && before[k] == y;
                assert(after[k] == y);
            }
            if y == fs[j as int] {
                assert(after[j as int] == y);
            }
        }
        j = j + 1;
    }
    assert(fs.take(feedback@.len() as int) =~= fs);
    r
}

/// Two strictly sorted lists with the same members are the same list: the
/// embedding id list is determined by the ids it is built from.
pub proof fn law_sorted_ids_are_determined(a: Seq<Seq<char>>, b: Seq<Seq<char>>)
    requires
        strictly_sorted(a),
        strictly_sorted(b),
        forall|y: Seq<char>| a.contains(y) <==> b.contains(y),
    ensures
        a == b,
    decreases a.len() + b.len(),
{
    if a.len() == 0 || b.len() == 0 {
        if a.len() > 0 {
            assert(a.contains(a[0]));
        }
        if b.len() > 0 {
            assert(b.contains(b[0]));
        }
        assert(a =~= b);
    } else {
        // The last elements are both the greatest member, so they agree.
        let x = a.last();
        let y = b.last();
        assert(a.contains(x));
        assert(b.contains(y));
        let ia = choose|k: int| 0 <= k < a.len() && a[k] == y;
        let ib = choose|k: int| 0 <= k < b.len() && b[k] == x;
        if x != y {
            lemma_text_before_total(x, y);
            if text_before(x, y) {
                if ia < a.len() - 1 {
                    assert(text_before(a[ia], a[a.len() - 1]));
                    lemma_text_before_transitive(y, x, y);
                    lemma_text_before_irreflexive(y);
                } else {
                    assert(a[ia] == x);
                }
            } else {
                if ib < b.len() - 1 {
                    assert(text_before(b[ib], b[b.len() - 1]));
                    lemma_text_before_transitive(x, y, x);
                    lemma_text_before_irreflexive(x);
                } else {
                    assert(b[ib] == y);
                }
            }
        }
        let a2 = a.drop_last();
        let b2 = b.drop_last();
        assert forall|z: Seq<char>| a2.contains(z) <==> b2.contains(z) by {
            if a2.contains(z) {
                let k = choose|k: int| 0 <= k < a2.len() && a2[k] == z;
                assert(text_before(a[k], a[a.len() - 1]));
                assert(a.contains(z));
                if z == x {
                    lemma_text_before_irreflexive(x);
                }
                let m = choose|m: int| 0 <= m < b.len() && b[m] == z;
                if m == b.len() - 1 {
                    lemma_text_before_irreflexive(x);
                }
                assert(b2[m] == z);
            }
            if b2.contains(z) {
                let k = choose|k: int| 0 <= k < b2.len() && b2[k] == z;
                assert(text_before(b[k], b[b.len() - 1]));
                assert(b.contains(z));
                if z == y {
                    lemma_text_before_irreflexive(y);
                }
                let m = choose|m: int| 0 <= m < a.len() && a[m] == z;
                if m == a.len() - 1 {
                    lemma_text_before_irreflexive(y);
                }
                assert(a2[m] == z);
            }
        }
        law_sorted_ids_are_determined(a2, b2);
        assert(a =~= a2.push(x));
        assert(b =~= b2.push(y));
    }
}

// ---------------------------------------------------------------------------
// Feedback
// ---------------------------------------------------------------------------

/// The ids of feedback items of the given polarity that have an embedding, in
/// feedback order.
pub open spec fn signal_ids(fb: Seq<FeedbackItem>, known: Seq<Seq<char>>, positive: bool) -> Seq<
    Seq<char>,
>
    decreases fb.len(),
{
    if fb.len() == 0 {
        Seq::empty()
    } else {
        let p = signal_ids(fb.drop_last(), known, positive);
        let f = fb.last();
        if known.contains(f.id@) && polarity_spec(f.label@) == Some(positive) {
            p.push(f.id@)
        } else {
            p
        }
    }
}

/// A feedback signal only ever names an id that has an embedding, and there
/// are never more signals of one polarity than feedback items.
pub proof fn law_signals_come_from_known_ids(
    fb: Seq<FeedbackItem>,
    known: Seq<Seq<char>>,
    positive: bool,
)
    ensures
        forall|i: int|
            0 <= i < signal_ids(fb, known, positive).len() ==> known.contains(
                #[trigger] signal_ids(fb, known, positive)[i],
            ),
        signal_ids(fb, known, positive).len() <= fb.len(),
    decreases fb.len(),
{
    if fb.len() > 0 {
        law_signals_come_from_known_ids(fb.drop_last(), known, positive);
        let p = signal_ids(fb.drop_last(), known, positive);
        let f = fb.last();
        if known.contains(f.id@) && polarity_spec(f.label@) == Some(positive) {
            assert forall|i: int| 0 <= i < p.push(f.id@).len() implies known.contains(
                #[trigger] p.push(f.id@)[i],
            ) by {
                if i < p.len() {
                    assert(p.push(f.id@)[i] == p[i]);
                }
            }
        }
    }
}

/// Splits the feedback into positive and negative signals: the ids, in
/// feedback order, of the items with an embedding (`known`) whose label
/// carries that polarity. Unrecognized labels are ignored.
pub fn feedback_signals(feedback: &Vec<FeedbackItem>, known: &Vec<String>) -> (r: (
    Vec<String>,
    Vec<String>,
))
    ensures
        views(r.0@) == signal_ids(feedback@, views(known@), true),
        views(r.1@) == signal_ids(feedback@, views(known@), false),
{
    let mut positives: Vec<String> = Vec::new();
    let mut negatives: Vec<String> = Vec::new();
    let mut i: usize = 0;
    while i < feedback.len()
        invariant
            i <= feedback@.len(),
            views(positives@) == signal_ids(feedback@.take(i as int), views(known@), true),
            views(negatives@) == signal_ids(feedback@.take(i as int), views(known@), false),
        decreases feedback.len() - i,
    {
        assert(feedback@.take(i + 1).drop_last() =~= feedback@.take(i as int));
        assert(feedback@.take(i + 1).last() == feedback@[i as int]);
        let item = &feedback[i];
        if contains_string(known, item.id.as_str()) {
            match item.polarity() {
                Some(true) => {
                    let ghost before = views(positives@);
                    positives.push(item.id.clone());
                    assert(views(positives@) =~= before.push(item.id@));
                },
                Some(false) => {
                    let ghost before = views(negatives@);
                    negatives.push(item.id.clone());
                    assert(views(negatives@) =~= before.push(item.id@));
                },
                None => {},
            }
        }
        i = i + 1;
    }
    assert(feedback@.take(feedback@.len() as int) =~= feedback@);
    (positives, negatives)
}

} // verus!
