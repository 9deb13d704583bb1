//! Wire types shared by the tool and REST faces, and the small decisions made
//! on them: the row cap, the semantic query, the filter projection and the
//! polarity of feedback.
use vstd::prelude::*;

use crate::clock::{is_reading, read_clock, rfc3339_before, timestamp_before, ClockReading};
use crate::criteria::Criteria;
use crate::job::JobSummary;
use crate::text::{
    ascii_lower, chars_of, opt_view, same_text, to_ascii_lowercase, trim, trim_bounds, trim_seq,
    views,
};

verus! {

/// Default cap on returned rows. `total` always reflects the full match count.
pub const DEFAULT_LIMIT: usize = 50;

/// Hard ceiling on returned rows, so a client can't request an unbounded page
/// (which would inflate query work and response size). `total` is unaffected.
pub const MAX_LIMIT: usize = 500;

/// Hard search filters plus a row cap, mirroring [`Criteria`] on the wire.
#[derive(Debug)]
pub struct SearchParams {
    /// Accepted job functions (exact match).
    pub functions: Vec<String>,
    /// Accepted seniority levels (exact match).
    pub levels: Vec<String>,
    /// Title terms; case-insensitive substrings, ORed together.
    pub titles: Vec<String>,
    /// Company terms matched across canonical and raw company names.
    pub companies: Vec<String>,
    /// City terms matched across city, region, and raw location.
    pub cities: Vec<String>,
    /// ISO alpha-2 country code; `US` also matches US-scoped remote roles.
    pub country: Option<String>,
    /// Minimum annual compensation in thousands (keeps unknown comp), as the
    /// IEEE-754 bit pattern of the `f64` amount.
    pub min_comp: Option<u64>,
    /// Optional free-text description of the work. When set, results are ordered
    /// by semantic similarity of this query to each role, under the same hard
    /// filters. Needs a configured embeddings model.
    pub query: Option<String>,
    /// Freshness window: only roles posted within the last N days. Roles with an
    /// unknown post date are excluded when set.
    pub posted_within_days: Option<u32>,
    /// Max rows to return (default 50). Does not affect `total`.
    pub limit: Option<usize>,
}

impl Default for SearchParams {
    fn default() -> (r: Self)
        ensures
            r.functions@.len() == 0,
            r.levels@.len() == 0,
            r.titles@.len() == 0,
            r.companies@.len() == 0,
            r.cities@.len() == 0,
            r.country is None,
            r.min_comp is None,
            r.query is None,
            r.posted_within_days is None,
            r.limit is None,
    {
        SearchParams {
            functions: Vec::new(),
            levels: Vec::new(),
            titles: Vec::new(),
            companies: Vec::new(),
            cities: Vec::new(),
            country: None,
            min_comp: None,
            query: None,
            posted_within_days: None,
            limit: None,
        }
    }
}

/// The row cap for a requested limit: the limit or the default, clamped.
pub open spec fn effective_limit_spec(limit: Option<usize>) -> usize {
    let requested = match limit {
        Some(l) => l,
        None => DEFAULT_LIMIT,
    };
    if requested < MAX_LIMIT {
        requested
    } else {
        MAX_LIMIT
    }
}

/// The trimmed query, when it is not blank.
pub open spec fn semantic_query_spec(query: Option<String>) -> Option<Seq<char>> {
    match query {
        Some(q) => if trim_seq(q@).len() > 0 {
            Some(trim_seq(q@))
        } else {
            None
        },
        None => None,
    }
}

/// `c` holds the hard filters of `p`, with `posted_after` as its threshold.
pub open spec fn projects(p: SearchParams, posted_after: Option<Seq<char>>, c: Criteria) -> bool {
    &&& views(c.functions@) == views(p.functions@)
    &&& views(c.levels@) == views(p.levels@)
    &&& views(c.titles@) == views(p.titles@)
    &&& views(c.companies@) == views(p.companies@)
    &&& views(c.cities@) == views(p.cities@)
    &&& opt_view(c.country) == opt_view(p.country)
    &&& c.min_comp == p.min_comp
    &&& opt_view(c.posted_after) == posted_after
}

/// The freshness threshold of a window of `days` days before `now`:
/// `Some(None)` without a window, `Some(Some(t))` with the timestamp `t` that
/// many days before `now`, and `None` when that instant is out of range.
pub open spec fn threshold_spec(days: Option<u32>, now: ClockReading) -> Option<Option<Seq<char>>> {
    match days {
        None => Some(None),
        Some(d) => match rfc3339_before(now, d * 86400) {
            Some(t) => Some(Some(t)),
            None => None,
        },
    }
}

/// `c` is what projecting `p` onto criteria at the clock reading `now` gives:
/// the filters with the window's threshold, or nothing when the threshold is
/// out of range.
pub open spec fn criteria_outcome(p: SearchParams, now: ClockReading, c: Option<Criteria>) -> bool {
    match threshold_spec(p.posted_within_days, now) {
        Some(t) => c matches Some(k) && projects(p, t, k),
        None => c is None,
    }
}

/// Copies a list of strings.
pub fn clone_strings(v: &Vec<String>) -> (r: Vec<String>)
    ensures
        views(r@) == views(v@),
{
    let mut r: Vec<String> = Vec::new();
    let mut i: usize = 0;
    while i < v.len()
        invariant
            i <= v@.len(),
            views(r@) == views(v@).take(i as int),
        decreases v.len() - i,
    {
        let ghost before = views(r@);
        let s = v[i].clone();
        r.push(s);
        assert(views(r@) =~= before.push(v@[i as int]@));
        assert(views(r@) =~= views(v@).take(i + 1));
        i = i + 1;
    }
    assert(views(v@).take(v@.len() as int) =~= views(v@));
    r
}

fn clone_option(o: &Option<String>) -> (r: Option<String>)
    ensures
        opt_view(r) == opt_view(*o),
{
    match o {
        Some(s) => Some(s.clone()),
        None => None,
    }
}

impl SearchParams {
    /// The trimmed semantic query, if a non-empty one was given.
    pub fn semantic_query(&self) -> (r: Option<&str>)
        ensures
            match r {
                Some(q) => semantic_query_spec(self.query) == Some(q@),
                None => semantic_query_spec(self.query) is None,
            },
    {
        match &self.query {
            Some(q) => {
                let cs = chars_of(q.as_str());
                let (i, j) = trim_bounds(&cs);
                if i == j {
                    None
                } else {
                    let t = q.as_str().substring_char(i, j);
                    Some(t)
                }
            },
            None => None,
        }
    }

    /// The row cap to apply: the requested `limit` (or [`DEFAULT_LIMIT`]),
    /// clamped to [`MAX_LIMIT`] so a client can't force an unbounded page.
    pub fn effective_limit(&self) -> (r: usize)
        ensures
            r == effective_limit_spec(self.limit),
            r <= MAX_LIMIT,
    {
        let requested = match self.limit {
            Some(l) => l,
            None => DEFAULT_LIMIT,
        };
        if requested < MAX_LIMIT {
            requested
        } else {
            MAX_LIMIT
        }
    }

    /// Projects the filter fields onto [`Criteria`] (drops `limit` and the
    /// query), with `posted_after` as the freshness threshold.
    pub fn criteria_with_threshold(&self, posted_after: Option<String>) -> (c: Criteria)
        ensures
            projects(*self, opt_view(posted_after), c),
    {
        Criteria {
            functions: clone_strings(&self.functions),
            levels: clone_strings(&self.levels),
            titles: clone_strings(&self.titles),
            companies: clone_strings(&self.companies),
            cities: clone_strings(&self.cities),
            country: clone_option(&self.country),
            min_comp: self.min_comp,
            posted_after,
        }
    }

    /// Projects the filter fields onto [`Criteria`] at the clock reading `now`:
    /// the relative `posted_within_days` window becomes the absolute
    /// `posted_after` threshold that many days before `now`. `None` when that
    /// instant is out of the date range.
    pub fn criteria_at(&self, now: ClockReading) -> (c: Option<Criteria>)
        ensures
            criteria_outcome(*self, now, c),
    {
        let threshold = match self.posted_within_days {
            Some(days) => match timestamp_before(now, (days as i128) * 86400) {
                Some(t) => Some(t),
                None => {
                    return None;
                },
            },
            None => None,
        };
        Some(self.criteria_with_threshold(threshold))
    }

    /// Projects the filter fields onto [`Criteria`], resolving the relative
    /// `posted_within_days` window against the current time; `None` when the
    /// window reaches outside the date range. The reading depends on the clock:
    /// the result is what [`SearchParams::criteria_at`] gives for some reading.
    pub fn criteria(&self) -> (c: Option<Criteria>)
        ensures
            exists|now: ClockReading| is_reading(now) && criteria_outcome(*self, now, c),
    {
        let now = read_clock();
        self.criteria_at(now)
    }
}

/// One search row: a compact summary, plus a similarity `score` when the search
/// carried a semantic `query`.
#[derive(Debug)]
pub struct SearchHit {
    pub summary: JobSummary,
    /// Best-variant cosine similarity to the query in `[-1, 1]`, when `query`
    /// was set, as the IEEE-754 bit pattern of the `f32` score.
    pub score: Option<u32>,
}

/// `search` result: the match count plus a capped page of rows.
#[derive(Debug)]
pub struct SearchResults {
    /// Total roles matching the hard filters — the candidate-set size,
    /// independent of `limit` and of any semantic ranking.
    pub total: usize,
    /// Compact rows, capped at `limit`.
    pub results: Vec<SearchHit>,
}

/// Inputs of a semantic search: the free-text query and the hard filters.
#[derive(Debug)]
pub struct SemanticParams {
    /// Free-text description of the work.
    pub query: String,
    /// Hard filters and row cap.
    pub filter: SearchParams,
}

/// One semantic search row.
#[derive(Debug)]
pub struct SemanticHit {
    pub summary: JobSummary,
    /// Best-variant cosine similarity, as the IEEE-754 bit pattern of the `f32`.
    pub score: u32,
}

/// `semantic_search` result: rows best first.
#[derive(Debug)]
pub struct SemanticResults {
    pub results: Vec<SemanticHit>,
}

/// One prior user reaction to a recommended role — the feedback-loop signal.
#[derive(Debug)]
pub struct FeedbackItem {
    /// Dataset id of the role reacted to.
    pub id: String,
    /// `liked`/`applied`/`saved` (positive) or `disliked`/`rejected`/`skipped`
    /// (negative). Unrecognized labels are ignored.
    pub label: String,
}

/// The polarity a label carries, read from its trimmed ASCII lowercase.
pub open spec fn polarity_spec(label: Seq<char>) -> Option<bool> {
    let l = ascii_lower(trim_seq(label));
    if l == "liked"@ || l == "like"@ || l == "applied"@ || l == "saved"@ || l == "shortlisted"@ {
        Some(true)
    } else if l == "disliked"@ || l == "dislike"@ || l == "rejected"@ || l == "skipped"@ || l
        == "hidden"@ {
        Some(false)
    } else {
        None
    }
}

/// The polarity of every label, case by case: after trimming and ASCII
/// lowercasing, `liked`, `like`, `applied`, `saved` and `shortlisted` are
/// positive; `disliked`, `dislike`, `rejected`, `skipped` and `hidden` are
/// negative; every other label carries no signal.
pub proof fn law_feedback_label_polarity(label: Seq<char>)
    ensures
        ascii_lower(trim_seq(label)) == "liked"@ ==> polarity_spec(label) == Some(true),
        ascii_lower(trim_seq(label)) == "like"@ ==> polarity_spec(label) == Some(true),
        ascii_lower(trim_seq(label)) == "applied"@ ==> polarity_spec(label) == Some(true),
        ascii_lower(trim_seq(label)) == "saved"@ ==> polarity_spec(label) == Some(true),
        ascii_lower(trim_seq(label)) == "shortlisted"@ ==> polarity_spec(label) == Some(true),
        ascii_lower(trim_seq(label)) == "disliked"@ ==> polarity_spec(label) == Some(false),
        ascii_lower(trim_seq(label)) == "dislike"@ ==> polarity_spec(label) == Some(false),
        ascii_lower(trim_seq(label)) == "rejected"@ ==> polarity_spec(label) == Some(false),
        ascii_lower(trim_seq(label)) == "skipped"@ ==> polarity_spec(label) == Some(false),
        ascii_lower(trim_seq(label)) == "hidden"@ ==> polarity_spec(label) == Some(false),
        !(ascii_lower(trim_seq(label)) == "liked"@ || ascii_lower(trim_seq(label)) == "like"@
            || ascii_lower(trim_seq(label)) == "applied"@ || ascii_lower(trim_seq(label))
            == "saved"@ || ascii_lower(trim_seq(label)) == "shortlisted"@ || ascii_lower(
            trim_seq(label),
        ) == "disliked"@ || ascii_lower(trim_seq(label)) == "dislike"@ || ascii_lower(
            trim_seq(label),
        ) == "rejected"@ || ascii_lower(trim_seq(label)) == "skipped"@ || ascii_lower(
            trim_seq(label),
        ) == "hidden"@) ==> polarity_spec(label) is None,
{
    reveal_strlit("liked");
    reveal_strlit("like");
    reveal_strlit("applied");
    reveal_strlit("saved");
    reveal_strlit("shortlisted");
    reveal_strlit("disliked");
    reveal_strlit("dislike");
    reveal_strlit("rejected");
    reveal_strlit("skipped");
    reveal_strlit("hidden");
    let pos = seq!["liked"@, "like"@, "applied"@, "saved"@, "shortlisted"@];
    assert forall|i: int| 0 <= i < 5 implies pos[i] != "disliked"@ && pos[i] != "dislike"@
        && pos[i] != "rejected"@ && pos[i] != "skipped"@ && pos[i] != "hidden"@ by {
        assert(pos[i].len() != "disliked"@.len() || pos[i][0] != "disliked"@[0]);
        assert(pos[i].len() != "dislike"@.len() || pos[i][0] != "dislike"@[0]);
        assert(pos[i].len() != "rejected"@.len() || pos[i][0] != "rejected"@[0]);
        assert(pos[i].len() != "skipped"@.len() || pos[i][0] != "skipped"@[0]);
        assert(pos[i].len() != "hidden"@.len() || pos[i][0] != "hidden"@[0]);
    }
    assert(pos[0] == "liked"@ && pos[1] == "like"@ && pos[2] == "applied"@ && pos[3] == "saved"@
        && pos[4] == "shortlisted"@);
}

impl FeedbackItem {
    /// `Some(true)` for a positive signal, `Some(false)` for negative, `None` if
    /// the label isn't recognized.
    pub fn polarity(&self) -> (r: Option<bool>)
        ensures
            r == polarity_spec(self.label@),
    {
        let t = trim(self.label.as_str());
        let l = to_ascii_lowercase(t.as_str());
        let l = l.as_str();
        if same_text(l, "liked") || same_text(l, "like") || same_text(l, "applied") || same_text(
            l,
            "saved",
        ) || same_text(l, "shortlisted") {
            Some(true)
        } else if same_text(l, "disliked") || same_text(l, "dislike") || same_text(l, "rejected")
            || same_text(l, "skipped") || same_text(l, "hidden") {
            Some(false)
        } else {
            None
        }
    }
}

/// `rank_jobs` input: a candidate source (hard filters or explicit `ids`), the
/// resume and method for the optional model pass, and prior `feedback`.
#[derive(Debug)]
pub struct RankParams {
    /// Hard filters used to draw candidates (ignored when `ids` is given).
    pub filter: SearchParams,
    /// Explicit candidate ids to rank instead of running a filter search.
    pub ids: Vec<String>,
    /// Resume text; required by the `match` and `pairwise` methods.
    pub resume: Option<String>,
    /// Prior reactions, used to personalize the free taste ranking.
    pub feedback: Vec<FeedbackItem>,
    /// `match` or `pairwise` (needs a configured model). Omit for the free,
    /// keyless taste ranking.
    pub method: Option<String>,
    /// Max ranked rows to return.
    pub top: Option<usize>,
}

} // verus!
