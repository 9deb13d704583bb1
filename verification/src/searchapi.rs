//! A live external job source: SearchAPI's `google_jobs` engine. Builds the
//! Google Jobs query, steers pagination, and normalizes the returned jobs into
//! the [`Job`] shape so they can be federated with the local corpus.
//!
//! Cross-source identity is `sha256(apply_url)` (prefixed `googlejobs:`), so a
//! role that also appears in the corpus can be deduplicated by URL. Google Jobs
//! lacks the corpus's extracted structured fields (function, comp, remote
//! scope), so those come back unknown; the description carries the detail.
use sha2::Digest;
use vstd::prelude::*;

use crate::clock::{is_reading, read_clock, rfc3339_before, timestamp_before, ClockReading};
use crate::job::{Job, UNKNOWN_SALARY_BITS};
use crate::text::{
    opt_view,
    append, chars_of, contains_any, contains_any_of, contains_seq, contains_str, contains_string,
    hex_lower, hex_prefix, join, join_strings, occurs_at_exec, owned, parse_i64, parse_i64_spec,
    push_char, same_text, split, split_seq, split_whitespace, starts_with_seq, string_of,
    to_lowercase, trim, trim_seq, unicode_lower, views, words_seq, Separator,
};

verus! {

/// The public SearchAPI endpoint.
pub const DEFAULT_BASE_URL: &'static str = "https://www.searchapi.io/api/v1/search";

/// SearchAPI returns 10 results per page.
pub const RESULTS_PER_PAGE: usize = 10;

/// How recently a role was posted (folded into the query as Google understands it).
#[derive(Debug, Clone, Copy)]
pub enum PostTimeFilter {
    Yesterday,
    Past3Days,
    PastWeek,
}

/// Inputs for one Google Jobs search.
#[derive(Debug)]
pub struct SearchApiParams {
    pub query: String,
    pub location: Option<String>,
    pub company: Option<String>,
    pub post_time_filter: Option<PostTimeFilter>,
    /// Desired number of results; drives how many 10-result pages are fetched.
    pub page_size: usize,
    /// Continuation token from a prior result (fetches exactly one more page).
    pub page_token: Option<String>,
}

impl Default for SearchApiParams {
    fn default() -> (r: Self)
        ensures
            r.query@.len() == 0,
            r.location is None,
            r.company is None,
            r.post_time_filter is None,
            r.page_size == 0,
            r.page_token is None,
    {
        SearchApiParams {
            query: String::new(),
            location: None,
            company: None,
            post_time_filter: None,
            page_size: 0,
            page_token: None,
        }
    }
}

// ---------------------------------------------------------------------------
// The query
// ---------------------------------------------------------------------------

/// ` {prefix}{value}` when a non-empty value is given.
pub open spec fn qualifier(prefix: Seq<char>, value: Option<String>) -> Seq<char> {
    match value {
        Some(v) => if v@.len() > 0 {
            prefix + v@
        } else {
            Seq::empty()
        },
        None => Seq::empty(),
    }
}

/// The recency phrase, defaulting to the past week.
pub open spec fn recency(f: Option<PostTimeFilter>) -> Seq<char> {
    match f {
        Some(PostTimeFilter::Yesterday) => " since yesterday"@,
        Some(PostTimeFilter::Past3Days) => " since the past 3 days"@,
        Some(PostTimeFilter::PastWeek) => " since the past week"@,
        None => " posted in the past week"@,
    }
}

/// The free-text query Google Jobs expects: the base query, then location,
/// company, and a recency phrase.
pub open spec fn build_query_spec(p: SearchApiParams) -> Seq<char> {
    p.query@ + qualifier(" in "@, p.location) + qualifier(" at "@, p.company) + recency(
        p.post_time_filter,
    )
}

/// Builds the free-text query Google Jobs expects: the base query, then location,
/// company, and a recency phrase (defaulting to the past week).
pub fn build_query(params: &SearchApiParams) -> (r: String)
    ensures
        r@ == build_query_spec(*params),
{
    let mut query = params.query.clone();
    match &params.location {
        Some(location) => {
            if !location.as_str().is_empty() {
                append(&mut query, " in ");
                append(&mut query, location.as_str());
            }
        },
        None => {},
    }
    let ghost q1 = query@;
    assert(q1 =~= params.query@ + qualifier(" in "@, params.location));
    match &params.company {
        Some(company) => {
            if !company.as_str().is_empty() {
                append(&mut query, " at ");
                append(&mut query, company.as_str());
            }
        },
        None => {},
    }
    assert(query@ =~= q1 + qualifier(" at "@, params.company));
    let phrase = match params.post_time_filter {
        Some(PostTimeFilter::Yesterday) => " since yesterday",
        Some(PostTimeFilter::Past3Days) => " since the past 3 days",
        Some(PostTimeFilter::PastWeek) => " since the past week",
        None => " posted in the past week",
    };
    append(&mut query, phrase);
    query
}

// ---------------------------------------------------------------------------
// Keyword heuristics
// ---------------------------------------------------------------------------

/// Coarse seniority from title and description keywords, in the lowercase of
/// `"{title} {description}"`.
pub open spec fn experience_level_spec(title: Seq<char>, description: Seq<char>) -> Seq<char> {
    let text = unicode_lower(title + " "@ + description);
    if contains_any(text, seq!["senior"@, "lead"@, "director"@, "manager"@]) {
        "Senior"@
    } else if contains_any(text, seq!["junior"@, "entry"@, "intern"@]) {
        "Entry"@
    } else if contains_any(text, seq!["mid"@, "intermediate"@]) {
        "Mid"@
    } else {
        Seq::empty()
    }
}

/// The lowercase of `"{title} {description}"`, where level keywords are looked for.
pub open spec fn level_text(title: Seq<char>, description: Seq<char>) -> Seq<char> {
    unicode_lower(title + " "@ + description)
}

/// Seniority by keyword: a text mentioning senior, lead, director or manager is
/// Senior; otherwise one mentioning junior, entry or intern is Entry; otherwise
/// one mentioning mid or intermediate is Mid; any other text has no level.
pub proof fn law_experience_level_by_keyword(title: Seq<char>, description: Seq<char>)
    ensures
        ({
            let t = level_text(title, description);
            &&& (contains_seq(t, "senior"@) || contains_seq(t, "lead"@) || contains_seq(
                t,
                "director"@,
            ) || contains_seq(t, "manager"@)) ==> experience_level_spec(title, description)
                == "Senior"@
            &&& (!contains_seq(t, "senior"@) && !contains_seq(t, "lead"@) && !contains_seq(
                t,
                "director"@,
            ) && !contains_seq(t, "manager"@)) ==> ((contains_seq(t, "junior"@) || contains_seq(
                t,
                "entry"@,
            ) || contains_seq(t, "intern"@)) ==> experience_level_spec(title, description)
                == "Entry"@)
            &&& (!contains_seq(t, "senior"@) && !contains_seq(t, "lead"@) && !contains_seq(
                t,
                "director"@,
            ) && !contains_seq(t, "manager"@) && !contains_seq(t, "junior"@) && !contains_seq(
                t,
                "entry"@,
            ) && !contains_seq(t, "intern"@)) ==> ((contains_seq(t, "mid"@) || contains_seq(
                t,
                "intermediate"@,
            )) ==> experience_level_spec(title, description) == "Mid"@)
            &&& (!contains_seq(t, "senior"@) && !contains_seq(t, "lead"@) && !contains_seq(
                t,
                "director"@,
            ) && !contains_seq(t, "manager"@) && !contains_seq(t, "junior"@) && !contains_seq(
                t,
                "entry"@,
            ) && !contains_seq(t, "intern"@) && !contains_seq(t, "mid"@) && !contains_seq(
                t,
                "intermediate"@,
            )) ==> experience_level_spec(title, description).len() == 0
        }),
{
    let t = level_text(title, description);
    let senior = seq!["senior"@, "lead"@, "director"@, "manager"@];
    let entry = seq!["junior"@, "entry"@, "intern"@];
    let mid = seq!["mid"@, "intermediate"@];
    assert(senior[0] == "senior"@ && senior[1] == "lead"@ && senior[2] == "director"@ && senior[3]
        == "manager"@);
    assert(entry[0] == "junior"@ && entry[1] == "entry"@ && entry[2] == "intern"@);
    assert(mid[0] == "mid"@ && mid[1] == "intermediate"@);
    assert(contains_any(t, senior) <==> (contains_seq(t, senior[0]) || contains_seq(t, senior[1])
        || contains_seq(t, senior[2]) || contains_seq(t, senior[3])));
    assert(contains_any(t, entry) <==> (contains_seq(t, entry[0]) || contains_seq(t, entry[1])
        || contains_seq(t, entry[2])));
    assert(contains_any(t, mid) <==> (contains_seq(t, mid[0]) || contains_seq(t, mid[1])));
    reveal_strlit("Senior");
    reveal_strlit("Entry");
    reveal_strlit("Mid");
}

/// Coarse seniority from title + description keywords.
pub fn experience_level(title: &str, description: &str) -> (r: String)
    ensures
        r@ == experience_level_spec(title@, description@),
{
    let mut text = owned(title);
    append(&mut text, " ");
    append(&mut text, description);
    let text = to_lowercase(text.as_str());
    let senior = vec!["senior", "lead", "director", "manager"];
    let entry = vec!["junior", "entry", "intern"];
    let mid = vec!["mid", "intermediate"];
    assert(senior@.map_values(|p: &str| p@) =~= seq!["senior"@, "lead"@, "director"@, "manager"@]);
    assert(entry@.map_values(|p: &str| p@) =~= seq!["junior"@, "entry"@, "intern"@]);
    assert(mid@.map_values(|p: &str| p@) =~= seq!["mid"@, "intermediate"@]);
    if contains_any_of(text.as_str(), &senior) {
        owned("Senior")
    } else if contains_any_of(text.as_str(), &entry) {
        owned("Entry")
    } else if contains_any_of(text.as_str(), &mid) {
        owned("Mid")
    } else {
        String::new()
    }
}

/// Looks like a Google Jobs relative date ("3 days ago", …).
pub open spec fn is_relative_date_spec(s: Seq<char>) -> bool {
    contains_any(unicode_lower(s), seq!["ago"@, "day"@, "week"@, "month"@, "hour"@])
}

/// True if a string looks like a Google Jobs relative date ("3 days ago", …).
pub fn is_relative_date(s: &str) -> (r: bool)
    ensures
        r == is_relative_date_spec(s@),
{
    let lower = to_lowercase(s);
    let units = vec!["ago", "day", "week", "month", "hour"];
    assert(units@.map_values(|p: &str| p@) =~= seq!["ago"@, "day"@, "week"@, "month"@, "hour"@]);
    contains_any_of(lower.as_str(), &units)
}

// ---------------------------------------------------------------------------
// SearchAPI response shapes (only the fields used)
// ---------------------------------------------------------------------------

/// One page of SearchAPI results.
#[derive(Debug)]
pub struct SearchApiResponse {
    pub jobs: Vec<SearchApiJob>,
    pub pagination: Option<Pagination>,
}

/// Where the next page starts.
#[derive(Debug)]
pub struct Pagination {
    pub next_page_token: Option<String>,
}

/// One job as SearchAPI returns it.
#[derive(Debug)]
pub struct SearchApiJob {
    pub title: String,
    pub company_name: String,
    pub location: String,
    pub description: String,
    pub job_highlights: Vec<JobHighlight>,
    pub detected_extensions: Option<DetectedExtensions>,
    pub apply_link: Option<String>,
    pub apply_links: Vec<ApplyLink>,
}

/// A titled list of highlights ("Qualifications", "Benefits", …).
#[derive(Debug)]
pub struct JobHighlight {
    pub title: String,
    pub items: Vec<String>,
}

/// One apply link.
#[derive(Debug)]
pub struct ApplyLink {
    pub link: String,
}

/// Details Google extracted from the posting.
#[derive(Debug)]
pub struct DetectedExtensions {
    pub schedule: Option<String>,
    pub salary: Option<String>,
    pub posted_at: Option<String>,
    pub health_insurance: bool,
    pub dental_insurance: bool,
    pub paid_time_off: bool,
}

impl Default for DetectedExtensions {
    fn default() -> (r: Self)
        ensures
            r.schedule is None,
            r.salary is None,
            r.posted_at is None,
            !r.health_insurance,
            !r.dental_insurance,
            !r.paid_time_off,
    {
        DetectedExtensions {
            schedule: None,
            salary: None,
            posted_at: None,
            health_insurance: false,
            dental_insurance: false,
            paid_time_off: false,
        }
    }
}

// ---------------------------------------------------------------------------
// Highlights, summary and markdown
// ---------------------------------------------------------------------------

/// Items of the first highlight whose lowercase title contains any of `keywords`.
pub open spec fn highlight_items_spec(hs: Seq<JobHighlight>, keywords: Seq<Seq<char>>) -> Seq<
    Seq<char>,
>
    decreases hs.len(),
{
    if hs.len() == 0 {
        Seq::empty()
    } else if contains_any(unicode_lower(hs[0].title@), keywords) {
        views(hs[0].items@)
    } else {
        highlight_items_spec(hs.drop_first(), keywords)
    }
}

/// Items from the first highlight whose title contains any of `keywords`.
pub fn highlight_items(highlights: &Vec<JobHighlight>, keywords: &Vec<&str>) -> (r: Vec<String>)
    ensures
        views(r@) == highlight_items_spec(highlights@, keywords@.map_values(|p: &str| p@)),
{
    let ghost kws = keywords@.map_values(|p: &str| p@);
    let mut i: usize = 0;
    assert(highlights@.skip(0) =~= highlights@);
    while i < highlights.len()
        invariant
            kws == keywords@.map_values(|p: &str| p@),
            i <= highlights@.len(),
            highlight_items_spec(highlights@, kws) == highlight_items_spec(
                highlights@.skip(i as int),
                kws,
            ),
        decreases highlights.len() - i,
    {
        let ghost rest = highlights@.skip(i as int);
        assert(rest[0] == highlights@[i as int]);
        assert(rest.drop_first() =~= highlights@.skip(i + 1));
        let title = to_lowercase(highlights[i].title.as_str());
        if contains_any_of(title.as_str(), keywords) {
            return highlights[i].items.clone();
        }
        i = i + 1;
    }
    Vec::new()
}

/// The first piece that is not blank once trimmed, trimmed; empty if none.
pub open spec fn first_nonblank(ps: Seq<Seq<char>>) -> Seq<char>
    decreases ps.len(),
{
    if ps.len() == 0 {
        Seq::empty()
    } else if trim_seq(ps[0]).len() > 0 {
        trim_seq(ps[0])
    } else {
        first_nonblank(ps.drop_first())
    }
}

/// Longest summary kept whole, in characters.
pub const SUMMARY_MAX_CHARS: usize = 160;

/// A one-line summary: the first sentence or line of the description, cut to
/// 159 characters and an ellipsis when longer than 160.
pub open spec fn summarize_spec(description: Seq<char>) -> Seq<char> {
    let first = first_nonblank(split_seq(description, Separator::LineOrPeriod));
    if first.len() > 160 {
        first.take(159).push('…')
    } else {
        first
    }
}

/// A one-line summary: the first sentence/line of the description, capped.
pub fn summarize(description: &str) -> (r: String)
    ensures
        r@ == summarize_spec(description@),
{
    let pieces = split(description, Separator::LineOrPeriod);
    let ghost ps = views(pieces@);
    let mut first = String::new();
    let mut i: usize = 0;
    let mut found = false;
    assert(ps.skip(0) =~= ps);
    while i < pieces.len() && !found
        invariant
            ps == views(pieces@),
            i <= pieces@.len(),
            !found ==> first_nonblank(ps) == first_nonblank(ps.skip(i as int)),
            !found ==> first@ == Seq::<char>::empty(),
            found ==> first@ == first_nonblank(ps),
        decreases pieces.len() - i,
    {
        assert(ps.skip(i as int).drop_first() =~= ps.skip(i + 1));
        assert(ps.skip(i as int)[0] == ps[i as int]);
        let t = trim(pieces[i].as_str());
        if !t.as_str().is_empty() {
            first = t;
            found = true;
        }
        i = i + 1;
    }
    if !found {
        assert(ps.skip(i as int).len() == 0);
        assert(first@ =~= first_nonblank(ps));
    }
    let cs = chars_of(first.as_str());
    if cs.len() > 160 {
        let mut r = string_of(&cs, 0, 159);
        push_char(&mut r, '…');
        assert(cs@.subrange(0, 159) =~= cs@.take(159));
        r
    } else {
        first
    }
}

/// A summary is never longer than 160 characters.
pub proof fn law_summary_is_capped(description: Seq<char>)
    ensures
        summarize_spec(description).len() <= SUMMARY_MAX_CHARS,
{
}

/// `- {item}\n` for each item.
pub open spec fn bullets(items: Seq<Seq<char>>) -> Seq<char>
    decreases items.len(),
{
    if items.len() == 0 {
        Seq::empty()
    } else {
        bullets(items.drop_last()) + "- "@ + items.last() + "\n"@
    }
}

fn push_bullets(out: &mut String, items: &Vec<String>)
    ensures
        final(out)@ == old(out)@ + bullets(views(items@)),
{
    let ghost start = out@;
    let mut i: usize = 0;
    while i < items.len()
        invariant
            i <= items@.len(),
            out@ == start + bullets(views(items@).take(i as int)),
        decreases items.len() - i,
    {
        append(out, "- ");
        append(out, items[i].as_str());
        append(out, "\n");
        assert(views(items@).take(i + 1).drop_last() =~= views(items@).take(i as int));
        assert(out@ =~= start + bullets(views(items@).take(i + 1)));
        i = i + 1;
    }
    assert(views(items@).take(items@.len() as int) =~= views(items@));
}

/// A `## heading` section listing `items`, or nothing when there is none.
pub open spec fn section(heading: Seq<char>, items: Seq<Seq<char>>) -> Seq<char> {
    if items.len() > 0 {
        "\n\n## "@ + heading + "\n"@ + bullets(items)
    } else {
        Seq::empty()
    }
}

/// `{label}{value}` for a present value.
pub open spec fn labeled(label: Seq<char>, value: Option<Seq<char>>) -> Seq<Seq<char>> {
    match value {
        Some(v) => seq![label + v],
        None => Seq::empty(),
    }
}

/// The salary, schedule and posting-date line entries that are present.
pub open spec fn meta_entries(
    salary: Option<Seq<char>>,
    schedule: Option<Seq<char>>,
    posted: Option<Seq<char>>,
) -> Seq<Seq<char>> {
    labeled("**Salary:** "@, salary) + labeled("**Schedule:** "@, schedule) + labeled(
        "**Posted:** "@,
        posted,
    )
}

/// The markdown document for one job: the metadata line (when any), the
/// trimmed description, the responsibility, requirement and benefit sections
/// that are not empty, and the apply links when there is more than one.
pub open spec fn render_markdown_spec(
    description: Seq<char>,
    requirements: Seq<Seq<char>>,
    responsibilities: Seq<Seq<char>>,
    benefits: Seq<Seq<char>>,
    salary: Option<Seq<char>>,
    schedule: Option<Seq<char>>,
    posted: Option<Seq<char>>,
    apply_links: Seq<Seq<char>>,
) -> Seq<char> {
    let meta = meta_entries(salary, schedule, posted);
    let head = if meta.len() > 0 {
        join(meta, " · "@) + "\n\n"@
    } else {
        Seq::empty()
    };
    let apply = if apply_links.len() > 1 {
        "\n\n## Apply\n"@ + bullets(apply_links)
    } else {
        Seq::empty()
    };
    head + trim_seq(description) + section("Responsibilities"@, responsibilities) + section(
        "Requirements"@,
        requirements,
    ) + section("Benefits"@, benefits) + apply
}

fn push_labeled(meta: &mut Vec<String>, label: &str, value: &Option<String>)
    ensures
        views(final(meta)@) == views(old(meta)@) + labeled(label@, opt_view(*value)),
{
    match value {
        Some(v) => {
            let mut entry = owned(label);
            append(&mut entry, v.as_str());
            let ghost before = views(meta@);
            meta.push(entry);
            assert(views(meta@) =~= before + labeled(label@, opt_view(*value)));
        },
        None => {
            assert(views(meta@) =~= views(meta@) + labeled(label@, opt_view(*value)));
        },
    }
}

fn push_section(out: &mut String, heading: &str, items: &Vec<String>)
    ensures
        final(out)@ == old(out)@ + section(heading@, views(items@)),
{
    if items.len() > 0 {
        append(out, "\n\n## ");
        append(out, heading);
        append(out, "\n");
        push_bullets(out, items);
    } else {
        assert(old(out)@ =~= old(out)@ + section(heading@, views(items@)));
    }
}

/// Renders the source-specific detail into a single markdown document.
pub fn render_markdown(
    description: &str,
    requirements: &Vec<String>,
    responsibilities: &Vec<String>,
    benefits: &Vec<String>,
    salary: &Option<String>,
    schedule: &Option<String>,
    posted: &Option<String>,
    apply_links: &Vec<String>,
) -> (r: String)
    ensures
        r@ == render_markdown_spec(
            description@,
            views(requirements@),
            views(responsibilities@),
            views(benefits@),
            opt_view(*salary),
            opt_view(*schedule),
            opt_view(*posted),
            views(apply_links@),
        ),
{
    let mut meta: Vec<String> = Vec::new();
    push_labeled(&mut meta, "**Salary:** ", salary);
    push_labeled(&mut meta, "**Schedule:** ", schedule);
    push_labeled(&mut meta, "**Posted:** ", posted);
    let ghost entries = meta_entries(opt_view(*salary), opt_view(*schedule), opt_view(*posted));
    assert(views(meta@) =~= entries);
    let mut out = String::new();
    if meta.len() > 0 {
        let line = join_strings(&meta, " · ");
        append(&mut out, line.as_str());
        append(&mut out, "\n\n");
    }
    let d = trim(description);
    append(&mut out, d.as_str());
    push_section(&mut out, "Responsibilities", responsibilities);
    push_section(&mut out, "Requirements", requirements);
    push_section(&mut out, "Benefits", benefits);
    if apply_links.len() > 1 {
        append(&mut out, "\n\n## Apply\n");
        push_bullets(&mut out, apply_links);
    }
    out
}

// ---------------------------------------------------------------------------
// Links and identity
// ---------------------------------------------------------------------------

/// The characters of each (key, value) pair.
pub open spec fn pair_views(ps: Seq<(String, String)>) -> Seq<(Seq<char>, Seq<char>)> {
    ps.map_values(|p: (String, String)| (p.0@, p.1@))
}

/// The decoded query pairs of `raw` as `url::Url::parse` and `Url::query_pairs`
/// give them, in order, or `None` when `raw` does not parse as a URL.
pub uninterp spec fn url_query_pairs(raw: Seq<char>) -> Option<Seq<(Seq<char>, Seq<char>)>>;

/// What `url` serializes `raw` to once its query is removed (`raw` itself when
/// it does not parse).
pub uninterp spec fn url_without_query(raw: Seq<char>) -> Seq<char>;

/// What `url` serializes `raw` to once its query is replaced by the encoded
/// `pairs` (`raw` itself when it does not parse).
pub uninterp spec fn url_with_query(raw: Seq<char>, pairs: Seq<(Seq<char>, Seq<char>)>) -> Seq<
    char,
>;

/// `url::Url::parse` then `Url::query_pairs`: the decoded pairs, or `None`
/// when the text is not a URL. The pairs are named, not spelled out.
#[verifier::external_body]
fn parse_query_pairs(raw: &str) -> (r: Option<Vec<(String, String)>>)
    ensures
        match r {
            Some(v) => url_query_pairs(raw@) == Some(pair_views(v@)),
            None => url_query_pairs(raw@) is None,
        },
{
    match url::Url::parse(raw) {
        Ok(parsed) => Some(parsed.query_pairs().map(|(k, v)| (k.into_owned(), v.into_owned())).collect()),
        Err(_) => None,
    }
}

/// `url::Url::parse`, `Url::set_query(None)`, then the serialization.
#[verifier::external_body]
fn url_strip_query(raw: &str) -> (r: String)
    ensures
        r@ == url_without_query(raw@),
{
    match url::Url::parse(raw) {
        Ok(mut parsed) => {
            parsed.set_query(None);
            parsed.to_string()
        },
        Err(_) => raw.to_string(),
    }
}

/// `url::Url::parse`, `Url::set_query(None)`, `query_pairs_mut().extend_pairs`,
/// then the serialization.
#[verifier::external_body]
fn url_replace_query(raw: &str, pairs: &Vec<(String, String)>) -> (r: String)
    ensures
        r@ == url_with_query(raw@, pair_views(pairs@)),
{
    match url::Url::parse(raw) {
        Ok(mut parsed) => {
            parsed.set_query(None);
            parsed.query_pairs_mut().extend_pairs(pairs.iter());
            parsed.to_string()
        },
        Err(_) => raw.to_string(),
    }
}

/// A UTM tracking key.
pub open spec fn is_utm_key(k: Seq<char>) -> bool {
    k == "utm_campaign"@ || k == "utm_source"@ || k == "utm_medium"@
}

/// The pairs whose key is not a UTM tracking key, in order.
pub open spec fn without_utm(ps: Seq<(Seq<char>, Seq<char>)>) -> Seq<(Seq<char>, Seq<char>)>
    decreases ps.len(),
{
    if ps.len() == 0 {
        Seq::empty()
    } else if is_utm_key(ps.last().0) {
        without_utm(ps.drop_last())
    } else {
        without_utm(ps.drop_last()).push(ps.last())
    }
}

/// Stripping UTM parameters keeps exactly the others: no kept pair has a UTM
/// key, and every pair without one is kept.
pub proof fn law_only_utm_pairs_are_dropped(ps: Seq<(Seq<char>, Seq<char>)>)
    ensures
        forall|i: int|
            0 <= i < without_utm(ps).len() ==> !is_utm_key(#[trigger] without_utm(ps)[i].0),
        forall|p: (Seq<char>, Seq<char>)|
            without_utm(ps).contains(p) <==> (ps.contains(p) && !is_utm_key(p.0)),
    decreases ps.len(),
{
    if ps.len() > 0 {
        let rest = ps.drop_last();
        law_only_utm_pairs_are_dropped(rest);
        let w = without_utm(rest);
        assert forall|p: (Seq<char>, Seq<char>)|
            without_utm(ps).contains(p) <==> (ps.contains(p) && !is_utm_key(p.0)) by {
            if ps.contains(p) {
                let k = choose|k: int| 0 <= k < ps.len() && ps[k] == p;
                if k < ps.len() - 1 {
                    assert(rest[k] == p);
                }
            }
            if rest.contains(p) {
                let k = choose|k: int| 0 <= k < rest.len() && rest[k] == p;
                assert(ps[k] == p);
            }
            if !is_utm_key(ps.last().0) {
                if w.contains(p) {
                    let k = choose|k: int| 0 <= k < w.len() && w[k] == p;
                    assert(w.push(ps.last())[k] == p);
                }
                if without_utm(ps).contains(p) && p != ps.last() {
                    let k = choose|k: int|
                        0 <= k < without_utm(ps).len() && without_utm(ps)[k] == p;
                    assert(w[k] == p);
                }
                assert(w.push(ps.last())[w.len() as int] == ps.last());
            }
        }
    }
}

/// A URL with its UTM parameters stripped (the trimmed input is parsed); the
/// input unchanged when it does not parse, and empty for blank input.
pub open spec fn clean_url_spec(raw: Seq<char>) -> Seq<char> {
    let t = trim_seq(raw);
    if t.len() == 0 {
        Seq::empty()
    } else {
        match url_query_pairs(t) {
            None => raw,
            Some(pairs) => {
                let kept = without_utm(pairs);
                if kept.len() == 0 {
                    url_without_query(t)
                } else {
                    url_with_query(t, kept)
                }
            },
        }
    }
}

/// Strips UTM parameters from a URL (parsed with surrounding whitespace
/// trimmed); returns the input unchanged if it won't parse, and an empty string
/// for blank input.
pub fn clean_url(raw: &str) -> (r: String)
    ensures
        r@ == clean_url_spec(raw@),
{
    let input = raw;
    let raw = trim(input);
    if raw.as_str().is_empty() {
        return String::new();
    }
    match parse_query_pairs(raw.as_str()) {
        Some(pairs) => {
            let mut kept: Vec<(String, String)> = Vec::new();
            let mut i: usize = 0;
            while i < pairs.len()
                invariant
                    i <= pairs@.len(),
                    pair_views(kept@) == without_utm(pair_views(pairs@).take(i as int)),
                decreases pairs.len() - i,
            {
                let ghost pv = pair_views(pairs@);
                assert(pv.take(i + 1).drop_last() =~= pv.take(i as int));
                assert(pv.take(i + 1).last() == pv[i as int]);
                let key = pairs[i].0.as_str();
                let utm = same_text(key, "utm_campaign") || same_text(key, "utm_source")
                    || same_text(key, "utm_medium");
                if !utm {
                    let ghost before = pair_views(kept@);
                    let k = pairs[i].0.clone();
                    let v = pairs[i].1.clone();
                    kept.push((k, v));
                    assert(pair_views(kept@) =~= before.push(pv[i as int]));
                }
                i = i + 1;
            }
            assert(pair_views(pairs@).take(pairs@.len() as int) =~= pair_views(pairs@));
            if kept.len() == 0 {
                url_strip_query(raw.as_str())
            } else {
                url_replace_query(raw.as_str(), &kept)
            }
        },
        None => owned(input),
    }
}

/// The SHA-256 digest of `data`, as `sha2` computes it.
pub uninterp spec fn sha256_digest(data: Seq<u8>) -> Seq<u8>;

/// `sha2::Sha256::digest`: the digest of `data`, named, and 32 bytes long
/// (its output type is a 32-byte array).
#[verifier::external_body]
fn sha256(data: &[u8]) -> (r: Vec<u8>)
    ensures
        r@ == sha256_digest(data@),
        r@.len() == 32,
{
    sha2::Sha256::digest(data).to_vec()
}

/// The first 16 lowercase hex characters of the SHA-256 of the URL's UTF-8 bytes.
pub open spec fn job_id_spec(apply_url: Seq<char>) -> Seq<char> {
    hex_lower(sha256_digest(vstd::utf8::encode_utf8(apply_url)).take(8))
}

/// A stable 16-hex-char id from the apply URL (sha256), for cross-source dedup.
pub fn job_id(apply_url: &str) -> (r: String)
    ensures
        r@ == job_id_spec(apply_url@),
        r@.len() == 16,
{
    let digest = sha256(apply_url.as_bytes());
    let r = hex_prefix(&digest, 8);
    proof {
        lemma_hex_len(digest@.take(8));
    }
    r
}

proof fn lemma_hex_len(bytes: Seq<u8>)
    ensures
        hex_lower(bytes).len() == 2 * bytes.len(),
    decreases bytes.len(),
{
    if bytes.len() > 0 {
        lemma_hex_len(bytes.drop_last());
    }
}

// ---------------------------------------------------------------------------
// Relative dates
// ---------------------------------------------------------------------------

/// How long ago a relative date says a role was posted.
#[derive(Debug, Clone, Copy)]
pub enum RelativeOffset {
    Hours(i64),
    Days(i64),
    Weeks(i64),
    Months(i64),
    Yesterday,
    Today,
}

/// The offset in seconds (a month counts 30 days).
pub open spec fn offset_seconds(o: RelativeOffset) -> int {
    match o {
        RelativeOffset::Hours(h) => h * 3600,
        RelativeOffset::Days(d) => d * 86400,
        RelativeOffset::Weeks(w) => w * 604800,
        RelativeOffset::Months(m) => m * 30 * 86400,
        RelativeOffset::Yesterday => 86400,
        RelativeOffset::Today => 0,
    }
}

/// The position of the first word that starts with `unit`.
pub open spec fn first_starting(words: Seq<Seq<char>>, unit: Seq<char>) -> Option<int>
    decreases words.len(),
{
    if words.len() == 0 {
        None
    } else {
        match first_starting(words.drop_last(), unit) {
            Some(i) => Some(i),
            None => if starts_with_seq(words.last(), unit) {
                Some(words.len() - 1)
            } else {
                None
            },
        }
    }
}

/// The number before the first word that starts with `unit`, if it parses.
pub open spec fn amount_spec(words: Seq<Seq<char>>, unit: Seq<char>) -> Option<i64> {
    match first_starting(words, unit) {
        Some(i) => if i >= 1 {
            parse_i64_spec(words[i - 1])
        } else {
            None
        },
        None => None,
    }
}

/// The offset a relative date ("2 hours ago", "3 days ago", "yesterday",
/// "today") gives, read from its trimmed lowercase: hours, days, weeks and
/// months in that order of preference, then "yesterday", then "today".
pub open spec fn relative_offset_spec(raw: Seq<char>) -> Option<RelativeOffset> {
    let lower = trim_seq(unicode_lower(raw));
    let words = words_seq(lower);
    if let Some(h) = amount_spec(words, "hour"@) {
        Some(RelativeOffset::Hours(h))
    } else if let Some(d) = amount_spec(words, "day"@) {
        Some(RelativeOffset::Days(d))
    } else if let Some(w) = amount_spec(words, "week"@) {
        Some(RelativeOffset::Weeks(w))
    } else if let Some(m) = amount_spec(words, "month"@) {
        Some(RelativeOffset::Months(m))
    } else if contains_seq(lower, "yesterday"@) {
        Some(RelativeOffset::Yesterday)
    } else if contains_seq(lower, "today"@) {
        Some(RelativeOffset::Today)
    } else {
        None
    }
}

fn amount(words: &Vec<String>, unit: &str) -> (r: Option<i64>)
    ensures
        r == amount_spec(views(words@), unit@),
{
    let u = chars_of(unit);
    let ghost ws = views(words@);
    let mut i: usize = 0;
    while i < words.len()
        invariant
            ws == views(words@),
            u@ == unit@,
            i <= words@.len(),
            first_starting(ws.take(i as int), unit@) is None,
        decreases words.len() - i,
    {
        assert(ws.take(i + 1).drop_last() =~= ws.take(i as int));
        let w = chars_of(words[i].as_str());
        if occurs_at_exec(&w, &u, 0) {
            assert(first_starting(ws.take(i + 1), unit@) == Some(i as int));
            proof {
                lemma_first_starting_prefix(ws, unit@, i as int);
            }
            if i == 0 {
                return None;
            }
            let n = parse_i64(words[i - 1].as_str());
            assert(ws[i - 1] == words@[i - 1]@);
            return n;
        }
        i = i + 1;
    }
    assert(ws.take(words@.len() as int) =~= ws);
    None
}

proof fn lemma_first_starting_prefix(ws: Seq<Seq<char>>, unit: Seq<char>, i: int)
    requires
        0 <= i < ws.len(),
        first_starting(ws.take(i + 1), unit) == Some(i),
    ensures
        first_starting(ws, unit) == Some(i),
    decreases ws.len(),
{
    if ws.len() > i + 1 {
        assert(ws.drop_last().take(i + 1) =~= ws.take(i + 1));
        lemma_first_starting_prefix(ws.drop_last(), unit, i);
    } else {
        assert(ws.take(i + 1) =~= ws);
    }
}

/// Reads the offset of a relative date; `None` when it is not one.
pub fn relative_offset(raw: &str) -> (r: Option<RelativeOffset>)
    ensures
        r == relative_offset_spec(raw@),
{
    let lower = to_lowercase(raw);
    let lower = trim(lower.as_str());
    let words = split_whitespace(lower.as_str());
    if let Some(h) = amount(&words, "hour") {
        Some(RelativeOffset::Hours(h))
    } else if let Some(d) = amount(&words, "day") {
        Some(RelativeOffset::Days(d))
    } else if let Some(w) = amount(&words, "week") {
        Some(RelativeOffset::Weeks(w))
    } else if let Some(m) = amount(&words, "month") {
        Some(RelativeOffset::Months(m))
    } else if contains_str(lower.as_str(), "yesterday") {
        Some(RelativeOffset::Yesterday)
    } else if contains_str(lower.as_str(), "today") {
        Some(RelativeOffset::Today)
    } else {
        None
    }
}

/// What a relative date renders to at the clock reading `now`: the RFC 3339
/// timestamp of its offset before `now`, or the input unchanged when it is not
/// a relative date or that instant is out of the date range.
pub open spec fn relative_date_spec(raw: Seq<char>, now: ClockReading) -> Seq<char> {
    match relative_offset_spec(raw) {
        Some(o) => match rfc3339_before(now, offset_seconds(o)) {
            Some(t) => t,
            None => raw,
        },
        None => raw,
    }
}

/// Converts a relative date to an RFC 3339 timestamp that long before `now`;
/// returns the input unchanged if it can't be parsed or the instant is out of
/// range.
pub fn relative_date_at(raw: &str, now: ClockReading) -> (r: String)
    ensures
        r@ == relative_date_spec(raw@, now),
{
    match relative_offset(raw) {
        Some(o) => {
            let seconds: i128 = match o {
                RelativeOffset::Hours(h) => (h as i128) * 3600,
                RelativeOffset::Days(d) => (d as i128) * 86400,
                RelativeOffset::Weeks(w) => (w as i128) * 604800,
                RelativeOffset::Months(m) => (m as i128) * 2592000,
                RelativeOffset::Yesterday => 86400,
                RelativeOffset::Today => 0,
            };
            match timestamp_before(now, seconds) {
                Some(t) => t,
                None => owned(raw),
            }
        },
        None => owned(raw),
    }
}

/// Converts a relative date ("2 hours ago", "3 days ago", "yesterday", "today")
/// to an RFC 3339 timestamp of that long before now; returns the input
/// unchanged if it can't be parsed or the instant is out of range. The reading
/// depends on the clock: the result is what [`relative_date_at`] gives for some
/// reading.
pub fn parse_relative_date(raw: &str) -> (r: String)
    ensures
        exists|now: ClockReading| is_reading(now) && r@ == relative_date_spec(raw@, now),
{
    let now = read_clock();
    relative_date_at(raw, now)
}

// ---------------------------------------------------------------------------
// Transform: SearchAPI job -> Job
// ---------------------------------------------------------------------------

/// The extracted details of a job, or none.
pub open spec fn extensions(job: SearchApiJob) -> DetectedExtensions {
    match job.detected_extensions {
        Some(e) => e,
        None => DetectedExtensions {
            schedule: None,
            salary: None,
            posted_at: None,
            health_insurance: false,
            dental_insurance: false,
            paid_time_off: false,
        },
    }
}

/// The raw primary apply link: the apply link, else the first of the others.
pub open spec fn primary_source(job: SearchApiJob) -> Option<Seq<char>> {
    match job.apply_link {
        Some(l) => Some(l@),
        None => if job.apply_links@.len() > 0 {
            Some(job.apply_links@[0].link@)
        } else {
            None
        },
    }
}

/// The cleaned primary apply link, or empty.
pub open spec fn primary_link(job: SearchApiJob) -> Seq<char> {
    match primary_source(job) {
        Some(l) => clean_url_spec(l),
        None => Seq::empty(),
    }
}

/// `links` with `l` added when it is not empty and not there yet.
pub open spec fn push_new(links: Seq<Seq<char>>, l: Seq<char>) -> Seq<Seq<char>> {
    if l.len() > 0 && !links.contains(l) {
        links.push(l)
    } else {
        links
    }
}

/// The cleaned links of `ls` added in order to `start`, without empties or repeats.
pub open spec fn gather_links(start: Seq<Seq<char>>, ls: Seq<ApplyLink>) -> Seq<Seq<char>>
    decreases ls.len(),
{
    if ls.len() == 0 {
        start
    } else {
        push_new(gather_links(start, ls.drop_last()), clean_url_spec(ls.last().link@))
    }
}

/// The apply links: the primary first, then the rest, all cleaned and
/// deduplicated.
pub open spec fn apply_links_spec(job: SearchApiJob) -> Seq<Seq<char>> {
    let p = primary_link(job);
    gather_links(
        if p.len() > 0 {
            seq![p]
        } else {
            Seq::empty()
        },
        job.apply_links@,
    )
}

/// Adding cleaned links keeps the list free of empties and repeats, and keeps
/// what it started with in front.
proof fn lemma_gather_links_distinct(start: Seq<Seq<char>>, ls: Seq<ApplyLink>)
    requires
        start.no_duplicates(),
        forall|i: int| 0 <= i < start.len() ==> (#[trigger] start[i]).len() > 0,
    ensures
        gather_links(start, ls).no_duplicates(),
        forall|i: int|
            0 <= i < gather_links(start, ls).len() ==> (#[trigger] gather_links(start, ls)[i]).len()
                > 0,
        gather_links(start, ls).len() >= start.len(),
        gather_links(start, ls).take(start.len() as int) == start,
    decreases ls.len(),
{
    if ls.len() > 0 {
        lemma_gather_links_distinct(start, ls.drop_last());
        let g = gather_links(start, ls.drop_last());
        let l = clean_url_spec(ls.last().link@);
        if l.len() > 0 && !g.contains(l) {
            assert(g.push(l).take(start.len() as int) =~= g.take(start.len() as int));
            assert forall|i: int| 0 <= i < g.push(l).len() implies (#[trigger] g.push(l)[i]).len()
                > 0 by {
                if i < g.len() {
                    assert(g.push(l)[i] == g[i]);
                }
            }
        }
    }
}

/// The apply links of a normalized job are non-empty and distinct, and the
/// primary link, when there is one, comes first.
pub proof fn law_apply_links_are_distinct(job: SearchApiJob)
    ensures
        apply_links_spec(job).no_duplicates(),
        forall|i: int|
            0 <= i < apply_links_spec(job).len() ==> (#[trigger] apply_links_spec(job)[i]).len() > 0,
        primary_link(job).len() > 0 ==> apply_links_spec(job).len() > 0 && apply_links_spec(job)[0]
            == primary_link(job),
{
    let p = primary_link(job);
    let start = if p.len() > 0 {
        seq![p]
    } else {
        Seq::empty()
    };
    lemma_gather_links_distinct(start, job.apply_links@);
    if p.len() > 0 {
        assert(apply_links_spec(job).take(1)[0] == apply_links_spec(job)[0]);
    }
}

/// Every highlight item, highlight by highlight.
pub open spec fn flat_items(hs: Seq<JobHighlight>) -> Seq<Seq<char>>
    decreases hs.len(),
{
    if hs.len() == 0 {
        Seq::empty()
    } else {
        flat_items(hs.drop_last()) + views(hs.last().items@)
    }
}

/// The first item that looks like a relative date.
pub open spec fn first_relative(xs: Seq<Seq<char>>) -> Option<Seq<char>>
    decreases xs.len(),
{
    if xs.len() == 0 {
        None
    } else {
        match first_relative(xs.drop_last()) {
            Some(x) => Some(x),
            None => if is_relative_date_spec(xs.last()) {
                Some(xs.last())
            } else {
                None
            },
        }
    }
}

/// The posting date as given: the extracted one, else the first highlight item
/// that looks like a relative date.
pub open spec fn posted_source(job: SearchApiJob) -> Option<Seq<char>> {
    match extensions(job).posted_at {
        Some(p) => Some(p@),
        None => first_relative(flat_items(job.job_highlights@)),
    }
}

/// The benefits: the benefit highlight, then the insurance and time-off flags.
pub open spec fn benefits_spec(job: SearchApiJob) -> Seq<Seq<char>> {
    let ext = extensions(job);
    highlight_items_spec(job.job_highlights@, seq!["benefit"@]) + (if ext.health_insurance {
        seq!["Health Insurance"@]
    } else {
        Seq::empty()
    }) + (if ext.dental_insurance {
        seq!["Dental Insurance"@]
    } else {
        Seq::empty()
    }) + (if ext.paid_time_off {
        seq!["Paid Time Off"@]
    } else {
        Seq::empty()
    })
}

/// `r` is `job` normalized, with `posted` as the rendered posting date.
pub open spec fn normalized(job: SearchApiJob, posted: Option<Seq<char>>, r: Job) -> bool {
    let ext = extensions(job);
    let hs = job.job_highlights@;
    &&& r.id@ == "googlejobs:"@ + job_id_spec(primary_link(job))
    &&& r.company@ == job.company_name@
    &&& r.title@ == job.title@
    &&& r.url@ == primary_link(job)
    &&& r.function@.len() == 0
    &&& r.sub_function@.len() == 0
    &&& r.level@ == experience_level_spec(job.title@, job.description@)
    &&& r.work_mode@ == match ext.schedule {
        Some(s) => s@,
        None => Seq::empty(),
    }
    &&& r.remote_scope@.len() == 0
    &&& r.country_code@.len() == 0
    &&& r.salary_min_k == UNKNOWN_SALARY_BITS
    &&& r.salary_max_k == UNKNOWN_SALARY_BITS
    &&& r.location@ == job.location@
    &&& r.city@.len() == 0
    &&& r.region@.len() == 0
    &&& r.role_summary@ == summarize_spec(job.description@)
    &&& r.jd_markdown@ == render_markdown_spec(
        job.description@,
        highlight_items_spec(hs, seq!["qualification"@, "requirement"@]),
        highlight_items_spec(hs, seq!["responsibilit"@]),
        benefits_spec(job),
        opt_view(ext.salary),
        opt_view(ext.schedule),
        posted,
        apply_links_spec(job),
    )
}

fn flatten_items(highlights: &Vec<JobHighlight>) -> (r: Vec<String>)
    ensures
        views(r@) == flat_items(highlights@),
{
    let mut r: Vec<String> = Vec::new();
    let mut i: usize = 0;
    while i < highlights.len()
        invariant
            i <= highlights@.len(),
            views(r@) == flat_items(highlights@.take(i as int)),
        decreases highlights.len() - i,
    {
        assert(highlights@.take(i + 1).drop_last() =~= highlights@.take(i as int));
        let items = &highlights[i].items;
        let ghost start = views(r@);
        let mut k: usize = 0;
        while k < items.len()
            invariant
                k <= items@.len(),
                views(r@) == start + views(items@).take(k as int),
            decreases items.len() - k,
        {
            let item = items[k].clone();
            let ghost before = views(r@);
            r.push(item);
            assert(views(r@) =~= before.push(views(items@)[k as int]));
            assert(views(r@) =~= start + views(items@).take(k + 1));
            k = k + 1;
        }
        assert(views(items@).take(items@.len() as int) =~= views(items@));
        i = i + 1;
    }
    assert(highlights@.take(highlights@.len() as int) =~= highlights@);
    r
}

/// The posting date as given in the job, before conversion.
pub fn posted_date_source(job: &SearchApiJob) -> (r: Option<String>)
    ensures
        opt_view(r) == posted_source(*job),
{
    let given = match &job.detected_extensions {
        Some(ext) => ext.posted_at.clone(),
        None => None,
    };
    if given.is_some() {
        return given;
    }
    let items = flatten_items(&job.job_highlights);
    let ghost xs = views(items@);
    assert(posted_source(*job) == first_relative(xs));
    let mut i: usize = 0;
    while i < items.len()
        invariant
            xs == views(items@),
            posted_source(*job) == first_relative(xs),
            i <= items@.len(),
            first_relative(xs.take(i as int)) is None,
        decreases items.len() - i,
    {
        assert(xs.take(i + 1).drop_last() =~= xs.take(i as int));
        if is_relative_date(items[i].as_str()) {
            proof {
                lemma_first_relative_prefix(xs, i as int);
            }
            let found = items[i].clone();
            assert(found@ == xs[i as int]);
            return Some(found);
        }
        i = i + 1;
    }
    assert(xs.take(items@.len() as int) =~= xs);
    None
}

proof fn lemma_first_relative_prefix(xs: Seq<Seq<char>>, i: int)
    requires
        0 <= i < xs.len(),
        first_relative(xs.take(i)) is None,
        is_relative_date_spec(xs[i]),
    ensures
        first_relative(xs) == Some(xs[i]),
    decreases xs.len(),
{
    if xs.len() > i + 1 {
        assert(xs.drop_last().take(i) =~= xs.take(i));
        lemma_first_relative_prefix(xs.drop_last(), i);
    } else {
        assert(xs.drop_last() =~= xs.take(i));
    }
}

fn gather_apply_links(ls: &Vec<ApplyLink>, primary: &String) -> (r: Vec<String>)
    ensures
        views(r@) == gather_links(
            if primary@.len() > 0 {
                seq![primary@]
            } else {
                Seq::empty()
            },
            ls@,
        ),
{
    let mut links: Vec<String> = Vec::new();
    if !primary.as_str().is_empty() {
        links.push(primary.clone());
    }
    let ghost start = views(links@);
    assert(start =~= (if primary@.len() > 0 {
        seq![primary@]
    } else {
        Seq::<Seq<char>>::empty()
    }));
    let mut i: usize = 0;
    while i < ls.len()
        invariant
            i <= ls@.len(),
            views(links@) == gather_links(start, ls@.take(i as int)),
        decreases ls.len() - i,
    {
        assert(ls@.take(i + 1).drop_last() =~= ls@.take(i as int));
        let cleaned = clean_url(ls[i].link.as_str());
        let present = contains_string(&links, cleaned.as_str());
        if !cleaned.as_str().is_empty() && !present {
            let ghost before = views(links@);
            links.push(cleaned);
            assert(views(links@) =~= before.push(clean_url_spec(ls@[i as int].link@)));
        }
        i = i + 1;
    }
    assert(ls@.take(ls@.len() as int) =~= ls@);
    links
}

/// Normalizes one SearchAPI job into a [`Job`], given its rendered posting
/// date. The rich, source-specific detail (highlights, benefits, salary, posted
/// date) is rendered into `jd_markdown`; the structured fields Google Jobs does
/// not provide come back empty, and the salaries unknown.
pub fn normalize_job(job: SearchApiJob, posted: Option<String>) -> (r: Job)
    ensures
        normalized(job, opt_view(posted), r),
{
    let ghost original = job;
    let ext = match job.detected_extensions {
        Some(e) => e,
        None => DetectedExtensions::default(),
    };
    assert(ext == extensions(original));
    let requirement_keys = vec!["qualification", "requirement"];
    let responsibility_keys = vec!["responsibilit"];
    let benefit_keys = vec!["benefit"];
    assert(requirement_keys@.map_values(|p: &str| p@) =~= seq!["qualification"@, "requirement"@]);
    assert(responsibility_keys@.map_values(|p: &str| p@) =~= seq!["responsibilit"@]);
    assert(benefit_keys@.map_values(|p: &str| p@) =~= seq!["benefit"@]);
    let requirements = highlight_items(&job.job_highlights, &requirement_keys);
    let responsibilities = highlight_items(&job.job_highlights, &responsibility_keys);
    let mut benefits = highlight_items(&job.job_highlights, &benefit_keys);
    let ghost b0 = views(benefits@);
    if ext.health_insurance {
        benefits.push(owned("Health Insurance"));
    }
    let ghost b1 = views(benefits@);
    assert(b1 =~= b0 + (if ext.health_insurance {
        seq!["Health Insurance"@]
    } else {
        Seq::<Seq<char>>::empty()
    }));
    if ext.dental_insurance {
        benefits.push(owned("Dental Insurance"));
    }
    let ghost b2 = views(benefits@);
    assert(b2 =~= b1 + (if ext.dental_insurance {
        seq!["Dental Insurance"@]
    } else {
        Seq::<Seq<char>>::empty()
    }));
    if ext.paid_time_off {
        benefits.push(owned("Paid Time Off"));
    }
    assert(views(benefits@) =~= b2 + (if ext.paid_time_off {
        seq!["Paid Time Off"@]
    } else {
        Seq::<Seq<char>>::empty()
    }));
    let primary = match &job.apply_link {
        Some(l) => clean_url(l.as_str()),
        None => if job.apply_links.len() > 0 {
            clean_url(job.apply_links[0].link.as_str())
        } else {
            String::new()
        },
    };
    assert(primary@ == primary_link(original));
    let apply_links = gather_apply_links(&job.apply_links, &primary);
    let level = experience_level(job.title.as_str(), job.description.as_str());
    let jd_markdown = render_markdown(
        job.description.as_str(),
        &requirements,
        &responsibilities,
        &benefits,
        &ext.salary,
        &ext.schedule,
        &posted,
        &apply_links,
    );
    let mut id = owned("googlejobs:");
    let digest = job_id(primary.as_str());
    append(&mut id, digest.as_str());
    let work_mode = match &ext.schedule {
        Some(s) => s.clone(),
        None => String::new(),
    };
    let role_summary = summarize(job.description.as_str());
    Job {
        id,
        company: job.company_name,
        title: job.title,
        url: primary,
        function: String::new(),
        sub_function: String::new(),
        level,
        work_mode,
        remote_scope: String::new(),
        country_code: String::new(),
        salary_min_k: UNKNOWN_SALARY_BITS,
        salary_max_k: UNKNOWN_SALARY_BITS,
        location: job.location,
        city: String::new(),
        region: String::new(),
        role_summary,
        jd_markdown,
    }
}

/// The posting date of `job` as it renders at the clock reading `now`.
pub open spec fn posted_at(job: SearchApiJob, now: ClockReading) -> Option<Seq<char>> {
    match posted_source(job) {
        Some(raw) => Some(relative_date_spec(raw, now)),
        None => None,
    }
}

/// Normalizes one SearchAPI job into a [`Job`] at the clock reading `now`,
/// which a relative posting date is converted against.
pub fn transform_at(job: SearchApiJob, now: ClockReading) -> (r: Job)
    ensures
        normalized(job, posted_at(job, now), r),
{
    let posted = match posted_date_source(&job) {
        Some(raw) => Some(relative_date_at(raw.as_str(), now)),
        None => None,
    };
    normalize_job(job, posted)
}

/// `r` is `job` normalized at some reading of the clock.
pub open spec fn transformed(job: SearchApiJob, r: Job) -> bool {
    exists|now: ClockReading| is_reading(now) && normalized(job, posted_at(job, now), r)
}

/// Normalizes one SearchAPI job into a [`Job`], converting a relative posting
/// date against the current time.
pub fn transform(job: SearchApiJob) -> (r: Job)
    ensures
        transformed(job, r),
{
    let now = read_clock();
    transform_at(job, now)
}

// ---------------------------------------------------------------------------
// The client and its pagination
// ---------------------------------------------------------------------------

/// `s` without its trailing slashes (`str::trim_end_matches('/')`).
pub open spec fn strip_trailing_slashes(s: Seq<char>) -> Seq<char>
    decreases s.len(),
{
    if s.len() > 0 && s.last() == '/' {
        strip_trailing_slashes(s.drop_last())
    } else {
        s
    }
}

/// The endpoint a client uses: the public one for a blank URL, else the URL
/// without trailing slashes.
pub open spec fn endpoint_spec(base_url: Seq<char>) -> Seq<char> {
    if trim_seq(base_url).len() == 0 {
        DEFAULT_BASE_URL@
    } else {
        strip_trailing_slashes(base_url)
    }
}

fn strip_slashes(s: &str) -> (r: String)
    ensures
        r@ == strip_trailing_slashes(s@),
{
    let cs = chars_of(s);
    let mut j = cs.len();
    assert(cs@.subrange(0, j as int) =~= cs@);
    while j > 0 && cs[j - 1] == '/'
        invariant
            j <= cs@.len(),
            cs@ == s@,
            strip_trailing_slashes(s@) == strip_trailing_slashes(cs@.subrange(0, j as int)),
        decreases j,
    {
        assert(cs@.subrange(0, j as int).drop_last() =~= cs@.subrange(0, j - 1));
        j = j - 1;
    }
    string_of(&cs, 0, j)
}

/// A Google Jobs search client: the key, the endpoint and the cap on pages
/// fetched for one search.
#[derive(Debug)]
pub struct SearchApiClient {
    api_key: String,
    base_url: String,
    max_requests_per_search: usize,
}

impl SearchApiClient {
    /// The API key.
    pub closed spec fn key(&self) -> Seq<char> {
        self.api_key@
    }

    /// The endpoint.
    pub closed spec fn endpoint(&self) -> Seq<char> {
        self.base_url@
    }

    /// The cap on pages fetched for one (non-continuation) search.
    pub closed spec fn request_cap(&self) -> usize {
        self.max_requests_per_search
    }

    /// Builds a client. An empty `base_url` falls back to the public SearchAPI
    /// endpoint, and the page cap is at least one.
    pub fn new(api_key: String, base_url: String, max_requests_per_search: usize) -> (c: Self)
        ensures
            c.key() == api_key@,
            c.endpoint() == endpoint_spec(base_url@),
            c.request_cap() == if max_requests_per_search < 1 {
                1
            } else {
                max_requests_per_search
            },
    {
        let endpoint = if crate::text::is_blank(base_url.as_str()) {
            owned(DEFAULT_BASE_URL)
        } else {
            strip_slashes(base_url.as_str())
        };
        let cap = if max_requests_per_search < 1 {
            1
        } else {
            max_requests_per_search
        };
        SearchApiClient { api_key, base_url: endpoint, max_requests_per_search: cap }
    }

    /// The endpoint searched.
    pub fn base_url(&self) -> (r: &str)
        ensures
            r@ == self.endpoint(),
    {
        self.base_url.as_str()
    }

    /// The query string of one page request.
    pub fn page_query(&self, params: &SearchApiParams, page_token: &Option<String>) -> (r: Vec<
        (String, String),
    >)
        ensures
            pair_views(r@) == seq![
                ("engine"@, "google_jobs"@),
                ("q"@, build_query_spec(*params)),
                ("api_key"@, self.key()),
                ("google_domain"@, "google.com"@),
                ("gl"@, "us"@),
                ("hl"@, "en"@),
            ] + match page_token {
                Some(t) => seq![("next_page_token"@, t@)],
                None => Seq::empty(),
            },
    {
        let mut r: Vec<(String, String)> = Vec::new();
        r.push((owned("engine"), owned("google_jobs")));
        r.push((owned("q"), build_query(params)));
        r.push((owned("api_key"), self.api_key.clone()));
        r.push((owned("google_domain"), owned("google.com")));
        r.push((owned("gl"), owned("us")));
        r.push((owned("hl"), owned("en")));
        let ghost six = pair_views(r@);
        match page_token {
            Some(t) => {
                r.push((owned("next_page_token"), t.clone()));
            },
            None => {},
        }
        assert(pair_views(r@) =~= seq![
            ("engine"@, "google_jobs"@),
            ("q"@, build_query_spec(*params)),
            ("api_key"@, self.key()),
            ("google_domain"@, "google.com"@),
            ("gl"@, "us"@),
            ("hl"@, "en"@),
        ] + match page_token {
            Some(t) => seq![("next_page_token"@, t@)],
            None => Seq::empty(),
        });
        r
    }

    /// Starts a search: a continuation token fetches exactly one page; otherwise
    /// pages are fetched until `page_size` results (at least one page's worth)
    /// are gathered, up to the client's page cap.
    pub fn start_search(&self, params: &SearchApiParams) -> (f: PageFetcher)
        ensures
            f.wf(),
            f.pages_fetched() == 0,
            !f.is_done(),
            f.gathered().len() == 0,
            f.token() == opt_view(params.page_token),
            f.is_continuation() == (params.page_token is Some),
            f.target() == if params.page_size < RESULTS_PER_PAGE {
                RESULTS_PER_PAGE
            } else {
                params.page_size
            },
            f.page_limit() == if params.page_token is Some {
                1
            } else {
                pages_for(f.target(), self.request_cap())
            },
    {
        let want = if params.page_size < RESULTS_PER_PAGE {
            RESULTS_PER_PAGE
        } else {
            params.page_size
        };
        let pages_needed = want / RESULTS_PER_PAGE + if want % RESULTS_PER_PAGE == 0 {
            0
        } else {
            1
        };
        let max_pages = if params.page_token.is_some() {
            1
        } else if pages_needed < self.max_requests_per_search {
            pages_needed
        } else {
            self.max_requests_per_search
        };
        PageFetcher {
            want,
            max_pages,
            fetched: 0,
            jobs: Vec::new(),
            next_token: params.page_token.clone(),
            done: false,
            continuation: params.page_token.is_some(),
        }
    }
}

/// The pages a search for `want` results fetches at most: enough 10-result
/// pages for `want`, capped at `cap`.
pub open spec fn pages_for(want: usize, cap: usize) -> usize {
    let needed = (want / 10 + if want % 10 == 0 {
        0usize
    } else {
        1usize
    }) as usize;
    if needed < cap {
        needed
    } else {
        cap
    }
}

/// A search fetches at least one page and never more than the client's cap;
/// below the cap, the pages fetched hold at least the results wanted.
pub proof fn law_page_limit_within_cap(want: usize, cap: usize)
    requires
        want >= 1,
        cap >= 1,
    ensures
        1 <= pages_for(want, cap) <= cap,
        pages_for(want, cap) < cap ==> pages_for(want, cap) * 10 >= want,
{
}

/// What to do next in a paginated search.
#[derive(Debug)]
pub enum PageRequest {
    /// Fetch a page, continuing from the token when there is one.
    Fetch(Option<String>),
    /// Stop: the search is complete.
    Done,
}

/// The pagination state of one search: how many pages were fetched, the jobs
/// gathered so far and where the next page starts.
#[derive(Debug)]
pub struct PageFetcher {
    want: usize,
    max_pages: usize,
    fetched: usize,
    jobs: Vec<Job>,
    next_token: Option<String>,
    done: bool,
    continuation: bool,
}

impl PageFetcher {
    /// The state is consistent: never more pages than the limit.
    pub closed spec fn wf(&self) -> bool {
        self.fetched <= self.max_pages
    }

    /// Pages fetched so far.
    pub closed spec fn pages_fetched(&self) -> usize {
        self.fetched
    }

    /// The most pages this search fetches.
    pub closed spec fn page_limit(&self) -> usize {
        self.max_pages
    }

    /// The number of results wanted.
    pub closed spec fn target(&self) -> usize {
        self.want
    }

    /// The search has stopped.
    pub closed spec fn is_done(&self) -> bool {
        self.done
    }

    /// The search continues a prior one from a token.
    pub closed spec fn is_continuation(&self) -> bool {
        self.continuation
    }

    /// The jobs gathered so far, in page order.
    pub closed spec fn gathered(&self) -> Seq<Job> {
        self.jobs@
    }

    /// Where the next page starts.
    pub closed spec fn token(&self) -> Option<Seq<char>> {
        opt_view(self.next_token)
    }

    /// The next step: fetch a page from the current token, unless the search
    /// has stopped or fetched as many pages as it may.
    pub fn next_request(&self) -> (r: PageRequest)
        requires
            self.wf(),
        ensures
            r is Done <==> (self.is_done() || self.pages_fetched() == self.page_limit()),
            r matches PageRequest::Fetch(t) ==> opt_view(t) == self.token(),
    {
        if self.done || self.fetched >= self.max_pages {
            PageRequest::Done
        } else {
            let t = match &self.next_token {
                Some(t) => Some(t.clone()),
                None => None,
            };
            PageRequest::Fetch(t)
        }
    }

    /// Records a fetched page. The search stops when there is no next page, a
    /// short page signals the end, or enough results are in hand.
    pub fn page_fetched(&mut self, page: Vec<Job>, next: Option<String>)
        requires
            old(self).wf(),
            !old(self).is_done(),
            old(self).pages_fetched() < old(self).page_limit(),
        ensures
            final(self).wf(),
            final(self).pages_fetched() == old(self).pages_fetched() + 1,
            final(self).page_limit() == old(self).page_limit(),
            final(self).target() == old(self).target(),
            final(self).is_continuation() == old(self).is_continuation(),
            final(self).gathered() == old(self).gathered() + page@,
            final(self).token() == opt_view(next),
            final(self).is_done() == (next is None || page@.len() < RESULTS_PER_PAGE
                || final(self).gathered().len() >= old(self).target()),
    {
        let count = page.len();
        let mut page = page;
        self.jobs.append(&mut page);
        self.next_token = next;
        self.fetched = self.fetched + 1;
        if self.next_token.is_none() || count < RESULTS_PER_PAGE || self.jobs.len() >= self.want {
            self.done = true;
        }
    }

    /// Records a failed page request and stops the search. Returns whether the
    /// failure is the search's result: it is when no job has been gathered yet;
    /// otherwise the partial results stand.
    pub fn page_failed(&mut self) -> (surface: bool)
        requires
            old(self).wf(),
        ensures
            final(self).wf(),
            surface == (old(self).gathered().len() == 0),
            final(self).is_done(),
            final(self).gathered() == old(self).gathered(),
            final(self).token() == old(self).token(),
            final(self).pages_fetched() == old(self).pages_fetched(),
            final(self).page_limit() == old(self).page_limit(),
            final(self).is_continuation() == old(self).is_continuation(),
    {
        self.done = true;
        self.jobs.len() == 0
    }

    /// The 1-based number of the page being fetched.
    pub fn page_number(&self) -> (r: usize)
        requires
            self.wf(),
            self.pages_fetched() < self.page_limit(),
        ensures
            r == self.pages_fetched() + 1,
    {
        self.fetched + 1
    }

    /// Whether the search continues a prior one from a token.
    pub fn continuation(&self) -> (r: bool)
        ensures
            r == self.is_continuation(),
    {
        self.continuation
    }

    /// The gathered jobs and where the next page would start.
    pub fn finish(self) -> (r: (Vec<Job>, Option<String>))
        ensures
            r.0@ == self.gathered(),
            opt_view(r.1) == self.token(),
    {
        (self.jobs, self.next_token)
    }
}

/// One page's jobs, normalized, and the token of the page after it.
pub fn page_result(response: SearchApiResponse) -> (r: (Vec<Job>, Option<String>))
    ensures
        r.0@.len() == response.jobs@.len(),
        forall|i: int|
            0 <= i < response.jobs@.len() ==> transformed(response.jobs@[i], #[trigger] r.0@[i]),
        opt_view(r.1) == match response.pagination {
            Some(p) => opt_view(p.next_page_token),
            None => None,
        },
{
    let ghost input = response.jobs@;
    let mut source = response.jobs;
    let mut jobs: Vec<Job> = Vec::new();
    let n = source.len();
    assert(input.skip(0) =~= input);
    while source.len() > 0
        invariant
            n == input.len(),
            source@ == input.skip(jobs@.len() as int),
            jobs@.len() + source@.len() == n,
            forall|i: int| 0 <= i < jobs@.len() ==> transformed(input[i], #[trigger] jobs@[i]),
        decreases source.len(),
    {
        let k = jobs.len();
        let job = source.remove(0);
        assert(job == input[k as int]);
        let normalized_job = transform(job);
        let ghost before = jobs@;
        jobs.push(normalized_job);
        assert(forall|i: int| 0 <= i < before.len() ==> jobs@[i] == before[i]);
        assert(transformed(input[k as int], jobs@[k as int]));
        assert(source@ =~= input.skip(jobs@.len() as int));
    }
    let next = match response.pagination {
        Some(p) => p.next_page_token,
        None => None,
    };
    (jobs, next)
}

} // verus!
