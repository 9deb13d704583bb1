use joblode::dto::{
    FeedbackItem, RankParams, SearchParams, SemanticParams, DEFAULT_LIMIT,
    MAX_LIMIT,
};
use joblode::clock::ClockReading;
use joblode::job::Job;
use joblode::ranking::{
    candidate_source, candidates_from_ids, embedding_ids, feedback_signals, parse_method, plan_rank, text_less,
    unique_ids, CandidateSource, Method, RankError, RANK_MAX_CANDIDATES,
};
use joblode::search::{filter_results, plan_semantic, search_mode, semantic_hits};
use joblode::version;

#[test]
fn effective_limit_defaults_then_clamps() {
    let mut params = SearchParams::default();
    assert_eq!(params.effective_limit(), DEFAULT_LIMIT);

    params.limit = Some(10);
    assert_eq!(params.effective_limit(), 10);

    params.limit = Some(MAX_LIMIT * 100);
    assert_eq!(params.effective_limit(), MAX_LIMIT);
}

#[test]
fn the_version_is_the_package_version() {
    assert_eq!(version(), "0.1.0");
}

#[test]
fn semantic_query_is_trimmed_and_blank_is_none() {
    let mut p = SearchParams::default();
    assert_eq!(p.semantic_query(), None);
    p.query = Some("   ".into());
    assert_eq!(p.semantic_query(), None);
    p.query = Some("  rust backend ".into());
    assert_eq!(p.semantic_query(), Some("rust backend"));
}

#[test]
fn criteria_projects_the_filters() {
    let p = SearchParams {
        cities: vec!["sf".into()],
        country: Some("US".into()),
        min_comp: Some(120.0f64.to_bits()),
        limit: Some(3),
        ..Default::default()
    };
    let c = p.criteria().unwrap();
    assert_eq!(c.cities, vec!["sf".to_string()]);
    assert_eq!(c.country.as_deref(), Some("US"));
    assert_eq!(c.min_comp, Some(120.0f64.to_bits()));
    assert!(c.posted_after.is_none());
    let windowed = SearchParams { posted_within_days: Some(14), ..Default::default() };
    assert!(windowed.criteria().unwrap().posted_after.unwrap().contains('T'));
    let fixed = p.criteria_with_threshold(Some("2024-01-01".into()));
    assert_eq!(fixed.posted_after.as_deref(), Some("2024-01-01"));
}

#[test]
fn criteria_at_a_clock_reading_resolves_the_window() {
    // 2024-01-15T00:00:00Z.
    let now = ClockReading { secs: 1_705_276_800, nanos: 0 };
    let windowed = SearchParams { posted_within_days: Some(14), ..Default::default() };
    let c = windowed.criteria_at(now).unwrap();
    assert_eq!(c.posted_after.as_deref(), Some("2024-01-01T00:00:00+00:00"));
    assert!(SearchParams::default().criteria_at(now).unwrap().posted_after.is_none());
    // The window's start is before chrono's earliest date.
    let early = ClockReading { secs: -8_334_600_883_200, nanos: 0 };
    assert!(windowed.criteria_at(early).is_none());
}

fn item(id: &str, label: &str) -> FeedbackItem {
    FeedbackItem { id: id.into(), label: label.into() }
}

#[test]
fn feedback_polarity() {
    assert_eq!(item("a", " Liked ").polarity(), Some(true));
    assert_eq!(item("a", "shortlisted").polarity(), Some(true));
    assert_eq!(item("a", "HIDDEN").polarity(), Some(false));
    assert_eq!(item("a", "dislike").polarity(), Some(false));
    assert_eq!(item("a", "meh").polarity(), None);
}

fn rank_params(method: Option<&str>, resume: Option<&str>) -> RankParams {
    RankParams {
        filter: SearchParams::default(),
        ids: vec![],
        resume: resume.map(str::to_string),
        feedback: vec![],
        method: method.map(str::to_string),
        top: None,
    }
}

fn bad_request(r: Result<impl std::fmt::Debug, RankError>) -> String {
    match r {
        Err(RankError::BadRequest(m)) => m,
        other => panic!("expected a bad request, got {other:?}"),
    }
}

#[test]
fn methods_parse_case_insensitively() {
    assert!(matches!(parse_method(None), Ok(Method::Free)));
    assert!(matches!(parse_method(Some("  ")), Ok(Method::Free)));
    assert!(matches!(parse_method(Some("FREE")), Ok(Method::Free)));
    assert!(matches!(parse_method(Some(" Match ")), Ok(Method::Match)));
    assert!(matches!(parse_method(Some("pairwise")), Ok(Method::Pairwise)));
    assert_eq!(
        bad_request(parse_method(Some(" Best "))),
        "unknown rank method 'best' (use 'match', 'pairwise', or omit)"
    );
}

#[test]
fn model_methods_need_a_model_and_a_resume() {
    assert_eq!(
        bad_request(plan_rank(&rank_params(Some("match"), Some("cv")), false)),
        "ranking method 'match' requires a configured model; none is set"
    );
    assert_eq!(
        bad_request(plan_rank(&rank_params(Some("pairwise"), Some("  ")), true)),
        "ranking method 'pairwise' requires a resume"
    );
    let plan = plan_rank(&rank_params(Some("pairwise"), Some("cv")), true).unwrap();
    assert_eq!(plan.method, Method::Pairwise);
    assert_eq!(plan.refine_k, 8);
    assert!(plan.need_metadata);
    let mut free = rank_params(None, None);
    free.filter.limit = Some(1_000_000);
    free.top = Some(100);
    let plan = plan_rank(&free, false).unwrap();
    assert_eq!(plan.method, Method::Free);
    assert_eq!(plan.top, 100);
    assert_eq!(plan.refine_k, 20);
    assert_eq!(plan.candidate_limit, RANK_MAX_CANDIDATES);
    assert!(!plan.need_metadata);
    let plan = plan_rank(&rank_params(None, None), false).unwrap();
    assert_eq!(plan.top, 25);
    assert_eq!(plan.candidate_limit, 1000);
}

#[test]
fn candidate_and_embedding_ids() {
    let ids: Vec<String> = ["b", "a", "b", "c", "a"].iter().map(|s| s.to_string()).collect();
    assert_eq!(unique_ids(&ids), vec!["b", "a", "c"]);
    let candidates = candidates_from_ids(&unique_ids(&ids));
    let feedback = vec![item("z", "liked"), item("a", "disliked"), item("y", "meh")];
    assert_eq!(embedding_ids(&candidates, &feedback), vec!["a", "b", "c", "y", "z"]);
    assert!(text_less("Zeta", "alpha"));
    assert!(text_less("ab", "abc"));
    assert!(!text_less("abc", "abc"));
    assert!(text_less("é", "ü"));
}

#[test]
fn candidates_come_from_the_filters_or_the_deduplicated_ids() {
    let none: Vec<String> = vec![];
    assert!(matches!(candidate_source(&none, true), CandidateSource::FilteredJobs));
    assert!(matches!(candidate_source(&none, false), CandidateSource::FilteredIds));
    let ids: Vec<String> = ["b", "a", "b"].iter().map(|s| s.to_string()).collect();
    assert!(matches!(candidate_source(&ids, true), CandidateSource::JobsOf(v) if v == vec!["b", "a"]));
    assert!(matches!(candidate_source(&ids, false), CandidateSource::Ids(v) if v == vec!["b", "a"]));
}

#[test]
fn feedback_splits_by_polarity_among_known_ids() {
    let known = vec!["a".to_string(), "b".to_string(), "c".to_string()];
    let feedback = vec![
        item("a", "liked"),
        item("x", "liked"),
        item("b", "rejected"),
        item("c", "unsure"),
        item("a", "saved"),
    ];
    let (pos, neg) = feedback_signals(&feedback, &known);
    assert_eq!(pos, vec!["a", "a"]);
    assert_eq!(neg, vec!["b"]);
}

#[test]
fn search_mode_needs_an_embedder_only_for_a_query() {
    let mut p = SearchParams::default();
    assert!(matches!(search_mode(&p, false), Ok(None)));
    p.query = Some(" taste ".into());
    assert!(matches!(search_mode(&p, true), Ok(Some("taste"))));
    assert_eq!(
        bad_request(search_mode(&p, false)),
        "a semantic query requires a configured embeddings model; none is set"
    );
}

#[test]
fn semantic_plans_check_the_query_first() {
    let params = |q: &str, limit: Option<usize>| SemanticParams {
        query: q.into(),
        filter: SearchParams { limit, ..Default::default() },
    };
    assert_eq!(
        bad_request(plan_semantic(&params("  ", None), false)),
        "semantic search requires a non-empty query"
    );
    assert_eq!(
        bad_request(plan_semantic(&params("x", None), false)),
        "semantic search requires a configured embeddings model; none is set"
    );
    let plan = plan_semantic(&params(" data ", None), true).unwrap();
    assert_eq!(plan.query, "data");
    assert_eq!(plan.limit, 25);
    assert_eq!(plan_semantic(&params("d", Some(9999)), true).unwrap().limit, MAX_LIMIT);
}

fn sample_job(id: &str) -> Job {
    Job {
        id: id.into(),
        company: "Acme".into(),
        title: "Engineer".into(),
        url: "https://acme/".into(),
        function: "engineering".into(),
        sub_function: String::new(),
        level: "Staff".into(),
        work_mode: String::new(),
        remote_scope: "us-only".into(),
        country_code: "US".into(),
        salary_min_k: 100.0f64.to_bits(),
        salary_max_k: (-1.0f64).to_bits(),
        location: "Remote".into(),
        city: String::new(),
        region: String::new(),
        role_summary: "Builds".into(),
        jd_markdown: "# Engineer".into(),
    }
}

#[test]
fn results_carry_summaries_and_scores() {
    let r = filter_results(&vec![sample_job("a"), sample_job("b")], 7);
    assert_eq!(r.total, 7);
    assert_eq!(r.results.len(), 2);
    assert_eq!(r.results[1].summary.id, "b");
    assert_eq!(r.results[0].summary.remote_scope, "us-only");
    assert_eq!(f64::from_bits(r.results[0].summary.salary_max_k), -1.0);
    assert!(r.results[0].score.is_none());
    let hits = semantic_hits(&vec![(sample_job("c"), 0.5f32.to_bits())]);
    assert_eq!(f32::from_bits(hits.results[0].score), 0.5);
    assert_eq!(hits.results[0].summary.url, "https://acme/");
}
