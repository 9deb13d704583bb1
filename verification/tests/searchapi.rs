use joblode::clock::ClockReading;
use joblode::job::UNKNOWN_SALARY_BITS;
use joblode::searchapi::{
    build_query, clean_url, experience_level, is_relative_date, job_id, normalize_job,
    page_result, parse_relative_date, relative_date_at, relative_offset, render_markdown, summarize, transform,
    ApplyLink, DetectedExtensions, JobHighlight, PageRequest, Pagination, PostTimeFilter,
    RelativeOffset, SearchApiClient, SearchApiJob, SearchApiParams, SearchApiResponse,
    DEFAULT_BASE_URL,
};

#[test]
fn build_query_appends_location_company_and_recency() {
    let params = SearchApiParams {
        query: "backend engineer".into(),
        location: Some("San Francisco".into()),
        company: Some("Acme".into()),
        post_time_filter: Some(PostTimeFilter::Past3Days),
        ..Default::default()
    };
    assert_eq!(
        build_query(&params),
        "backend engineer in San Francisco at Acme since the past 3 days"
    );
}

#[test]
fn build_query_defaults_recency_to_past_week() {
    let params = SearchApiParams {
        query: "data engineer".into(),
        ..Default::default()
    };
    assert_eq!(build_query(&params), "data engineer posted in the past week");
}

#[test]
fn build_query_skips_empty_location_and_company() {
    let params = SearchApiParams {
        query: "rust".into(),
        location: Some(String::new()),
        company: Some(String::new()),
        post_time_filter: Some(PostTimeFilter::Yesterday),
        ..Default::default()
    };
    assert_eq!(build_query(&params), "rust since yesterday");
    let params = SearchApiParams {
        query: "rust".into(),
        post_time_filter: Some(PostTimeFilter::PastWeek),
        ..Default::default()
    };
    assert_eq!(build_query(&params), "rust since the past week");
}

#[test]
fn clean_url_strips_utm_params_only() {
    assert_eq!(
        clean_url("https://x.com/job?utm_source=google&id=42&utm_medium=cpc"),
        "https://x.com/job?id=42"
    );
    assert_eq!(clean_url("https://x.com/job"), "https://x.com/job");
    assert_eq!(clean_url("not a url"), "not a url");
}

#[test]
fn clean_url_trims_and_drops_an_all_utm_query() {
    assert_eq!(clean_url("   "), "");
    assert_eq!(clean_url("  https://x.com/a?utm_campaign=z  "), "https://x.com/a");
    assert_eq!(clean_url(" not a url "), " not a url ");
}

#[test]
fn job_id_is_stable_and_short() {
    let a = job_id("https://x.com/apply");
    assert_eq!(a.len(), 16);
    assert_eq!(a, job_id("https://x.com/apply"));
    assert_ne!(a, job_id("https://x.com/other"));
}

#[test]
fn job_id_is_the_sha256_prefix() {
    // sha256("") = e3b0c44298fc1c149afbf4c8996fb924...
    assert_eq!(job_id(""), "e3b0c44298fc1c14");
    // sha256("abc") = ba7816bf8f01cfea414140de5dae2223...
    assert_eq!(job_id("abc"), "ba7816bf8f01cfea");
}

#[test]
fn experience_level_from_keywords() {
    assert_eq!(experience_level("Senior Backend Engineer", ""), "Senior");
    assert_eq!(experience_level("Software Intern", ""), "Entry");
    assert_eq!(experience_level("Mid-level Designer", ""), "Mid");
    assert_eq!(experience_level("Software Engineer", "build things"), "");
}

#[test]
fn experience_level_reads_the_description_and_prefers_senior() {
    assert_eq!(experience_level("Engineer", "You will LEAD the team"), "Senior");
    assert_eq!(experience_level("Junior Manager", ""), "Senior");
    assert_eq!(experience_level("Engineer", "an intermediate role"), "Mid");
}

#[test]
fn relative_dates_are_recognized_by_keyword() {
    assert!(is_relative_date("3 days ago"));
    assert!(is_relative_date("2 HOURS"));
    assert!(is_relative_date("Posted last month"));
    assert!(!is_relative_date("Full-time"));
}

#[test]
fn relative_offsets_read_the_number_before_the_unit() {
    assert!(matches!(relative_offset("2 hours ago"), Some(RelativeOffset::Hours(2))));
    assert!(matches!(relative_offset(" 3 Days ago "), Some(RelativeOffset::Days(3))));
    assert!(matches!(relative_offset("1 week ago"), Some(RelativeOffset::Weeks(1))));
    assert!(matches!(relative_offset("4 months ago"), Some(RelativeOffset::Months(4))));
    assert!(matches!(relative_offset("yesterday"), Some(RelativeOffset::Yesterday)));
    assert!(matches!(relative_offset("Today"), Some(RelativeOffset::Today)));
    assert!(relative_offset("hours ago").is_none());
    assert!(relative_offset("an hour ago").is_none());
    assert!(relative_offset("2024-05-01").is_none());
}

#[test]
fn parse_relative_date_keeps_unrecognized_text() {
    assert_eq!(parse_relative_date("2024-05-01"), "2024-05-01");
    let stamp = parse_relative_date("2 days ago");
    assert!(stamp.contains('T'));
    assert_ne!(stamp, "2 days ago");
}

#[test]
fn relative_dates_resolve_against_a_clock_reading() {
    // 2024-01-15T12:00:00Z.
    let now = ClockReading { secs: 1_705_320_000, nanos: 0 };
    assert_eq!(relative_date_at("2 hours ago", now), "2024-01-15T10:00:00+00:00");
    assert_eq!(relative_date_at("3 days ago", now), "2024-01-12T12:00:00+00:00");
    assert_eq!(relative_date_at("1 week ago", now), "2024-01-08T12:00:00+00:00");
    assert_eq!(relative_date_at("2 months ago", now), "2023-11-16T12:00:00+00:00");
    assert_eq!(relative_date_at("yesterday", now), "2024-01-14T12:00:00+00:00");
    assert_eq!(relative_date_at("Today", now), "2024-01-15T12:00:00+00:00");
    assert_eq!(relative_date_at("Full-time", now), "Full-time");
    // Out of range: the text comes back unchanged, without a panic.
    let far = "9223372036854775807 hours ago";
    assert_eq!(relative_date_at(far, now), far);
    assert_eq!(parse_relative_date(far), far);
}

#[test]
fn summarize_takes_the_first_sentence_and_caps_it() {
    assert_eq!(summarize("Own the API. Build resilient services."), "Own the API");
    assert_eq!(summarize("\n . \n  Lead the team\nMore"), "Lead the team");
    assert_eq!(summarize(""), "");
    let long = "x".repeat(200);
    let s = summarize(&long);
    assert_eq!(s.chars().count(), 160);
    assert!(s.ends_with('…'));
    let exact = "y".repeat(160);
    assert_eq!(summarize(&exact), exact);
}

#[test]
fn render_markdown_lays_out_meta_sections_and_links() {
    let out = render_markdown(
        "  Build things.  ",
        &vec!["Rust".to_string()],
        &vec!["Ship".to_string(), "Review".to_string()],
        &vec![],
        &Some("$1".to_string()),
        &None,
        &Some("today".to_string()),
        &vec!["https://a".to_string(), "https://b".to_string()],
    );
    assert_eq!(
        out,
        "**Salary:** $1 · **Posted:** today\n\nBuild things.\n\n## Responsibilities\n- Ship\n- Review\n\n\n## Requirements\n- Rust\n\n\n## Apply\n- https://a\n- https://b\n"
    );
    let bare = render_markdown("d", &vec![], &vec![], &vec![], &None, &None, &None, &vec!["https://a".to_string()]);
    assert_eq!(bare, "d");
}

fn fixture_job() -> SearchApiJob {
    SearchApiJob {
        title: "Senior Backend Engineer".into(),
        company_name: "Acme".into(),
        location: "San Francisco, CA".into(),
        description: "Own the API. Build resilient services.".into(),
        job_highlights: vec![
            JobHighlight {
                title: "Qualifications".into(),
                items: vec!["5+ years Rust".into()],
            },
            JobHighlight {
                title: "Responsibilities".into(),
                items: vec!["Design systems".into()],
            },
        ],
        detected_extensions: Some(DetectedExtensions {
            salary: Some("$180K–$220K a year".into()),
            schedule: Some("Full-time".into()),
            ..Default::default()
        }),
        apply_link: Some("https://acme.com/apply?utm_source=google".into()),
        apply_links: vec![],
    }
}

#[test]
fn transform_maps_a_searchapi_job_to_a_normalized_job() {
    let job = transform(fixture_job());

    assert!(job.id.starts_with("googlejobs:"));
    assert_eq!(job.company, "Acme");
    assert_eq!(job.title, "Senior Backend Engineer");
    assert_eq!(job.url, "https://acme.com/apply"); // utm stripped
    assert_eq!(job.level, "Senior");
    assert_eq!(f64::from_bits(job.salary_min_k), -1.0); // fuzzy salary stays unknown
    assert!(job.jd_markdown.contains("$180K–$220K")); // but is in the JD
    assert!(job.jd_markdown.contains("5+ years Rust"));
    assert_eq!(job.role_summary, "Own the API");
}

#[test]
fn normalize_job_collects_links_benefits_and_posted_date() {
    let mut raw = fixture_job();
    raw.apply_link = None;
    raw.apply_links = vec![
        ApplyLink { link: "https://a.com/x?utm_medium=cpc".into() },
        ApplyLink { link: "https://a.com/x".into() },
        ApplyLink { link: "  ".into() },
        ApplyLink { link: "https://b.com/y".into() },
    ];
    raw.detected_extensions = Some(DetectedExtensions {
        health_insurance: true,
        paid_time_off: true,
        ..Default::default()
    });
    let job = normalize_job(raw, Some("2024-01-02".into()));
    assert_eq!(job.url, "https://a.com/x");
    assert_eq!(job.id, format!("googlejobs:{}", job_id("https://a.com/x")));
    assert_eq!(job.work_mode, "");
    assert_eq!(job.salary_max_k, UNKNOWN_SALARY_BITS);
    assert!(job.jd_markdown.starts_with("**Posted:** 2024-01-02\n\n"));
    assert!(job.jd_markdown.contains("## Benefits\n- Health Insurance\n- Paid Time Off\n"));
    assert!(job.jd_markdown.ends_with("## Apply\n- https://a.com/x\n- https://b.com/y\n"));
}

#[test]
fn transform_reads_a_relative_date_from_the_highlights() {
    let mut raw = fixture_job();
    raw.detected_extensions = None;
    raw.job_highlights.push(JobHighlight {
        title: "Posted".into(),
        items: vec!["whenever".into(), "2024-13-45 day".into()],
    });
    let job = transform(raw);
    // "2024-13-45 day" names no number before the unit, so it stays as given.
    assert!(job.jd_markdown.starts_with("**Posted:** 2024-13-45 day\n\n"));
}

#[test]
fn client_normalizes_its_endpoint() {
    let c = SearchApiClient::new("k".into(), "  ".into(), 0);
    assert_eq!(c.base_url(), DEFAULT_BASE_URL);
    let c = SearchApiClient::new("k".into(), "https://h/api//".into(), 3);
    assert_eq!(c.base_url(), "https://h/api");
}

#[test]
fn page_query_names_engine_query_key_and_token() {
    let c = SearchApiClient::new("secret".into(), String::new(), 2);
    let params = SearchApiParams { query: "qa".into(), ..Default::default() };
    let q = c.page_query(&params, &Some("tok".into()));
    let pairs: Vec<(&str, &str)> = q.iter().map(|(k, v)| (k.as_str(), v.as_str())).collect();
    assert_eq!(
        pairs,
        vec![
            ("engine", "google_jobs"),
            ("q", "qa posted in the past week"),
            ("api_key", "secret"),
            ("google_domain", "google.com"),
            ("gl", "us"),
            ("hl", "en"),
            ("next_page_token", "tok"),
        ]
    );
    assert_eq!(c.page_query(&params, &None).len(), 6);
}

fn jobs(n: usize) -> Vec<joblode::job::Job> {
    (0..n).map(|_| normalize_job(fixture_job(), None)).collect()
}

#[test]
fn pagination_stops_at_the_cap_or_a_short_page() {
    let c = SearchApiClient::new("k".into(), String::new(), 2);
    let params = SearchApiParams { query: "q".into(), page_size: 45, ..Default::default() };
    let mut f = c.start_search(&params);
    assert!(matches!(f.next_request(), PageRequest::Fetch(None)));
    f.page_fetched(jobs(10), Some("t1".into()));
    assert!(matches!(f.next_request(), PageRequest::Fetch(Some(ref t)) if t == "t1"));
    f.page_fetched(jobs(10), Some("t2".into()));
    // Two pages is the client's cap, though 45 results need five.
    assert!(matches!(f.next_request(), PageRequest::Done));
    let (all, next) = f.finish();
    assert_eq!(all.len(), 20);
    assert_eq!(next.as_deref(), Some("t2"));

    let c = SearchApiClient::new("k".into(), String::new(), 9);
    let mut f = c.start_search(&params);
    f.page_fetched(jobs(7), Some("t".into()));
    assert!(matches!(f.next_request(), PageRequest::Done));
}

#[test]
fn pagination_surfaces_only_a_first_page_failure() {
    let c = SearchApiClient::new("k".into(), String::new(), 5);
    let params = SearchApiParams { query: "q".into(), page_size: 30, ..Default::default() };
    let mut f = c.start_search(&params);
    assert_eq!(f.page_number(), 1);
    assert!(f.page_failed());

    let mut f = c.start_search(&params);
    f.page_fetched(jobs(10), Some("t".into()));
    assert_eq!(f.page_number(), 2);
    assert!(!f.page_failed());
    assert!(matches!(f.next_request(), PageRequest::Done));
    assert_eq!(f.finish().0.len(), 10);
}

#[test]
fn a_continuation_fetches_exactly_one_page() {
    let c = SearchApiClient::new("k".into(), String::new(), 5);
    let params = SearchApiParams {
        query: "q".into(),
        page_size: 100,
        page_token: Some("more".into()),
        ..Default::default()
    };
    let mut f = c.start_search(&params);
    assert!(f.continuation());
    assert!(matches!(f.next_request(), PageRequest::Fetch(Some(ref t)) if t == "more"));
    f.page_fetched(jobs(10), Some("again".into()));
    assert!(matches!(f.next_request(), PageRequest::Done));
}

#[test]
fn page_result_normalizes_each_job_and_reads_the_token() {
    let response = SearchApiResponse {
        jobs: vec![fixture_job(), fixture_job()],
        pagination: Some(Pagination { next_page_token: Some("n".into()) }),
    };
    let (jobs, next) = page_result(response);
    assert_eq!(jobs.len(), 2);
    assert_eq!(jobs[1].company, "Acme");
    assert_eq!(next.as_deref(), Some("n"));
    let (none, no_next) = page_result(SearchApiResponse { jobs: vec![], pagination: None });
    assert!(none.is_empty() && no_next.is_none());
}
