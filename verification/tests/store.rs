use joblode::criteria::Criteria;
use joblode::filters::{collect_filters, where_clause, SqlParam};
use joblode::store::{count_total, search_total, sidecar_dim, sql_quote, Dataset};

fn texts(params: &[SqlParam]) -> Vec<String> {
    params
        .iter()
        .map(|p| match p {
            SqlParam::Text(t) => t.clone(),
            SqlParam::Double(bits) => format!("{}", f64::from_bits(*bits)),
        })
        .collect()
}

#[test]
fn criteria_is_empty_only_when_no_filter_is_set() {
    assert!(Criteria::default().is_empty());

    assert!(!Criteria {
        cities: vec!["sf".to_owned()],
        ..Default::default()
    }
    .is_empty());
    assert!(!Criteria {
        country: Some("US".to_owned()),
        ..Default::default()
    }
    .is_empty());
    assert!(!Criteria {
        min_comp: Some(150.0f64.to_bits()),
        ..Default::default()
    }
    .is_empty());
}

#[test]
fn no_filter_builds_no_where_clause() {
    let mut params = Vec::new();
    let filters = collect_filters(&Criteria::default(), &mut params);
    assert!(filters.is_empty());
    assert!(params.is_empty());
    assert_eq!(where_clause(&filters), "");
}

#[test]
fn a_blank_freshness_threshold_adds_no_filter() {
    let c = Criteria { posted_after: Some("   ".into()), ..Default::default() };
    assert!(c.is_empty());
    let dated = Criteria { posted_after: Some("2024-01-01T00:00:00Z".into()), ..Default::default() };
    assert!(!dated.is_empty());
    let mut params = Vec::new();
    assert!(collect_filters(&c, &mut params).is_empty());
    assert!(params.is_empty());
}

#[test]
fn every_filter_in_order_with_its_parameters() {
    let c = Criteria {
        functions: vec!["engineering".into(), "data".into()],
        levels: vec!["Staff".into()],
        titles: vec!["Backend".into()],
        companies: vec!["ACME".into()],
        cities: vec!["San Francisco".into(), "Oakland".into()],
        country: Some("US".into()),
        min_comp: Some(150.0f64.to_bits()),
        posted_after: Some("2024-01-01T00:00:00Z".into()),
    };
    let mut params = vec![SqlParam::Text("data.parquet".into())];
    let filters = collect_filters(&c, &mut params);
    assert_eq!(
        filters,
        vec![
            "coalesce(\"function\", '') IN (?, ?)".to_string(),
            "coalesce(level, '') IN (?)".to_string(),
            "(contains(lower(coalesce(title, '')), ?))".to_string(),
            "(contains(lower(concat_ws(' ', company_name, company)), ?))".to_string(),
            "(upper(coalesce(country_code, '')) = upper(?) OR (upper(?) = 'US' AND lower(coalesce(remote_scope, '')) IN ('us-only', 'us-canada')))".to_string(),
            "(contains(lower(concat_ws(' ', city, region, location)), ?) OR contains(lower(concat_ws(' ', city, region, location)), ?))".to_string(),
            "(coalesce(salary_max_k, -1) = -1 OR salary_max_k >= ?)".to_string(),
            "try_cast(posted_at AS TIMESTAMPTZ) >= try_cast(? AS TIMESTAMPTZ)".to_string(),
        ]
    );
    assert_eq!(
        texts(&params),
        vec![
            "data.parquet", "engineering", "data", "Staff", "backend", "acme", "US", "US",
            "san francisco", "oakland", "150", "2024-01-01T00:00:00Z",
        ]
    );
    let clause = where_clause(&filters);
    assert!(clause.starts_with("WHERE coalesce(\"function\", '') IN (?, ?) AND coalesce(level"));
    // One placeholder per bound filter value.
    assert_eq!(clause.matches('?').count(), params.len() - 1);
}

#[test]
fn search_query_binds_every_placeholder() {
    let d = Dataset::new("jobs.parquet".into());
    let c = Criteria { levels: vec!["Lead".into()], ..Default::default() };
    let q = d.search_query(&c, 25);
    assert!(q.sql.contains("FROM read_parquet(?) WHERE coalesce(level, '') IN (?)"));
    assert!(q.sql.ends_with("ORDER BY cast(id AS VARCHAR) LIMIT 25"));
    assert_eq!(q.sql.matches('?').count(), q.params.len());
    assert_eq!(texts(&q.params), vec!["jobs.parquet", "Lead"]);

    let q = d.count_query(&Criteria::default());
    assert!(q.sql.ends_with(") SELECT count(*) FROM filtered WHERE duplicate_rank = 1"));
    assert_eq!(q.sql.matches('?').count(), q.params.len());

    let q = d.candidate_ids_query(&c, 1000);
    assert!(q.sql.ends_with("ORDER BY id LIMIT 1000"));
    assert_eq!(q.sql.matches('?').count(), q.params.len());

    let q = d.get_job_query("city-direct");
    assert!(q.sql.ends_with("WHERE cast(id AS VARCHAR) = ? LIMIT 1"));
    assert_eq!(texts(&q.params), vec!["jobs.parquet", "city-direct"]);
}

#[test]
fn embeddings_come_from_the_sidecar_when_attached() {
    let mut d = Dataset::new("jobs.parquet".into());
    assert!(d.embeddings_query(&vec![]).is_none());
    let ids = vec!["a".to_string(), "b".to_string()];
    let q = d.embeddings_query(&ids).unwrap();
    assert!(q.sql.contains("array_to_string(jd_embedding, ',')"));
    assert!(q.sql.ends_with("IN (?, ?)"));
    assert_eq!(texts(&q.params), vec!["jobs.parquet", "a", "b"]);

    assert!(d.attach_sidecar("side.parquet".into(), -1).is_err());
    assert!(d.attach_sidecar("side.parquet".into(), 0).is_err());
    assert_eq!(d.semantic_index_dim(), None);
    assert!(d.attach_sidecar("side.parquet".into(), 256).is_ok());
    assert_eq!(d.semantic_index_dim(), Some(256));
    let q = d.embeddings_query(&ids).unwrap();
    assert!(q.sql.contains("array_to_string(vec, ',')"));
    assert_eq!(texts(&q.params), vec!["side.parquet", "a", "b"]);
}

#[test]
fn semantic_queries_inline_the_vector_and_bind_the_filters() {
    let mut d = Dataset::new("it's.parquet".into());
    let terms = vec!["0.5".to_string(), "-1".to_string(), "0.25".to_string()];
    assert!(d.semantic_search_query(&vec![], &Criteria::default(), 5).is_none());

    let q = d.semantic_search_query(&terms, &Criteria::default(), 5).unwrap();
    assert!(q.sql.starts_with("WITH q AS (SELECT [0.5, -1, 0.25]::FLOAT[3] AS qv) SELECT"));
    assert!(q.sql.contains("WHERE (title_embedding IS NOT NULL OR jd_embedding IS NOT NULL OR alt_titles_embedding IS NOT NULL) ORDER BY similarity DESC LIMIT 5"));
    assert_eq!(q.sql.matches('?').count(), q.params.len());

    d.attach_sidecar("side.parquet".into(), 2).unwrap();
    let q = d.semantic_search_query(&terms, &Criteria::default(), 5).unwrap();
    assert!(q.sql.starts_with("WITH q AS (SELECT [0.5, -1]::FLOAT[2] AS qv), ranked AS (SELECT cast(id AS VARCHAR) AS rid"));
    assert!(q.sql.contains("FROM read_parquet('side.parquet'), q ORDER BY similarity DESC LIMIT 5"));
    assert!(q.sql.contains("JOIN read_parquet('it''s.parquet') m"));
    assert!(q.params.is_empty());

    let c = Criteria { titles: vec!["Rust".into()], ..Default::default() };
    let q = d.semantic_search_query(&terms, &c, 5).unwrap();
    assert!(q.sql.contains("FROM read_parquet('it''s.parquet') m JOIN read_parquet('side.parquet') s"));
    assert!(q.sql.contains("WHERE (contains(lower(coalesce(title, '')), ?)) ORDER BY"));
    assert_eq!(q.sql.matches('?').count(), q.params.len());
    assert_eq!(texts(&q.params), vec!["rust"]);
}

#[test]
fn sidecar_export_and_dimensions() {
    let d = Dataset::new("a'b.parquet".into());
    assert_eq!(
        d.sidecar_copy_sql("out.parquet", 256),
        "COPY (SELECT cast(id AS VARCHAR) AS id, jd_embedding[1:256]::FLOAT[256] AS vec FROM read_parquet('a''b.parquet') WHERE jd_embedding IS NOT NULL) TO 'out.parquet' (FORMAT PARQUET)"
    );
    assert_eq!(sidecar_dim(1536, 256), 256);
    assert_eq!(sidecar_dim(128, 256), 128);
    assert_eq!(sidecar_dim(1536, 4096), 1536);
    assert_eq!(sidecar_dim(-5, 256), 0);
    assert_eq!(sidecar_dim(1536, 0), 0);
    assert_eq!(sql_quote("o'neil's"), "o''neil''s");
    assert_eq!(sql_quote("o'neil's").replace("''", "'"), "o'neil's");
    assert_eq!(sql_quote("a'b"), "a''b");
    assert_eq!(count_total(7), 7);
    assert_eq!(count_total(-3), 0);
    assert_eq!(search_total(&vec![], 10), Some(0));
    assert_eq!(search_total(&vec![3, 3, 3], 10), Some(3));
    assert_eq!(search_total(&vec![], 0), None);
}
