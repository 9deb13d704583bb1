//! The fixed SQL text of the dataset queries. Every `?` in it is a bind
//! parameter; the counts proved here let the query builders show that each
//! placeholder gets exactly one parameter.
use vstd::prelude::*;

use crate::text::{count_char, count_upto};

verus! {

/// The row columns after id and company, in the order rows are read back.
pub const JOB_FIELDS: &'static str = "coalesce(title, ''), coalesce(url, ''), coalesce(\"function\", ''), coalesce(sub_function, ''), coalesce(level, ''), coalesce(work_mode, ''), coalesce(remote_scope, ''), coalesce(country_code, ''), coalesce(salary_min_k, -1), coalesce(salary_max_k, -1), coalesce(location, ''), coalesce(city, ''), coalesce(region, ''), coalesce(role_summary, ''), coalesce(jd_markdown, '')";

/// [`JOB_FIELDS`] read from the dataset joined as `m`.
pub const JOINED_JOB_FIELDS: &'static str = "coalesce(m.title, ''), coalesce(m.url, ''), coalesce(m.\"function\", ''), coalesce(m.sub_function, ''), coalesce(m.level, ''), coalesce(m.work_mode, ''), coalesce(m.remote_scope, ''), coalesce(m.country_code, ''), coalesce(m.salary_min_k, -1), coalesce(m.salary_max_k, -1), coalesce(m.location, ''), coalesce(m.city, ''), coalesce(m.region, ''), coalesce(m.role_summary, ''), coalesce(m.jd_markdown, '')";

/// Numbers each role within its (company, title) group, case-insensitively, by id; the first of each group is kept.
pub const DEDUP_RANK: &'static str = "row_number() OVER (PARTITION BY lower(coalesce(nullif(company_name, ''), company, '')), lower(coalesce(title, '')) ORDER BY cast(id AS VARCHAR)) AS duplicate_rank FROM read_parquet(?) ";

/// Start of the search query.
pub const SEARCH_OPEN: &'static str = "WITH filtered AS (SELECT *, coalesce(nullif(company_name, ''), company, '') AS display_company, ";

/// The deduplicated projection of the search query.
pub const SEARCH_SELECT: &'static str = "), deduplicated AS (SELECT * FROM filtered WHERE duplicate_rank = 1) SELECT cast(id AS VARCHAR), display_company, ";

/// End of the search query, before its row cap.
pub const SEARCH_END: &'static str = ", count(*) OVER () FROM deduplicated ORDER BY cast(id AS VARCHAR) LIMIT ";

/// Start of the count and candidate queries.
pub const COUNT_OPEN: &'static str = "WITH filtered AS (SELECT ";

/// End of the count query.
pub const COUNT_END: &'static str = ") SELECT count(*) FROM filtered WHERE duplicate_rank = 1";

/// The id column of the candidate query.
pub const CANDIDATES_ID: &'static str = "cast(id AS VARCHAR) AS id, ";

/// End of the candidate query, before its row cap.
pub const CANDIDATES_END: &'static str = ") SELECT id FROM filtered WHERE duplicate_rank = 1 ORDER BY id LIMIT ";

/// Selects a role's id and display company.
pub const JOB_SELECT: &'static str = "SELECT cast(id AS VARCHAR), coalesce(nullif(company_name, ''), company, ''), ";

/// Reads one role by id.
pub const GET_JOB_END: &'static str = " FROM read_parquet(?) WHERE cast(id AS VARCHAR) = ? LIMIT 1";

/// Start of the embeddings query, before the vector column.
pub const EMBEDDINGS_OPEN: &'static str = "SELECT cast(id AS VARCHAR), coalesce(array_to_string(";

/// The embeddings query after the vector column, before its id list.
pub const EMBEDDINGS_FROM: &'static str = ", ','), '') FROM read_parquet(?) WHERE cast(id AS VARCHAR) IN (";

/// Opens the query-vector CTE.
pub const VECTOR_OPEN: &'static str = "WITH q AS (SELECT [";

/// Types the query vector.
pub const VECTOR_TYPE: &'static str = "]::FLOAT[";

/// Closes the query-vector CTE.
pub const VECTOR_CLOSE: &'static str = "] AS qv)";

/// Best-variant similarity: the title embedding.
pub const SIMILARITY_TITLE: &'static str = ", greatest(coalesce(array_cosine_similarity(title_embedding::FLOAT[";

/// Best-variant similarity: the description embedding.
pub const SIMILARITY_JD: &'static str = "], q.qv), -1), coalesce(array_cosine_similarity(jd_embedding::FLOAT[";

/// Best-variant similarity: the alternate-title embeddings.
pub const SIMILARITY_ALT: &'static str = "], q.qv), -1), coalesce(list_aggregate(list_transform(alt_titles_embedding, x -> array_cosine_similarity(x::FLOAT[";

/// End of the similarity expression and the scanned dataset.
pub const SIMILARITY_FROM: &'static str = "], q.qv)), 'max'), -1)) AS similarity FROM read_parquet(?), q ";

/// Orders by similarity, best first, before the row cap.
pub const BEST_FIRST: &'static str = " ORDER BY similarity DESC LIMIT ";

/// A role needs at least one embedding to be matchable.
pub const EMBEDDING_PRESENT: &'static str = "(title_embedding IS NOT NULL OR jd_embedding IS NOT NULL OR alt_titles_embedding IS NOT NULL)";

/// Ranks straight off the sidecar.
pub const SIDECAR_RANK_OPEN: &'static str = "SELECT cast(id AS VARCHAR) AS rid, array_cosine_similarity(vec::FLOAT[";

/// The sidecar that is scanned.
pub const SIDECAR_RANK_FROM: &'static str = "], q.qv) AS similarity FROM read_parquet('";

/// End of the sidecar scan, before the row cap.
pub const SIDECAR_RANK_END: &'static str = "'), q ORDER BY similarity DESC LIMIT ";

/// Ranks the filtered dataset joined with its sidecar.
pub const JOINED_RANK_OPEN: &'static str = "SELECT cast(m.id AS VARCHAR) AS rid, array_cosine_similarity(s.vec::FLOAT[";

/// Joins the sidecar to the dataset.
pub const JOINED_RANK_JOIN: &'static str = "') m JOIN read_parquet('";

/// The join key and the start of the filter.
pub const JOINED_RANK_WHERE: &'static str = "') s ON cast(m.id AS VARCHAR) = cast(s.id AS VARCHAR), q WHERE ";

/// Opens the ranked CTE.
pub const RANKED_OPEN: &'static str = ", ranked AS (";

/// Reads the ranked rows back with their full records.
pub const RANKED_SELECT: &'static str = ") SELECT cast(m.id AS VARCHAR), coalesce(nullif(m.company_name, ''), m.company, ''), ";

/// The ranked rows joined to the dataset.
pub const RANKED_FROM: &'static str = ", r.similarity FROM ranked r JOIN read_parquet('";

/// End of the sidecar query.
pub const RANKED_END: &'static str = "') m ON cast(m.id AS VARCHAR) = r.rid ORDER BY r.similarity DESC";

/// Start of the sidecar export.
pub const COPY_OPEN: &'static str = "COPY (SELECT cast(id AS VARCHAR) AS id, jd_embedding[1:";

/// Names the exported column and the dataset.
pub const COPY_FROM: &'static str = "] AS vec FROM read_parquet('";

/// Keeps roles with an embedding and names the output.
pub const COPY_TO: &'static str = "') WHERE jd_embedding IS NOT NULL) TO '";

/// The output format.
pub const COPY_END: &'static str = "' (FORMAT PARQUET)";

/// Checks that a dataset can be opened and read.
pub const OPEN_CHECK: &'static str = "SELECT count(*) FROM read_parquet(?)";

/// Reads the stored embedding dimension of a dataset.
pub const EMBEDDING_LEN: &'static str = "SELECT len(jd_embedding) FROM read_parquet(?) WHERE jd_embedding IS NOT NULL LIMIT 1";

/// Reads the vector dimension of a sidecar.
pub const SIDECAR_LEN: &'static str = "SELECT len(vec) FROM read_parquet(?) LIMIT 1";

proof fn lemma_count_job_fields()
    ensures
        count_char(JOB_FIELDS@, '?') == 0,
{
    reveal_with_fuel(count_upto, 45);
    reveal_strlit("coalesce(title, ''), coalesce(url, ''), coalesce(\"function\", ''), coalesce(sub_function, ''), coalesce(level, ''), coalesce(work_mode, ''), coalesce(remote_scope, ''), coalesce(country_code, ''), coalesce(salary_min_k, -1), coalesce(salary_max_k, -1), coalesce(location, ''), coalesce(city, ''), coalesce(region, ''), coalesce(role_summary, ''), coalesce(jd_markdown, '')");
    assert(JOB_FIELDS@ == "coalesce(title, ''), coalesce(url, ''), coalesce(\"function\", ''), coalesce(sub_function, ''), coalesce(level, ''), coalesce(work_mode, ''), coalesce(remote_scope, ''), coalesce(country_code, ''), coalesce(salary_min_k, -1), coalesce(salary_max_k, -1), coalesce(location, ''), coalesce(city, ''), coalesce(region, ''), coalesce(role_summary, ''), coalesce(jd_markdown, '')"@);
    assert(JOB_FIELDS@.len() == 371);
    assert(count_upto(JOB_FIELDS@, '?', 40) == 0);
    assert(count_upto(JOB_FIELDS@, '?', 80) == 0);
    assert(count_upto(JOB_FIELDS@, '?', 120) == 0);
    assert(count_upto(JOB_FIELDS@, '?', 160) == 0);
    assert(count_upto(JOB_FIELDS@, '?', 200) == 0);
    assert(count_upto(JOB_FIELDS@, '?', 240) == 0);
    assert(count_upto(JOB_FIELDS@, '?', 280) == 0);
    assert(count_upto(JOB_FIELDS@, '?', 320) == 0);
    assert(count_upto(JOB_FIELDS@, '?', 360) == 0);
    assert(count_upto(JOB_FIELDS@, '?', 371) == 0);
}

proof fn lemma_count_joined_job_fields()
    ensures
        count_char(JOINED_JOB_FIELDS@, '?') == 0,
{
    reveal_with_fuel(count_upto, 45);
    reveal_strlit("coalesce(m.title, ''), coalesce(m.url, ''), coalesce(m.\"function\", ''), coalesce(m.sub_function, ''), coalesce(m.level, ''), coalesce(m.work_mode, ''), coalesce(m.remote_scope, ''), coalesce(m.country_code, ''), coalesce(m.salary_min_k, -1), coalesce(m.salary_max_k, -1), coalesce(m.location, ''), coalesce(m.city, ''), coalesce(m.region, ''), coalesce(m.role_summary, ''), coalesce(m.jd_markdown, '')");
    assert(JOINED_JOB_FIELDS@ == "coalesce(m.title, ''), coalesce(m.url, ''), coalesce(m.\"function\", ''), coalesce(m.sub_function, ''), coalesce(m.level, ''), coalesce(m.work_mode, ''), coalesce(m.remote_scope, ''), coalesce(m.country_code, ''), coalesce(m.salary_min_k, -1), coalesce(m.salary_max_k, -1), coalesce(m.location, ''), coalesce(m.city, ''), coalesce(m.region, ''), coalesce(m.role_summary, ''), coalesce(m.jd_markdown, '')"@);
    assert(JOINED_JOB_FIELDS@.len() == 401);
    assert(count_upto(JOINED_JOB_FIELDS@, '?', 40) == 0);
    assert(count_upto(JOINED_JOB_FIELDS@, '?', 80) == 0);
    assert(count_upto(JOINED_JOB_FIELDS@, '?', 120) == 0);
    assert(count_upto(JOINED_JOB_FIELDS@, '?', 160) == 0);
    assert(count_upto(JOINED_JOB_FIELDS@, '?', 200) == 0);
    assert(count_upto(JOINED_JOB_FIELDS@, '?', 240) == 0);
    assert(count_upto(JOINED_JOB_FIELDS@, '?', 280) == 0);
    assert(count_upto(JOINED_JOB_FIELDS@, '?', 320) == 0);
    assert(count_upto(JOINED_JOB_FIELDS@, '?', 360) == 0);
    assert(count_upto(JOINED_JOB_FIELDS@, '?', 400) == 0);
    assert(count_upto(JOINED_JOB_FIELDS@, '?', 401) == 0);
}

proof fn lemma_count_dedup_rank()
    ensures
        count_char(DEDUP_RANK@, '?') == 1,
{
    reveal_with_fuel(count_upto, 45);
    reveal_strlit("row_number() OVER (PARTITION BY lower(coalesce(nullif(company_name, ''), company, '')), lower(coalesce(title, '')) ORDER BY cast(id AS VARCHAR)) AS duplicate_rank FROM read_parquet(?) ");
    assert(DEDUP_RANK@ == "row_number() OVER (PARTITION BY lower(coalesce(nullif(company_name, ''), company, '')), lower(coalesce(title, '')) ORDER BY cast(id AS VARCHAR)) AS duplicate_rank FROM read_parquet(?) "@);
    assert(DEDUP_RANK@.len() == 184);
    assert(count_upto(DEDUP_RANK@, '?', 40) == 0);
    assert(count_upto(DEDUP_RANK@, '?', 80) == 0);
    assert(count_upto(DEDUP_RANK@, '?', 120) == 0);
    assert(count_upto(DEDUP_RANK@, '?', 160) == 0);
    assert(count_upto(DEDUP_RANK@, '?', 184) == 1);
}

proof fn lemma_count_search_open()
    ensures
        count_char(SEARCH_OPEN@, '?') == 0,
{
    reveal_with_fuel(count_upto, 45);
    reveal_strlit("WITH filtered AS (SELECT *, coalesce(nullif(company_name, ''), company, '') AS display_company, ");
    assert(SEARCH_OPEN@ == "WITH filtered AS (SELECT *, coalesce(nullif(company_name, ''), company, '') AS display_company, "@);
    assert(SEARCH_OPEN@.len() == 96);
    assert(count_upto(SEARCH_OPEN@, '?', 40) == 0);
    assert(count_upto(SEARCH_OPEN@, '?', 80) == 0);
    assert(count_upto(SEARCH_OPEN@, '?', 96) == 0);
}

proof fn lemma_count_search_select()
    ensures
        count_char(SEARCH_SELECT@, '?') == 0,
{
    reveal_with_fuel(count_upto, 45);
    reveal_strlit("), deduplicated AS (SELECT * FROM filtered WHERE duplicate_rank = 1) SELECT cast(id AS VARCHAR), display_company, ");
    assert(SEARCH_SELECT@ == "), deduplicated AS (SELECT * FROM filtered WHERE duplicate_rank = 1) SELECT cast(id AS VARCHAR), display_company, "@);
    assert(SEARCH_SELECT@.len() == 114);
    assert(count_upto(SEARCH_SELECT@, '?', 40) == 0);
    assert(count_upto(SEARCH_SELECT@, '?', 80) == 0);
    assert(count_upto(SEARCH_SELECT@, '?', 114) == 0);
}

proof fn lemma_count_search_end()
    ensures
        count_char(SEARCH_END@, '?') == 0,
{
    reveal_with_fuel(count_upto, 45);
    reveal_strlit(", count(*) OVER () FROM deduplicated ORDER BY cast(id AS VARCHAR) LIMIT ");
    assert(SEARCH_END@ == ", count(*) OVER () FROM deduplicated ORDER BY cast(id AS VARCHAR) LIMIT "@);
    assert(SEARCH_END@.len() == 72);
    assert(count_upto(SEARCH_END@, '?', 40) == 0);
    assert(count_upto(SEARCH_END@, '?', 72) == 0);
}

proof fn lemma_count_count_open()
    ensures
        count_char(COUNT_OPEN@, '?') == 0,
{
    reveal_with_fuel(count_upto, 45);
    reveal_strlit("WITH filtered AS (SELECT ");
    assert(COUNT_OPEN@ == "WITH filtered AS (SELECT "@);
    assert(COUNT_OPEN@.len() == 25);
    assert(count_upto(COUNT_OPEN@, '?', 25) == 0);
}

proof fn lemma_count_count_end()
    ensures
        count_char(COUNT_END@, '?') == 0,
{
    reveal_with_fuel(count_upto, 45);
    reveal_strlit(") SELECT count(*) FROM filtered WHERE duplicate_rank = 1");
    assert(COUNT_END@ == ") SELECT count(*) FROM filtered WHERE duplicate_rank = 1"@);
    assert(COUNT_END@.len() == 56);
    assert(count_upto(COUNT_END@, '?', 40) == 0);
    assert(count_upto(COUNT_END@, '?', 56) == 0);
}

proof fn lemma_count_candidates_id()
    ensures
        count_char(CANDIDATES_ID@, '?') == 0,
{
    reveal_with_fuel(count_upto, 45);
    reveal_strlit("cast(id AS VARCHAR) AS id, ");
    assert(CANDIDATES_ID@ == "cast(id AS VARCHAR) AS id, "@);
    assert(CANDIDATES_ID@.len() == 27);
    assert(count_upto(CANDIDATES_ID@, '?', 27) == 0);
}

proof fn lemma_count_candidates_end()
    ensures
        count_char(CANDIDATES_END@, '?') == 0,
{
    reveal_with_fuel(count_upto, 45);
    reveal_strlit(") SELECT id FROM filtered WHERE duplicate_rank = 1 ORDER BY id LIMIT ");
    assert(CANDIDATES_END@ == ") SELECT id FROM filtered WHERE duplicate_rank = 1 ORDER BY id LIMIT "@);
    assert(CANDIDATES_END@.len() == 69);
    assert(count_upto(CANDIDATES_END@, '?', 40) == 0);
    assert(count_upto(CANDIDATES_END@, '?', 69) == 0);
}

proof fn lemma_count_job_select()
    ensures
        count_char(JOB_SELECT@, '?') == 0,
{
    reveal_with_fuel(count_upto, 45);
    reveal_strlit("SELECT cast(id AS VARCHAR), coalesce(nullif(company_name, ''), company, ''), ");
    assert(JOB_SELECT@ == "SELECT cast(id AS VARCHAR), coalesce(nullif(company_name, ''), company, ''), "@);
    assert(JOB_SELECT@.len() == 77);
    assert(count_upto(JOB_SELECT@, '?', 40) == 0);
    assert(count_upto(JOB_SELECT@, '?', 77) == 0);
}

proof fn lemma_count_get_job_end()
    ensures
        count_char(GET_JOB_END@, '?') == 2,
{
    reveal_with_fuel(count_upto, 45);
    reveal_strlit(" FROM read_parquet(?) WHERE cast(id AS VARCHAR) = ? LIMIT 1");
    assert(GET_JOB_END@ == " FROM read_parquet(?) WHERE cast(id AS VARCHAR) = ? LIMIT 1"@);
    assert(GET_JOB_END@.len() == 59);
    assert(count_upto(GET_JOB_END@, '?', 40) == 1);
    assert(count_upto(GET_JOB_END@, '?', 59) == 2);
}

proof fn lemma_count_embeddings_open()
    ensures
        count_char(EMBEDDINGS_OPEN@, '?') == 0,
{
    reveal_with_fuel(count_upto, 45);
    reveal_strlit("SELECT cast(id AS VARCHAR), coalesce(array_to_string(");
    assert(EMBEDDINGS_OPEN@ == "SELECT cast(id AS VARCHAR), coalesce(array_to_string("@);
    assert(EMBEDDINGS_OPEN@.len() == 53);
    assert(count_upto(EMBEDDINGS_OPEN@, '?', 40) == 0);
    assert(count_upto(EMBEDDINGS_OPEN@, '?', 53) == 0);
}

proof fn lemma_count_embeddings_from()
    ensures
        count_char(EMBEDDINGS_FROM@, '?') == 1,
{
    reveal_with_fuel(count_upto, 45);
    reveal_strlit(", ','), '') FROM read_parquet(?) WHERE cast(id AS VARCHAR) IN (");
    assert(EMBEDDINGS_FROM@ == ", ','), '') FROM read_parquet(?) WHERE cast(id AS VARCHAR) IN ("@);
    assert(EMBEDDINGS_FROM@.len() == 63);
    assert(count_upto(EMBEDDINGS_FROM@, '?', 40) == 1);
    assert(count_upto(EMBEDDINGS_FROM@, '?', 63) == 1);
}

proof fn lemma_count_vector_open()
    ensures
        count_char(VECTOR_OPEN@, '?') == 0,
{
    reveal_with_fuel(count_upto, 45);
    reveal_strlit("WITH q AS (SELECT [");
    assert(VECTOR_OPEN@ == "WITH q AS (SELECT ["@);
    assert(VECTOR_OPEN@.len() == 19);
    assert(count_upto(VECTOR_OPEN@, '?', 19) == 0);
}

proof fn lemma_count_vector_type()
    ensures
        count_char(VECTOR_TYPE@, '?') == 0,
{
    reveal_with_fuel(count_upto, 45);
    reveal_strlit("]::FLOAT[");
    assert(VECTOR_TYPE@ == "]::FLOAT["@);
    assert(VECTOR_TYPE@.len() == 9);
    assert(count_upto(VECTOR_TYPE@, '?', 9) == 0);
}

proof fn lemma_count_vector_close()
    ensures
        count_char(VECTOR_CLOSE@, '?') == 0,
{
    reveal_with_fuel(count_upto, 45);
    reveal_strlit("] AS qv)");
    assert(VECTOR_CLOSE@ == "] AS qv)"@);
    assert(VECTOR_CLOSE@.len() == 8);
    assert(count_upto(VECTOR_CLOSE@, '?', 8) == 0);
}

proof fn lemma_count_similarity_title()
    ensures
        count_char(SIMILARITY_TITLE@, '?') == 0,
{
    reveal_with_fuel(count_upto, 45);
    reveal_strlit(", greatest(coalesce(array_cosine_similarity(title_embedding::FLOAT[");
    assert(SIMILARITY_TITLE@ == ", greatest(coalesce(array_cosine_similarity(title_embedding::FLOAT["@);
    assert(SIMILARITY_TITLE@.len() == 67);
    assert(count_upto(SIMILARITY_TITLE@, '?', 40) == 0);
    assert(count_upto(SIMILARITY_TITLE@, '?', 67) == 0);
}

proof fn lemma_count_similarity_jd()
    ensures
        count_char(SIMILARITY_JD@, '?') == 0,
{
    reveal_with_fuel(count_upto, 45);
    reveal_strlit("], q.qv), -1), coalesce(array_cosine_similarity(jd_embedding::FLOAT[");
    assert(SIMILARITY_JD@ == "], q.qv), -1), coalesce(array_cosine_similarity(jd_embedding::FLOAT["@);
    assert(SIMILARITY_JD@.len() == 68);
    assert(count_upto(SIMILARITY_JD@, '?', 40) == 0);
    assert(count_upto(SIMILARITY_JD@, '?', 68) == 0);
}

proof fn lemma_count_similarity_alt()
    ensures
        count_char(SIMILARITY_ALT@, '?') == 0,
{
    reveal_with_fuel(count_upto, 45);
    reveal_strlit("], q.qv), -1), coalesce(list_aggregate(list_transform(alt_titles_embedding, x -> array_cosine_similarity(x::FLOAT[");
    assert(SIMILARITY_ALT@ == "], q.qv), -1), coalesce(list_aggregate(list_transform(alt_titles_embedding, x -> array_cosine_similarity(x::FLOAT["@);
    assert(SIMILARITY_ALT@.len() == 114);
    assert(count_upto(SIMILARITY_ALT@, '?', 40) == 0);
    assert(count_upto(SIMILARITY_ALT@, '?', 80) == 0);
    assert(count_upto(SIMILARITY_ALT@, '?', 114) == 0);
}

proof fn lemma_count_similarity_from()
    ensures
        count_char(SIMILARITY_FROM@, '?') == 1,
{
    reveal_with_fuel(count_upto, 45);
    reveal_strlit("], q.qv)), 'max'), -1)) AS similarity FROM read_parquet(?), q ");
    assert(SIMILARITY_FROM@ == "], q.qv)), 'max'), -1)) AS similarity FROM read_parquet(?), q "@);
    assert(SIMILARITY_FROM@.len() == 62);
    assert(count_upto(SIMILARITY_FROM@, '?', 40) == 0);
    assert(count_upto(SIMILARITY_FROM@, '?', 62) == 1);
}

proof fn lemma_count_best_first()
    ensures
        count_char(BEST_FIRST@, '?') == 0,
{
    reveal_with_fuel(count_upto, 45);
    reveal_strlit(" ORDER BY similarity DESC LIMIT ");
    assert(BEST_FIRST@ == " ORDER BY similarity DESC LIMIT "@);
    assert(BEST_FIRST@.len() == 32);
    assert(count_upto(BEST_FIRST@, '?', 32) == 0);
}

proof fn lemma_count_embedding_present()
    ensures
        count_char(EMBEDDING_PRESENT@, '?') == 0,
{
    reveal_with_fuel(count_upto, 45);
    reveal_strlit("(title_embedding IS NOT NULL OR jd_embedding IS NOT NULL OR alt_titles_embedding IS NOT NULL)");
    assert(EMBEDDING_PRESENT@ == "(title_embedding IS NOT NULL OR jd_embedding IS NOT NULL OR alt_titles_embedding IS NOT NULL)"@);
    assert(EMBEDDING_PRESENT@.len() == 93);
    assert(count_upto(EMBEDDING_PRESENT@, '?', 40) == 0);
    assert(count_upto(EMBEDDING_PRESENT@, '?', 80) == 0);
    assert(count_upto(EMBEDDING_PRESENT@, '?', 93) == 0);
}

proof fn lemma_count_sidecar_rank_open()
    ensures
        count_char(SIDECAR_RANK_OPEN@, '?') == 0,
{
    reveal_with_fuel(count_upto, 45);
    reveal_strlit("SELECT cast(id AS VARCHAR) AS rid, array_cosine_similarity(vec::FLOAT[");
    assert(SIDECAR_RANK_OPEN@ == "SELECT cast(id AS VARCHAR) AS rid, array_cosine_similarity(vec::FLOAT["@);
    assert(SIDECAR_RANK_OPEN@.len() == 70);
    assert(count_upto(SIDECAR_RANK_OPEN@, '?', 40) == 0);
    assert(count_upto(SIDECAR_RANK_OPEN@, '?', 70) == 0);
}

proof fn lemma_count_sidecar_rank_from()
    ensures
        count_char(SIDECAR_RANK_FROM@, '?') == 0,
{
    reveal_with_fuel(count_upto, 45);
    reveal_strlit("], q.qv) AS similarity FROM read_parquet('");
    assert(SIDECAR_RANK_FROM@ == "], q.qv) AS similarity FROM read_parquet('"@);
    assert(SIDECAR_RANK_FROM@.len() == 42);
    assert(count_upto(SIDECAR_RANK_FROM@, '?', 40) == 0);
    assert(count_upto(SIDECAR_RANK_FROM@, '?', 42) == 0);
}

proof fn lemma_count_sidecar_rank_end()
    ensures
        count_char(SIDECAR_RANK_END@, '?') == 0,
{
    reveal_with_fuel(count_upto, 45);
    reveal_strlit("'), q ORDER BY similarity DESC LIMIT ");
    assert(SIDECAR_RANK_END@ == "'), q ORDER BY similarity DESC LIMIT "@);
    assert(SIDECAR_RANK_END@.len() == 37);
    assert(count_upto(SIDECAR_RANK_END@, '?', 37) == 0);
}

proof fn lemma_count_joined_rank_open()
    ensures
        count_char(JOINED_RANK_OPEN@, '?') == 0,
{
    reveal_with_fuel(count_upto, 45);
    reveal_strlit("SELECT cast(m.id AS VARCHAR) AS rid, array_cosine_similarity(s.vec::FLOAT[");
    assert(JOINED_RANK_OPEN@ == "SELECT cast(m.id AS VARCHAR) AS rid, array_cosine_similarity(s.vec::FLOAT["@);
    assert(JOINED_RANK_OPEN@.len() == 74);
    assert(count_upto(JOINED_RANK_OPEN@, '?', 40) == 0);
    assert(count_upto(JOINED_RANK_OPEN@, '?', 74) == 0);
}

proof fn lemma_count_joined_rank_join()
    ensures
        count_char(JOINED_RANK_JOIN@, '?') == 0,
{
    reveal_with_fuel(count_upto, 45);
    reveal_strlit("') m JOIN read_parquet('");
    assert(JOINED_RANK_JOIN@ == "') m JOIN read_parquet('"@);
    assert(JOINED_RANK_JOIN@.len() == 24);
    assert(count_upto(JOINED_RANK_JOIN@, '?', 24) == 0);
}

proof fn lemma_count_joined_rank_where()
    ensures
        count_char(JOINED_RANK_WHERE@, '?') == 0,
{
    reveal_with_fuel(count_upto, 45);
    reveal_strlit("') s ON cast(m.id AS VARCHAR) = cast(s.id AS VARCHAR), q WHERE ");
    assert(JOINED_RANK_WHERE@ == "') s ON cast(m.id AS VARCHAR) = cast(s.id AS VARCHAR), q WHERE "@);
    assert(JOINED_RANK_WHERE@.len() == 63);
    assert(count_upto(JOINED_RANK_WHERE@, '?', 40) == 0);
    assert(count_upto(JOINED_RANK_WHERE@, '?', 63) == 0);
}

proof fn lemma_count_ranked_open()
    ensures
        count_char(RANKED_OPEN@, '?') == 0,
{
    reveal_with_fuel(count_upto, 45);
    reveal_strlit(", ranked AS (");
    assert(RANKED_OPEN@ == ", ranked AS ("@);
    assert(RANKED_OPEN@.len() == 13);
    assert(count_upto(RANKED_OPEN@, '?', 13) == 0);
}

proof fn lemma_count_ranked_select()
    ensures
        count_char(RANKED_SELECT@, '?') == 0,
{
    reveal_with_fuel(count_upto, 45);
    reveal_strlit(") SELECT cast(m.id AS VARCHAR), coalesce(nullif(m.company_name, ''), m.company, ''), ");
    assert(RANKED_SELECT@ == ") SELECT cast(m.id AS VARCHAR), coalesce(nullif(m.company_name, ''), m.company, ''), "@);
    assert(RANKED_SELECT@.len() == 85);
    assert(count_upto(RANKED_SELECT@, '?', 40) == 0);
    assert(count_upto(RANKED_SELECT@, '?', 80) == 0);
    assert(count_upto(RANKED_SELECT@, '?', 85) == 0);
}

proof fn lemma_count_ranked_from()
    ensures
        count_char(RANKED_FROM@, '?') == 0,
{
    reveal_with_fuel(count_upto, 45);
    reveal_strlit(", r.similarity FROM ranked r JOIN read_parquet('");
    assert(RANKED_FROM@ == ", r.similarity FROM ranked r JOIN read_parquet('"@);
    assert(RANKED_FROM@.len() == 48);
    assert(count_upto(RANKED_FROM@, '?', 40) == 0);
    assert(count_upto(RANKED_FROM@, '?', 48) == 0);
}

proof fn lemma_count_ranked_end()
    ensures
        count_char(RANKED_END@, '?') == 0,
{
    reveal_with_fuel(count_upto, 45);
    reveal_strlit("') m ON cast(m.id AS VARCHAR) = r.rid ORDER BY r.similarity DESC");
    assert(RANKED_END@ == "') m ON cast(m.id AS VARCHAR) = r.rid ORDER BY r.similarity DESC"@);
    assert(RANKED_END@.len() == 64);
    assert(count_upto(RANKED_END@, '?', 40) == 0);
    assert(count_upto(RANKED_END@, '?', 64) == 0);
}

proof fn lemma_count_copy_open()
    ensures
        count_char(COPY_OPEN@, '?') == 0,
{
    reveal_with_fuel(count_upto, 45);
    reveal_strlit("COPY (SELECT cast(id AS VARCHAR) AS id, jd_embedding[1:");
    assert(COPY_OPEN@ == "COPY (SELECT cast(id AS VARCHAR) AS id, jd_embedding[1:"@);
    assert(COPY_OPEN@.len() == 55);
    assert(count_upto(COPY_OPEN@, '?', 40) == 0);
    assert(count_upto(COPY_OPEN@, '?', 55) == 0);
}

proof fn lemma_count_copy_from()
    ensures
        count_char(COPY_FROM@, '?') == 0,
{
    reveal_with_fuel(count_upto, 45);
    reveal_strlit("] AS vec FROM read_parquet('");
    assert(COPY_FROM@ == "] AS vec FROM read_parquet('"@);
    assert(COPY_FROM@.len() == 28);
    assert(count_upto(COPY_FROM@, '?', 28) == 0);
}

proof fn lemma_count_copy_to()
    ensures
        count_char(COPY_TO@, '?') == 0,
{
    reveal_with_fuel(count_upto, 45);
    reveal_strlit("') WHERE jd_embedding IS NOT NULL) TO '");
    assert(COPY_TO@ == "') WHERE jd_embedding IS NOT NULL) TO '"@);
    assert(COPY_TO@.len() == 39);
    assert(count_upto(COPY_TO@, '?', 39) == 0);
}

proof fn lemma_count_copy_end()
    ensures
        count_char(COPY_END@, '?') == 0,
{
    reveal_with_fuel(count_upto, 45);
    reveal_strlit("' (FORMAT PARQUET)");
    assert(COPY_END@ == "' (FORMAT PARQUET)"@);
    assert(COPY_END@.len() == 18);
    assert(count_upto(COPY_END@, '?', 18) == 0);
}

proof fn lemma_count_open_check()
    ensures
        count_char(OPEN_CHECK@, '?') == 1,
{
    reveal_with_fuel(count_upto, 45);
    reveal_strlit("SELECT count(*) FROM read_parquet(?)");
    assert(OPEN_CHECK@ == "SELECT count(*) FROM read_parquet(?)"@);
    assert(OPEN_CHECK@.len() == 36);
    assert(count_upto(OPEN_CHECK@, '?', 36) == 1);
}

proof fn lemma_count_embedding_len()
    ensures
        count_char(EMBEDDING_LEN@, '?') == 1,
{
    reveal_with_fuel(count_upto, 45);
    reveal_strlit("SELECT len(jd_embedding) FROM read_parquet(?) WHERE jd_embedding IS NOT NULL LIMIT 1");
    assert(EMBEDDING_LEN@ == "SELECT len(jd_embedding) FROM read_parquet(?) WHERE jd_embedding IS NOT NULL LIMIT 1"@);
    assert(EMBEDDING_LEN@.len() == 84);
    assert(count_upto(EMBEDDING_LEN@, '?', 40) == 0);
    assert(count_upto(EMBEDDING_LEN@, '?', 80) == 1);
    assert(count_upto(EMBEDDING_LEN@, '?', 84) == 1);
}

proof fn lemma_count_sidecar_len()
    ensures
        count_char(SIDECAR_LEN@, '?') == 1,
{
    reveal_with_fuel(count_upto, 45);
    reveal_strlit("SELECT len(vec) FROM read_parquet(?) LIMIT 1");
    assert(SIDECAR_LEN@ == "SELECT len(vec) FROM read_parquet(?) LIMIT 1"@);
    assert(SIDECAR_LEN@.len() == 44);
    assert(count_upto(SIDECAR_LEN@, '?', 40) == 1);
    assert(count_upto(SIDECAR_LEN@, '?', 44) == 1);
}

/// The placeholder counts of the fixed pieces of query text.
pub proof fn lemma_query_text_counts()
    ensures
        count_char(JOB_FIELDS@, '?') == 0,
        count_char(JOINED_JOB_FIELDS@, '?') == 0,
        count_char(DEDUP_RANK@, '?') == 1,
        count_char(SEARCH_OPEN@, '?') == 0,
        count_char(SEARCH_SELECT@, '?') == 0,
        count_char(SEARCH_END@, '?') == 0,
        count_char(COUNT_OPEN@, '?') == 0,
        count_char(COUNT_END@, '?') == 0,
        count_char(CANDIDATES_ID@, '?') == 0,
        count_char(CANDIDATES_END@, '?') == 0,
        count_char(JOB_SELECT@, '?') == 0,
        count_char(GET_JOB_END@, '?') == 2,
        count_char(EMBEDDINGS_OPEN@, '?') == 0,
        count_char(EMBEDDINGS_FROM@, '?') == 1,
        count_char(VECTOR_OPEN@, '?') == 0,
        count_char(VECTOR_TYPE@, '?') == 0,
        count_char(VECTOR_CLOSE@, '?') == 0,
        count_char(SIMILARITY_TITLE@, '?') == 0,
        count_char(SIMILARITY_JD@, '?') == 0,
        count_char(SIMILARITY_ALT@, '?') == 0,
        count_char(SIMILARITY_FROM@, '?') == 1,
        count_char(BEST_FIRST@, '?') == 0,
        count_char(EMBEDDING_PRESENT@, '?') == 0,
        count_char(SIDECAR_RANK_OPEN@, '?') == 0,
        count_char(SIDECAR_RANK_FROM@, '?') == 0,
        count_char(SIDECAR_RANK_END@, '?') == 0,
        count_char(JOINED_RANK_OPEN@, '?') == 0,
        count_char(JOINED_RANK_JOIN@, '?') == 0,
        count_char(JOINED_RANK_WHERE@, '?') == 0,
        count_char(RANKED_OPEN@, '?') == 0,
        count_char(RANKED_SELECT@, '?') == 0,
        count_char(RANKED_FROM@, '?') == 0,
        count_char(RANKED_END@, '?') == 0,
        count_char(COPY_OPEN@, '?') == 0,
        count_char(COPY_FROM@, '?') == 0,
        count_char(COPY_TO@, '?') == 0,
        count_char(COPY_END@, '?') == 0,
        count_char(OPEN_CHECK@, '?') == 1,
        count_char(EMBEDDING_LEN@, '?') == 1,
        count_char(SIDECAR_LEN@, '?') == 1,
        count_char("vec"@, '?') == 0,
        count_char("jd_embedding"@, '?') == 0,
        count_char(")"@, '?') == 0,
        count_char(" "@, '?') == 0,
{
    reveal_with_fuel(count_upto, 45);
    lemma_count_job_fields();
    lemma_count_joined_job_fields();
    lemma_count_dedup_rank();
    lemma_count_search_open();
    lemma_count_search_select();
    lemma_count_search_end();
    lemma_count_count_open();
    lemma_count_count_end();
    lemma_count_candidates_id();
    lemma_count_candidates_end();
    lemma_count_job_select();
    lemma_count_get_job_end();
    lemma_count_embeddings_open();
    lemma_count_embeddings_from();
    lemma_count_vector_open();
    lemma_count_vector_type();
    lemma_count_vector_close();
    lemma_count_similarity_title();
    lemma_count_similarity_jd();
    lemma_count_similarity_alt();
    lemma_count_similarity_from();
    lemma_count_best_first();
    lemma_count_embedding_present();
    lemma_count_sidecar_rank_open();
    lemma_count_sidecar_rank_from();
    lemma_count_sidecar_rank_end();
    lemma_count_joined_rank_open();
    lemma_count_joined_rank_join();
    lemma_count_joined_rank_where();
    lemma_count_ranked_open();
    lemma_count_ranked_select();
    lemma_count_ranked_from();
    lemma_count_ranked_end();
    lemma_count_copy_open();
    lemma_count_copy_from();
    lemma_count_copy_to();
    lemma_count_copy_end();
    lemma_count_open_check();
    lemma_count_embedding_len();
    lemma_count_sidecar_len();
    reveal_strlit("vec");
    assert("vec"@.len() == 3);
    assert(count_upto("vec"@, '?', 3) == 0);
    reveal_strlit("jd_embedding");
    assert("jd_embedding"@.len() == 12);
    assert(count_upto("jd_embedding"@, '?', 12) == 0);
    reveal_strlit(")");
    assert(")"@.len() == 1);
    assert(count_upto(")"@, '?', 1) == 0);
    reveal_strlit(" ");
    assert(" "@.len() == 1);
    assert(count_upto(" "@, '?', 1) == 0);
}

} // verus!
