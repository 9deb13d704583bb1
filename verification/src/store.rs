//! Read-only access to one parquet dataset, optionally with an embedding
//! sidecar for fast semantic search: the queries the store runs, as SQL text
//! plus bind parameters, and the small computations on what they return.
//! Running them against DuckDB is the caller's part.
use vstd::prelude::*;

use crate::criteria::Criteria;
use crate::filters::{
    collect_filters, filter_params_spec, filters_spec, law_where_placeholders_match_parameters,
    lemma_filter_text_counts, lemma_placeholders_count, param_values, placeholder_list,
    placeholders, texts, where_clause, where_spec, ParamValue, SqlParam,
};
use crate::query_text::{
    lemma_query_text_counts, BEST_FIRST, CANDIDATES_END, CANDIDATES_ID, COPY_END, COPY_FROM,
    COPY_OPEN, COPY_TO, COUNT_END, COUNT_OPEN, DEDUP_RANK, EMBEDDINGS_FROM, EMBEDDINGS_OPEN,
    EMBEDDING_PRESENT, GET_JOB_END, JOB_FIELDS, JOB_SELECT, JOINED_JOB_FIELDS, JOINED_RANK_JOIN,
    JOINED_RANK_OPEN, JOINED_RANK_WHERE, RANKED_END, RANKED_FROM, RANKED_OPEN, RANKED_SELECT,
    SEARCH_END, SEARCH_OPEN, SEARCH_SELECT, SIDECAR_RANK_END, SIDECAR_RANK_FROM,
    SIDECAR_RANK_OPEN, SIMILARITY_ALT, SIMILARITY_FROM, SIMILARITY_JD, SIMILARITY_TITLE,
    VECTOR_CLOSE, VECTOR_OPEN, VECTOR_TYPE,
};
use crate::text::{
    append, chars_of, count_all, count_char, count_upto, decimal, decimal_string, digit_char, join,
    join_strings, lemma_count_all_concat, lemma_count_concat, lemma_count_join, owned, push_char,
    views,
};

verus! {

/// A query: SQL text and its bind parameters, in placeholder order.
#[derive(Debug)]
pub struct SqlQuery {
    /// The SQL text.
    pub sql: String,
    /// The bind parameters.
    pub params: Vec<SqlParam>,
}

/// A compact embedding sidecar: each role's `id` and a truncated embedding.
#[derive(Debug)]
pub struct Sidecar {
    /// Where the sidecar parquet lies.
    pub path: String,
    /// The dimension of its vectors.
    pub dim: usize,
}

/// One parquet dataset, optionally with an embedding sidecar.
#[derive(Debug)]
pub struct Dataset {
    /// Where the dataset parquet lies.
    pub parquet: String,
    /// The attached sidecar, if any.
    pub sidecar: Option<Sidecar>,
}

/// A sidecar reported a dimension that is not a size.
#[derive(Debug)]
pub struct DimensionOutOfRange {
    /// The dimension that was read.
    pub value: i64,
}

// ---------------------------------------------------------------------------
// Quoting
// ---------------------------------------------------------------------------

/// `s` with each `'` doubled, for inlining inside a single-quoted SQL literal.
pub open spec fn quote_seq(s: Seq<char>) -> Seq<char>
    decreases s.len(),
{
    if s.len() == 0 {
        Seq::empty()
    } else if s.last() == '\'' {
        quote_seq(s.drop_last()) + seq!['\'', '\'']
    } else {
        quote_seq(s.drop_last()).push(s.last())
    }
}

/// Escapes a string for inlining inside a single-quoted SQL literal (our own
/// config paths, never user input — user-supplied filter values stay bound).
pub fn sql_quote(value: &str) -> (r: String)
    ensures
        r@ == quote_seq(value@),
{
    let cs = chars_of(value);
    let mut r = String::new();
    let mut i: usize = 0;
    while i < cs.len()
        invariant
            cs@ == value@,
            i <= cs@.len(),
            r@ == quote_seq(cs@.take(i as int)),
        decreases cs.len() - i,
    {
        assert(cs@.take(i + 1).drop_last() =~= cs@.take(i as int));
        if cs[i] == '\'' {
            push_char(&mut r, '\'');
            push_char(&mut r, '\'');
            assert(r@ =~= quote_seq(cs@.take(i + 1)));
        } else {
            push_char(&mut r, cs[i]);
        }
        i = i + 1;
    }
    assert(cs@.take(cs@.len() as int) =~= cs@);
    r
}

/// `s` with each `''` read back as one `'`, left to right
/// (`str::replace("''", "'")`).
pub open spec fn unquote_seq(s: Seq<char>) -> Seq<char>
    decreases s.len(),
{
    if s.len() == 0 {
        Seq::empty()
    } else if s.len() >= 2 && s[0] == '\'' && s[1] == '\'' {
        seq!['\''] + unquote_seq(s.subrange(2, s.len() as int))
    } else {
        seq![s[0]] + unquote_seq(s.drop_first())
    }
}

/// Every `'` in `s` comes in a pair, read left to right: no quote in it can end
/// the literal it is inlined into.
pub open spec fn quotes_paired(s: Seq<char>) -> bool
    decreases s.len(),
{
    if s.len() == 0 {
        true
    } else if s[0] == '\'' {
        s.len() >= 2 && s[1] == '\'' && quotes_paired(s.subrange(2, s.len() as int))
    } else {
        quotes_paired(s.drop_first())
    }
}

proof fn lemma_quote_concat(a: Seq<char>, b: Seq<char>)
    ensures
        quote_seq(a + b) == quote_seq(a) + quote_seq(b),
    decreases b.len(),
{
    if b.len() == 0 {
        assert(a + b =~= a);
        assert(quote_seq(a) + quote_seq(b) =~= quote_seq(a));
    } else {
        lemma_quote_concat(a, b.drop_last());
        assert((a + b).drop_last() =~= a + b.drop_last());
        assert((a + b).last() == b.last());
        if b.last() == '\'' {
            assert(quote_seq(a) + quote_seq(b) =~= quote_seq(a) + quote_seq(b.drop_last()) + seq![
                '\'',
                '\'',
            ]);
        } else {
            assert(quote_seq(a) + quote_seq(b) =~= (quote_seq(a) + quote_seq(b.drop_last())).push(
                b.last(),
            ));
        }
    }
}

/// Quoting can be undone: reading each `''` back as `'` gives the value, and
/// every quote in the quoted text is paired, so the value cannot close the
/// literal it is inlined into.
pub proof fn law_quoting_is_undone_by_unquoting(value: Seq<char>)
    ensures
        unquote_seq(quote_seq(value)) == value,
        quotes_paired(quote_seq(value)),
    decreases value.len(),
{
    if value.len() > 0 {
        let rest = value.drop_first();
        law_quoting_is_undone_by_unquoting(rest);
        assert(value =~= seq![value[0]] + rest);
        lemma_quote_concat(seq![value[0]], rest);
        let head = seq![value[0]];
        assert(head.drop_last() =~= Seq::<char>::empty());
        assert(head.last() == value[0]);
        assert(quote_seq(head.drop_last()) =~= Seq::<char>::empty());
        let q = quote_seq(value);
        if value[0] == '\'' {
            assert(quote_seq(head) =~= seq!['\'', '\'']);
            assert(q.subrange(2, q.len() as int) =~= quote_seq(rest));
            assert(seq!['\''] + rest =~= value);
        } else {
            assert(quote_seq(head) =~= head);
            assert(q.drop_first() =~= quote_seq(rest));
            assert(seq![value[0]] + rest =~= value);
        }
    }
}

// ---------------------------------------------------------------------------
// The query texts
// ---------------------------------------------------------------------------

/// The search query: deduplicated matching rows by id, capped at `limit`, each
/// with the total match count.
pub open spec fn search_sql(filters: Seq<Seq<char>>, limit: nat) -> Seq<char> {
    SEARCH_OPEN@ + DEDUP_RANK@ + where_spec(filters) + SEARCH_SELECT@ + JOB_FIELDS@ + SEARCH_END@
        + decimal(limit)
}

/// The count of deduplicated matching roles.
pub open spec fn count_sql(filters: Seq<Seq<char>>) -> Seq<char> {
    COUNT_OPEN@ + DEDUP_RANK@ + where_spec(filters) + COUNT_END@
}

/// The deduplicated matching ids, by id, capped at `limit`.
pub open spec fn candidates_sql(filters: Seq<Seq<char>>, limit: nat) -> Seq<char> {
    COUNT_OPEN@ + CANDIDATES_ID@ + DEDUP_RANK@ + where_spec(filters) + CANDIDATES_END@ + decimal(
        limit,
    )
}

/// One full role by id.
pub open spec fn get_job_sql() -> Seq<char> {
    JOB_SELECT@ + JOB_FIELDS@ + GET_JOB_END@
}

/// The vectors in `column` of `n` ids, read as delimited text.
pub open spec fn embeddings_sql(column: Seq<char>, n: nat) -> Seq<char> {
    EMBEDDINGS_OPEN@ + column + EMBEDDINGS_FROM@ + placeholders(n) + ")"@
}

/// The query vector, inlined once as a typed literal.
pub open spec fn vector_cte(literal: Seq<char>, dim: nat) -> Seq<char> {
    VECTOR_OPEN@ + literal + VECTOR_TYPE@ + decimal(dim) + VECTOR_CLOSE@
}

/// Brute-force semantic search: each matchable role scored by the best of its
/// title, description and alternate-title similarities, best first.
pub open spec fn semantic_sql(
    literal: Seq<char>,
    dim: nat,
    filters: Seq<Seq<char>>,
    limit: nat,
) -> Seq<char> {
    vector_cte(literal, dim) + " "@ + JOB_SELECT@ + JOB_FIELDS@ + SIMILARITY_TITLE@ + decimal(dim)
        + SIMILARITY_JD@ + decimal(dim) + SIMILARITY_ALT@ + decimal(dim) + SIMILARITY_FROM@
        + where_spec(filters.push(EMBEDDING_PRESENT@)) + BEST_FIRST@ + decimal(limit)
}

/// The ranking stage of a sidecar search: straight off the sidecar when
/// unfiltered, else over the filtered dataset joined with the sidecar.
pub open spec fn ranked_sql(
    main: Seq<char>,
    side: Seq<char>,
    dim: nat,
    filters: Seq<Seq<char>>,
    limit: nat,
) -> Seq<char> {
    if filters.len() == 0 {
        SIDECAR_RANK_OPEN@ + decimal(dim) + SIDECAR_RANK_FROM@ + quote_seq(side)
            + SIDECAR_RANK_END@ + decimal(limit)
    } else {
        JOINED_RANK_OPEN@ + decimal(dim) + SIDECAR_RANK_FROM@ + quote_seq(main) + JOINED_RANK_JOIN@
            + quote_seq(side) + JOINED_RANK_WHERE@ + join(filters, " AND "@) + BEST_FIRST@
            + decimal(limit)
    }
}

/// Sidecar semantic search: rank over the sidecar, then read full rows for the
/// ranked ids, best first.
pub open spec fn sidecar_sql(
    literal: Seq<char>,
    main: Seq<char>,
    side: Seq<char>,
    dim: nat,
    filters: Seq<Seq<char>>,
    limit: nat,
) -> Seq<char> {
    vector_cte(literal, dim) + RANKED_OPEN@ + ranked_sql(main, side, dim, filters, limit)
        + RANKED_SELECT@ + JOINED_JOB_FIELDS@ + RANKED_FROM@ + quote_seq(main) + RANKED_END@
}

/// Exports each role's id and its embedding truncated to `dim` dimensions.
pub open spec fn copy_sql(main: Seq<char>, out: Seq<char>, dim: nat) -> Seq<char> {
    COPY_OPEN@ + decimal(dim) + VECTOR_TYPE@ + decimal(dim) + COPY_FROM@ + quote_seq(main)
        + COPY_TO@ + quote_seq(out) + COPY_END@
}

/// The first `n` terms, or all of them when there are fewer.
pub open spec fn first_terms(terms: Seq<Seq<char>>, n: nat) -> Seq<Seq<char>> {
    if n < terms.len() {
        terms.take(n as int)
    } else {
        terms
    }
}

/// The query vector's components joined for an array literal.
pub fn vector_literal(terms: &Vec<String>, n: usize) -> (r: String)
    ensures
        r@ == join(first_terms(views(terms@), n as nat), ", "@),
{
    if n < terms.len() {
        let mut first: Vec<String> = Vec::new();
        let mut i: usize = 0;
        while i < n
            invariant
                n < terms@.len(),
                i <= n,
                views(first@) == views(terms@).take(i as int),
            decreases n - i,
        {
            let ghost prev = views(first@);
            let t = terms[i].clone();
            first.push(t);
            assert(views(first@) =~= prev.push(terms@[i as int]@));
            assert(views(first@) =~= views(terms@).take(i + 1));
            i = i + 1;
        }
        join_strings(&first, ", ")
    } else {
        join_strings(terms, ", ")
    }
}

// ---------------------------------------------------------------------------
// Numbers read back
// ---------------------------------------------------------------------------

/// `usize::try_from(v)`.
pub open spec fn size_of_i64(v: i64) -> Option<usize> {
    if 0 <= v <= usize::MAX {
        Some(v as usize)
    } else {
        None
    }
}

fn usize_from_i64(v: i64) -> (r: Option<usize>)
    ensures
        r == size_of_i64(v),
{
    if v < 0 {
        None
    } else if (v as u64) > (usize::MAX as u64) {
        None
    } else {
        Some(v as usize)
    }
}

/// The dimension a sidecar is built with: what the dataset carries (zero when
/// that is not a size), capped at `target_dim`.
pub open spec fn sidecar_dim_spec(actual: i64, target_dim: usize) -> usize {
    let carried: usize = match size_of_i64(actual) {
        Some(d) => d,
        None => 0,
    };
    if carried < target_dim {
        carried
    } else {
        target_dim
    }
}

/// The dimension a sidecar is built with: `min(target_dim, actual)`.
pub fn sidecar_dim(actual: i64, target_dim: usize) -> (r: usize)
    ensures
        r == sidecar_dim_spec(actual, target_dim),
        r <= target_dim,
{
    let carried = match usize_from_i64(actual) {
        Some(d) => d,
        None => 0,
    };
    if carried < target_dim {
        carried
    } else {
        target_dim
    }
}

/// The match count a count query read: the count when it is a size, else zero.
pub fn count_total(total: i64) -> (r: usize)
    ensures
        r == match size_of_i64(total) {
            Some(n) => n,
            None => 0,
        },
{
    match usize_from_i64(total) {
        Some(n) => n,
        None => 0,
    }
}

/// The total of a search that returned rows carrying the window counts
/// `counts`: the count on its last row, or zero when no row came back. With a
/// limit of zero no row can carry the count, so `None`: the total is then read
/// with [`Dataset::count_query`].
pub fn search_total(counts: &Vec<i64>, limit: usize) -> (r: Option<usize>)
    ensures
        r == if limit == 0 {
            None
        } else if counts@.len() == 0 {
            Some(0usize)
        } else {
            Some(counts@.last() as usize)
        },
{
    if limit == 0 {
        None
    } else if counts.len() == 0 {
        Some(0)
    } else {
        Some(counts[counts.len() - 1] as usize)
    }
}


// ---------------------------------------------------------------------------
// Placeholders and parameters
// ---------------------------------------------------------------------------

/// A decimal rendering holds no placeholder.
pub proof fn lemma_decimal_count(n: nat)
    ensures
        count_char(decimal(n), '?') == 0,
    decreases n,
{
    reveal_with_fuel(count_upto, 3);
    let d = (n % 10) as nat;
    assert(digit_char(d) != '?') by {
        assert((48 + d) as u8 == 48 + d);
    }
    assert(count_upto(seq![digit_char(d)], '?', 1) == 0);
    if n >= 10 {
        lemma_decimal_count(n / 10);
        assert(decimal(n) == decimal(n / 10) + seq![digit_char(d)]);
        lemma_count_concat(decimal(n / 10), seq![digit_char(d)], '?');
    } else {
        assert(d == n);
    }
}

/// Quoting keeps the placeholders that are there and adds none.
pub proof fn lemma_quote_count(s: Seq<char>)
    ensures
        count_char(quote_seq(s), '?') == count_char(s, '?'),
    decreases s.len(),
{
    reveal_with_fuel(count_upto, 3);
    if s.len() > 0 {
        lemma_quote_count(s.drop_last());
        assert(s =~= s.drop_last() + seq![s.last()]);
        lemma_count_concat(s.drop_last(), seq![s.last()], '?');
        assert(count_upto(seq![s.last()], '?', 1) == if s.last() == '?' { 1nat } else { 0nat });
        if s.last() == '\'' {
            assert(count_upto(seq!['\'', '\''], '?', 2) == 0);
            lemma_count_concat(quote_seq(s.drop_last()), seq!['\'', '\''], '?');
        } else {
            assert(quote_seq(s) =~= quote_seq(s.drop_last()) + seq![s.last()]);
            lemma_count_concat(quote_seq(s.drop_last()), seq![s.last()], '?');
        }
    }
}

/// The search, count and candidate queries hold one placeholder for the dataset
/// path and one per filter parameter: as many as the parameters they bind.
pub proof fn law_filtered_queries_bind_every_placeholder(c: Criteria, limit: nat)
    ensures
        count_char(search_sql(filters_spec(c), limit), '?') == 1 + filter_params_spec(c).len(),
        count_char(count_sql(filters_spec(c)), '?') == 1 + filter_params_spec(c).len(),
        count_char(candidates_sql(filters_spec(c), limit), '?') == 1 + filter_params_spec(c).len(),
{
    let fs = filters_spec(c);
    lemma_query_text_counts();
    lemma_decimal_count(limit);
    law_where_placeholders_match_parameters(c);
    lemma_count_concat(SEARCH_OPEN@, DEDUP_RANK@, '?');
    lemma_count_concat(SEARCH_OPEN@ + DEDUP_RANK@, where_spec(fs), '?');
    lemma_count_concat(SEARCH_OPEN@ + DEDUP_RANK@ + where_spec(fs), SEARCH_SELECT@, '?');
    lemma_count_concat(SEARCH_OPEN@ + DEDUP_RANK@ + where_spec(fs) + SEARCH_SELECT@, JOB_FIELDS@, '?');
    lemma_count_concat(SEARCH_OPEN@ + DEDUP_RANK@ + where_spec(fs) + SEARCH_SELECT@ + JOB_FIELDS@, SEARCH_END@, '?');
    lemma_count_concat(SEARCH_OPEN@ + DEDUP_RANK@ + where_spec(fs) + SEARCH_SELECT@ + JOB_FIELDS@ + SEARCH_END@, decimal(limit), '?');
    lemma_count_concat(COUNT_OPEN@, DEDUP_RANK@, '?');
    lemma_count_concat(COUNT_OPEN@ + DEDUP_RANK@, where_spec(fs), '?');
    lemma_count_concat(COUNT_OPEN@ + DEDUP_RANK@ + where_spec(fs), COUNT_END@, '?');
    lemma_count_concat(COUNT_OPEN@, CANDIDATES_ID@, '?');
    lemma_count_concat(COUNT_OPEN@ + CANDIDATES_ID@, DEDUP_RANK@, '?');
    lemma_count_concat(COUNT_OPEN@ + CANDIDATES_ID@ + DEDUP_RANK@, where_spec(fs), '?');
    lemma_count_concat(COUNT_OPEN@ + CANDIDATES_ID@ + DEDUP_RANK@ + where_spec(fs), CANDIDATES_END@, '?');
    lemma_count_concat(COUNT_OPEN@ + CANDIDATES_ID@ + DEDUP_RANK@ + where_spec(fs) + CANDIDATES_END@, decimal(limit), '?');
}

/// The single-job query binds the dataset path and the id.
pub proof fn law_get_job_binds_every_placeholder()
    ensures
        count_char(get_job_sql(), '?') == 2,
{
    lemma_query_text_counts();
    lemma_count_concat(JOB_SELECT@, JOB_FIELDS@, '?');
    lemma_count_concat(JOB_SELECT@ + JOB_FIELDS@, GET_JOB_END@, '?');
}

/// The embeddings query binds the vector source and each of its `n` ids.
pub proof fn law_embeddings_bind_every_placeholder(column: Seq<char>, n: nat)
    requires
        column == "vec"@ || column == "jd_embedding"@,
    ensures
        count_char(embeddings_sql(column, n), '?') == 1 + n,
{
    lemma_query_text_counts();
    lemma_placeholders_count(n);
    lemma_count_concat(EMBEDDINGS_OPEN@, column, '?');
    lemma_count_concat(EMBEDDINGS_OPEN@ + column, EMBEDDINGS_FROM@, '?');
    lemma_count_concat(EMBEDDINGS_OPEN@ + column + EMBEDDINGS_FROM@, placeholders(n), '?');
    lemma_count_concat(EMBEDDINGS_OPEN@ + column + EMBEDDINGS_FROM@ + placeholders(n), ")"@, '?');
}

proof fn lemma_vector_cte_count(literal: Seq<char>, dim: nat)
    requires
        count_char(literal, '?') == 0,
    ensures
        count_char(vector_cte(literal, dim), '?') == 0,
{
    lemma_query_text_counts();
    lemma_decimal_count(dim);
    lemma_count_concat(VECTOR_OPEN@, literal, '?');
    lemma_count_concat(VECTOR_OPEN@ + literal, VECTOR_TYPE@, '?');
    lemma_count_concat(VECTOR_OPEN@ + literal + VECTOR_TYPE@, decimal(dim), '?');
    lemma_count_concat(VECTOR_OPEN@ + literal + VECTOR_TYPE@ + decimal(dim), VECTOR_CLOSE@, '?');
}

proof fn lemma_where_with_embedding_count(c: Criteria)
    ensures
        count_char(where_spec(filters_spec(c).push(EMBEDDING_PRESENT@)), '?')
            == filter_params_spec(c).len(),
{
    let fs = filters_spec(c);
    lemma_query_text_counts();
    lemma_filter_text_counts();
    law_where_placeholders_match_parameters(c);
    let gs = fs.push(EMBEDDING_PRESENT@);
    lemma_count_join(fs, " AND "@, '?');
    lemma_count_join(gs, " AND "@, '?');
    assert(gs.drop_last() =~= fs);
    if fs.len() > 0 {
        lemma_count_concat("WHERE "@, join(fs, " AND "@), '?');
        lemma_count_concat(join(fs, " AND "@), " AND "@, '?');
        lemma_count_concat(join(fs, " AND "@) + " AND "@, EMBEDDING_PRESENT@, '?');
    } else {
        assert(count_all(fs, '?') == 0);
    }
    lemma_count_concat("WHERE "@, join(gs, " AND "@), '?');
}

/// The brute-force semantic query binds the dataset path and the filter
/// parameters, and nothing else, as long as the inlined vector holds no `?`.
pub proof fn law_semantic_query_binds_every_placeholder(
    c: Criteria,
    literal: Seq<char>,
    dim: nat,
    limit: nat,
)
    requires
        count_char(literal, '?') == 0,
    ensures
        count_char(semantic_sql(literal, dim, filters_spec(c), limit), '?') == 1
            + filter_params_spec(c).len(),
{
    let fs = filters_spec(c);
    lemma_query_text_counts();
    lemma_decimal_count(dim);
    lemma_decimal_count(limit);
    lemma_vector_cte_count(literal, dim);
    lemma_where_with_embedding_count(c);
    lemma_count_concat(vector_cte(literal, dim), " "@, '?');
    lemma_count_concat(vector_cte(literal, dim) + " "@, JOB_SELECT@, '?');
    lemma_count_concat(vector_cte(literal, dim) + " "@ + JOB_SELECT@, JOB_FIELDS@, '?');
    lemma_count_concat(vector_cte(literal, dim) + " "@ + JOB_SELECT@ + JOB_FIELDS@, SIMILARITY_TITLE@, '?');
    lemma_count_concat(vector_cte(literal, dim) + " "@ + JOB_SELECT@ + JOB_FIELDS@ + SIMILARITY_TITLE@, decimal(dim), '?');
    lemma_count_concat(vector_cte(literal, dim) + " "@ + JOB_SELECT@ + JOB_FIELDS@ + SIMILARITY_TITLE@ + decimal(dim), SIMILARITY_JD@, '?');
    lemma_count_concat(vector_cte(literal, dim) + " "@ + JOB_SELECT@ + JOB_FIELDS@ + SIMILARITY_TITLE@ + decimal(dim) + SIMILARITY_JD@, decimal(dim), '?');
    lemma_count_concat(vector_cte(literal, dim) + " "@ + JOB_SELECT@ + JOB_FIELDS@ + SIMILARITY_TITLE@ + decimal(dim) + SIMILARITY_JD@ + decimal(dim), SIMILARITY_ALT@, '?');
    lemma_count_concat(vector_cte(literal, dim) + " "@ + JOB_SELECT@ + JOB_FIELDS@ + SIMILARITY_TITLE@ + decimal(dim) + SIMILARITY_JD@ + decimal(dim) + SIMILARITY_ALT@, decimal(dim), '?');
    lemma_count_concat(vector_cte(literal, dim) + " "@ + JOB_SELECT@ + JOB_FIELDS@ + SIMILARITY_TITLE@ + decimal(dim) + SIMILARITY_JD@ + decimal(dim) + SIMILARITY_ALT@ + decimal(dim), SIMILARITY_FROM@, '?');
    lemma_count_concat(vector_cte(literal, dim) + " "@ + JOB_SELECT@ + JOB_FIELDS@ + SIMILARITY_TITLE@ + decimal(dim) + SIMILARITY_JD@ + decimal(dim) + SIMILARITY_ALT@ + decimal(dim) + SIMILARITY_FROM@, where_spec(fs.push(EMBEDDING_PRESENT@)), '?');
    lemma_count_concat(vector_cte(literal, dim) + " "@ + JOB_SELECT@ + JOB_FIELDS@ + SIMILARITY_TITLE@ + decimal(dim) + SIMILARITY_JD@ + decimal(dim) + SIMILARITY_ALT@ + decimal(dim) + SIMILARITY_FROM@ + where_spec(fs.push(EMBEDDING_PRESENT@)), BEST_FIRST@, '?');
    lemma_count_concat(vector_cte(literal, dim) + " "@ + JOB_SELECT@ + JOB_FIELDS@ + SIMILARITY_TITLE@ + decimal(dim) + SIMILARITY_JD@ + decimal(dim) + SIMILARITY_ALT@ + decimal(dim) + SIMILARITY_FROM@ + where_spec(fs.push(EMBEDDING_PRESENT@)) + BEST_FIRST@, decimal(limit), '?');
}

/// The sidecar semantic query binds exactly the filter parameters, as long as
/// the inlined vector and paths hold no `?`.
pub proof fn law_sidecar_query_binds_every_placeholder(
    c: Criteria,
    literal: Seq<char>,
    main: Seq<char>,
    side: Seq<char>,
    dim: nat,
    limit: nat,
)
    requires
        count_char(literal, '?') == 0,
        count_char(main, '?') == 0,
        count_char(side, '?') == 0,
    ensures
        count_char(sidecar_sql(literal, main, side, dim, filters_spec(c), limit), '?')
            == filter_params_spec(c).len(),
{
    let fs = filters_spec(c);
    lemma_query_text_counts();
    lemma_filter_text_counts();
    lemma_decimal_count(dim);
    lemma_decimal_count(limit);
    lemma_quote_count(main);
    lemma_quote_count(side);
    lemma_vector_cte_count(literal, dim);
    law_where_placeholders_match_parameters(c);
    if fs.len() == 0 {
        assert(count_all(fs, '?') == 0);
        lemma_count_concat(SIDECAR_RANK_OPEN@, decimal(dim), '?');
        lemma_count_concat(SIDECAR_RANK_OPEN@ + decimal(dim), SIDECAR_RANK_FROM@, '?');
        lemma_count_concat(SIDECAR_RANK_OPEN@ + decimal(dim) + SIDECAR_RANK_FROM@, quote_seq(side), '?');
        lemma_count_concat(SIDECAR_RANK_OPEN@ + decimal(dim) + SIDECAR_RANK_FROM@ + quote_seq(side), SIDECAR_RANK_END@, '?');
        lemma_count_concat(SIDECAR_RANK_OPEN@ + decimal(dim) + SIDECAR_RANK_FROM@ + quote_seq(side) + SIDECAR_RANK_END@, decimal(limit), '?');
    } else {
        lemma_count_join(fs, " AND "@, '?');
        lemma_count_concat("WHERE "@, join(fs, " AND "@), '?');
        lemma_count_concat(JOINED_RANK_OPEN@, decimal(dim), '?');
        lemma_count_concat(JOINED_RANK_OPEN@ + decimal(dim), SIDECAR_RANK_FROM@, '?');
        lemma_count_concat(JOINED_RANK_OPEN@ + decimal(dim) + SIDECAR_RANK_FROM@, quote_seq(main), '?');
        lemma_count_concat(JOINED_RANK_OPEN@ + decimal(dim) + SIDECAR_RANK_FROM@ + quote_seq(main), JOINED_RANK_JOIN@, '?');
        lemma_count_concat(JOINED_RANK_OPEN@ + decimal(dim) + SIDECAR_RANK_FROM@ + quote_seq(main) + JOINED_RANK_JOIN@, quote_seq(side), '?');
        lemma_count_concat(JOINED_RANK_OPEN@ + decimal(dim) + SIDECAR_RANK_FROM@ + quote_seq(main) + JOINED_RANK_JOIN@ + quote_seq(side), JOINED_RANK_WHERE@, '?');
        lemma_count_concat(JOINED_RANK_OPEN@ + decimal(dim) + SIDECAR_RANK_FROM@ + quote_seq(main) + JOINED_RANK_JOIN@ + quote_seq(side) + JOINED_RANK_WHERE@, join(fs, " AND "@), '?');
        lemma_count_concat(JOINED_RANK_OPEN@ + decimal(dim) + SIDECAR_RANK_FROM@ + quote_seq(main) + JOINED_RANK_JOIN@ + quote_seq(side) + JOINED_RANK_WHERE@ + join(fs, " AND "@), BEST_FIRST@, '?');
        lemma_count_concat(JOINED_RANK_OPEN@ + decimal(dim) + SIDECAR_RANK_FROM@ + quote_seq(main) + JOINED_RANK_JOIN@ + quote_seq(side) + JOINED_RANK_WHERE@ + join(fs, " AND "@) + BEST_FIRST@, decimal(limit), '?');
    }
    lemma_count_concat(vector_cte(literal, dim), RANKED_OPEN@, '?');
    lemma_count_concat(vector_cte(literal, dim) + RANKED_OPEN@, ranked_sql(main, side, dim, fs, limit), '?');
    lemma_count_concat(vector_cte(literal, dim) + RANKED_OPEN@ + ranked_sql(main, side, dim, fs, limit), RANKED_SELECT@, '?');
    lemma_count_concat(vector_cte(literal, dim) + RANKED_OPEN@ + ranked_sql(main, side, dim, fs, limit) + RANKED_SELECT@, JOINED_JOB_FIELDS@, '?');
    lemma_count_concat(vector_cte(literal, dim) + RANKED_OPEN@ + ranked_sql(main, side, dim, fs, limit) + RANKED_SELECT@ + JOINED_JOB_FIELDS@, RANKED_FROM@, '?');
    lemma_count_concat(vector_cte(literal, dim) + RANKED_OPEN@ + ranked_sql(main, side, dim, fs, limit) + RANKED_SELECT@ + JOINED_JOB_FIELDS@ + RANKED_FROM@, quote_seq(main), '?');
    lemma_count_concat(vector_cte(literal, dim) + RANKED_OPEN@ + ranked_sql(main, side, dim, fs, limit) + RANKED_SELECT@ + JOINED_JOB_FIELDS@ + RANKED_FROM@ + quote_seq(main), RANKED_END@, '?');
}

/// A filtered sidecar search ranks within the same hard filters as the filter
/// search: its text is the very `WHERE` clause of the filter search (every
/// filter joined by `AND`) set between a head and a tail that hold no
/// placeholder, so both searches match the same roles.
pub proof fn law_sidecar_ranking_uses_the_search_filters(
    c: Criteria,
    literal: Seq<char>,
    main: Seq<char>,
    side: Seq<char>,
    dim: nat,
    limit: nat,
    search_limit: nat,
)
    requires
        filters_spec(c).len() > 0,
        count_char(literal, '?') == 0,
        count_char(main, '?') == 0,
        count_char(side, '?') == 0,
    ensures
        exists|p: Seq<char>, q: Seq<char>|
            sidecar_sql(literal, main, side, dim, filters_spec(c), limit) == p + where_spec(
                filters_spec(c),
            ) + q && count_char(p, '?') == 0 && count_char(q, '?') == 0,
        exists|p: Seq<char>, q: Seq<char>|
            search_sql(filters_spec(c), search_limit) == p + where_spec(filters_spec(c)) + q,
{
    let fs = filters_spec(c);
    let w = where_spec(fs);
    let pre = JOINED_RANK_WHERE@.take(57);
    lemma_rank_where_ends_with_where();
    let p = vector_cte(literal, dim) + RANKED_OPEN@ + JOINED_RANK_OPEN@ + decimal(dim)
        + SIDECAR_RANK_FROM@ + quote_seq(main) + JOINED_RANK_JOIN@ + quote_seq(side) + pre;
    let q = BEST_FIRST@ + decimal(limit) + RANKED_SELECT@ + JOINED_JOB_FIELDS@ + RANKED_FROM@
        + quote_seq(main) + RANKED_END@;
    let whole = sidecar_sql(literal, main, side, dim, fs, limit);
    lemma_sidecar_shape(literal, main, side, dim, fs, limit);
    assert(count_char(whole, '?') == count_char(w, '?')) by {
        law_sidecar_query_binds_every_placeholder(c, literal, main, side, dim, limit);
        law_where_placeholders_match_parameters(c);
    }
    assert(count_char(p, '?') == 0 && count_char(q, '?') == 0) by {
        lemma_count_concat(p, w, '?');
        lemma_count_concat(p + w, q, '?');
    }
    let sp = SEARCH_OPEN@ + DEDUP_RANK@;
    let sq = SEARCH_SELECT@ + JOB_FIELDS@ + SEARCH_END@ + decimal(search_limit);
    assert(search_sql(fs, search_limit) =~= sp + w + sq);
}

proof fn lemma_rank_where_ends_with_where()
    ensures
        JOINED_RANK_WHERE@ == JOINED_RANK_WHERE@.take(57) + "WHERE "@,
{
    reveal_strlit("') s ON cast(m.id AS VARCHAR) = cast(s.id AS VARCHAR), q WHERE ");
    reveal_strlit("WHERE ");
    assert(JOINED_RANK_WHERE@ =~= JOINED_RANK_WHERE@.take(57) + "WHERE "@);
}

proof fn lemma_sidecar_shape(
    literal: Seq<char>,
    main: Seq<char>,
    side: Seq<char>,
    dim: nat,
    fs: Seq<Seq<char>>,
    limit: nat,
)
    requires
        fs.len() > 0,
        JOINED_RANK_WHERE@ == JOINED_RANK_WHERE@.take(57) + "WHERE "@,
    ensures
        sidecar_sql(literal, main, side, dim, fs, limit) == (vector_cte(literal, dim) + RANKED_OPEN@
            + JOINED_RANK_OPEN@ + decimal(dim) + SIDECAR_RANK_FROM@ + quote_seq(main)
            + JOINED_RANK_JOIN@ + quote_seq(side) + JOINED_RANK_WHERE@.take(57)) + where_spec(fs)
            + (BEST_FIRST@ + decimal(limit) + RANKED_SELECT@ + JOINED_JOB_FIELDS@ + RANKED_FROM@
            + quote_seq(main) + RANKED_END@),
{
    let pre = JOINED_RANK_WHERE@.take(57);
    let j = join(fs, " AND "@);
    assert(where_spec(fs) == "WHERE "@ + j);
    let r = ranked_sql(main, side, dim, fs, limit);
    assert(r =~= (JOINED_RANK_OPEN@ + decimal(dim) + SIDECAR_RANK_FROM@ + quote_seq(main)
        + JOINED_RANK_JOIN@ + quote_seq(side) + pre) + ("WHERE "@ + j) + (BEST_FIRST@ + decimal(
        limit,
    )));
    assert(sidecar_sql(literal, main, side, dim, fs, limit) =~= (vector_cte(literal, dim)
        + RANKED_OPEN@ + JOINED_RANK_OPEN@ + decimal(dim) + SIDECAR_RANK_FROM@ + quote_seq(main)
        + JOINED_RANK_JOIN@ + quote_seq(side) + pre) + where_spec(fs) + (BEST_FIRST@ + decimal(
        limit,
    ) + RANKED_SELECT@ + JOINED_JOB_FIELDS@ + RANKED_FROM@ + quote_seq(main) + RANKED_END@));
}

/// The sidecar export binds nothing and holds no placeholder of its own.
pub proof fn law_copy_binds_nothing(main: Seq<char>, out: Seq<char>, dim: nat)
    requires
        count_char(main, '?') == 0,
        count_char(out, '?') == 0,
    ensures
        count_char(copy_sql(main, out, dim), '?') == 0,
{
    lemma_query_text_counts();
    lemma_decimal_count(dim);
    lemma_quote_count(main);
    lemma_quote_count(out);
    lemma_count_concat(COPY_OPEN@, decimal(dim), '?');
    lemma_count_concat(COPY_OPEN@ + decimal(dim), VECTOR_TYPE@, '?');
    lemma_count_concat(COPY_OPEN@ + decimal(dim) + VECTOR_TYPE@, decimal(dim), '?');
    lemma_count_concat(COPY_OPEN@ + decimal(dim) + VECTOR_TYPE@ + decimal(dim), COPY_FROM@, '?');
    lemma_count_concat(COPY_OPEN@ + decimal(dim) + VECTOR_TYPE@ + decimal(dim) + COPY_FROM@, quote_seq(main), '?');
    lemma_count_concat(COPY_OPEN@ + decimal(dim) + VECTOR_TYPE@ + decimal(dim) + COPY_FROM@ + quote_seq(main), COPY_TO@, '?');
    lemma_count_concat(COPY_OPEN@ + decimal(dim) + VECTOR_TYPE@ + decimal(dim) + COPY_FROM@ + quote_seq(main) + COPY_TO@, quote_seq(out), '?');
    lemma_count_concat(COPY_OPEN@ + decimal(dim) + VECTOR_TYPE@ + decimal(dim) + COPY_FROM@ + quote_seq(main) + COPY_TO@ + quote_seq(out), COPY_END@, '?');
}

// ---------------------------------------------------------------------------
// The dataset
// ---------------------------------------------------------------------------

/// Where the semantic vectors of a dataset are read from, and their column.
pub open spec fn vector_source(d: Dataset) -> (Seq<char>, Seq<char>) {
    match d.sidecar {
        Some(s) => (s.path@, "vec"@),
        None => (d.parquet@, "jd_embedding"@),
    }
}

impl Dataset {
    /// A dataset with no sidecar.
    pub fn new(parquet: String) -> (d: Dataset)
        ensures
            d.parquet@ == parquet@,
            d.sidecar is None,
    {
        Dataset { parquet, sidecar: None }
    }

    /// Checks that the dataset opens and reads.
    pub fn open_check_query(&self) -> (q: SqlQuery)
        ensures
            q.sql@ == crate::query_text::OPEN_CHECK@,
            param_values(q.params@) == seq![ParamValue::Text(self.parquet@)],
    {
        let mut params: Vec<SqlParam> = Vec::new();
        params.push(SqlParam::Text(self.parquet.clone()));
        assert(param_values(params@) =~= seq![ParamValue::Text(self.parquet@)]);
        SqlQuery { sql: owned(crate::query_text::OPEN_CHECK), params }
    }

    /// Reads the embedding dimension the dataset carries.
    pub fn embedding_len_query(&self) -> (q: SqlQuery)
        ensures
            q.sql@ == crate::query_text::EMBEDDING_LEN@,
            param_values(q.params@) == seq![ParamValue::Text(self.parquet@)],
    {
        let mut params: Vec<SqlParam> = Vec::new();
        params.push(SqlParam::Text(self.parquet.clone()));
        assert(param_values(params@) =~= seq![ParamValue::Text(self.parquet@)]);
        SqlQuery { sql: owned(crate::query_text::EMBEDDING_LEN), params }
    }

    /// Reads the vector dimension of a sidecar at `path`.
    pub fn sidecar_len_query(path: &str) -> (q: SqlQuery)
        ensures
            q.sql@ == crate::query_text::SIDECAR_LEN@,
            param_values(q.params@) == seq![ParamValue::Text(path@)],
    {
        let mut params: Vec<SqlParam> = Vec::new();
        params.push(SqlParam::Text(owned(path)));
        assert(param_values(params@) =~= seq![ParamValue::Text(path@)]);
        SqlQuery { sql: owned(crate::query_text::SIDECAR_LEN), params }
    }

    /// The attached sidecar's dimension, or `None` when semantic search runs the
    /// brute-force full-embedding scan.
    pub fn semantic_index_dim(&self) -> (r: Option<usize>)
        ensures
            r == match self.sidecar {
                Some(s) => Some(s.dim),
                None => None,
            },
    {
        match &self.sidecar {
            Some(sidecar) => Some(sidecar.dim),
            None => None,
        }
    }

    /// Attaches the sidecar at `path`, whose vectors were read to have `dim`
    /// dimensions. A dimension that is not a positive size is refused here,
    /// rather than surfacing on the first semantic query, and nothing changes.
    pub fn attach_sidecar(&mut self, path: String, dim: i64) -> (r: Result<(), DimensionOutOfRange>)
        ensures
            final(self).parquet == old(self).parquet,
            match size_of_i64(dim) {
                Some(d) if d > 0 => r is Ok && (final(self).sidecar matches Some(s) && s.path@
                    == path@ && s.dim == d),
                _ => r matches Err(e) && e.value == dim && final(self).sidecar == old(
                    self,
                ).sidecar,
            },
    {
        match usize_from_i64(dim) {
            Some(d) => {
                if d == 0 {
                    return Err(DimensionOutOfRange { value: dim });
                }
                self.sidecar = Some(Sidecar { path, dim: d });
                Ok(())
            },
            None => Err(DimensionOutOfRange { value: dim }),
        }
    }

    /// The export that builds a sidecar at `out` with `dim`-dimensional vectors.
    pub fn sidecar_copy_sql(&self, out: &str, dim: usize) -> (r: String)
        ensures
            r@ == copy_sql(self.parquet@, out@, dim as nat),
    {
        let mut sql = owned(COPY_OPEN);
        let d = decimal_string(dim);
        append(&mut sql, d.as_str());
        append(&mut sql, VECTOR_TYPE);
        append(&mut sql, d.as_str());
        append(&mut sql, COPY_FROM);
        let main = sql_quote(self.parquet.as_str());
        append(&mut sql, main.as_str());
        append(&mut sql, COPY_TO);
        let o = sql_quote(out);
        append(&mut sql, o.as_str());
        append(&mut sql, COPY_END);
        sql
    }

    /// Searches deduplicated jobs matching `criteria`: up to `limit` rows by id,
    /// each carrying the total match count.
    pub fn search_query(&self, criteria: &Criteria, limit: usize) -> (q: SqlQuery)
        ensures
            q.sql@ == search_sql(filters_spec(*criteria), limit as nat),
            param_values(q.params@) == seq![ParamValue::Text(self.parquet@)] + filter_params_spec(
                *criteria,
            ),
    {
        let mut params: Vec<SqlParam> = Vec::new();
        params.push(SqlParam::Text(self.parquet.clone()));
        assert(param_values(params@) =~= seq![ParamValue::Text(self.parquet@)]);
        let filters = collect_filters(criteria, &mut params);
        let mut sql = owned(SEARCH_OPEN);
        append(&mut sql, DEDUP_RANK);
        let w = where_clause(&filters);
        append(&mut sql, w.as_str());
        append(&mut sql, SEARCH_SELECT);
        append(&mut sql, JOB_FIELDS);
        append(&mut sql, SEARCH_END);
        let l = decimal_string(limit);
        append(&mut sql, l.as_str());
        SqlQuery { sql, params }
    }

    /// Counts the deduplicated roles matching `criteria`.
    pub fn count_query(&self, criteria: &Criteria) -> (q: SqlQuery)
        ensures
            q.sql@ == count_sql(filters_spec(*criteria)),
            param_values(q.params@) == seq![ParamValue::Text(self.parquet@)] + filter_params_spec(
                *criteria,
            ),
    {
        let mut params: Vec<SqlParam> = Vec::new();
        params.push(SqlParam::Text(self.parquet.clone()));
        assert(param_values(params@) =~= seq![ParamValue::Text(self.parquet@)]);
        let filters = collect_filters(criteria, &mut params);
        let mut sql = owned(COUNT_OPEN);
        append(&mut sql, DEDUP_RANK);
        let w = where_clause(&filters);
        append(&mut sql, w.as_str());
        append(&mut sql, COUNT_END);
        SqlQuery { sql, params }
    }

    /// Up to `limit` deduplicated candidate ids matching `criteria`, by id.
    pub fn candidate_ids_query(&self, criteria: &Criteria, limit: usize) -> (q: SqlQuery)
        ensures
            q.sql@ == candidates_sql(filters_spec(*criteria), limit as nat),
            param_values(q.params@) == seq![ParamValue::Text(self.parquet@)] + filter_params_spec(
                *criteria,
            ),
    {
        let mut params: Vec<SqlParam> = Vec::new();
        params.push(SqlParam::Text(self.parquet.clone()));
        assert(param_values(params@) =~= seq![ParamValue::Text(self.parquet@)]);
        let filters = collect_filters(criteria, &mut params);
        let mut sql = owned(COUNT_OPEN);
        append(&mut sql, CANDIDATES_ID);
        append(&mut sql, DEDUP_RANK);
        let w = where_clause(&filters);
        append(&mut sql, w.as_str());
        append(&mut sql, CANDIDATES_END);
        let l = decimal_string(limit);
        append(&mut sql, l.as_str());
        SqlQuery { sql, params }
    }

    /// One full job by dataset identifier.
    pub fn get_job_query(&self, id: &str) -> (q: SqlQuery)
        ensures
            q.sql@ == get_job_sql(),
            param_values(q.params@) == seq![
                ParamValue::Text(self.parquet@),
                ParamValue::Text(id@),
            ],
    {
        let mut params: Vec<SqlParam> = Vec::new();
        params.push(SqlParam::Text(self.parquet.clone()));
        params.push(SqlParam::Text(owned(id)));
        assert(param_values(params@) =~= seq![
            ParamValue::Text(self.parquet@),
            ParamValue::Text(id@),
        ]);
        let mut sql = owned(JOB_SELECT);
        append(&mut sql, JOB_FIELDS);
        append(&mut sql, GET_JOB_END);
        SqlQuery { sql, params }
    }

    /// The embeddings of `ids`: from the sidecar when one is attached, else the
    /// dataset's `jd_embedding`. No query for no ids.
    pub fn embeddings_query(&self, ids: &Vec<String>) -> (q: Option<SqlQuery>)
        ensures
            ids@.len() == 0 ==> q is None,
            ids@.len() > 0 ==> (q matches Some(q) && q.sql@ == embeddings_sql(
                vector_source(*self).1,
                ids@.len(),
            ) && param_values(q.params@) == seq![ParamValue::Text(vector_source(*self).0)]
                + texts(ids@)),
    {
        if ids.len() == 0 {
            return None;
        }
        let (source, column) = match &self.sidecar {
            Some(sidecar) => (sidecar.path.clone(), "vec"),
            None => (self.parquet.clone(), "jd_embedding"),
        };
        let mut params: Vec<SqlParam> = Vec::new();
        params.push(SqlParam::Text(source));
        let ghost start = param_values(params@);
        assert(start =~= seq![ParamValue::Text(vector_source(*self).0)]);
        let mut i: usize = 0;
        while i < ids.len()
            invariant
                i <= ids@.len(),
                param_values(params@) == start + texts(ids@.take(i as int)),
            decreases ids.len() - i,
        {
            let ghost prev = params@;
            let id = ids[i].clone();
            params.push(SqlParam::Text(id));
            assert(param_values(params@) =~= param_values(prev).push(
                ParamValue::Text(ids@[i as int]@),
            ));
            assert(texts(ids@.take(i + 1)) =~= texts(ids@.take(i as int)).push(
                ParamValue::Text(ids@[i as int]@),
            ));
            assert(param_values(params@) =~= start + texts(ids@.take(i + 1)));
            i = i + 1;
        }
        assert(ids@.take(ids@.len() as int) =~= ids@);
        let mut sql = owned(EMBEDDINGS_OPEN);
        append(&mut sql, column);
        append(&mut sql, EMBEDDINGS_FROM);
        let list = placeholder_list(ids.len());
        append(&mut sql, list.as_str());
        append(&mut sql, ")");
        Some(SqlQuery { sql, params })
    }

    /// Semantic search by the query vector whose components, rendered as text,
    /// are `terms`. Over the attached sidecar when there is one (the vector is
    /// truncated to its dimension), else the brute-force scan of all embeddings.
    /// No query for an empty vector.
    pub fn semantic_search_query(&self, terms: &Vec<String>, criteria: &Criteria, limit: usize) -> (q:
        Option<SqlQuery>)
        ensures
            terms@.len() == 0 ==> q is None,
            terms@.len() > 0 ==> (q matches Some(q) && match self.sidecar {
                Some(s) => q.sql@ == sidecar_sql(
                    join(first_terms(views(terms@), s.dim as nat), ", "@),
                    self.parquet@,
                    s.path@,
                    s.dim as nat,
                    filters_spec(*criteria),
                    limit as nat,
                ) && param_values(q.params@) == filter_params_spec(*criteria),
                None => q.sql@ == semantic_sql(
                    join(views(terms@), ", "@),
                    terms@.len(),
                    filters_spec(*criteria),
                    limit as nat,
                ) && param_values(q.params@) == seq![ParamValue::Text(self.parquet@)]
                    + filter_params_spec(*criteria),
            }),
    {
        if terms.len() == 0 {
            return None;
        }
        match &self.sidecar {
            Some(sidecar) => Some(self.sidecar_search_query(sidecar, terms, criteria, limit)),
            None => {
                let dim = terms.len();
                let literal = vector_literal(terms, dim);
                let mut params: Vec<SqlParam> = Vec::new();
                params.push(SqlParam::Text(self.parquet.clone()));
                assert(param_values(params@) =~= seq![ParamValue::Text(self.parquet@)]);
                let mut filters = collect_filters(criteria, &mut params);
                filters.push(owned(EMBEDDING_PRESENT));
                assert(views(filters@) =~= filters_spec(*criteria).push(EMBEDDING_PRESENT@));
                let d = decimal_string(dim);
                let mut sql = owned(VECTOR_OPEN);
                append(&mut sql, literal.as_str());
                append(&mut sql, VECTOR_TYPE);
                append(&mut sql, d.as_str());
                append(&mut sql, VECTOR_CLOSE);
                append(&mut sql, " ");
                append(&mut sql, JOB_SELECT);
                append(&mut sql, JOB_FIELDS);
                append(&mut sql, SIMILARITY_TITLE);
                append(&mut sql, d.as_str());
                append(&mut sql, SIMILARITY_JD);
                append(&mut sql, d.as_str());
                append(&mut sql, SIMILARITY_ALT);
                append(&mut sql, d.as_str());
                append(&mut sql, SIMILARITY_FROM);
                let w = where_clause(&filters);
                append(&mut sql, w.as_str());
                append(&mut sql, BEST_FIRST);
                let l = decimal_string(limit);
                append(&mut sql, l.as_str());
                assert(first_terms(views(terms@), dim as nat) == views(terms@));
                Some(SqlQuery { sql, params })
            },
        }
    }

    /// Fast semantic search over the attached `sidecar`: rank by cosine over its
    /// truncated vectors, then read full rows for just the top `limit`.
    fn sidecar_search_query(
        &self,
        sidecar: &Sidecar,
        terms: &Vec<String>,
        criteria: &Criteria,
        limit: usize,
    ) -> (q: SqlQuery)
        ensures
            q.sql@ == sidecar_sql(
                join(first_terms(views(terms@), sidecar.dim as nat), ", "@),
                self.parquet@,
                sidecar.path@,
                sidecar.dim as nat,
                filters_spec(*criteria),
                limit as nat,
            ),
            param_values(q.params@) == filter_params_spec(*criteria),
    {
        let dim = sidecar.dim;
        let literal = vector_literal(terms, dim);
        let main = sql_quote(self.parquet.as_str());
        let side = sql_quote(sidecar.path.as_str());
        let mut params: Vec<SqlParam> = Vec::new();
        assert(param_values(params@) =~= Seq::<ParamValue>::empty());
        let filters = collect_filters(criteria, &mut params);
        assert(param_values(params@) =~= filter_params_spec(*criteria));
        let d = decimal_string(dim);
        let l = decimal_string(limit);
        let ranked = if filters.len() == 0 {
            let mut r = owned(SIDECAR_RANK_OPEN);
            append(&mut r, d.as_str());
            append(&mut r, SIDECAR_RANK_FROM);
            append(&mut r, side.as_str());
            append(&mut r, SIDECAR_RANK_END);
            append(&mut r, l.as_str());
            r
        } else {
            let mut r = owned(JOINED_RANK_OPEN);
            append(&mut r, d.as_str());
            append(&mut r, SIDECAR_RANK_FROM);
            append(&mut r, main.as_str());
            append(&mut r, JOINED_RANK_JOIN);
            append(&mut r, side.as_str());
            append(&mut r, JOINED_RANK_WHERE);
            let joined = join_strings(&filters, " AND ");
            append(&mut r, joined.as_str());
            append(&mut r, BEST_FIRST);
            append(&mut r, l.as_str());
            r
        };
        let mut sql = owned(VECTOR_OPEN);
        append(&mut sql, literal.as_str());
        append(&mut sql, VECTOR_TYPE);
        append(&mut sql, d.as_str());
        append(&mut sql, VECTOR_CLOSE);
        append(&mut sql, RANKED_OPEN);
        append(&mut sql, ranked.as_str());
        append(&mut sql, RANKED_SELECT);
        append(&mut sql, JOINED_JOB_FIELDS);
        append(&mut sql, RANKED_FROM);
        append(&mut sql, main.as_str());
        append(&mut sql, RANKED_END);
        SqlQuery { sql, params }
    }
}

} // verus!
