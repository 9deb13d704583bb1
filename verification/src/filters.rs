//! The hard-filter `WHERE` fragments of a search and the bind parameters that
//! go with them. User-supplied filter values are never inlined into SQL text:
//! each one is bound to a `?` placeholder, in order.
use vstd::prelude::*;

use crate::criteria::{has_freshness, Criteria};
use crate::text::{
    append, count_all, count_char, count_upto, is_blank, join, join_strings,
    lemma_count_all_concat, lemma_count_all_copies, lemma_count_concat, lemma_count_join, owned,
    to_lowercase, trim_seq, unicode_lower, views,
};

verus! {

/// A bind parameter of a query.
#[derive(Debug, Clone)]
pub enum SqlParam {
    /// A text value.
    Text(String),
    /// A double, held as its IEEE-754 bit pattern (`f64::to_bits`).
    Double(u64),
}

/// The value a bind parameter carries.
pub enum ParamValue {
    /// A text value.
    Text(Seq<char>),
    /// A double, as its IEEE-754 bit pattern.
    Double(u64),
}

impl SqlParam {
    /// The value this parameter binds.
    pub open spec fn value(&self) -> ParamValue {
        match self {
            SqlParam::Text(s) => ParamValue::Text(s@),
            SqlParam::Double(b) => ParamValue::Double(*b),
        }
    }
}

/// The values a sequence of parameters binds, in order.
pub open spec fn param_values(ps: Seq<SqlParam>) -> Seq<ParamValue> {
    ps.map_values(|p: SqlParam| p.value())
}

/// Text parameters for each of `vs`, in order.
pub open spec fn texts(vs: Seq<String>) -> Seq<ParamValue> {
    vs.map_values(|s: String| ParamValue::Text(s@))
}

/// Text parameters for the lowercase of each of `vs`, in order.
pub open spec fn lowered_texts(vs: Seq<String>) -> Seq<ParamValue> {
    vs.map_values(|s: String| ParamValue::Text(unicode_lower(s@)))
}

/// One fragment when `present`, none otherwise.
pub open spec fn fragment_if(present: bool, f: Seq<char>) -> Seq<Seq<char>> {
    if present {
        seq![f]
    } else {
        Seq::empty()
    }
}

/// `n` placeholders separated by commas: `?, ?, ?`.
pub open spec fn placeholders(n: nat) -> Seq<char> {
    join(Seq::new(n, |i: int| "?"@), ", "@)
}

/// `column IN (?, …, ?)` with `n` placeholders.
pub open spec fn exact_fragment(column: Seq<char>, n: nat) -> Seq<char> {
    column + " IN ("@ + placeholders(n) + ")"@
}

/// One case-insensitive substring test on `expression`.
pub open spec fn contains_test(expression: Seq<char>) -> Seq<char> {
    "contains(lower("@ + expression + "), ?)"@
}

/// `n` substring tests on `expression`, ORed together in parentheses.
pub open spec fn substring_fragment(expression: Seq<char>, n: nat) -> Seq<char> {
    "("@ + join(Seq::new(n, |i: int| contains_test(expression)), " OR "@) + ")"@
}

/// The job function column.
pub const FUNCTION_COLUMN: &'static str = "coalesce(\"function\", '')";

/// The seniority level column.
pub const LEVEL_COLUMN: &'static str = "coalesce(level, '')";

/// The text that title terms are searched in.
pub const TITLE_EXPRESSION: &'static str = "coalesce(title, '')";

/// The text that company terms are searched in.
pub const COMPANY_EXPRESSION: &'static str = "concat_ws(' ', company_name, company)";

/// The text that city terms are searched in.
pub const CITY_EXPRESSION: &'static str = "concat_ws(' ', city, region, location)";

/// The country test: the role's country, or a US-scoped remote role when the
/// requested country is `US`. It binds the country twice.
pub const COUNTRY_FILTER: &'static str = "(upper(coalesce(country_code, '')) = upper(?) OR (upper(?) = 'US' AND lower(coalesce(remote_scope, '')) IN ('us-only', 'us-canada')))";

/// The compensation floor test, which keeps roles of unknown compensation.
pub const COMP_FILTER: &'static str = "(coalesce(salary_max_k, -1) = -1 OR salary_max_k >= ?)";

/// The freshness test. An unparseable date yields NULL, which fails the
/// comparison, so undated roles are excluded.
pub const POSTED_FILTER: &'static str = "try_cast(posted_at AS TIMESTAMPTZ) >= try_cast(? AS TIMESTAMPTZ)";

/// The `WHERE` fragments for `c`, in the order they are built.
pub open spec fn filters_spec(c: Criteria) -> Seq<Seq<char>> {
    fragment_if(c.functions@.len() > 0, exact_fragment(FUNCTION_COLUMN@, c.functions@.len()))
        + fragment_if(c.levels@.len() > 0, exact_fragment(LEVEL_COLUMN@, c.levels@.len()))
        + fragment_if(c.titles@.len() > 0, substring_fragment(TITLE_EXPRESSION@, c.titles@.len()))
        + fragment_if(
        c.companies@.len() > 0,
        substring_fragment(COMPANY_EXPRESSION@, c.companies@.len()),
    ) + fragment_if(c.country is Some, COUNTRY_FILTER@) + fragment_if(
        c.cities@.len() > 0,
        substring_fragment(CITY_EXPRESSION@, c.cities@.len()),
    ) + fragment_if(c.min_comp is Some, COMP_FILTER@) + fragment_if(
        has_freshness(c),
        POSTED_FILTER@,
    )
}

/// The country parameters: the code, twice.
pub open spec fn country_params(c: Criteria) -> Seq<ParamValue> {
    match c.country {
        Some(code) => seq![ParamValue::Text(code@), ParamValue::Text(code@)],
        None => Seq::empty(),
    }
}

/// The compensation floor parameter.
pub open spec fn comp_params(c: Criteria) -> Seq<ParamValue> {
    match c.min_comp {
        Some(bits) => seq![ParamValue::Double(bits)],
        None => Seq::empty(),
    }
}

/// The freshness threshold parameter (the threshold as given, untrimmed).
pub open spec fn freshness_params(c: Criteria) -> Seq<ParamValue> {
    match c.posted_after {
        Some(a) => if trim_seq(a@).len() > 0 {
            seq![ParamValue::Text(a@)]
        } else {
            Seq::empty()
        },
        None => Seq::empty(),
    }
}

/// The bind parameters of [`filters_spec`], in placeholder order.
pub open spec fn filter_params_spec(c: Criteria) -> Seq<ParamValue> {
    texts(c.functions@) + texts(c.levels@) + lowered_texts(c.titles@) + lowered_texts(
        c.companies@,
    ) + country_params(c) + lowered_texts(c.cities@) + comp_params(c) + freshness_params(c)
}

/// The `WHERE` clause for a list of fragments: empty when there is none.
pub open spec fn where_spec(filters: Seq<Seq<char>>) -> Seq<char> {
    if filters.len() == 0 {
        Seq::empty()
    } else {
        "WHERE "@ + join(filters, " AND "@)
    }
}

/// `?, ?, …` with `n` placeholders.
pub fn placeholder_list(n: usize) -> (r: String)
    ensures
        r@ == placeholders(n as nat),
{
    let mut r = String::new();
    let mut i: usize = 0;
    while i < n
        invariant
            i <= n,
            r@ == placeholders(i as nat),
        decreases n - i,
    {
        if i > 0 {
            append(&mut r, ", ");
        }
        append(&mut r, "?");
        assert(Seq::new((i + 1) as nat, |k: int| "?"@).drop_last() =~= Seq::new(
            i as nat,
            |k: int| "?"@,
        ));
        i = i + 1;
        assert(r@ =~= placeholders(i as nat));
    }
    r
}

/// Adds an exact-match `IN` filter on `column` for `values`, when there is any.
pub fn add_exact_filter(
    filters: &mut Vec<String>,
    parameters: &mut Vec<SqlParam>,
    column: &str,
    values: &Vec<String>,
)
    ensures
        views(final(filters)@) == views(old(filters)@) + fragment_if(
            values@.len() > 0,
            exact_fragment(column@, values@.len()),
        ),
        param_values(final(parameters)@) == param_values(old(parameters)@) + texts(values@),
{
    if values.len() == 0 {
        assert(views(filters@) =~= views(filters@) + Seq::<Seq<char>>::empty());
        assert(param_values(parameters@) =~= param_values(parameters@) + texts(values@));
        return;
    }
    let mut fragment = owned(column);
    append(&mut fragment, " IN (");
    let list = placeholder_list(values.len());
    append(&mut fragment, list.as_str());
    append(&mut fragment, ")");
    let ghost before = views(filters@);
    filters.push(fragment);
    assert(views(filters@) =~= before + seq![exact_fragment(column@, values@.len())]);
    let ghost start = param_values(parameters@);
    let mut i: usize = 0;
    while i < values.len()
        invariant
            i <= values@.len(),
            param_values(parameters@) == start + texts(values@.take(i as int)),
        decreases values.len() - i,
    {
        let ghost prev = parameters@;
        let v = values[i].clone();
        parameters.push(SqlParam::Text(v));
        assert(param_values(parameters@) =~= param_values(prev).push(
            ParamValue::Text(values@[i as int]@),
        ));
        assert(texts(values@.take(i + 1)) =~= texts(values@.take(i as int)).push(
            ParamValue::Text(values@[i as int]@),
        ));
        assert(param_values(parameters@) =~= start + texts(values@.take(i + 1)));
        i = i + 1;
    }
    assert(values@.take(values@.len() as int) =~= values@);
}

/// Adds a case-insensitive substring filter on `expression`: the terms are
/// lowercased and ORed together. Nothing is added for no terms.
pub fn add_substring_filter(
    filters: &mut Vec<String>,
    parameters: &mut Vec<SqlParam>,
    expression: &str,
    values: &Vec<String>,
)
    ensures
        views(final(filters)@) == views(old(filters)@) + fragment_if(
            values@.len() > 0,
            substring_fragment(expression@, values@.len()),
        ),
        param_values(final(parameters)@) == param_values(old(parameters)@) + lowered_texts(
            values@,
        ),
{
    if values.len() == 0 {
        assert(views(filters@) =~= views(filters@) + Seq::<Seq<char>>::empty());
        assert(param_values(parameters@) =~= param_values(parameters@) + lowered_texts(values@));
        return;
    }
    let ghost start = param_values(parameters@);
    let mut tests: Vec<String> = Vec::new();
    let mut i: usize = 0;
    while i < values.len()
        invariant
            i <= values@.len(),
            param_values(parameters@) == start + lowered_texts(values@.take(i as int)),
            views(tests@) == Seq::new(i as nat, |k: int| contains_test(expression@)),
        decreases values.len() - i,
    {
        let ghost prev = parameters@;
        let ghost prev_tests = views(tests@);
        parameters.push(SqlParam::Text(to_lowercase(values[i].as_str())));
        assert(param_values(parameters@) =~= param_values(prev).push(
            ParamValue::Text(unicode_lower(values@[i as int]@)),
        ));
        let mut test = owned("contains(lower(");
        append(&mut test, expression);
        append(&mut test, "), ?)");
        assert(test@ == contains_test(expression@));
        tests.push(test);
        assert(views(tests@) =~= prev_tests.push(contains_test(expression@)));
        assert(lowered_texts(values@.take(i + 1)) =~= lowered_texts(values@.take(i as int)).push(
            ParamValue::Text(unicode_lower(values@[i as int]@)),
        ));
        assert(param_values(parameters@) =~= start + lowered_texts(values@.take(i + 1)));
        assert(views(tests@) =~= Seq::new((i + 1) as nat, |k: int| contains_test(expression@)));
        i = i + 1;
    }
    assert(values@.take(values@.len() as int) =~= values@);
    let joined = join_strings(&tests, " OR ");
    let mut fragment = owned("(");
    append(&mut fragment, joined.as_str());
    append(&mut fragment, ")");
    let ghost before = views(filters@);
    filters.push(fragment);
    assert(views(filters@) =~= before + seq![substring_fragment(expression@, values@.len())]);
}

#[verifier::rlimit(50)]
#[verifier::spinoff_prover]
/// Builds the shared hard-filter `WHERE` fragments for `criteria`, pushing their
/// bind parameters onto `parameters` after whatever it already holds.
pub fn collect_filters(criteria: &Criteria, parameters: &mut Vec<SqlParam>) -> (filters: Vec<
    String,
>)
    ensures
        views(filters@) == filters_spec(*criteria),
        param_values(final(parameters)@) == param_values(old(parameters)@) + filter_params_spec(
            *criteria,
        ),
{
    let mut filters: Vec<String> = Vec::new();
    let ghost p0 = param_values(parameters@);
    add_exact_filter(&mut filters, parameters, FUNCTION_COLUMN, &criteria.functions);
    assert(views(filters@) =~= fragment_if(
        criteria.functions@.len() > 0,
        exact_fragment(FUNCTION_COLUMN@, criteria.functions@.len()),
    ));
    add_exact_filter(&mut filters, parameters, LEVEL_COLUMN, &criteria.levels);
    add_substring_filter(&mut filters, parameters, TITLE_EXPRESSION, &criteria.titles);
    add_substring_filter(&mut filters, parameters, COMPANY_EXPRESSION, &criteria.companies);
    let ghost f4 = views(filters@);
    let ghost p4 = param_values(parameters@);
    match &criteria.country {
        Some(country) => {
            filters.push(owned(COUNTRY_FILTER));
            parameters.push(SqlParam::Text(country.clone()));
            parameters.push(SqlParam::Text(country.clone()));
        },
        None => {},
    }
    assert(views(filters@) =~= f4 + fragment_if(criteria.country is Some, COUNTRY_FILTER@));
    assert(param_values(parameters@) =~= p4 + country_params(*criteria));
    add_substring_filter(&mut filters, parameters, CITY_EXPRESSION, &criteria.cities);
    let ghost f6 = views(filters@);
    let ghost p6 = param_values(parameters@);
    match criteria.min_comp {
        Some(bits) => {
            filters.push(owned(COMP_FILTER));
            parameters.push(SqlParam::Double(bits));
        },
        None => {},
    }
    assert(views(filters@) =~= f6 + fragment_if(criteria.min_comp is Some, COMP_FILTER@));
    assert(param_values(parameters@) =~= p6 + comp_params(*criteria));
    let ghost f7 = views(filters@);
    let ghost p7 = param_values(parameters@);
    match &criteria.posted_after {
        Some(after) => {
            if !is_blank(after.as_str()) {
                filters.push(owned(POSTED_FILTER));
                parameters.push(SqlParam::Text(after.clone()));
            }
        },
        None => {},
    }
    assert(views(filters@) =~= f7 + fragment_if(has_freshness(*criteria), POSTED_FILTER@));
    assert(param_values(parameters@) =~= p7 + freshness_params(*criteria));
    proof {
        lemma_filter_params_chain(p0, *criteria);
    }
    filters
}

proof fn lemma_filter_params_chain(p0: Seq<ParamValue>, c: Criteria)
    ensures
        p0 + texts(c.functions@) + texts(c.levels@) + lowered_texts(c.titles@) + lowered_texts(
            c.companies@,
        ) + country_params(c) + lowered_texts(c.cities@) + comp_params(c) + freshness_params(c)
            == p0 + filter_params_spec(c),
{
    assert(p0 + texts(c.functions@) + texts(c.levels@) + lowered_texts(c.titles@) + lowered_texts(
        c.companies@,
    ) + country_params(c) + lowered_texts(c.cities@) + comp_params(c) + freshness_params(c)
        =~= p0 + filter_params_spec(c));
}

// ---------------------------------------------------------------------------
// Placeholders and parameters
// ---------------------------------------------------------------------------

proof fn lemma_count_function_column()
    ensures
        count_char(FUNCTION_COLUMN@, '?') == 0,
{
    reveal_with_fuel(count_upto, 45);
    reveal_strlit("coalesce(\"function\", '')");
    assert(FUNCTION_COLUMN@ == "coalesce(\"function\", '')"@);
    assert(FUNCTION_COLUMN@.len() == 24);
    assert(count_upto(FUNCTION_COLUMN@, '?', 24) == 0);
}

proof fn lemma_count_level_column()
    ensures
        count_char(LEVEL_COLUMN@, '?') == 0,
{
    reveal_with_fuel(count_upto, 45);
    reveal_strlit("coalesce(level, '')");
    assert(LEVEL_COLUMN@ == "coalesce(level, '')"@);
    assert(LEVEL_COLUMN@.len() == 19);
    assert(count_upto(LEVEL_COLUMN@, '?', 19) == 0);
}

proof fn lemma_count_title_expression()
    ensures
        count_char(TITLE_EXPRESSION@, '?') == 0,
{
    reveal_with_fuel(count_upto, 45);
    reveal_strlit("coalesce(title, '')");
    assert(TITLE_EXPRESSION@ == "coalesce(title, '')"@);
    assert(TITLE_EXPRESSION@.len() == 19);
    assert(count_upto(TITLE_EXPRESSION@, '?', 19) == 0);
}

proof fn lemma_count_company_expression()
    ensures
        count_char(COMPANY_EXPRESSION@, '?') == 0,
{
    reveal_with_fuel(count_upto, 45);
    reveal_strlit("concat_ws(' ', company_name, company)");
    assert(COMPANY_EXPRESSION@ == "concat_ws(' ', company_name, company)"@);
    assert(COMPANY_EXPRESSION@.len() == 37);
    assert(count_upto(COMPANY_EXPRESSION@, '?', 37) == 0);
}

proof fn lemma_count_city_expression()
    ensures
        count_char(CITY_EXPRESSION@, '?') == 0,
{
    reveal_with_fuel(count_upto, 45);
    reveal_strlit("concat_ws(' ', city, region, location)");
    assert(CITY_EXPRESSION@ == "concat_ws(' ', city, region, location)"@);
    assert(CITY_EXPRESSION@.len() == 38);
    assert(count_upto(CITY_EXPRESSION@, '?', 38) == 0);
}

proof fn lemma_count_country_filter()
    ensures
        count_char(COUNTRY_FILTER@, '?') == 2,
{
    reveal_with_fuel(count_upto, 45);
    reveal_strlit("(upper(coalesce(country_code, '')) = upper(?) OR (upper(?) = 'US' AND lower(coalesce(remote_scope, '')) IN ('us-only', 'us-canada')))");
    assert(COUNTRY_FILTER@ == "(upper(coalesce(country_code, '')) = upper(?) OR (upper(?) = 'US' AND lower(coalesce(remote_scope, '')) IN ('us-only', 'us-canada')))"@);
    assert(COUNTRY_FILTER@.len() == 133);
    assert(count_upto(COUNTRY_FILTER@, '?', 40) == 0);
    assert(count_upto(COUNTRY_FILTER@, '?', 80) == 2);
    assert(count_upto(COUNTRY_FILTER@, '?', 120) == 2);
    assert(count_upto(COUNTRY_FILTER@, '?', 133) == 2);
}

proof fn lemma_count_comp_filter()
    ensures
        count_char(COMP_FILTER@, '?') == 1,
{
    reveal_with_fuel(count_upto, 45);
    reveal_strlit("(coalesce(salary_max_k, -1) = -1 OR salary_max_k >= ?)");
    assert(COMP_FILTER@ == "(coalesce(salary_max_k, -1) = -1 OR salary_max_k >= ?)"@);
    assert(COMP_FILTER@.len() == 54);
    assert(count_upto(COMP_FILTER@, '?', 40) == 0);
    assert(count_upto(COMP_FILTER@, '?', 54) == 1);
}

proof fn lemma_count_posted_filter()
    ensures
        count_char(POSTED_FILTER@, '?') == 1,
{
    reveal_with_fuel(count_upto, 45);
    reveal_strlit("try_cast(posted_at AS TIMESTAMPTZ) >= try_cast(? AS TIMESTAMPTZ)");
    assert(POSTED_FILTER@ == "try_cast(posted_at AS TIMESTAMPTZ) >= try_cast(? AS TIMESTAMPTZ)"@);
    assert(POSTED_FILTER@.len() == 64);
    assert(count_upto(POSTED_FILTER@, '?', 40) == 0);
    assert(count_upto(POSTED_FILTER@, '?', 64) == 1);
}

/// The placeholder counts of the fixed pieces of filter text.
pub proof fn lemma_filter_text_counts()
    ensures
        count_char(FUNCTION_COLUMN@, '?') == 0,
        count_char(LEVEL_COLUMN@, '?') == 0,
        count_char(TITLE_EXPRESSION@, '?') == 0,
        count_char(COMPANY_EXPRESSION@, '?') == 0,
        count_char(CITY_EXPRESSION@, '?') == 0,
        count_char(COUNTRY_FILTER@, '?') == 2,
        count_char(COMP_FILTER@, '?') == 1,
        count_char(POSTED_FILTER@, '?') == 1,
        count_char(" IN ("@, '?') == 0,
        count_char(")"@, '?') == 0,
        count_char("("@, '?') == 0,
        count_char("?"@, '?') == 1,
        count_char(", "@, '?') == 0,
        count_char(" OR "@, '?') == 0,
        count_char(" AND "@, '?') == 0,
        count_char("WHERE "@, '?') == 0,
        count_char("contains(lower("@, '?') == 0,
        count_char("), ?)"@, '?') == 1,
{
    reveal_with_fuel(count_upto, 45);
    lemma_count_function_column();
    lemma_count_level_column();
    lemma_count_title_expression();
    lemma_count_company_expression();
    lemma_count_city_expression();
    lemma_count_country_filter();
    lemma_count_comp_filter();
    lemma_count_posted_filter();
    reveal_strlit(" IN (");
    assert(" IN ("@.len() == 5);
    assert(count_upto(" IN ("@, '?', 5) == 0);
    reveal_strlit(")");
    assert(")"@.len() == 1);
    assert(count_upto(")"@, '?', 1) == 0);
    reveal_strlit("(");
    assert("("@.len() == 1);
    assert(count_upto("("@, '?', 1) == 0);
    reveal_strlit("?");
    assert("?"@.len() == 1);
    assert(count_upto("?"@, '?', 1) == 1);
    reveal_strlit(", ");
    assert(", "@.len() == 2);
    assert(count_upto(", "@, '?', 2) == 0);
    reveal_strlit(" OR ");
    assert(" OR "@.len() == 4);
    assert(count_upto(" OR "@, '?', 4) == 0);
    reveal_strlit(" AND ");
    assert(" AND "@.len() == 5);
    assert(count_upto(" AND "@, '?', 5) == 0);
    reveal_strlit("WHERE ");
    assert("WHERE "@.len() == 6);
    assert(count_upto("WHERE "@, '?', 6) == 0);
    reveal_strlit("contains(lower(");
    assert("contains(lower("@.len() == 15);
    assert(count_upto("contains(lower("@, '?', 15) == 0);
    reveal_strlit("), ?)");
    assert("), ?)"@.len() == 5);
    assert(count_upto("), ?)"@, '?', 5) == 1);
}


/// `n` comma-separated placeholders hold `n` of them.
pub proof fn lemma_placeholders_count(n: nat)
    ensures
        count_char(placeholders(n), '?') == n,
{
    lemma_filter_text_counts();
    lemma_count_join(Seq::new(n, |i: int| "?"@), ", "@, '?');
    lemma_count_all_copies("?"@, n, '?');
}

/// An exact-match fragment holds one placeholder per value.
pub proof fn lemma_exact_fragment_count(column: Seq<char>, n: nat)
    requires
        count_char(column, '?') == 0,
    ensures
        count_char(exact_fragment(column, n), '?') == n,
{
    lemma_filter_text_counts();
    lemma_placeholders_count(n);
    lemma_count_concat(column, " IN ("@, '?');
    lemma_count_concat(column + " IN ("@, placeholders(n), '?');
    lemma_count_concat(column + " IN ("@ + placeholders(n), ")"@, '?');
}

/// A substring fragment holds one placeholder per term.
pub proof fn lemma_substring_fragment_count(expression: Seq<char>, n: nat)
    requires
        count_char(expression, '?') == 0,
    ensures
        count_char(substring_fragment(expression, n), '?') == n,
{
    lemma_filter_text_counts();
    let t = contains_test(expression);
    lemma_count_concat("contains(lower("@, expression, '?');
    lemma_count_concat("contains(lower("@ + expression, "), ?)"@, '?');
    lemma_count_all_copies(t, n, '?');
    let items = Seq::new(n, |i: int| t);
    lemma_count_join(items, " OR "@, '?');
    lemma_count_concat("("@, join(items, " OR "@), '?');
    lemma_count_concat("("@ + join(items, " OR "@), ")"@, '?');
}

proof fn lemma_count_fragment_if(present: bool, f: Seq<char>)
    ensures
        count_all(fragment_if(present, f), '?') == if present {
            count_char(f, '?')
        } else {
            0
        },
{
    let fs = fragment_if(present, f);
    if present {
        assert(fs.drop_last() =~= Seq::<Seq<char>>::empty());
        assert(count_all(fs.drop_last(), '?') == 0);
        assert(fs.last() == f);
    } else {
        assert(fs.len() == 0);
    }
}

/// Every placeholder in the `WHERE` clause built for any criteria has exactly
/// one bind parameter: the clause holds as many `?` as there are parameters,
/// so the two lists cannot drift apart.
pub proof fn law_where_placeholders_match_parameters(c: Criteria)
    ensures
        count_char(where_spec(filters_spec(c)), '?') == filter_params_spec(c).len(),
{
    lemma_filter_text_counts();
    let f1 = fragment_if(c.functions@.len() > 0, exact_fragment(FUNCTION_COLUMN@, c.functions@.len()));
    let f2 = fragment_if(c.levels@.len() > 0, exact_fragment(LEVEL_COLUMN@, c.levels@.len()));
    let f3 = fragment_if(c.titles@.len() > 0, substring_fragment(TITLE_EXPRESSION@, c.titles@.len()));
    let f4 = fragment_if(
        c.companies@.len() > 0,
        substring_fragment(COMPANY_EXPRESSION@, c.companies@.len()),
    );
    let f5 = fragment_if(c.country is Some, COUNTRY_FILTER@);
    let f6 = fragment_if(c.cities@.len() > 0, substring_fragment(CITY_EXPRESSION@, c.cities@.len()));
    let f7 = fragment_if(c.min_comp is Some, COMP_FILTER@);
    let f8 = fragment_if(has_freshness(c), POSTED_FILTER@);
    lemma_exact_fragment_count(FUNCTION_COLUMN@, c.functions@.len());
    lemma_exact_fragment_count(LEVEL_COLUMN@, c.levels@.len());
    lemma_substring_fragment_count(TITLE_EXPRESSION@, c.titles@.len());
    lemma_substring_fragment_count(COMPANY_EXPRESSION@, c.companies@.len());
    lemma_substring_fragment_count(CITY_EXPRESSION@, c.cities@.len());
    lemma_count_fragment_if(c.functions@.len() > 0, exact_fragment(FUNCTION_COLUMN@, c.functions@.len()));
    lemma_count_fragment_if(c.levels@.len() > 0, exact_fragment(LEVEL_COLUMN@, c.levels@.len()));
    lemma_count_fragment_if(c.titles@.len() > 0, substring_fragment(TITLE_EXPRESSION@, c.titles@.len()));
    lemma_count_fragment_if(
        c.companies@.len() > 0,
        substring_fragment(COMPANY_EXPRESSION@, c.companies@.len()),
    );
    lemma_count_fragment_if(c.country is Some, COUNTRY_FILTER@);
    lemma_count_fragment_if(c.cities@.len() > 0, substring_fragment(CITY_EXPRESSION@, c.cities@.len()));
    lemma_count_fragment_if(c.min_comp is Some, COMP_FILTER@);
    lemma_count_fragment_if(has_freshness(c), POSTED_FILTER@);
    lemma_count_all_concat(f1, f2, '?');
    lemma_count_all_concat(f1 + f2, f3, '?');
    lemma_count_all_concat(f1 + f2 + f3, f4, '?');
    lemma_count_all_concat(f1 + f2 + f3 + f4, f5, '?');
    lemma_count_all_concat(f1 + f2 + f3 + f4 + f5, f6, '?');
    lemma_count_all_concat(f1 + f2 + f3 + f4 + f5 + f6, f7, '?');
    lemma_count_all_concat(f1 + f2 + f3 + f4 + f5 + f6 + f7, f8, '?');
    let fs = filters_spec(c);
    if fs.len() > 0 {
        lemma_count_join(fs, " AND "@, '?');
        lemma_count_concat("WHERE "@, join(fs, " AND "@), '?');
    } else {
        assert(count_all(fs, '?') == 0);
    }
}

/// A search runs unfiltered exactly when no filter is set, a blank freshness
/// threshold counting as none: empty criteria and no filter go together.
pub proof fn law_unfiltered_iff_no_filter_set(c: Criteria)
    ensures
        filters_spec(c).len() == 0 <==> (c.functions@.len() == 0 && c.levels@.len() == 0
            && c.titles@.len() == 0 && c.companies@.len() == 0 && c.country is None
            && c.cities@.len() == 0 && c.min_comp is None && !has_freshness(c)),
        c.spec_is_empty() <==> filters_spec(c).len() == 0,
{
}

/// The country filter binds the requested code at both of its placeholders,
/// right after the function, level, title and company parameters, so its
/// US-scoped remote clause applies only when the requested country is US.
pub proof fn law_country_filter_binds_the_requested_code(c: Criteria)
    ensures
        c.country matches Some(code) ==> ({
            let k: int = (c.functions@.len() + c.levels@.len() + c.titles@.len() + c.companies@.len()) as int;
            &&& filter_params_spec(c).len() >= k + 2
            &&& filter_params_spec(c)[k] == ParamValue::Text(code@)
            &&& filter_params_spec(c)[k + 1] == ParamValue::Text(code@)
        }),
{
    if let Some(code) = c.country {
        let head = texts(c.functions@) + texts(c.levels@) + lowered_texts(c.titles@)
            + lowered_texts(c.companies@);
        let k: int = (c.functions@.len() + c.levels@.len() + c.titles@.len() + c.companies@.len()) as int;
        assert(head.len() == k);
        let rest = lowered_texts(c.cities@) + comp_params(c) + freshness_params(c);
        assert(filter_params_spec(c) =~= head + seq![
            ParamValue::Text(code@),
            ParamValue::Text(code@),
        ] + rest);
        assert(filter_params_spec(c)[k] == ParamValue::Text(code@));
        assert(filter_params_spec(c)[k + 1] == ParamValue::Text(code@));
    }
}

/// The `WHERE` clause joining `filters` with `AND`, or nothing for no filter.
pub fn where_clause(filters: &Vec<String>) -> (r: String)
    ensures
        r@ == where_spec(views(filters@)),
{
    if filters.len() == 0 {
        String::new()
    } else {
        let mut r = owned("WHERE ");
        let joined = join_strings(filters, " AND ");
        append(&mut r, joined.as_str());
        r
    }
}

} // verus!
