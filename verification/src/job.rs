//! Job records and their compact search-row form.
use vstd::prelude::*;

verus! {

/// The IEEE-754 bit pattern of `-1.0f64`, the value that marks an unknown
/// salary.
pub const UNKNOWN_SALARY_BITS: u64 = 0xBFF0_0000_0000_0000u64;

/// A job record returned by search or retrieval.
///
/// Salaries are held as the IEEE-754 bit pattern of the `f64` amount in
/// thousands (`f64::to_bits`); [`UNKNOWN_SALARY_BITS`] marks an unknown one.
#[derive(Debug, Clone)]
pub struct Job {
    /// Dataset identifier.
    pub id: String,
    /// Canonical company name when available.
    pub company: String,
    /// Posted job title.
    pub title: String,
    /// Application URL.
    pub url: String,
    /// Extracted job function.
    pub function: String,
    /// Extracted job sub-function.
    pub sub_function: String,
    /// Extracted seniority level.
    pub level: String,
    /// Extracted work mode.
    pub work_mode: String,
    /// Extracted remote eligibility scope.
    pub remote_scope: String,
    /// Extracted ISO alpha-2 country code.
    pub country_code: String,
    /// Extracted minimum annual compensation in thousands (bit pattern).
    pub salary_min_k: u64,
    /// Extracted maximum annual compensation in thousands (bit pattern).
    pub salary_max_k: u64,
    /// Raw location string.
    pub location: String,
    /// Extracted city.
    pub city: String,
    /// Extracted region.
    pub region: String,
    /// One-line extracted role summary.
    pub role_summary: String,
    /// Full job description as Markdown.
    pub jd_markdown: String,
}

/// Token-shaped search row: enough to triage, without the full description.
#[derive(Debug)]
pub struct JobSummary {
    /// Dataset identifier; pass to `get_job` for the full record.
    pub id: String,
    /// Canonical company name.
    pub company: String,
    /// Posted job title.
    pub title: String,
    /// Raw location string.
    pub location: String,
    /// Extracted job function.
    pub function: String,
    /// Extracted seniority level.
    pub level: String,
    /// Extracted remote eligibility scope.
    pub remote_scope: String,
    /// Extracted minimum annual compensation in thousands (bit pattern; the
    /// bits of -1 if unknown).
    pub salary_min_k: u64,
    /// Extracted maximum annual compensation in thousands (bit pattern; the
    /// bits of -1 if unknown).
    pub salary_max_k: u64,
    /// One-line extracted role summary.
    pub role_summary: String,
    /// The only apply link — never fabricated.
    pub url: String,
}

/// The summary of a job: its triage fields, unchanged.
pub open spec fn summary_of(job: &Job) -> JobSummary {
    JobSummary {
        id: job.id,
        company: job.company,
        title: job.title,
        location: job.location,
        function: job.function,
        level: job.level,
        remote_scope: job.remote_scope,
        salary_min_k: job.salary_min_k,
        salary_max_k: job.salary_max_k,
        role_summary: job.role_summary,
        url: job.url,
    }
}

/// A job's summary row carries each of its triage fields unchanged, field by
/// field: the same id, company, title, location, function, level, remote
/// scope, minimum and maximum salary, role summary and apply link.
pub proof fn law_summary_keeps_each_field(job: Job)
    ensures
        summary_of(&job).id == job.id,
        summary_of(&job).company == job.company,
        summary_of(&job).title == job.title,
        summary_of(&job).location == job.location,
        summary_of(&job).function == job.function,
        summary_of(&job).level == job.level,
        summary_of(&job).remote_scope == job.remote_scope,
        summary_of(&job).salary_min_k == job.salary_min_k,
        summary_of(&job).salary_max_k == job.salary_max_k,
        summary_of(&job).role_summary == job.role_summary,
        summary_of(&job).url == job.url,
{
}

impl<'a> From<&'a Job> for JobSummary {
    fn from(job: &'a Job) -> (r: Self) {
        JobSummary {
            id: job.id.clone(),
            company: job.company.clone(),
            title: job.title.clone(),
            location: job.location.clone(),
            function: job.function.clone(),
            level: job.level.clone(),
            remote_scope: job.remote_scope.clone(),
            salary_min_k: job.salary_min_k,
            salary_max_k: job.salary_max_k,
            role_summary: job.role_summary.clone(),
            url: job.url.clone(),
        }
    }
}

impl<'a> vstd::std_specs::convert::FromSpecImpl<&'a Job> for JobSummary {
    open spec fn obeys_from_spec() -> bool {
        true
    }

    open spec fn from_spec(job: &'a Job) -> Self {
        summary_of(job)
    }
}

} // verus!
