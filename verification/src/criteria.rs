//! The hard eligibility filters of a job search.
use vstd::prelude::*;

use crate::text::{is_blank, trim_seq};

verus! {

/// Hard eligibility filters for a job search.
#[derive(Debug, Clone)]
pub struct Criteria {
    /// Accepted job functions.
    pub functions: Vec<String>,
    /// Accepted seniority levels.
    pub levels: Vec<String>,
    /// Title terms matched as case-insensitive substrings.
    pub titles: Vec<String>,
    /// Company terms matched across canonical and raw company names.
    pub companies: Vec<String>,
    /// City terms matched across city, region, and raw location.
    pub cities: Vec<String>,
    /// Required ISO alpha-2 country code.
    pub country: Option<String>,
    /// Annual compensation floor in thousands, held as the IEEE-754 bit pattern
    /// of the `f64` amount (`f64::to_bits`); the amount is only ever bound into a
    /// query, never computed with.
    pub min_comp: Option<u64>,
    /// Only roles posted on or after this RFC3339 timestamp (a freshness window).
    /// Roles with a missing or unparseable `posted_at` are excluded when set.
    pub posted_after: Option<String>,
}

/// The posted-after threshold is set and not blank: only then does it filter.
pub open spec fn has_freshness(c: Criteria) -> bool {
    c.posted_after matches Some(a) && trim_seq(a@).len() > 0
}

impl Criteria {
    /// No hard filter is set; a blank freshness threshold filters nothing.
    pub open spec fn spec_is_empty(&self) -> bool {
        &&& self.functions@.len() == 0
        &&& self.levels@.len() == 0
        &&& self.titles@.len() == 0
        &&& self.companies@.len() == 0
        &&& self.cities@.len() == 0
        &&& self.country is None
        &&& self.min_comp is None
        &&& !has_freshness(*self)
    }

    /// True when no hard filter is set — every role passes. A semantic search over
    /// empty criteria scans the whole corpus's embeddings.
    pub fn is_empty(&self) -> (r: bool)
        ensures
            r == self.spec_is_empty(),
    {
        self.functions.len() == 0 && self.levels.len() == 0 && self.titles.len() == 0
            && self.companies.len() == 0 && self.cities.len() == 0 && self.country.is_none()
            && self.min_comp.is_none() && match &self.posted_after {
            Some(a) => is_blank(a.as_str()),
            None => true,
        }
    }
}

impl Default for Criteria {
    /// Criteria with no filter set.
    fn default() -> (r: Self)
        ensures
            r.spec_is_empty(),
    {
        Criteria {
            functions: Vec::new(),
            levels: Vec::new(),
            titles: Vec::new(),
            companies: Vec::new(),
            cities: Vec::new(),
            country: None,
            min_comp: None,
            posted_after: None,
        }
    }
}

} // verus!
