//! Searching the backend's config instances.

use vstd::prelude::*;
use crate::http::pagination::Pagination;
use crate::http::search::{
    format_search_clause, format_search_group, spec_group_separator, spec_join, spec_search_clause, texts,
    LogicalOperator, SearchOperator,
};
use crate::models::config_instance::{
    spec_activity_status_str, spec_error_status_str, spec_target_status_str, ActivityStatus, ErrorStatus,
    TargetStatus,
};

verus! {

// ================================ SEARCH FILTERS ================================ //
#[derive(Debug)]
pub struct IDFilter {
    pub not: bool,
    pub op: SearchOperator,
    pub val: Vec<String>,
}

#[derive(Debug)]
pub struct ConfigSchemaIDFilter {
    pub not: bool,
    pub op: SearchOperator,
    pub val: Vec<String>,
}

#[derive(Debug)]
pub struct TargetStatusFilter {
    pub not: bool,
    pub op: SearchOperator,
    pub val: Vec<TargetStatus>,
}

#[derive(Debug)]
pub struct ActivityStatusFilter {
    pub not: bool,
    pub op: SearchOperator,
    pub val: Vec<ActivityStatus>,
}

#[derive(Debug)]
pub struct ErrorStatusFilter {
    pub not: bool,
    pub op: SearchOperator,
    pub val: Vec<ErrorStatus>,
}

#[derive(Debug)]
pub struct ConfigInstanceFilters {
    pub device_id: String,
    pub ids: Option<IDFilter>,
    pub config_schema_ids: Option<ConfigSchemaIDFilter>,
    pub target_statuses: Option<TargetStatusFilter>,
    pub activity_statuses: Option<ActivityStatusFilter>,
    pub error_statuses: Option<ErrorStatusFilter>,
}

/// Builds the filters of a search, one kind of filter at a time.
#[derive(Debug)]
pub struct ConfigInstanceFiltersBuilder {
    pub filters: ConfigInstanceFilters,
}

impl ConfigInstanceFiltersBuilder {
    /// Filters for the instances of the device, with nothing else set.
    pub fn new(device_id: String) -> (r: Self)
        ensures
            r.filters.device_id == device_id,
            r.filters.ids is None,
            r.filters.config_schema_ids is None,
            r.filters.target_statuses is None,
            r.filters.activity_statuses is None,
            r.filters.error_statuses is None,
    {
        Self {
            filters: ConfigInstanceFilters {
                device_id,
                ids: None,
                config_schema_ids: None,
                target_statuses: None,
                activity_statuses: None,
                error_statuses: None,
            },
        }
    }

    pub fn with_id_filter(self, id_filter: IDFilter) -> (r: Self)
        ensures
            r.filters == (ConfigInstanceFilters { ids: Some(id_filter), ..self.filters }),
    {
        let mut s = self;
        s.filters.ids = Some(id_filter);
        s
    }

    pub fn with_config_schema_id_filter(self, config_schema_id_filter: ConfigSchemaIDFilter) -> (r: Self)
        ensures
            r.filters == (ConfigInstanceFilters { config_schema_ids: Some(config_schema_id_filter), ..self.filters }),
    {
        let mut s = self;
        s.filters.config_schema_ids = Some(config_schema_id_filter);
        s
    }

    pub fn with_target_status_filter(self, target_status_filter: TargetStatusFilter) -> (r: Self)
        ensures
            r.filters == (ConfigInstanceFilters { target_statuses: Some(target_status_filter), ..self.filters }),
    {
        let mut s = self;
        s.filters.target_statuses = Some(target_status_filter);
        s
    }

    pub fn with_activity_status_filter(self, activity_status_filter: ActivityStatusFilter) -> (r: Self)
        ensures
            r.filters == (ConfigInstanceFilters { activity_statuses: Some(activity_status_filter), ..self.filters }),
    {
        let mut s = self;
        s.filters.activity_statuses = Some(activity_status_filter);
        s
    }

    pub fn with_error_status_filter(self, error_status_filter: ErrorStatusFilter) -> (r: Self)
        ensures
            r.filters == (ConfigInstanceFilters { error_statuses: Some(error_status_filter), ..self.filters }),
    {
        let mut s = self;
        s.filters.error_statuses = Some(error_status_filter);
        s
    }

    pub fn build(self) -> (r: ConfigInstanceFilters)
        ensures
            r == self.filters,
    {
        self.filters
    }
}

// ================================ SEARCH QUERY ================================== //
pub open spec fn target_status_texts(v: Seq<TargetStatus>) -> Seq<Seq<char>> {
    v.map_values(|s: TargetStatus| spec_target_status_str(s))
}

pub open spec fn activity_status_texts(v: Seq<ActivityStatus>) -> Seq<Seq<char>> {
    v.map_values(|s: ActivityStatus| spec_activity_status_str(s))
}

pub open spec fn error_status_texts(v: Seq<ErrorStatus>) -> Seq<Seq<char>> {
    v.map_values(|s: ErrorStatus| spec_error_status_str(s))
}

fn target_status_strings(v: &Vec<TargetStatus>) -> (r: Vec<String>)
    ensures
        texts(r@) == target_status_texts(v@),
{
    let mut r: Vec<String> = Vec::new();
    let mut i: usize = 0;
    while i < v.len()
        invariant
            0 <= i <= v@.len(),
            texts(r@) == target_status_texts(v@.take(i as int)),
        decreases v@.len() - i,
    {
        r.push(v[i].as_str().to_string());
        proof {
            assert(target_status_texts(v@.take(i + 1)) =~= target_status_texts(v@.take(i as int)).push(
                spec_target_status_str(v@[i as int]),
            ));
            assert(texts(r@) =~= texts(r@.drop_last()).push(r@.last()@));
        }
        i = i + 1;
    }
    proof {
        assert(v@.take(v@.len() as int) =~= v@);
    }
    r
}

fn activity_status_strings(v: &Vec<ActivityStatus>) -> (r: Vec<String>)
    ensures
        texts(r@) == activity_status_texts(v@),
{
    let mut r: Vec<String> = Vec::new();
    let mut i: usize = 0;
    while i < v.len()
        invariant
            0 <= i <= v@.len(),
            texts(r@) == activity_status_texts(v@.take(i as int)),
        decreases v@.len() - i,
    {
        r.push(v[i].as_str().to_string());
        proof {
            assert(activity_status_texts(v@.take(i + 1)) =~= activity_status_texts(v@.take(i as int)).push(
                spec_activity_status_str(v@[i as int]),
            ));
            assert(texts(r@) =~= texts(r@.drop_last()).push(r@.last()@));
        }
        i = i + 1;
    }
    proof {
        assert(v@.take(v@.len() as int) =~= v@);
    }
    r
}

fn error_status_strings(v: &Vec<ErrorStatus>) -> (r: Vec<String>)
    ensures
        texts(r@) == error_status_texts(v@),
{
    let mut r: Vec<String> = Vec::new();
    let mut i: usize = 0;
    while i < v.len()
        invariant
            0 <= i <= v@.len(),
            texts(r@) == error_status_texts(v@.take(i as int)),
        decreases v@.len() - i,
    {
        r.push(v[i].as_str().to_string());
        proof {
            assert(error_status_texts(v@.take(i + 1)) =~= error_status_texts(v@.take(i as int)).push(
                spec_error_status_str(v@[i as int]),
            ));
            assert(texts(r@) =~= texts(r@.drop_last()).push(r@.last()@));
        }
        i = i + 1;
    }
    proof {
        assert(v@.take(v@.len() as int) =~= v@);
    }
    r
}

/// The clauses of a config instance search: the identifiers (with their operator),
/// the device, then the schemas and the statuses (each compared for equality).
pub open spec fn spec_instance_clauses(f: ConfigInstanceFilters) -> Seq<Seq<char>> {
    (match f.ids {
        Some(x) => seq![spec_search_clause("id"@, x.op, texts(x.val@), x.not)],
        None => Seq::empty(),
    }) + seq![spec_search_clause("device_id"@, SearchOperator::Equals, seq![f.device_id@], false)] + (match f.config_schema_ids {
        Some(x) => seq![spec_search_clause("config_schema_id"@, SearchOperator::Equals, texts(x.val@), x.not)],
        None => Seq::empty(),
    }) + (match f.target_statuses {
        Some(x) => seq![spec_search_clause("target_status"@, SearchOperator::Equals, target_status_texts(x.val@), x.not)],
        None => Seq::empty(),
    }) + (match f.activity_statuses {
        Some(x) => seq![
            spec_search_clause("activity_status"@, SearchOperator::Equals, activity_status_texts(x.val@), x.not),
        ],
        None => Seq::empty(),
    }) + (match f.error_statuses {
        Some(x) => seq![spec_search_clause("error_status"@, SearchOperator::Equals, error_status_texts(x.val@), x.not)],
        None => Seq::empty(),
    })
}

/// The search parameter for the clauses: none without clauses.
pub open spec fn spec_search_param(clauses: Seq<Seq<char>>) -> Option<Seq<char>> {
    if clauses.len() == 0 {
        None
    } else {
        Some("search="@ + spec_join(clauses, spec_group_separator(LogicalOperator::And)))
    }
}

/// The search parameter from the clauses, as built.
pub fn search_param(clauses: &Vec<String>) -> (r: Option<String>)
    ensures
        r matches Some(q) ==> spec_search_param(texts(clauses@)) == Some(q@),
        r is None ==> spec_search_param(texts(clauses@)) is None,
{
    if clauses.len() == 0 {
        return None;
    }
    let group = format_search_group(clauses, LogicalOperator::And);
    let mut q = String::new();
    q.append("search=");
    q.append(group.as_str());
    proof {
        reveal_strlit("search=");
    }
    Some(q)
}

/// The search parameter for a config instance search.
pub fn build_search_query(filters: ConfigInstanceFilters) -> (r: Option<String>)
    ensures
        r matches Some(q) ==> spec_search_param(spec_instance_clauses(filters)) == Some(q@),
        r is None ==> spec_search_param(spec_instance_clauses(filters)) is None,
{
    let ghost f = filters;
    let mut clauses: Vec<String> = Vec::new();
    if let Some(ids) = &filters.ids {
        clauses.push(format_search_clause("id", ids.op, &ids.val, ids.not));
    }
    let mut device: Vec<String> = Vec::new();
    device.push(filters.device_id.clone());
    proof {
        assert(texts(device@) =~= seq![f.device_id@]);
    }
    clauses.push(format_search_clause("device_id", SearchOperator::Equals, &device, false));
    if let Some(config_schema_ids) = &filters.config_schema_ids {
        clauses.push(format_search_clause("config_schema_id", SearchOperator::Equals, &config_schema_ids.val, config_schema_ids.not));
    }
    if let Some(target_statuses) = &filters.target_statuses {
        let vals = target_status_strings(&target_statuses.val);
        clauses.push(format_search_clause("target_status", SearchOperator::Equals, &vals, target_statuses.not));
    }
    if let Some(activity_statuses) = &filters.activity_statuses {
        let vals = activity_status_strings(&activity_statuses.val);
        clauses.push(format_search_clause("activity_status", SearchOperator::Equals, &vals, activity_statuses.not));
    }
    if let Some(error_statuses) = &filters.error_statuses {
        let vals = error_status_strings(&error_statuses.val);
        clauses.push(format_search_clause("error_status", SearchOperator::Equals, &vals, error_statuses.not));
    }
    proof {
        assert(texts(clauses@) =~= spec_instance_clauses(f));
    }
    search_param(&clauses)
}

/// After a page of a listing: the next page, or none when the backend has no more.
pub fn next_listing_page(pagination: &Pagination, has_more: bool) -> (r: Option<Pagination>)
    requires
        pagination.offset + pagination.limit <= usize::MAX,
    ensures
        !has_more ==> r is None,
        has_more ==> r == Some(Pagination { limit: pagination.limit, offset: (pagination.offset + pagination.limit) as usize }),
{
    if !has_more {
        return None;
    }
    Some(pagination.next_page())
}

} // verus!
