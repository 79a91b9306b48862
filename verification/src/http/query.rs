//! The query string of backend listings.

use vstd::prelude::*;
use crate::http::pagination::Pagination;
use crate::strings::{decimal, u64_to_string};

verus! {

/// The optional part of a query: `&` and the text, when there is one.
pub open spec fn spec_optional_param(param: Option<Seq<char>>) -> Seq<char> {
    match param {
        Some(p) => "&"@ + p,
        None => Seq::empty(),
    }
}

/// The query string: the page first, then the search and the expansions, if any.
pub open spec fn spec_query_params(search: Option<Seq<char>>, expand: Option<Seq<char>>, pagination: Pagination) -> Seq<char> {
    "?limit="@ + decimal(pagination.limit as nat) + "&offset="@ + decimal(pagination.offset as nat)
        + spec_optional_param(search) + spec_optional_param(expand)
}

/// The view of an optional text.
pub open spec fn opt_text(s: Option<&str>) -> Option<Seq<char>> {
    match s {
        Some(t) => Some(t@),
        None => None,
    }
}

pub fn build_query_params(search_query: Option<&str>, expand_query: Option<&str>, pagination: &Pagination) -> (r: String)
    ensures
        r@ == spec_query_params(opt_text(search_query), opt_text(expand_query), *pagination),
{
    let mut query_params = String::new();
    query_params.append("?limit=");
    let limit = u64_to_string(pagination.limit as u64);
    query_params.append(limit.as_str());
    query_params.append("&offset=");
    let offset = u64_to_string(pagination.offset as u64);
    query_params.append(offset.as_str());
    if let Some(search_query) = search_query {
        query_params.append("&");
        query_params.append(search_query);
    }
    if let Some(expand_query) = expand_query {
        query_params.append("&");
        query_params.append(expand_query);
    }
    proof {
        reveal_strlit("?limit=");
        reveal_strlit("&offset=");
        reveal_strlit("&");
        assert(query_params@ =~= spec_query_params(opt_text(search_query), opt_text(expand_query), *pagination));
    }
    query_params
}

} // verus!
