use config_agent::errors::{Code, ExternalErr, MiruError};
use config_agent::http::client::HTTPClient;
use config_agent::http::config_instances::{
    build_search_query, next_listing_page, ActivityStatusFilter, ConfigInstanceFiltersBuilder, ConfigSchemaIDFilter,
    ErrorStatusFilter, IDFilter, TargetStatusFilter,
};
use config_agent::http::config_schemas::{
    build_search_query as build_schema_search_query, pick_one_config_schema, ConfigSchemaFilters, ConfigTypeSlugFilter,
    DigestFilter,
};
use config_agent::http::errors::HTTPErr;
use config_agent::http::expand::build_expand_query;
use config_agent::http::pagination::{Pagination, MAX_PAGINATE_LIMIT};
use config_agent::http::query::build_query_params;
use config_agent::http::search::{format_search_clause, format_search_group, join, LogicalOperator, SearchOperator};
use config_agent::models::config_instance::{ActivityStatus, ErrorStatus, TargetStatus};
use config_agent::models::config_schema::ConfigSchema;

fn strings(v: &[&str]) -> Vec<String> {
    v.iter().map(|s| s.to_string()).collect()
}

#[test]
fn join_puts_separator_between_values() {
    assert_eq!(join(&strings(&[]), ","), "");
    assert_eq!(join(&strings(&["a"]), ","), "a");
    assert_eq!(join(&strings(&["a", "b", "c"]), ", "), "a, b, c");
}

#[test]
fn search_clause_forms() {
    assert_eq!(format_search_clause("id", SearchOperator::Equals, &strings(&["a", "b"]), false), "id:a,b");
    assert_eq!(format_search_clause("id", SearchOperator::Contains, &strings(&["a"]), true), "-id~a");
    assert_eq!(SearchOperator::Equals.as_str(), ":");
    assert_eq!(LogicalOperator::And.as_str(), "AND");
}

#[test]
fn search_group_joins_with_and() {
    let clauses = strings(&["id:a", "device_id:d"]);
    assert_eq!(format_search_group(&clauses, LogicalOperator::And), "id:a AND device_id:d");
}

#[test]
fn query_params_have_page_then_search_then_expand() {
    let p = Pagination { limit: 100, offset: 200 };
    assert_eq!(build_query_params(None, None, &p), "?limit=100&offset=200");
    assert_eq!(
        build_query_params(Some("search=id:a"), Some("expand[]=content"), &p),
        "?limit=100&offset=200&search=id:a&expand[]=content"
    );
    let d = Pagination::default();
    assert_eq!((d.limit, d.offset), (10, 0));
    assert_eq!(MAX_PAGINATE_LIMIT, 100);
}

#[test]
fn expand_query_repeats_the_term() {
    assert_eq!(build_expand_query(&strings(&[])), None);
    assert_eq!(build_expand_query(&strings(&["content"])), Some("expand[]=content".to_string()));
    assert_eq!(build_expand_query(&strings(&["a", "b"])), Some("expand[]=aexpand[]=b".to_string()));
}

#[test]
fn instance_search_always_names_the_device() {
    let f = ConfigInstanceFiltersBuilder::new("dev1".to_string()).build();
    assert_eq!(build_search_query(f), Some("search=device_id:dev1".to_string()));
}

#[test]
fn instance_search_with_every_filter() {
    let f = ConfigInstanceFiltersBuilder::new("d".to_string())
        .with_id_filter(IDFilter { not: true, op: SearchOperator::Equals, val: strings(&["i1", "i2"]) })
        .with_config_schema_id_filter(ConfigSchemaIDFilter { not: false, op: SearchOperator::Contains, val: strings(&["s"]) })
        .with_target_status_filter(TargetStatusFilter { not: false, op: SearchOperator::Equals, val: vec![TargetStatus::Deployed] })
        .with_activity_status_filter(ActivityStatusFilter {
            not: false,
            op: SearchOperator::Equals,
            val: vec![ActivityStatus::Queued, ActivityStatus::Deployed],
        })
        .with_error_status_filter(ErrorStatusFilter { not: true, op: SearchOperator::Equals, val: vec![ErrorStatus::Failed] })
        .build();
    assert_eq!(
        build_search_query(f),
        Some(
            "search=-id:i1,i2 AND device_id:d AND config_schema_id:s AND target_status:deployed AND activity_status:queued,deployed AND -error_status:failed"
                .to_string()
        )
    );
}

#[test]
fn schema_search_is_absent_without_filters() {
    let f = ConfigSchemaFilters { digests: None, config_type_slugs: None };
    assert_eq!(build_schema_search_query(&f), None);
    let f = ConfigSchemaFilters {
        digests: Some(DigestFilter { not: false, op: SearchOperator::Equals, val: strings(&["abc"]) }),
        config_type_slugs: Some(ConfigTypeSlugFilter { not: false, op: SearchOperator::Equals, val: strings(&["motion"]) }),
    };
    assert_eq!(build_schema_search_query(&f), Some("search=digest:abc AND config_type_slug:motion".to_string()));
}

#[test]
fn urls_hang_off_the_base() {
    let c = HTTPClient { base_url: "https://x/agent/v1".to_string() };
    assert_eq!(c.config_instances_url(), "https://x/agent/v1/config_instances");
    assert_eq!(c.config_instance_url("ci_1"), "https://x/agent/v1/config_instances/ci_1");
    assert_eq!(c.config_schemas_url(), "https://x/agent/v1/config_schemas");
    assert_eq!(c.hash_schema_url(), "https://x/agent/v1/config_schemas/hash/serialized");
}

#[test]
fn listing_continues_while_backend_has_more() {
    let p = Pagination { limit: 100, offset: 0 };
    assert_eq!(next_listing_page(&p, true), Some(Pagination { limit: 100, offset: 100 }));
    assert_eq!(next_listing_page(&p, false), None);
}

fn schema(id: &str) -> ConfigSchema {
    ConfigSchema {
        id: id.to_string(),
        version: 1,
        digest: "d".to_string(),
        created_at: "2024-01-01T00:00:00+00:00".to_string(),
        created_by_id: None,
        config_type_id: "t".to_string(),
        config_type_slug: Some("slug".to_string()),
    }
}

#[test]
fn pick_one_schema_outcomes() {
    assert_eq!(pick_one_config_schema("?q".to_string(), vec![schema("a")]).unwrap().id, "a");
    match pick_one_config_schema("?q".to_string(), vec![]) {
        Err(HTTPErr::ConfigSchemaNotFound(e)) => {
            assert_eq!(e.query_params, "?q");
            assert_eq!(e.code(), Code::ResourceNotFound);
            assert_eq!(e.http_status(), 404);
        }
        other => panic!("unexpected {:?}", other),
    }
    match pick_one_config_schema("?q".to_string(), vec![schema("a"), schema("b")]) {
        Err(HTTPErr::TooManyConfigSchemas(e)) => {
            assert_eq!(e.expected_count, 1);
            assert_eq!(e.found_config_schema_ids, strings(&["a", "b"]));
        }
        other => panic!("unexpected {:?}", other),
    }
}

#[test]
fn request_errors_keep_their_classification() {
    let e = HTTPErr::RequestErr(ExternalErr { msg: "timed out".to_string(), code: Code::InternalServerError, http_status: 504, network: true });
    assert!(e.is_network_connection_error());
    assert_eq!(e.http_status(), 504);
}
