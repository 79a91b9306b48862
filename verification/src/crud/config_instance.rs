//! Queries over cached config instances.

use vstd::prelude::*;
use crate::models::config_instance::{ActivityStatus, ConfigInstance};
use crate::strings::str_eq;

verus! {

/// The instance belongs to the schema and has the activity status.
pub open spec fn spec_matches_config_schema_and_activity_status(
    instance: ConfigInstance,
    config_schema_id: Seq<char>,
    activity_status: ActivityStatus,
) -> bool {
    instance.config_schema_id@ == config_schema_id && instance.activity_status == activity_status
}

pub fn matches_config_schema_and_activity_status(
    instance: &ConfigInstance,
    config_schema_id: &str,
    activity_status: ActivityStatus,
) -> (r: bool)
    ensures
        r == spec_matches_config_schema_and_activity_status(*instance, config_schema_id@, activity_status),
{
    str_eq(instance.config_schema_id.as_str(), config_schema_id) && instance.activity_status == activity_status
}

/// The instance is written to the relative file path and has the activity status.
pub open spec fn spec_matches_filepath_and_activity_status(
    instance: ConfigInstance,
    rel_filepath: Seq<char>,
    status: ActivityStatus,
) -> bool {
    match instance.relative_filepath {
        Some(p) => p@ == rel_filepath && instance.activity_status == status,
        None => false,
    }
}

pub fn matches_filepath_and_activity_status(
    instance: &ConfigInstance,
    rel_filepath: &str,
    status: ActivityStatus,
) -> (r: bool)
    ensures
        r == spec_matches_filepath_and_activity_status(*instance, rel_filepath@, status),
{
    let instance_rel_filepath = match &instance.relative_filepath {
        Some(filepath) => filepath,
        None => return false,
    };
    str_eq(rel_filepath, instance_rel_filepath.as_str()) && status == instance.activity_status
}

} // verus!
