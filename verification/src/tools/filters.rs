//! Requests about message filters.
//!
//! Each function gives the endpoint path and the payload of one tool. An
//! optional parameter that is unset travels as `null`.

use vstd::prelude::*;
use serde_json::Value;
use crate::request::{
    bool_or_null, json_or_null, Param, ParamView, RpcRequest, text_or_null,
};

verus! {

/// Lists the filter rules, of one account where given.
pub fn list_filters(account_id: Option<String>) -> (r: RpcRequest)
    ensures
        r@.path == "/filters/list"@,
        r@.fields == seq![
            ("account_id"@, text_or_null(account_id)),
        ],
{
    RpcRequest::to("/filters/list")
        .with("account_id", Param::opt_text(account_id))
}

/// Creates a filter from its conditions and actions, enabled or not where
/// that is given.
pub fn create_filter(
    account_id: String,
    name: String,
    conditions: Value,
    actions: Value,
    enabled: Option<bool>,
) -> (r: RpcRequest)
    ensures
        r@.path == "/filters/create"@,
        r@.fields == seq![
            ("account_id"@, ParamView::Text(account_id@)),
            ("name"@, ParamView::Text(name@)),
            ("conditions"@, ParamView::Json(conditions)),
            ("actions"@, ParamView::Json(actions)),
            ("enabled"@, bool_or_null(enabled)),
        ],
{
    RpcRequest::to("/filters/create")
        .with("account_id", Param::Text(account_id))
        .with("name", Param::Text(name))
        .with("conditions", Param::Json(conditions))
        .with("actions", Param::Json(actions))
        .with("enabled", Param::opt_bool(enabled))
}

/// Changes the name, state, conditions or actions of a filter.
pub fn update_filter(
    account_id: String,
    filter_index: u32,
    name: Option<String>,
    enabled: Option<bool>,
    conditions: Option<Value>,
    actions: Option<Value>,
) -> (r: RpcRequest)
    ensures
        r@.path == "/filters/update"@,
        r@.fields == seq![
            ("account_id"@, ParamView::Text(account_id@)),
            ("filter_index"@, ParamView::Number(filter_index)),
            ("name"@, text_or_null(name)),
            ("enabled"@, bool_or_null(enabled)),
            ("conditions"@, json_or_null(conditions)),
            ("actions"@, json_or_null(actions)),
        ],
{
    RpcRequest::to("/filters/update")
        .with("account_id", Param::Text(account_id))
        .with("filter_index", Param::Number(filter_index))
        .with("name", Param::opt_text(name))
        .with("enabled", Param::opt_bool(enabled))
        .with("conditions", Param::opt_json(conditions))
        .with("actions", Param::opt_json(actions))
}

/// Removes the filter at an index.
pub fn delete_filter(account_id: String, filter_index: u32) -> (r: RpcRequest)
    ensures
        r@.path == "/filters/delete"@,
        r@.fields == seq![
            ("account_id"@, ParamView::Text(account_id@)),
            ("filter_index"@, ParamView::Number(filter_index)),
        ],
{
    RpcRequest::to("/filters/delete")
        .with("account_id", Param::Text(account_id))
        .with("filter_index", Param::Number(filter_index))
}

/// Moves a filter to another index.
pub fn reorder_filters(
    account_id: String,
    from_index: u32,
    to_index: u32,
) -> (r: RpcRequest)
    ensures
        r@.path == "/filters/reorder"@,
        r@.fields == seq![
            ("account_id"@, ParamView::Text(account_id@)),
            ("from_index"@, ParamView::Number(from_index)),
            ("to_index"@, ParamView::Number(to_index)),
        ],
{
    RpcRequest::to("/filters/reorder")
        .with("account_id", Param::Text(account_id))
        .with("from_index", Param::Number(from_index))
        .with("to_index", Param::Number(to_index))
}

/// Runs all filters of an account on a folder.
pub fn apply_filters(account_id: String, folder_uri: String) -> (r: RpcRequest)
    ensures
        r@.path == "/filters/apply"@,
        r@.fields == seq![
            ("account_id"@, ParamView::Text(account_id@)),
            ("folder_uri"@, ParamView::Text(folder_uri@)),
        ],
{
    RpcRequest::to("/filters/apply")
        .with("account_id", Param::Text(account_id))
        .with("folder_uri", Param::Text(folder_uri))
}

} // verus!
