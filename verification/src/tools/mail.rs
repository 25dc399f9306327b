//! Requests about accounts, folders and messages.
//!
//! Each function gives the endpoint path and the payload of one tool. An
//! optional parameter that is unset travels as `null`.

use vstd::prelude::*;
use serde_json::Value;
use crate::json::{json_pretty, pretty, printed_view};
use crate::request::{bool_or_null, number_or_null, Param, ParamView, RpcRequest, text_or_null};
use crate::text::texts;

verus! {

/// Lists all mail accounts and their identities.
pub fn list_accounts() -> (r: RpcRequest)
    ensures
        r@.path == "/accounts/list"@,
        r@.fields == Seq::<(Seq<char>, ParamView)>::empty(),
{
    RpcRequest::to("/accounts/list")
}

/// Lists the folder tree, of one account or below one folder where given.
pub fn list_folders(account_id: Option<String>, folder_uri: Option<String>) -> (r: RpcRequest)
    ensures
        r@.path == "/folders/list"@,
        r@.fields == seq![
            ("account_id"@, text_or_null(account_id)),
            ("folder_uri"@, text_or_null(folder_uri)),
        ],
{
    RpcRequest::to("/folders/list")
        .with("account_id", Param::opt_text(account_id))
        .with("folder_uri", Param::opt_text(folder_uri))
}

/// Searches messages by text, folder, sender, recipient and date range.
pub fn search_messages(
    query: Option<String>,
    folder: Option<String>,
    sender: Option<String>,
    recipient: Option<String>,
    date_from: Option<String>,
    date_to: Option<String>,
    max_results: Option<u32>,
) -> (r: RpcRequest)
    ensures
        r@.path == "/messages/search"@,
        r@.fields == seq![
            ("query"@, text_or_null(query)),
            ("folder"@, text_or_null(folder)),
            ("sender"@, text_or_null(sender)),
            ("recipient"@, text_or_null(recipient)),
            ("date_from"@, text_or_null(date_from)),
            ("date_to"@, text_or_null(date_to)),
            ("max_results"@, number_or_null(max_results)),
        ],
{
    RpcRequest::to("/messages/search")
        .with("query", Param::opt_text(query))
        .with("folder", Param::opt_text(folder))
        .with("sender", Param::opt_text(sender))
        .with("recipient", Param::opt_text(recipient))
        .with("date_from", Param::opt_text(date_from))
        .with("date_to", Param::opt_text(date_to))
        .with("max_results", Param::opt_number(max_results))
}

/// Reads one message in full, saving its attachments where asked.
pub fn get_message(message_id: String, save_attachments: Option<bool>) -> (r: RpcRequest)
    ensures
        r@.path == "/messages/get"@,
        r@.fields == seq![
            ("message_id"@, ParamView::Text(message_id@)),
            ("save_attachments"@, bool_or_null(save_attachments)),
        ],
{
    RpcRequest::to("/messages/get")
        .with("message_id", Param::Text(message_id))
        .with("save_attachments", Param::opt_bool(save_attachments))
}

/// Lists recent messages, of one folder, unread only or since a date where
/// given.
pub fn get_recent_messages(
    folder: Option<String>,
    limit: Option<u32>,
    unread_only: Option<bool>,
    since_date: Option<String>,
) -> (r: RpcRequest)
    ensures
        r@.path == "/messages/recent"@,
        r@.fields == seq![
            ("folder"@, text_or_null(folder)),
            ("limit"@, number_or_null(limit)),
            ("unread_only"@, bool_or_null(unread_only)),
            ("since_date"@, text_or_null(since_date)),
        ],
{
    RpcRequest::to("/messages/recent")
        .with("folder", Param::opt_text(folder))
        .with("limit", Param::opt_number(limit))
        .with("unread_only", Param::opt_bool(unread_only))
        .with("since_date", Param::opt_text(since_date))
}

/// Marks a message read or unread, flags it, moves it or puts it in the
/// trash.
pub fn update_message(
    message_id: String,
    read: Option<bool>,
    flagged: Option<bool>,
    move_to: Option<String>,
    trash: Option<bool>,
) -> (r: RpcRequest)
    ensures
        r@.path == "/messages/update"@,
        r@.fields == seq![
            ("message_id"@, ParamView::Text(message_id@)),
            ("read"@, bool_or_null(read)),
            ("flagged"@, bool_or_null(flagged)),
            ("move_to"@, text_or_null(move_to)),
            ("trash"@, bool_or_null(trash)),
        ],
{
    RpcRequest::to("/messages/update")
        .with("message_id", Param::Text(message_id))
        .with("read", Param::opt_bool(read))
        .with("flagged", Param::opt_bool(flagged))
        .with("move_to", Param::opt_text(move_to))
        .with("trash", Param::opt_bool(trash))
}

/// Deletes the messages named.
pub fn delete_messages(message_ids: Vec<String>) -> (r: RpcRequest)
    ensures
        r@.path == "/messages/delete"@,
        r@.fields == seq![
            ("message_ids"@, ParamView::TextList(texts(message_ids@))),
        ],
{
    RpcRequest::to("/messages/delete")
        .with("message_ids", Param::TextList(message_ids))
}

/// Creates a folder below a parent folder.
pub fn create_folder(parent_uri: String, name: String) -> (r: RpcRequest)
    ensures
        r@.path == "/folders/create"@,
        r@.fields == seq![
            ("parent_uri"@, ParamView::Text(parent_uri@)),
            ("name"@, ParamView::Text(name@)),
        ],
{
    RpcRequest::to("/folders/create")
        .with("parent_uri", Param::Text(parent_uri))
        .with("name", Param::Text(name))
}

/// The text shown for a printed value: the print itself, or nothing where
/// the value could not be printed.
pub open spec fn shown(printed: Result<Seq<char>, serde_json::Error>) -> Seq<char> {
    match printed {
        Ok(text) => text,
        Err(_) => Seq::empty(),
    }
}

/// The text of a result: the value pretty-printed as JSON.
pub fn result_text(value: &Value) -> (r: String)
    ensures
        r@ == shown(json_pretty(*value)),
{
    text_or_empty(pretty(value))
}

/// The print of a value, or the empty text where printing failed.
pub fn text_or_empty(printed: Result<String, serde_json::Error>) -> (r: String)
    ensures
        r@ == shown(printed_view(printed)),
{
    match printed {
        Ok(text) => text,
        Err(_) => String::new(),
    }
}

} // verus!
