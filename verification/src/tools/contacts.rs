//! Requests about contacts and calendars.
//!
//! Each function gives the endpoint path and the payload of one tool. An
//! optional parameter that is unset travels as `null`.

use vstd::prelude::*;
use crate::request::{number_or_null, Param, ParamView, RpcRequest, text_or_null};

verus! {

/// Searches the address books.
pub fn search_contacts(query: String, limit: Option<u32>) -> (r: RpcRequest)
    ensures
        r@.path == "/contacts/search"@,
        r@.fields == seq![
            ("query"@, ParamView::Text(query@)),
            ("limit"@, number_or_null(limit)),
        ],
{
    RpcRequest::to("/contacts/search")
        .with("query", Param::Text(query))
        .with("limit", Param::opt_number(limit))
}

/// Lists all calendars.
pub fn list_calendars() -> (r: RpcRequest)
    ensures
        r@.path == "/calendars/list"@,
        r@.fields == Seq::<(Seq<char>, ParamView)>::empty(),
{
    RpcRequest::to("/calendars/list")
}

/// Opens an event dialog with the given details filled in.
pub fn create_event(
    calendar_id: String,
    title: String,
    start: String,
    end: String,
    description: Option<String>,
    location: Option<String>,
) -> (r: RpcRequest)
    ensures
        r@.path == "/calendar/create-event"@,
        r@.fields == seq![
            ("calendar_id"@, ParamView::Text(calendar_id@)),
            ("title"@, ParamView::Text(title@)),
            ("start"@, ParamView::Text(start@)),
            ("end"@, ParamView::Text(end@)),
            ("description"@, text_or_null(description)),
            ("location"@, text_or_null(location)),
        ],
{
    RpcRequest::to("/calendar/create-event")
        .with("calendar_id", Param::Text(calendar_id))
        .with("title", Param::Text(title))
        .with("start", Param::Text(start))
        .with("end", Param::Text(end))
        .with("description", Param::opt_text(description))
        .with("location", Param::opt_text(location))
}

/// Lists events, of one calendar or within a date range where given.
pub fn list_events(
    calendar_id: Option<String>,
    date_from: Option<String>,
    date_to: Option<String>,
    limit: Option<u32>,
) -> (r: RpcRequest)
    ensures
        r@.path == "/calendars/list-events"@,
        r@.fields == seq![
            ("calendar_id"@, text_or_null(calendar_id)),
            ("date_from"@, text_or_null(date_from)),
            ("date_to"@, text_or_null(date_to)),
            ("limit"@, number_or_null(limit)),
        ],
{
    RpcRequest::to("/calendars/list-events")
        .with("calendar_id", Param::opt_text(calendar_id))
        .with("date_from", Param::opt_text(date_from))
        .with("date_to", Param::opt_text(date_to))
        .with("limit", Param::opt_number(limit))
}

} // verus!
