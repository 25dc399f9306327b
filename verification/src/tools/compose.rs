//! Requests that open a compose window.
//!
//! Each function gives the endpoint path and the payload of one tool. An
//! optional parameter that is unset travels as `null`.

use vstd::prelude::*;
use crate::request::{bool_or_null, list_or_null, Param, ParamView, RpcRequest, text_or_null};
use crate::text::texts;

verus! {

/// Opens a compose window with recipients, subject and body filled in.
pub fn send_mail(
    to: Vec<String>,
    subject: String,
    body: String,
    cc: Option<Vec<String>>,
    bcc: Option<Vec<String>>,
    from_identity: Option<String>,
) -> (r: RpcRequest)
    ensures
        r@.path == "/mail/send"@,
        r@.fields == seq![
            ("to"@, ParamView::TextList(texts(to@))),
            ("subject"@, ParamView::Text(subject@)),
            ("body"@, ParamView::Text(body@)),
            ("cc"@, list_or_null(cc)),
            ("bcc"@, list_or_null(bcc)),
            ("from_identity"@, text_or_null(from_identity)),
        ],
{
    RpcRequest::to("/mail/send")
        .with("to", Param::TextList(to))
        .with("subject", Param::Text(subject))
        .with("body", Param::Text(body))
        .with("cc", Param::opt_list(cc))
        .with("bcc", Param::opt_list(bcc))
        .with("from_identity", Param::opt_text(from_identity))
}

/// Opens a reply to a message, to all its recipients where asked.
pub fn reply_to_message(
    message_id: String,
    body: String,
    reply_all: Option<bool>,
) -> (r: RpcRequest)
    ensures
        r@.path == "/mail/reply"@,
        r@.fields == seq![
            ("message_id"@, ParamView::Text(message_id@)),
            ("body"@, ParamView::Text(body@)),
            ("reply_all"@, bool_or_null(reply_all)),
        ],
{
    RpcRequest::to("/mail/reply")
        .with("message_id", Param::Text(message_id))
        .with("body", Param::Text(body))
        .with("reply_all", Param::opt_bool(reply_all))
}

/// Opens a forward of a message, with a note where given.
pub fn forward_message(
    message_id: String,
    to: Vec<String>,
    body: Option<String>,
) -> (r: RpcRequest)
    ensures
        r@.path == "/mail/forward"@,
        r@.fields == seq![
            ("message_id"@, ParamView::Text(message_id@)),
            ("to"@, ParamView::TextList(texts(to@))),
            ("body"@, text_or_null(body)),
        ],
{
    RpcRequest::to("/mail/forward")
        .with("message_id", Param::Text(message_id))
        .with("to", Param::TextList(to))
        .with("body", Param::opt_text(body))
}

} // verus!
