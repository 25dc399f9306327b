use serde_json::{Number, Value};
use thunderbird_mcp::request::{Field, Param, RpcRequest};
use thunderbird_mcp::tools::compose::{forward_message, reply_to_message, send_mail};
use thunderbird_mcp::tools::contacts::{create_event, list_calendars, list_events, search_contacts};
use thunderbird_mcp::tools::filters::{
    apply_filters, create_filter, delete_filter, list_filters, reorder_filters, update_filter,
};
use thunderbird_mcp::tools::mail::{
    create_folder, delete_messages, get_message, get_recent_messages, list_accounts, list_folders,
    result_text, search_messages, text_or_empty, update_message,
};

fn text(s: &str) -> Param {
    Param::Text(s.to_string())
}

fn list(items: &[&str]) -> Param {
    Param::TextList(items.iter().map(|s| s.to_string()).collect())
}

fn strings(items: &[&str]) -> Vec<String> {
    items.iter().map(|s| s.to_string()).collect()
}

fn expect(path: &str, fields: Vec<(&str, Param)>) -> RpcRequest {
    RpcRequest {
        path: path.to_string(),
        fields: fields
            .into_iter()
            .map(|(name, value)| Field { name: name.to_string(), value })
            .collect(),
    }
}

fn s(v: &str) -> String {
    v.to_string()
}

#[test]
fn request_builder_appends_members_in_order() {
    let request = RpcRequest::to("/x").with("a", Param::Null).with("b", Param::Bool(true));
    assert_eq!(request, expect("/x", vec![("a", Param::Null), ("b", Param::Bool(true))]));
    assert_eq!(RpcRequest::to("/y"), expect("/y", vec![]));
}

#[test]
fn unset_parameters_are_null() {
    assert_eq!(Param::opt_text(None), Param::Null);
    assert_eq!(Param::opt_text(Some(s("a"))), text("a"));
    assert_eq!(Param::opt_bool(None), Param::Null);
    assert_eq!(Param::opt_bool(Some(false)), Param::Bool(false));
    assert_eq!(Param::opt_number(None), Param::Null);
    assert_eq!(Param::opt_number(Some(0)), Param::Number(0));
    assert_eq!(Param::opt_list(None), Param::Null);
    assert_eq!(Param::opt_list(Some(vec![])), Param::TextList(vec![]));
    assert_eq!(Param::opt_json(None), Param::Null);
    assert_eq!(Param::opt_json(Some(Value::Null)), Param::Json(Value::Null));
}

#[test]
fn list_accounts_request() {
    assert_eq!(list_accounts(), expect("/accounts/list", vec![]));
}

#[test]
fn list_folders_request() {
    assert_eq!(
        list_folders(Some(s("acc1")), None),
        expect("/folders/list", vec![("account_id", text("acc1")), ("folder_uri", Param::Null)])
    );
}

#[test]
fn search_messages_request() {
    assert_eq!(
        search_messages(
            Some(s("invoice")),
            None,
            Some(s("ada@example.org")),
            None,
            Some(s("2024-01-01")),
            Some(s("2024-02-01")),
            Some(50),
        ),
        expect(
            "/messages/search",
            vec![
                ("query", text("invoice")),
                ("folder", Param::Null),
                ("sender", text("ada@example.org")),
                ("recipient", Param::Null),
                ("date_from", text("2024-01-01")),
                ("date_to", text("2024-02-01")),
                ("max_results", Param::Number(50)),
            ]
        )
    );
}

#[test]
fn get_message_request() {
    assert_eq!(
        get_message(s("m1"), Some(true)),
        expect(
            "/messages/get",
            vec![("message_id", text("m1")), ("save_attachments", Param::Bool(true))]
        )
    );
}

#[test]
fn get_recent_messages_request() {
    assert_eq!(
        get_recent_messages(None, Some(5), None, Some(s("2024-03-01"))),
        expect(
            "/messages/recent",
            vec![
                ("folder", Param::Null),
                ("limit", Param::Number(5)),
                ("unread_only", Param::Null),
                ("since_date", text("2024-03-01")),
            ]
        )
    );
}

#[test]
fn update_message_request() {
    assert_eq!(
        update_message(s("m1"), Some(true), None, Some(s("imap://f")), Some(false)),
        expect(
            "/messages/update",
            vec![
                ("message_id", text("m1")),
                ("read", Param::Bool(true)),
                ("flagged", Param::Null),
                ("move_to", text("imap://f")),
                ("trash", Param::Bool(false)),
            ]
        )
    );
}

#[test]
fn delete_messages_request() {
    assert_eq!(
        delete_messages(strings(&["m1", "m2"])),
        expect("/messages/delete", vec![("message_ids", list(&["m1", "m2"]))])
    );
}

#[test]
fn create_folder_request() {
    assert_eq!(
        create_folder(s("imap://inbox"), s("Bills")),
        expect("/folders/create", vec![("parent_uri", text("imap://inbox")), ("name", text("Bills"))])
    );
}

#[test]
fn send_mail_request() {
    assert_eq!(
        send_mail(
            strings(&["a@example.org"]),
            s("Hi"),
            s("Body"),
            Some(strings(&["c@example.org", "d@example.org"])),
            None,
            Some(s("me@example.org")),
        ),
        expect(
            "/mail/send",
            vec![
                ("to", list(&["a@example.org"])),
                ("subject", text("Hi")),
                ("body", text("Body")),
                ("cc", list(&["c@example.org", "d@example.org"])),
                ("bcc", Param::Null),
                ("from_identity", text("me@example.org")),
            ]
        )
    );
}

#[test]
fn reply_to_message_request() {
    assert_eq!(
        reply_to_message(s("m1"), s("Thanks"), None),
        expect(
            "/mail/reply",
            vec![("message_id", text("m1")), ("body", text("Thanks")), ("reply_all", Param::Null)]
        )
    );
}

#[test]
fn forward_message_request() {
    assert_eq!(
        forward_message(s("m1"), strings(&["b@example.org"]), Some(s("fyi"))),
        expect(
            "/mail/forward",
            vec![("message_id", text("m1")), ("to", list(&["b@example.org"])), ("body", text("fyi"))]
        )
    );
}

#[test]
fn search_contacts_request() {
    assert_eq!(
        search_contacts(s("ada"), None),
        expect("/contacts/search", vec![("query", text("ada")), ("limit", Param::Null)])
    );
}

#[test]
fn list_calendars_request() {
    assert_eq!(list_calendars(), expect("/calendars/list", vec![]));
}

#[test]
fn create_event_request() {
    assert_eq!(
        create_event(s("cal1"), s("Lunch"), s("2024-05-01T12:00"), s("2024-05-01T13:00"), None, Some(s("Cafe"))),
        expect(
            "/calendar/create-event",
            vec![
                ("calendar_id", text("cal1")),
                ("title", text("Lunch")),
                ("start", text("2024-05-01T12:00")),
                ("end", text("2024-05-01T13:00")),
                ("description", Param::Null),
                ("location", text("Cafe")),
            ]
        )
    );
}

#[test]
fn list_events_request() {
    assert_eq!(
        list_events(Some(s("cal1")), None, None, Some(3)),
        expect(
            "/calendars/list-events",
            vec![
                ("calendar_id", text("cal1")),
                ("date_from", Param::Null),
                ("date_to", Param::Null),
                ("limit", Param::Number(3)),
            ]
        )
    );
}

#[test]
fn list_filters_request() {
    assert_eq!(list_filters(None), expect("/filters/list", vec![("account_id", Param::Null)]));
}

#[test]
fn create_filter_request() {
    let conditions = Value::Array(vec![Value::String(s("subject contains x"))]);
    let actions = Value::Array(vec![]);
    assert_eq!(
        create_filter(s("acc1"), s("Spam"), conditions.clone(), actions.clone(), Some(true)),
        expect(
            "/filters/create",
            vec![
                ("account_id", text("acc1")),
                ("name", text("Spam")),
                ("conditions", Param::Json(conditions)),
                ("actions", Param::Json(actions)),
                ("enabled", Param::Bool(true)),
            ]
        )
    );
}

#[test]
fn create_filter_passes_an_unset_state_on_as_null() {
    let conditions = Value::Array(vec![Value::String(s("subject contains x"))]);
    let actions = Value::Array(vec![]);
    let unset = create_filter(s("acc1"), s("Spam"), conditions.clone(), actions.clone(), None);
    assert_eq!(unset.fields[4], Field { name: s("enabled"), value: Param::Null });
    let off = create_filter(s("acc1"), s("Spam"), conditions, actions, Some(false));
    assert_eq!(off.fields[4], Field { name: s("enabled"), value: Param::Bool(false) });
}

#[test]
fn update_filter_request() {
    let conditions = Value::Array(vec![Value::Number(Number::from(1u32))]);
    assert_eq!(
        update_filter(s("acc1"), 2, None, Some(false), Some(conditions.clone()), None),
        expect(
            "/filters/update",
            vec![
                ("account_id", text("acc1")),
                ("filter_index", Param::Number(2)),
                ("name", Param::Null),
                ("enabled", Param::Bool(false)),
                ("conditions", Param::Json(conditions)),
                ("actions", Param::Null),
            ]
        )
    );
}

#[test]
fn delete_filter_request() {
    assert_eq!(
        delete_filter(s("acc1"), 0),
        expect("/filters/delete", vec![("account_id", text("acc1")), ("filter_index", Param::Number(0))])
    );
}

#[test]
fn reorder_filters_request() {
    assert_eq!(
        reorder_filters(s("acc1"), 4, u32::MAX),
        expect(
            "/filters/reorder",
            vec![
                ("account_id", text("acc1")),
                ("from_index", Param::Number(4)),
                ("to_index", Param::Number(u32::MAX)),
            ]
        )
    );
}

#[test]
fn apply_filters_request() {
    assert_eq!(
        apply_filters(s("acc1"), s("imap://inbox")),
        expect("/filters/apply", vec![("account_id", text("acc1")), ("folder_uri", text("imap://inbox"))])
    );
}

#[test]
fn result_text_is_the_pretty_print() {
    let mut map = serde_json::Map::new();
    map.insert(s("accounts"), Value::Array(vec![]));
    map.insert(s("n"), Value::Number(Number::from(2u32)));
    assert_eq!(result_text(&Value::Object(map)), "{\n  \"accounts\": [],\n  \"n\": 2\n}");
    assert_eq!(result_text(&Value::Null), "null");
    assert_eq!(result_text(&Value::String(s("a\"b"))), "\"a\\\"b\"");
}

#[test]
fn text_or_empty_falls_back_to_nothing() {
    assert_eq!(text_or_empty(Ok(s("{}"))), "{}");
    let failure = serde_json::from_str::<Value>("{").unwrap_err();
    assert_eq!(text_or_empty(Err(failure)), "");
}
