//! The authenticated exchange with the companion extension.
//!
//! One call is one POST to the extension's local HTTP endpoint. The transport
//! itself lives with the caller: this module says what is sent, and what
//! becomes of the status and the body that come back.
//!
//! A caller drives one exchange in three steps: [`Bridge::request`] gives the
//! request to send, [`after_status`] decides on the response status whether
//! the body is to be read at all, and [`after_body`] turns the body into the
//! outcome of the call.

use vstd::prelude::*;
use vstd::string::StringExecFns;
use serde_json::Value;
use crate::json::{json_model, json_parse, member, member_of, parse, text_in, text_of};
use crate::sanitize::{lemma_sanitize_idempotent, sanitize_str, sanitized};
use crate::text::text_view;

verus! {

/// `reqwest::Error`, carried through as an opaque value.
#[verifier::external_type_specification]
#[verifier::external_body]
pub struct ExTransportError(reqwest::Error);

/// Why a call failed.
#[derive(Debug)]
pub enum BridgeError {
    /// The transport could not deliver the request or the response.
    ConnectionFailed(reqwest::Error),
    /// The extension answered, and reported a failure of its own.
    ExtensionError(String),
    /// The sanitized body is not JSON.
    InvalidJson(serde_json::Error),
    /// The extension rejected the secret.
    Unauthorized,
}

/// A `BridgeError` with its message as a sequence of characters.
pub enum BridgeErrorView {
    ConnectionFailed(reqwest::Error),
    ExtensionError(Seq<char>),
    InvalidJson(serde_json::Error),
    Unauthorized,
}

impl View for BridgeError {
    type V = BridgeErrorView;

    open spec fn view(&self) -> BridgeErrorView {
        match *self {
            BridgeError::ConnectionFailed(e) => BridgeErrorView::ConnectionFailed(e),
            BridgeError::ExtensionError(m) => BridgeErrorView::ExtensionError(m@),
            BridgeError::InvalidJson(e) => BridgeErrorView::InvalidJson(e),
            BridgeError::Unauthorized => BridgeErrorView::Unauthorized,
        }
    }
}

impl From<reqwest::Error> for BridgeError {
    /// A failure of the transport is a `ConnectionFailed`.
    fn from(e: reqwest::Error) -> (r: BridgeError) {
        BridgeError::ConnectionFailed(e)
    }
}

impl vstd::std_specs::convert::FromSpecImpl<reqwest::Error> for BridgeError {
    open spec fn obeys_from_spec() -> bool {
        true
    }

    open spec fn from_spec(e: reqwest::Error) -> BridgeError {
        BridgeError::ConnectionFailed(e)
    }
}

impl From<serde_json::Error> for BridgeError {
    /// A failure of the parser is an `InvalidJson`.
    fn from(e: serde_json::Error) -> (r: BridgeError) {
        BridgeError::InvalidJson(e)
    }
}

impl vstd::std_specs::convert::FromSpecImpl<serde_json::Error> for BridgeError {
    open spec fn obeys_from_spec() -> bool {
        true
    }

    open spec fn from_spec(e: serde_json::Error) -> BridgeError {
        BridgeError::InvalidJson(e)
    }
}

/// The outcome of a call, with any message as a sequence of characters.
pub open spec fn outcome_view(r: Result<Value, BridgeError>) -> Result<Value, BridgeErrorView> {
    match r {
        Ok(v) => Ok(v),
        Err(e) => Err(e@),
    }
}

/// The failure of a step that may have failed, with any message as a
/// sequence of characters.
pub open spec fn failure_view(r: Result<(), BridgeError>) -> Option<BridgeErrorView> {
    match r {
        Ok(_) => None,
        Err(e) => Some(e@),
    }
}

/// The status with which the extension rejects the secret.
pub const UNAUTHORIZED: u16 = 401;

/// The endpoint the extension listens on unless another is configured.
pub open spec fn default_base_url() -> Seq<char> {
    "http://localhost:8765"@
}

/// The prefix of the authorization header's value.
pub open spec fn bearer_prefix() -> Seq<char> {
    "Bearer "@
}

/// The name of the member with which the extension reports a failure.
pub open spec fn error_key() -> Seq<char> {
    "error"@
}

/// Where the extension is reached, and the secret it expects. Set once, read
/// by every call.
pub struct Bridge {
    base_url: String,
    token: String,
}

/// One POST request, ready to be sent.
pub struct PostRequest {
    /// The full target address.
    pub url: String,
    /// The value of the `Authorization` header.
    pub authorization: String,
    /// The JSON body.
    pub body: Value,
}

impl Clone for Bridge {
    fn clone(&self) -> (r: Self)
        ensures
            r.base_url() == self.base_url(),
            r.token() == self.token(),
    {
        Bridge { base_url: self.base_url.clone(), token: self.token.clone() }
    }
}

impl Bridge {
    /// The configured endpoint.
    pub closed spec fn base_url(&self) -> Seq<char> {
        self.base_url@
    }

    /// The configured secret.
    pub closed spec fn token(&self) -> Seq<char> {
        self.token@
    }

    /// A bridge to the extension's usual endpoint.
    pub fn new(token: String) -> (r: Self)
        ensures
            r.token() == token@,
            r.base_url() == default_base_url(),
    {
        Self::with_base_url(token, String::from_str("http://localhost:8765"))
    }

    /// A bridge to the given endpoint.
    pub fn with_base_url(token: String, base_url: String) -> (r: Self)
        ensures
            r.token() == token@,
            r.base_url() == base_url@,
    {
        Bridge { base_url, token }
    }

    /// The request that carries `params` to `path`: the address is the
    /// endpoint followed by the path as given, the secret is presented as a
    /// bearer credential, and the body is `params` itself.
    pub fn request(&self, path: &str, params: Value) -> (r: PostRequest)
        ensures
            r.url@ == self.base_url() + path@,
            r.authorization@ == bearer_prefix() + self.token(),
            r.body == params,
    {
        let url = self.base_url.clone().concat(path);
        let authorization = String::from_str("Bearer ").concat(self.token.as_str());
        PostRequest { url, authorization, body: params }
    }
}

/// The failure that a parsed body reports, if it reports one: the text of
/// its `error` member, where the body is an object and that member a string.
pub open spec fn reported_failure(value: Value) -> Option<Seq<char>> {
    match member_of(json_model(value), error_key()) {
        Some(report) => text_in(report),
        None => None,
    }
}

/// What becomes of a parsed body and the failure found in it.
pub open spec fn settled(value: Value, failure: Option<Seq<char>>) -> Result<
    Value,
    BridgeErrorView,
> {
    match failure {
        Some(m) => Err(BridgeErrorView::ExtensionError(m)),
        None => Ok(value),
    }
}

/// What becomes of a body once the parser has returned.
pub open spec fn classified(parsed: Result<Value, serde_json::Error>) -> Result<
    Value,
    BridgeErrorView,
> {
    match parsed {
        Ok(v) => settled(v, reported_failure(v)),
        Err(e) => Err(BridgeErrorView::InvalidJson(e)),
    }
}

/// What becomes of a body: it is sanitized, parsed, and classified.
pub open spec fn decoded(text: Seq<char>) -> Result<Value, BridgeErrorView> {
    classified(json_parse(sanitized(text)))
}

/// What the status alone decides: nothing (`None`) when the body is to be
/// read, else the failure of the call.
pub open spec fn status_outcome(sent: Result<u16, reqwest::Error>) -> Option<BridgeErrorView> {
    match sent {
        Err(e) => Some(BridgeErrorView::ConnectionFailed(e)),
        Ok(status) => if status == UNAUTHORIZED {
            Some(BridgeErrorView::Unauthorized)
        } else {
            None
        },
    }
}

/// What reading the body brought, with the body as a sequence of characters.
pub open spec fn read_view(read: Result<String, reqwest::Error>) -> Result<
    Seq<char>,
    reqwest::Error,
> {
    match read {
        Ok(text) => Ok(text@),
        Err(e) => Err(e),
    }
}

/// What becomes of reading the body.
pub open spec fn body_outcome(read: Result<Seq<char>, reqwest::Error>) -> Result<
    Value,
    BridgeErrorView,
> {
    match read {
        Err(e) => Err(BridgeErrorView::ConnectionFailed(e)),
        Ok(text) => decoded(text),
    }
}

/// The outcome of a whole exchange, given what sending brought and what
/// reading the body brings.
pub open spec fn call_outcome(
    sent: Result<u16, reqwest::Error>,
    read: Result<Seq<char>, reqwest::Error>,
) -> Result<Value, BridgeErrorView> {
    match status_outcome(sent) {
        Some(e) => Err(e),
        None => body_outcome(read),
    }
}

/// Decides on the outcome of sending. A transport failure ends the call; so
/// does status 401, whatever the body holds. Any other status asks for the
/// body to be read.
pub fn after_status(sent: Result<u16, reqwest::Error>) -> (r: Result<(), BridgeError>)
    ensures
        failure_view(r) == status_outcome(sent),
{
    match sent {
        Err(e) => Err(BridgeError::ConnectionFailed(e)),
        Ok(status) => if status == UNAUTHORIZED {
            Err(BridgeError::Unauthorized)
        } else {
            Ok(())
        },
    }
}

/// Decides on the outcome of reading the body.
pub fn after_body(read: Result<String, reqwest::Error>) -> (r: Result<Value, BridgeError>)
    ensures
        outcome_view(r) == body_outcome(read_view(read)),
{
    match read {
        Err(e) => Err(BridgeError::ConnectionFailed(e)),
        Ok(text) => decode(text.as_str()),
    }
}

/// Sanitizes a body, parses it, and classifies what it holds.
pub fn decode(text: &str) -> (r: Result<Value, BridgeError>)
    ensures
        outcome_view(r) == decoded(text@),
{
    let clean = sanitize_str(text);
    classify(parse(clean.as_str()))
}

/// Classifies what the parser returned. A text that is not JSON is
/// `InvalidJson` with the parser's reason; a value that reports a failure is
/// `ExtensionError` with that report; any other value is the result.
pub fn classify(parsed: Result<Value, serde_json::Error>) -> (r: Result<Value, BridgeError>)
    ensures
        outcome_view(r) == classified(parsed),
{
    match parsed {
        Err(e) => Err(BridgeError::InvalidJson(e)),
        Ok(value) => {
            let failure = reported(&value);
            settle(value, failure)
        },
    }
}

/// Looks for the failure that a parsed body reports.
pub fn reported(value: &Value) -> (r: Option<String>)
    ensures
        text_view(r) == reported_failure(*value),
{
    match member(value, "error") {
        Some(m) => match text_of(m) {
            Some(s) => Some(String::from_str(s)),
            None => None,
        },
        None => None,
    }
}

/// Settles a call whose body parsed: with a reported failure the call fails
/// with that report, without one the value is the result, unchanged.
pub fn settle(value: Value, failure: Option<String>) -> (r: Result<Value, BridgeError>)
    ensures
        outcome_view(r) == settled(value, text_view(failure)),
{
    match failure {
        Some(m) => Err(BridgeError::ExtensionError(m)),
        None => Ok(value),
    }
}

/// A response with status 401 makes the call fail as `Unauthorized`,
/// whatever reading the body would bring.
pub proof fn lemma_unauthorized_ignores_body(read: Result<Seq<char>, reqwest::Error>)
    ensures
        call_outcome(Ok(UNAUTHORIZED), read) == Err::<Value, BridgeErrorView>(
            BridgeErrorView::Unauthorized,
        ),
{
}

/// A request that could not be delivered makes the call fail as
/// `ConnectionFailed`, whatever reading the body would bring.
pub proof fn lemma_undelivered_ignores_body(
    failure: reqwest::Error,
    read: Result<Seq<char>, reqwest::Error>,
)
    ensures
        call_outcome(Err(failure), read) == Err::<Value, BridgeErrorView>(
            BridgeErrorView::ConnectionFailed(failure),
        ),
{
}

/// With any status but 401 the outcome is that of the body alone: no other
/// status is told apart.
pub proof fn lemma_other_statuses_alike(
    first: u16,
    second: u16,
    read: Result<Seq<char>, reqwest::Error>,
)
    requires
        first != UNAUTHORIZED,
        second != UNAUTHORIZED,
    ensures
        call_outcome(Ok(first), read) == body_outcome(read),
        call_outcome(Ok(first), read) == call_outcome(Ok(second), read),
{
}

/// Two bodies that differ only in the characters that sanitizing removes
/// have the same outcome; a body and its sanitized form in particular.
pub proof fn lemma_decoded_after_sanitizing(first: Seq<char>, second: Seq<char>)
    requires
        sanitized(first) == sanitized(second),
    ensures
        decoded(first) == decoded(second),
        decoded(sanitized(first)) == decoded(first),
{
    lemma_sanitize_idempotent(first);
}

/// Decoding a body ends in one of three ways, each under its own condition:
/// the sanitized body is not JSON (`InvalidJson`, with the parser's reason);
/// it is JSON and reports a failure (`ExtensionError`, with the report); or
/// it is JSON and reports none, and then the parsed value is the result.
pub proof fn lemma_decoded_cases(text: Seq<char>)
    ensures
        decoded(text) matches Ok(v) ==> json_parse(sanitized(text)) == Ok::<
            Value,
            serde_json::Error,
        >(v) && reported_failure(v) is None,
        decoded(text) matches Err(BridgeErrorView::InvalidJson(e)) ==> json_parse(sanitized(text))
            == Err::<Value, serde_json::Error>(e),
        decoded(text) matches Err(BridgeErrorView::ExtensionError(m)) ==> json_parse(
            sanitized(text),
        ) matches Ok(v) && reported_failure(v) == Some(m),
        !(decoded(text) matches Err(BridgeErrorView::ConnectionFailed(_))),
        !(decoded(text) matches Err(BridgeErrorView::Unauthorized)),
{
}

} // verus!
