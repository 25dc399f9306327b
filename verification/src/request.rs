//! What a tool hands to the bridge: an endpoint path and a JSON object of
//! named parameters.

use vstd::prelude::*;
use vstd::string::StringExecFns;
use serde_json::Value;
use crate::text::texts;

verus! {

/// The value of one parameter.
#[derive(Debug, PartialEq)]
pub enum Param {
    /// JSON `null`: the parameter was left unset.
    Null,
    Bool(bool),
    Number(u32),
    Text(String),
    /// An array of strings.
    TextList(Vec<String>),
    /// A JSON value that is passed on as it came.
    Json(Value),
}

/// A `Param` with its texts as sequences of characters.
pub enum ParamView {
    Null,
    Bool(bool),
    Number(u32),
    Text(Seq<char>),
    TextList(Seq<Seq<char>>),
    Json(Value),
}

impl View for Param {
    type V = ParamView;

    open spec fn view(&self) -> ParamView {
        match *self {
            Param::Null => ParamView::Null,
            Param::Bool(b) => ParamView::Bool(b),
            Param::Number(n) => ParamView::Number(n),
            Param::Text(t) => ParamView::Text(t@),
            Param::TextList(l) => ParamView::TextList(texts(l@)),
            Param::Json(v) => ParamView::Json(v),
        }
    }
}

/// One member of the payload.
#[derive(Debug, PartialEq)]
pub struct Field {
    pub name: String,
    pub value: Param,
}

impl View for Field {
    type V = (Seq<char>, ParamView);

    open spec fn view(&self) -> (Seq<char>, ParamView) {
        (self.name@, self.value@)
    }
}

/// The members of a payload, each as a name and a value.
pub open spec fn members(fields: Seq<Field>) -> Seq<(Seq<char>, ParamView)> {
    fields.map_values(|f: Field| f@)
}

/// One invocation of the extension: where it goes, and the members of the
/// JSON object it carries, in the order given.
#[derive(Debug, PartialEq)]
pub struct RpcRequest {
    pub path: String,
    pub fields: Vec<Field>,
}

/// An `RpcRequest` as plain data.
pub struct RpcRequestView {
    pub path: Seq<char>,
    pub fields: Seq<(Seq<char>, ParamView)>,
}

impl View for RpcRequest {
    type V = RpcRequestView;

    open spec fn view(&self) -> RpcRequestView {
        RpcRequestView { path: self.path@, fields: members(self.fields@) }
    }
}

/// The parameter for a text that may be unset.
pub open spec fn text_or_null(text: Option<String>) -> ParamView {
    match text {
        Some(t) => ParamView::Text(t@),
        None => ParamView::Null,
    }
}

/// The parameter for a flag that may be unset.
pub open spec fn bool_or_null(flag: Option<bool>) -> ParamView {
    match flag {
        Some(b) => ParamView::Bool(b),
        None => ParamView::Null,
    }
}

/// The parameter for a number that may be unset.
pub open spec fn number_or_null(number: Option<u32>) -> ParamView {
    match number {
        Some(n) => ParamView::Number(n),
        None => ParamView::Null,
    }
}

/// The parameter for a list of texts that may be unset.
pub open spec fn list_or_null(list: Option<Vec<String>>) -> ParamView {
    match list {
        Some(l) => ParamView::TextList(texts(l@)),
        None => ParamView::Null,
    }
}

/// The parameter for a JSON value that may be unset.
pub open spec fn json_or_null(value: Option<Value>) -> ParamView {
    match value {
        Some(v) => ParamView::Json(v),
        None => ParamView::Null,
    }
}

impl Param {
    /// A text, or `null` where it is unset.
    pub fn opt_text(text: Option<String>) -> (r: Param)
        ensures
            r@ == text_or_null(text),
    {
        match text {
            Some(t) => Param::Text(t),
            None => Param::Null,
        }
    }

    /// A flag, or `null` where it is unset.
    pub fn opt_bool(flag: Option<bool>) -> (r: Param)
        ensures
            r@ == bool_or_null(flag),
    {
        match flag {
            Some(b) => Param::Bool(b),
            None => Param::Null,
        }
    }

    /// A number, or `null` where it is unset.
    pub fn opt_number(number: Option<u32>) -> (r: Param)
        ensures
            r@ == number_or_null(number),
    {
        match number {
            Some(n) => Param::Number(n),
            None => Param::Null,
        }
    }

    /// A list of texts, or `null` where it is unset.
    pub fn opt_list(list: Option<Vec<String>>) -> (r: Param)
        ensures
            r@ == list_or_null(list),
    {
        match list {
            Some(l) => Param::TextList(l),
            None => Param::Null,
        }
    }

    /// A JSON value, or `null` where it is unset.
    pub fn opt_json(value: Option<Value>) -> (r: Param)
        ensures
            r@ == json_or_null(value),
    {
        match value {
            Some(v) => Param::Json(v),
            None => Param::Null,
        }
    }
}

impl RpcRequest {
    /// A request to `path` with an empty payload.
    pub fn to(path: &str) -> (r: RpcRequest)
        ensures
            r@.path == path@,
            r@.fields == Seq::<(Seq<char>, ParamView)>::empty(),
    {
        let r = RpcRequest { path: String::from_str(path), fields: Vec::new() };
        assert(members(r.fields@) =~= Seq::empty());
        r
    }

    /// The request with one more member at the end of its payload.
    pub fn with(self, name: &str, value: Param) -> (r: RpcRequest)
        ensures
            r@.path == self@.path,
            r@.fields == self@.fields.push((name@, value@)),
    {
        let mut fields = self.fields;
        let field = Field { name: String::from_str(name), value };
        fields.push(field);
        assert(members(fields@) =~= members(self.fields@).push((name@, value@)));
        RpcRequest { path: self.path, fields }
    }
}

} // verus!
