//! JSON documents, and their text as `serde_json` writes it.

use vstd::prelude::*;

verus! {

/// A JSON value.
#[derive(Debug, PartialEq, Eq)]
pub enum Json {
    /// The value `null`.
    Null,
    /// An integer.
    Int(i64),
    /// A number, given by its JSON text.
    Number(String),
    /// A string.
    Text(String),
    /// An array.
    List(Vec<Json>),
    /// An object: its members, each a key and a value.
    Object(Vec<(String, Json)>),
}

/// The mathematical model of a `Json` value.
pub enum JsonView {
    Null,
    Int(i64),
    Number(Seq<char>),
    Text(Seq<char>),
    List(Seq<JsonView>),
    Object(Seq<(Seq<char>, JsonView)>),
}

/// The model of a JSON value.
pub open spec fn json_view(value: Json) -> JsonView
    decreases value,
{
    match value {
        Json::Null => JsonView::Null,
        Json::Int(n) => JsonView::Int(n),
        Json::Number(text) => JsonView::Number(text@),
        Json::Text(text) => JsonView::Text(text@),
        Json::List(items) => JsonView::List(
            Seq::new(
                items@.len(),
                |i: int|
                    if 0 <= i < items@.len() {
                        json_view(items@[i])
                    } else {
                        JsonView::Int(0)
                    },
            ),
        ),
        Json::Object(members) => JsonView::Object(
            Seq::new(
                members@.len(),
                |i: int|
                    if 0 <= i < members@.len() {
                        (members@[i].0@, json_view(members@[i].1))
                    } else {
                        (Seq::empty(), JsonView::Int(0))
                    },
            ),
        ),
    }
}

impl View for Json {
    type V = JsonView;

    open spec fn view(&self) -> JsonView {
        json_view(*self)
    }
}

/// An outside type: a JSON value of `serde_json`.
#[verifier::external_type_specification]
#[verifier::external_body]
pub struct ExValue(serde_json::Value);

/// The text of a document as `serde_json::to_string_pretty` writes it: members of an
/// object sorted by key, two blanks of indentation for each level. `None` where the
/// document holds a `Number` whose text is no JSON number.
pub uninterp spec fn pretty_text(document: JsonView) -> Option<Seq<char>>;

/// Turns a document into a value of `serde_json`, variant by variant; the text of a `Number`
/// is read with `serde_json::from_str`, whose error comes back as its text. Trusted, with
/// nothing promised of the result.
#[verifier::external_body]
fn to_value(document: &Json) -> Result<serde_json::Value, String> {
    let value = match document {
        Json::Null => serde_json::Value::Null,
        Json::Int(n) => serde_json::Value::from(*n),
        Json::Number(text) => serde_json::from_str::<serde_json::Number>(text)
            .map_err(|e| e.to_string())?.into(),
        Json::Text(text) => serde_json::Value::String(text.clone()),
        Json::List(items) => items.iter().map(to_value).collect::<Result<_, _>>()?,
        Json::Object(members) => members.iter().map(|(k, v)| Ok((k.clone(), to_value(v)?)))
            .collect::<Result<_, String>>()?,
    };
    Ok(value)
}

/// Calls `serde_json::to_string_pretty` on the value of `document`; an error comes back as
/// its text. Trusted: the result depends on the document alone; its text is named
/// `pretty_text` in contracts.
#[verifier::external_body]
fn to_string_pretty(document: &Json) -> (r: Result<String, String>)
    ensures
        match r {
            Ok(text) => pretty_text(document@) == Some(text@),
            Err(_) => pretty_text(document@) is None,
        },
{
    serde_json::to_string_pretty(&to_value(document)?).map_err(|e| e.to_string())
}

/// The models of the items of a list.
pub open spec fn item_views(items: Seq<Json>) -> Seq<JsonView> {
    Seq::new(items.len(), |i: int| items[i]@)
}

/// The models of the members of an object.
pub open spec fn member_views(members: Seq<(String, Json)>) -> Seq<(Seq<char>, JsonView)> {
    Seq::new(members.len(), |i: int| (members[i].0@, members[i].1@))
}

impl Json {
    /// The array of `items`.
    pub fn list(items: Vec<Json>) -> (r: Json)
        ensures
            r@ == JsonView::List(item_views(items@)),
    {
        let r = Json::List(items);
        assert(r@->List_0 =~= item_views(items@));
        r
    }

    /// The object of `members`.
    pub fn object(members: Vec<(String, Json)>) -> (r: Json)
        ensures
            r@ == JsonView::Object(member_views(members@)),
    {
        let r = Json::Object(members);
        assert(r@->Object_0 =~= member_views(members@));
        r
    }

    /// The text of this document, pretty-printed, or the message of the serialiser where
    /// the document holds a number that is none.
    pub fn pretty(&self) -> (r: Result<String, String>)
        ensures
            match r {
                Ok(text) => pretty_text(self@) == Some(text@),
                Err(_) => pretty_text(self@) is None,
            },
    {
        to_string_pretty(self)
    }
}

} // verus!
