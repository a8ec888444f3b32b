//! Reading the text fields of a completion response with `serde_json`.
//!
//! Parsing and indexing are done by `serde_json`; nothing in this module looks
//! inside a document by itself. What the library needs to know of a document is
//! which paths lead to a JSON string and what that string holds, so that is what
//! the trusted contracts below speak about.

use vstd::prelude::*;

verus! {

/// Opaque handle on a parsed JSON document.
#[verifier::external_type_specification]
#[verifier::external_body]
pub struct ExJsonValue(serde_json::Value);

/// One step from a JSON value to one of its children.
pub enum JsonStep {
    /// The member of an object stored under this key.
    Member(Seq<char>),
    /// The element of an array at this position.
    Element(nat),
}

/// The JSON strings held by a document, each under the path that leads to it
/// from the root. A document that is itself a string holds it under the empty
/// path; numbers, booleans and nulls contribute nothing.
pub uninterp spec fn json_texts(doc: serde_json::Value) -> Map<Seq<JsonStep>, Seq<char>>;

/// What parsing a text yields: nothing when the text is not one JSON document,
/// otherwise the strings of the document.
pub uninterp spec fn parsed_texts(text: Seq<char>) -> Option<Map<Seq<JsonStep>, Seq<char>>>;

/// The strings found below one child: every path of `texts` that starts with
/// `step`, with that first step removed.
pub open spec fn texts_under(texts: Map<Seq<JsonStep>, Seq<char>>, step: JsonStep) -> Map<
    Seq<JsonStep>,
    Seq<char>,
> {
    Map::new(
        |p: Seq<JsonStep>| texts.contains_key(seq![step] + p),
        |p: Seq<JsonStep>| texts[seq![step] + p],
    )
}

/// The string stored under `path`, if there is one.
pub open spec fn text_at(texts: Map<Seq<JsonStep>, Seq<char>>, path: Seq<JsonStep>) -> Option<
    Seq<char>,
> {
    if texts.contains_key(path) {
        Some(texts[path])
    } else {
        None
    }
}

/// View of an optional string.
pub open spec fn text_view(t: Option<String>) -> Option<Seq<char>> {
    match t {
        Some(s) => Some(s@),
        None => None,
    }
}

/// Path of the reply text in a completion response: `choices[0].message.content`.
pub open spec fn content_path() -> Seq<JsonStep> {
    seq![
        JsonStep::Member("choices"@),
        JsonStep::Element(0),
        JsonStep::Member("message"@),
        JsonStep::Member("content"@),
    ]
}

/// Path of the message of an upstream error: `error.message`.
pub open spec fn error_path() -> Seq<JsonStep> {
    seq![JsonStep::Member("error"@), JsonStep::Member("message"@)]
}

/// Trusted: `serde_json::from_str::<serde_json::Value>`. Parsing is a function of
/// the text alone: it either rejects the text or yields a document whose strings
/// are the ones named by `parsed_texts`. The parse error itself is dropped.
#[verifier::external_body]
fn parse_json(text: &str) -> (r: Option<serde_json::Value>)
    ensures
        match r {
            Some(doc) => parsed_texts(text@) == Some(json_texts(doc)),
            None => parsed_texts(text@) is None,
        },
{
    serde_json::from_str::<serde_json::Value>(text).ok()
}

/// Trusted: `Index<&str>` of `serde_json::Value`. Indexing by a key yields the
/// member stored under it, or a null where the value is not an object or has no
/// such member; either way the result holds exactly the strings that the value
/// holds below that key.
#[verifier::external_body]
fn json_member<'a>(value: &'a serde_json::Value, key: &str) -> (r: &'a serde_json::Value)
    ensures
        json_texts(*r) == texts_under(json_texts(*value), JsonStep::Member(key@)),
{
    &value[key]
}

/// Trusted: `Index<usize>` of `serde_json::Value`. Indexing by a position yields
/// that element, or a null where the value is not an array or is too short;
/// either way the result holds exactly the strings that the value holds below
/// that position.
#[verifier::external_body]
fn json_element<'a>(value: &'a serde_json::Value, index: usize) -> (r: &'a serde_json::Value)
    ensures
        json_texts(*r) == texts_under(json_texts(*value), JsonStep::Element(index as nat)),
{
    &value[index]
}

/// Trusted: `serde_json::Value::as_str`. A value yields a string exactly when it
/// is a JSON string, which is when it holds a string under the empty path.
#[verifier::external_body]
fn json_text(value: &serde_json::Value) -> (r: Option<String>)
    ensures
        text_view(r) == text_at(json_texts(*value), Seq::<JsonStep>::empty()),
{
    value.as_str().map(|s| s.to_string())
}

/// The text fields of a completion response that the chat flow reads.
#[derive(Clone, Debug, PartialEq, Eq)]
pub struct ReplyFields {
    /// `error.message`, where it is a string.
    pub error_message: Option<String>,
    /// `choices[0].message.content`, where it is a string.
    pub content: Option<String>,
}

/// The fields found in the strings of a document.
pub open spec fn fields_of(texts: Map<Seq<JsonStep>, Seq<char>>) -> (Option<Seq<char>>, Option<
    Seq<char>,
>) {
    (text_at(texts, error_path()), text_at(texts, content_path()))
}

impl ReplyFields {
    /// Both fields by their views, error message first.
    pub open spec fn view(&self) -> (Option<Seq<char>>, Option<Seq<char>>) {
        (text_view(self.error_message), text_view(self.content))
    }
}

/// Reads `error.message` out of a parsed response.
fn upstream_message(doc: &serde_json::Value) -> (r: Option<String>)
    ensures
        text_view(r) == text_at(json_texts(*doc), error_path()),
{
    let error = json_member(doc, "error");
    let message = json_member(error, "message");
    let r = json_text(message);
    proof {
        let s1 = JsonStep::Member("error"@);
        let s2 = JsonStep::Member("message"@);
        let empty = Seq::<JsonStep>::empty();
        assert(seq![s2] + empty =~= seq![s2]);
        assert(seq![s1] + seq![s2] =~= error_path());
    }
    r
}

/// Reads `choices[0].message.content` out of a parsed response.
fn reply_content(doc: &serde_json::Value) -> (r: Option<String>)
    ensures
        text_view(r) == text_at(json_texts(*doc), content_path()),
{
    let choices = json_member(doc, "choices");
    let first = json_element(choices, 0);
    let message = json_member(first, "message");
    let content = json_member(message, "content");
    let r = json_text(content);
    proof {
        let s1 = JsonStep::Member("choices"@);
        let s2 = JsonStep::Element(0);
        let s3 = JsonStep::Member("message"@);
        let s4 = JsonStep::Member("content"@);
        let empty = Seq::<JsonStep>::empty();
        assert(seq![s4] + empty =~= seq![s4]);
        assert(seq![s3] + seq![s4] =~= seq![s3, s4]);
        assert(seq![s2] + seq![s3, s4] =~= seq![s2, s3, s4]);
        assert(seq![s1] + seq![s2, s3, s4] =~= content_path());
    }
    r
}

/// Parses a response body and picks out the fields of a completion response.
/// Returns nothing exactly when the body is not a JSON document.
pub fn read_reply_fields(body: &str) -> (r: Option<ReplyFields>)
    ensures
        match r {
            Some(fields) => parsed_texts(body@) is Some && fields@ == fields_of(
                parsed_texts(body@).unwrap(),
            ),
            None => parsed_texts(body@) is None,
        },
{
    match parse_json(body) {
        Some(doc) => {
            let error_message = upstream_message(&doc);
            let content = reply_content(&doc);
            Some(ReplyFields { error_message, content })
        },
        None => None,
    }
}

} // verus!
