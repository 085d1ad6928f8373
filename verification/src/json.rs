//! JSON texts, made and read by `serde_json`.

use vstd::prelude::*;

verus! {

/// The value of a field of a JSON object.
#[derive(Clone, Debug)]
pub enum JsonValue {
    Text(String),
    Flag(bool),
}

pub enum JsonView {
    Text(Seq<char>),
    Flag(bool),
}

impl View for JsonValue {
    type V = JsonView;

    open spec fn view(&self) -> JsonView {
        match self {
            JsonValue::Text(text) => JsonView::Text(text@),
            JsonValue::Flag(flag) => JsonView::Flag(*flag),
        }
    }
}

/// The fields of a JSON object, each with its value.
pub open spec fn json_fields(fields: Seq<(String, JsonValue)>) -> Seq<(Seq<char>, JsonView)> {
    fields.map_values(|f: (String, JsonValue)| (f.0@, f.1@))
}

/// The text that `serde_json` writes for the object with these fields.
pub uninterp spec fn json_object_text(fields: Seq<(Seq<char>, JsonView)>) -> Seq<char>;

/// `serde_json::Value::to_string` on an object: the text is a function of the fields
/// that the object was made of, in their order.
#[verifier::external_body]
pub(crate) fn json_object(fields: &Vec<(String, JsonValue)>) -> (r: String)
    ensures
        r@ == json_object_text(json_fields(fields@)),
{
    let object: serde_json::Map<String, serde_json::Value> = fields
        .iter()
        .map(|(name, value)| {
            let value = match value {
                JsonValue::Text(text) => serde_json::Value::from(text.as_str()),
                JsonValue::Flag(flag) => serde_json::Value::from(*flag),
            };
            (name.clone(), value)
        })
        .collect();
    serde_json::Value::Object(object).to_string()
}

/// The text that `serde_json` writes for a list of texts.
pub uninterp spec fn json_list_text(items: Seq<Seq<char>>) -> Seq<char>;

/// What `serde_json` reads from a text that is to hold a list of texts: the list, or the
/// message of its error.
pub uninterp spec fn json_list_items(text: Seq<char>) -> Result<Seq<Seq<char>>, Seq<char>>;

/// A reading that succeeds, with the list `items`.
pub open spec fn read_as(items: Seq<Seq<char>>) -> Result<Seq<Seq<char>>, Seq<char>> {
    Ok(items)
}

/// `serde_json::to_string` on a list of strings: the text is a function of the list, and
/// reading it gives the list back.
#[verifier::external_body]
pub(crate) fn json_list(items: &Vec<String>) -> (r: String)
    ensures
        r@ == json_list_text(crate::text::texts(items@)),
        json_list_items(r@) == read_as(crate::text::texts(items@)),
{
    serde_json::to_string(items).expect("a list of strings is always written")
}

/// `serde_json::from_str` to a list of strings: the list or the error's message is a
/// function of the text.
#[verifier::external_body]
pub(crate) fn parse_json_list(text: &str) -> (r: Result<Vec<String>, String>)
    ensures
        match r {
            Ok(items) => json_list_items(text@) matches Ok(read) && read == crate::text::texts(
                items@,
            ),
            Err(message) => json_list_items(text@) matches Err(error) && error == message@,
        },
{
    serde_json::from_str(text).map_err(|e| e.to_string())
}

} // verus!
