//! Reading and changing JSON.

use vstd::prelude::*;
use crate::text::Text;

verus! {

/// Whether two texts are JSON, and read as the same value.
pub uninterp spec fn read_as_same_value(left: Seq<char>, right: Seq<char>) -> bool;

/// Whether two texts are JSON and read as the same value, as `serde_json::from_str` reads them and
/// as `serde_json::Value` compares. Which texts these are is not stated here: the result has a name,
/// and depends on nothing but the two texts.
#[verifier::external_body]
pub(crate) fn read_alike(left: &Text, right: &Text) -> (r: bool)
    ensures
        r == read_as_same_value(left@, right@),
{
    let left: Result<serde_json::Value, serde_json::Error> = serde_json::from_str(&left.value);
    let right: Result<serde_json::Value, serde_json::Error> = serde_json::from_str(&right.value);
    match (left, right) {
        (Ok(left), Ok(right)) => left == right,
        _ => false,
    }
}

/// Why a text is not JSON, where it is not.
pub uninterp spec fn json_refusal(text: Seq<char>) -> Option<Seq<char>>;

/// What `serde_json::from_str` says of a text that it does not read as a `serde_json::Value`. Which
/// texts these are, and what is said of them, is not stated here: the result has a name, and depends
/// on nothing but the text.
#[verifier::external_body]
pub(crate) fn refuse_json(text: &Text) -> (r: Option<Text>)
    ensures
        match r {
            Some(message) => json_refusal(text@) == Some(message@),
            None => json_refusal(text@) is None,
        },
{
    match serde_json::from_str::<serde_json::Value>(&text.value) {
        Ok(_) => None,
        Err(error) => Some(Text { value: error.to_string() }),
    }
}

/// A place in a document that may hold a text.
#[derive(Debug)]
pub enum JsonString {
    Missing,
    Null,
    Written(Text),
    Other,
}

/// A place in a document, with its text as a sequence.
pub enum JsonStringView {
    Missing,
    Null,
    Written(Seq<char>),
    Other,
}

impl View for JsonString {
    type V = JsonStringView;

    open spec fn view(&self) -> JsonStringView {
        match self {
            JsonString::Missing => JsonStringView::Missing,
            JsonString::Null => JsonStringView::Null,
            JsonString::Written(text) => JsonStringView::Written(text@),
            JsonString::Other => JsonStringView::Other,
        }
    }
}

/// What a JSON text holds where a pointer leads.
pub uninterp spec fn string_at(json: Seq<char>, pointer: Seq<char>) -> JsonStringView;

/// What `serde_json::Value::pointer` finds in a JSON text: nothing, null, a text or something else.
/// A text that is not JSON holds nothing. What a given text holds is not stated here: the result has
/// a name, and depends on nothing but the text and the pointer.
#[verifier::external_body]
pub(crate) fn find_string(json: &Text, pointer: &str) -> (r: JsonString)
    ensures
        r@ == string_at(json@, pointer@),
        json_refusal(json@) is Some ==> r is Missing,
{
    match serde_json::from_str::<serde_json::Value>(&json.value) {
        Err(_) => JsonString::Missing,
        Ok(value) => match value.pointer(pointer) {
            None => JsonString::Missing,
            Some(serde_json::Value::Null) => JsonString::Null,
            Some(serde_json::Value::String(text)) => JsonString::Written(Text { value: text.clone() }),
            Some(_) => JsonString::Other,
        },
    }
}

/// A JSON text with another value where a pointer leads.
pub uninterp spec fn replaced_at(
    json: Seq<char>,
    pointer: Seq<char>,
    value: Seq<char>,
) -> Seq<char>;

/// Puts a value, given as JSON, where a pointer leads in a JSON text, by
/// `serde_json::Value::pointer_mut`, and writes the text anew. Where one of the texts is not JSON, or
/// the pointer leads nowhere, the text stays. Where what is written is read again, the pointer leads
/// to the value; it is not where the value makes the text nest too deep. How the text is written is
/// not stated here: the result has a name, and depends on nothing but the arguments.
#[verifier::external_body]
pub(crate) fn replace_at(json: &Text, pointer: &str, value: &Text) -> (r: Text)
    ensures
        r@ == replaced_at(json@, pointer@, value@),
        !(string_at(json@, pointer@) is Missing) && json_refusal(value@) is None && json_refusal(r@)
            is None ==> string_at(r@, pointer@) == string_at(value@, Seq::empty()),
{
    match (serde_json::from_str::<serde_json::Value>(&json.value), serde_json::from_str(&value.value)) {
        (Ok(mut document), Ok(value)) => match document.pointer_mut(pointer) {
            Some(place) => {
                *place = value;
                Text { value: document.to_string() }
            },
            None => json.clone(),
        },
        _ => json.clone(),
    }
}

/// A JSON object with a member that holds a text or null.
pub uninterp spec fn with_member(
    json: Seq<char>,
    key: Seq<char>,
    value: Option<Seq<char>>,
) -> Option<Seq<char>>;

/// Whether a pointer can name a member by its key as it is.
pub open spec fn is_plain_key(key: Seq<char>) -> bool {
    !key.contains('/') && !key.contains('~')
}

/// The place of an optional text.
pub open spec fn held(value: Option<Seq<char>>) -> JsonStringView {
    match value {
        Some(text) => JsonStringView::Written(text),
        None => JsonStringView::Null,
    }
}

/// The text of an optional text.
pub open spec fn viewed(value: Option<Text>) -> Option<Seq<char>> {
    match value {
        Some(text) => Some(text@),
        None => None,
    }
}

/// Puts a member into a JSON object, by `serde_json::Map::insert`, and writes the object anew; what
/// is not a JSON object gives nothing. The member is found again where its key can be a pointer. How
/// the rest of the object is written is not stated here: the result has a name, and depends on
/// nothing but the arguments.
#[verifier::external_body]
pub(crate) fn insert_member(json: &Text, key: &str, value: &Option<Text>) -> (r: Option<Text>)
    ensures
        viewed(r) == with_member(json@, key@, viewed(*value)),
        r matches Some(written) ==> json_refusal(json@) is None && json_refusal(written@) is None,
        r matches Some(written) ==> (is_plain_key(key@) ==> string_at(
            written@,
            seq!['/'] + key@,
        ) == held(viewed(*value))),
{
    match serde_json::from_str::<serde_json::Value>(&json.value) {
        Ok(serde_json::Value::Object(mut members)) => {
            let value = match value {
                Some(text) => serde_json::Value::String(text.value.clone()),
                None => serde_json::Value::Null,
            };
            members.insert(key.to_owned(), value);
            Some(Text { value: serde_json::Value::Object(members).to_string() })
        },
        _ => None,
    }
}

} // verus!
