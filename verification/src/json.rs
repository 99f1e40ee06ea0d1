//! The part of a JSON text that this crate reads: whether the text decodes,
//! whether it is an object, and the members of that object.

use serde_json::Value;
use vstd::prelude::*;

verus! {

#[verifier::external_type_specification]
#[verifier::external_body]
pub struct ExJsonError(serde_json::Error);

/// One member of a JSON object.
#[derive(Clone, Debug)]
pub struct JsonMember {
    /// The member's name.
    pub name: String,
    /// The characters of the value where the value is a JSON string.
    pub text: Option<String>,
    /// The value written out as compact JSON.
    pub rendered: String,
}

/// A `JsonMember` as sequences of characters.
pub struct MemberView {
    pub name: Seq<char>,
    pub text: Option<Seq<char>>,
    pub rendered: Seq<char>,
}

impl View for JsonMember {
    type V = MemberView;

    open spec fn view(&self) -> MemberView {
        MemberView {
            name: self.name@,
            text: match self.text {
                Some(t) => Some(t@),
                None => None,
            },
            rendered: self.rendered@,
        }
    }
}

impl DeepView for JsonMember {
    type V = MemberView;

    open spec fn deep_view(&self) -> MemberView {
        self.view()
    }
}

/// What decoding a text gave.
#[derive(Clone, Debug)]
pub enum JsonDocument {
    /// The text is no JSON value.
    Malformed,
    /// The text is a JSON value other than an object.
    NotAnObject,
    /// The text is a JSON object with these members, in the decoder's order.
    Object(Vec<JsonMember>),
}

/// A `JsonDocument` as sequences.
pub enum DocumentView {
    Malformed,
    NotAnObject,
    Object(Seq<MemberView>),
}

impl View for JsonDocument {
    type V = DocumentView;

    open spec fn view(&self) -> DocumentView {
        match self {
            JsonDocument::Malformed => DocumentView::Malformed,
            JsonDocument::NotAnObject => DocumentView::NotAnObject,
            JsonDocument::Object(members) => DocumentView::Object(members.deep_view()),
        }
    }
}

/// What the JSON decoder makes of a text.
pub uninterp spec fn json_decoded(bytes: Seq<u8>) -> DocumentView;

/// Decodes a text with `serde_json::from_slice` and hands out the members of
/// the object it holds.
///
/// Trusted: the decoder's answer depends on the bytes alone, so it is
/// `json_decoded(bytes@)`: an error for a text that is no JSON value, nothing
/// for a value that `Value::as_object` does not take for an object, and else
/// the members as `Map::iter` yields them, each with its name, with what
/// `Value::as_str` gives for its value and with the value as `to_string`
/// prints it.
#[verifier::external_body]
pub(crate) fn read_object(bytes: &[u8]) -> (res: Result<Option<Vec<JsonMember>>, serde_json::Error>)
    ensures
        json_decoded(bytes@) == match res {
            Ok(Some(members)) => DocumentView::Object(members.deep_view()),
            Ok(None) => DocumentView::NotAnObject,
            Err(_) => DocumentView::Malformed,
        },
{
    let value: Value = serde_json::from_slice(bytes)?;
    Ok(value.as_object().map(|object| object.iter().map(|(name, value)| JsonMember {
        name: name.clone(),
        text: value.as_str().map(|text| text.to_owned()),
        rendered: value.to_string(),
    }).collect()))
}

/// Decodes a JSON text.
pub fn decode(bytes: &[u8]) -> (doc: JsonDocument)
    ensures
        doc@ == json_decoded(bytes@),
{
    match read_object(bytes) {
        Ok(Some(members)) => JsonDocument::Object(members),
        Ok(None) => JsonDocument::NotAnObject,
        Err(_) => JsonDocument::Malformed,
    }
}

} // verus!
