//! The JSON calls the filter makes, through `serde_json`.
//!
//! A parsed document is a `serde_json::Value`, which Verus sees as opaque.
//! `JsonBody` holds one together with what it is: the text it was parsed
//! from and the string members replaced in it since, in order.  That pair is
//! its view, and the names below speak of a document through it.

use serde_json::Value;
use vstd::prelude::*;

verus! {

/// A parsed JSON document, carried through the filter without being looked into.
#[verifier::external_type_specification]
#[verifier::external_body]
pub struct ExJsonValue(Value);

/// The error `serde_json` reports for a text it cannot parse or a value it cannot write.
#[verifier::external_type_specification]
#[verifier::external_body]
pub struct ExJsonError(serde_json::Error);

/// A document as the text it was parsed from and the `(key, text)` string
/// replacements made in it since, in order.
pub type JsonDocument = (Seq<u8>, Seq<(Seq<char>, Seq<char>)>);

/// Whether `serde_json::from_slice::<serde_json::Value>` accepts `bytes`,
/// i.e. whether they are one JSON text.
pub uninterp spec fn json_text_parses(bytes: Seq<u8>) -> bool;

/// What `serde_json::Value::get(key)` finds in `document`, when it finds a
/// JSON string: that string.  `None` when the member is missing or is not a
/// string (or the document is not an object).
pub uninterp spec fn json_string_member(document: JsonDocument, key: Seq<char>) -> Option<Seq<char>>;

/// The text `serde_json::to_vec` writes for `document`; `None` when it
/// reports an error.
pub uninterp spec fn json_text_written(document: JsonDocument) -> Option<Seq<u8>>;

/// A parsed JSON request body.
pub struct JsonBody {
    document: Value,
    source: Ghost<Seq<u8>>,
    replacements: Ghost<Seq<(Seq<char>, Seq<char>)>>,
}

impl View for JsonBody {
    type V = JsonDocument;

    closed spec fn view(&self) -> JsonDocument {
        (self.source@, self.replacements@)
    }
}

/// Parses `bytes` with `serde_json::from_slice::<serde_json::Value>` and
/// holds the document it returns.  Claimed: the call succeeds exactly when
/// `json_text_parses` holds of the bytes, and the document held is the one
/// parsed from exactly these bytes, with nothing replaced yet.  Nothing is
/// claimed of the error.
#[verifier::external_body]
pub(crate) fn parse_json_value(bytes: &[u8]) -> (parsed: Result<JsonBody, serde_json::Error>)
    ensures
        parsed is Ok <==> json_text_parses(bytes@),
        parsed matches Ok(body) ==> body@ == (bytes@, Seq::<(Seq<char>, Seq<char>)>::empty()),
{
    match serde_json::from_slice::<Value>(bytes) {
        Ok(document) => Ok(
            JsonBody { document, source: Ghost(bytes@), replacements: Ghost(Seq::empty()) },
        ),
        Err(e) => Err(e),
    }
}

impl JsonBody {
    /// Reads member `key` with `serde_json::Value::get` and hands it out when
    /// it is a JSON string.  Claimed: the result is `json_string_member` of
    /// the document and the key.
    #[verifier::external_body]
    pub(crate) fn string_member(&self, key: &str) -> (member: Option<&String>)
        ensures
            match member {
                Some(text) => json_string_member(self@, key@) == Some(text@),
                None => json_string_member(self@, key@) is None,
            },
    {
        match self.document.get(key) {
            Some(Value::String(text)) => Some(text),
            _ => None,
        }
    }

    /// Replaces member `key`, where the document has it, with the string
    /// `text`, through `serde_json::Value::get_mut`.  Claimed: the document
    /// is afterwards the same one with this replacement recorded; a string
    /// member `key` now holds `text`; and every other member reads as before
    /// (`get_mut` with a key reaches only that member of an object, and
    /// nothing in any other value).
    #[verifier::external_body]
    pub(crate) fn set_string_member(&mut self, key: &str, text: String)
        ensures
            final(self)@ == (old(self)@.0, old(self)@.1.push((key@, text@))),
            json_string_member(old(self)@, key@) is Some ==> json_string_member(final(self)@, key@)
                == Some(text@),
            forall|other: Seq<char>|
                other != key@ ==> #[trigger] json_string_member(final(self)@, other)
                    == json_string_member(old(self)@, other),
    {
        if let Some(member) = self.document.get_mut(key) {
            *member = Value::String(text);
        }
    }

    /// Writes the document with `serde_json::to_vec`.  Claimed: the bytes
    /// are `json_text_written` of the document, and it fails exactly when
    /// that is `None`; written bytes are one JSON text again, and parsing
    /// them gives back every string member of the document (strings and keys
    /// are escaped and unescaped exactly, an object's keys are unique in the
    /// document, and the nesting is that of a text already parsed).  Nothing
    /// is claimed of the error, nor of members that are not strings.
    #[verifier::external_body]
    pub(crate) fn to_bytes(&self) -> (written: Result<Vec<u8>, serde_json::Error>)
        ensures
            match written {
                Ok(bytes) => {
                    &&& json_text_written(self@) == Some(bytes@)
                    &&& json_text_parses(bytes@)
                    &&& forall|key: Seq<char>|
                        #[trigger] json_string_member((bytes@, Seq::empty()), key)
                            == json_string_member(self@, key)
                },
                Err(_) => json_text_written(self@) is None,
            },
    {
        serde_json::to_vec(&self.document)
    }
}

/// The text of a `serde_json::Error`, through its `Display` impl.  Nothing is
/// claimed of it.
#[verifier::external_body]
pub(crate) fn json_error_text(error: &serde_json::Error) -> String {
    format!("{error}")
}

} // verus!
