//! Read access to a parsed JSON document through JSON Pointers
//! (RFC 6901), backed by `serde_json`.

use vstd::prelude::*;

verus! {

#[verifier::external_type_specification]
#[verifier::external_body]
pub struct ExJsonValue(serde_json::Value);

/// `None` when `text` is a JSON document; otherwise the message of the
/// error `serde_json::from_slice` reports for it.
pub uninterp spec fn json_parse_error(text: Seq<u8>) -> Option<Seq<char>>;

/// The string that `pointer` addresses in the JSON document `text`, if it
/// addresses a string.
pub uninterp spec fn json_str_at(text: Seq<u8>, pointer: Seq<char>) -> Option<Seq<char>>;

/// The unsigned integer that `pointer` addresses in `text`, if it addresses
/// a number that is a non-negative integer.
pub uninterp spec fn json_u64_at(text: Seq<u8>, pointer: Seq<char>) -> Option<u64>;

/// The length of the array that `pointer` addresses in `text`, if it
/// addresses an array.
pub uninterp spec fn json_array_len_at(text: Seq<u8>, pointer: Seq<char>) -> Option<nat>;

/// The boolean that `pointer` addresses in `text`, if it addresses one.
pub uninterp spec fn json_bool_at(text: Seq<u8>, pointer: Seq<char>) -> Option<bool>;

/// The signed integer that `pointer` addresses in `text`, if it addresses
/// a number that is an integer within `i64`.
pub uninterp spec fn json_i64_at(text: Seq<u8>, pointer: Seq<char>) -> Option<i64>;

/// Whether `pointer` addresses a value, of any kind, in `text`.
pub uninterp spec fn json_has_at(text: Seq<u8>, pointer: Seq<char>) -> bool;

/// A parsed JSON document, with the bytes it was parsed from.
pub struct JsonDoc {
    source: Vec<u8>,
    value: serde_json::Value,
}

impl JsonDoc {
    /// The bytes the document was parsed from.
    pub closed spec fn text(self) -> Seq<u8> {
        self.source@
    }

    /// Parses a JSON document with `serde_json::from_slice`; on failure,
    /// returns the error's message.
    #[verifier::external_body]
    pub(crate) fn parse(bytes: &[u8]) -> (r: Result<JsonDoc, String>)
        ensures
            match r {
                Ok(d) => json_parse_error(bytes@) is None && d.text() == bytes@,
                Err(e) => json_parse_error(bytes@) == Some(e@),
            },
    {
        match serde_json::from_slice::<serde_json::Value>(bytes) {
            Ok(value) => Ok(JsonDoc { source: bytes.to_vec(), value }),
            Err(e) => Err(e.to_string()),
        }
    }

    /// The string at `pointer` (`Value::pointer`, then `Value::as_str`).
    #[verifier::external_body]
    pub(crate) fn str_at(&self, pointer: &str) -> (r: Option<String>)
        ensures
            crate::finding::opt_view(r) == json_str_at(self.text(), pointer@),
    {
        self.value.pointer(pointer).and_then(|v| v.as_str()).map(|s| s.to_string())
    }

    /// The unsigned integer at `pointer` (`Value::pointer`, then `Value::as_u64`).
    #[verifier::external_body]
    pub(crate) fn u64_at(&self, pointer: &str) -> (r: Option<u64>)
        ensures
            r == json_u64_at(self.text(), pointer@),
    {
        self.value.pointer(pointer).and_then(|v| v.as_u64())
    }

    /// The length of the array at `pointer` (`Value::pointer`, then `Value::as_array`).
    #[verifier::external_body]
    pub(crate) fn array_len_at(&self, pointer: &str) -> (r: Option<usize>)
        ensures
            match r {
                Some(n) => json_array_len_at(self.text(), pointer@) == Some(n as nat),
                None => json_array_len_at(self.text(), pointer@) is None,
            },
    {
        self.value.pointer(pointer).and_then(|v| v.as_array()).map(|a| a.len())
    }

    /// The signed integer at `pointer` (`Value::pointer`, then `Value::as_i64`).
    #[verifier::external_body]
    pub(crate) fn i64_at(&self, pointer: &str) -> (r: Option<i64>)
        ensures
            r == json_i64_at(self.text(), pointer@),
    {
        self.value.pointer(pointer).and_then(|v| v.as_i64())
    }

    /// Whether a value stands at `pointer` (`Value::pointer`).
    #[verifier::external_body]
    pub(crate) fn has_at(&self, pointer: &str) -> (r: bool)
        ensures
            r == json_has_at(self.text(), pointer@),
    {
        self.value.pointer(pointer).is_some()
    }

    /// The boolean at `pointer` (`Value::pointer`, then `Value::as_bool`).
    #[verifier::external_body]
    pub(crate) fn bool_at(&self, pointer: &str) -> (r: Option<bool>)
        ensures
            r == json_bool_at(self.text(), pointer@),
    {
        self.value.pointer(pointer).and_then(|v| v.as_bool())
    }
}

} // verus!
