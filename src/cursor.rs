//! Edge cursors: base64 text whose payload is the decimal ordering key of a row.

use vstd::prelude::*;
use crate::decimal::{
    ascii_bytes, decimal_text, format_i64, is_ascii_text, lemma_decimal_text_ascii,
    lemma_parse_format_round_trip, parse_i64, parsed_i64,
};

verus! {

/// What `base64::encode` writes for the UTF-8 bytes of `s`: standard alphabet, padded.
pub uninterp spec fn base64_encoded(s: Seq<char>) -> Seq<char>;

/// What `base64::decode` reads from the UTF-8 bytes of `s` (standard alphabet):
/// the decoded bytes, or `None` where it reports an error.
pub uninterp spec fn base64_decoded(s: Seq<char>) -> Option<Seq<u8>>;

#[verifier::external_type_specification]
#[verifier::external_body]
pub struct ExDecodeError(base64::DecodeError);

/// Relies on `base64::encode`: the text it returns is a function of the input bytes,
/// and `base64::decode` reads it back as those bytes (for ASCII text, its characters'
/// codes). It panics only where the output length overflows `usize`, which no `str`
/// reaches.
#[verifier::external_body]
fn encode_text(s: &str) -> (r: String)
    ensures
        r@ == base64_encoded(s@),
        is_ascii_text(s@) ==> base64_decoded(r@) == Some(ascii_bytes(s@)),
{
    base64::encode(s)
}

/// Relies on `base64::decode`: `Ok` with the decoded bytes, or `Err` where the text is
/// not base64, as a function of the input alone. It panics only where the input length
/// plus 3 overflows `usize`, which no `str` reaches.
#[verifier::external_body]
fn decode_text(s: &str) -> (r: Result<Vec<u8>, base64::DecodeError>)
    ensures
        match r {
            Ok(b) => base64_decoded(s@) == Some(b@),
            Err(_) => base64_decoded(s@) is None,
        },
{
    base64::decode(s)
}

/// An opaque position in a paged list, as handed to and taken from clients.
#[derive(Clone, Debug, PartialEq, Eq)]
pub struct Cursor(pub String);

impl View for Cursor {
    type V = Seq<char>;

    open spec fn view(&self) -> Seq<char> {
        self.0@
    }
}

impl Cursor {
    /// A cursor with the same text.
    pub fn copy_text(&self) -> (r: Cursor)
        ensures
            r@ == self@,
    {
        Cursor(self.0.clone())
    }
}

/// Why a cursor does not name a row.
#[derive(Clone, Copy, Debug, PartialEq, Eq)]
pub enum CursorError {
    /// The cursor is not base64 text.
    NotBase64,
    /// The cursor's payload is not the decimal text of an `i64`.
    NotANumber,
    /// The cursor's number is outside the range of row keys.
    KeyOutOfRange,
}

/// The text of the cursor of the row with key `key`.
pub open spec fn key_cursor_text(key: i32) -> Seq<char> {
    base64_encoded(decimal_text(key as int))
}

/// The row key that a decoded payload spells.
pub open spec fn payload_key(payload: Seq<u8>) -> Result<i32, CursorError> {
    match parsed_i64(payload) {
        Some(n) => if i32::MIN <= n <= i32::MAX {
            Ok(n as i32)
        } else {
            Err(CursorError::KeyOutOfRange)
        },
        None => Err(CursorError::NotANumber),
    }
}

/// The row key that a cursor's text stands for.
pub open spec fn cursor_key(text: Seq<char>) -> Result<i32, CursorError> {
    match base64_decoded(text) {
        Some(payload) => payload_key(payload),
        None => Err(CursorError::NotBase64),
    }
}

/// The row key spelled by a cursor's decoded payload.
pub fn key_from_payload(payload: &[u8]) -> (r: Result<i32, CursorError>)
    ensures
        r == payload_key(payload@),
{
    match parse_i64(payload) {
        Some(n) => if n < i32::MIN as i64 || n > i32::MAX as i64 {
            Err(CursorError::KeyOutOfRange)
        } else {
            Ok(n as i32)
        },
        None => Err(CursorError::NotANumber),
    }
}

/// The row key that `cursor` stands for.
pub fn decode_key(cursor: &Cursor) -> (r: Result<i32, CursorError>)
    ensures
        r == cursor_key(cursor@),
{
    match decode_text(cursor.0.as_str()) {
        Ok(payload) => key_from_payload(payload.as_slice()),
        Err(_) => Err(CursorError::NotBase64),
    }
}

/// The cursor of the row with key `key`; it decodes back to that key.
pub fn key_cursor(key: i32) -> (r: Cursor)
    ensures
        r@ == key_cursor_text(key),
        base64_decoded(r@) == Some(ascii_bytes(decimal_text(key as int))),
        cursor_key(r@) == Ok::<i32, CursorError>(key),
{
    let text = format_i64(key as i64);
    proof {
        lemma_decimal_text_ascii(key as int);
        lemma_parse_format_round_trip(key as i64);
    }
    Cursor(encode_text(text.as_str()))
}

/// Cursors of rows with different keys differ: each reads back as its own key.
pub proof fn lemma_distinct_keys_distinct_cursors(a: Seq<char>, b: Seq<char>, ka: i32, kb: i32)
    requires
        base64_decoded(a) == Some(ascii_bytes(decimal_text(ka as int))),
        base64_decoded(b) == Some(ascii_bytes(decimal_text(kb as int))),
        ka != kb,
    ensures
        a != b,
{
    lemma_parse_format_round_trip(ka as i64);
    lemma_parse_format_round_trip(kb as i64);
}

} // verus!
