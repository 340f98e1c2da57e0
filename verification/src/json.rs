//! JSON through `serde_json`: string literals the library writes, and the
//! top-level fields it reads from messages.
use vstd::prelude::*;

verus! {

/// A lowercase hexadecimal digit.
pub open spec fn hex_digit(n: int) -> char {
    seq!['0', '1', '2', '3', '4', '5', '6', '7', '8', '9', 'a', 'b', 'c', 'd', 'e', 'f'][n]
}

/// How `serde_json` writes one character inside a string literal: `"` and
/// `\` behind a backslash; backspace, tab, line feed, form feed and
/// carriage return as `\b \t \n \f \r`; the other control characters
/// below U+0020 as `\u00XX` in lowercase hex; everything else as itself.
pub open spec fn escaped_char(c: char) -> Seq<char> {
    let n = c as int;
    if c == '"' {
        seq!['\\', '"']
    } else if c == '\\' {
        seq!['\\', '\\']
    } else if n == 8 {
        seq!['\\', 'b']
    } else if n == 9 {
        seq!['\\', 't']
    } else if n == 10 {
        seq!['\\', 'n']
    } else if n == 12 {
        seq!['\\', 'f']
    } else if n == 13 {
        seq!['\\', 'r']
    } else if n < 32 {
        seq!['\\', 'u', '0', '0', hex_digit(n / 16), hex_digit(n % 16)]
    } else {
        seq![c]
    }
}

/// The characters of a string, each escaped.
pub open spec fn escaped(s: Seq<char>) -> Seq<char>
    decreases s.len(),
{
    if s.len() == 0 { seq![] } else { escaped(s.drop_last()) + escaped_char(s.last()) }
}

/// What `serde_json::to_string` returns for a string: the JSON string
/// literal, the escaped characters between double quotes.
pub open spec fn json_quoted(s: Seq<char>) -> Seq<char> {
    seq!['"'] + escaped(s) + seq!['"']
}

/// Calls `serde_json::to_string` on a `str`; the result is the quoted
/// literal `json_quoted` states. Serializing a `str` cannot fail, so the error arm is
/// never taken.
#[verifier::external_body]
pub(crate) fn json_quote(s: &str) -> (r: String)
    ensures
        r@ == json_quoted(s@),
{
    serde_json::to_string(s).unwrap_or_default()
}

/// What `serde_json` reads from `bytes` as the unsigned integer field `key`
/// of a JSON object: `from_slice::<Value>`, then `get(key)`, then `as_u64`.
pub uninterp spec fn json_u64_field(bytes: Seq<u8>, key: Seq<char>) -> Option<u64>;

/// What `serde_json` reads from `bytes` as the string field `key` of a JSON
/// object: `from_slice::<Value>`, then `get(key)`, then `as_str`.
pub uninterp spec fn json_str_field(bytes: Seq<u8>, key: Seq<char>) -> Option<Seq<char>>;

/// What `serde_json` reads from `bytes` as the boolean field `key` of a JSON
/// object: `from_slice::<Value>`, then `get(key)`, then `as_bool`.
pub uninterp spec fn json_bool_field(bytes: Seq<u8>, key: Seq<char>) -> Option<bool>;

/// Parses `bytes` with `serde_json::from_slice` and reads field `key` with
/// `Value::get` and `Value::as_u64`; the result is named `json_u64_field`.
#[verifier::external_body]
pub(crate) fn read_json_u64(bytes: &[u8], key: &str) -> (r: Option<u64>)
    ensures
        r == json_u64_field(bytes@, key@),
{
    serde_json::from_slice::<serde_json::Value>(bytes).ok().and_then(|v| v.get(key)?.as_u64())
}

/// Parses `bytes` with `serde_json::from_slice` and reads field `key` with
/// `Value::get` and `Value::as_str`; the result is named `json_str_field`.
#[verifier::external_body]
pub(crate) fn read_json_str(bytes: &[u8], key: &str) -> (r: Option<String>)
    ensures
        r matches Some(s) ==> json_str_field(bytes@, key@) == Some(s@),
        r is None ==> json_str_field(bytes@, key@) is None,
{
    serde_json::from_slice::<serde_json::Value>(bytes).ok().and_then(|v| v.get(key)?.as_str().map(str::to_owned))
}

/// Parses `bytes` with `serde_json::from_slice` and reads field `key` with
/// `Value::get` and `Value::as_bool`; the result is named `json_bool_field`.
#[verifier::external_body]
pub(crate) fn read_json_bool(bytes: &[u8], key: &str) -> (r: Option<bool>)
    ensures
        r == json_bool_field(bytes@, key@),
{
    serde_json::from_slice::<serde_json::Value>(bytes).ok().and_then(|v| v.get(key)?.as_bool())
}

/// Whether `serde_json` parses `bytes` as a JSON value.
pub uninterp spec fn json_value(bytes: Seq<u8>) -> bool;

/// Calls `serde_json::from_slice::<Value>`; whether it succeeds is named
/// `json_value`.
#[verifier::external_body]
pub(crate) fn is_json(bytes: &[u8]) -> (r: bool)
    ensures
        r == json_value(bytes@),
{
    serde_json::from_slice::<serde_json::Value>(bytes).is_ok()
}

/// The sort of JSON value `serde_json` finds in `bytes` at a JSON pointer
/// (`Value::pointer`, RFC 6901; the empty pointer is the whole document).
#[derive(Debug, Clone, Copy, PartialEq, Eq, Structural)]
pub enum JsonKind {
    /// The bytes are not JSON.
    NotJson,
    /// Nothing is at the pointer.
    Absent,
    Null,
    Bool,
    Number,
    Str,
    Array,
    Object,
}

/// What `serde_json` finds in `bytes` at pointer `ptr`: `from_slice::<Value>`,
/// then `Value::pointer`, then the value's variant.
pub uninterp spec fn json_kind(bytes: Seq<u8>, ptr: Seq<char>) -> JsonKind;

/// The string at pointer `ptr` (`Value::pointer`, then `as_str`).
pub uninterp spec fn json_str(bytes: Seq<u8>, ptr: Seq<char>) -> Option<Seq<char>>;

/// The unsigned integer at pointer `ptr` (`Value::pointer`, then `as_u64`).
pub uninterp spec fn json_u64(bytes: Seq<u8>, ptr: Seq<char>) -> Option<u64>;

/// The signed integer at pointer `ptr` (`Value::pointer`, then `as_i64`).
pub uninterp spec fn json_i64(bytes: Seq<u8>, ptr: Seq<char>) -> Option<i64>;

/// The number at pointer `ptr` read as `f64` (`as_f64`), rounded half away
/// from zero (`f64::round`) and converted to `i64` (`as`, saturating).
pub uninterp spec fn json_rounded(bytes: Seq<u8>, ptr: Seq<char>) -> Option<i64>;

/// The number at pointer `ptr` read as `f64` (`as_f64`), printed by
/// `f64`'s `Display`.
pub uninterp spec fn json_float_text(bytes: Seq<u8>, ptr: Seq<char>) -> Option<Seq<char>>;

/// The value at pointer `ptr` printed as compact JSON (`Value`'s `Display`).
pub uninterp spec fn json_text(bytes: Seq<u8>, ptr: Seq<char>) -> Option<Seq<char>>;

/// Parses `bytes` with `serde_json::from_slice`, looks `ptr` up with
/// `Value::pointer` and tells the value's variant; the result is named
/// `json_kind`.
#[verifier::external_body]
pub(crate) fn json_kind_at(bytes: &[u8], ptr: &str) -> (r: JsonKind)
    ensures
        r == json_kind(bytes@, ptr@),
{
    let Ok(v) = serde_json::from_slice::<serde_json::Value>(bytes) else { return JsonKind::NotJson };
    match v.pointer(ptr) {
        None => JsonKind::Absent,
        Some(serde_json::Value::Null) => JsonKind::Null,
        Some(serde_json::Value::Bool(_)) => JsonKind::Bool,
        Some(serde_json::Value::Number(_)) => JsonKind::Number,
        Some(serde_json::Value::String(_)) => JsonKind::Str,
        Some(serde_json::Value::Array(_)) => JsonKind::Array,
        Some(serde_json::Value::Object(_)) => JsonKind::Object,
    }
}

/// `from_slice`, `Value::pointer`, `as_str`; the result is named `json_str`.
#[verifier::external_body]
pub(crate) fn json_str_at(bytes: &[u8], ptr: &str) -> (r: Option<String>)
    ensures
        r matches Some(s) ==> json_str(bytes@, ptr@) == Some(s@),
        r is None ==> json_str(bytes@, ptr@) is None,
{
    serde_json::from_slice::<serde_json::Value>(bytes).ok().and_then(|v| v.pointer(ptr)?.as_str().map(str::to_owned))
}

/// `from_slice`, `Value::pointer`, `as_u64`; the result is named `json_u64`.
#[verifier::external_body]
pub(crate) fn json_u64_at(bytes: &[u8], ptr: &str) -> (r: Option<u64>)
    ensures
        r == json_u64(bytes@, ptr@),
{
    serde_json::from_slice::<serde_json::Value>(bytes).ok().and_then(|v| v.pointer(ptr)?.as_u64())
}

/// `from_slice`, `Value::pointer`, `as_i64`; the result is named `json_i64`.
#[verifier::external_body]
pub(crate) fn json_i64_at(bytes: &[u8], ptr: &str) -> (r: Option<i64>)
    ensures
        r == json_i64(bytes@, ptr@),
{
    serde_json::from_slice::<serde_json::Value>(bytes).ok().and_then(|v| v.pointer(ptr)?.as_i64())
}

/// `from_slice`, `Value::pointer`, `as_f64`, `f64::round`, `as i64`; the
/// result is named `json_rounded`.
#[verifier::external_body]
pub(crate) fn json_rounded_at(bytes: &[u8], ptr: &str) -> (r: Option<i64>)
    ensures
        r == json_rounded(bytes@, ptr@),
{
    serde_json::from_slice::<serde_json::Value>(bytes).ok().and_then(|v| Some(v.pointer(ptr)?.as_f64()?.round() as i64))
}

/// `from_slice`, `Value::pointer`, `as_f64`, then `Display`; the result is
/// named `json_float_text`.
#[verifier::external_body]
pub(crate) fn json_float_text_at(bytes: &[u8], ptr: &str) -> (r: Option<String>)
    ensures
        r matches Some(s) ==> json_float_text(bytes@, ptr@) == Some(s@),
        r is None ==> json_float_text(bytes@, ptr@) is None,
{
    serde_json::from_slice::<serde_json::Value>(bytes).ok().and_then(|v| Some(v.pointer(ptr)?.as_f64()?.to_string()))
}

/// `from_slice`, `Value::pointer`, then `Display`; the result is named
/// `json_text`.
#[verifier::external_body]
pub(crate) fn json_text_at(bytes: &[u8], ptr: &str) -> (r: Option<String>)
    ensures
        r matches Some(s) ==> json_text(bytes@, ptr@) == Some(s@),
        r is None ==> json_text(bytes@, ptr@) is None,
{
    serde_json::from_slice::<serde_json::Value>(bytes).ok().and_then(|v| Some(v.pointer(ptr)?.to_string()))
}

/// The message `serde_json` gives for bytes that are not JSON.
pub uninterp spec fn json_error_message(bytes: Seq<u8>) -> Seq<char>;

/// Calls `serde_json::from_slice::<Value>` and prints its error: `None`
/// exactly when the bytes are JSON (`json_value`), else the error's
/// `Display`, named `json_error_message`.
#[verifier::external_body]
pub(crate) fn json_syntax_error(bytes: &[u8]) -> (r: Option<String>)
    ensures
        r is None <==> json_value(bytes@),
        r matches Some(m) ==> m@ == json_error_message(bytes@),
{
    serde_json::from_slice::<serde_json::Value>(bytes).err().map(|e| e.to_string())
}

} // verus!
