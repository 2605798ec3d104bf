//! What other crates compute for this library, and what is taken for granted of it.

use crate::query::RequestError;
use crate::server::ToolReply;
use subtle::ConstantTimeEq;
use vstd::prelude::*;

verus! {

/// `serde_json::Value`: a JSON value that this library carries along unread.
#[verifier::external_type_specification]
#[verifier::external_body]
pub struct ExValue(serde_json::Value);

/// Whether `b` may stand in a header value that is read as text: a printable
/// ASCII character or a tab.
pub open spec fn is_visible_ascii(b: u8) -> bool {
    32 <= b < 127 || b == 9
}

/// Whether every byte of a header value may be read as text.
pub open spec fn visible_ascii(value: Seq<u8>) -> bool {
    forall|i: int| 0 <= i < value.len() ==> is_visible_ascii(#[trigger] value[i])
}

/// The text whose characters are the given ASCII bytes.
pub open spec fn ascii_text(value: Seq<u8>) -> Seq<char> {
    Seq::new(value.len(), |i: int| value[i] as char)
}

/// Reads a header value as text with `axum::http::HeaderValue::to_str`.
///
/// Taken for granted: `to_str` succeeds exactly when every byte is a printable
/// ASCII character or a tab, and its text has one character for each byte.
/// `HeaderValue::from_bytes`, which wraps the bytes first, refuses only bytes
/// that `to_str` refuses too.
#[verifier::external_body]
pub(crate) fn header_text(value: &[u8]) -> (text: Option<String>)
    ensures
        text is Some <==> visible_ascii(value@),
        text matches Some(text) ==> text@ == ascii_text(value@),
{
    let header = axum::http::HeaderValue::from_bytes(value).ok()?;
    header.to_str().ok().map(String::from)
}

/// Compares two byte strings with `subtle`'s `ConstantTimeEq::ct_eq` on slices.
///
/// Taken for granted: the answer is yes exactly when the two have the same
/// length and the same bytes. That the time taken does not depend on the bytes
/// is not part of the contract.
#[verifier::external_body]
pub(crate) fn bytes_equal(a: &[u8], b: &[u8]) -> (equal: bool)
    ensures
        equal == (a@ == b@),
{
    bool::from(a.ct_eq(b))
}

/// Refuses the parameters of a request with `rmcp::ErrorData::invalid_params`.
///
/// Taken for granted: the error has JSON-RPC's code for invalid parameters and
/// the given message. It is made without further data.
#[verifier::external_body]
pub(crate) fn invalid_params(message: &str) -> (error: RequestError)
    ensures
        error.code == crate::query::invalid_params_code(),
        error.message@ == message@,
{
    let error = rmcp::ErrorData::invalid_params(message.to_owned(), None);
    RequestError { code: error.code.0, message: error.message.into_owned() }
}

/// Reports a fault of the server with `rmcp::ErrorData::internal_error`.
///
/// Taken for granted: the error has JSON-RPC's code for internal errors and the
/// given message. It is made without further data.
#[verifier::external_body]
pub(crate) fn internal_error(message: &str) -> (error: RequestError)
    ensures
        error.code == crate::query::internal_error_code(),
        error.message@ == message@,
{
    let error = rmcp::ErrorData::internal_error(message.to_owned(), None);
    RequestError { code: error.code.0, message: error.message.into_owned() }
}

/// Whether a count of seconds since the Unix epoch, with the nanoseconds of the
/// current second, is a time that `chrono` can represent. Its calendar reaches
/// from the start of year -262143 to the end of year 262142.
pub open spec fn representable_time(seconds: i64, nanos: u32) -> bool {
    -8_334_601_228_800 <= seconds <= 8_210_266_876_799 && nanos < 1_000_000_000
}

/// The text that `chrono::DateTime::to_rfc3339` gives for a time in UTC, counted
/// in seconds since the Unix epoch and the nanoseconds of the current second.
pub uninterp spec fn rfc3339_text(seconds: i64, nanos: u32) -> Seq<char>;

/// Writes a time in UTC with `chrono::DateTime::to_rfc3339`.
///
/// Taken for granted: the text depends on nothing but the time, and no
/// representable time is refused.
#[verifier::external_body]
pub(crate) fn rfc3339(seconds: i64, nanos: u32) -> (text: String)
    requires
        representable_time(seconds, nanos),
    ensures
        text@ == rfc3339_text(seconds, nanos),
{
    chrono::DateTime::<chrono::Utc>::from_timestamp(seconds, nanos).unwrap().to_rfc3339()
}

/// Reads the clock with `chrono::Utc::now`.
///
/// Taken for granted: the time read is representable and not within a leap
/// second. Which time it is depends on the machine, and nothing is said of it.
/// `now` panics on a clock that is set before the Unix epoch.
#[verifier::external_body]
pub(crate) fn utc_now() -> (time: (i64, u32))
    ensures
        representable_time(time.0, time.1),
{
    let now = chrono::Utc::now();
    (now.timestamp(), now.timestamp_subsec_nanos())
}

/// Whether the clock showed this time when it was read: only a reading by
/// `utc_now` establishes it.
pub closed spec fn clock_showed(seconds: i64, nanos: u32) -> bool {
    call_ensures(utc_now, (), (seconds, nanos))
}

/// A time that the clock showed is one that a reading of the clock returned, and
/// it is representable.
pub(crate) proof fn law_clock_is_read(seconds: i64, nanos: u32)
    ensures
        clock_showed(seconds, nanos) <==> call_ensures(utc_now, (), (seconds, nanos)),
        clock_showed(seconds, nanos) ==> representable_time(seconds, nanos),
{
}

/// The value that `serde_json` makes of an optional truth value: null where there
/// is none.
pub uninterp spec fn bool_value(flag: Option<bool>) -> serde_json::Value;

/// Makes a JSON value of an optional truth value with `serde_json::Value::from`.
///
/// Taken for granted: the value depends on nothing but the argument.
#[verifier::external_body]
pub(crate) fn value_of_bool(flag: Option<bool>) -> (value: serde_json::Value)
    ensures
        value == bool_value(flag),
{
    serde_json::Value::from(flag)
}

/// The value that `serde_json` makes of a whole number.
pub uninterp spec fn number_value(number: int) -> serde_json::Value;

/// Makes a JSON value of a whole number with `serde_json::Number::from_i128`.
///
/// Taken for granted: no number between the least `i64` and the greatest `u64`
/// is refused, and the value depends on nothing but the number.
#[verifier::external_body]
pub(crate) fn value_of_number(number: i128) -> (value: serde_json::Value)
    requires
        i64::MIN <= number <= u64::MAX,
    ensures
        value == number_value(number as int),
{
    serde_json::Value::Number(serde_json::Number::from_i128(number).unwrap())
}

/// The value that `serde_json` makes of a text.
pub uninterp spec fn text_value(text: Seq<char>) -> serde_json::Value;

/// Makes a JSON value of a text with `serde_json::Value::from`.
///
/// Taken for granted: the value depends on nothing but the text.
#[verifier::external_body]
pub(crate) fn value_of_text(text: String) -> (value: serde_json::Value)
    ensures
        value == text_value(text@),
{
    serde_json::Value::from(text)
}

/// The value that `serde_json` makes of a list of values.
pub uninterp spec fn list_value(items: Seq<serde_json::Value>) -> serde_json::Value;

/// Makes a JSON array of its items with `serde_json::Value::from`.
///
/// Taken for granted: the value depends on nothing but the items and their order.
#[verifier::external_body]
pub(crate) fn value_of_list(items: Vec<serde_json::Value>) -> (value: serde_json::Value)
    ensures
        value == list_value(items@),
{
    serde_json::Value::from(items)
}

/// The value that `serde_json` makes of named members.
pub uninterp spec fn object_value(members: Seq<(Seq<char>, serde_json::Value)>) -> serde_json::Value;

/// Makes a JSON object of its members with `serde_json::Value::from_iter`.
///
/// Taken for granted: the value depends on nothing but the members' names and
/// values and their order.
#[verifier::external_body]
pub(crate) fn value_of_object(members: Vec<(String, serde_json::Value)>) -> (value:
    serde_json::Value)
    ensures
        value == object_value(
            members@.map_values(|member: (String, serde_json::Value)| (member.0@, member.1)),
        ),
{
    serde_json::Value::from_iter(members)
}

/// The text that `rmcp::model::CallToolResult::structured` sets beside structured
/// content: the content written as JSON.
pub uninterp spec fn value_text(value: serde_json::Value) -> Seq<char>;

/// Makes a successful result with `rmcp::model::CallToolResult::structured`.
///
/// Taken for granted: the result is marked as no error, its structured content
/// is the given value, and its one block of content is a text that depends on
/// nothing but that value.
#[verifier::external_body]
pub(crate) fn structured_result(value: serde_json::Value) -> (reply: ToolReply)
    ensures
        reply.is_error == Some(false),
        reply.structured == Some(value),
        reply.text@ == value_text(value),
{
    let result = rmcp::model::CallToolResult::structured(value);
    let text = result.content[0].as_text().unwrap().text.clone();
    ToolReply { is_error: result.is_error, structured: result.structured_content, text }
}

/// Makes a failed result with `rmcp::model::CallToolResult::error`.
///
/// Taken for granted: the result is marked as an error, has no structured
/// content, and its one block of content is the given text.
#[verifier::external_body]
pub(crate) fn error_result(text: &str) -> (reply: ToolReply)
    ensures
        reply.is_error == Some(true),
        reply.structured is None,
        reply.text@ == text@,
{
    let block = rmcp::model::ContentBlock::text(text.to_owned());
    let result = rmcp::model::CallToolResult::error(vec![block]);
    let text = result.content[0].as_text().unwrap().text.clone();
    ToolReply { is_error: result.is_error, structured: result.structured_content, text }
}

/// Every second from the start of year -262143 to the end of year 262142 can be
/// shown, to the nanosecond.
pub proof fn law_representable_times(seconds: i64, nanos: u32)
    ensures
        representable_time(seconds, nanos) <==> seconds >= -8_334_601_228_800 && seconds
            < 8_210_266_876_800 && nanos <= 999_999_999,
{
}

} // verus!
