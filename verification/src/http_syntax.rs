//! What the `http` crate accepts as a header value and as a request method,
//! and the parsing calls that give those values.
use vstd::prelude::*;

verus! {

#[verifier::external_type_specification]
#[verifier::external_body]
pub struct ExHeaderValue(http::HeaderValue);

#[verifier::external_type_specification]
#[verifier::external_body]
pub struct ExMethod(http::Method);

#[verifier::external_type_specification]
#[verifier::external_body]
pub struct ExActixMethod(actix_web::http::Method);

/// A character that may stand in a header value. `http` checks bytes: a byte
/// is allowed when it is a tab or at least 32 and not DEL. Characters
/// outside ASCII are encoded as bytes of at least 0x80, all allowed.
pub open spec fn header_value_char(c: char) -> bool {
    let n = c as u32;
    (n >= 32 && n != 127) || n == 9
}

/// A string that `http::HeaderValue::from_str` accepts.
pub open spec fn is_header_value(s: Seq<char>) -> bool {
    forall|i: int| 0 <= i < s.len() ==> header_value_char(#[trigger] s[i])
}

/// A token character of RFC 9110, the characters `http` allows in a method.
pub open spec fn method_char(c: char) -> bool {
    let n = c as u32;
    ||| 48 <= n <= 57
    ||| 65 <= n <= 90
    ||| 97 <= n <= 122
    ||| c == '!' || c == '#' || c == '$' || c == '%' || c == '&' || c == '\''
    ||| c == '*' || c == '+' || c == '-' || c == '.' || c == '^' || c == '_'
    ||| c == '`' || c == '|' || c == '~'
}

/// A string that `http::Method::from_bytes` accepts: a non-empty token.
pub open spec fn is_method(s: Seq<char>) -> bool {
    s.len() > 0 && forall|i: int| 0 <= i < s.len() ==> method_char(#[trigger] s[i])
}

/// A header value that `http` accepted, with the text it was parsed from.
/// Only `parse_header_value` makes one.
pub struct ParsedHeaderValue {
    value: http::HeaderValue,
    text: Ghost<Seq<char>>,
}

impl ParsedHeaderValue {
    /// The text this value was parsed from.
    pub closed spec fn text(self) -> Seq<char> {
        self.text@
    }

    /// The parsed value.
    pub fn into_value(self) -> http::HeaderValue {
        self.value
    }
}

/// A request method that `http` accepted, with the text it was parsed from.
/// Only `parse_method` makes one.
pub struct ParsedMethod {
    value: http::Method,
    text: Ghost<Seq<char>>,
}

impl ParsedMethod {
    /// The text this method was parsed from.
    pub closed spec fn text(self) -> Seq<char> {
        self.text@
    }

    /// The parsed method.
    pub fn into_value(self) -> http::Method {
        self.value
    }
}

/// A request method of the `http` 0.2 crate that Actix uses, with the text
/// it was parsed from. Only `parse_actix_method` makes one.
pub struct ParsedActixMethod {
    value: actix_web::http::Method,
    text: Ghost<Seq<char>>,
}

impl ParsedActixMethod {
    /// The text this method was parsed from.
    pub closed spec fn text(self) -> Seq<char> {
        self.text@
    }

    /// The parsed method.
    pub fn into_value(self) -> actix_web::http::Method {
        self.value
    }
}

/// Calls `http::HeaderValue::from_str`. Its source checks every byte of the
/// string and fails when one is neither a tab nor a visible byte (at least
/// 32, not 127); on success the value holds exactly the bytes of the string.
/// The claim is that it succeeds exactly on `is_header_value`, and that the
/// value returned is the one parsed from `value`.
#[verifier::external_body]
pub(crate) fn parse_header_value(value: &str) -> (parsed: Option<ParsedHeaderValue>)
    ensures
        parsed is Some <==> is_header_value(value@),
        parsed matches Some(p) ==> p.text() == value@,
{
    match http::HeaderValue::from_str(value) {
        Ok(parsed) => Some(ParsedHeaderValue { value: parsed, text: Ghost(value@) }),
        Err(_) => None,
    }
}

/// Calls `http::Method::from_bytes` on the string's bytes. Its source
/// rejects an empty input and every byte outside the token table; the claim
/// is that it succeeds exactly on `is_method`, and that the method returned
/// is the one parsed from `method`.
#[verifier::external_body]
pub(crate) fn parse_method(method: &str) -> (parsed: Option<ParsedMethod>)
    ensures
        parsed is Some <==> is_method(method@),
        parsed matches Some(p) ==> p.text() == method@,
{
    match http::Method::from_bytes(method.as_bytes()) {
        Ok(parsed) => Some(ParsedMethod { value: parsed, text: Ghost(method@) }),
        Err(_) => None,
    }
}

/// A method character that the `http` 0.2 crate under Actix accepts: a
/// token character other than `#`, `$`, `%`, `&` and `'`.
pub open spec fn actix_method_char(c: char) -> bool {
    method_char(c) && c != '#' && c != '$' && c != '%' && c != '&' && c != '\''
}

/// A string that Actix's `Method::from_bytes` accepts.
pub open spec fn is_actix_method(s: Seq<char>) -> bool {
    s.len() > 0 && forall|i: int| 0 <= i < s.len() ==> actix_method_char(#[trigger] s[i])
}

/// Calls `actix_web::http::Method::from_bytes` (the `http` 0.2 crate) on the
/// string's bytes. Its source rejects an empty input and every byte
/// outside its token table, which lacks `#`, `$`, `%`, `&` and `'`; the
/// claim is that it succeeds exactly on `is_actix_method`, and that the
/// method returned is the one parsed from `method`.
#[verifier::external_body]
pub(crate) fn parse_actix_method(method: &str) -> (parsed: Option<ParsedActixMethod>)
    ensures
        parsed is Some <==> is_actix_method(method@),
        parsed matches Some(p) ==> p.text() == method@,
{
    match actix_web::http::Method::from_bytes(method.as_bytes()) {
        Ok(parsed) => Some(ParsedActixMethod { value: parsed, text: Ghost(method@) }),
        Err(_) => None,
    }
}

/// Decides `is_header_value`.
pub fn is_valid_header_value(value: &str) -> (b: bool)
    ensures
        b == is_header_value(value@),
{
    parse_header_value(value).is_some()
}

/// Decides `is_method`.
pub fn is_valid_method(method: &str) -> (b: bool)
    ensures
        b == is_method(method@),
{
    parse_method(method).is_some()
}

} // verus!
