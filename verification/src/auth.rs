//! Who may talk to the server: the bearer token and the check of every request.

use crate::outside::{bytes_equal, header_text};
use vstd::prelude::*;
use vstd::slice::slice_subrange;

verus! {

broadcast use vstd::utf8::is_ascii_chars_encode_utf8;

/// Invalid bearer-token configuration. The rejected token is never included.
#[derive(Clone, Copy, Debug, PartialEq, Eq)]
pub struct InvalidBearerToken;

impl InvalidBearerToken {
    /// What was wrong, without the token.
    pub fn message(&self) -> (text: String)
        ensures
            text@ == "bearer token must be nonempty and use the RFC 6750 token alphabet"@,
    {
        "bearer token must be nonempty and use the RFC 6750 token alphabet".to_owned()
    }
}

/// A letter, a digit, or one of `- . _ ~ + /`.
pub open spec fn is_token_char(c: char) -> bool {
    ||| 'a' <= c <= 'z'
    ||| 'A' <= c <= 'Z'
    ||| '0' <= c <= '9'
    ||| c == '-' || c == '.' || c == '_' || c == '~' || c == '+' || c == '/'
}

/// At least one character of the RFC 6750 alphabet, then any number of `=`.
pub open spec fn valid_bearer_token(token: Seq<char>) -> bool {
    exists|body: int| token_splits_at(token, body)
}

/// The first `body` characters, at least one, are of the RFC 6750 alphabet,
/// and all that follow are `=`.
pub open spec fn token_splits_at(token: Seq<char>, body: int) -> bool {
    &&& 1 <= body <= token.len()
    &&& forall|i: int| 0 <= i < body ==> is_token_char(#[trigger] token[i])
    &&& forall|i: int| body <= i < token.len() ==> #[trigger] token[i] == '='
}

fn token_char(c: char) -> (ok: bool)
    ensures
        ok == is_token_char(c),
{
    ('a' <= c && c <= 'z') || ('A' <= c && c <= 'Z') || ('0' <= c && c <= '9') || c == '-'
        || c == '.' || c == '_' || c == '~' || c == '+' || c == '/'
}

fn check_bearer_token(token: &str) -> (ok: bool)
    ensures
        ok == valid_bearer_token(token@),
{
    if !token.is_ascii() {
        assert(!valid_bearer_token(token@)) by {
            if valid_bearer_token(token@) {
                let body = choose|body: int| token_splits_at(token@, body);
                assert(token_splits_at(token@, body));
            }
        }
        return false;
    }
    let bytes = token.as_bytes();
    let mut end: usize = bytes.len();
    while end > 0 && bytes[end - 1] as char == '='
        invariant
            end <= bytes@.len(),
            bytes@.len() == token@.len(),
            forall|i: int| 0 <= i < token@.len() ==> bytes@[i] == #[trigger] token@[i] as u8,
            vstd::utf8::is_ascii_chars(token@),
            forall|i: int| end <= i < token@.len() ==> #[trigger] token@[i] == '=',
        decreases end,
    {
        assert(token@[end - 1] == '=');
        end = end - 1;
    }
    let mut i: usize = 0;
    while i < end
        invariant
            i <= end <= bytes@.len(),
            bytes@.len() == token@.len(),
            end > 0 ==> token@[end - 1] != '=',
            forall|j: int| 0 <= j < token@.len() ==> bytes@[j] == #[trigger] token@[j] as u8,
            vstd::utf8::is_ascii_chars(token@),
            forall|j: int| end <= j < token@.len() ==> #[trigger] token@[j] == '=',
            forall|j: int| 0 <= j < i ==> is_token_char(#[trigger] token@[j]),
        decreases end - i,
    {
        if !token_char(bytes[i] as char) {
            assert(!is_token_char(token@[i as int]));
            assert forall|body: int| !token_splits_at(token@, body) by {
                if token_splits_at(token@, body) {
                    assert(token@[end - 1] != '=');
                }
            }
            return false;
        }
        i = i + 1;
    }
    if end > 0 {
        assert(token_splits_at(token@, end as int));
        true
    } else {
        assert forall|body: int| !token_splits_at(token@, body) by {
            if token_splits_at(token@, body) {
                assert(token@[0] == '=');
            }
        }
        false
    }
}

/// What a server is built from once its bearer token has been accepted. It has
/// no debug form, as it holds the token.
pub struct RouterPlan {
    /// Where the service is mounted.
    pub path: String,
    /// The token that every request must present.
    pub token: String,
    /// Whether the transport keeps sessions for older protocol versions.
    pub legacy_session_mode: bool,
    /// Whether the transport answers with plain JSON.
    pub json_response: bool,
}

/// Accepts or refuses a bearer token, and plans the server that is guarded by it.
///
/// The service is mounted at `/mcp` and answers statelessly with plain JSON.
pub fn router(bearer_token: String) -> (plan: Result<RouterPlan, InvalidBearerToken>)
    ensures
        plan is Ok <==> valid_bearer_token(bearer_token@),
        plan matches Ok(plan) ==> {
            &&& plan.path@ == "/mcp"@
            &&& plan.token == bearer_token
            &&& !plan.legacy_session_mode
            &&& plan.json_response
        },
{
    if !check_bearer_token(bearer_token.as_str()) {
        return Err(InvalidBearerToken);
    }
    Ok(
        RouterPlan {
            path: "/mcp".to_owned(),
            token: bearer_token,
            legacy_session_mode: false,
            json_response: true,
        },
    )
}

/// Whether `b` is the ASCII letter `lower` in either case.
pub open spec fn is_letter(b: u8, lower: char) -> bool {
    b as int == lower as int || b as int + 32 == lower as int
}

/// Whether the bytes spell `Bearer`, in any mixture of cases.
pub open spec fn bearer_scheme(scheme: Seq<u8>) -> bool {
    &&& scheme.len() == 6
    &&& is_letter(scheme[0], 'b')
    &&& is_letter(scheme[1], 'e')
    &&& is_letter(scheme[2], 'a')
    &&& is_letter(scheme[3], 'r')
    &&& is_letter(scheme[4], 'e')
    &&& is_letter(scheme[5], 'r')
}

/// Whether an Authorization value is the `Bearer` scheme, one space or more,
/// and exactly `token`.
pub open spec fn presents(value: Seq<u8>, token: Seq<u8>) -> bool {
    let start = value.len() - token.len();
    &&& crate::outside::visible_ascii(value)
    &&& 7 <= start
    &&& bearer_scheme(value.take(6))
    &&& forall|i: int| 6 <= i < start ==> #[trigger] value[i] as char == ' '
    &&& value.skip(start) == token
    &&& token.len() > 0 ==> token[0] as char != ' '
}

/// Whether a request whose Authorization values are `values` may pass: there is
/// exactly one, and it presents the expected token.
pub open spec fn authorized(expected: Seq<char>, values: Seq<Vec<u8>>) -> bool {
    values.len() == 1 && presents(values[0]@, vstd::utf8::encode_utf8(expected))
}

/// The answer to a request that may not pass.
#[derive(Debug)]
pub struct Challenge {
    /// The HTTP status.
    pub status: u16,
    /// The value of the `WWW-Authenticate` header.
    pub www_authenticate: String,
    /// The body of the response.
    pub body: String,
}

fn letter(b: u8, lower: char, upper: char) -> (same: bool)
    requires
        upper as int + 32 == lower as int,
    ensures
        same == is_letter(b, lower),
{
    b as char == lower || b as char == upper
}

/// Where the token starts in an Authorization value of the `Bearer` scheme.
fn token_start(value: &[u8]) -> (start: Option<usize>)
    ensures
        start is Some <==> value@.len() >= 7 && bearer_scheme(value@.take(6))
            && value@[6] as char == ' ',
        start matches Some(start) ==> {
            &&& 7 <= start <= value@.len()
            &&& forall|i: int| 6 <= i < start ==> #[trigger] value@[i] as char == ' '
            &&& start < value@.len() ==> value@[start as int] as char != ' '
        },
{
    if value.len() < 7 || !letter(value[0], 'b', 'B') || !letter(value[1], 'e', 'E') || !letter(
        value[2],
        'a',
        'A',
    ) || !letter(value[3], 'r', 'R') || !letter(value[4], 'e', 'E') || !letter(value[5], 'r', 'R')
        || value[6] as char != ' ' {
        return None;
    }
    let mut start: usize = 7;
    while start < value.len() && value[start] as char == ' '
        invariant
            7 <= start <= value@.len(),
            forall|i: int| 6 <= i < start ==> #[trigger] value@[i] as char == ' ',
        decreases value@.len() - start,
    {
        start = start + 1;
    }
    Some(start)
}

/// Whether an Authorization value presents the expected token.
fn presents_token(expected: &str, value: &[u8]) -> (ok: bool)
    ensures
        ok == presents(value@, vstd::utf8::encode_utf8(expected@)),
{
    let text = match header_text(value) {
        Some(text) => text,
        None => {
            return false;
        },
    };
    let bytes = text.as_str().as_bytes();
    assert(bytes@ == value@) by {
        assert(vstd::utf8::is_ascii_chars(text@));
    }
    let ghost token = vstd::utf8::encode_utf8(expected@);
    match token_start(bytes) {
        Some(start) => {
            let supplied = slice_subrange(bytes, start, bytes.len());
            let equal = bytes_equal(supplied, expected.as_bytes());
            assert(supplied@ == value@.skip(start as int));
            assert(equal == presents(value@, token)) by {
                if presents(value@, token) {
                    let given = value@.len() - token.len();
                    assert(given == start) by {
                        if given < start {
                            assert(value@.skip(given)[0] == value@[given]);
                        }
                        if start < given {
                            assert(value@[start as int] as char == ' ');
                        }
                    }
                }
            }
            equal
        },
        None => {
            assert(presents(value@, token) ==> value@[6] as char == ' ');
            false
        },
    }
}

/// Lets a request pass or answers it with a challenge.
///
/// `values` are the values of all Authorization headers of the request, in any
/// order. No header, several headers, another scheme, a value that is not plain
/// text and another token are all refused alike.
pub fn authenticate(expected: &str, values: &Vec<Vec<u8>>) -> (outcome: Result<(), Challenge>)
    ensures
        outcome is Ok <==> authorized(expected@, values@),
        outcome matches Err(challenge) ==> {
            &&& challenge.status == 401
            &&& challenge.www_authenticate@ == "Bearer realm=\"oxana-mcp\""@
            &&& challenge.body@ == "Unauthorized"@
        },
{
    if values.len() == 1 && presents_token(expected, values[0].as_slice()) {
        return Ok(());
    }
    Err(
        Challenge {
            status: 401,
            www_authenticate: "Bearer realm=\"oxana-mcp\"".to_owned(),
            body: "Unauthorized".to_owned(),
        },
    )
}

/// A client that sends the configured token passes: for every token that
/// `router` accepts, the scheme in any case, one space or more and the token
/// are an authorized request.
pub proof fn law_configured_token_passes(
    token: Seq<char>,
    scheme: Seq<u8>,
    spaces: nat,
    values: Seq<Vec<u8>>,
)
    requires
        valid_bearer_token(token),
        bearer_scheme(scheme),
        spaces >= 1,
        values.len() == 1,
        values[0]@ == scheme + Seq::new(spaces, |i: int| 32u8) + vstd::utf8::encode_utf8(token),
    ensures
        authorized(token, values),
{
    let body = choose|body: int| token_splits_at(token, body);
    assert(token_splits_at(token, body));
    assert(vstd::utf8::is_ascii_chars(token));
    let bytes = vstd::utf8::encode_utf8(token);
    let value = values[0]@;
    let start = value.len() - bytes.len();
    assert(value.take(6) == scheme);
    assert(value.skip(start) == bytes);
    assert forall|i: int| 0 <= i < value.len() implies crate::outside::is_visible_ascii(
        #[trigger] value[i],
    ) by {
        if i >= start {
            let c = token[i - start];
            assert(value[i] == bytes[i - start]);
            assert(is_token_char(c) || c == '=');
        }
    }
}

/// An Authorization value stands for at most one token: a request that passes
/// with one token is refused by a server that expects any other.
pub proof fn law_one_token_per_request(token: Seq<char>, other: Seq<char>, values: Seq<Vec<u8>>)
    requires
        authorized(token, values),
        other != token,
    ensures
        !authorized(other, values),
{
    if authorized(other, values) {
        let value = values[0]@;
        let a = vstd::utf8::encode_utf8(token);
        let b = vstd::utf8::encode_utf8(other);
        if a.len() < b.len() {
            assert(value.skip(value.len() - b.len())[0] == value[value.len() - b.len()]);
        }
        if b.len() < a.len() {
            assert(value.skip(value.len() - a.len())[0] == value[value.len() - a.len()]);
        }
        vstd::utf8::encode_utf8_decode_utf8(token);
        vstd::utf8::encode_utf8_decode_utf8(other);
    }
}

/// A request without an Authorization header, or with more than one, never
/// passes, whatever its headers say.
pub proof fn law_exactly_one_header(expected: Seq<char>, values: Seq<Vec<u8>>)
    requires
        values.len() != 1,
    ensures
        !authorized(expected, values),
{
}

/// A request without any credentials after the scheme never passes a server
/// whose token `router` accepted.
pub proof fn law_empty_credentials_refused(token: Seq<char>, values: Seq<Vec<u8>>)
    requires
        valid_bearer_token(token),
        values.len() == 1,
        forall|i: int| 6 <= i < values[0]@.len() ==> #[trigger] values[0]@[i] as char == ' ',
    ensures
        !authorized(token, values),
{
    let body = choose|body: int| token_splits_at(token, body);
    assert(token_splits_at(token, body));
    assert(vstd::utf8::is_ascii_chars(token));
    let bytes = vstd::utf8::encode_utf8(token);
    let value = values[0]@;
    if authorized(token, values) {
        assert(value.skip(value.len() - bytes.len())[0] == value[value.len() - bytes.len()]);
    }
}

/// Every nonempty text of ASCII letters, digits and `- . _ ~ + /`, followed by
/// any number of `=`, is a token that `router` accepts.
pub proof fn law_alphabet_accepted(body: Seq<char>, padding: nat)
    requires
        body.len() > 0,
        forall|i: int|
            0 <= i < body.len() ==> {
                let code = #[trigger] body[i] as int;
                ||| 48 <= code <= 57
                ||| 65 <= code <= 90
                ||| 97 <= code <= 122
                ||| code == 43 || code == 45 || code == 46 || code == 47 || code == 95 || code == 126
            },
    ensures
        valid_bearer_token(body + Seq::new(padding, |i: int| '=')),
{
    let token = body + Seq::new(padding, |i: int| '=');
    assert forall|i: int| 0 <= i < body.len() implies is_token_char(#[trigger] token[i]) by {
        assert(token[i] == body[i]);
    }
    assert(token_splits_at(token, body.len() as int));
}

/// A token that `router` accepts is not empty, does not start with `=`, has
/// nothing but `=` after its first `=`, and otherwise consists of ASCII letters,
/// digits and `- . _ ~ + /`.
pub proof fn law_others_refused(token: Seq<char>)
    requires
        valid_bearer_token(token),
    ensures
        token.len() > 0,
        token[0] as int != 61,
        forall|i: int, j: int|
            0 <= i < j < token.len() && #[trigger] token[i] as int == 61 ==> #[trigger] token[j] as int
                == 61,
        forall|i: int|
            0 <= i < token.len() ==> {
                let code = #[trigger] token[i] as int;
                ||| 48 <= code <= 57
                ||| 65 <= code <= 90
                ||| 97 <= code <= 122
                ||| code == 43 || code == 45 || code == 46 || code == 47 || code == 95 || code == 126
                ||| code == 61
            },
{
    let body = choose|body: int| token_splits_at(token, body);
    assert(token_splits_at(token, body));
    assert forall|i: int, j: int|
        0 <= i < j < token.len() && #[trigger] token[i] as int == 61 implies #[trigger] token[j] as int
        == 61 by {
        if i < body {
            assert(is_token_char(token[i]));
        }
    }
}

/// A request passes exactly where it has one Authorization value, made of
/// printable ASCII characters and tabs alone, that spells `Bearer` in any case,
/// goes on with one space or more, and ends with the bytes of the expected
/// token, which do not start with a space.
pub proof fn law_passes_exactly(expected: Seq<char>, values: Seq<Vec<u8>>)
    ensures
        authorized(expected, values) <==> values.len() == 1 && {
            let value = values[0]@;
            let token = vstd::utf8::encode_utf8(expected);
            let start = value.len() - token.len();
            &&& 7 <= start
            &&& value[0] == 66 || value[0] == 98
            &&& value[1] == 69 || value[1] == 101
            &&& value[2] == 65 || value[2] == 97
            &&& value[3] == 82 || value[3] == 114
            &&& value[4] == 69 || value[4] == 101
            &&& value[5] == 82 || value[5] == 114
            &&& forall|i: int| 6 <= i < start ==> #[trigger] value[i] == 32
            &&& forall|i: int| start <= i < value.len() ==> #[trigger] value[i] == token[i - start]
            &&& token.len() > 0 ==> token[0] != 32
            &&& forall|i: int|
                0 <= i < value.len() ==> 32 <= #[trigger] value[i] <= 126 || value[i] == 9
        },
{
    if values.len() == 1 {
        let value = values[0]@;
        let token = vstd::utf8::encode_utf8(expected);
        let start = value.len() - token.len();
        if 7 <= start {
            assert(forall|i: int| 0 <= i < 6 ==> value.take(6)[i] == value[i]);
            if authorized(expected, values) {
                assert forall|i: int| start <= i < value.len() implies #[trigger] value[i]
                    == token[i - start] by {
                    assert(value.skip(start)[i - start] == value[i]);
                }
                assert forall|i: int| 6 <= i < start implies #[trigger] value[i] == 32 by {
                    assert(value[i] as char == ' ');
                }
            }
            if forall|i: int| start <= i < value.len() ==> #[trigger] value[i] == token[i - start] {
                assert(value.skip(start) =~= token);
            }
        }
    }
}

} // verus!
