use oxana_mcp::{authenticate, router, InvalidBearerToken};

const TOKEN: &str = "test-token-do-not-use-in-production";

fn header(value: &str) -> Vec<u8> {
    value.as_bytes().to_vec()
}

fn accepts(expected: &str, values: Vec<Vec<u8>>) -> bool {
    authenticate(expected, &values).is_ok()
}

#[test]
fn invalid_tokens_fail_at_construction() {
    for token in ["", " ", "a b", "a\nb", "Bearer token", "=", "a=b", "é"] {
        assert!(router(token.to_string()).is_err());
    }
}

#[test]
fn valid_tokens_plan_a_stateless_json_service() {
    for token in [TOKEN, "a", "a=", "a==", "-._~+/", "AZaz09"] {
        let plan = router(token.to_string()).unwrap();
        assert_eq!(plan.path, "/mcp");
        assert_eq!(plan.token, token);
        assert!(!plan.legacy_session_mode);
        assert!(plan.json_response);
    }
}

#[test]
fn characters_next_to_the_alphabet_are_refused() {
    for token in ["@", "[", "`", "{", ":", ",", "a\u{7f}", "aé", "a=é", "==", "=a"] {
        assert_eq!(router(token.to_string()).err(), Some(InvalidBearerToken));
    }
}

#[test]
fn the_refusal_of_a_token_does_not_repeat_it() {
    let refusal = router("top secret".to_string()).err().unwrap();
    assert_eq!(
        refusal.message(),
        "bearer token must be nonempty and use the RFC 6750 token alphabet"
    );
    assert!(!refusal.message().contains("top secret"));
}

#[test]
fn the_configured_token_passes_in_any_case_of_the_scheme() {
    for value in [
        format!("Bearer {TOKEN}"),
        format!("bearer {TOKEN}"),
        format!("BEARER {TOKEN}"),
        format!("bEaReR    {TOKEN}"),
    ] {
        assert!(accepts(TOKEN, vec![header(&value)]), "{value}");
    }
}

#[test]
fn missing_and_wrong_credentials_are_challenged() {
    let mut requests = vec![vec![]];
    for value in ["Bearer wrong", "Basic test", "Bearer ", "Bearer", "", "Bearer  "] {
        requests.push(vec![header(value)]);
    }
    for values in requests {
        let challenge = authenticate(TOKEN, &values).unwrap_err();
        assert_eq!(challenge.status, 401);
        assert_eq!(challenge.www_authenticate, "Bearer realm=\"oxana-mcp\"");
        assert_eq!(challenge.body, "Unauthorized");
    }
}

#[test]
fn ambiguous_headers_are_refused() {
    let good = header(&format!("Bearer {TOKEN}"));
    assert!(!accepts(TOKEN, vec![good.clone(), header("Bearer other")]));
    assert!(!accepts(TOKEN, vec![header("Bearer other"), good.clone()]));
    assert!(!accepts(TOKEN, vec![good.clone(), good.clone()]));
    assert!(accepts(TOKEN, vec![good]));
}

#[test]
fn what_surrounds_the_token_counts() {
    for value in [
        format!("Bearer {TOKEN} "),
        format!(" Bearer {TOKEN}"),
        format!("Bearer\t{TOKEN}"),
        format!("Bearer{TOKEN}"),
        format!("Bearers {TOKEN}"),
        format!("Bearer {TOKEN}="),
        format!("Bearer {}", &TOKEN[1..]),
        format!("Bearer {}", TOKEN.to_uppercase()),
    ] {
        assert!(!accepts(TOKEN, vec![header(&value)]), "{value}");
    }
}

#[test]
fn a_value_that_is_no_plain_text_is_refused() {
    // The bytes after the scheme are those of the expected token in each case.
    for expected in ["tok\u{ff}", "tok\u{1}", "tok\u{7f}", "tok\r\n"] {
        assert!(!accepts(expected, vec![header(&format!("Bearer {expected}"))]));
    }
    assert!(accepts("tok\t", vec![header("Bearer tok\t")]));
}

#[test]
fn a_request_passes_with_one_token_only() {
    let values = vec![header("Bearer abc=")];
    for (expected, passes) in [("abc=", true), ("abc", false), ("abc==", false), ("abd=", false)] {
        assert_eq!(authenticate(expected, &values).is_ok(), passes, "{expected}");
    }
}
