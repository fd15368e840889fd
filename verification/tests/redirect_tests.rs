use pandora_core::models::PendingAuthorization;
use pandora_core::redirect::{
    parse_query, process_redirect_query, query_part, ProcessAuthorizationError,
};

fn pending(csrf: &str) -> PendingAuthorization {
    PendingAuthorization {
        url: "http://example.invalid/".to_string(),
        csrf_token: csrf.to_string(),
        pkce_verifier: "verifier".to_string(),
    }
}

#[test]
fn query_part_splits_at_question_mark() {
    assert_eq!(query_part("/?code=abc&state=xyz"), "code=abc&state=xyz");
    assert_eq!(query_part("/redirect"), "");
    assert_eq!(query_part("?"), "");
}

#[test]
fn parse_query_splits_pairs_in_order() {
    let pairs = parse_query("code=abc&state=xyz");
    assert_eq!(pairs.len(), 2);
    assert_eq!(pairs[0].0, "code");
    assert_eq!(pairs[0].1, "abc");
    assert_eq!(pairs[1].0, "state");
    assert_eq!(pairs[1].1, "xyz");
}

#[test]
fn parse_query_decodes_escapes_and_plus() {
    let pairs = parse_query("a=x%20y%2Bz&b=1+2");
    assert_eq!(pairs[0].1, "x y+z");
    assert_eq!(pairs[1].1, "1 2");
}

#[test]
fn parse_query_keeps_stray_percent_literal() {
    let pairs = parse_query("a=50%&b=%zz");
    assert_eq!(pairs[0].1, "50%");
    assert_eq!(pairs[1].1, "%zz");
}

#[test]
fn parse_query_skips_empty_components_and_defaults_value() {
    let pairs = parse_query("a=1&&b&=c");
    assert_eq!(pairs.len(), 3);
    assert_eq!(pairs[0], ("a".to_string(), "1".to_string()));
    assert_eq!(pairs[1], ("b".to_string(), "".to_string()));
    assert_eq!(pairs[2], ("".to_string(), "c".to_string()));
}

#[test]
fn matching_state_and_code_finishes_authorization() {
    let pairs = parse_query("code=thecode&state=csrf123");
    let r = process_redirect_query(&pairs, pending("csrf123")).unwrap();
    assert_eq!(r.code, "thecode");
    assert_eq!(r.pending.csrf_token, "csrf123");
    assert_eq!(r.pending.pkce_verifier, "verifier");
}

#[test]
fn mismatched_state_never_yields_a_code() {
    let pairs = parse_query("code=thecode&state=wrong");
    let r = process_redirect_query(&pairs, pending("csrf123"));
    assert_eq!(r, Err(ProcessAuthorizationError::CsrfMismatch));
}

#[test]
fn access_denied_is_reported_with_its_code() {
    let pairs = parse_query("error=access_denied&state=csrf123&code=thecode");
    match process_redirect_query(&pairs, pending("csrf123")) {
        Err(ProcessAuthorizationError::ServersideError(m)) => {
            assert!(m.contains("access_denied"));
            assert_eq!(m, "An error occurred: access_denied");
        },
        other => panic!("expected ServersideError, got {:?}", other),
    }
}

#[test]
fn error_description_is_appended() {
    let pairs = parse_query("error=access_denied&error_description=user%20said%20no");
    match process_redirect_query(&pairs, pending("csrf123")) {
        Err(ProcessAuthorizationError::ServersideError(m)) => {
            assert_eq!(m, "An error occurred: access_denied\nuser said no");
        },
        other => panic!("expected ServersideError, got {:?}", other),
    }
}

#[test]
fn error_wins_over_csrf_mismatch() {
    let pairs = parse_query("error=oops&state=wrong");
    assert!(matches!(
        process_redirect_query(&pairs, pending("csrf123")),
        Err(ProcessAuthorizationError::ServersideError(_))
    ));
}

#[test]
fn missing_code_is_its_own_error() {
    let pairs = parse_query("state=csrf123");
    assert_eq!(
        process_redirect_query(&pairs, pending("csrf123")),
        Err(ProcessAuthorizationError::MissingCode)
    );
}

#[test]
fn missing_state_still_captures_code() {
    let pairs = parse_query("code=thecode");
    let r = process_redirect_query(&pairs, pending("csrf123")).unwrap();
    assert_eq!(r.code, "thecode");
}

#[test]
fn later_duplicate_parameter_wins() {
    let pairs = parse_query("code=first&code=second&state=csrf123");
    let r = process_redirect_query(&pairs, pending("csrf123")).unwrap();
    assert_eq!(r.code, "second");
}
