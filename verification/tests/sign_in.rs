use std::collections::HashMap;

use d6e_cli::auth::{
    refresh_request_for, signed_in, signed_out, status_before_refresh,
    authorization_code_request, refresh_outcome, refresh_token_request, session_after_refresh,
    token_url, validate_token_response, AuthAttempt, RefreshOutcome, TokenResponse,
};
use d6e_cli::callback::{
    callback_from_parts, callback_redirect_uri,
    callback_read_progress, callback_response, callback_step, parse_callback, CallbackRead,
    CallbackResult, CallbackStep,
};
use d6e_cli::error::CliError;
use d6e_cli::personal::PersonalProfile;
use d6e_cli::urls::{parse_url, QueryPair};
use url::Url;

#[test]
fn authorization_url_uses_public_client_and_pkce() {
    let attempt: AuthAttempt = AuthAttempt::new().ok().expect("PKCE attempt");
    let origin: Url = Url::parse("https://d6e.ai/").expect("auth origin");
    let redirect: Url = Url::parse("http://127.0.0.1:49152/callback").expect("callback URL");
    let url: Url = Url::parse(
        &attempt
            .authorization_url(origin.as_str(), redirect.as_str())
            .ok()
            .expect("authorization URL"),
    )
    .expect("authorization URL parses");
    let parameters: HashMap<String, String> = url
        .query_pairs()
        .map(|(key, value)| (key.into_owned(), value.into_owned()))
        .collect();
    assert_eq!(url.path(), "/auth/login");
    assert_eq!(parameters["client_id"], "d6e-cli");
    assert_eq!(parameters["redirect_uri"], redirect.as_str());
    assert_eq!(parameters["code_challenge_method"], "S256");
    assert_eq!(parameters["code_challenge"], attempt.challenge);
    assert_eq!(attempt.verifier.len(), 43);
    assert_ne!(parameters["code_challenge"], attempt.verifier);
    assert!(!parameters.contains_key("client_secret"));
}

#[test]
fn pkce_challenge_is_s256_of_the_verifier() {
    let attempt = AuthAttempt::from_random(vec![0u8; 32], (0u8..32).collect());
    assert_eq!(attempt.verifier, "AAAAAAAAAAAAAAAAAAAAAAAAAAAAAAAAAAAAAAAAAAA");
    assert_eq!(attempt.state, "AAECAwQFBgcICQoLDA0ODxAREhMUFRYXGBkaGxwdHh8");
    assert_eq!(attempt.challenge, "DwBzhbb51LfusnSGBa_hqYSgo7-j8BTQnip4TOnlzRo");
}

#[test]
fn fresh_attempts_differ() {
    let a = AuthAttempt::new().ok().expect("first attempt");
    let b = AuthAttempt::new().ok().expect("second attempt");
    assert_ne!(a.verifier, b.verifier);
    assert_ne!(a.state, b.state);
    assert_eq!(a.state.len(), 43);
}

#[test]
fn callback_requires_exact_path_host_and_state() {
    let state: &str = "expected-state";
    let valid: &str = "GET /callback?code=opaque-code&state=expected-state HTTP/1.1\r\nhost: 127.0.0.1:49152\r\n\r\n";
    let wrong_state: &str =
        "GET /callback?code=opaque-code&state=wrong HTTP/1.1\r\nhost: 127.0.0.1:49152\r\n\r\n";
    let duplicate_state: &str = "GET /callback?code=opaque-code&state=expected-state&state=wrong HTTP/1.1\r\nhost: 127.0.0.1:49152\r\n\r\n";
    let wrong_host: &str = "GET /callback?code=opaque-code&state=expected-state HTTP/1.1\r\nhost: evil.test\r\n\r\n";
    let wrong_path: &str = "GET /other?code=opaque-code&state=expected-state HTTP/1.1\r\nhost: 127.0.0.1:49152\r\n\r\n";

    assert!(matches!(
        parse_callback(valid, 49152, state),
        CallbackResult::Code(_)
    ));
    for request in [wrong_state, duplicate_state, wrong_host, wrong_path] {
        assert!(matches!(
            parse_callback(request, 49152, state),
            CallbackResult::Ignore
        ));
    }
}

#[test]
fn callback_code_is_percent_decoded_and_errors_deny() {
    let request = "GET /callback?state=s%20t&code=a%2Bb HTTP/1.1\r\nHost: 127.0.0.1:50000\r\nAccept: */*\r\n\r\n";
    match parse_callback(request, 50000, "s t") {
        CallbackResult::Code(code) => assert_eq!(code, "a+b"),
        _ => panic!("code expected"),
    }
    let denied = "GET /callback?state=st&error=access_denied&error_description=no HTTP/1.1\r\nHOST: 127.0.0.1:50000\r\n\r\n";
    assert!(matches!(parse_callback(denied, 50000, "st"), CallbackResult::Denied));
    let denied_wrong_state = "GET /callback?state=other&error=access_denied HTTP/1.1\r\nhost: 127.0.0.1:50000\r\n\r\n";
    assert!(matches!(parse_callback(denied_wrong_state, 50000, "st"), CallbackResult::Ignore));
}

#[test]
fn callback_ignores_malformed_requests() {
    let port = 40000;
    let cases = [
        "",
        "POST /callback?state=st&code=c HTTP/1.1\r\nhost: 127.0.0.1:40000\r\n\r\n",
        "GET /callback?state=st&code=c HTTP/1.0\r\nhost: 127.0.0.1:40000\r\n\r\n",
        "GET /callback?state=st&code=c HTTP/1.1 extra\r\nhost: 127.0.0.1:40000\r\n\r\n",
        "GET callback?state=st&code=c HTTP/1.1\r\nhost: 127.0.0.1:40000\r\n\r\n",
        "GET /callback?state=st&code=c HTTP/1.1\r\nhost: 127.0.0.1:40000\r\n",
        "GET /callback?state=st&code=c HTTP/1.1\r\nhost: 127.0.0.1:40000\r\nHost: 127.0.0.1:40000\r\n\r\n",
        "GET /callback?state=st&code=c HTTP/1.1\r\nhost: 127.0.0.1:40001\r\n\r\n",
        "GET /callback?state=st&code= HTTP/1.1\r\nhost: 127.0.0.1:40000\r\n\r\n",
        "GET /callback?state=st HTTP/1.1\r\nhost: 127.0.0.1:40000\r\n\r\n",
        "GET /callback?state=st&code=c&extra=1 HTTP/1.1\r\nhost: 127.0.0.1:40000\r\n\r\n",
        "GET /callback?state=st&code=c#frag HTTP/1.1\r\nhost: 127.0.0.1:40000\r\n\r\n",
        "GET /callback/x?state=st&code=c HTTP/1.1\r\nhost: 127.0.0.1:40000\r\n\r\n",
    ];
    for request in cases {
        assert!(
            matches!(parse_callback(request, port, "st"), CallbackResult::Ignore),
            "{request:?}"
        );
    }
    let with_body = "GET /callback?state=st&code=c HTTP/1.1\r\nhost: 127.0.0.1:40000\r\n\r\nbody";
    assert!(matches!(parse_callback(with_body, port, "st"), CallbackResult::Code(_)));
}

#[test]
fn callback_answers_and_steps() {
    let ok = callback_response(true);
    let body = "Authorization received. Return to the terminal to confirm D6E CLI sign-in.";
    assert_eq!(
        ok,
        format!(
            "HTTP/1.1 200 OK\r\ncontent-type: text/plain; charset=utf-8\r\ncache-control: no-store\r\ncontent-security-policy: default-src 'none'\r\ncontent-length: {}\r\nconnection: close\r\n\r\n{body}",
            body.len()
        )
    );
    let refused = callback_response(false);
    assert!(refused.starts_with("HTTP/1.1 400 Bad Request\r\n"));
    assert!(refused.contains("content-length: 39\r\n"));
    assert!(refused.ends_with("\r\n\r\nD6E CLI could not accept this callback."));

    match callback_step(CallbackResult::Code("c".to_owned())) {
        (true, CallbackStep::Finish(Ok(code))) => assert_eq!(code, "c"),
        _ => panic!("a code ends the wait"),
    }
    match callback_step(CallbackResult::Denied) {
        (false, CallbackStep::Finish(Err(CliError::Authentication { message }))) => {
            assert_eq!(message, "sign-in was denied")
        }
        _ => panic!("a denial ends the wait with an error"),
    }
    assert!(matches!(callback_step(CallbackResult::Ignore), (false, CallbackStep::Wait)));
}

#[test]
fn callback_reading_stops_at_the_blank_line_or_the_limit() {
    assert!(matches!(callback_read_progress(b"GET / HTTP/1.1\r\n".to_vec()), CallbackRead::NeedMore));
    match callback_read_progress(b"GET / HTTP/1.1\r\n\r\n".to_vec()) {
        CallbackRead::Complete(Some(text)) => assert_eq!(text, "GET / HTTP/1.1\r\n\r\n"),
        _ => panic!("complete request expected"),
    }
    assert!(matches!(
        callback_read_progress(vec![0xff, b'\r', b'\n', b'\r', b'\n']),
        CallbackRead::Complete(None)
    ));
    assert!(matches!(callback_read_progress(vec![b'a'; 8193]), CallbackRead::TooLarge));
    let mut at_limit = vec![b'a'; 8188];
    at_limit.extend_from_slice(b"\r\n\r\n");
    assert!(matches!(callback_read_progress(at_limit), CallbackRead::Complete(Some(_))));
}

fn token(access: &str, refresh: &str, kind: &str, expires_in: u64) -> TokenResponse {
    TokenResponse {
        access_token: access.to_owned(),
        refresh_token: refresh.to_owned(),
        token_type: kind.to_owned(),
        expires_in,
    }
}

#[test]
fn token_answers_must_be_usable_bearer_tokens() {
    assert!(validate_token_response(&token("access-only", "refresh-only", "Bearer", 3600)).is_ok());
    for bad in [
        token("a", "r", "bearer", 3600),
        token("a", "r", "Bearer", 0),
        token("  ", "r", "Bearer", 3600),
        token("a", "\t", "Bearer", 3600),
    ] {
        match validate_token_response(&bad) {
            Err(CliError::Authentication { message }) => {
                assert_eq!(message, "D6E Auth returned an invalid token response")
            }
            _ => panic!("unusable token answer must be refused"),
        }
    }
}

#[test]
fn token_requests_name_the_public_client_and_no_secret() {
    let code = authorization_code_request(
        "one-time-code",
        "test-verifier",
        "http://127.0.0.1:49152/callback",
    );
    assert_eq!(code.grant_type, "authorization_code");
    assert_eq!(code.client_id, "d6e-cli");
    assert_eq!(code.code.as_deref(), Some("one-time-code"));
    assert_eq!(code.code_verifier.as_deref(), Some("test-verifier"));
    assert_eq!(code.redirect_uri.as_deref(), Some("http://127.0.0.1:49152/callback"));
    assert!(code.refresh_token.is_none());

    let refresh = refresh_token_request("old-refresh");
    assert_eq!(refresh.grant_type, "refresh_token");
    assert_eq!(refresh.client_id, "d6e-cli");
    assert_eq!(refresh.refresh_token.as_deref(), Some("old-refresh"));
    assert!(refresh.code.is_none() && refresh.code_verifier.is_none() && refresh.redirect_uri.is_none());

    assert_eq!(
        token_url("http://127.0.0.1:4000/").ok().expect("token URL"),
        "http://127.0.0.1:4000/api/v1/auth/token"
    );
}

#[test]
fn refresh_replaces_the_token_or_asks_for_a_new_sign_in_on_an_invalid_grant() {
    match refresh_outcome(Ok(token("access-only", "new-refresh", "Bearer", 3600))) {
        RefreshOutcome::Store { refresh_token, access_token } => {
            assert_eq!(refresh_token, "new-refresh");
            assert_eq!(access_token, "access-only");
        }
        _ => panic!("a new token pair is stored"),
    }
    let invalid_grant = CliError::Api {
        status: 400,
        code: "invalid_grant".to_owned(),
        message: "expired".to_owned(),
        request_id: None,
    };
    assert!(matches!(
        refresh_outcome(Err(invalid_grant)),
        RefreshOutcome::Fail(CliError::MissingCredential)
    ));
    let other = CliError::Api {
        status: 401,
        code: "invalid_grant".to_owned(),
        message: "m".to_owned(),
        request_id: None,
    };
    assert!(matches!(refresh_outcome(Err(other)), RefreshOutcome::Fail(CliError::Api { status: 401, .. })));
    assert!(matches!(refresh_outcome(Err(CliError::Transport)), RefreshOutcome::Fail(CliError::Transport)));
    match refresh_outcome(Ok(token("access-only", " ", "Bearer", 3600))) {
        RefreshOutcome::Fail(CliError::Authentication { message }) => {
            assert_eq!(message, "D6E Auth returned an invalid token response")
        }
        _ => panic!("an unusable token answer is never stored"),
    }
}

#[test]
fn status_reports_signed_out_after_a_missing_credential() {
    assert!(matches!(session_after_refresh(Err(CliError::MissingCredential)), Ok(None)));
    assert_eq!(session_after_refresh(Ok("t".to_owned())).ok().flatten().as_deref(), Some("t"));
    assert!(matches!(session_after_refresh(Err(CliError::CredentialStore)), Err(CliError::CredentialStore)));
}

#[test]
fn redirect_uri_is_the_loopback_callback_of_the_port() {
    assert_eq!(
        callback_redirect_uri(49152).ok().expect("redirect URI"),
        "http://127.0.0.1:49152/callback"
    );
    assert_eq!(
        callback_redirect_uri(8080).ok().expect("redirect URI"),
        "http://127.0.0.1:8080/callback"
    );
}

fn pair(key: &str, value: &str) -> QueryPair {
    QueryPair {
        key: key.to_owned(),
        value: value.to_owned(),
    }
}

#[test]
fn parsed_callback_urls_need_the_path_the_state_and_a_code() {
    let url = parse_url("http://127.0.0.1:49152/callback?x").expect("callback URL");
    let code = callback_from_parts(&url, &vec![pair("code", "c1"), pair("state", "s")], "s");
    assert!(matches!(code, CallbackResult::Code(ref c) if c == "c1"));
    let denied = callback_from_parts(
        &url,
        &vec![pair("state", "s"), pair("error", "access_denied"), pair("error_description", "no")],
        "s",
    );
    assert!(matches!(denied, CallbackResult::Denied));
    for pairs in [
        vec![pair("code", "c1"), pair("state", "other")],
        vec![pair("code", "c1")],
        vec![pair("code", ""), pair("state", "s")],
        vec![pair("code", "c1"), pair("code", "c2"), pair("state", "s")],
        vec![pair("code", "c1"), pair("state", "s"), pair("extra", "1")],
    ] {
        assert!(matches!(callback_from_parts(&url, &pairs, "s"), CallbackResult::Ignore));
    }
    let other_path = parse_url("http://127.0.0.1:49152/other").expect("URL");
    assert!(matches!(
        callback_from_parts(&other_path, &vec![pair("code", "c1"), pair("state", "s")], "s"),
        CallbackResult::Ignore
    ));
    let fragment = parse_url("http://127.0.0.1:49152/callback#f").expect("URL");
    assert!(matches!(
        callback_from_parts(&fragment, &vec![pair("code", "c1"), pair("state", "s")], "s"),
        CallbackResult::Ignore
    ));
}

#[test]
fn a_refresh_needs_a_stored_token() {
    assert!(matches!(refresh_request_for(None), Err(CliError::MissingCredential)));
    let request = refresh_request_for(Some("old-refresh")).ok().expect("refresh request");
    assert_eq!(request.grant_type, "refresh_token");
    assert_eq!(request.client_id, "d6e-cli");
    assert_eq!(request.refresh_token.as_deref(), Some("old-refresh"));
}

#[test]
fn status_without_a_credential_is_signed_out_at_once() {
    let status = status_before_refresh(false).expect("signed out");
    assert!(!status.logged_in && status.user.is_none());
    assert!(status_before_refresh(true).is_none());
    let out = signed_out();
    assert!(!out.logged_in && out.user.is_none());
    let user = PersonalProfile {
        id: "user-1".to_owned(),
        email: "person@example.com".to_owned(),
        name: "Name".to_owned(),
        updated_at: "2026-09-24T00:00:00.000Z".to_owned(),
    };
    let status = signed_in(user);
    assert!(status.logged_in);
    assert_eq!(status.user.expect("user").id, "user-1");
}
