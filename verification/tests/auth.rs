use teil_ing::auth;
use teil_ing::auth::{CallbackStep, DeepLink, ExchangeReply, PendingSignin};

fn pending() -> PendingSignin {
    PendingSignin { state: "s1".to_string(), verifier: "v1".to_string() }
}

fn link(scheme: &str, host: Option<&str>, query: &[(&str, &str)]) -> DeepLink {
    DeepLink {
        scheme: scheme.to_string(),
        host: host.map(|h| h.to_string()),
        query: query.iter().map(|(k, v)| (k.to_string(), v.to_string())).collect(),
    }
}

#[test]
fn challenges_are_digests_in_base64() {
    // The example of RFC 7636, appendix B.
    assert_eq!(
        auth::challenge("dBjftJeZ4CVP-mB92K27uhbUJU1p1r_wW1gFWFOEjXk"),
        "E9Melhoa2OwvFrEMTJguCHaoeK1t8URWbuGJSstw-cM"
    );
    // SHA-256 of the empty string.
    assert_eq!(auth::challenge(""), "47DEQpj8HBSa-_TImW-5JCeuQeRkm5NMpJWZG3hSuFU");
}

#[test]
fn random_tokens_have_the_length_of_their_bytes() {
    for (bytes, chars) in [(0usize, 0usize), (1, 2), (2, 3), (3, 4), (24, 32), (32, 43)] {
        let token = auth::random_b64url(bytes);
        assert_eq!(token.len(), chars);
        assert!(token.chars().all(|c| c.is_ascii_alphanumeric() || c == '-' || c == '_'));
    }
    assert_ne!(auth::random_b64url(32), auth::random_b64url(32));
}

#[test]
fn the_browser_gets_device_state_and_challenge() {
    let mut slot = None;
    let url = auth::begin_with(&mut slot, "Anna's Mac ä", "".to_string(), "st-_1".to_string());
    assert_eq!(
        url.unwrap(),
        "https://teil.ing/connect?device=Anna%27s+Mac+%C3%A4&state=st-_1&challenge=47DEQpj8HBSa-_TImW-5JCeuQeRkm5NMpJWZG3hSuFU"
    );
    let p = slot.unwrap();
    assert_eq!((p.state.as_str(), p.verifier.as_str()), ("st-_1", ""));
}

#[test]
fn a_signin_starts_with_fresh_tokens() {
    let mut slot = Some(pending());
    let url = auth::begin(&mut slot).unwrap();
    let p = slot.unwrap();
    assert_eq!(p.verifier.len(), 43);
    assert_eq!(p.state.len(), 32);
    assert!(url.starts_with("https://teil.ing/connect?device="));
    assert!(url.ends_with(&format!("&state={}&challenge={}", p.state, auth::challenge(&p.verifier))));
}

#[test]
fn a_link_that_answers_is_exchanged_once() {
    let mut slot = Some(pending());
    let raw = "teiling://connect?code=c%201&state=s1";
    assert_eq!(
        auth::handle_callback(&mut slot, raw),
        CallbackStep::Exchange { code: "c 1".to_string(), verifier: "v1".to_string() }
    );
    assert!(slot.is_none());
    assert_eq!(auth::handle_callback(&mut slot, raw), CallbackStep::Ignored);
}

#[test]
fn stray_links_leave_the_signin_waiting() {
    for raw in [
        "teiling://connect?code=c&state=other",
        "teiling://connect?code=c",
        "teiling://elsewhere?code=c&state=s1",
        "https://connect?code=c&state=s1",
        "not a link",
    ] {
        let mut slot = Some(pending());
        assert_eq!(auth::handle_callback(&mut slot, raw), CallbackStep::Ignored);
        assert_eq!(slot, Some(pending()));
    }
}

#[test]
fn a_new_attempt_supersedes_a_stale_one() {
    let mut slot = Some(pending());
    auth::begin_with(&mut slot, "d", "v2".to_string(), "s2".to_string()).unwrap();
    let stale = link("teiling", Some("connect"), &[("code", "c"), ("state", "s1")]);
    assert_eq!(auth::route_callback(&mut slot, &stale), CallbackStep::Ignored);
    assert!(slot.is_some());
}

#[test]
fn denials_and_incomplete_links_end_the_signin() {
    let mut slot = Some(pending());
    let denied = link("teiling", Some("connect"), &[("error", ""), ("code", "c"), ("state", "s1")]);
    assert_eq!(
        auth::route_callback(&mut slot, &denied),
        CallbackStep::Failed("The connection request was denied in the browser.".to_string())
    );
    assert!(slot.is_none());
    for query in [vec![("state", "s1")], vec![("state", "s1"), ("code", "")]] {
        let mut slot = Some(pending());
        assert_eq!(
            auth::route_callback(&mut slot, &link("teiling", Some("connect"), &query)),
            CallbackStep::Failed(
                "The sign-in callback was incomplete. Please try again.".to_string()
            )
        );
        assert!(slot.is_none());
    }
}

#[test]
fn the_last_of_equal_parameters_counts() {
    let mut slot = Some(pending());
    let twice = link(
        "teiling",
        Some("connect"),
        &[("state", "x"), ("code", "old"), ("state", "s1"), ("code", "new")],
    );
    assert_eq!(
        auth::route_callback(&mut slot, &twice),
        CallbackStep::Exchange { code: "new".to_string(), verifier: "v1".to_string() }
    );
}

#[test]
fn exchanges_carry_code_and_verifier() {
    let r = auth::exchange_request("c", "v");
    assert_eq!(r.url, "https://teil.ing/api/app/exchange");
    assert_eq!(r.timeout_s, 15);
    let fields: Vec<(&str, &str)> =
        r.fields.iter().map(|p| (p.name.as_str(), p.value.as_str())).collect();
    assert_eq!(fields, vec![("code", "c"), ("verifier", "v")]);
}

#[test]
fn exchanges_are_judged_by_the_reply() {
    let status = |code: u16, key: Option<&str>, error: Option<&str>| {
        auth::exchange(ExchangeReply::Status {
            code,
            key: key.map(|k| k.to_string()),
            error: error.map(|e| e.to_string()),
        })
    };
    assert_eq!(status(201, Some("k"), None), Ok("k".to_string()));
    assert_eq!(
        status(201, None, None),
        Err("Unexpected server response. Try again later.".to_string())
    );
    assert_eq!(
        status(429, None, None),
        Err("Too many sign-in attempts. Please wait a few minutes and try again.".to_string())
    );
    assert_eq!(status(400, None, Some("expired")), Err("expired".to_string()));
    assert_eq!(
        status(400, None, None),
        Err("Sign-in could not be completed. Please try again.".to_string())
    );
    assert_eq!(
        status(500, None, None),
        Err("Unexpected server response (500). Try again later.".to_string())
    );
    assert_eq!(
        auth::exchange(ExchangeReply::Unreachable),
        Err("Could not reach teil.ing. Check your connection and try again.".to_string())
    );
    assert_eq!(auth::key_stored(Ok(())), Ok(()));
    assert_eq!(
        auth::key_stored(Err("locked".to_string())),
        Err("Could not store the API key: locked".to_string())
    );
}
