use base64::engine::general_purpose;
use base64::Engine as _;
use cook_sync::api::refresh_outcome;
use cook_sync::auth::{callback_url, login_url, AuthManager, RefreshDecision};
use cook_sync::auth::is_preflight_request;
use cook_sync::store::MockKeyring;
use cook_sync::SyncError;

type MockAuth = AuthManager<MockKeyring>;

fn make_jwt(uid: &str, expires_in: i64) -> String {
    let now = chrono::Utc::now().timestamp();
    let header = general_purpose::STANDARD_NO_PAD.encode(r#"{"alg":"HS256","typ":"JWT"}"#);
    let claims = format!(r#"{{"uid":"{}","exp":{}}}"#, uid, now + expires_in);
    let payload = general_purpose::STANDARD_NO_PAD.encode(claims);
    format!("{header}.{payload}.sig")
}

fn now_ts() -> i64 {
    chrono::Utc::now().timestamp()
}

fn extract(request: &str, state: &str) -> Option<String> {
    MockAuth::extract_token_from_request(request, state)
}

#[test]
fn test_extract_token_accepts_matching_state() {
    let request = "GET /auth/callback?token=abc.def.ghi&state=xyz123 HTTP/1.1\r\nHost: localhost\r\n\r\n";
    assert_eq!(extract(request, "xyz123"), Some("abc.def.ghi".to_string()));
}

#[test]
fn test_extract_token_rejects_mismatched_state() {
    // A syntactically valid token is still rejected when the state does not
    // match the generated value.
    let request = "GET /auth/callback?token=abc.def.ghi&state=WRONG HTTP/1.1\r\nHost: localhost\r\n\r\n";
    assert_eq!(extract(request, "xyz123"), None);
}

#[test]
fn test_extract_token_rejects_missing_state() {
    let request = "GET /auth/callback?token=abc.def.ghi HTTP/1.1\r\n\r\n";
    assert_eq!(extract(request, "xyz123"), None);
}

#[test]
fn test_extract_token_requires_get() {
    let request = "POST /auth/callback?token=abc&state=xyz HTTP/1.1\r\n\r\n";
    assert_eq!(extract(request, "xyz"), None);
    assert_eq!(extract("", "xyz"), None);
    let request = "GET /auth/callback HTTP/1.1\r\n\r\n";
    assert_eq!(extract(request, "xyz"), None);
}

#[test]
fn test_extract_token_percent_decodes() {
    // %2E decodes to a dot inside the token; the state itself is decoded
    // before comparison.
    let request = "GET /cb?token=a%2Eb%2Ec&state=x%20y HTTP/1.1\r\n";
    assert_eq!(extract(request, "x y"), Some("a.b.c".to_string()));

    // Later parameters win.
    let request = "GET /cb?token=first&token=second&state=s HTTP/1.1\r\n";
    assert_eq!(extract(request, "s"), Some("second".to_string()));
}

#[test]
fn test_is_preflight_request() {
    assert!(is_preflight_request("OPTIONS /auth/callback HTTP/1.1\r\n"));
    assert!(!is_preflight_request("GET /auth/callback HTTP/1.1\r\n"));
    assert!(!is_preflight_request(""));
}

#[test]
fn test_login_and_callback_urls() {
    assert_eq!(
        callback_url(8080),
        "http://localhost:8080/auth/callback"
    );
    assert_eq!(
        login_url("https://cook.md/api", 8080, "abc"),
        "https://cook.md/auth/desktops?callback=http%3A%2F%2Flocalhost%3A8080%2Fauth%2Fcallback&state=abc"
    );
    // Without the /api suffix the endpoint is used as it stands.
    assert_eq!(
        login_url("http://localhost:3000", 41234, "s1"),
        "http://localhost:3000/auth/desktops?callback=http%3A%2F%2Flocalhost%3A41234%2Fauth%2Fcallback&state=s1"
    );
}

#[test]
fn test_auth_manager_login_logout() {
    let now = now_ts();
    let mut mgr = MockAuth::new(MockKeyring::new(), now).expect("empty store loads");
    assert!(!mgr.is_authenticated());
    assert!(mgr.get_session().is_none());

    // An invalid token is rejected and leaves the manager unauthenticated.
    assert!(mgr.set_session("not-a-token".to_string()).is_err());
    assert!(!mgr.is_authenticated());

    // A valid token logs in.
    let jwt = make_jwt("u1", 3600);
    mgr.set_session(jwt.clone()).expect("valid token installs");
    assert!(mgr.is_authenticated());
    let session = mgr.get_session().expect("session installed");
    assert_eq!(session.user_id, "u1");
    assert_eq!(session.jwt, jwt);

    // The persisted session survives a restart of the manager.
    let mgr2 = MockAuth::new(mgr.store, now).expect("load persisted session");
    assert!(mgr2.is_authenticated());
    let mut mgr = mgr2;

    // Logout clears it, twice without error.
    mgr.logout().expect("logout succeeds");
    assert!(!mgr.is_authenticated());
    mgr.logout().expect("logout is idempotent");

    let mgr3 = MockAuth::new(mgr.store, now).expect("load after logout");
    assert!(!mgr3.is_authenticated());
}

#[test]
fn test_auth_manager_refresh_decision() {
    let now = now_ts();

    let mgr = MockAuth::new(MockKeyring::new(), now).unwrap();
    assert!(matches!(mgr.refresh_decision(now), RefreshDecision::NoSession));

    let mut mgr = MockAuth::new(MockKeyring::new(), now).unwrap();
    let fresh = make_jwt("u1", 7200);
    mgr.set_session(fresh).unwrap();
    assert!(matches!(
        mgr.refresh_decision(now),
        RefreshDecision::KeepCurrent
    ));

    let mut mgr = MockAuth::new(MockKeyring::new(), now).unwrap();
    let expiring = make_jwt("u1", 1800);
    mgr.set_session(expiring.clone()).unwrap();
    match mgr.refresh_decision(now) {
        RefreshDecision::Refresh(t) => assert_eq!(t, expiring),
        _ => panic!("a token under an hour from expiry is refreshed"),
    }
}

#[test]
fn test_refresh_outcome_cases() {
    // 200 with a well-formed body yields the new token.
    let r = refresh_outcome(200, r#"{"token":"new.jwt.value"}"#);
    assert_eq!(r.unwrap(), "new.jwt.value");

    // 200 with junk is a transport-class failure.
    let r = refresh_outcome(200, "not json");
    assert!(matches!(r, Err(SyncError::Network(_))));

    // 401 revokes trust.
    let r = refresh_outcome(401, "");
    assert!(matches!(r, Err(SyncError::AuthenticationRequired)));

    // Other statuses carry the status and the body's message.
    let r = refresh_outcome(503, r#"{"error":"unavailable","message":"try later"}"#);
    match r {
        Err(SyncError::Other(m)) => {
            assert_eq!(m, "Token refresh failed with status 503: try later");
        }
        _ => panic!("expected a generic failure"),
    }

    // A body without a message still reports the status.
    let r = refresh_outcome(500, "oops");
    match r {
        Err(SyncError::Other(m)) => {
            assert_eq!(m, "Token refresh failed with status 500: ");
        }
        _ => panic!("expected a generic failure"),
    }
}

#[test]
fn test_callback_scenario_state_mismatch_creates_no_session() {
    // End to end: a callback carrying a valid token but the wrong state is
    // rejected, and no session is created.
    let now = now_ts();
    let mut mgr = MockAuth::new(MockKeyring::new(), now).unwrap();
    let token = make_jwt("u1", 3600);
    let request = format!(
        "GET /auth/callback?token={}&state=attacker HTTP/1.1\r\n\r\n",
        token
    );

    match MockAuth::extract_token_from_request(&request, "expected-state") {
        Some(t) => {
            mgr.set_session(t).unwrap();
        }
        None => {}
    }
    assert!(!mgr.is_authenticated(), "no session on state mismatch");

    // With the right state the same callback logs in.
    let request = format!(
        "GET /auth/callback?token={}&state=expected-state HTTP/1.1\r\n\r\n",
        token
    );
    let t = MockAuth::extract_token_from_request(&request, "expected-state")
        .expect("matching state yields the token");
    mgr.set_session(t).unwrap();
    assert!(mgr.is_authenticated());
    assert_eq!(mgr.get_session().unwrap().user_id, "u1");
}
