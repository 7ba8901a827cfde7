//! The credential lifecycle manager: owns the current session, persists it
//! through a secret store, decides refreshes, and holds the pure half of
//! the browser login protocol (URL construction, request parsing and the
//! state check). The listener socket, the browser and the clock live with
//! the caller, which hands plain values in and out.

use crate::errors::SyncError;
use crate::session::{email_view, spec_delete, spec_load_model, spec_load_result, spec_save};
use crate::session::SecureSession;
use crate::store::KeyringStore;
use crate::token::{spec_find_char, spec_token_result, spec_uid_string, SpecTokenOutcome};
use crate::token::{find_char, JwtToken};
use crate::urlenc::{spec_pct_decode, spec_pct_encode};
use vstd::prelude::*;

verus! {

/// Both sessions are absent, or both are present with equal fields.
pub open spec fn session_like(a: Option<SecureSession>, b: Option<SecureSession>) -> bool {
    match (a, b) {
        (Some(x), Some(y)) => x.jwt@ == y.jwt@ && x.user_id@ == y.user_id@ && email_view(x.email)
            == email_view(y.email),
        (None, None) => true,
        _ => false,
    }
}

/// What the credential refresh loop should do at a tick.
#[derive(Debug)]
pub enum RefreshDecision {
    /// No session exists; nothing to refresh.
    NoSession,
    /// The token is valid with at least an hour left; leave it alone.
    KeepCurrent,
    /// The token is valid but close to expiry: refresh with this raw token.
    Refresh(String),
    /// The stored token no longer parses: clear the session.
    Evict,
}

/// Owns the current session and the secret store that persists it.
pub struct AuthManager<S: KeyringStore> {
    pub store: S,
    pub session: Option<SecureSession>,
}

impl<S: KeyringStore> AuthManager<S> {
    /// Loads the persisted session from the store, absent when there is
    /// none or it is no longer live at `now`.
    pub fn new(store: S, now: i64) -> (r: Result<AuthManager<S>, SyncError>)
        ensures
            store.obeys_model() ==> match r {
                Ok(mgr) => mgr.store.obeys_model() && mgr.store.model() == spec_load_model(
                    store.model(),
                    now as int,
                ) && (match mgr.session {
                    Some(sess) => spec_load_result(store.model(), now as int) == Some(
                        (sess.jwt@, sess.user_id@, email_view(sess.email)),
                    ),
                    None => spec_load_result(store.model(), now as int) is None,
                }),
                Err(_) => false,
            },
    {
        let mut store = store;
        let session = match SecureSession::load_with_store(&mut store, now) {
            Ok(s) => s,
            Err(e) => {
                return Err(e);
            },
        };
        Ok(AuthManager { store, session })
    }

    /// A snapshot of the current session.
    pub fn get_session(&self) -> (r: Option<SecureSession>)
        ensures
            session_like(r, self.session),
    {
        match &self.session {
            Some(s) => Some(
                SecureSession {
                    jwt: s.jwt.clone(),
                    user_id: s.user_id.clone(),
                    email: match &s.email {
                        Some(e) => Some(e.clone()),
                        None => None,
                    },
                },
            ),
            None => None,
        }
    }

    /// Whether a session is installed.
    pub fn is_authenticated(&self) -> (r: bool)
        ensures
            r == (self.session is Some),
    {
        match &self.session {
            Some(_) => true,
            None => false,
        }
    }

    /// Validates the raw token, persists the session it derives, and
    /// installs it as current. Fails with the token's parse error when the
    /// token is invalid, leaving everything unchanged.
    pub fn set_session(&mut self, jwt_token: String) -> (r: Result<(), SyncError>)
        ensures
            match spec_token_result(jwt_token@) {
                SpecTokenOutcome::Valid(c) => old(self).store.obeys_model() ==> (r is Ok
                    && final(self).store.obeys_model() && final(self).store.model() == spec_save(
                    old(self).store.model(),
                    jwt_token@,
                    spec_uid_string(c.uid),
                    c.email,
                )),
                _ => r is Err && *final(self) == *old(self),
            },
            r is Ok ==> (spec_token_result(jwt_token@) matches SpecTokenOutcome::Valid(c) && (
            final(self).session matches Some(s) && s.jwt@ == jwt_token@ && s.user_id@
                == spec_uid_string(c.uid) && email_view(s.email) == c.email)),
            r is Err ==> final(self).session == old(self).session,
    {
        let session = match SecureSession::new(jwt_token) {
            Ok(s) => s,
            Err(e) => {
                return Err(e);
            },
        };
        match session.save_with_store(&mut self.store) {
            Ok(()) => (),
            Err(e) => {
                return Err(e);
            },
        }
        self.session = Some(session);
        Ok(())
    }

    /// Deletes the persisted session and clears the current one. Clearing
    /// an absent session succeeds too.
    pub fn clear_session(&mut self) -> (r: Result<(), SyncError>)
        ensures
            old(self).store.obeys_model() ==> (r is Ok && final(self).store.obeys_model()
                && final(self).store.model() == spec_delete(old(self).store.model())),
            r is Ok ==> final(self).session is None,
            r is Err ==> final(self).session == old(self).session,
    {
        match SecureSession::delete_with_store(&mut self.store) {
            Ok(()) => (),
            Err(e) => {
                return Err(e);
            },
        }
        self.session = None;
        Ok(())
    }

    /// Logging out clears the session; doing it twice is harmless.
    pub fn logout(&mut self) -> (r: Result<(), SyncError>)
        ensures
            old(self).store.obeys_model() ==> (r is Ok && final(self).store.obeys_model()
                && final(self).store.model() == spec_delete(old(self).store.model())),
            r is Ok ==> final(self).session is None,
            r is Err ==> final(self).session == old(self).session,
    {
        self.clear_session()
    }

    /// What the refresh loop should do at `now`: nothing without a session,
    /// nothing while more than an hour remains, a refresh with the current
    /// raw token when less than an hour remains, and an eviction when the
    /// stored token no longer parses. A failed refresh is a trust loss: the
    /// caller clears the session rather than retrying.
    pub fn refresh_decision(&self, now: i64) -> (r: RefreshDecision)
        ensures
            match self.session {
                None => r is NoSession,
                Some(s) => match spec_token_result(s.jwt@) {
                    SpecTokenOutcome::Valid(c) => if c.exp - now < 3600 {
                        r matches RefreshDecision::Refresh(t) && t@ == s.jwt@
                    } else {
                        r is KeepCurrent
                    },
                    _ => r is Evict,
                },
            },
    {
        let session = match &self.session {
            Some(s) => s,
            None => {
                return RefreshDecision::NoSession;
            },
        };
        match session.jwt_token() {
            Ok(token) => {
                if token.should_refresh(now) {
                    RefreshDecision::Refresh(session.jwt.clone())
                } else {
                    RefreshDecision::KeepCurrent
                }
            },
            Err(_) => RefreshDecision::Evict,
        }
    }
}

/// The first request line: up to the first line feed, a trailing carriage
/// return dropped.
pub open spec fn spec_first_line(req: Seq<char>) -> Seq<char> {
    let nl = spec_find_char(req, '\n', 0);
    let line = req.subrange(0, nl);
    if line.len() > 0 && line[line.len() - 1] == '\r' {
        line.subrange(0, line.len() - 1)
    } else {
        line
    }
}

/// Scans `key=value` parameters separated by `&` from `i`, later values
/// winning. The `token` and `state` values are percent-decoded; a decode
/// failure aborts the scan.
pub open spec fn spec_scan_params(
    s: Seq<char>,
    i: int,
    token: Option<Seq<char>>,
    st: Option<Seq<char>>,
) -> Option<(Option<Seq<char>>, Option<Seq<char>>)>
    decreases s.len() - i,
{
    if !(0 <= i <= s.len()) {
        Some((token, st))
    } else {
        let amp = spec_find_char(s, '&', i);
        if !(i <= amp <= s.len()) {
            Some((token, st))
        } else {
            let p = s.subrange(i, amp);
            let eq = spec_find_char(p, '=', 0);
            let step = if !(0 <= eq < p.len()) {
                Some((token, st))
            } else {
                let key = p.subrange(0, eq);
                let value = p.subrange(eq + 1, p.len() as int);
                if key == "token"@ {
                    match spec_pct_decode(value) {
                        Some(d) => Some((Some(d), st)),
                        None => None,
                    }
                } else if key == "state"@ {
                    match spec_pct_decode(value) {
                        Some(d) => Some((token, Some(d))),
                        None => None,
                    }
                } else {
                    Some((token, st))
                }
            };
            match step {
                Some((token2, st2)) => if amp >= s.len() {
                    Some((token2, st2))
                } else {
                    spec_scan_params(s, amp + 1, token2, st2)
                },
                None => None,
            }
        }
    }
}

/// The token a callback request yields: the request line must be a `GET`
/// with a query string, and the decoded `state` parameter must equal the
/// expected value; only then is the decoded `token` parameter returned.
pub open spec fn spec_extract_token(req: Seq<char>, expected: Seq<char>) -> Option<Seq<char>> {
    let line = spec_first_line(req);
    if !(line.len() >= 4 && line.subrange(0, 4) == "GET "@) {
        None
    } else {
        let sp = spec_find_char(line, ' ', 4);
        let path = line.subrange(4, sp);
        let q = spec_find_char(path, '?', 0);
        if !(0 <= q < path.len()) {
            None
        } else {
            let query = path.subrange(q + 1, path.len() as int);
            match spec_scan_params(query, 0, None, None) {
                Some((token, st)) => if st == Some(expected) {
                    token
                } else {
                    None
                },
                None => None,
            }
        }
    }
}

/// Whether the raw request opens a CORS preflight.
pub open spec fn spec_is_preflight(req: Seq<char>) -> bool {
    req.len() >= 8 && req.subrange(0, 8) == "OPTIONS "@
}

/// Whether the request is a CORS preflight (`OPTIONS` method).
pub fn is_preflight_request(request: &str) -> (r: bool)
    ensures
        r == spec_is_preflight(request@),
{
    let v = crate::strutil::str_to_chars(request);
    if v.len() < 8 {
        return false;
    }
    let head = crate::strutil::subvec(&v, 0, 8);
    crate::strutil::chars_eq_str(&head, "OPTIONS ")
}

fn scan_params(v: &Vec<char>, i: usize, token: Option<String>, st: Option<String>) -> (r: Option<
    (Option<String>, Option<String>),
>)
    requires
        i <= v@.len(),
    ensures
        match spec_scan_params(v@, i as int, opt_view(token), opt_view(st)) {
            Some(p) => r matches Some(q) && opt_view(q.0) == p.0 && opt_view(q.1) == p.1,
            None => r is None,
        },
    decreases v@.len() - i,
{
    let amp = find_char(v, '&', i);
    let p = crate::strutil::subvec(v, i, amp);
    let eq = find_char(&p, '=', 0);
    let step: Option<(Option<String>, Option<String>)> = if eq >= p.len() {
        Some((token, st))
    } else {
        let key = crate::strutil::subvec(&p, 0, eq);
        let value = crate::strutil::subvec(&p, eq + 1, p.len());
        if crate::strutil::chars_eq_str(&key, "token") {
            match crate::urlenc::pct_decode(&value) {
                Some(d) => Some((Some(d), st)),
                None => None,
            }
        } else if crate::strutil::chars_eq_str(&key, "state") {
            match crate::urlenc::pct_decode(&value) {
                Some(d) => Some((token, Some(d))),
                None => None,
            }
        } else {
            Some((token, st))
        }
    };
    match step {
        Some((token2, st2)) => {
            if amp >= v.len() {
                Some((token2, st2))
            } else {
                scan_params(v, amp + 1, token2, st2)
            }
        },
        None => None,
    }
}

/// An optional string as a mathematical value.
pub open spec fn opt_view(o: Option<String>) -> Option<Seq<char>> {
    match o {
        Some(s) => Some(s@),
        None => None,
    }
}

impl<S: KeyringStore> AuthManager<S> {
    /// Reads the callback request and hands back the token, only when the
    /// request is a `GET` whose decoded `state` parameter equals
    /// `expected_state`. A mismatched or missing state rejects the callback
    /// even when a token parameter is present.
    pub fn extract_token_from_request(request: &str, expected_state: &str) -> (r: Option<String>)
        ensures
            match spec_extract_token(request@, expected_state@) {
                Some(t) => r matches Some(s) && s@ == t,
                None => r is None,
            },
    {
        let chars = crate::strutil::str_to_chars(request);
        let nl = find_char(&chars, '\n', 0);
        let mut line = crate::strutil::subvec(&chars, 0, nl);
        if line.len() > 0 && line[line.len() - 1] == '\r' {
            let shorter = crate::strutil::subvec(&line, 0, line.len() - 1);
            line = shorter;
        }
        proof {
            assert(line@ == spec_first_line(request@));
            reveal_strlit("GET ");
        }
        if line.len() < 4 {
            return None;
        }
        let head = crate::strutil::subvec(&line, 0, 4);
        if !crate::strutil::chars_eq_str(&head, "GET ") {
            return None;
        }
        let sp = find_char(&line, ' ', 4);
        let path = crate::strutil::subvec(&line, 4, sp);
        let q = find_char(&path, '?', 0);
        if q >= path.len() {
            return None;
        }
        let query = crate::strutil::subvec(&path, q + 1, path.len());
        match scan_params(&query, 0, None, None) {
            Some((token, st)) => {
                let expected_ok = match &st {
                    Some(s) => {
                        let sc = crate::strutil::str_to_chars(s.as_str());
                        crate::strutil::chars_eq_str(&sc, expected_state)
                    },
                    None => false,
                };
                if expected_ok {
                    token
                } else {
                    None
                }
            },
            None => None,
        }
    }
}

/// The loopback callback URL for the bound port.
pub fn callback_url(port: u16) -> (r: String)
    ensures
        r@ == "http://localhost:"@ + crate::strutil::spec_u64_dec(port as int)
            + "/auth/callback"@,
{
    let mut s = "http://localhost:".to_owned();
    let digits = crate::strutil::u64_to_string(port as u64);
    s.append(digits.as_str());
    s.append("/auth/callback");
    proof {
        assert(s@ =~= "http://localhost:"@ + crate::strutil::spec_u64_dec(port as int)
            + "/auth/callback"@);
    }
    s
}

/// The API endpoint with a trailing `/api` removed.
pub open spec fn spec_base_url(api: Seq<char>) -> Seq<char> {
    if api.len() >= 4 && api.subrange(api.len() - 4, api.len() as int) == "/api"@ {
        api.subrange(0, api.len() - 4)
    } else {
        api
    }
}

fn base_url_of(api_endpoint: &str) -> (r: String)
    ensures
        r@ == spec_base_url(api_endpoint@),
{
    let v = crate::strutil::str_to_chars(api_endpoint);
    if v.len() >= 4 {
        let n = v.len();
        let tail = crate::strutil::subvec(&v, n - 4, n);
        if crate::strutil::chars_eq_str(&tail, "/api") {
            let head = crate::strutil::subvec(&v, 0, n - 4);
            return crate::strutil::chars_to_string(&head);
        }
    }
    api_endpoint.to_owned()
}

/// The browser login URL: the service's login page for desktop clients,
/// carrying the percent-encoded callback URL and the state value.
pub fn login_url(api_endpoint: &str, port: u16, state: &str) -> (r: String)
    ensures
        r@ == spec_base_url(api_endpoint@) + "/auth/desktops?callback="@ + spec_pct_encode(
            "http://localhost:"@ + crate::strutil::spec_u64_dec(port as int) + "/auth/callback"@,
        ) + "&state="@ + state@,
{
    let mut s = base_url_of(api_endpoint);
    s.append("/auth/desktops?callback=");
    let cb = callback_url(port);
    let encoded = crate::urlenc::pct_encode(cb.as_str());
    s.append(encoded.as_str());
    s.append("&state=");
    s.append(state);
    proof {
        assert(s@ =~= spec_base_url(api_endpoint@) + "/auth/desktops?callback="@
            + spec_pct_encode(
            "http://localhost:"@ + crate::strutil::spec_u64_dec(port as int) + "/auth/callback"@,
        ) + "&state="@ + state@);
    }
    s
}

} // verus!
