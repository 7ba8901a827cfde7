//! The persisted session: a raw bearer token with the identity fields
//! derived from it, stored under three fixed keys of the secret store.
//! A persisted token that no longer parses, or is already expired, is
//! evicted at load time and the session reported absent.

use crate::errors::SyncError;
use crate::store::KeyringStore;
use crate::store::{MockKeyring, SystemKeyring};
use crate::token::{spec_uid_string, JwtToken, SpecTokenOutcome};
use crate::token::spec_token_result;
use vstd::prelude::*;

verus! {

pub open spec fn spec_service() -> Seq<char> {
    "cook.md-sync-agent"@
}

pub open spec fn k_jwt() -> (Seq<char>, Seq<char>) {
    (spec_service(), "jwt_token"@)
}

pub open spec fn k_uid() -> (Seq<char>, Seq<char>) {
    (spec_service(), "user_id"@)
}

pub open spec fn k_email() -> (Seq<char>, Seq<char>) {
    (spec_service(), "user_email"@)
}

/// The authenticated identity the agent operates under.
#[derive(Debug, Clone)]
pub struct SecureSession {
    pub jwt: String,
    pub user_id: String,
    pub email: Option<String>,
}

/// The email field as a mathematical value.
pub open spec fn email_view(e: Option<String>) -> Option<Seq<char>> {
    match e {
        Some(s) => Some(s@),
        None => None,
    }
}

/// The store content after saving a session with these fields: token and
/// user id always, the email key only when an email is present.
pub open spec fn spec_save(
    m: Map<(Seq<char>, Seq<char>), Seq<char>>,
    jwt: Seq<char>,
    uid: Seq<char>,
    email: Option<Seq<char>>,
) -> Map<(Seq<char>, Seq<char>), Seq<char>> {
    let m1 = m.insert(k_jwt(), jwt).insert(k_uid(), uid);
    match email {
        Some(e) => m1.insert(k_email(), e),
        None => m1,
    }
}

/// The store content after deleting the session keys.
pub open spec fn spec_delete(m: Map<(Seq<char>, Seq<char>), Seq<char>>) -> Map<
    (Seq<char>, Seq<char>),
    Seq<char>,
> {
    m.remove(k_jwt()).remove(k_uid()).remove(k_email())
}

/// Whether the stored token is present, parsable and unexpired at `now`.
pub open spec fn spec_stored_live(m: Map<(Seq<char>, Seq<char>), Seq<char>>, now: int) -> bool {
    m.contains_key(k_jwt()) && (spec_token_result(m[k_jwt()]) matches SpecTokenOutcome::Valid(c)
        && c.exp > now)
}

/// What loading yields: the session fields, or `None` when the store holds
/// no live session. The user id falls back to the token's own claim when the
/// stored value is missing.
pub open spec fn spec_load_result(m: Map<(Seq<char>, Seq<char>), Seq<char>>, now: int) -> Option<
    (Seq<char>, Seq<char>, Option<Seq<char>>),
> {
    if !spec_stored_live(m, now) {
        None
    } else {
        match spec_token_result(m[k_jwt()]) {
            SpecTokenOutcome::Valid(c) => Some(
                (
                    m[k_jwt()],
                    if m.contains_key(k_uid()) {
                        m[k_uid()]
                    } else {
                        spec_uid_string(c.uid)
                    },
                    if m.contains_key(k_email()) {
                        Some(m[k_email()])
                    } else {
                        None
                    },
                ),
            ),
            _ => None,
        }
    }
}

/// What loading leaves in the store: unchanged when absent or live, the
/// session keys evicted when the stored token is unparsable or expired.
pub open spec fn spec_load_model(m: Map<(Seq<char>, Seq<char>), Seq<char>>, now: int) -> Map<
    (Seq<char>, Seq<char>),
    Seq<char>,
> {
    if !m.contains_key(k_jwt()) {
        m
    } else if spec_stored_live(m, now) {
        m
    } else {
        spec_delete(m)
    }
}

impl SecureSession {
    /// Builds a session from a raw token: fails exactly when the token does
    /// not parse, and derives the identity fields from its claims.
    pub fn new(jwt_string: String) -> (r: Result<SecureSession, SyncError>)
        ensures
            match spec_token_result(jwt_string@) {
                SpecTokenOutcome::Valid(c) => r matches Ok(s) && s.jwt@ == jwt_string@
                    && s.user_id@ == spec_uid_string(c.uid) && email_view(s.email) == c.email,
                SpecTokenOutcome::BadFormat => r matches Err(e) && e is Jwt,
                SpecTokenOutcome::BadBase64 => r matches Err(e) && e is Other,
                SpecTokenOutcome::BadClaims => r matches Err(e) && e is Serialization,
            },
    {
        let token = match JwtToken::from_string(jwt_string.clone()) {
            Ok(t) => t,
            Err(e) => {
                return Err(e);
            },
        };
        let user_id = token.user_id();
        let email = match &token.claims.email {
            Some(e) => Some(e.clone()),
            None => None,
        };
        Ok(SecureSession { jwt: jwt_string, user_id, email })
    }

    /// Writes token, user id and (when present) email under the session
    /// keys. On a store that obeys the map model this cannot fail and the
    /// content afterwards is exactly `spec_save` of the content before.
    pub fn save_with_store<S: KeyringStore>(&self, store: &mut S) -> (r: Result<(), SyncError>)
        ensures
            old(store).obeys_model() ==> final(store).obeys_model(),
            old(store).obeys_model() ==> r is Ok && final(store).model() == spec_save(
                old(store).model(),
                self.jwt@,
                self.user_id@,
                email_view(self.email),
            ),
    {
        match store.set_password("cook.md-sync-agent", "jwt_token", self.jwt.as_str()) {
            Ok(()) => (),
            Err(e) => {
                return Err(e);
            },
        }
        match store.set_password("cook.md-sync-agent", "user_id", self.user_id.as_str()) {
            Ok(()) => (),
            Err(e) => {
                return Err(e);
            },
        }
        match &self.email {
            Some(email) => match store.set_password(
                "cook.md-sync-agent",
                "user_email",
                email.as_str(),
            ) {
                Ok(()) => Ok(()),
                Err(e) => Err(e),
            },
            None => Ok(()),
        }
    }

    /// Removes the three session keys. Deleting an absent session succeeds,
    /// so deletion is idempotent.
    pub fn delete_with_store<S: KeyringStore>(store: &mut S) -> (r: Result<(), SyncError>)
        ensures
            old(store).obeys_model() ==> final(store).obeys_model(),
            old(store).obeys_model() ==> r is Ok && final(store).model() == spec_delete(
                old(store).model(),
            ),
    {
        match store.delete_password("cook.md-sync-agent", "jwt_token") {
            Ok(()) => (),
            Err(e) => {
                return Err(e);
            },
        }
        match store.delete_password("cook.md-sync-agent", "user_id") {
            Ok(()) => (),
            Err(e) => {
                return Err(e);
            },
        }
        match store.delete_password("cook.md-sync-agent", "user_email") {
            Ok(()) => Ok(()),
            Err(e) => Err(e),
        }
    }

    /// Loads the persisted session, `Ok(None)` when absent. A stored token
    /// that does not parse or is expired at `now` is evicted from the store
    /// and the session reported absent. A session handed back is always
    /// parsable and unexpired at `now`.
    pub fn load_with_store<S: KeyringStore>(store: &mut S, now: i64) -> (r: Result<
        Option<SecureSession>,
        SyncError,
    >)
        ensures
            old(store).obeys_model() ==> final(store).obeys_model(),
            old(store).obeys_model() ==> final(store).model() == spec_load_model(
                old(store).model(),
                now as int,
            ),
            old(store).obeys_model() ==> match r {
                Ok(Some(sess)) => spec_load_result(old(store).model(), now as int) == Some(
                    (sess.jwt@, sess.user_id@, email_view(sess.email)),
                ),
                Ok(None) => spec_load_result(old(store).model(), now as int) is None,
                Err(_) => false,
            },
            r matches Ok(Some(sess)) ==> (spec_token_result(sess.jwt@)
                matches SpecTokenOutcome::Valid(c) && c.exp > now),
    {
        let jwt = match store.get_password("cook.md-sync-agent", "jwt_token") {
            Ok(Some(j)) => j,
            Ok(None) => {
                return Ok(None);
            },
            Err(e) => {
                return Err(e);
            },
        };
        let token = match JwtToken::from_string(jwt.clone()) {
            Ok(t) => t,
            Err(_) => {
                let _evicted = Self::delete_with_store(store);
                return Ok(None);
            },
        };
        if token.is_expired(now) {
            let _evicted = Self::delete_with_store(store);
            return Ok(None);
        }
        let user_id = match store.get_password("cook.md-sync-agent", "user_id") {
            Ok(Some(u)) => u,
            Ok(None) => token.user_id(),
            Err(e) => {
                return Err(e);
            },
        };
        let email = match store.get_password("cook.md-sync-agent", "user_email") {
            Ok(e) => e,
            Err(e) => {
                return Err(e);
            },
        };
        Ok(Some(SecureSession { jwt, user_id, email }))
    }

    /// Loads from the platform credential store.
    pub fn load(now: i64) -> (r: Result<Option<SecureSession>, SyncError>)
        ensures
            r matches Ok(Some(sess)) ==> (spec_token_result(sess.jwt@)
                matches SpecTokenOutcome::Valid(c) && c.exp > now),
    {
        let mut store = SystemKeyring;
        Self::load_with_store(&mut store, now)
    }

    /// Saves to the platform credential store.
    pub fn save(&self) -> (r: Result<(), SyncError>) {
        let mut store = SystemKeyring;
        self.save_with_store(&mut store)
    }

    /// Deletes from the platform credential store.
    pub fn delete() -> (r: Result<(), SyncError>) {
        let mut store = SystemKeyring;
        Self::delete_with_store(&mut store)
    }

    /// Loads from an in-memory store.
    pub fn load_with_mock(mock: &mut MockKeyring, now: i64) -> (r: Result<
        Option<SecureSession>,
        SyncError,
    >)
        ensures
            old(mock).obeys_model() ==> final(mock).obeys_model(),
            old(mock).obeys_model() ==> final(mock).model() == spec_load_model(
                old(mock).model(),
                now as int,
            ),
            old(mock).obeys_model() ==> match r {
                Ok(Some(sess)) => spec_load_result(old(mock).model(), now as int) == Some(
                    (sess.jwt@, sess.user_id@, email_view(sess.email)),
                ),
                Ok(None) => spec_load_result(old(mock).model(), now as int) is None,
                Err(_) => false,
            },
            r matches Ok(Some(sess)) ==> (spec_token_result(sess.jwt@)
                matches SpecTokenOutcome::Valid(c) && c.exp > now),
    {
        Self::load_with_store(mock, now)
    }

    /// Saves to an in-memory store.
    pub fn save_with_mock(&self, mock: &mut MockKeyring) -> (r: Result<(), SyncError>)
        ensures
            old(mock).obeys_model() ==> final(mock).obeys_model(),
            old(mock).obeys_model() ==> r is Ok && final(mock).model() == spec_save(
                old(mock).model(),
                self.jwt@,
                self.user_id@,
                email_view(self.email),
            ),
    {
        self.save_with_store(mock)
    }

    /// Deletes from an in-memory store.
    pub fn delete_with_mock(mock: &mut MockKeyring) -> (r: Result<(), SyncError>)
        ensures
            old(mock).obeys_model() ==> final(mock).obeys_model(),
            old(mock).obeys_model() ==> r is Ok && final(mock).model() == spec_delete(
                old(mock).model(),
            ),
    {
        Self::delete_with_store(mock)
    }

    /// Re-derives the token view from the raw string.
    pub fn jwt_token(&self) -> (r: Result<JwtToken, SyncError>)
        ensures
            match spec_token_result(self.jwt@) {
                SpecTokenOutcome::Valid(c) => r matches Ok(t) && t.token@ == self.jwt@
                    && t.claims@ == c,
                _ => r is Err,
            },
    {
        JwtToken::from_string(self.jwt.clone())
    }
}

/// The three session keys are pairwise distinct.
pub proof fn lemma_keys_distinct()
    ensures
        k_jwt() != k_uid(),
        k_jwt() != k_email(),
        k_uid() != k_email(),
{
    reveal_strlit("jwt_token");
    reveal_strlit("user_id");
    reveal_strlit("user_email");
    assert("jwt_token"@.len() == 9);
    assert("user_id"@.len() == 7);
    assert("user_email"@.len() == 10);
}

/// Round trip: saving a session whose token parses and is unexpired at
/// `now`, then loading from the same store, yields exactly the saved token,
/// user id and email, and leaves the store as the save left it. When the
/// session carries no email, the store must not hold a stale email entry
/// from before; the saved keys themselves may overwrite freely.
pub proof fn lemma_save_load_round_trip(
    m: Map<(Seq<char>, Seq<char>), Seq<char>>,
    jwt: Seq<char>,
    uid: Seq<char>,
    email: Option<Seq<char>>,
    now: int,
)
    requires
        spec_token_result(jwt) matches SpecTokenOutcome::Valid(c) && c.exp > now,
        email is None ==> !m.contains_key(k_email()),
    ensures
        spec_load_result(spec_save(m, jwt, uid, email), now) == Some((jwt, uid, email)),
        spec_load_model(spec_save(m, jwt, uid, email), now) == spec_save(m, jwt, uid, email),
{
    lemma_keys_distinct();
    let m1 = spec_save(m, jwt, uid, email);
    assert(m1.contains_key(k_jwt()) && m1[k_jwt()] == jwt);
    assert(m1.contains_key(k_uid()) && m1[k_uid()] == uid);
    match email {
        Some(e) => {
            assert(m1.contains_key(k_email()) && m1[k_email()] == e);
        },
        None => {
            assert(!m1.contains_key(k_email()));
        },
    }
}

/// Deleting is idempotent: deleting an already-deleted store changes
/// nothing, and loading after a delete reports the session absent without
/// touching the store.
pub proof fn lemma_delete_idempotent(m: Map<(Seq<char>, Seq<char>), Seq<char>>, now: int)
    ensures
        spec_delete(spec_delete(m)) == spec_delete(m),
        spec_load_result(spec_delete(m), now) is None,
        spec_load_model(spec_delete(m), now) == spec_delete(m),
{
    assert(spec_delete(spec_delete(m)) =~= spec_delete(m));
    assert(!spec_delete(m).contains_key(k_jwt()));
}

/// Expired sessions are evicted and stay evicted: saving a session whose
/// token is already expired at `now`, then loading, reports absent and
/// removes the session keys; a second load still reports absent and no
/// session resurfaces.
pub proof fn lemma_expired_session_evicted(
    m: Map<(Seq<char>, Seq<char>), Seq<char>>,
    jwt: Seq<char>,
    uid: Seq<char>,
    email: Option<Seq<char>>,
    now: int,
)
    requires
        spec_token_result(jwt) matches SpecTokenOutcome::Valid(c) && c.exp <= now,
    ensures
        spec_load_result(spec_save(m, jwt, uid, email), now) is None,
        spec_load_model(spec_save(m, jwt, uid, email), now) == spec_delete(
            spec_save(m, jwt, uid, email),
        ),
        spec_load_result(spec_load_model(spec_save(m, jwt, uid, email), now), now) is None,
        spec_load_model(spec_load_model(spec_save(m, jwt, uid, email), now), now)
            == spec_load_model(spec_save(m, jwt, uid, email), now),
{
    lemma_keys_distinct();
    let m1 = spec_save(m, jwt, uid, email);
    assert(m1.contains_key(k_jwt()) && m1[k_jwt()] == jwt);
    assert(!spec_stored_live(m1, now));
    let m2 = spec_load_model(m1, now);
    assert(!m2.contains_key(k_jwt()));
}

} // verus!
