//! Bearer tokens: three dot-separated segments whose middle segment is the
//! unpadded-base64 encoding of a claims document. The claims are read without
//! verifying a cryptographic signature; that trust boundary is deliberate,
//! the token is taken as issued by the server over a secured channel.

use crate::b64::spec_b64_decode;
use crate::errors::SyncError;
use crate::json::{spec_parse_claims, RawUid, SpecClaims, SpecUid};
use crate::strutil::{spec_u64_dec, u64_to_string};
use vstd::prelude::*;
use vstd::utf8::{decode_utf8, valid_utf8};

verus! {

/// A user identity claim, an integer or a string as the service issued it.
#[derive(Debug, Clone)]
pub enum UserId {
    Integer(i64),
    Text(String),
}

impl View for UserId {
    type V = SpecUid;

    open spec fn view(&self) -> SpecUid {
        match self {
            UserId::Integer(n) => SpecUid::Num(*n as int),
            UserId::Text(t) => SpecUid::Text(t@),
        }
    }
}

/// The decimal notation of `n`, with a leading minus sign when negative.
pub open spec fn spec_i64_dec(n: int) -> Seq<char> {
    if n < 0 {
        seq!['-'] + spec_u64_dec(-n)
    } else {
        spec_u64_dec(n)
    }
}

/// The identity as a string: an integer claim in decimal notation, a string
/// claim as it stands.
pub open spec fn spec_uid_string(u: SpecUid) -> Seq<char> {
    match u {
        SpecUid::Num(n) => spec_i64_dec(n),
        SpecUid::Text(t) => t,
    }
}

impl UserId {
    /// Normalizes the identity claim to string form.
    pub fn as_string(&self) -> (r: String)
        ensures
            r@ == spec_uid_string(self@),
    {
        match self {
            UserId::Integer(n) => i64_to_string(*n),
            UserId::Text(t) => t.clone(),
        }
    }
}

fn i64_to_string(n: i64) -> (r: String)
    ensures
        r@ == spec_i64_dec(n as int),
{
    if n < 0 {
        let mag: u64 = if n == i64::MIN {
            0x8000_0000_0000_0000u64
        } else {
            (-n) as u64
        };
        let mut s = "-".to_owned();
        let digits = u64_to_string(mag);
        s.append(digits.as_str());
        proof {
            reveal_strlit("-");
            assert(s@ =~= seq!['-'] + spec_u64_dec(mag as int));
        }
        s
    } else {
        u64_to_string(n as u64)
    }
}

/// The claims carried by a bearer token.
#[derive(Debug, Clone)]
pub struct Claims {
    pub uid: UserId,
    pub exp: i64,
    pub iat: i64,
    pub email: Option<String>,
}

impl View for Claims {
    type V = SpecClaims;

    open spec fn view(&self) -> SpecClaims {
        SpecClaims {
            uid: self.uid@,
            exp: self.exp as int,
            iat: self.iat as int,
            email: match self.email {
                Some(ref e) => Some(e@),
                None => None,
            },
        }
    }
}

/// A parsed bearer token: the raw string it came from and its claims.
#[derive(Debug, Clone)]
pub struct JwtToken {
    pub token: String,
    pub claims: Claims,
}

/// Index of the first `c` at or after `i`, or the length when there is none.
pub open spec fn spec_find_char(s: Seq<char>, c: char, i: int) -> int
    decreases s.len() - i,
{
    if 0 <= i && i < s.len() {
        if s[i] == c {
            i
        } else {
            spec_find_char(s, c, i + 1)
        }
    } else {
        i
    }
}

pub proof fn lemma_find_char_bounds(s: Seq<char>, c: char, i: int)
    requires
        0 <= i <= s.len(),
    ensures
        i <= spec_find_char(s, c, i) <= s.len(),
    decreases s.len() - i,
{
    if i < s.len() && s[i] != c {
        lemma_find_char_bounds(s, c, i + 1);
    }
}

pub(crate) fn find_char(v: &Vec<char>, c: char, i: usize) -> (r: usize)
    requires
        i <= v@.len(),
    ensures
        r == spec_find_char(v@, c, i as int),
        i <= r <= v@.len(),
    decreases v@.len() - i,
{
    if i < v.len() {
        if v[i] == c {
            i
        } else {
            find_char(v, c, i + 1)
        }
    } else {
        i
    }
}

/// The middle segment of a three-segment token, `None` when the dot count is
/// not exactly two.
pub open spec fn spec_middle_segment(s: Seq<char>) -> Option<Seq<char>> {
    let d1 = spec_find_char(s, '.', 0);
    if d1 >= s.len() {
        None
    } else {
        let d2 = spec_find_char(s, '.', d1 + 1);
        if d2 >= s.len() {
            None
        } else {
            let d3 = spec_find_char(s, '.', d2 + 1);
            if d3 < s.len() {
                None
            } else {
                Some(s.subrange(d1 + 1, d2))
            }
        }
    }
}

/// How parsing a raw token string ends.
pub enum SpecTokenOutcome {
    /// Not exactly three dot-separated segments.
    BadFormat,
    /// The middle segment is no unpadded-base64 encoding.
    BadBase64,
    /// The decoded middle segment is no claims document.
    BadClaims,
    /// The claims the token carries.
    Valid(SpecClaims),
}

/// The outcome of parsing `s` as a bearer token.
pub open spec fn spec_token_result(s: Seq<char>) -> SpecTokenOutcome {
    match spec_middle_segment(s) {
        None => SpecTokenOutcome::BadFormat,
        Some(mid) => match spec_b64_decode(mid) {
            None => SpecTokenOutcome::BadBase64,
            Some(bytes) => if !valid_utf8(bytes) {
                SpecTokenOutcome::BadClaims
            } else {
                match spec_parse_claims(decode_utf8(bytes)) {
                    None => SpecTokenOutcome::BadClaims,
                    Some(c) => SpecTokenOutcome::Valid(c),
                }
            },
        },
    }
}

impl JwtToken {
    /// Parses a raw bearer token: exactly three dot-separated segments, the
    /// middle one base64 (standard alphabet, unpadded) over a claims
    /// document. The claims are read without signature verification.
    pub fn from_string(token: String) -> (r: Result<JwtToken, SyncError>)
        ensures
            match spec_token_result(token@) {
                SpecTokenOutcome::Valid(c) => r matches Ok(t) && t.token@ == token@ && t.claims@
                    == c,
                SpecTokenOutcome::BadFormat => r matches Err(e) && e is Jwt,
                SpecTokenOutcome::BadBase64 => r matches Err(e) && (e matches
                    SyncError::Other(m) && m@ == "Failed to decode JWT"@),
                SpecTokenOutcome::BadClaims => r matches Err(e) && e is Serialization,
            },
    {
        let chars = crate::strutil::str_to_chars(token.as_str());
        let d1 = find_char(&chars, '.', 0);
        if d1 >= chars.len() {
            return Err(SyncError::Jwt("invalid token".to_owned()));
        }
        let d2 = find_char(&chars, '.', d1 + 1);
        if d2 >= chars.len() {
            return Err(SyncError::Jwt("invalid token".to_owned()));
        }
        let d3 = find_char(&chars, '.', d2 + 1);
        if d3 < chars.len() {
            return Err(SyncError::Jwt("invalid token".to_owned()));
        }
        let mut mid: Vec<char> = Vec::new();
        let mut i = d1 + 1;
        while i < d2
            invariant
                d1 + 1 <= i <= d2 <= chars@.len(),
                mid@ == chars@.subrange(d1 + 1, i as int),
            decreases d2 - i,
        {
            mid.push(chars[i]);
            proof {
                assert(mid@ =~= chars@.subrange(d1 + 1, i + 1));
            }
            i = i + 1;
        }
        proof {
            assert(mid@ =~= chars@.subrange(d1 + 1, d2 as int));
        }
        let bytes = match crate::b64::b64_decode(&mid) {
            Some(b) => b,
            None => {
                return Err(SyncError::Other("Failed to decode JWT".to_owned()));
            },
        };
        let text = match crate::strutil::from_utf8_string(bytes) {
            Some(t) => t,
            None => {
                return Err(SyncError::Serialization("claims are not UTF-8".to_owned()));
            },
        };
        let doc = crate::strutil::str_to_chars(text.as_str());
        let raw = match crate::json::parse_claims(&doc) {
            Some(c) => c,
            None => {
                return Err(SyncError::Serialization("malformed claims document".to_owned()));
            },
        };
        let uid = match raw.uid {
            RawUid::Num(n) => UserId::Integer(n),
            RawUid::Text(t) => UserId::Text(crate::strutil::chars_to_string(&t)),
        };
        let email = match raw.email {
            Some(e) => Some(crate::strutil::chars_to_string(&e)),
            None => None,
        };
        Ok(JwtToken { token, claims: Claims { uid, exp: raw.exp, iat: raw.iat, email } })
    }

    /// Expired means the expiry instant is at or before `now`.
    pub open spec fn spec_is_expired(c: SpecClaims, now: int) -> bool {
        c.exp <= now
    }

    /// Whether the token is expired at `now` (epoch seconds).
    pub fn is_expired(&self, now: i64) -> (r: bool)
        ensures
            r == Self::spec_is_expired(self.claims@, now as int),
    {
        self.claims.exp <= now
    }

    /// `x` clamped into the `i64` range.
    pub open spec fn sat_i64(x: int) -> int {
        if x > i64::MAX {
            i64::MAX as int
        } else if x < i64::MIN {
            i64::MIN as int
        } else {
            x
        }
    }

    /// Seconds until expiry at `now`, negative once expired, clamped into the
    /// `i64` range.
    pub fn expires_in(&self, now: i64) -> (r: i64)
        ensures
            r == Self::sat_i64(self.claims@.exp - now),
    {
        match self.claims.exp.checked_sub(now) {
            Some(d) => d,
            None => {
                if now < 0 {
                    i64::MAX
                } else {
                    i64::MIN
                }
            },
        }
    }

    /// A refresh is due when less than one hour remains until expiry.
    pub open spec fn spec_should_refresh(c: SpecClaims, now: int) -> bool {
        c.exp - now < 3600
    }

    /// Whether less than one hour remains until expiry at `now`.
    pub fn should_refresh(&self, now: i64) -> (r: bool)
        ensures
            r == Self::spec_should_refresh(self.claims@, now as int),
    {
        self.expires_in(now) < 3600
    }

    /// The identity claim in string form.
    pub fn user_id(&self) -> (r: String)
        ensures
            r@ == spec_uid_string(self.claims@.uid),
    {
        self.claims.uid.as_string()
    }
}

/// A well-formed token parses, and expiry is decided by `exp` against the
/// clock: with a future `exp` the parsed token is not expired, and with
/// `exp <= now` it is. That parsing succeeds on every well-formed token is
/// the `Valid` arm of `from_string`'s contract; this states the expiry half
/// over the same claims.
pub proof fn lemma_wellformed_token_expiry(s: Seq<char>, now: int)
    ensures
        (spec_token_result(s) matches SpecTokenOutcome::Valid(c) && c.exp > now)
            ==> !JwtToken::spec_is_expired(token_claims(s), now),
        (spec_token_result(s) matches SpecTokenOutcome::Valid(c) && c.exp <= now)
            ==> JwtToken::spec_is_expired(token_claims(s), now),
{
}

/// The claims of a token whose parse succeeds.
pub open spec fn token_claims(s: Seq<char>) -> SpecClaims
    recommends
        spec_token_result(s) is Valid,
{
    match spec_token_result(s) {
        SpecTokenOutcome::Valid(c) => c,
        _ => arbitrary(),
    }
}

/// The refresh boundary is exact: a refresh is due precisely when
/// `exp - now` is under one hour.
pub proof fn lemma_refresh_boundary(c: SpecClaims, now: int)
    ensures
        JwtToken::spec_should_refresh(c, now) <==> c.exp - now < 3600,
        c.exp - now >= 3600 ==> !JwtToken::spec_should_refresh(c, now),
{
}

} // verus!
