use base64::engine::general_purpose;
use base64::Engine as _;
use cook_sync::token::{JwtToken, UserId};

/// Helper to create a JWT with specific claims.
fn create_jwt_with_claims(claims: &str) -> String {
    let header = general_purpose::STANDARD_NO_PAD.encode(r#"{"alg":"HS256","typ":"JWT"}"#);
    let payload = general_purpose::STANDARD_NO_PAD.encode(claims);
    format!("{header}.{payload}.test_signature")
}

fn now_ts() -> i64 {
    chrono::Utc::now().timestamp()
}

#[test]
fn test_jwt_from_string_valid() {
    let now = now_ts();
    let claims = format!(
        r#"{{"uid":"test_user","email":"test@example.com","exp":{},"iat":{}}}"#,
        now + 3600,
        now
    );

    let jwt_string = create_jwt_with_claims(&claims);
    let jwt = JwtToken::from_string(jwt_string.clone());

    assert!(jwt.is_ok(), "Should parse valid JWT");
    let jwt = jwt.unwrap();
    assert_eq!(jwt.token, jwt_string);
    assert_eq!(jwt.user_id(), "test_user");
    assert_eq!(jwt.claims.email, Some("test@example.com".to_string()));
}

#[test]
fn test_jwt_from_string_invalid_format() {
    // Test with wrong number of parts
    let invalid_jwts = vec!["invalid", "only.two", "too.many.parts.here", ""];

    for invalid in invalid_jwts {
        let result = JwtToken::from_string(invalid.to_string());
        assert!(
            result.is_err(),
            "Should fail for invalid JWT format: {invalid}"
        );
    }
}

#[test]
fn test_jwt_from_string_invalid_base64() {
    let invalid_jwt = "header.!!!invalid_base64!!!.signature";
    let result = JwtToken::from_string(invalid_jwt.to_string());
    assert!(result.is_err(), "Should fail for invalid base64 in payload");
}

#[test]
fn test_jwt_from_string_invalid_json() {
    let header = general_purpose::STANDARD_NO_PAD.encode(r#"{"alg":"HS256","typ":"JWT"}"#);
    let payload = general_purpose::STANDARD_NO_PAD.encode("not valid json");
    let jwt_string = format!("{header}.{payload}.signature");

    let result = JwtToken::from_string(jwt_string);
    assert!(result.is_err(), "Should fail for invalid JSON in payload");
}

#[test]
fn test_jwt_with_integer_user_id() {
    let now = now_ts();
    let claims = format!(r#"{{"uid":12345,"exp":{},"iat":{}}}"#, now + 3600, now);

    let jwt_string = create_jwt_with_claims(&claims);
    let jwt = JwtToken::from_string(jwt_string).unwrap();

    assert_eq!(jwt.user_id(), "12345");
}

#[test]
fn test_jwt_with_string_user_id() {
    let now = now_ts();
    let claims = format!(r#"{{"uid":"string_user_id","exp":{},"iat":{}}}"#, now + 3600, now);

    let jwt_string = create_jwt_with_claims(&claims);
    let jwt = JwtToken::from_string(jwt_string).unwrap();

    assert_eq!(jwt.user_id(), "string_user_id");
}

#[test]
fn test_jwt_is_expired() {
    let now = now_ts();

    // Test expired token
    let expired_claims = format!(r#"{{"uid":"user","exp":{},"iat":{}}}"#, now - 3600, now - 7200);
    let expired_jwt = create_jwt_with_claims(&expired_claims);
    let jwt = JwtToken::from_string(expired_jwt).unwrap();
    assert!(jwt.is_expired(now), "Token should be expired");

    // Test valid token
    let valid_claims = format!(r#"{{"uid":"user","exp":{},"iat":{}}}"#, now + 3600, now);
    let valid_jwt = create_jwt_with_claims(&valid_claims);
    let jwt = JwtToken::from_string(valid_jwt).unwrap();
    assert!(!jwt.is_expired(now), "Token should not be expired");
}

#[test]
fn test_jwt_expires_in() {
    let now = now_ts();

    // Token that expires in 2 hours
    let claims = format!(r#"{{"uid":"user","exp":{},"iat":{}}}"#, now + 7200, now);
    let jwt_string = create_jwt_with_claims(&claims);
    let jwt = JwtToken::from_string(jwt_string).unwrap();

    let expires_in = jwt.expires_in(now);
    // Should be approximately 2 hours (allowing for small time differences during test execution)
    assert!(expires_in > 7190 && expires_in <= 7200);
}

#[test]
fn test_jwt_should_refresh() {
    let now = now_ts();

    // Token expiring in 30 minutes - should refresh
    let soon_expiring = format!(r#"{{"uid":"user","exp":{},"iat":{}}}"#, now + 1800, now);
    let jwt = JwtToken::from_string(create_jwt_with_claims(&soon_expiring)).unwrap();
    assert!(
        jwt.should_refresh(now),
        "Token expiring in 30 minutes should be refreshed"
    );

    // Token expiring in 2 hours - should not refresh yet
    let later_expiring = format!(r#"{{"uid":"user","exp":{},"iat":{}}}"#, now + 7200, now);
    let jwt = JwtToken::from_string(create_jwt_with_claims(&later_expiring)).unwrap();
    assert!(
        !jwt.should_refresh(now),
        "Token expiring in 2 hours should not be refreshed yet"
    );
}

#[test]
fn test_jwt_without_email() {
    let now = now_ts();
    let claims = format!(r#"{{"uid":"user_without_email","exp":{},"iat":{}}}"#, now + 3600, now);

    let jwt_string = create_jwt_with_claims(&claims);
    let jwt = JwtToken::from_string(jwt_string).unwrap();

    assert_eq!(jwt.user_id(), "user_without_email");
    assert_eq!(jwt.claims.email, None);
}

#[test]
fn test_jwt_without_iat() {
    let now = now_ts();
    let claims = format!(r#"{{"uid":"user","exp":{}}}"#, now + 3600);

    let jwt_string = create_jwt_with_claims(&claims);
    let jwt = JwtToken::from_string(jwt_string).unwrap();

    assert_eq!(jwt.claims.iat, 0);
}

#[test]
fn test_user_id_as_string() {
    // Test integer user ID
    let int_id = UserId::Integer(42);
    assert_eq!(int_id.as_string(), "42");

    // Test string user ID
    let str_id = UserId::Text("user_123".to_string());
    assert_eq!(str_id.as_string(), "user_123");
}

#[test]
fn test_jwt_refresh_boundary_exact() {
    let now = now_ts();

    // Exactly one hour left: not yet due for refresh.
    let claims = format!(r#"{{"uid":"user","exp":{}}}"#, now + 3600);
    let jwt = JwtToken::from_string(create_jwt_with_claims(&claims)).unwrap();
    assert!(!jwt.should_refresh(now));

    // One second under an hour: due.
    let claims = format!(r#"{{"uid":"user","exp":{}}}"#, now + 3599);
    let jwt = JwtToken::from_string(create_jwt_with_claims(&claims)).unwrap();
    assert!(jwt.should_refresh(now));

    // Expired tokens are always due.
    let claims = format!(r#"{{"uid":"user","exp":{}}}"#, now - 1);
    let jwt = JwtToken::from_string(create_jwt_with_claims(&claims)).unwrap();
    assert!(jwt.should_refresh(now));
    assert!(jwt.is_expired(now));
}

#[test]
fn test_jwt_expiry_boundary_exact() {
    let now = now_ts();

    // exp == now counts as expired.
    let claims = format!(r#"{{"uid":"user","exp":{}}}"#, now);
    let jwt = JwtToken::from_string(create_jwt_with_claims(&claims)).unwrap();
    assert!(jwt.is_expired(now));

    // exp == now + 1 does not.
    let claims = format!(r#"{{"uid":"user","exp":{}}}"#, now + 1);
    let jwt = JwtToken::from_string(create_jwt_with_claims(&claims)).unwrap();
    assert!(!jwt.is_expired(now));
}

#[test]
fn test_jwt_unicode_email_claim() {
    // A multi-byte character survives base64, UTF-8 decoding and JSON string
    // parsing, and an escaped character is decoded from its escape.
    let now = now_ts();
    let claims = format!(r#"{{"uid":"u","exp":{},"email":"café@example.com"}}"#, now + 3600);
    let jwt = JwtToken::from_string(create_jwt_with_claims(&claims)).unwrap();
    assert_eq!(jwt.claims.email, Some("café@example.com".to_string()));

    let claims = format!(
        "{{\"uid\":\"u\",\"exp\":{},\"email\":\"caf\\u00e9@example.com\"}}",
        now + 3600
    );
    let jwt = JwtToken::from_string(create_jwt_with_claims(&claims)).unwrap();
    assert_eq!(jwt.claims.email, Some("café@example.com".to_string()));

    // A surrogate pair decodes to one character.
    let claims = format!("{{\"uid\":\"\\ud83d\\ude00\",\"exp\":{}}}", now + 3600);
    let jwt = JwtToken::from_string(create_jwt_with_claims(&claims)).unwrap();
    assert_eq!(jwt.user_id(), "😀");
}

#[test]
fn test_jwt_unknown_fields_ignored() {
    let now = now_ts();
    let claims = format!(
        r#"{{"uid":"u1","exp":{},"scope":["a",{{"k":1.5e3}}],"flag":true,"note":null}}"#,
        now + 3600
    );
    let jwt = JwtToken::from_string(create_jwt_with_claims(&claims)).unwrap();
    assert_eq!(jwt.user_id(), "u1");
}

#[test]
fn test_jwt_duplicate_known_field_rejected() {
    let now = now_ts();
    let claims = format!(r#"{{"uid":"u1","exp":{},"exp":{}}}"#, now + 3600, now + 7200);
    assert!(JwtToken::from_string(create_jwt_with_claims(&claims)).is_err());
}

#[test]
fn test_jwt_null_email_is_absent() {
    let now = now_ts();
    let claims = format!(r#"{{"uid":"u1","exp":{},"email":null}}"#, now + 3600);
    let jwt = JwtToken::from_string(create_jwt_with_claims(&claims)).unwrap();
    assert_eq!(jwt.claims.email, None);
}

#[test]
fn test_base64_decode_agrees_with_encoder() {
    // The verified decoder inverts the encoder on every byte value.
    let bytes: Vec<u8> = (0u16..=255).map(|b| b as u8).collect();
    for width in [1usize, 2, 3, 251, 256] {
        let chunk = &bytes[..width.min(bytes.len())];
        let encoded = general_purpose::STANDARD_NO_PAD.encode(chunk);
        let chars: Vec<char> = encoded.chars().collect();
        let decoded = cook_sync::b64::b64_decode(&chars).expect("decode should succeed");
        assert_eq!(decoded, chunk.to_vec());
    }

    // Padding and out-of-alphabet characters are rejected.
    let padded: Vec<char> = "QQ==".chars().collect();
    assert!(cook_sync::b64::b64_decode(&padded).is_none());
    let stray: Vec<char> = "Q!".chars().collect();
    assert!(cook_sync::b64::b64_decode(&stray).is_none());
    // A length of 1 mod 4 can never be a valid encoding.
    let short: Vec<char> = "QQQQQ".chars().collect();
    assert!(cook_sync::b64::b64_decode(&short).is_none());
}

#[test]
fn test_claims_grammar_rejections() {
    let now = now_ts();
    let cases = [
        // a fractional or exponent expiry is not an integer claim
        format!(r#"{{"uid":"u","exp":{}.5}}"#, now),
        format!(r#"{{"uid":"u","exp":1e3}}"#),
        // wrong types for recognized fields
        format!(r#"{{"uid":"u","exp":"{}"}}"#, now + 3600),
        format!(r#"{{"uid":true,"exp":{}}}"#, now + 3600),
        format!(r#"{{"uid":"u","exp":{},"email":5}}"#, now + 3600),
        // required fields missing
        format!(r#"{{"uid":"u"}}"#),
        format!(r#"{{"exp":{}}}"#, now + 3600),
        String::from("{}"),
        // not an object, or trailing content
        String::from("[1,2]"),
        format!(r#"{{"uid":"u","exp":{}}} extra"#, now + 3600),
        // out-of-range expiry
        String::from(r#"{"uid":"u","exp":9223372036854775808}"#),
        // malformed structure
        format!(r#"{{"uid":"u","exp":{},}}"#, now + 3600),
        format!(r#"{{"uid":"u" "exp":{}}}"#, now + 3600),
        // leading zeros are not JSON integers
        String::from(r#"{"uid":"u","exp":0123}"#),
    ];
    for claims in cases {
        let jwt = create_jwt_with_claims(&claims);
        assert!(
            JwtToken::from_string(jwt).is_err(),
            "claims should be rejected: {claims}"
        );
    }
}

#[test]
fn test_claims_grammar_acceptance() {
    let now = now_ts();
    // Whitespace everywhere, a negative iat, and field order do not matter.
    let claims = format!(
        "  {{ \"iat\" : -5 ,\n\t\"exp\" : {} , \"uid\" : 7 }}  ",
        now + 3600
    );
    let jwt = JwtToken::from_string(create_jwt_with_claims(&claims)).unwrap();
    assert_eq!(jwt.user_id(), "7");
    assert_eq!(jwt.claims.iat, -5);

    // A negative integer identity is normalized like any other.
    let claims = format!(r#"{{"uid":-42,"exp":{}}}"#, now + 3600);
    let jwt = JwtToken::from_string(create_jwt_with_claims(&claims)).unwrap();
    assert_eq!(jwt.user_id(), "-42");

    // The full 64-bit range of the expiry is carried through.
    let claims = String::from(r#"{"uid":"u","exp":9223372036854775807}"#);
    let jwt = JwtToken::from_string(create_jwt_with_claims(&claims)).unwrap();
    assert_eq!(jwt.claims.exp, i64::MAX);
    assert!(!jwt.is_expired(now));
}
