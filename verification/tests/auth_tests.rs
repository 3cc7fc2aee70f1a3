use fleqtra::claims::{claims_from_json, claims_to_json, Claims};
use fleqtra::extractor::{authenticate, authenticate_at, bearer_token, header_str};
use fleqtra::jwt::{claims_from_payload, create_jwt, create_jwt_at, validate_jwt, validate_jwt_at, TOKEN_LIFETIME_SECS};
use fleqtra::password::{hash_password, verify_password};

#[test]
fn test_create_and_validate_jwt() {
    let jwt_result = create_jwt(1, "mymail@g.com".to_string(), "username".to_string());
    assert!(jwt_result.is_ok(), "Failed to create jwt {:?}", jwt_result.as_ref().err().map(|e| e.message.clone()));
    let jwt = jwt_result.ok().unwrap();
    let validation_result = validate_jwt(&jwt);
    assert!(validation_result.is_ok(), "Failed to validate JWT, {:?}", validation_result.as_ref().err().map(|e| e.message.clone()));
    let claims = validation_result.ok().unwrap();
    assert!(claims.email == "mymail@g.com", "Email not equal");
    assert!(claims.username == "username", "Username not equal");
    assert!(claims.id == 1, "Identifier not equal");
    assert!(claims.exp - claims.iat > 0, "JWT expired");
}

#[test]
fn test_create_and_validate_jwt_invalid() {
    let jwt_result = create_jwt(1, "mymail@g.com".to_string(), "username".to_string());
    assert!(jwt_result.is_ok(), "Failed to create jwt {:?}", jwt_result.as_ref().err().map(|e| e.message.clone()));
    let jwt = jwt_result.ok().unwrap();
    let mut jwt_chars: Vec<char> = jwt.chars().collect();
    jwt_chars[0] = 'a';
    let invalid_jwt: String = jwt_chars.into_iter().collect::<String>();
    assert!(validate_jwt(&invalid_jwt).is_err(), "Validation was successfull, but was expected to fail");
}

fn sample_claims() -> Claims {
    Claims {
        id: -5,
        exp: 10,
        iat: 3,
        email: "a\"b\\c".to_string(),
        username: "x\ny\u{1}\tz é".to_string(),
    }
}

#[test]
fn claims_json_text_is_exact() {
    let json = claims_to_json(&sample_claims());
    assert_eq!(
        json,
        "{\"id\":-5,\"exp\":10,\"iat\":3,\"email\":\"a\\\"b\\\\c\",\"username\":\"x\\ny\\u0001\\tz é\"}"
    );
}

#[test]
fn claims_json_round_trip() {
    let json = claims_to_json(&sample_claims());
    let back = claims_from_json(&json).expect("claims text should be read back");
    assert_eq!(back.id, -5);
    assert_eq!(back.exp, 10);
    assert_eq!(back.iat, 3);
    assert_eq!(back.email, "a\"b\\c");
    assert_eq!(back.username, "x\ny\u{1}\tz é");
}

#[test]
fn claims_json_extremes_round_trip() {
    let c = Claims { id: i32::MIN, exp: usize::MAX, iat: 0, email: String::new(), username: String::new() };
    let json = claims_to_json(&c);
    assert_eq!(json, format!("{{\"id\":-2147483648,\"exp\":{},\"iat\":0,\"email\":\"\",\"username\":\"\"}}", usize::MAX));
    let back = claims_from_json(&json).unwrap();
    assert_eq!(back.id, i32::MIN);
    assert_eq!(back.exp, usize::MAX);
}

#[test]
fn claims_json_reads_any_object_layout() {
    let spaced = claims_from_json(" { \"username\" : \"b\", \"id\" : 1,\n \"exp\":2, \"iat\":3, \"email\":\"\\u0041\" } ")
        .expect("spacing, order and escapes are free");
    assert_eq!(spaced.id, 1);
    assert_eq!(spaced.exp, 2);
    assert_eq!(spaced.iat, 3);
    assert_eq!(spaced.email, "A");
    assert_eq!(spaced.username, "b");
    let extra = claims_from_json("{\"id\":1,\"exp\":2,\"iat\":3,\"email\":\"a\",\"username\":\"b\",\"role\":[1,2]}")
        .expect("other members are ignored");
    assert_eq!(extra.email, "a");
}

#[test]
fn claims_json_reads_the_array_form() {
    let c = claims_from_json("[4, 5, 6, \"e\", \"u\"]").expect("an array of the fields is claims");
    assert_eq!((c.id, c.exp, c.iat, c.email.as_str(), c.username.as_str()), (4, 5, 6, "e", "u"));
}

#[test]
fn claims_json_refuses_what_is_not_claims() {
    assert!(claims_from_json("{\"id\":01,\"exp\":2,\"iat\":3,\"email\":\"a\",\"username\":\"b\"}").is_none());
    assert!(claims_from_json("{\"id\":2147483648,\"exp\":2,\"iat\":3,\"email\":\"a\",\"username\":\"b\"}").is_none());
    assert!(claims_from_json("{\"id\":1,\"exp\":-2,\"iat\":3,\"email\":\"a\",\"username\":\"b\"}").is_none());
    assert!(claims_from_json("{\"id\":1,\"exp\":2,\"iat\":3,\"email\":7,\"username\":\"b\"}").is_none());
    assert!(claims_from_json("{\"id\":1,\"exp\":2,\"iat\":3,\"email\":\"a\"}").is_none());
    assert!(claims_from_json("[1,2,3,\"a\"]").is_none());
    assert!(claims_from_json("[1,2,3,\"a\",\"b\",6]").is_none());
    assert!(claims_from_json("").is_none());
    assert!(claims_from_json("{\"id\":1,\"exp\":2,\"iat\":3,\"email\":\"a\",\"username\":\"b\"}").is_some());
}

#[test]
fn claims_from_payload_error_message() {
    let err = claims_from_payload("{}").err().unwrap();
    assert!(err.message.starts_with("JWT error: JSON error: "));
}

fn signed(payload: &str) -> String {
    let raw = serde_json::value::RawValue::from_string(payload.to_string()).unwrap();
    jsonwebtoken::encode(
        &jsonwebtoken::Header::default(),
        &raw,
        &jsonwebtoken::EncodingKey::from_secret(b"1234567890"),
    )
    .unwrap()
}

#[test]
fn signed_payload_without_claims_is_a_json_error() {
    let now = 1_700_000_000u64;
    let no_exp = signed("{\"id\":1,\"iat\":2,\"email\":\"a\",\"username\":\"b\"}");
    let err = validate_jwt_at(&no_exp, now).err().unwrap();
    assert!(err.message.starts_with("JWT error: JSON error: "), "{}", err.message);
    let no_id = signed("{\"exp\":1800000000,\"iat\":2,\"email\":\"a\",\"username\":\"b\"}");
    let err = validate_jwt_at(&no_id, now).err().unwrap();
    assert!(err.message.starts_with("JWT error: JSON error: "), "{}", err.message);
}

#[test]
fn audience_is_checked_after_expiry() {
    let now = 1_700_000_000u64;
    let with_aud = signed("{\"id\":1,\"exp\":1800000000,\"iat\":2,\"email\":\"a\",\"username\":\"b\",\"aud\":\"x\"}");
    assert_eq!(validate_jwt_at(&with_aud, now).err().unwrap().message, "JWT error: InvalidAudience");
    let expired_aud = signed("{\"id\":1,\"exp\":1000,\"iat\":2,\"email\":\"a\",\"username\":\"b\",\"aud\":\"x\"}");
    assert_eq!(validate_jwt_at(&expired_aud, now).err().unwrap().message, "JWT error: ExpiredSignature");
    let plain = signed("{\"email\":\"a\",\"username\":\"b\",\"iat\":2,\"exp\":1800000000,\"id\":1,\"role\":\"r\"}");
    let c = validate_jwt_at(&plain, now).ok().unwrap();
    assert_eq!((c.id, c.exp), (1, 1800000000));
}

#[test]
fn issued_token_is_deterministic_and_carries_lifetime() {
    let now = 1_700_000_000u64;
    let a = create_jwt_at(7, "e@x.org".to_string(), "eve".to_string(), now).ok().unwrap();
    let b = create_jwt_at(7, "e@x.org".to_string(), "eve".to_string(), now).ok().unwrap();
    assert_eq!(a, b);
    assert_eq!(a.matches('.').count(), 2);
    assert!(a.starts_with("eyJ"));
    assert_eq!(TOKEN_LIFETIME_SECS, 86400);
}

#[test]
fn expired_token_is_refused() {
    let token = create_jwt_at(7, "e@x.org".to_string(), "eve".to_string(), 1000).ok().unwrap();
    let err = validate_jwt(&token).err().expect("an expired token must be refused");
    assert_eq!(err.message, "JWT error: ExpiredSignature");
}

#[test]
fn token_round_trip_at_a_time() {
    let now = 1_700_000_000u64;
    let token = create_jwt_at(9, "a@b.c".to_string(), "al".to_string(), now).ok().unwrap();
    let claims = validate_jwt_at(&token, now).ok().expect("a fresh token is accepted");
    assert_eq!(claims.id, 9);
    assert_eq!(claims.iat, now as usize);
    assert_eq!(claims.exp, (now + TOKEN_LIFETIME_SECS) as usize);
    assert_eq!(claims.email, "a@b.c");
    assert_eq!(claims.username, "al");
    let last = now + TOKEN_LIFETIME_SECS + 60;
    assert!(validate_jwt_at(&token, last).is_ok(), "the leeway still accepts it");
    let err = validate_jwt_at(&token, last + 1).err().unwrap();
    assert_eq!(err.message, "JWT error: ExpiredSignature");
}

#[test]
fn token_with_other_key_is_refused() {
    let now = 1_700_000_000u64;
    let token = create_jwt_at(9, "a@b.c".to_string(), "al".to_string(), now).ok().unwrap();
    let mut parts: Vec<&str> = token.split('.').collect();
    parts[2] = "c2lnbmF0dXJl";
    let forged = parts.join(".");
    let err = validate_jwt_at(&forged, now).err().unwrap();
    assert!(err.message.starts_with("JWT error: "));
    assert!(validate_jwt_at("a.b", now).is_err());
}

#[test]
fn create_jwt_at_out_of_range_clock() {
    let err = create_jwt_at(1, "a".to_string(), "b".to_string(), u64::MAX).err().unwrap();
    assert_eq!(err.message, "JWT error: the system clock is out of range");
}

#[test]
fn authenticate_at_a_time() {
    let now = 1_700_000_000u64;
    let token = create_jwt_at(5, "x@y.z".to_string(), "xy".to_string(), now).ok().unwrap();
    let header = format!("Bearer {}", token);
    let user = authenticate_at(Some(header.as_bytes()), now).ok().unwrap();
    assert_eq!(user.0.id, 5);
    assert_eq!(user.0.email, "x@y.z");
    let late = now + TOKEN_LIFETIME_SECS + 61;
    assert_eq!(
        authenticate_at(Some(header.as_bytes()), late).err().unwrap().message,
        "Invalid or expired JWT token"
    );
    assert_eq!(
        authenticate_at(Some(b"Token abc"), now).err().unwrap().message,
        "Authorization header must start with 'Bearer '"
    );
}

#[test]
fn header_text_requires_visible_ascii() {
    assert_eq!(header_str(b"Bearer abc\t").unwrap(), "Bearer abc\t");
    assert!(header_str(&[b'a', 0x7f]).is_none());
    assert!(header_str(&[b'a', 0xc3, 0xa9]).is_none());
}

#[test]
fn bearer_token_cases() {
    assert_eq!(bearer_token(None).err().unwrap().message, "Missing Authorization header");
    assert_eq!(
        bearer_token(Some(&[b'B', 10])).err().unwrap().message,
        "Invalid Authorization header format"
    );
    assert_eq!(
        bearer_token(Some(b"Basic abc")).err().unwrap().message,
        "Authorization header must start with 'Bearer '"
    );
    assert_eq!(
        bearer_token(Some(b"Bearer")).err().unwrap().message,
        "Authorization header must start with 'Bearer '"
    );
    assert_eq!(bearer_token(Some(b"Bearer abc.def")).ok().unwrap(), "abc.def");
    assert_eq!(bearer_token(Some(b"Bearer ")).ok().unwrap(), "");
}

#[test]
fn authenticate_with_issued_token() {
    let token = create_jwt(42, "me@x.org".to_string(), "me".to_string()).ok().unwrap();
    let header = format!("Bearer {}", token);
    let user = authenticate(Some(header.as_bytes())).ok().expect("token should authenticate");
    assert_eq!(user.0.id, 42);
    assert_eq!(user.0.username, "me");
    assert_eq!(user.0.email, "me@x.org");
    let bad = authenticate(Some(b"Bearer not-a-token")).err().unwrap();
    assert_eq!(bad.message, "Invalid or expired JWT token");
    assert_eq!(authenticate(None).err().unwrap().message, "Missing Authorization header");
}

#[test]
fn password_hash_verifies() {
    let hash = hash_password("password123").ok().expect("hashing should work");
    assert_ne!(hash, "password123");
    assert!(hash.starts_with("$argon2id$v=19$"));
    assert_eq!(verify_password("password123", &hash).ok(), Some(true));
    assert_eq!(verify_password("password124", &hash).ok(), Some(false));
    let other = hash_password("password123").ok().unwrap();
    assert_ne!(hash, other, "two hashes of one password use different salts");
}

#[test]
fn password_verify_refuses_non_phc_text() {
    assert!(verify_password("password123", "not a hash").is_err());
    assert!(verify_password("password123", "").is_err());
    assert!(verify_password("password123", "abc").is_err());
    assert!(verify_password("password123", "$argon2id$").is_err());
}
