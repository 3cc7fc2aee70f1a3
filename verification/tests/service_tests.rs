use fleqtra::claims::{claims_to_json, Claims};
use fleqtra::handlers::{user_insert_reply, user_missing_reply, username_check_reply};
use fleqtra::endpoint::EndpointError;
use fleqtra::object::{first_cleanup_dir, next_cleanup_dir, object_from_row, object_id_text, object_not_found, Object, ObjectServiceError};
use fleqtra::routes::{
    login_outcome, logout_message, refresh_token, registration_hash, registration_reply, user_lookup_reply,
    user_selector, GetUserRequest, GetUserSelector,
};
use fleqtra::storage::StorageService;
use fleqtra::upload::{parse_i32, sanitize_filename, upload_location, uploaded_message, user_id_header, UserIdHeader};
use fleqtra::user::User;
use fleqtra::users::{deletion_result, lookup_result, password_result, UserDatabaseError, UserKey};

fn smiley() -> User {
    User { id: 3, email: "smiley@e.com".to_string(), username: "Smiley".to_string(), containers: vec!["c1".to_string()] }
}

#[test]
fn sanitize_keeps_only_safe_characters() {
    assert_eq!(sanitize_filename("../etc/pass wd!.txt"), "..etcpasswd.txt");
    assert_eq!(sanitize_filename("a_b-C.9"), "a_b-C.9");
    assert_eq!(sanitize_filename("é€/\\"), "");
    let once = sanitize_filename("x y/z");
    assert_eq!(sanitize_filename(&once), once);
}

#[test]
fn parse_i32_follows_str_parse() {
    for s in ["0", "12", "-12", "+7", "007", "2147483647", "-2147483648", "2147483648", "-2147483649", "", "-", "+", "1a", " 1", "1 ", "--1", "99999999999999999999"] {
        assert_eq!(parse_i32(s), s.parse::<i32>().ok(), "input {:?}", s);
    }
}

#[test]
fn user_id_header_cases() {
    assert!(matches!(user_id_header(None), UserIdHeader::Absent));
    assert!(matches!(user_id_header(Some(&[0x80])), UserIdHeader::Absent));
    assert!(matches!(user_id_header(Some(b"abc")), UserIdHeader::Malformed));
    assert!(matches!(user_id_header(Some(b"-17")), UserIdHeader::Id(-17)));
}

#[test]
fn upload_location_and_message() {
    let (folder, path) = upload_location(12, "my file?.txt");
    assert_eq!(folder, "./uploads/12/");
    assert_eq!(path, "./uploads/12/myfile.txt");
    let (folder, path) = upload_location(-1, "a");
    assert_eq!(folder, "./uploads/-1/");
    assert_eq!(path, "./uploads/-1/a");
    assert_eq!(uploaded_message("my file?.txt"), "Uploaded as my file?.txt");
}

#[test]
fn endpoint_error_constructors() {
    let cases = [
        (EndpointError::bad_request("m"), 400u16),
        (EndpointError::unauthorized("m"), 401),
        (EndpointError::forbidden("m"), 403),
        (EndpointError::not_found("m"), 404),
        (EndpointError::conflict("m"), 409),
        (EndpointError::unprocessable_entity("m"), 422),
        (EndpointError::internal_server_error("m"), 500),
        (EndpointError::custom(418, "m"), 418),
    ];
    for (e, status) in cases {
        assert_eq!(e.status, status);
        assert_eq!(e.message, "m");
        assert!(e.error_code.is_none());
    }
    let e = EndpointError::not_found("gone").with_code("E42");
    assert_eq!(e.status, 404);
    assert_eq!(e.message, "gone");
    assert_eq!(e.error_code.as_deref(), Some("E42"));
    assert_eq!(e.to_string(), "HTTP 404: gone");
}

#[test]
fn endpoint_error_from_user_error() {
    let e = EndpointError::from(UserDatabaseError::NotFound("nobody".to_string()));
    assert_eq!((e.status, e.message.as_str()), (404, "nobody"));
    let e = EndpointError::from(UserDatabaseError::ValidationError("bad".to_string()));
    assert_eq!((e.status, e.message.as_str()), (400, "bad"));
    let e = EndpointError::from(UserDatabaseError::DatabaseError("secret details".to_string()));
    assert_eq!((e.status, e.message.as_str()), (500, "Database error occurred"));
    let e = EndpointError::from(UserDatabaseError::PoolError("x".to_string()));
    assert_eq!((e.status, e.message.as_str()), (500, "An error occured during your request"));
    let e = EndpointError::from(UserDatabaseError::AlreadyExists("x".to_string()));
    assert_eq!((e.status, e.message.as_str()), (500, "An error occured during your request"));
}

#[test]
fn user_database_error_text() {
    assert_eq!(UserDatabaseError::DatabaseError("d".to_string()).to_string(), "Database error: d");
    assert_eq!(UserDatabaseError::PoolError("p".to_string()).to_string(), "Connection pool error: p");
    assert_eq!(UserDatabaseError::ValidationError("v".to_string()).to_string(), "Validation error: v");
    assert_eq!(UserDatabaseError::AlreadyExists("a".to_string()).to_string(), "AlreadyExistsError: a");
    assert_eq!(UserDatabaseError::NotFound("n".to_string()).to_string(), "NotFoundError: n");
}

#[test]
fn lookups_and_deletions() {
    let found = lookup_result(Some(smiley()), &UserKey::Id(3)).ok().unwrap();
    assert_eq!(found.username, "Smiley");
    match lookup_result(None, &UserKey::Id(17)) {
        Err(UserDatabaseError::NotFound(msg)) => {
            assert_eq!(msg, "User with id '17' not found");
            assert!(msg.contains(&17.to_string()));
        }
        _ => panic!("expected NotFound"),
    }
    match lookup_result(None, &UserKey::Username("Smiley".to_string())) {
        Err(UserDatabaseError::NotFound(msg)) => assert_eq!(msg, "User with name 'Smiley' not found"),
        _ => panic!("expected NotFound"),
    }
    match lookup_result(None, &UserKey::Email("s@e.com".to_string())) {
        Err(UserDatabaseError::NotFound(msg)) => assert_eq!(msg, "User with email 's@e.com' not found"),
        _ => panic!("expected NotFound"),
    }
    assert!(deletion_result(1).is_ok());
    for rows in [0u64, 2] {
        match deletion_result(rows) {
            Err(UserDatabaseError::NotFound(msg)) => assert_eq!(msg, "User could not be deleted, not found."),
            _ => panic!("expected NotFound"),
        }
    }
    assert_eq!(password_result(Some("h".to_string()), "u").ok().unwrap(), "h");
    match password_result(None, "u") {
        Err(UserDatabaseError::NotFound(msg)) => assert_eq!(msg, "User with username 'u' not found."),
        _ => panic!("expected NotFound"),
    }
}

fn request(username: Option<&str>, email: Option<&str>, user_id: Option<i32>) -> GetUserRequest {
    GetUserRequest {
        username: username.map(|s| s.to_string()),
        email: email.map(|s| s.to_string()),
        user_id,
    }
}

#[test]
fn selector_needs_exactly_one_key() {
    assert!(matches!(GetUserSelector::try_from(request(Some("a"), None, None)), Ok(GetUserSelector::ByUsername(ref u)) if u == "a"));
    assert!(matches!(GetUserSelector::try_from(request(None, Some("e"), None)), Ok(GetUserSelector::ByEmail(ref e)) if e == "e"));
    assert!(matches!(GetUserSelector::try_from(request(None, None, Some(4))), Ok(GetUserSelector::ById(4))));
    for req in [request(None, None, None), request(Some("a"), Some("e"), None), request(Some("a"), None, Some(1)), request(Some("a"), Some("e"), Some(1))] {
        match GetUserSelector::try_from(req) {
            Err(e) => {
                assert_eq!(e.status, 400);
                assert_eq!(e.message, "provide exactly one of username, email or user_id");
            }
            Ok(_) => panic!("expected an error"),
        }
    }
    let e = user_selector(request(None, None, None)).err().unwrap();
    assert_eq!(e.status, 500);
    assert_eq!(e.message, "HTTP 400: provide exactly one of username, email or user_id");
}

#[test]
fn lookup_replies() {
    let r = user_lookup_reply(&GetUserSelector::ById(3), Ok(smiley())).ok().unwrap();
    assert_eq!((r.username.as_str(), r.email.as_str(), r.containers.len()), ("Smiley", "smiley@e.com", 1));
    let e = user_lookup_reply(&GetUserSelector::ById(3), Err(UserDatabaseError::NotFound("x".to_string()))).err().unwrap();
    assert_eq!((e.status, e.message.as_str()), (500, "Failed to get user."));
    let e = user_lookup_reply(&GetUserSelector::ByUsername("S".to_string()), Err(UserDatabaseError::NotFound("x".to_string()))).err().unwrap();
    assert_eq!((e.status, e.message.as_str()), (500, "NotFoundError: x"));
}

#[test]
fn registration_and_login() {
    let hash = registration_hash("password123").ok().unwrap();
    assert_eq!(registration_reply(Ok(9)).ok(), Some(9));
    let e = registration_reply(Err(UserDatabaseError::DatabaseError("dup".to_string()))).err().unwrap();
    assert_eq!((e.status, e.message.as_str()), (500, "Database error: dup"));

    let token = login_outcome(Ok(hash.clone()), Ok(smiley()), "password123").ok().expect("login should succeed");
    let claims = fleqtra::jwt::validate_jwt(&token).ok().unwrap();
    assert_eq!((claims.id, claims.username.as_str()), (3, "Smiley"));

    let e = login_outcome(Ok(hash.clone()), Ok(smiley()), "wrong").err().unwrap();
    assert_eq!((e.status, e.message.as_str()), (401, "Password not correct."));
    let e = login_outcome(Err(UserDatabaseError::NotFound("n".to_string())), Ok(smiley()), "password123").err().unwrap();
    assert_eq!((e.status, e.message.as_str()), (500, "Error while fetching user credentials"));
    let e = login_outcome(Ok(hash), Err(UserDatabaseError::NotFound("n".to_string())), "password123").err().unwrap();
    assert_eq!((e.status, e.message.as_str()), (500, "Error while fetching user"));
    let e = login_outcome(Ok("plain".to_string()), Ok(smiley()), "password123").err().unwrap();
    assert_eq!((e.status, e.message.as_str()), (500, "Error during user credentials verification process."));
}

#[test]
fn refresh_and_logout() {
    let claims = Claims { id: 5, exp: 0, iat: 0, email: "a@b.c".to_string(), username: "ann".to_string() };
    assert_eq!(logout_message(&claims), "ann logged out successfully!");
    let token = refresh_token(claims).ok().unwrap();
    let back = fleqtra::jwt::validate_jwt(&token).ok().unwrap();
    assert_eq!((back.id, back.email.as_str(), back.username.as_str()), (5, "a@b.c", "ann"));
    assert_eq!(back.exp - back.iat, 86400);
}

#[test]
fn objects_read_from_rows() {
    let id = "67e55044-10b1-426f-9247-bb680e5fe0c8";
    let container = "00000000-0000-0000-0000-0000000000ff";
    let obj = object_from_row(id, "n".to_string(), container, "p/q".to_string()).ok().unwrap();
    assert_eq!(*obj.uuid(), 0x67e5504410b1426f9247bb680e5fe0c8u128);
    assert_eq!(*obj.container_id(), 0xff);
    assert_eq!(obj.name(), "n");
    assert_eq!(obj.path(), "p/q");
    assert!(matches!(object_from_row("nope", "n".to_string(), container, "p".to_string()), Err(ObjectServiceError::UuidError(_))));
    assert!(matches!(object_from_row(id, "n".to_string(), "nope", "p".to_string()), Err(ObjectServiceError::UuidError(_))));
    let o = Object::new(1, "x".to_string(), 2, "y".to_string());
    assert_eq!((*o.uuid(), *o.container_id(), o.name().as_str(), o.path().as_str()), (1, 2, "x", "y"));
}

#[test]
fn object_not_found_message() {
    match object_not_found(0x67e5504410b1426f9247bb680e5fe0c8) {
        ObjectServiceError::NotFoundError(m) => assert_eq!(m, "No object found for 67e55044-10b1-426f-9247-bb680e5fe0c8."),
        _ => panic!("expected NotFoundError"),
    }
}

#[test]
fn cleanup_walks_up_empty_directories() {
    assert_eq!(first_cleanup_dir("a/b/c.txt").as_deref(), Some("a/b"));
    assert_eq!(next_cleanup_dir("a/b", true).as_deref(), Some("a"));
    assert_eq!(next_cleanup_dir("a", true).as_deref(), Some(""));
    assert_eq!(next_cleanup_dir("", true), None);
    assert_eq!(next_cleanup_dir("a/b", false), None);
    assert_eq!(first_cleanup_dir("/"), None);
}

#[test]
fn storage_paths() {
    let s = StorageService::new("test/storage/");
    assert_eq!(s.base_path(), "test/storage/");
    assert_eq!(s.full_path("file.txt"), "test/storage/file.txt");
    assert_eq!(s.full_path("/abs"), "/abs");
    assert_eq!(s.directory_of("sub/file.txt").as_deref(), Some("test/storage/sub"));
    let t = StorageService::new("base");
    assert_eq!(t.full_path("x"), "base/x");
}

#[test]
fn sign_up_replies() {
    let r = username_check_reply(Some(1)).unwrap();
    assert_eq!((r.status, r.body.as_str()), (409, "Username is already in use!"));
    assert!(username_check_reply(Some(0)).is_none());
    assert!(username_check_reply(None).is_none());
    let r = user_insert_reply(Ok(1));
    assert_eq!((r.status, r.body.as_str()), (201, "User created"));
    let r = user_insert_reply(Err("boom".to_string()));
    assert_eq!((r.status, r.body.as_str()), (500, "boom"));
    let r = user_missing_reply();
    assert_eq!((r.status, r.body.as_str()), (404, "User not found"));
}

#[test]
fn distinct_claims_have_distinct_texts() {
    let a = Claims { id: 1, exp: 2, iat: 3, email: "a".to_string(), username: "b".to_string() };
    let b = Claims { id: 1, exp: 2, iat: 3, email: "a\"".to_string(), username: "b".to_string() };
    assert_ne!(claims_to_json(&a), claims_to_json(&b));
}

#[test]
fn object_id_text_is_hyphenated_lower_case() {
    assert_eq!(object_id_text(0x67E5504410B1426F9247BB680E5FE0C8u128), "67e55044-10b1-426f-9247-bb680e5fe0c8");
    assert_eq!(object_id_text(0), "00000000-0000-0000-0000-000000000000");
}

#[test]
fn object_ids_in_every_uuid_form() {
    let forms = [
        "67e5504410b1426f9247bb680e5fe0c8",
        "67E55044-10B1-426F-9247-BB680E5FE0C8",
        "{67e55044-10b1-426f-9247-bb680e5fe0c8}",
        "URN:uuid:67e55044-10b1-426f-9247-bb680e5fe0c8",
    ];
    for form in forms {
        let obj = object_from_row(form, "n".to_string(), form, "p".to_string()).ok().unwrap();
        assert_eq!(*obj.uuid(), 0x67e5504410b1426f9247bb680e5fe0c8u128);
    }
    for bad in ["67e55044_10b1-426f-9247-bb680e5fe0c8", "[67e55044-10b1-426f-9247-bb680e5fe0c8]", "urn:uuiq:67e55044-10b1-426f-9247-bb680e5fe0c8", "67e5504410b1426f9247bb680e5fe0cg"] {
        assert!(matches!(object_from_row(bad, "n".to_string(), bad, "p".to_string()), Err(ObjectServiceError::UuidError(_))));
    }
}
