use hylacviet::auth::{
    get_jwt_secret, hash_password, make_claims, parse_bearer, verify_password,
    TOKEN_LIFETIME_SECS,
};
use hylacviet::json_codec::{json_list_round_trip, parse_json_array, to_json_array};

#[test]
fn jwt_secret_is_the_configured_one() {
    assert_eq!(get_jwt_secret(), "hylacviet-secret-key-change-in-production");
}

#[test]
fn hash_password_matches_known_sha256_vector() {
    // SHA-256("password"), hex-encoded.
    assert_eq!(
        hash_password("password"),
        "5e884898da28047151d0e56f8dc6292773603d0d6aabbdd62a11ef721d1542d8"
    );
    // SHA-256 of the empty string.
    assert_eq!(
        hash_password(""),
        "e3b0c44298fc1c149afbf4c8996fb92427ae41e4649b934ca495991b7852b855"
    );
    assert_eq!(hash_password("any password at all").len(), 64);
}

#[test]
fn verify_password_accepts_the_right_hash_only() {
    let stored = hash_password("hunter2");
    assert!(verify_password(&stored, "hunter2"));
    assert!(!verify_password(&stored, "hunter3"));
    assert!(!verify_password("not-a-hash", "hunter2"));
}

#[test]
fn claims_expire_a_day_after_issue() {
    let c = make_claims(
        "user-1".to_string(),
        "admin".to_string(),
        "owner".to_string(),
        1_700_000_000,
    );
    assert_eq!(c.sub, "user-1");
    assert_eq!(c.username, "admin");
    assert_eq!(c.role, "owner");
    assert_eq!(c.iat, 1_700_000_000);
    assert_eq!(c.exp, 1_700_000_000 + 24 * 60 * 60);
    assert_eq!(c.exp - c.iat, TOKEN_LIFETIME_SECS);
}

#[test]
fn bearer_header_parsing() {
    assert_eq!(parse_bearer("Bearer abc.def"), Some("abc.def"));
    assert_eq!(parse_bearer("Bearer "), Some(""));
    assert_eq!(parse_bearer("bearer abc"), None);
    assert_eq!(parse_bearer("Basic abc"), None);
    assert_eq!(parse_bearer(""), None);
}

#[test]
fn json_list_codec_round_trips() {
    let images = vec!["a.webp".to_string(), "b \"quoted\".svg".to_string()];
    let text = to_json_array(&images);
    assert_eq!(parse_json_array(&text), images);
    assert_eq!(json_list_round_trip(&images), images);
    assert_eq!(to_json_array(&["a".to_string(), "b".to_string()]), "[\"a\",\"b\"]");
    assert_eq!(parse_json_array("not json"), Vec::<String>::new());
    assert_eq!(parse_json_array("[]"), Vec::<String>::new());
}
