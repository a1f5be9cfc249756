//! Claim sets, their JSON payload, identifiers and times.

use pandacare_auth::clock::Timestamp;
use pandacare_auth::identifiers::{new_token_id, parse_user_id, user_id_text};
use pandacare_auth::json::{
    push_decimal, push_escaped_char, push_json_string, push_json_string_array,
};
use pandacare_auth::models::users::{Role, User};
use pandacare_auth::services::jwt::claims::{Claims, RegisteredClaims};

fn caregiver() -> User {
    User {
        id: 0xa1a2a3a4_b1b2_c1c2_d1d2_d3d4d5d6d7d8,
        email: "login_caregiver_cl@example.com".to_string(),
        password: "x".to_string(),
        role: Role::Caregiver,
    }
}

fn json_string(text: &str) -> String {
    let mut out = String::new();
    push_json_string(&mut out, text);
    out
}

fn decimal(n: usize) -> String {
    let mut out = String::new();
    push_decimal(&mut out, n);
    out
}

#[test]
fn user_id_text_is_lower_case_hyphenated() {
    assert_eq!(
        user_id_text(0xa1a2a3a4_b1b2_c1c2_d1d2_d3d4d5d6d7d8),
        "a1a2a3a4-b1b2-c1c2-d1d2-d3d4d5d6d7d8"
    );
    assert_eq!(user_id_text(0), "00000000-0000-0000-0000-000000000000");
    assert_eq!(user_id_text(u128::MAX), "ffffffff-ffff-ffff-ffff-ffffffffffff");
    assert_eq!(
        user_id_text(0x0000000a_000B_000c_000D_00000000000e),
        "0000000a-000b-000c-000d-00000000000e"
    );
}

#[test]
fn parse_user_id_reads_the_forms_of_a_uuid() {
    let id = Some(0x550e8400_e29b_41d4_a716_446655440000);
    assert_eq!(parse_user_id("550e8400-e29b-41d4-a716-446655440000"), id);
    assert_eq!(parse_user_id("550E8400-E29B-41D4-A716-446655440000"), id);
    assert_eq!(parse_user_id("550e8400e29b41d4a716446655440000"), id);
    assert_eq!(parse_user_id("urn:uuid:550e8400-e29b-41d4-a716-446655440000"), id);
    assert_eq!(parse_user_id("{550e8400-e29b-41d4-a716-446655440000}"), id);
}

#[test]
fn parse_user_id_rejects_what_is_no_uuid() {
    assert_eq!(parse_user_id("not-a-valid-uuid"), None);
    assert_eq!(parse_user_id(""), None);
    assert_eq!(parse_user_id("550e8400-e29b-41d4-a716-44665544000"), None);
    assert_eq!(parse_user_id("550e8400-e29b-41d4-a716-44665544000g"), None);
    assert_eq!(parse_user_id(" 550e8400-e29b-41d4-a716-446655440000"), None);
}

#[test]
fn user_id_text_parses_back_to_the_same_id() {
    for id in [0u128, 1, 0x550e8400_e29b_41d4_a716_446655440000, u128::MAX] {
        assert_eq!(parse_user_id(&user_id_text(id)), Some(id));
    }
}

#[test]
fn token_ids_are_random_version_four_uuids() {
    let first = new_token_id();
    let second = new_token_id();
    assert_ne!(first, second);
    for text in [first, second] {
        assert_eq!(text.len(), 36);
        let id = parse_user_id(&text).unwrap();
        assert_eq!((id >> 76) & 0xf, 4);
        assert_eq!((id >> 62) & 0x3, 2);
        assert_eq!(user_id_text(id), text);
    }
}

#[test]
fn timestamps_are_ordered_by_seconds_then_nanoseconds() {
    let base = Timestamp::new(100, 500);
    assert!(Timestamp::new(101, 0).after(&base));
    assert!(Timestamp::new(100, 501).after(&base));
    assert!(!Timestamp::new(100, 500).after(&base));
    assert!(!Timestamp::new(100, 499).after(&base));
    assert!(!Timestamp::new(99, 999_999_999).after(&base));
    assert!(Timestamp::new(0, 0).after(&Timestamp::new(-1, 999_999_999)));
    assert!(Timestamp::new(i64::MAX, 0).after(&Timestamp::new(i64::MIN, u32::MAX)));
}

#[test]
fn add_seconds_keeps_the_nanoseconds() {
    assert_eq!(Timestamp::new(100, 7).add_seconds(1800), Timestamp::new(1900, 7));
    assert_eq!(Timestamp::new(100, 7).add_seconds(-101), Timestamp::new(-1, 7));
    assert_eq!(Timestamp::new(i64::MAX - 1, 0).add_seconds(1), Timestamp::new(i64::MAX, 0));
    assert_eq!(Timestamp::new(5, 1).add_seconds(0), Timestamp::new(5, 1));
}

#[test]
fn registered_claims_at_a_given_time() {
    let claims =
        RegisteredClaims::at("Pandacare", Timestamp::new(1_700_000_000, 123), 300, "id".to_string());
    assert_eq!(claims.iss, "Pandacare");
    assert_eq!(claims.iat, 1_700_000_000);
    assert_eq!(claims.nbf, 1_700_000_000);
    assert_eq!(claims.exp, 1_700_000_300);
    assert_eq!(claims.jti, "id");
}

#[test]
fn registered_claims_before_the_epoch_wrap_as_unsigned() {
    let claims = RegisteredClaims::at("x", Timestamp::new(10, 0), -11, String::new());
    assert_eq!(claims.exp, usize::MAX);
    assert_eq!(claims.iat, 10);
    let claims = RegisteredClaims::at("x", Timestamp::new(-2, 0), 2, String::new());
    assert_eq!(claims.exp, 0);
    assert_eq!(claims.iat, usize::MAX - 1);
}

#[test]
fn new_registered_claims_are_valid_from_now() {
    let before = chrono::Utc::now().timestamp();
    let claims = RegisteredClaims::new("Pandacare", 300);
    let after = chrono::Utc::now().timestamp();
    assert_eq!(claims.iss, "Pandacare");
    assert_eq!(claims.nbf, claims.iat);
    assert_eq!(claims.exp, claims.iat + 300);
    assert!(before as usize <= claims.iat && claims.iat <= after as usize);
    let id = parse_user_id(&claims.jti).unwrap();
    assert_eq!((id >> 76) & 0xf, 4);
    assert_ne!(RegisteredClaims::new("Pandacare", 300).jti, claims.jti);
}

#[test]
fn new_registered_claims_may_be_expired_already() {
    let claims = RegisteredClaims::new("a", -60);
    assert_eq!(claims.exp + 60, claims.iat);
    let claims = RegisteredClaims::new("a", 0);
    assert_eq!(claims.exp, claims.iat);
}

#[test]
fn claims_for_user_hold_id_text_and_one_role() {
    let registered = RegisteredClaims::at("Pandacare", Timestamp::new(5, 0), 300, "j".to_string());
    let claims = Claims::for_user(registered, &caregiver());
    assert_eq!(claims.user_id, "a1a2a3a4-b1b2-c1c2-d1d2-d3d4d5d6d7d8");
    assert_eq!(claims.roles, vec!["caregiver".to_string()]);
    assert_eq!(claims.registered_claims.exp, 305);
    let mut pacilian = caregiver();
    pacilian.role = Role::Pacilian;
    let registered = RegisteredClaims::at("Pandacare", Timestamp::new(5, 0), 300, "j".to_string());
    assert_eq!(Claims::for_user(registered, &pacilian).roles, vec!["pacilian".to_string()]);
}

#[test]
fn claims_json_is_compact_and_in_field_order() {
    let registered = RegisteredClaims::at(
        "Pandacare",
        Timestamp::new(1_700_000_000, 0),
        300,
        "0b0c0d0e-0000-4000-8000-000000000001".to_string(),
    );
    let claims = Claims::for_user(registered, &caregiver());
    assert_eq!(
        claims.to_json(),
        "{\"iss\":\"Pandacare\",\"exp\":1700000300,\"nbf\":1700000000,\"iat\":1700000000,\
\"jti\":\"0b0c0d0e-0000-4000-8000-000000000001\",\
\"user_id\":\"a1a2a3a4-b1b2-c1c2-d1d2-d3d4d5d6d7d8\",\"roles\":[\"caregiver\"]}"
    );
}

#[test]
fn claims_json_is_what_serde_json_reads_back() {
    let claims = Claims {
        registered_claims: RegisteredClaims {
            iss: "a \"quoted\" issuer\\\n\u{1}\u{7f}\u{e9}\u{1F600}".to_string(),
            exp: 0,
            nbf: 7,
            iat: usize::MAX,
            jti: String::new(),
        },
        user_id: "\t".to_string(),
        roles: vec!["one".to_string(), "t,wo".to_string(), String::new()],
    };
    let read: serde_json::Value = serde_json::from_str(&claims.to_json()).unwrap();
    assert_eq!(read["iss"], "a \"quoted\" issuer\\\n\u{1}\u{7f}\u{e9}\u{1F600}");
    assert_eq!(read["exp"], 0);
    assert_eq!(read["nbf"], 7);
    assert_eq!(read["iat"], usize::MAX);
    assert_eq!(read["jti"], "");
    assert_eq!(read["user_id"], "\t");
    assert_eq!(
        read["roles"],
        serde_json::Value::Array(vec!["one".into(), "t,wo".into(), "".into()])
    );
    assert_eq!(read.as_object().unwrap().len(), 7);
}

#[test]
fn claims_json_without_roles_has_an_empty_array() {
    let claims = Claims {
        registered_claims: RegisteredClaims {
            iss: String::new(),
            exp: 1,
            nbf: 2,
            iat: 3,
            jti: String::new(),
        },
        user_id: String::new(),
        roles: Vec::new(),
    };
    assert_eq!(
        claims.to_json(),
        "{\"iss\":\"\",\"exp\":1,\"nbf\":2,\"iat\":3,\"jti\":\"\",\"user_id\":\"\",\"roles\":[]}"
    );
}

#[test]
fn json_strings_escape_as_serde_json_does() {
    for text in [
        "",
        "plain",
        "\"",
        "\\",
        "/",
        "\u{8}\u{c}\n\r\t",
        "\u{0}\u{1}\u{b}\u{e}\u{1f}",
        "\u{20}\u{7f}\u{80}\u{ff}",
        "caf\u{e9} \u{4e2d}\u{6587} \u{1F600}",
        "a\"b\\c\nd",
    ] {
        assert_eq!(json_string(text), serde_json::to_string(text).unwrap());
    }
}

#[test]
fn json_string_escapes_exactly() {
    assert_eq!(json_string("a\"b"), "\"a\\\"b\"");
    assert_eq!(json_string("\u{1f}"), "\"\\u001f\"");
    assert_eq!(json_string("\u{b}"), "\"\\u000b\"");
    assert_eq!(json_string("\u{0}"), "\"\\u0000\"");
    assert_eq!(json_string("\u{8}"), "\"\\b\"");
    assert_eq!(json_string("\u{c}"), "\"\\f\"");
    assert_eq!(json_string(" "), "\" \"");
    let mut out = "x".to_string();
    push_escaped_char(&mut out, '\\');
    push_escaped_char(&mut out, 'y');
    assert_eq!(out, "x\\\\y");
}

#[test]
fn decimal_has_no_leading_zeros() {
    assert_eq!(decimal(0), "0");
    assert_eq!(decimal(9), "9");
    assert_eq!(decimal(10), "10");
    assert_eq!(decimal(1_700_000_300), "1700000300");
    assert_eq!(decimal(usize::MAX), usize::MAX.to_string());
    let mut out = "n=".to_string();
    push_decimal(&mut out, 105);
    assert_eq!(out, "n=105");
}

#[test]
fn json_string_array_separates_with_commas() {
    let mut out = String::new();
    push_json_string_array(&mut out, &Vec::new());
    assert_eq!(out, "[]");
    let mut out = String::new();
    push_json_string_array(&mut out, &vec!["a".to_string()]);
    assert_eq!(out, "[\"a\"]");
    let mut out = "r:".to_string();
    push_json_string_array(&mut out, &vec!["a".to_string(), "\"".to_string(), "c".to_string()]);
    assert_eq!(out, "r:[\"a\",\"\\\"\",\"c\"]");
}

#[test]
fn role_names_are_lower_case() {
    assert_eq!(Role::Pacilian.as_str(), "pacilian");
    assert_eq!(Role::Caregiver.as_str(), "caregiver");
}
