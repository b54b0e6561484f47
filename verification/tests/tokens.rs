use function_compose::request::auth_user_from_claims;
use function_compose::request::claim_value;
use function_compose::request::parse_bearer_token;
use function_compose::request::parse_bool_string;
use function_compose::secutils::generate_jwt_token;
use function_compose::secutils::verify_token;

fn claims_of(token: &str, key: &str) -> Vec<(String, String)> {
    verify_token(token, key.to_owned()).unwrap()
}

#[test]
fn issued_tokens_verify_and_carry_the_claims() {
    let token = generate_jwt_token(
        &"ada".to_owned(),
        &"ada@calc.org".to_owned(),
        "SECRET-REDACTED".to_owned(),
        vec!["customer".to_owned(), "admin".to_owned()],
        true,
        false,
        3600,
    )
    .unwrap();
    assert_eq!(token.split('.').count(), 3);

    let claims = claims_of(&token, "SECRET-REDACTED");
    let get = |k: &str| {
        claim_value(&claims, &k.to_owned())
            .cloned()
            .unwrap_or_default()
    };
    assert_eq!(get("userId"), "ada");
    assert_eq!(get("email"), "ada@calc.org");
    assert_eq!(get("jti"), "ada@calc.org");
    assert_eq!(get("role"), "customer admin");
    assert_eq!(get("isEmailVerfied"), "true");
    assert_eq!(get("isPhoneVerfied"), "false");
    assert_eq!(get("exp"), "3600");
}

#[test]
fn verification_rejects_a_wrong_key_and_garbage() {
    let token = generate_jwt_token(
        &"ada".to_owned(),
        &"ada@calc.org".to_owned(),
        "SECRET-REDACTED".to_owned(),
        vec!["customer".to_owned()],
        false,
        false,
        60,
    )
    .unwrap();
    assert!(verify_token(&token, "other-key".to_owned()).is_err());
    assert!(verify_token("not.a.token", "other-key".to_owned()).is_err());
}

#[test]
fn bearer_tokens_come_from_the_second_word() {
    assert_eq!(parse_bearer_token("Bearer abc.def.ghi"), Some("abc.def.ghi"));
    assert_eq!(parse_bearer_token("  Bearer   tok  "), Some("tok"));
    assert_eq!(parse_bearer_token("Basic xyz trailing"), Some("xyz"));
    assert_eq!(parse_bearer_token("Bearer"), None);
    assert_eq!(parse_bearer_token("   "), None);
    assert_eq!(parse_bearer_token(""), None);
}

#[test]
fn boolean_claims_parse_strictly() {
    assert_eq!(parse_bool_string(&"true".to_owned()), Some(true));
    assert_eq!(parse_bool_string(&"false".to_owned()), Some(false));
    assert_eq!(parse_bool_string(&"True".to_owned()), None);
    assert_eq!(parse_bool_string(&"".to_owned()), None);
}

fn full_claims() -> Vec<(String, String)> {
    vec![
        ("userId".to_owned(), "u7".to_owned()),
        ("email".to_owned(), "e@x".to_owned()),
        ("role".to_owned(), "customer".to_owned()),
        ("isEmailVerfied".to_owned(), "true".to_owned()),
        ("isPhoneVerfied".to_owned(), "false".to_owned()),
    ]
}

#[test]
fn the_request_user_reads_out_of_complete_claims() {
    let u = auth_user_from_claims(&full_claims()).unwrap();
    assert_eq!(u.user_id, "u7");
    assert_eq!(u.email, "e@x");
    assert_eq!(u.role, "customer");
    assert!(u.is_email_verified);
    assert!(!u.is_phone_verified);
}

#[test]
fn incomplete_or_unreadable_claims_name_no_user() {
    let mut claims = full_claims();
    claims.retain(|(k, _)| k != "email");
    assert!(auth_user_from_claims(&claims).is_none());

    let mut claims = full_claims();
    claims[3].1 = "yes".to_owned();
    assert!(auth_user_from_claims(&claims).is_none());
}

#[test]
fn round_trip_through_token_reads_the_same_user() {
    let token = generate_jwt_token(
        &"u7".to_owned(),
        &"e@x".to_owned(),
        "SECRET-REDACTED".to_owned(),
        vec!["customer".to_owned()],
        true,
        true,
        60,
    )
    .unwrap();
    let header = format!("Bearer {}", token);
    let extracted = parse_bearer_token(&header).unwrap();
    let claims = claims_of(extracted, "SECRET-REDACTED");
    let user = auth_user_from_claims(&claims).unwrap();
    assert_eq!(user.user_id, "u7");
    assert_eq!(user.email, "e@x");
    assert_eq!(user.role, "customer");
    assert!(user.is_email_verified);
    assert!(user.is_phone_verified);
}
