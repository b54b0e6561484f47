use function_compose::app_error::DbError;
use function_compose::request::auth_user_from_claims;
use function_compose::request::claim_value;
use function_compose::secutils::verify_token;
use function_compose::user::auth_pipeline;
use function_compose::app_error::ErrorType;
use function_compose::product::pack_product_category_data;
use function_compose::product::pack_product_data;
use function_compose::product::Category;
use function_compose::product::Product;
use function_compose::product::ProductAttribute;
use function_compose::user::auth_check;
use function_compose::user::auth_request_from;
use function_compose::user::pack_auth_result;
use function_compose::user::prepare_user_insert;
use function_compose::user::role_entity_for;
use function_compose::user::NewUser;
use function_compose::user::Role;
use function_compose::user::RoleEntity;
use function_compose::user::User;

fn product(id: u64, name: &str, family: Option<&str>, variant: &str) -> Product {
    Product {
        id,
        product_uuid: 7,
        product_name: name.to_owned(),
        family: family.map(|f| f.to_owned()),
        variant: variant.to_owned(),
    }
}

fn sample_user() -> User {
    User {
        user_id: 99,
        name: "ada".to_owned(),
        email: "ada@calc.org".to_owned(),
        password: "hash".to_owned(),
        phone_number: Some("555".to_owned()),
        isemail_verfied: Some(true),
        is_phone_verfied: Some(false),
        is_active: None,
    }
}

fn new_user() -> NewUser {
    NewUser {
        name: "ada".to_owned(),
        first_name: "Ada".to_owned(),
        last_name: "L".to_owned(),
        email: "ada@calc.org".to_owned(),
        password: "pw".to_owned(),
    }
}

#[test]
fn packs_product_rows_into_the_listing() {
    let rows = vec![
        (
            product(3, "pen", Some("stationery"), "blue"),
            ProductAttribute {
                image_one: Some("pen.png".to_owned()),
            },
        ),
        (
            product(41, "ink", None, "black"),
            ProductAttribute {
                image_one: Some("ink.png".to_owned()),
            },
        ),
    ];
    let dto = pack_product_data(rows).unwrap();
    assert_eq!(dto.items.len(), 2);
    assert_eq!(dto.items[0].id, "3");
    assert_eq!(dto.items[0].name, "pen");
    assert_eq!(dto.items[0].generic, "stationery");
    assert_eq!(dto.items[0].variant, "blue");
    assert_eq!(dto.items[0].img_url, "pen.png");
    assert_eq!(dto.items[1].id, "41");
    assert_eq!(dto.items[1].generic, "");
    assert_eq!(dto.items[1].img_url, "ink.png");
}

#[test]
fn packs_category_rows_into_the_filtered_listing() {
    let rows = vec![(
        product(12, "pen", None, "blue"),
        Category {
            catogery_name: "office".to_owned(),
        },
    )];
    let dto = pack_product_category_data(rows).unwrap();
    assert_eq!(dto.product_filter_dto_list.len(), 1);
    assert_eq!(dto.product_filter_dto_list[0].id, "12");
    assert_eq!(dto.product_filter_dto_list[0].category_name, "office");
    assert_eq!(dto.product_filter_dto_list[0].generic, "");
}

#[test]
fn packs_the_auth_response() {
    let auth = pack_auth_result((sample_user(), "tok123".to_owned())).unwrap();
    assert_eq!(auth.token, "tok123");
    assert!(auth.email_verified);
    assert_eq!(auth.email, "ada@calc.org");
    assert_eq!(auth.mobile, "555");
    assert!(!auth.mobile_verified_status);
    assert!(!auth.is_active);
    assert!(!auth.location_identified);

    let mut bare = sample_user();
    bare.phone_number = None;
    bare.isemail_verfied = None;
    let auth = pack_auth_result((bare, "t".to_owned())).unwrap();
    assert_eq!(auth.mobile, "");
    assert!(!auth.email_verified);
}

#[test]
fn auth_request_packs_its_fields() {
    let r = auth_request_from("ada".to_owned(), "pw".to_owned());
    assert_eq!(r.user, "ada");
    assert_eq!(r.pass, "pw");
}

#[test]
fn new_user_adopts_the_request_fields() {
    let nu: NewUser = function_compose::user::CreateUserRequest {
        name: "ada".to_owned(),
        first_name: "Ada".to_owned(),
        last_name: "L".to_owned(),
        email: "ada@calc.org".to_owned(),
        password: "pw".to_owned(),
    }
    .into();
    assert_eq!(nu.name, "ada");
    assert_eq!(nu.email, "ada@calc.org");
    assert_eq!(nu.password, "pw");
}

fn auth_row(password_hash: String) -> (User, RoleEntity, Role) {
    let mut u = sample_user();
    u.password = password_hash;
    (
        u,
        RoleEntity {
            entity_id: None,
            entity_name: None,
            role_id: Some(4),
            logger_id: Some(99),
        },
        Role {
            id: 4,
            name: "customer".to_owned(),
        },
    )
}

#[test]
fn authentication_checks_the_stored_hash() {
    let hash = bcrypt::hash("open sesame", 4).unwrap();
    let rows = vec![auth_row(hash.clone())];
    let row = auth_check("ada".to_owned(), "open sesame".to_owned(), rows).unwrap();
    assert_eq!(row.0.email, "ada@calc.org");

    let rows = vec![auth_row(hash)];
    let e = auth_check("ada".to_owned(), "wrong".to_owned(), rows).unwrap_err();
    assert!(matches!(e.underlying_error, Some(ErrorType::AuthError(ref u)) if u == "ada"));

    let e = auth_check("ada".to_owned(), "open sesame".to_owned(), vec![]).unwrap_err();
    assert!(matches!(e.underlying_error, Some(ErrorType::AuthError(ref u)) if u == "ada"));
}

#[test]
fn user_creation_decisions() {
    let role = Role {
        id: 4,
        name: "customer".to_owned(),
    };

    // The customer role is missing.
    let e = prepare_user_insert(new_user(), Err(DbError::NotFound), 0, 4).unwrap_err();
    assert!(matches!(e.underlying_error, Some(ErrorType::RoleNotFound(ref r)) if r == "customer"));

    // The role query failed outright.
    let e = prepare_user_insert(new_user(), Err(DbError::Other("io".to_owned())), 0, 4).unwrap_err();
    assert!(matches!(e.underlying_error, Some(ErrorType::Unknown(ref m)) if m == "io"));

    // The e-mail is taken.
    let e = prepare_user_insert(
        new_user(),
        Ok(Role {
            id: 4,
            name: "customer".to_owned(),
        }),
        1,
        4,
    )
    .unwrap_err();
    assert!(
        matches!(e.underlying_error, Some(ErrorType::EmailAlreadyTaken(ref m)) if m == "ada@calc.org")
    );

    // A cost bcrypt rejects.
    assert!(prepare_user_insert(
        new_user(),
        Ok(Role {
            id: 4,
            name: "customer".to_owned(),
        }),
        0,
        99
    )
    .is_err());

    // The happy path hashes the password.
    let (inserted, got_role) = prepare_user_insert(new_user(), Ok(role), 0, 4).unwrap();
    assert_eq!(inserted.email, "ada@calc.org");
    assert_ne!(inserted.password, "pw");
    assert!(bcrypt::verify("pw", &inserted.password).unwrap());
    assert_eq!(got_role.id, 4);

    let entity = role_entity_for(&sample_user(), &got_role);
    assert_eq!(entity.logger_id, Some(99));
    assert_eq!(entity.role_id, Some(4));
    assert!(entity.entity_id.is_none());
    assert!(entity.entity_name.is_none());
}

#[test]
fn auth_pipeline_end_to_end() {
    let hash = bcrypt::hash("open sesame", 4).unwrap();
    let rows = vec![auth_row(hash.clone())];
    let resp = auth_pipeline(
        "ada".to_owned(),
        "open sesame".to_owned(),
        rows,
        "SECRET-REDACTED".to_owned(),
        7200,
    )
    .unwrap();
    assert_eq!(resp.email, "ada@calc.org");
    assert!(resp.email_verified);
    assert!(!resp.mobile_verified_status);

    // The issued token verifies and names the user with the row's role.
    let claims = verify_token(&resp.token, "SECRET-REDACTED".to_owned()).unwrap();
    let user = auth_user_from_claims(&claims).unwrap();
    assert_eq!(user.email, "ada@calc.org");
    assert_eq!(user.role, "customer");
    assert_eq!(
        claim_value(&claims, &"exp".to_owned()).map(|s| s.as_str()),
        Some("7200")
    );

    // A wrong password fails before any token is issued.
    let rows = vec![auth_row(hash)];
    assert!(auth_pipeline(
        "ada".to_owned(),
        "nope".to_owned(),
        rows,
        "SECRET-REDACTED".to_owned(),
        7200
    )
    .is_err());
}
