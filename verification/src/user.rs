//! User and role data as the sample application's logic reads it, the
//! packing of authentication results, and the decisions of the user
//! repository: whom to authenticate, and what to insert when a user is
//! created.  Password checking and hashing are delegated to bcrypt.

use vstd::prelude::*;

use crate::app_error::DbError;
use crate::app_error::ErrorType;
use crate::error::FnError;
use crate::secutils::generate_jwt_token;
use crate::secutils::jwt_token_of;
use crate::secutils::spec_token_claims;

verus! {

/// A user row.
#[derive(Debug, Clone)]
pub struct User {
    pub user_id: u128,
    pub name: String,
    pub email: String,
    pub password: String,
    pub phone_number: Option<String>,
    pub isemail_verfied: Option<bool>,
    pub is_phone_verfied: Option<bool>,
    pub is_active: Option<bool>,
}

/// A role row.
#[derive(Debug, Clone)]
pub struct Role {
    pub id: u64,
    pub name: String,
}

/// A role-assignment row.
#[derive(Debug, Clone)]
pub struct RoleEntity {
    pub entity_id: Option<String>,
    pub entity_name: Option<String>,
    pub role_id: Option<u64>,
    pub logger_id: Option<u128>,
}

/// The joined row an authentication query returns.
pub type AuthData = (User, RoleEntity, Role);

/// The columns of a user to be inserted.
#[derive(Debug, Clone)]
pub struct NewUser {
    pub name: String,
    pub first_name: String,
    pub last_name: String,
    pub email: String,
    pub password: String,
}

/// The columns of a role assignment to be inserted.
#[derive(Debug)]
pub struct NewRoleEntity {
    pub entity_id: Option<String>,
    pub entity_name: Option<String>,
    pub role_id: Option<u64>,
    pub logger_id: Option<u128>,
}

/// An authentication request: a user identifier and a password.
#[derive(Debug)]
pub struct AuthRequest {
    pub user: String,
    pub pass: String,
}

/// A user-creation request.
#[derive(Debug)]
pub struct CreateUserRequest {
    pub name: String,
    pub first_name: String,
    pub last_name: String,
    pub email: String,
    pub password: String,
}

/// The response of a successful authentication.
#[derive(Debug)]
pub struct AuthResponse {
    pub token: String,
    pub email_verified: bool,
    pub email: String,
    pub mobile: String,
    pub mobile_verified_status: bool,
    pub is_active: bool,
    pub location_identified: bool,
}

/// Packs a user identifier and a password into a request.
pub fn auth_request_from(user: String, pass: String) -> (r: AuthRequest)
    ensures
        r.user == user,
        r.pass == pass,
{
    AuthRequest { user, pass }
}

impl From<CreateUserRequest> for NewUser {
    fn from(create_user_request: CreateUserRequest) -> (r: NewUser) {
        NewUser {
            name: create_user_request.name,
            first_name: create_user_request.first_name,
            last_name: create_user_request.last_name,
            email: create_user_request.email,
            password: create_user_request.password,
        }
    }
}

impl vstd::std_specs::convert::FromSpecImpl<CreateUserRequest> for NewUser {
    open spec fn obeys_from_spec() -> bool {
        true
    }

    open spec fn from_spec(create_user_request: CreateUserRequest) -> Self {
        NewUser {
            name: create_user_request.name,
            first_name: create_user_request.first_name,
            last_name: create_user_request.last_name,
            email: create_user_request.email,
            password: create_user_request.password,
        }
    }
}

/// Packs an authenticated user and their fresh token into the
/// authentication response: a nullable flag counts as set only when it
/// is present and true, a missing phone number becomes empty, and the
/// location flag is never claimed.
pub fn pack_auth_result(user_data: (User, String)) -> (r: Result<AuthResponse, FnError<ErrorType>>)
    ensures
        r is Ok,
        r->Ok_0.token == user_data.1,
        r->Ok_0.email_verified == (user_data.0.isemail_verfied == Option::Some(true)),
        r->Ok_0.email == user_data.0.email,
        match user_data.0.phone_number {
            Option::Some(p) => r->Ok_0.mobile == p,
            Option::None => r->Ok_0.mobile@ == Seq::<char>::empty(),
        },
        r->Ok_0.mobile_verified_status == (user_data.0.is_phone_verfied == Option::Some(true)),
        r->Ok_0.is_active == (user_data.0.is_active == Option::Some(true)),
        r->Ok_0.location_identified == false,
{
    let (user, token) = user_data;
    let email_verified = match user.isemail_verfied {
        Option::Some(e) => e,
        Option::None => false,
    };
    let mobile = match user.phone_number {
        Option::Some(p) => p,
        Option::None => String::new(),
    };
    let mobile_verified_status = match user.is_phone_verfied {
        Option::Some(e) => e,
        Option::None => false,
    };
    let is_active = match user.is_active {
        Option::Some(e) => e,
        Option::None => false,
    };
    Result::Ok(AuthResponse {
        token,
        email_verified,
        email: user.email,
        mobile,
        mobile_verified_status,
        is_active,
        location_identified: false,
    })
}

/// What bcrypt's password check decides for a password and a stored
/// hash: whether they match, or nothing when the hash cannot be read.
pub uninterp spec fn bcrypt_check_of(password: Seq<char>, hashed: Seq<char>) -> Option<bool>;

/// Relies on bcrypt::verify: it parses the stored hash, re-derives the
/// digest from the password and the hash's own salt and cost, and
/// compares — a function of the two arguments alone.  A hash it cannot
/// parse is an error, rendered here into its message.
#[verifier::external_body]
fn bcrypt_verify(password: &str, hashed: &str) -> (r: Result<bool, String>)
    ensures
        match r {
            Result::Ok(b) => bcrypt_check_of(password@, hashed@) == Option::Some(b),
            Result::Err(_) => bcrypt_check_of(password@, hashed@) is None,
        },
{
    bcrypt::verify(password, hashed).map_err(|e| e.to_string())
}

/// Relies on bcrypt::hash: the salt is drawn from the system, so the
/// result is tied to nothing; a cost outside bcrypt's accepted range of
/// 4 to 31 is rejected.
#[verifier::external_body]
fn bcrypt_hash(password: &str, cost: u32) -> (r: Result<String, String>)
    ensures
        cost < 4 || cost > 31 ==> r is Err,
{
    bcrypt::hash(password, cost).map_err(|e| e.to_string())
}

/// Decides an authentication attempt from the joined rows the user
/// lookup returned: no row means the user cannot be authenticated; with
/// a row, the password must match its stored hash.  Returns the first
/// row on success.
pub fn auth_check(user_name: String, pass: String, rows: Vec<AuthData>) -> (r: Result<
    AuthData,
    FnError<ErrorType>,
>)
    ensures
        rows@.len() == 0 ==> (r matches Result::Err(e) && (e.underlying_error matches Option::Some(
            ErrorType::AuthError(u),
        ) && u == user_name)),
        rows@.len() > 0 ==> match bcrypt_check_of(pass@, rows@[0].0.password@) {
            Option::Some(true) => r matches Result::Ok(row) && row == rows@[0],
            Option::Some(false) => r matches Result::Err(e) && e.underlying_error matches
                Option::Some(ErrorType::AuthError(u)) && u == user_name,
            Option::None => r matches Result::Err(e) && e.underlying_error matches Option::Some(
                ErrorType::Unknown(_),
            ),
        },
{
    let mut rows = rows;
    if rows.len() == 0 {
        return Result::Err(FnError {
            underlying_error: Option::Some(ErrorType::AuthError(user_name)),
            description: Option::None,
            error_code: Option::None,
        });
    }
    let valid = match bcrypt_verify(pass.as_str(), rows[0].0.password.as_str()) {
        Result::Ok(b) => b,
        Result::Err(m) => {
            return Result::Err(FnError {
                underlying_error: Option::Some(ErrorType::Unknown(m)),
                description: Option::None,
                error_code: Option::None,
            });
        },
    };
    if !valid {
        return Result::Err(FnError {
            underlying_error: Option::Some(ErrorType::AuthError(user_name)),
            description: Option::None,
            error_code: Option::None,
        });
    }
    let first = rows.remove(0);
    Result::Ok(first)
}

/// The whole authentication chain on plain values: check the password
/// against the first row the user lookup returned, issue a token naming
/// the user with the row's role, and pack the response.  Fails exactly
/// where a step fails, without running the steps after it.
pub fn auth_pipeline(
    user_name: String,
    pass: String,
    rows: Vec<AuthData>,
    jwt_signing_key: String,
    expires_in_secs: u64,
) -> (r: Result<AuthResponse, FnError<ErrorType>>)
    ensures
        rows@.len() == 0 ==> (r matches Result::Err(e) && e.underlying_error matches Option::Some(
            ErrorType::AuthError(_),
        )),
        rows@.len() > 0 && bcrypt_check_of(pass@, rows@[0].0.password@) == Option::Some(false)
            ==> (r matches Result::Err(e) && e.underlying_error matches Option::Some(
            ErrorType::AuthError(_),
        )),
        r matches Result::Ok(resp) ==> {
            let user = rows@[0].0;
            let role = rows@[0].2;
            &&& rows@.len() > 0
            &&& bcrypt_check_of(pass@, user.password@) == Option::Some(true)
            &&& resp.token@ == jwt_token_of(
                spec_token_claims(
                    user.email@,
                    user.email@,
                    seq![role.name@],
                    user.isemail_verfied == Option::Some(true),
                    user.is_phone_verfied == Option::Some(true),
                    expires_in_secs as nat,
                ),
                jwt_signing_key@,
            )
            &&& resp.email == user.email
            &&& resp.email_verified == (user.isemail_verfied == Option::Some(true))
            &&& resp.mobile_verified_status == (user.is_phone_verfied == Option::Some(true))
            &&& resp.is_active == (user.is_active == Option::Some(true))
            &&& resp.location_identified == false
        },
{
    let ghost rows0 = rows@;
    let auth_data = match auth_check(user_name, pass, rows) {
        Result::Ok(a) => a,
        Result::Err(e) => {
            return Result::Err(e);
        },
    };
    let (user, _entity, role) = auth_data;
    let is_email_verified = match user.isemail_verfied {
        Option::Some(b) => b,
        Option::None => false,
    };
    let is_phone_verified = match user.is_phone_verfied {
        Option::Some(b) => b,
        Option::None => false,
    };
    let mut roles: Vec<String> = Vec::new();
    roles.push(role.name);
    let token = match generate_jwt_token(
        &user.email,
        &user.email,
        jwt_signing_key,
        roles,
        is_email_verified,
        is_phone_verified,
        expires_in_secs,
    ) {
        Result::Ok(t) => t,
        Result::Err(e) => {
            return Result::Err(e);
        },
    };
    proof {
        assert(user == rows0[0].0);
    }
    pack_auth_result((user, token))
}

/// Decides a user creation from what the preparatory queries returned:
/// the customer role must exist, the e-mail must be unused, and the
/// password is replaced by its bcrypt hash before insertion.  Returns
/// the columns to insert and the role to assign.
pub fn prepare_user_insert(
    user: NewUser,
    role_result: Result<Role, DbError>,
    user_count: u64,
    bcrypt_cost: u32,
) -> (r: Result<(NewUser, Role), FnError<ErrorType>>)
    ensures
        role_result matches Result::Err(DbError::NotFound) ==> (r matches Result::Err(e)
            && (e.underlying_error matches Option::Some(ErrorType::RoleNotFound(n)) && n@
            == "customer"@)),
        role_result matches Result::Err(DbError::Other(m)) ==> (r matches Result::Err(e)
            && (e.underlying_error matches Option::Some(ErrorType::Unknown(u)) && u == m)),
        role_result is Ok && user_count > 0 ==> (r matches Result::Err(e) && (e.underlying_error
            matches Option::Some(ErrorType::EmailAlreadyTaken(m)) && m == user.email)),
        role_result is Ok && user_count == 0 && (bcrypt_cost < 4 || bcrypt_cost > 31) ==> r is Err,
        r matches Result::Ok((u, role)) ==> {
            &&& role_result == Result::<Role, DbError>::Ok(role)
            &&& user_count == 0
            &&& u.name == user.name
            &&& u.first_name == user.first_name
            &&& u.last_name == user.last_name
            &&& u.email == user.email
        },
{
    let role = match role_result {
        Result::Ok(role) => role,
        Result::Err(DbError::NotFound) => {
            return Result::Err(FnError {
                underlying_error: Option::Some(ErrorType::RoleNotFound("customer".to_owned())),
                description: Option::None,
                error_code: Option::None,
            });
        },
        Result::Err(DbError::Other(m)) => {
            return Result::Err(FnError {
                underlying_error: Option::Some(ErrorType::Unknown(m)),
                description: Option::None,
                error_code: Option::None,
            });
        },
    };
    if user_count > 0 {
        return Result::Err(FnError {
            underlying_error: Option::Some(ErrorType::EmailAlreadyTaken(user.email)),
            description: Option::None,
            error_code: Option::None,
        });
    }
    let hashed = match bcrypt_hash(user.password.as_str(), bcrypt_cost) {
        Result::Ok(h) => h,
        Result::Err(m) => {
            return Result::Err(FnError {
                underlying_error: Option::Some(ErrorType::Unknown(m)),
                description: Option::None,
                error_code: Option::None,
            });
        },
    };
    Result::Ok(
        (
            NewUser {
                name: user.name,
                first_name: user.first_name,
                last_name: user.last_name,
                email: user.email,
                password: hashed,
            },
            role,
        ),
    )
}

/// The role assignment inserted for a freshly created user: it ties the
/// user's identifier to the customer role and names no entity.
pub fn role_entity_for(user: &User, role: &Role) -> (r: NewRoleEntity)
    ensures
        r.logger_id == Option::Some(user.user_id),
        r.role_id == Option::Some(role.id),
        r.entity_id is None,
        r.entity_name is None,
{
    NewRoleEntity {
        entity_id: Option::None,
        entity_name: Option::None,
        role_id: Option::Some(role.id),
        logger_id: Option::Some(user.user_id),
    }
}

} // verus!
