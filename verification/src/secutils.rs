//! Token security utilities: building the claim set of a signed token,
//! and signing and verifying tokens.  The claim set is assembled and
//! specified here; the HMAC-SHA256 signature itself is delegated to the
//! jwt and hmac crates.

use vstd::prelude::*;
use vstd::string::StringExecFns;

use hmac::Hmac;
use hmac::Mac;
use jwt::SignWithKey;
use jwt::VerifyWithKey;
use sha2::Sha256;
use std::collections::BTreeMap;

use crate::app_error::ErrorType;
use crate::error::FnError;
use crate::strings::decimal_u64;
use crate::strings::spec_decimal;

verus! {

/// The character views of a sequence of string pairs.
pub open spec fn spec_pair_views(v: Seq<(String, String)>) -> Seq<(Seq<char>, Seq<char>)> {
    v.map_values(|p: (String, String)| (p.0@, p.1@))
}

/// The compact token that signing a claim set with a key produces.
pub uninterp spec fn jwt_token_of(claims: Seq<(Seq<char>, Seq<char>)>, key: Seq<char>) -> Seq<
    char,
>;

/// The claim set that verifying a token against a key recovers, keys
/// in ascending order — or nothing, when the token does not verify.
pub uninterp spec fn jwt_claims_of(token: Seq<char>, key: Seq<char>) -> Option<
    Seq<(Seq<char>, Seq<char>)>,
>;

/// Relies on jwt's SignWithKey for string maps under an HMAC-SHA256
/// key: serialisation of the ordered map, base64, and the HMAC digest
/// are each functions of the claims and the key alone.
#[verifier::external_body]
fn sign_claims(pairs: Vec<(String, String)>, jwt_signing_key: &str) -> (r: Result<String, String>)
    ensures
        r matches Result::Ok(token) ==> token@ == jwt_token_of(
            spec_pair_views(pairs@),
            jwt_signing_key@,
        ),
{
    let key: Hmac<Sha256> = match Hmac::new_from_slice(jwt_signing_key.as_bytes()) {
        Ok(k) => k,
        Err(e) => return Err(e.to_string()),
    };
    let map: BTreeMap<String, String> = pairs.into_iter().collect();
    map.sign_with_key(&key).map_err(|e| e.to_string())
}

/// Relies on jwt's VerifyWithKey for string maps under an HMAC-SHA256
/// key: parsing, signature comparison and claim decoding depend on the
/// token and the key alone, and the recovered map iterates its keys in
/// ascending order.
#[verifier::external_body]
fn verify_claims(jwt_token: &str, jwt_signing_key: &str) -> (r: Result<
    Vec<(String, String)>,
    String,
>)
    ensures
        match r {
            Result::Ok(claims) => jwt_claims_of(jwt_token@, jwt_signing_key@) == Option::Some(
                spec_pair_views(claims@),
            ),
            Result::Err(_) => jwt_claims_of(jwt_token@, jwt_signing_key@) is None,
        },
{
    let key: Hmac<Sha256> = match Hmac::new_from_slice(jwt_signing_key.as_bytes()) {
        Ok(k) => k,
        Err(e) => return Err(e.to_string()),
    };
    let claims: BTreeMap<String, String> = match jwt_token.verify_with_key(&key) {
        Ok(c) => c,
        Err(e) => return Err(e.to_string()),
    };
    Ok(claims.into_iter().collect())
}

/// `"true"` or `"false"`.
pub open spec fn spec_bool_chars(b: bool) -> Seq<char> {
    if b {
        "true"@
    } else {
        "false"@
    }
}

/// Renders a flag as `"true"` or `"false"`.
pub fn bool_string(b: bool) -> (r: String)
    ensures
        r@ == spec_bool_chars(b),
{
    if b {
        proof {
            reveal_strlit("true");
        }
        String::from_str("true")
    } else {
        proof {
            reveal_strlit("false");
        }
        String::from_str("false")
    }
}

/// The names joined by single spaces, in order.
pub open spec fn spec_joined_spaces(names: Seq<Seq<char>>) -> Seq<char>
    decreases names.len(),
{
    if names.len() == 0 {
        Seq::<char>::empty()
    } else if names.len() == 1 {
        names[0]
    } else {
        spec_joined_spaces(names.drop_last()) + " "@ + names.last()
    }
}

/// Joins role names with single spaces, in order.
pub fn join_roles(roles: &Vec<String>) -> (r: String)
    ensures
        r@ == spec_joined_spaces(roles@.map_values(|s: String| s@)),
{
    let ghost views = roles@.map_values(|s: String| s@);
    let mut acc = String::new();
    let mut i: usize = 0;
    while i < roles.len()
        invariant
            views == roles@.map_values(|s: String| s@),
            i <= roles@.len(),
            acc@ == spec_joined_spaces(views.take(i as int)),
        decreases roles@.len() - i,
    {
        if i > 0 {
            proof {
                reveal_strlit(" ");
            }
            acc.append(" ");
        }
        acc.append(roles[i].as_str());
        proof {
            assert(views.take(i as int + 1).drop_last() =~= views.take(i as int));
            assert(views.take(i as int + 1).last() == views[i as int]);
            if i == 0 {
                assert(acc@ =~= spec_joined_spaces(views.take(i as int + 1)));
            } else {
                assert(acc@ =~= spec_joined_spaces(views.take(i as int + 1)));
            }
        }
        i = i + 1;
    }
    proof {
        assert(views.take(views.len() as int) =~= views);
    }
    acc
}

/// The claim set of a token: the subject's identifier and e-mail, the
/// e-mail once more as the token identifier, the space-joined roles,
/// the two verification flags, and the expiry in seconds.
pub open spec fn spec_token_claims(
    name: Seq<char>,
    email: Seq<char>,
    roles: Seq<Seq<char>>,
    is_email_verified: bool,
    is_phone_verified: bool,
    expires_secs: nat,
) -> Seq<(Seq<char>, Seq<char>)> {
    seq![
        ("userId"@, name),
        ("email"@, email),
        ("jti"@, email),
        ("role"@, spec_joined_spaces(roles)),
        ("isEmailVerfied"@, spec_bool_chars(is_email_verified)),
        ("isPhoneVerfied"@, spec_bool_chars(is_phone_verified)),
        ("exp"@, spec_decimal(expires_secs)),
    ]
}

/// Builds the claim set of a token, in declaration order.
pub fn build_claims(
    name: &String,
    email: &String,
    roles: &Vec<String>,
    is_email_verified: bool,
    is_phone_verified: bool,
    expires_secs: u64,
) -> (r: Vec<(String, String)>)
    ensures
        spec_pair_views(r@) == spec_token_claims(
            name@,
            email@,
            roles@.map_values(|s: String| s@),
            is_email_verified,
            is_phone_verified,
            expires_secs as nat,
        ),
{
    let mut claims: Vec<(String, String)> = Vec::new();
    claims.push(("userId".to_owned(), name.clone()));
    claims.push(("email".to_owned(), email.clone()));
    claims.push(("jti".to_owned(), email.clone()));
    claims.push(("role".to_owned(), join_roles(roles)));
    claims.push(("isEmailVerfied".to_owned(), bool_string(is_email_verified)));
    claims.push(("isPhoneVerfied".to_owned(), bool_string(is_phone_verified)));
    claims.push(("exp".to_owned(), decimal_u64(expires_secs)));
    proof {
        assert(spec_pair_views(claims@) =~= spec_token_claims(
            name@,
            email@,
            roles@.map_values(|s: String| s@),
            is_email_verified,
            is_phone_verified,
            expires_secs as nat,
        ));
    }
    claims
}

/// Issues a signed token for the subject: assembles the claim set and
/// signs it with the given key.  A signing failure surfaces as an
/// unclassified domain error.
pub fn generate_jwt_token(
    name: &String,
    email: &String,
    jwt_signing_key: String,
    roles: Vec<String>,
    is_email_verified: bool,
    is_phone_verified: bool,
    expires_in_secs: u64,
) -> (r: Result<String, FnError<ErrorType>>)
    ensures
        r matches Result::Ok(token) ==> token@ == jwt_token_of(
            spec_token_claims(
                name@,
                email@,
                roles@.map_values(|s: String| s@),
                is_email_verified,
                is_phone_verified,
                expires_in_secs as nat,
            ),
            jwt_signing_key@,
        ),
        r matches Result::Err(e) ==> e.underlying_error matches Option::Some(
            ErrorType::Unknown(_),
        ),
{
    let claims = build_claims(
        name,
        email,
        &roles,
        is_email_verified,
        is_phone_verified,
        expires_in_secs,
    );
    match sign_claims(claims, jwt_signing_key.as_str()) {
        Result::Ok(token) => Result::Ok(token),
        Result::Err(m) => Result::Err(FnError {
            underlying_error: Option::Some(ErrorType::Unknown(m)),
            description: Option::None,
            error_code: Option::None,
        }),
    }
}

/// Verifies a token against the signing key and recovers its claim
/// set, keys ascending; a token that does not verify surfaces as an
/// unclassified domain error.
pub fn verify_token(jwt_token: &str, jwt_signing_key: String) -> (r: Result<
    Vec<(String, String)>,
    FnError<ErrorType>,
>)
    ensures
        r matches Result::Ok(claims) ==> jwt_claims_of(jwt_token@, jwt_signing_key@)
            == Option::Some(spec_pair_views(claims@)),
        r is Err ==> jwt_claims_of(jwt_token@, jwt_signing_key@) is None,
        r matches Result::Err(e) ==> e.underlying_error matches Option::Some(
            ErrorType::Unknown(_),
        ),
{
    match verify_claims(jwt_token, jwt_signing_key.as_str()) {
        Result::Ok(claims) => Result::Ok(claims),
        Result::Err(m) => Result::Err(FnError {
            underlying_error: Option::Some(ErrorType::Unknown(m)),
            description: Option::None,
            error_code: Option::None,
        }),
    }
}

} // verus!
