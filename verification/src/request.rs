//! Request-side helpers of the sample application: extracting the
//! bearer token from an authorization header, and reading the
//! authenticated user out of a verified claim set.

use vstd::prelude::*;
use vstd::string::StrSliceExecFns;
use vstd::string::StringExecFns;

verus! {

/// A deserialized query string, carrying the decoded value.
pub struct Qs<T>(pub T);

/// The user a verified token names.
#[derive(Debug)]
pub struct RequestUser {
    pub user_id: String,
    pub email: String,
    pub role: String,
    pub is_email_verified: bool,
    pub is_phone_verified: bool,
}

/// The authenticated user attached to a request, when one is.
#[derive(Debug)]
pub struct AuthUserData {
    pub auth_user: Option<RequestUser>,
}

/// Whether a character separates header tokens.
pub open spec fn spec_is_space(c: char) -> bool {
    c == ' ' || c == '\t' || c == '\n' || c == '\r'
}

/// The first position at or after `from` whose character's spaceness is
/// `want`, or the end.
pub open spec fn spec_scan(s: Seq<char>, from: int, want: bool) -> int
    decreases s.len() - from,
{
    if from < 0 || from >= s.len() {
        s.len() as int
    } else if spec_is_space(s[from]) == want {
        from
    } else {
        spec_scan(s, from + 1, want)
    }
}

fn is_space(c: char) -> (r: bool)
    ensures
        r == spec_is_space(c),
{
    c == ' ' || c == '\t' || c == '\n' || c == '\r'
}

fn scan(s: &str, from: usize, want: bool) -> (r: usize)
    requires
        from <= s@.len(),
    ensures
        r == spec_scan(s@, from as int, want),
        from <= r <= s@.len(),
{
    let n = s.unicode_len();
    let mut i = from;
    while i < n
        invariant
            from <= i <= n == s@.len(),
            spec_scan(s@, from as int, want) == spec_scan(s@, i as int, want),
        decreases n - i,
    {
        if is_space(s.get_char(i)) == want {
            return i;
        }
        i = i + 1;
    }
    n
}

/// Extracts the bearer token of an authorization header: the second
/// space-separated word, whatever the first is.  Nothing comes back
/// from a header with fewer than two words.
pub fn parse_bearer_token(header: &str) -> (r: Option<&str>)
    ensures
        ({
            let a = spec_scan(header@, 0, false);
            let b = spec_scan(header@, a, true);
            let c = spec_scan(header@, b, false);
            let d = spec_scan(header@, c, true);
            &&& (r is Some <==> c < header@.len())
            &&& (r matches Option::Some(t) ==> t@ == header@.subrange(c, d))
        }),
{
    let n = header.unicode_len();
    let a = scan(header, 0, false);
    let b = scan(header, a, true);
    let c = scan(header, b, false);
    let d = scan(header, c, true);
    if c < n {
        Option::Some(header.substring_char(c, d))
    } else {
        Option::None
    }
}

/// The value of the first claim carrying `key`.
pub open spec fn spec_claim_value(claims: Seq<(Seq<char>, Seq<char>)>, key: Seq<char>) -> Option<
    Seq<char>,
>
    decreases claims.len(),
{
    if claims.len() == 0 {
        Option::None
    } else if claims[0].0 == key {
        Option::Some(claims[0].1)
    } else {
        spec_claim_value(claims.drop_first(), key)
    }
}

/// The character views of a claim list.
pub open spec fn spec_claim_views(claims: Seq<(String, String)>) -> Seq<(Seq<char>, Seq<char>)> {
    claims.map_values(|p: (String, String)| (p.0@, p.1@))
}

/// Finds the value of the first claim carrying `key`.
pub fn claim_value<'a>(claims: &'a Vec<(String, String)>, key: &String) -> (r: Option<&'a String>)
    ensures
        match r {
            Option::Some(v) => spec_claim_value(spec_claim_views(claims@), key@) == Option::Some(
                v@,
            ),
            Option::None => spec_claim_value(spec_claim_views(claims@), key@) is None,
        },
{
    let ghost views = spec_claim_views(claims@);
    let mut i: usize = 0;
    proof {
        assert(views.skip(0) =~= views);
    }
    while i < claims.len()
        invariant
            views == spec_claim_views(claims@),
            i <= claims@.len(),
            views.len() == claims@.len(),
            spec_claim_value(views, key@) == spec_claim_value(views.skip(i as int), key@),
        decreases claims@.len() - i,
    {
        proof {
            assert(views.skip(i as int).drop_first() =~= views.skip(i as int + 1));
            assert(views.skip(i as int)[0] == views[i as int]);
        }
        if claims[i].0 == *key {
            return Option::Some(&claims[i].1);
        }
        i = i + 1;
    }
    proof {
        assert(views.skip(views.len() as int) =~= Seq::<(Seq<char>, Seq<char>)>::empty());
    }
    Option::None
}

/// What a claim string asserts: `"true"`, `"false"`, or nothing
/// readable.
pub open spec fn spec_parse_bool(s: Seq<char>) -> Option<bool> {
    if s == "true"@ {
        Option::Some(true)
    } else if s == "false"@ {
        Option::Some(false)
    } else {
        Option::None
    }
}

/// Reads a boolean claim string.
pub fn parse_bool_string(s: &String) -> (r: Option<bool>)
    ensures
        r == spec_parse_bool(s@),
{
    if *s == String::from_str("true") {
        Option::Some(true)
    } else if *s == String::from_str("false") {
        Option::Some(false)
    } else {
        Option::None
    }
}

/// Whether a claim set names an authenticated user completely: the
/// identity claims are present and the two verification flags are
/// readable.
pub open spec fn spec_claims_name_user(views: Seq<(Seq<char>, Seq<char>)>) -> bool {
    &&& spec_claim_value(views, "userId"@) is Some
    &&& spec_claim_value(views, "email"@) is Some
    &&& spec_claim_value(views, "role"@) is Some
    &&& match spec_claim_value(views, "isEmailVerfied"@) {
        Option::Some(v) => spec_parse_bool(v) is Some,
        Option::None => false,
    }
    &&& match spec_claim_value(views, "isPhoneVerfied"@) {
        Option::Some(v) => spec_parse_bool(v) is Some,
        Option::None => false,
    }
}

/// Reads the authenticated user out of a verified claim set: the
/// identity claims and both verification flags, each from the first
/// claim carrying its key.  Nothing comes back when a claim is missing
/// or a flag is unreadable.
pub fn auth_user_from_claims(claims: &Vec<(String, String)>) -> (r: Option<RequestUser>)
    ensures
        r is Some <==> spec_claims_name_user(spec_claim_views(claims@)),
        r matches Option::Some(u) ==> {
            let views = spec_claim_views(claims@);
            &&& Option::Some(u.user_id@) == spec_claim_value(views, "userId"@)
            &&& Option::Some(u.email@) == spec_claim_value(views, "email"@)
            &&& Option::Some(u.role@) == spec_claim_value(views, "role"@)
            &&& match spec_claim_value(views, "isEmailVerfied"@) {
                Option::Some(v) => spec_parse_bool(v) == Option::Some(u.is_email_verified),
                Option::None => false,
            }
            &&& match spec_claim_value(views, "isPhoneVerfied"@) {
                Option::Some(v) => spec_parse_bool(v) == Option::Some(u.is_phone_verified),
                Option::None => false,
            }
        },
{
    let user_id = match claim_value(claims, &"userId".to_owned()) {
        Option::Some(v) => v.clone(),
        Option::None => {
            return Option::None;
        },
    };
    let email = match claim_value(claims, &"email".to_owned()) {
        Option::Some(v) => v.clone(),
        Option::None => {
            return Option::None;
        },
    };
    let role = match claim_value(claims, &"role".to_owned()) {
        Option::Some(v) => v.clone(),
        Option::None => {
            return Option::None;
        },
    };
    let is_email_verified = match claim_value(claims, &"isEmailVerfied".to_owned()) {
        Option::Some(v) => match parse_bool_string(v) {
            Option::Some(b) => b,
            Option::None => {
                return Option::None;
            },
        },
        Option::None => {
            return Option::None;
        },
    };
    let is_phone_verified = match claim_value(claims, &"isPhoneVerfied".to_owned()) {
        Option::Some(v) => match parse_bool_string(v) {
            Option::Some(b) => b,
            Option::None => {
                return Option::None;
            },
        },
        Option::None => {
            return Option::None;
        },
    };
    Option::Some(RequestUser { user_id, email, role, is_email_verified, is_phone_verified })
}

} // verus!
