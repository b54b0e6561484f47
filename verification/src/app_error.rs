//! The error model of the sample application built on the composition
//! core: a domain error taxonomy, its rendering into wire-level error
//! objects with stable codes and HTTP status classes, and mappers from
//! collaborator failures into the taxonomy.

use vstd::prelude::*;

use crate::error::FnError;

verus! {

/// The sample application's error taxonomy.
#[derive(Clone, Debug)]
pub enum ErrorType {
    /// No user with the given identifier.
    UserNotFound(String),
    /// Authentication failed for the given user.
    AuthError(String),
    /// No role with the given identifier.
    RoleNotFound(String),
    /// No entity matching the request.
    EntityNotFound(String),
    /// An unclassified failure, with its rendered message.
    Unknown(String),
    /// The database layer could not be initialised.
    DBInitError,
    /// A database failure, with its rendered message.
    DBError(String),
    /// The request payload was rejected.
    InvalidInput(String),
    /// The e-mail address is already registered.
    EmailAlreadyTaken(String),
}

/// A wire-level error object: a stable code and an optional description,
/// together with the domain error it renders.
#[derive(Debug)]
pub struct ErrorObject {
    pub code: String,
    pub description: Option<String>,
    pub error_type: ErrorType,
}

/// The stable code each domain error renders to.
pub open spec fn spec_error_code(e: ErrorType) -> Seq<char> {
    match e {
        ErrorType::UserNotFound(_) => "E101"@,
        ErrorType::AuthError(_) => "E102"@,
        ErrorType::RoleNotFound(_) => "E103"@,
        ErrorType::EntityNotFound(_) => "E104"@,
        ErrorType::Unknown(_) => "E105"@,
        ErrorType::DBInitError => "E105"@,
        ErrorType::DBError(_) => "E105"@,
        ErrorType::InvalidInput(_) => "E106"@,
        ErrorType::EmailAlreadyTaken(_) => "E106"@,
    }
}

/// The description each domain error renders to: its payload, except
/// for the unclassified and database cases, which carry none.
pub open spec fn spec_error_description(e: ErrorType) -> Option<Seq<char>> {
    match e {
        ErrorType::UserNotFound(s) => Option::Some(s@),
        ErrorType::AuthError(s) => Option::Some(s@),
        ErrorType::RoleNotFound(s) => Option::Some(s@),
        ErrorType::EntityNotFound(s) => Option::Some(s@),
        ErrorType::Unknown(_) => Option::None,
        ErrorType::DBInitError => Option::None,
        ErrorType::DBError(_) => Option::None,
        ErrorType::InvalidInput(s) => Option::Some(s@),
        ErrorType::EmailAlreadyTaken(s) => Option::Some(s@),
    }
}

/// The HTTP status class each domain error belongs to.
pub open spec fn spec_error_status(e: ErrorType) -> u16 {
    match e {
        ErrorType::UserNotFound(_) => 400,
        ErrorType::AuthError(_) => 401,
        ErrorType::RoleNotFound(_) => 401,
        ErrorType::EntityNotFound(_) => 400,
        ErrorType::Unknown(_) => 500,
        ErrorType::DBInitError => 500,
        ErrorType::DBError(_) => 500,
        ErrorType::InvalidInput(_) => 400,
        ErrorType::EmailAlreadyTaken(_) => 400,
    }
}

impl ErrorObject {
    /// Packs a code, a description and the underlying domain error.
    pub fn new(code: String, description: Option<String>, error_type: ErrorType) -> (r:
        ErrorObject)
        ensures
            r.code == code,
            r.description == description,
            r.error_type == error_type,
    {
        ErrorObject { code, description, error_type }
    }
}

impl ErrorType {
    /// Renders a domain error into its wire-level object, with the
    /// stable code and description of the variant.
    pub fn to_error_object(&self) -> (r: ErrorObject)
        ensures
            r.code@ == spec_error_code(*self),
            match (r.description, spec_error_description(*self)) {
                (Option::Some(d), Option::Some(s)) => d@ == s,
                (Option::None, Option::None) => true,
                _ => false,
            },
            r.error_type == *self,
    {
        match self {
            ErrorType::UserNotFound(s) => ErrorObject {
                code: "E101".to_owned(),
                description: Option::Some(s.clone()),
                error_type: ErrorType::UserNotFound(s.clone()),
            },
            ErrorType::AuthError(s) => ErrorObject {
                code: "E102".to_owned(),
                description: Option::Some(s.clone()),
                error_type: ErrorType::AuthError(s.clone()),
            },
            ErrorType::RoleNotFound(s) => ErrorObject {
                code: "E103".to_owned(),
                description: Option::Some(s.clone()),
                error_type: ErrorType::RoleNotFound(s.clone()),
            },
            ErrorType::EntityNotFound(s) => ErrorObject {
                code: "E104".to_owned(),
                description: Option::Some(s.clone()),
                error_type: ErrorType::EntityNotFound(s.clone()),
            },
            ErrorType::Unknown(s) => ErrorObject {
                code: "E105".to_owned(),
                description: Option::None,
                error_type: ErrorType::Unknown(s.clone()),
            },
            ErrorType::DBInitError => ErrorObject {
                code: "E105".to_owned(),
                description: Option::None,
                error_type: ErrorType::DBInitError,
            },
            ErrorType::DBError(s) => ErrorObject {
                code: "E105".to_owned(),
                description: Option::None,
                error_type: ErrorType::DBError(s.clone()),
            },
            ErrorType::InvalidInput(s) => ErrorObject {
                code: "E106".to_owned(),
                description: Option::Some(s.clone()),
                error_type: ErrorType::InvalidInput(s.clone()),
            },
            ErrorType::EmailAlreadyTaken(s) => ErrorObject {
                code: "E106".to_owned(),
                description: Option::Some(s.clone()),
                error_type: ErrorType::EmailAlreadyTaken(s.clone()),
            },
        }
    }
}

/// A wire-level error object together with the HTTP status it is served
/// with.
#[derive(Debug)]
pub struct HttpErrorObject {
    pub status_code: Option<u16>,
    pub error_object: ErrorObject,
}

impl HttpErrorObject {
    /// Attaches the HTTP status class of the underlying domain error.
    pub fn new(error_object: ErrorObject) -> (r: HttpErrorObject)
        ensures
            r.status_code == Option::Some(spec_error_status(error_object.error_type)),
            r.error_object == error_object,
    {
        let status_code: u16 = match &error_object.error_type {
            ErrorType::UserNotFound(_) => 400,
            ErrorType::AuthError(_) => 401,
            ErrorType::RoleNotFound(_) => 401,
            ErrorType::EntityNotFound(_) => 400,
            ErrorType::Unknown(_) => 500,
            ErrorType::DBInitError => 500,
            ErrorType::DBError(_) => 500,
            ErrorType::InvalidInput(_) => 400,
            ErrorType::EmailAlreadyTaken(_) => 400,
        };
        HttpErrorObject { status_code: Option::Some(status_code), error_object }
    }
}

/// A domain error paired with a free-form description.
#[derive(Debug)]
pub struct ErrorTypeInfo {
    pub error_type: ErrorType,
    pub description: String,
}

impl ErrorTypeInfo {
    /// Packs an error/description pair.
    pub fn new(info: (ErrorType, String)) -> (r: ErrorTypeInfo)
        ensures
            r.error_type == info.0,
            r.description == info.1,
    {
        ErrorTypeInfo { error_type: info.0, description: info.1 }
    }

    /// The uniform pipeline error carrying this pair.
    pub fn into_fn_error(self) -> (r: FnError<ErrorType>)
        ensures
            r.underlying_error == Option::Some(self.error_type),
            r.description == Option::Some(self.description),
            r.error_code is None,
    {
        FnError {
            underlying_error: Option::Some(self.error_type),
            description: Option::Some(self.description),
            error_code: Option::None,
        }
    }
}

/// The application-level error: a domain error and, when one exists,
/// the rendered message of the collaborator failure underneath it.
#[derive(Debug)]
pub struct AppError {
    pub error_type: ErrorType,
    pub underlying_error: Option<String>,
}

impl From<ErrorType> for AppError {
    fn from(value: ErrorType) -> (r: AppError) {
        AppError { error_type: value, underlying_error: Option::None }
    }
}

impl vstd::std_specs::convert::FromSpecImpl<ErrorType> for AppError {
    open spec fn obeys_from_spec() -> bool {
        true
    }

    open spec fn from_spec(value: ErrorType) -> Self {
        AppError { error_type: value, underlying_error: Option::None }
    }
}

impl From<ErrorType> for FnError<ErrorType> {
    fn from(value: ErrorType) -> (r: FnError<ErrorType>) {
        FnError {
            underlying_error: Option::Some(value),
            description: Option::None,
            error_code: Option::None,
        }
    }
}

impl vstd::std_specs::convert::FromSpecImpl<ErrorType> for FnError<ErrorType> {
    open spec fn obeys_from_spec() -> bool {
        true
    }

    open spec fn from_spec(value: ErrorType) -> Self {
        FnError {
            underlying_error: Option::Some(value),
            description: Option::None,
            error_code: Option::None,
        }
    }
}

/// A failure source whose variants can be compared by kind, ignoring
/// payloads, and rendered into a message.
pub trait ErrorKind {
    /// A number identifying the variant.
    spec fn kind_id(&self) -> int;

    /// The rendered message of this failure.
    spec fn spec_describe(&self) -> Seq<char>;

    /// Whether two failures are of the same variant, whatever their
    /// payloads.
    fn same_kind(&self, other: &Self) -> (r: bool)
        ensures
            r == (self.kind_id() == other.kind_id()),
    ;

    /// Renders this failure into a message.
    fn describe(&self) -> (r: String)
        ensures
            r@ == self.spec_describe(),
    ;
}

impl ErrorType {
    /// An equal copy of this error.
    pub fn duplicate(&self) -> (r: ErrorType)
        ensures
            r == *self,
    {
        match self {
            ErrorType::UserNotFound(s) => ErrorType::UserNotFound(s.clone()),
            ErrorType::AuthError(s) => ErrorType::AuthError(s.clone()),
            ErrorType::RoleNotFound(s) => ErrorType::RoleNotFound(s.clone()),
            ErrorType::EntityNotFound(s) => ErrorType::EntityNotFound(s.clone()),
            ErrorType::Unknown(s) => ErrorType::Unknown(s.clone()),
            ErrorType::DBInitError => ErrorType::DBInitError,
            ErrorType::DBError(s) => ErrorType::DBError(s.clone()),
            ErrorType::InvalidInput(s) => ErrorType::InvalidInput(s.clone()),
            ErrorType::EmailAlreadyTaken(s) => ErrorType::EmailAlreadyTaken(s.clone()),
        }
    }
}

impl ErrorKind for ErrorType {
    open spec fn kind_id(&self) -> int {
        match *self {
            ErrorType::UserNotFound(_) => 0,
            ErrorType::AuthError(_) => 1,
            ErrorType::RoleNotFound(_) => 2,
            ErrorType::EntityNotFound(_) => 3,
            ErrorType::Unknown(_) => 4,
            ErrorType::DBInitError => 5,
            ErrorType::DBError(_) => 6,
            ErrorType::InvalidInput(_) => 7,
            ErrorType::EmailAlreadyTaken(_) => 8,
        }
    }

    open spec fn spec_describe(&self) -> Seq<char> {
        match *self {
            ErrorType::UserNotFound(s) => "UserNotFound "@ + s@,
            ErrorType::AuthError(s) => "AuthError "@ + s@,
            ErrorType::RoleNotFound(s) => "RoleNotFound "@ + s@,
            ErrorType::EntityNotFound(s) => "EntityNotFound "@ + s@,
            ErrorType::Unknown(s) => "Unknown "@ + s@,
            ErrorType::DBInitError => "DBInitError"@,
            ErrorType::DBError(s) => "DBError "@ + s@,
            ErrorType::InvalidInput(s) => "InvalidInput "@ + s@,
            ErrorType::EmailAlreadyTaken(s) => "EmailAlreadyTaken "@ + s@,
        }
    }

    fn same_kind(&self, other: &Self) -> (r: bool) {
        let a: u8 = match self {
            ErrorType::UserNotFound(_) => 0,
            ErrorType::AuthError(_) => 1,
            ErrorType::RoleNotFound(_) => 2,
            ErrorType::EntityNotFound(_) => 3,
            ErrorType::Unknown(_) => 4,
            ErrorType::DBInitError => 5,
            ErrorType::DBError(_) => 6,
            ErrorType::InvalidInput(_) => 7,
            ErrorType::EmailAlreadyTaken(_) => 8,
        };
        let b: u8 = match other {
            ErrorType::UserNotFound(_) => 0,
            ErrorType::AuthError(_) => 1,
            ErrorType::RoleNotFound(_) => 2,
            ErrorType::EntityNotFound(_) => 3,
            ErrorType::Unknown(_) => 4,
            ErrorType::DBInitError => 5,
            ErrorType::DBError(_) => 6,
            ErrorType::InvalidInput(_) => 7,
            ErrorType::EmailAlreadyTaken(_) => 8,
        };
        a == b
    }

    fn describe(&self) -> (r: String) {
        let (prefix, payload): (&str, Option<&String>) = match self {
            ErrorType::UserNotFound(s) => ("UserNotFound ", Option::Some(s)),
            ErrorType::AuthError(s) => ("AuthError ", Option::Some(s)),
            ErrorType::RoleNotFound(s) => ("RoleNotFound ", Option::Some(s)),
            ErrorType::EntityNotFound(s) => ("EntityNotFound ", Option::Some(s)),
            ErrorType::Unknown(s) => ("Unknown ", Option::Some(s)),
            ErrorType::DBInitError => ("DBInitError", Option::None),
            ErrorType::DBError(s) => ("DBError ", Option::Some(s)),
            ErrorType::InvalidInput(s) => ("InvalidInput ", Option::Some(s)),
            ErrorType::EmailAlreadyTaken(s) => ("EmailAlreadyTaken ", Option::Some(s)),
        };
        match payload {
            Option::Some(s) => String::from_str(prefix).concat(s.as_str()),
            Option::None => String::from_str(prefix),
        }
    }
}

/// A database failure as the application's logic reads it: either the
/// lookup found nothing, or some other failure with its rendered
/// message.
#[derive(Debug)]
pub enum DbError {
    NotFound,
    Other(String),
}

impl ErrorKind for DbError {
    open spec fn kind_id(&self) -> int {
        match *self {
            DbError::NotFound => 0,
            DbError::Other(_) => 1,
        }
    }

    open spec fn spec_describe(&self) -> Seq<char> {
        match *self {
            DbError::NotFound => "record not found"@,
            DbError::Other(s) => s@,
        }
    }

    fn same_kind(&self, other: &Self) -> (r: bool) {
        match (self, other) {
            (DbError::NotFound, DbError::NotFound) => true,
            (DbError::Other(_), DbError::Other(_)) => true,
            _ => false,
        }
    }

    fn describe(&self) -> (r: String) {
        match self {
            DbError::NotFound => {
                proof {
                    reveal_strlit("record not found");
                }
                String::from_str("record not found")
            },
            DbError::Other(s) => s.clone(),
        }
    }
}

/// A table of failure kinds and the domain errors they convert to.
pub struct ErrorMapper<K, F> {
    pub error_map: Vec<(K, F)>,
}

/// The first entry of `entries` whose key is of the same kind as `id`.
pub open spec fn spec_find_kind<K: ErrorKind, F>(entries: Seq<(K, F)>, id: int) -> Option<(K, F)>
    decreases entries.len(),
{
    if entries.len() == 0 {
        Option::None
    } else if entries[0].0.kind_id() == id {
        Option::Some(entries[0])
    } else {
        spec_find_kind(entries.drop_first(), id)
    }
}

impl<K: ErrorKind, F: Fn() -> ErrorType> ErrorMapper<K, F> {
    /// An empty table.
    pub fn new() -> (r: ErrorMapper<K, F>)
        ensures
            r.error_map@.len() == 0,
    {
        ErrorMapper { error_map: Vec::new() }
    }

    /// Adds a failure kind and the domain error it converts to.
    pub fn add(&mut self, k: K, f: F)
        ensures
            final(self).error_map@ == old(self).error_map@.push((k, f)),
    {
        self.error_map.push((k, f));
    }

    /// The first entry whose key is of the same kind as `k`.
    pub fn get_error_type(&self, k: &K) -> (r: Option<&(K, F)>)
        ensures
            match r {
                Option::Some(entry) => spec_find_kind(self.error_map@, k.kind_id())
                    == Option::Some(*entry),
                Option::None => spec_find_kind(self.error_map@, k.kind_id()) is None,
            },
    {
        let mut i: usize = 0;
        proof {
            assert(self.error_map@.skip(0) =~= self.error_map@);
        }
        while i < self.error_map.len()
            invariant
                i <= self.error_map@.len(),
                spec_find_kind(self.error_map@, k.kind_id()) == spec_find_kind(
                    self.error_map@.skip(i as int),
                    k.kind_id(),
                ),
            decreases self.error_map@.len() - i,
        {
            proof {
                assert(self.error_map@.skip(i as int).drop_first() =~= self.error_map@.skip(
                    i as int + 1,
                ));
                assert(self.error_map@.skip(i as int)[0] == self.error_map@[i as int]);
            }
            if self.error_map[i].0.same_kind(k) {
                return Option::Some(&self.error_map[i]);
            }
            i = i + 1;
        }
        proof {
            assert(self.error_map@.skip(self.error_map@.len() as int) =~= Seq::<(K, F)>::empty());
        }
        Option::None
    }
}

/// Converts a collaborator failure into an application error: the
/// domain error registered for its kind, or an unclassified error
/// carrying the failure's rendered message when no kind matches.
pub fn convert_to_app_error<K: ErrorKind, F: Fn() -> ErrorType>(e: &ErrorMapper<K, F>, err: K) -> (
    r: AppError)
    requires
        forall|j: int| 0 <= j < e.error_map@.len() ==> call_requires(e.error_map@[j].1, ()),
    ensures
        r.underlying_error is None,
        match spec_find_kind(e.error_map@, err.kind_id()) {
            Option::Some(entry) => call_ensures(entry.1, (), r.error_type),
            Option::None => r.error_type matches ErrorType::Unknown(m) && m@
                == err.spec_describe(),
        },
{
    let matching = e.get_error_type(&err);
    match matching {
        Option::Some(entry) => {
            proof {
                lemma_find_kind_is_entry(e.error_map@, err.kind_id());
            }
            let et = (entry.1)();
            AppError { error_type: et, underlying_error: Option::None }
        },
        Option::None => {
            AppError {
                error_type: ErrorType::Unknown(err.describe()),
                underlying_error: Option::None,
            }
        },
    }
}

/// Converts a collaborator failure into the uniform pipeline error, by
/// the same table rule.
pub fn convert_to_fn_error<K: ErrorKind, F: Fn() -> ErrorType>(e: &ErrorMapper<K, F>, err: K) -> (
    r: FnError<ErrorType>)
    requires
        forall|j: int| 0 <= j < e.error_map@.len() ==> call_requires(e.error_map@[j].1, ()),
    ensures
        r.error_code is None,
        r.description is None,
        r.underlying_error is Some,
        match spec_find_kind(e.error_map@, err.kind_id()) {
            Option::Some(entry) => call_ensures(entry.1, (), r.underlying_error->0),
            Option::None => r.underlying_error->0 matches ErrorType::Unknown(m) && m@
                == err.spec_describe(),
        },
{
    let matching = e.get_error_type(&err);
    let error_type = match matching {
        Option::Some(entry) => {
            proof {
                lemma_find_kind_is_entry(e.error_map@, err.kind_id());
            }
            (entry.1)()
        },
        Option::None => ErrorType::Unknown(err.describe()),
    };
    FnError {
        underlying_error: Option::Some(error_type),
        description: Option::None,
        error_code: Option::None,
    }
}

/// An entry found by kind is an entry of the table.
proof fn lemma_find_kind_is_entry<K: ErrorKind, F>(entries: Seq<(K, F)>, id: int)
    ensures
        match spec_find_kind(entries, id) {
            Option::Some(entry) => exists|j: int|
                0 <= j < entries.len() && entries[j] == entry,
            Option::None => true,
        },
    decreases entries.len(),
{
    if entries.len() > 0 && entries[0].0.kind_id() != id {
        lemma_find_kind_is_entry(entries.drop_first(), id);
        if spec_find_kind(entries, id) is Some {
            let entry = spec_find_kind(entries.drop_first(), id)->0;
            let j = choose|j: int|
                0 <= j < entries.drop_first().len() && entries.drop_first()[j] == entry;
            assert(entries[j + 1] == entry);
        }
    }
}

/// Adapts a collaborator result, whose failure is already rendered into
/// a message, to an application result.
pub trait ToAppResult<T>: Sized {
    /// The same result, with the failure wrapped as an unclassified
    /// application error.
    fn to_app_result(self) -> (r: Result<T, AppError>);
}

impl<T> ToAppResult<T> for Result<T, String> {
    fn to_app_result(self) -> (r: Result<T, AppError>)
        ensures
            self is Ok ==> r is Ok && r->Ok_0 == self->Ok_0,
            self is Err ==> r is Err && (r->Err_0.error_type matches ErrorType::Unknown(m) && m
                == self->Err_0) && r->Err_0.underlying_error == Option::Some(self->Err_0),
    {
        match self {
            Result::Ok(v) => Result::Ok(v),
            Result::Err(e) => {
                let msg = e.clone();
                Result::Err(AppError {
                    error_type: ErrorType::Unknown(e),
                    underlying_error: Option::Some(msg),
                })
            },
        }
    }
}

/// The wire-level object a failed pipeline renders to: the domain error
/// underneath, or the unclassified object when none was recorded.
pub fn map_to_error_object(e: FnError<ErrorType>) -> (r: ErrorObject)
    ensures
        match e.underlying_error {
            Option::Some(et) => {
                &&& r.code@ == spec_error_code(et)
                &&& r.error_type == et
            },
            Option::None => {
                &&& r.code@ == "E105"@
                &&& r.error_type matches ErrorType::Unknown(m) && m@ == Seq::<char>::empty()
            },
        },
{
    match e.underlying_error {
        Option::Some(et) => et.to_error_object(),
        Option::None => ErrorObject::new(
            "E105".to_owned(),
            Option::None,
            ErrorType::Unknown(String::new()),
        ),
    }
}

/// Classifies a database failure: a missed lookup becomes the supplied
/// domain error, anything else an unclassified error with its message.
pub fn map_result_not_found_error(error_type: &ErrorType, error: DbError) -> (r: FnError<
    ErrorType,
>)
    ensures
        r.error_code is None,
        r.description is None,
        error is NotFound ==> r.underlying_error == Option::Some(*error_type),
        error matches DbError::Other(m) ==> r.underlying_error matches Option::Some(
            ErrorType::Unknown(u),
        ) && u == m,
{
    let et = match error {
        DbError::NotFound => error_type.duplicate(),
        DbError::Other(m) => ErrorType::Unknown(m),
    };
    FnError { underlying_error: Option::Some(et), description: Option::None, error_code: Option::None }
}

/// Wraps an already-rendered collaborator failure as the unclassified
/// pipeline error.
pub fn map_to_unknown_error(message: String) -> (r: FnError<ErrorType>)
    ensures
        r.underlying_error == Option::Some(ErrorType::Unknown(message)),
        r.description is None,
        r.error_code is None,
{
    FnError {
        underlying_error: Option::Some(ErrorType::Unknown(message)),
        description: Option::None,
        error_code: Option::None,
    }
}

} // verus!
