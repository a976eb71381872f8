use vstd::prelude::*;
use vstd::string::*;

use super::response::Response;

verus! {

/// The HTTP statuses that the service answers with.
#[derive(Clone, Copy, Debug, PartialEq, Eq, Structural)]
pub enum HttpStatus {
    BadRequest,
    Unauthorized,
    Forbidden,
    NotFound,
    MethodNotAllowed,
    Conflict,
    Locked,
    InternalServerError,
}

impl HttpStatus {
    /// The three-digit number of the status.
    pub open spec fn number(self) -> u16 {
        match self {
            HttpStatus::BadRequest => 400,
            HttpStatus::Unauthorized => 401,
            HttpStatus::Forbidden => 403,
            HttpStatus::NotFound => 404,
            HttpStatus::MethodNotAllowed => 405,
            HttpStatus::Conflict => 409,
            HttpStatus::Locked => 423,
            HttpStatus::InternalServerError => 500,
        }
    }

    /// The three-digit number of the status.
    pub fn as_u16(&self) -> (n: u16)
        ensures
            n == self.number(),
    {
        match self {
            HttpStatus::BadRequest => 400,
            HttpStatus::Unauthorized => 401,
            HttpStatus::Forbidden => 403,
            HttpStatus::NotFound => 404,
            HttpStatus::MethodNotAllowed => 405,
            HttpStatus::Conflict => 409,
            HttpStatus::Locked => 423,
            HttpStatus::InternalServerError => 500,
        }
    }
}

/// Why a request could not be authenticated.
#[derive(Clone, Copy, Debug, PartialEq, Eq, Structural)]
pub enum AuthenticateError {
    IncorrectEmailLogin,
    GenerateToken,
    InvalidToken,
    MissingToken,
    Locked,
}

impl AuthenticateError {
    pub open spec fn status(self) -> HttpStatus {
        match self {
            AuthenticateError::MissingToken => HttpStatus::Unauthorized,
            AuthenticateError::InvalidToken => HttpStatus::Unauthorized,
            AuthenticateError::GenerateToken => HttpStatus::Unauthorized,
            AuthenticateError::IncorrectEmailLogin => HttpStatus::BadRequest,
            AuthenticateError::Locked => HttpStatus::Locked,
        }
    }

    pub open spec fn code(self) -> u16 {
        match self {
            AuthenticateError::MissingToken => 20101,
            AuthenticateError::InvalidToken => 20102,
            AuthenticateError::GenerateToken => 20103,
            AuthenticateError::IncorrectEmailLogin => 20104,
            AuthenticateError::Locked => 20105,
        }
    }

    pub open spec fn text(self) -> Seq<char> {
        match self {
            AuthenticateError::IncorrectEmailLogin => "Incorrect email or password"@,
            AuthenticateError::GenerateToken => "Failed to generate access token"@,
            AuthenticateError::InvalidToken => "Invalid access token"@,
            AuthenticateError::MissingToken => "Missing access token"@,
            AuthenticateError::Locked => "Uer is locked"@,
        }
    }

    /// The sentence shown to the client.
    pub fn message(&self) -> (s: String)
        ensures
            s@ == self.text(),
    {
        match self {
            AuthenticateError::IncorrectEmailLogin => String::from_str("Incorrect email or password"),
            AuthenticateError::GenerateToken => String::from_str("Failed to generate access token"),
            AuthenticateError::InvalidToken => String::from_str("Invalid access token"),
            AuthenticateError::MissingToken => String::from_str("Missing access token"),
            AuthenticateError::Locked => String::from_str("Uer is locked"),
        }
    }
}

/// What went wrong with a user account.
#[derive(Debug, Clone, PartialEq, Eq)]
pub enum UserError {
    UserNotFound,
    /// Holds the address that is already taken.
    EmailAlreadyRegistered(String),
}

/// A `UserError` with its text as a sequence of characters.
pub enum UserErrorView {
    UserNotFound,
    EmailAlreadyRegistered(Seq<char>),
}

impl View for UserError {
    type V = UserErrorView;

    open spec fn view(&self) -> UserErrorView {
        match self {
            UserError::UserNotFound => UserErrorView::UserNotFound,
            UserError::EmailAlreadyRegistered(email) => UserErrorView::EmailAlreadyRegistered(
                email@,
            ),
        }
    }
}

impl UserErrorView {
    pub open spec fn status(self) -> HttpStatus {
        match self {
            UserErrorView::UserNotFound => HttpStatus::NotFound,
            UserErrorView::EmailAlreadyRegistered(_) => HttpStatus::Conflict,
        }
    }

    pub open spec fn code(self) -> u16 {
        match self {
            UserErrorView::UserNotFound => 20201,
            UserErrorView::EmailAlreadyRegistered(_) => 20202,
        }
    }

    pub open spec fn text(self) -> Seq<char> {
        match self {
            UserErrorView::UserNotFound => "User not found"@,
            UserErrorView::EmailAlreadyRegistered(email) => "Email `"@ + email
                + "` already registered"@,
        }
    }
}

impl UserError {
    /// The sentence shown to the client.
    pub fn message(&self) -> (s: String)
        ensures
            s@ == self@.text(),
    {
        match self {
            UserError::UserNotFound => String::from_str("User not found"),
            UserError::EmailAlreadyRegistered(email) => String::from_str("Email `").concat(
                email.as_str(),
            ).concat("` already registered"),
        }
    }
}

/// A field rule that a request broke: the rule's code and the sentence that
/// describes the breach.
#[derive(Debug, Clone, PartialEq, Eq)]
pub struct Violation {
    pub code: String,
    pub message: String,
}

/// A `Violation` with its texts as sequences of characters.
pub struct ViolationView {
    pub code: Seq<char>,
    pub message: Seq<char>,
}

impl View for Violation {
    type V = ViolationView;

    open spec fn view(&self) -> ViolationView {
        ViolationView { code: self.code@, message: self.message@ }
    }
}

/// Every way in which a request can fail.
#[derive(Debug, Clone, PartialEq, Eq)]
pub enum ApiError {
    Internal,
    ApiNotFound,
    UnsupportedHTTPMethod,
    InvalidJSONBody,
    /// Holds the reason for which the parameter is invalid.
    InvalidParameter(String),
    /// Holds the name of the parameter that is missing.
    MissingParameter(String),
    Validation(Violation),
    /// Holds the reason for which access is forbidden.
    Forbidden(String),
    /// Holds the storage layer's own description of the fault. It is kept
    /// for the log and never shown to a client.
    Sqlx(String),
    Authenticate(AuthenticateError),
    User(UserError),
}

/// An `ApiError` with its texts as sequences of characters.
pub enum ApiErrorView {
    Internal,
    ApiNotFound,
    UnsupportedHTTPMethod,
    InvalidJSONBody,
    InvalidParameter(Seq<char>),
    MissingParameter(Seq<char>),
    Validation(ViolationView),
    Forbidden(Seq<char>),
    Sqlx(Seq<char>),
    Authenticate(AuthenticateError),
    User(UserErrorView),
}

impl View for ApiError {
    type V = ApiErrorView;

    open spec fn view(&self) -> ApiErrorView {
        match self {
            ApiError::Internal => ApiErrorView::Internal,
            ApiError::ApiNotFound => ApiErrorView::ApiNotFound,
            ApiError::UnsupportedHTTPMethod => ApiErrorView::UnsupportedHTTPMethod,
            ApiError::InvalidJSONBody => ApiErrorView::InvalidJSONBody,
            ApiError::InvalidParameter(reason) => ApiErrorView::InvalidParameter(reason@),
            ApiError::MissingParameter(name) => ApiErrorView::MissingParameter(name@),
            ApiError::Validation(violation) => ApiErrorView::Validation(violation@),
            ApiError::Forbidden(reason) => ApiErrorView::Forbidden(reason@),
            ApiError::Sqlx(fault) => ApiErrorView::Sqlx(fault@),
            ApiError::Authenticate(err) => ApiErrorView::Authenticate(*err),
            ApiError::User(err) => ApiErrorView::User(err@),
        }
    }
}

impl ApiErrorView {
    /// The HTTP status that the error is answered with.
    pub open spec fn status(self) -> HttpStatus {
        match self {
            ApiErrorView::Internal => HttpStatus::InternalServerError,
            ApiErrorView::ApiNotFound => HttpStatus::NotFound,
            ApiErrorView::UnsupportedHTTPMethod => HttpStatus::MethodNotAllowed,
            ApiErrorView::InvalidJSONBody => HttpStatus::BadRequest,
            ApiErrorView::InvalidParameter(_) => HttpStatus::BadRequest,
            ApiErrorView::MissingParameter(_) => HttpStatus::BadRequest,
            ApiErrorView::Validation(_) => HttpStatus::BadRequest,
            ApiErrorView::Forbidden(_) => HttpStatus::Forbidden,
            ApiErrorView::Sqlx(_) => HttpStatus::InternalServerError,
            ApiErrorView::Authenticate(err) => err.status(),
            ApiErrorView::User(err) => err.status(),
        }
    }

    /// The application's own number of the error.
    pub open spec fn code(self) -> u16 {
        match self {
            ApiErrorView::Internal => 10001,
            ApiErrorView::ApiNotFound => 10002,
            ApiErrorView::UnsupportedHTTPMethod => 10003,
            ApiErrorView::InvalidJSONBody => 10004,
            ApiErrorView::InvalidParameter(_) => 10005,
            ApiErrorView::MissingParameter(_) => 10006,
            ApiErrorView::Validation(_) => 10007,
            ApiErrorView::Forbidden(_) => 10007,
            ApiErrorView::Sqlx(_) => 10008,
            ApiErrorView::Authenticate(err) => err.code(),
            ApiErrorView::User(err) => err.code(),
        }
    }

    /// The sentence shown to the client. For a fault of storage it is one
    /// fixed sentence, whatever storage said.
    pub open spec fn text(self) -> Seq<char> {
        match self {
            ApiErrorView::Internal => "The request processing has failed due to some unknown error"@,
            ApiErrorView::ApiNotFound => "Specified api is not found, please check your url and method"@,
            ApiErrorView::UnsupportedHTTPMethod => "Specified signature is not matched with our calculation"@,
            ApiErrorView::InvalidJSONBody => "Invalid JSON body"@,
            ApiErrorView::InvalidParameter(reason) => reason,
            ApiErrorView::MissingParameter(name) => "The "@ + name
                + " is mandatory for this action"@,
            ApiErrorView::Validation(violation) => violation.message,
            ApiErrorView::Forbidden(reason) => reason,
            ApiErrorView::Sqlx(_) => "The request processing has failed due to a storage error"@,
            ApiErrorView::Authenticate(err) => err.text(),
            ApiErrorView::User(err) => err.text(),
        }
    }
}

impl ApiError {
    /// The HTTP status and the application's number of the error.
    pub fn get_codes(&self) -> (codes: (HttpStatus, u16))
        ensures
            codes.0 == self@.status(),
            codes.1 == self@.code(),
    {
        match self {
            Self::Internal => (HttpStatus::InternalServerError, 10001),
            Self::ApiNotFound => (HttpStatus::NotFound, 10002),
            Self::UnsupportedHTTPMethod => (HttpStatus::MethodNotAllowed, 10003),
            Self::InvalidJSONBody => (HttpStatus::BadRequest, 10004),
            Self::InvalidParameter(_) => (HttpStatus::BadRequest, 10005),
            Self::MissingParameter(_) => (HttpStatus::BadRequest, 10006),
            Self::Validation(_) => (HttpStatus::BadRequest, 10007),
            Self::Forbidden(_) => (HttpStatus::Forbidden, 10007),
            Self::Sqlx(_) => (HttpStatus::InternalServerError, 10008),
            Self::Authenticate(auth_err) => match auth_err {
                AuthenticateError::MissingToken => (HttpStatus::Unauthorized, 20101),
                AuthenticateError::InvalidToken => (HttpStatus::Unauthorized, 20102),
                AuthenticateError::GenerateToken => (HttpStatus::Unauthorized, 20103),
                AuthenticateError::IncorrectEmailLogin => (HttpStatus::BadRequest, 20104),
                AuthenticateError::Locked => (HttpStatus::Locked, 20105),
            },
            Self::User(user_err) => match user_err {
                UserError::UserNotFound => (HttpStatus::NotFound, 20201),
                UserError::EmailAlreadyRegistered(_) => (HttpStatus::Conflict, 20202),
            },
        }
    }

    /// The sentence shown to the client.
    pub fn message(&self) -> (s: String)
        ensures
            s@ == self@.text(),
    {
        match self {
            Self::Internal => String::from_str(
                "The request processing has failed due to some unknown error",
            ),
            Self::ApiNotFound => String::from_str(
                "Specified api is not found, please check your url and method",
            ),
            Self::UnsupportedHTTPMethod => String::from_str(
                "Specified signature is not matched with our calculation",
            ),
            Self::InvalidJSONBody => String::from_str("Invalid JSON body"),
            Self::InvalidParameter(reason) => reason.clone(),
            Self::MissingParameter(name) => String::from_str("The ").concat(name.as_str()).concat(
                " is mandatory for this action",
            ),
            Self::Validation(violation) => violation.message.clone(),
            Self::Forbidden(reason) => reason.clone(),
            Self::Sqlx(_) => String::from_str(
                "The request processing has failed due to a storage error",
            ),
            Self::Authenticate(err) => err.message(),
            Self::User(err) => err.message(),
        }
    }

    /// The reply to the client: the status and an envelope with the error's
    /// number and sentence, and no payload.
    pub fn into_response(self) -> (reply: (HttpStatus, Response<i32>))
        ensures
            reply.0 == self@.status(),
            reply.1.code == self@.code(),
            reply.1.message@ == self@.text(),
            reply.1.data is None,
    {
        let (status_code, err_code) = self.get_codes();
        let message = self.message();
        (status_code, Response::new(err_code, message, None))
    }
}

/// Two faults of storage are answered alike, whatever storage said of each:
/// the same status, the same number, the same sentence.
pub proof fn lemma_storage_faults_are_answered_alike(first: Seq<char>, second: Seq<char>)
    ensures
        ApiErrorView::Sqlx(first).status() == ApiErrorView::Sqlx(second).status(),
        ApiErrorView::Sqlx(first).code() == ApiErrorView::Sqlx(second).code(),
        ApiErrorView::Sqlx(first).text() == ApiErrorView::Sqlx(second).text(),
        ApiErrorView::Sqlx(first).status().number() == 500,
        ApiErrorView::Sqlx(first).code() == 10008,
{
}

/// An error of the caller's input (a malformed body, an invalid or missing
/// parameter, a broken field rule) is answered with a status from 400 to 499.
pub proof fn lemma_input_errors_are_client_errors(err: ApiErrorView)
    requires
        err is InvalidJSONBody || err is InvalidParameter || err is MissingParameter
            || err is Validation,
    ensures
        400 <= err.status().number() <= 499,
{
}

/// No error has the number zero, which is kept for success.
pub proof fn lemma_error_code_is_nonzero(err: ApiErrorView)
    ensures
        err.code() != 0,
{
}

/// The number of an error tells which HTTP status goes with it, except for
/// 10007, which both a broken field rule and a forbidden request carry.
pub proof fn lemma_code_determines_status(a: ApiErrorView, b: ApiErrorView)
    requires
        a.code() == b.code(),
        a.code() != 10007,
    ensures
        a.status() == b.status(),
{
}

} // verus!
