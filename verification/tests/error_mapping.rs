use aksumer_api::error::api_error::{
    ApiError, AuthenticateError, HttpStatus, UserError, Violation,
};
use aksumer_api::error::response::Response;
use aksumer_api::handler::not_found::not_found_handler;

fn every_error() -> Vec<ApiError> {
    vec![
        ApiError::Internal,
        ApiError::ApiNotFound,
        ApiError::UnsupportedHTTPMethod,
        ApiError::InvalidJSONBody,
        ApiError::InvalidParameter("page must be positive".to_string()),
        ApiError::MissingParameter("email".to_string()),
        ApiError::Validation(Violation {
            code: "length".to_string(),
            message: "The username must be between 5 to 12".to_string(),
        }),
        ApiError::Forbidden("not yours".to_string()),
        ApiError::Sqlx("pool timed out".to_string()),
        ApiError::Authenticate(AuthenticateError::MissingToken),
        ApiError::Authenticate(AuthenticateError::InvalidToken),
        ApiError::Authenticate(AuthenticateError::GenerateToken),
        ApiError::Authenticate(AuthenticateError::IncorrectEmailLogin),
        ApiError::Authenticate(AuthenticateError::Locked),
        ApiError::User(UserError::UserNotFound),
        ApiError::User(UserError::EmailAlreadyRegistered("a@b.co".to_string())),
    ]
}

#[test]
fn undefined_route_error_has_its_fixed_number() {
    let err = not_found_handler();
    assert_eq!(err, ApiError::ApiNotFound);
    let (status, code) = err.get_codes();
    assert_eq!(status, HttpStatus::NotFound);
    assert_eq!(status.as_u16(), 404);
    assert_eq!(code, 10002);
    assert_eq!(
        err.message(),
        "Specified api is not found, please check your url and method"
    );
}

#[test]
fn each_error_has_its_status_and_number() {
    let expected: Vec<(u16, u16)> = vec![
        (500, 10001),
        (404, 10002),
        (405, 10003),
        (400, 10004),
        (400, 10005),
        (400, 10006),
        (400, 10007),
        (403, 10007),
        (500, 10008),
        (401, 20101),
        (401, 20102),
        (401, 20103),
        (400, 20104),
        (423, 20105),
        (404, 20201),
        (409, 20202),
    ];
    let errors = every_error();
    assert_eq!(errors.len(), expected.len());
    for (err, (status, code)) in errors.iter().zip(expected) {
        let codes = err.get_codes();
        assert_eq!((codes.0.as_u16(), codes.1), (status, code), "{:?}", err);
    }
}

#[test]
fn each_error_has_its_sentence() {
    let expected = vec![
        "The request processing has failed due to some unknown error",
        "Specified api is not found, please check your url and method",
        "Specified signature is not matched with our calculation",
        "Invalid JSON body",
        "page must be positive",
        "The email is mandatory for this action",
        "The username must be between 5 to 12",
        "not yours",
        "The request processing has failed due to a storage error",
        "Missing access token",
        "Invalid access token",
        "Failed to generate access token",
        "Incorrect email or password",
        "Uer is locked",
        "User not found",
        "Email `a@b.co` already registered",
    ];
    let errors = every_error();
    assert_eq!(errors.len(), expected.len());
    for (err, sentence) in errors.iter().zip(expected) {
        assert_eq!(err.message(), sentence, "{:?}", err);
    }
}

#[test]
fn sub_errors_speak_for_themselves() {
    assert_eq!(
        AuthenticateError::IncorrectEmailLogin.message(),
        "Incorrect email or password"
    );
    assert_eq!(
        UserError::EmailAlreadyRegistered("x@y.zz".to_string()).message(),
        "Email `x@y.zz` already registered"
    );
    assert_eq!(UserError::UserNotFound.message(), "User not found");
}

#[test]
fn every_status_has_its_number() {
    let all = [
        (HttpStatus::BadRequest, 400),
        (HttpStatus::Unauthorized, 401),
        (HttpStatus::Forbidden, 403),
        (HttpStatus::NotFound, 404),
        (HttpStatus::MethodNotAllowed, 405),
        (HttpStatus::Conflict, 409),
        (HttpStatus::Locked, 423),
        (HttpStatus::InternalServerError, 500),
    ];
    for (status, number) in all {
        assert_eq!(status.as_u16(), number);
    }
}

#[test]
fn an_error_becomes_an_envelope_without_payload() {
    let err = ApiError::User(UserError::EmailAlreadyRegistered("a@b.co".to_string()));
    let (status, envelope) = err.into_response();
    assert_eq!(status, HttpStatus::Conflict);
    assert_eq!(
        envelope,
        Response {
            code: 20202,
            message: "Email `a@b.co` already registered".to_string(),
            data: None,
        }
    );
}

#[test]
fn no_error_envelope_has_the_number_zero_or_a_payload() {
    for err in every_error() {
        let (_, envelope) = err.into_response();
        assert_ne!(envelope.code, 0);
        assert!(envelope.data.is_none());
    }
}

#[test]
fn storage_faults_are_answered_alike() {
    let first = ApiError::Sqlx("Access denied for user 'root'@'10.0.0.7'".to_string());
    let second = ApiError::Sqlx("pool timed out while waiting for an open connection".to_string());
    let (first_status, first_envelope) = first.into_response();
    let (second_status, second_envelope) = second.into_response();
    assert_eq!(first_status, HttpStatus::InternalServerError);
    assert_eq!(first_status, second_status);
    assert_eq!(first_envelope, second_envelope);
    assert_eq!(
        first_envelope,
        Response {
            code: 10008,
            message: "The request processing has failed due to a storage error".to_string(),
            data: None,
        }
    );
}

#[test]
fn input_errors_are_client_errors() {
    let errors = vec![
        ApiError::InvalidJSONBody,
        ApiError::InvalidParameter("page".to_string()),
        ApiError::MissingParameter("email".to_string()),
        ApiError::Validation(Violation { code: "email".to_string(), message: String::new() }),
    ];
    for err in errors {
        let status = err.get_codes().0.as_u16();
        assert!((400..500).contains(&status), "{:?}", err);
    }
    let missing = ApiError::MissingParameter("email".to_string());
    assert_eq!(missing.get_codes(), (HttpStatus::BadRequest, 10006));
}

#[test]
fn an_envelope_keeps_its_parts() {
    let envelope = Response::new(0, "ok".to_string(), Some(41u8));
    assert_eq!(envelope.code, 0);
    assert_eq!(envelope.message, "ok");
    assert_eq!(envelope.data, Some(41));
    let empty: Response<u8> = Response::new(7, String::new(), None);
    assert_eq!(empty.code, 7);
    assert_eq!(empty.data, None);
}
