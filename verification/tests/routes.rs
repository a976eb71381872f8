use aksumer_api::error::api_error::ApiError;
use aksumer_api::handler::not_found::not_found_handler;
use aksumer_api::routes::{auth_required_handler, resolve, root_handler, Route};
use aksumer_api::utils::jwt::{Claims, Payload};

#[test]
fn defined_routes_reach_their_handlers() {
    assert_eq!(resolve("GET", "/"), Ok(Route::Root));
    assert_eq!(resolve("POST", "/login"), Ok(Route::Login));
    assert_eq!(resolve("POST", "/register"), Ok(Route::Register));
    assert_eq!(resolve("GET", "/auth-required"), Ok(Route::AuthRequired));
}

#[test]
fn undefined_routes_are_not_found() {
    let requests = [
        ("GET", "/nothing"),
        ("GET", ""),
        ("POST", "/"),
        ("GET", "/login"),
        ("GET", "/register"),
        ("POST", "/auth-required"),
        ("PUT", "/login"),
        ("DELETE", "/register"),
        ("get", "/"),
        ("GET", "/login/"),
        ("POST", "/Login"),
        ("POST", "/login?x=1"),
        ("", "/"),
        ("GET", "//"),
        ("GET", "/auth-require"),
        ("GET", "/auth-requiredx"),
        ("GET", "/áuth-required"),
    ];
    for (method, path) in requests {
        assert_eq!(resolve(method, path), Err(ApiError::ApiNotFound), "{} {}", method, path);
    }
}

#[test]
fn an_undefined_route_is_answered_with_api_not_found() {
    let err = resolve("GET", "/undefined").unwrap_err();
    assert_eq!(err, not_found_handler());
    let (status, envelope) = err.into_response();
    assert_eq!(status.as_u16(), 404);
    assert_eq!(envelope.code, 10002);
    assert_eq!(
        envelope.message,
        "Specified api is not found, please check your url and method"
    );
    assert_eq!(envelope.data, None);
}

#[test]
fn the_root_greets() {
    assert_eq!(root_handler(), "Hello, Askumer-API!");
}

#[test]
fn the_protected_route_answers_with_the_user() {
    let claims = Claims {
        exp: 20,
        iat: 10,
        payload: Payload { id: 3, username: "carol".to_string() },
    };
    assert_eq!(
        auth_required_handler(claims),
        Payload { id: 3, username: "carol".to_string() }
    );
}
