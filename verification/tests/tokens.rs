use aksumer_api::config::Auth;
use aksumer_api::error::api_error::{ApiError, AuthenticateError};
use aksumer_api::utils::jwt::{
    decode, decode_at, generate, generate_at, signing_outcome, Claims, Payload,
};

const NOW: i64 = 1_700_000_000;

fn auth(secret: &str, expire: u64) -> Auth {
    Auth { secret: secret.to_string(), expire }
}

fn alice() -> Payload {
    Payload { id: 7, username: "alice".to_string() }
}

#[test]
fn a_token_is_the_signed_claims() {
    let token = generate_at(alice(), &auth("aksumer-api", 36000), NOW).unwrap();
    assert_eq!(
        token,
        "eyJ0eXAiOiJKV1QiLCJhbGciOiJIUzI1NiJ9.\
         eyJleHAiOjE3MDAwMzYwMDAsImlhdCI6MTcwMDAwMDAwMCwicGF5bG9hZCI6eyJpZCI6NywidXNlcm5hbWUiOiJhbGljZSJ9fQ.\
         8DaN7c-xi00vhduhcZjnh-DQvKXAyTKhuPUMdZbG5Y4"
    );
    let other = generate_at(Payload { id: 1, username: "bob".to_string() }, &auth("secret-a", 10), 1000)
        .unwrap();
    assert_eq!(
        other,
        "eyJ0eXAiOiJKV1QiLCJhbGciOiJIUzI1NiJ9.\
         eyJleHAiOjEwMTAsImlhdCI6MTAwMCwicGF5bG9hZCI6eyJpZCI6MSwidXNlcm5hbWUiOiJib2IifX0.\
         VKWrH32_vSFbEMV06MoY4pyp_0urYFjAuoz0FrrC6nU"
    );
}

#[test]
fn decoded_expiry_is_issue_time_plus_lifetime() {
    for lifetime in [1u64, 60, 36000, 315_360_000] {
        let settings = auth("aksumer-api", lifetime);
        let token = generate_at(alice(), &settings, NOW).unwrap();
        let claims = decode_at(&token, "aksumer-api", NOW).unwrap();
        assert_eq!(claims.iat, NOW as usize);
        assert_eq!(claims.exp, claims.iat + lifetime as usize);
        assert!(claims.iat < claims.exp);
        assert_eq!(claims.payload, alice());
    }
}

#[test]
fn a_lifetime_of_zero_issues_no_token() {
    let never = auth("aksumer-api", 0);
    assert_eq!(generate_at(alice(), &never, NOW), Err(AuthenticateError::GenerateToken));
    assert_eq!(generate_at(alice(), &never, 0), Err(AuthenticateError::GenerateToken));
    assert_eq!(generate(alice(), &never), Err(AuthenticateError::GenerateToken));
    assert_eq!(Claims::issue(alice(), NOW, 0), None);
    assert_eq!(Claims::issue(alice(), 0, 0), None);
    assert!(generate_at(alice(), &auth("aksumer-api", 1), NOW).is_ok());
}

#[test]
fn a_token_signed_with_one_secret_fails_under_another() {
    let token = generate_at(alice(), &auth("secret-a", 36000), NOW).unwrap();
    assert!(decode_at(&token, "secret-a", NOW).is_ok());
    assert_eq!(decode_at(&token, "secret-b", NOW), Err(AuthenticateError::InvalidToken));
    assert_eq!(decode_at(&token, "", NOW), Err(AuthenticateError::InvalidToken));
    assert_eq!(decode_at(&token, "secret-a ", NOW), Err(AuthenticateError::InvalidToken));
}

#[test]
fn an_expired_token_is_invalid() {
    let settings = auth("aksumer-api", 10);
    let token = generate_at(alice(), &settings, 1000).unwrap();
    assert!(decode_at(&token, "aksumer-api", 1000).is_ok());
    assert!(decode_at(&token, "aksumer-api", 1010).is_ok());
    assert_eq!(decode_at(&token, "aksumer-api", 1011), Err(AuthenticateError::InvalidToken));
    assert_eq!(decode_at(&token, "aksumer-api", NOW), Err(AuthenticateError::InvalidToken));
    // Against the clock of this machine, the year 1970 is long past.
    assert_eq!(decode(&token, "aksumer-api"), Err(AuthenticateError::InvalidToken));
}

#[test]
fn a_fresh_token_is_valid_by_the_clock() {
    let settings = auth("aksumer-api", 36000);
    let token = generate(alice(), &settings).unwrap();
    let claims = decode(&token, "aksumer-api").unwrap();
    assert_eq!(claims.exp, claims.iat + 36000);
    assert!(claims.iat > NOW as usize);
    assert_eq!(claims.payload, alice());
    assert_eq!(decode(&token, "another secret"), Err(AuthenticateError::InvalidToken));
}

#[test]
fn a_malformed_token_is_invalid() {
    let good = generate_at(alice(), &auth("aksumer-api", 36000), NOW).unwrap();
    let mut tampered = good.clone();
    tampered.pop();
    tampered.push(if good.ends_with('A') { 'B' } else { 'A' });
    let without_signature: String = good.rsplitn(2, '.').last().unwrap().to_string();
    for token in ["", "a.b.c", "not a token", "..", tampered.as_str(), without_signature.as_str()] {
        assert_eq!(
            decode_at(token, "aksumer-api", NOW),
            Err(AuthenticateError::InvalidToken),
            "{:?}",
            token
        );
    }
}

#[test]
fn a_signed_token_with_other_claims_is_invalid() {
    // {"exp":1700036000,"sub":"alice"} under the secret "aksumer-api"
    let header = "eyJ0eXAiOiJKV1QiLCJhbGciOiJIUzI1NiJ9";
    let claims = "eyJleHAiOjE3MDAwMzYwMDAsInN1YiI6ImFsaWNlIn0";
    let message = format!("{}.{}", header, claims);
    let signature = jsonwebtoken::crypto::sign(
        message.as_bytes(),
        &jsonwebtoken::EncodingKey::from_secret(b"aksumer-api"),
        jsonwebtoken::Algorithm::HS256,
    )
    .unwrap();
    let token = format!("{}.{}", message, signature);
    assert_eq!(decode_at(&token, "aksumer-api", NOW), Err(AuthenticateError::InvalidToken));
}

#[test]
fn times_that_do_not_fit_yield_no_token() {
    let settings = auth("aksumer-api", 36000);
    assert_eq!(generate_at(alice(), &settings, -1), Err(AuthenticateError::GenerateToken));
    assert_eq!(generate_at(alice(), &settings, i64::MIN), Err(AuthenticateError::GenerateToken));
    let forever = auth("aksumer-api", u64::MAX);
    assert_eq!(generate_at(alice(), &forever, 1), Err(AuthenticateError::GenerateToken));
    assert!(generate_at(alice(), &settings, 0).is_ok());
}

#[test]
fn claims_are_issued_with_exact_times() {
    let claims = Claims::new(7, "alice".to_string(), 1000, 36000);
    assert_eq!(
        claims,
        Claims { exp: 37000, iat: 1000, payload: alice() }
    );
    assert!(claims.iat < claims.exp);
    assert_eq!(Claims::new(1, String::new(), 5, 1).exp, 6);
    assert_eq!(
        Claims::issue(alice(), 1000, 36000),
        Some(Claims { exp: 37000, iat: 1000, payload: alice() })
    );
    assert_eq!(Claims::issue(alice(), -1, 36000), None);
    assert_eq!(Claims::issue(alice(), i64::MAX, u64::MAX), None);
    assert_eq!(Claims::issue(alice(), 0, 1), Some(Claims { exp: 1, iat: 0, payload: alice() }));
    let last = usize::MAX as u64 - 1000;
    assert_eq!(
        Claims::issue(alice(), 1000, last).map(|claims| claims.exp),
        Some(usize::MAX)
    );
    if let Some(beyond) = last.checked_add(1) {
        assert_eq!(Claims::issue(alice(), 1000, beyond), None);
    }
}

#[test]
fn claims_are_accepted_until_they_expire() {
    let raw = || Some((2000u64, 1000u64, 7u64, "alice".to_string()));
    let claims = Claims { exp: 2000, iat: 1000, payload: alice() };
    assert_eq!(Claims::accept(raw(), 1500), Ok(claims.clone()));
    assert_eq!(Claims::accept(raw(), 2000), Ok(claims.clone()));
    assert_eq!(Claims::accept(raw(), 0), Ok(claims.clone()));
    assert_eq!(Claims::accept(raw(), -5), Ok(claims.clone()));
    assert_eq!(Claims::accept(raw(), i64::MIN), Ok(claims));
    assert_eq!(Claims::accept(raw(), 2001), Err(AuthenticateError::InvalidToken));
    assert_eq!(Claims::accept(raw(), i64::MAX), Err(AuthenticateError::InvalidToken));
    assert_eq!(Claims::accept(None, 0), Err(AuthenticateError::InvalidToken));
    assert_eq!(
        Claims::accept(Some((0, 0, 0, String::new())), 0),
        Ok(Claims { exp: 0, iat: 0, payload: Payload { id: 0, username: String::new() } })
    );
    assert_eq!(
        Claims::accept(Some((0, 0, 0, String::new())), 1),
        Err(AuthenticateError::InvalidToken)
    );
}

#[test]
fn a_signing_fault_is_a_token_generation_error() {
    assert_eq!(signing_outcome(Ok("a.b.c".to_string())), Ok("a.b.c".to_string()));
    let fault: jsonwebtoken::errors::Error = jsonwebtoken::errors::ErrorKind::InvalidAlgorithm.into();
    assert_eq!(signing_outcome(Err(fault)), Err(AuthenticateError::GenerateToken));
}

#[test]
fn a_request_is_authenticated_by_its_bearer_token() {
    let settings = auth("aksumer-api", 36000);
    let token = generate_at(alice(), &settings, NOW).unwrap();
    let claims = Claims { exp: NOW as usize + 36000, iat: NOW as usize, payload: alice() };
    for header in [
        format!("Bearer {}", token),
        format!("bearer {}", token),
        format!("BEARER {}", token),
        format!("Bearer    {}", token),
    ] {
        assert_eq!(
            Claims::from_authorization_at(Some(header.as_str()), &settings, NOW + 5),
            Ok(claims.clone()),
            "{:?}",
            header
        );
    }
}

#[test]
fn a_request_without_bearer_credentials_misses_its_token() {
    let settings = auth("aksumer-api", 36000);
    let token = generate_at(alice(), &settings, NOW).unwrap();
    let missing = Err(ApiError::Authenticate(AuthenticateError::MissingToken));
    assert_eq!(Claims::from_authorization_at(None, &settings, NOW), missing);
    assert_eq!(Claims::from_request_parts(None, &settings), missing);
    for header in [
        String::new(),
        "Bearer".to_string(),
        "Basic QWxhZGRpbjpvcGVuIHNlc2FtZQ==".to_string(),
        format!("Token {}", token),
        format!("Bearer\t{}", token),
        format!("Bearer{}", token),
        format!(" Bearer {}", token),
        format!("Bearer {}\n", token),
        format!("Bearer {}é", token),
    ] {
        assert_eq!(
            Claims::from_authorization_at(Some(header.as_str()), &settings, NOW),
            missing,
            "{:?}",
            header
        );
        assert_eq!(Claims::from_request_parts(Some(header.as_str()), &settings), missing);
    }
    assert_eq!(Claims::from_credentials(None, &settings, NOW), missing);
}

#[test]
fn a_request_with_a_bad_token_is_refused() {
    let settings = auth("aksumer-api", 10);
    let token = generate_at(alice(), &settings, 1000).unwrap();
    let invalid = Err(ApiError::Authenticate(AuthenticateError::InvalidToken));
    let header = format!("Bearer {}", token);
    assert!(Claims::from_authorization_at(Some(header.as_str()), &settings, 1010).is_ok());
    assert_eq!(Claims::from_authorization_at(Some(header.as_str()), &settings, 1011), invalid);
    assert_eq!(Claims::from_request_parts(Some(header.as_str()), &settings), invalid);
    assert_eq!(Claims::from_authorization_at(Some("Bearer "), &settings, 1000), invalid);
    assert_eq!(Claims::from_authorization_at(Some("Bearer a.b.c"), &settings, 1000), invalid);
    assert_eq!(
        Claims::from_authorization_at(Some(header.as_str()), &auth("other", 10), 1000),
        invalid
    );
    assert_eq!(
        Claims::from_credentials(Some("a.b.c".to_string()), &settings, 1000),
        invalid
    );
    assert_eq!(
        Claims::from_credentials(Some(token), &settings, 1005),
        Ok(Claims { exp: 1010, iat: 1000, payload: alice() })
    );
}

/// The token that a header value holds as bearer credentials, by the rule
/// that the library states.
fn credentials_by_rule(header: &str) -> Option<String> {
    let bytes = header.as_bytes();
    let text = bytes.iter().all(|b| *b == b'\t' || (32..=126).contains(b));
    let scheme = bytes.len() > 6 && bytes[..6].eq_ignore_ascii_case(b"bearer") && bytes[6] == b' ';
    if text && scheme {
        Some(header[7..].trim_start_matches(|c| c == ' ' || c == '\t').to_string())
    } else {
        None
    }
}

#[test]
fn bearer_credentials_follow_the_stated_rule() {
    let settings = auth("aksumer-api", 36000);
    let token = generate_at(alice(), &settings, NOW).unwrap();
    let schemes = ["Bearer", "bearer", "BEARER", "bEaReR", "Bearers", "Beare", "Basic", "", "Bearer:"];
    let gaps = ["", " ", "  ", "\t", " \t ", "\t ", " \u{7f}", " \u{1}", " \n", " \u{a0}", " é "];
    let tails = ["", " ", "\t", "é", "\u{7f}", "~", " x"];
    let tokens = [token.as_str(), "a.b.c", "", "x y", "~"];
    let mut some = 0;
    let mut none = 0;
    for scheme in schemes {
        for gap in gaps {
            for body in tokens {
                for tail in tails {
                    let header = format!("{}{}{}{}", scheme, gap, body, tail);
                    let found = Claims::from_authorization_at(Some(header.as_str()), &settings, NOW);
                    let expected = match credentials_by_rule(&header) {
                        Some(read) => {
                            some += 1;
                            Claims::from_credentials(Some(read), &settings, NOW)
                        }
                        None => {
                            none += 1;
                            Err(ApiError::Authenticate(AuthenticateError::MissingToken))
                        }
                    };
                    assert_eq!(found, expected, "{:?}", header);
                }
            }
        }
    }
    assert!(some > 100 && none > 100);
    assert_eq!(credentials_by_rule("Bearer \t abc"), Some("abc".to_string()));
    assert_eq!(credentials_by_rule("Bearer "), Some(String::new()));
    assert_eq!(credentials_by_rule("Bearer"), None);
}

#[test]
fn a_missing_token_is_told_from_an_invalid_one() {
    let settings = auth("aksumer-api", 36000);
    let missing = Err(ApiError::Authenticate(AuthenticateError::MissingToken));
    let invalid = Err(ApiError::Authenticate(AuthenticateError::InvalidToken));
    assert_eq!(Claims::from_authorization_at(Some("Bearer"), &settings, NOW), missing);
    assert_eq!(Claims::from_authorization_at(Some("Bearerx"), &settings, NOW), missing);
    assert_eq!(Claims::from_authorization_at(Some("Bearer "), &settings, NOW), invalid);
    assert_eq!(Claims::from_authorization_at(Some("Bearer x"), &settings, NOW), invalid);
    assert_eq!(Claims::from_authorization_at(Some("bearer \t x"), &settings, NOW), invalid);
}
