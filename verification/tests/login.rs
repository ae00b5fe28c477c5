use terraform_http_backend::config::Configuration;
use terraform_http_backend::error::HttpError;
use terraform_http_backend::extractors::login::{credentials_from_request, AuthorizationHeader};
use terraform_http_backend::extractors::LoginExtractor;

fn default_config() -> Configuration {
    Configuration {
        database_uri: "sqlite::memory:".to_string(),
        tf_http_username: "asdf".to_string(),
        tf_http_password: "asdf".to_string(),
        http_port: 8080,
        http_bind_address: "0.0.0.0".to_string(),
        log_level: "INFO".to_string(),
    }
}

fn authentication<S: AsRef<str>>(username: S, password: S) -> String {
    format!(
        "Basic {}",
        base64::encode(format!("{}:{}", username.as_ref(), password.as_ref(),))
    )
}

fn unauthorized() -> HttpError {
    HttpError::Unauthorized("Unauthorized".to_string())
}

#[test]
fn configured_pair_is_let_through() {
    let config = default_config();
    let header = AuthorizationHeader::Value(authentication("asdf", "asdf"));
    let LoginExtractor(credentials) =
        LoginExtractor::from_request(&config, header).expect("the pair is the configured one");
    assert_eq!(credentials.user_id, "asdf");
    assert_eq!(credentials.password, "asdf");
}

#[test]
fn scheme_is_read_in_any_case() {
    let config = default_config();
    let header = AuthorizationHeader::Value("bAsIc YXNkZjphc2Rm".to_string());
    assert!(LoginExtractor::from_request(&config, header).is_ok());
}

#[test]
fn password_may_hold_colons() {
    let mut config = default_config();
    config.tf_http_password = "a:b:c".to_string();
    let header = AuthorizationHeader::Value(authentication("asdf", "a:b:c"));
    let LoginExtractor(credentials) =
        LoginExtractor::from_request(&config, header).expect("the pair is the configured one");
    assert_eq!(credentials.user_id, "asdf");
    assert_eq!(credentials.password, "a:b:c");
}

#[test]
fn another_pair_is_unauthorized() {
    let config = default_config();
    for (user, password) in [("asdf", "wrong"), ("wrong", "asdf"), ("", ""), ("asdf", "asdf ")] {
        let header = AuthorizationHeader::Value(authentication(user, password));
        assert_eq!(LoginExtractor::from_request(&config, header).err(), Some(unauthorized()));
    }
}

#[test]
fn request_without_a_readable_header_is_unauthorized() {
    let config = default_config();
    assert_eq!(
        LoginExtractor::from_request(&config, AuthorizationHeader::Missing).err(),
        Some(unauthorized())
    );
    assert_eq!(
        LoginExtractor::from_request(&config, AuthorizationHeader::Unreadable).err(),
        Some(unauthorized())
    );
    assert_eq!(credentials_from_request(AuthorizationHeader::Missing).err(), Some(unauthorized()));
}

#[test]
fn request_whose_headers_are_gone_is_an_internal_error() {
    let config = default_config();
    assert_eq!(
        LoginExtractor::from_request(&config, AuthorizationHeader::Unavailable).err(),
        Some(HttpError::InternalServerError("Internal Server Error".to_string()))
    );
}

#[test]
fn header_without_basic_credentials_is_a_bad_request() {
    let config = default_config();
    let refused = |value: &str| {
        LoginExtractor::from_request(&config, AuthorizationHeader::Value(value.to_string())).err()
    };
    assert_eq!(
        refused("YXNkZjphc2Rm"),
        Some(HttpError::BadRequest(
            "Invalid value provided for the HTTP Authorization header".to_string()
        ))
    );
    assert_eq!(
        refused("Basic YXNk Zjphc2Rm"),
        Some(HttpError::BadRequest(
            "Invalid value provided for the HTTP Authorization header".to_string()
        ))
    );
    assert_eq!(
        refused("Bearer YXNkZjphc2Rm"),
        Some(HttpError::BadRequest("The scheme provided (Bearer) is not Basic".to_string()))
    );
    assert_eq!(
        refused(&format!("Basic {}", base64::encode("no-colon"))),
        Some(HttpError::BadRequest(
            "Invalid value provided for the HTTP Authorization header".to_string()
        ))
    );
    let not_base64 = refused("Basic ***").expect("the value is not base64");
    assert_eq!(not_base64.status_code(), 400);
    assert!(not_base64.message().starts_with("The value have an invalid base64 encoding\n"));
    let not_utf8 = refused(&format!("Basic {}", base64::encode([0xff_u8, 0x3a, 0xfe])))
        .expect("the value is not UTF-8");
    assert_eq!(not_utf8.status_code(), 400);
    assert!(not_utf8.message().starts_with("Invalid UTF-8 Provided\n"));
}

#[test]
fn credentials_are_decoded_from_the_header() {
    let credentials =
        credentials_from_request(AuthorizationHeader::Value(authentication("user", "pass word")))
            .expect("the header holds basic credentials");
    assert_eq!(credentials.user_id, "user");
    assert_eq!(credentials.password, "pass word");
}

#[test]
fn check_compares_both_parts_to_the_letter() {
    let config = default_config();
    let pair = |user: &str, password: &str| http_auth_basic::Credentials::new(user, password);

    let LoginExtractor(credentials) =
        LoginExtractor::check(&config, pair("asdf", "asdf")).expect("the pair is the configured one");
    assert_eq!(credentials.user_id, "asdf");
    assert_eq!(credentials.password, "asdf");

    assert_eq!(LoginExtractor::check(&config, pair("asdf", "ASDF")).err(), Some(unauthorized()));
    assert_eq!(LoginExtractor::check(&config, pair("Asdf", "asdf")).err(), Some(unauthorized()));
    assert_eq!(LoginExtractor::check(&config, pair("asdf", "")).err(), Some(unauthorized()));
    assert_eq!(LoginExtractor::check(&config, pair("asdfasdf", "")).err(), Some(unauthorized()));
}
