use truelayer_cli::command::{mock_action_target, TargetError};
use truelayer_cli::text::decimal_string;
use truelayer_cli::uri::{
    extract_mock_payment_id, extract_token_from_uri, last_path_segment, token_from_capture, UriError,
};

const REDIRECT: &str =
    "https://pay-mock-connect.truelayer-sandbox.com/login/9c3f1a2b-mock?state=1#token=abc.DEF-123";

#[test]
fn decimal_renders_codes() {
    assert_eq!(decimal_string(0), "0");
    assert_eq!(decimal_string(7), "7");
    assert_eq!(decimal_string(10), "10");
    assert_eq!(decimal_string(404), "404");
    assert_eq!(decimal_string(u64::MAX), u64::MAX.to_string());
}

#[test]
fn last_segment_of_paths() {
    assert_eq!(last_path_segment("/api/payments/abc"), "abc");
    assert_eq!(last_path_segment("/api/payments/"), "");
    assert_eq!(last_path_segment("no-slash"), "no-slash");
    assert_eq!(last_path_segment(""), "");
    assert_eq!(last_path_segment("/"), "");
    assert_eq!(last_path_segment("/é/ü"), "ü");
}

#[test]
fn mock_payment_id_is_last_path_segment() {
    assert_eq!(extract_mock_payment_id(REDIRECT).unwrap(), "9c3f1a2b-mock");
    assert_eq!(extract_mock_payment_id("https://example.com").unwrap(), "");
    assert_eq!(extract_mock_payment_id("https://example.com/a/b/c/").unwrap(), "");
}

#[test]
fn mock_payment_id_of_invalid_url() {
    match extract_mock_payment_id("not a url") {
        Err(e @ UriError::InvalidUrl(_)) => assert_eq!(e.message(), "relative URL without a base"),
        _ => panic!("expected an invalid URL"),
    }
}

#[test]
fn token_is_read_from_fragment() {
    assert_eq!(extract_token_from_uri(REDIRECT).unwrap(), "abc.DEF-123");
    assert_eq!(extract_token_from_uri("https://example.com/p#a=1&token=t0k").unwrap(), "t0k");
}

#[test]
fn token_errors() {
    let no_fragment = extract_token_from_uri("https://example.com/p?token=x").unwrap_err();
    assert!(matches!(no_fragment, UriError::NoFragment));
    assert_eq!(no_fragment.message(), "No fragment present in the redirect uri");

    let no_token = extract_token_from_uri("https://example.com/p#state=1").unwrap_err();
    assert!(matches!(no_token, UriError::NoTokenCaptured));
    assert_eq!(no_token.message(), "Could not capture token in the fragment");

    let empty_token = extract_token_from_uri("https://example.com/p#token=").unwrap_err();
    assert!(matches!(empty_token, UriError::NoTokenCaptured));

    assert!(matches!(extract_token_from_uri("::"), Err(UriError::InvalidUrl(_))));
}

#[test]
fn token_from_each_capture() {
    assert!(matches!(token_from_capture(None), Err(UriError::NoTokenCaptured)));
    let none = token_from_capture(Some(None)).unwrap_err();
    assert!(matches!(none, UriError::NoTokenFound));
    assert_eq!(none.message(), "No token found in the uri");
    assert_eq!(token_from_capture(Some(Some("t".to_string()))).unwrap(), "t");
}

#[test]
fn action_target_from_redirect() {
    let target = mock_action_target(REDIRECT).ok().unwrap();
    assert_eq!(target.mock_payment_id, "9c3f1a2b-mock");
    assert_eq!(target.token, "abc.DEF-123");
}

#[test]
fn action_target_errors_in_order() {
    assert!(matches!(mock_action_target("nope"), Err(TargetError::MockPaymentId(UriError::InvalidUrl(_)))));
    assert!(matches!(
        mock_action_target("https://example.com/x"),
        Err(TargetError::Token { error: UriError::NoFragment, .. })
    ));
    match mock_action_target("https://example.com/a/b#nothing") {
        Err(TargetError::Token { mock_payment_id, error }) => {
            assert_eq!(mock_payment_id, "b");
            assert!(matches!(error, UriError::NoTokenCaptured));
        },
        _ => panic!("expected a token error"),
    }
}

#[test]
fn invalid_url_carries_the_parse_error() {
    assert!(matches!(
        extract_token_from_uri("not a url"),
        Err(UriError::InvalidUrl(url::ParseError::RelativeUrlWithoutBase))
    ));
    assert!(matches!(
        extract_mock_payment_id("http://[::1"),
        Err(UriError::InvalidUrl(url::ParseError::InvalidIpv6Address))
    ));
}
