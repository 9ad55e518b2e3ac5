use base64::Engine;
use net_infra::HttpRequestDecorator;
use net_infra::HttpRequestDecoratorSeq;
use net_infra::HttpRequestParts;
use net_infra::TransportConnectError;

fn basic_authorization(username: &str, password: &str) -> Vec<u8> {
    let encoded = base64::engine::general_purpose::STANDARD
        .encode(format!("{}:{}", username, password));
    format!("Basic {}", encoded).into_bytes()
}

#[test]
fn test_path_prefix_decorator() {
    let cases = vec![
        ("https://chat.signal.org/", "/chat/"),
        ("https://chat.signal.org/v1", "/chat/v1"),
        ("https://chat.signal.org/v1?a=b", "/chat/v1"),
        ("https://chat.signal.org/v1/endpoint", "/chat/v1/endpoint"),
    ];
    for (input, expected_path) in cases.into_iter() {
        let builder = HttpRequestParts::get(input).unwrap();
        let builder = HttpRequestDecorator::PathPrefix(b"/chat".to_vec())
            .decorate_request(builder)
            .unwrap();
        assert_eq!(expected_path.as_bytes(), builder.path().as_slice(), "for input [{}]", input)
    }
}

#[test]
fn test_header_auth_decorator() {
    let expected = "Basic dXNybm06cHNzd2Q=";
    let builder = HttpRequestParts::get("https://chat.signal.org/").unwrap();
    let builder = HttpRequestDecorator::Header(
        b"authorization".to_vec(),
        basic_authorization("usrnm", "psswd"),
    )
    .decorate_request(builder)
    .unwrap();
    assert_eq!(
        expected.as_bytes(),
        builder.header_value(&b"authorization".to_vec()).unwrap().as_slice()
    );
}

#[test]
fn header_map_decorator_appends_in_order() {
    let builder = HttpRequestParts::get("https://chat.signal.org/v1").unwrap();
    let decorated = HttpRequestDecorator::HeaderMap(vec![
        (b"x-first".to_vec(), b"1".to_vec()),
        (b"x-second".to_vec(), b"2".to_vec()),
    ])
    .decorate_request(builder)
    .unwrap();
    assert_eq!(decorated.headers.len(), 2);
    assert_eq!(decorated.header_value(&b"x-first".to_vec()).unwrap(), b"1".to_vec());
    assert_eq!(decorated.header_value(&b"x-second".to_vec()).unwrap(), b"2".to_vec());
    assert!(decorated.header_value(&b"x-third".to_vec()).is_none());
}

#[test]
fn decorator_sequence_applies_left_to_right() {
    let mut seq = HttpRequestDecoratorSeq(Vec::new());
    seq.add(HttpRequestDecorator::PathPrefix(b"/v1".to_vec()));
    seq.add(HttpRequestDecorator::PathPrefix(b"/chat".to_vec()));
    seq.add(HttpRequestDecorator::Header(b"x-a".to_vec(), b"b".to_vec()));
    let parts = HttpRequestParts {
        path_and_query: Some(b"/endpoint".to_vec()),
        headers: Vec::new(),
    };
    let decorated = seq.decorate_request(parts).unwrap();
    assert_eq!(decorated.path_and_query.as_deref(), Some(b"/chat/v1/endpoint".as_slice()));
    assert_eq!(decorated.headers.len(), 1);
}

#[test]
fn invalid_header_name_is_a_configuration_error() {
    let builder = HttpRequestParts::get("https://chat.signal.org/").unwrap();
    let err = HttpRequestDecorator::Header(b"bad header".to_vec(), b"v".to_vec())
        .decorate_request(builder)
        .unwrap_err();
    assert_eq!(err, TransportConnectError::InvalidConfiguration);
}

#[test]
fn invalid_header_value_is_a_configuration_error() {
    let builder = HttpRequestParts::get("https://chat.signal.org/").unwrap();
    let err = HttpRequestDecorator::Header(b"x-ok".to_vec(), b"bad\nvalue".to_vec())
        .decorate_request(builder)
        .unwrap_err();
    assert_eq!(err, TransportConnectError::InvalidConfiguration);
}

#[test]
fn invalid_path_prefix_is_a_configuration_error() {
    let builder = HttpRequestParts::get("https://chat.signal.org/v1").unwrap();
    let err = HttpRequestDecorator::PathPrefix(b"not a path".to_vec())
        .decorate_request(builder)
        .unwrap_err();
    assert_eq!(err, TransportConnectError::InvalidConfiguration);
}

#[test]
fn unparseable_request_target_is_rejected() {
    assert!(HttpRequestParts::get("not a uri at all").is_none());
}
