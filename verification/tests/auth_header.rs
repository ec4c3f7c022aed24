use visa_sdk::basic_auth::basic_auth_value;
use visa_sdk::basic_auth::parse_basic_auth;

#[test]
fn auth_value_is_basic_scheme_with_base64() {
    let value = basic_auth_value("alice", "opensesame");
    assert_eq!(value, b"Basic YWxpY2U6b3BlbnNlc2FtZQ==".to_vec());
}

#[test]
fn auth_value_round_trips() {
    let value = basic_auth_value("alice", "opensesame");
    let (user, pass) = parse_basic_auth(&value).unwrap();
    assert_eq!(user, b"alice".to_vec());
    assert_eq!(pass, b"opensesame".to_vec());
}

#[test]
fn auth_value_round_trips_with_colon_in_password() {
    let value = basic_auth_value("user-1002", "pa:ss:word");
    let (user, pass) = parse_basic_auth(&value).unwrap();
    assert_eq!(user, b"user-1002".to_vec());
    assert_eq!(pass, b"pa:ss:word".to_vec());
}

#[test]
fn auth_value_round_trips_empty_password() {
    let value = basic_auth_value("bob", "");
    let (user, pass) = parse_basic_auth(&value).unwrap();
    assert_eq!(user, b"bob".to_vec());
    assert_eq!(pass, Vec::<u8>::new());
}

#[test]
fn parse_rejects_missing_prefix() {
    assert_eq!(parse_basic_auth(b"YWxpY2U6b3BlbnNlc2FtZQ=="), None);
    assert_eq!(parse_basic_auth(b"Bearer abc"), None);
    assert_eq!(parse_basic_auth(b""), None);
}

#[test]
fn parse_rejects_bad_payload() {
    assert_eq!(parse_basic_auth(b"Basic !!!!"), None);
    // a payload that decodes but holds no separator
    assert_eq!(parse_basic_auth(b"Basic Zm9v"), None);
}
