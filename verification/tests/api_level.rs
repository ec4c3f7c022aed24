use visa_sdk::api_level::base_url_of;
use visa_sdk::api_level::ApiLevel;

#[test]
fn base_url_table_sandbox() {
    assert_eq!(base_url_of(ApiLevel::Sandbox), "https://sandbox.api.visa.com");
}

#[test]
fn base_url_table_certification() {
    assert_eq!(base_url_of(ApiLevel::Certification), "https://cert.api.visa.com");
}

#[test]
fn base_url_table_production() {
    assert_eq!(base_url_of(ApiLevel::Production), "https://api.visa.com");
}

#[test]
fn base_url_has_no_trailing_slash() {
    for level in [ApiLevel::Sandbox, ApiLevel::Certification, ApiLevel::Production] {
        let url = base_url_of(level);
        assert!(!url.ends_with('/'));
        assert!(url.starts_with("https://"));
    }
}

#[test]
fn api_level_default_is_sandbox() {
    assert_eq!(ApiLevel::default(), ApiLevel::Sandbox);
}

#[test]
fn api_level_is_ordered() {
    assert!(ApiLevel::Sandbox < ApiLevel::Certification);
    assert!(ApiLevel::Certification < ApiLevel::Production);
}
