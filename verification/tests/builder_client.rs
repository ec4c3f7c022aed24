use openssl::asn1::Asn1Time;
use openssl::bn::BigNum;
use openssl::hash::MessageDigest;
use openssl::pkcs12::Pkcs12;
use openssl::pkey::PKey;
use openssl::rsa::Rsa;
use openssl::x509::X509NameBuilder;
use openssl::x509::X509;
use visa_sdk::api_level::ApiLevel;
use visa_sdk::basic_auth::parse_basic_auth;
use visa_sdk::builder::VisaClientBuilder;
use visa_sdk::errors::BuilderError;
use visa_sdk::http::HttpMethod;
use visa_sdk::http::HttpRequest;
use visa_sdk::message_level_encryption::MessageLevelEncryption;
use visa_sdk::mutual_tls::MutualTls;
use visa_sdk::state::WithMessageLevelEncryption;

/// A freshly generated self-signed identity, PKCS12-encoded with the given
/// passphrase.
fn generate_pkcs12(passphrase: &str) -> Vec<u8> {
    let rsa = Rsa::generate(2048).unwrap();
    let pkey = PKey::from_rsa(rsa).unwrap();
    let mut name = X509NameBuilder::new().unwrap();
    name.append_entry_by_text("CN", "test client").unwrap();
    let name = name.build();
    let mut builder = X509::builder().unwrap();
    builder.set_version(2).unwrap();
    let serial = BigNum::from_u32(1).unwrap().to_asn1_integer().unwrap();
    builder.set_serial_number(&serial).unwrap();
    builder.set_subject_name(&name).unwrap();
    builder.set_issuer_name(&name).unwrap();
    builder.set_pubkey(&pkey).unwrap();
    builder.set_not_before(&Asn1Time::days_from_now(0).unwrap()).unwrap();
    builder.set_not_after(&Asn1Time::days_from_now(30).unwrap()).unwrap();
    builder.sign(&pkey, MessageDigest::sha256()).unwrap();
    let cert = builder.build();
    let pkcs12 = Pkcs12::builder()
        .name("test client")
        .pkey(&pkey)
        .cert(&cert)
        .build2(passphrase)
        .unwrap();
    pkcs12.to_der().unwrap()
}

fn credentials(user_id: &str, password: &str) -> MutualTls {
    MutualTls::new(
        user_id.to_string(),
        password.to_string(),
        generate_pkcs12("test-pass"),
        Some("test-pass".to_string()),
    )
}

#[test]
fn unparseable_cert_is_a_configuration_error() {
    let mtls = MutualTls::new(
        "alice".to_string(),
        "opensesame".to_string(),
        b"this is not a certificate".to_vec(),
        None,
    );
    let result = VisaClientBuilder::new().set_mutual_tls(mtls).build();
    assert!(matches!(result, Err(BuilderError::CertificateError)));
}

#[test]
fn valid_cert_builds_a_client() {
    let client = VisaClientBuilder::new()
        .set_mutual_tls(credentials("alice", "opensesame"))
        .build()
        .unwrap();
    assert_eq!(client.get_config().api_level, ApiLevel::Sandbox);
}

#[test]
fn api_level_is_kept_through_build() {
    let client = VisaClientBuilder::new()
        .set_api_level(ApiLevel::Production)
        .set_mutual_tls(credentials("alice", "opensesame"))
        .build()
        .unwrap();
    assert_eq!(client.get_config().api_level, ApiLevel::Production);
    assert_eq!(client.get_base_url(), "https://api.visa.com");
}

#[test]
fn mle_phase_is_independent_of_mutual_tls_phase() {
    // encryption configured before the credentials
    let client = VisaClientBuilder::new()
        .set_message_level_encryption(WithMessageLevelEncryption(MessageLevelEncryption::new(
            "client-key".to_string(),
            None,
            "server-key".to_string(),
        )))
        .set_mutual_tls(credentials("alice", "opensesame"))
        .build()
        .unwrap();
    assert_eq!(client.get_config().api_level, ApiLevel::Sandbox);
    // and after them
    let client = VisaClientBuilder::new()
        .set_mutual_tls(credentials("alice", "opensesame"))
        .set_message_level_encryption(WithMessageLevelEncryption(MessageLevelEncryption::new(
            "client-key".to_string(),
            None,
            "server-key".to_string(),
        )))
        .build()
        .unwrap();
    assert_eq!(client.get_config().api_level, ApiLevel::Sandbox);
}

#[test]
fn prepared_request_carries_decodable_auth_header() {
    let client = VisaClientBuilder::new()
        .set_mutual_tls(credentials("alice", "opensesame"))
        .build()
        .unwrap();
    let request = HttpRequest::get("https://sandbox.api.visa.com/vdp/helloworld".to_string());
    let prepared = client.prepare_request(request);
    assert_eq!(prepared.headers.len(), 1);
    let header = &prepared.headers[0];
    assert_eq!(header.name, "authorization");
    let (user, pass) = parse_basic_auth(&header.value).unwrap();
    assert_eq!(user, b"alice".to_vec());
    assert_eq!(pass, b"opensesame".to_vec());
}

#[test]
fn body_passes_through_unchanged_without_mle() {
    let client = VisaClientBuilder::new()
        .set_mutual_tls(credentials("alice", "opensesame"))
        .build()
        .unwrap();
    let mut request = HttpRequest::new(
        HttpMethod::Post,
        "https://sandbox.api.visa.com/forexrates/v2/foreignexchangerates".to_string(),
    );
    request.set_body(b"{\"source_currency_code\":\"USD\"}".to_vec());
    let prepared = client.prepare_request(request);
    assert_eq!(prepared.body, b"{\"source_currency_code\":\"USD\"}".to_vec());
    assert_eq!(prepared.method, HttpMethod::Post);
    assert_eq!(
        prepared.url,
        "https://sandbox.api.visa.com/forexrates/v2/foreignexchangerates"
    );
}

#[test]
fn body_passes_through_unchanged_with_mle() {
    // Regression pin: the encryption step is a deliberate pass-through
    // placeholder today. A real transform must update this test on purpose.
    let client = VisaClientBuilder::new()
        .set_mutual_tls(credentials("alice", "opensesame"))
        .set_message_level_encryption(WithMessageLevelEncryption(MessageLevelEncryption::new(
            "client-key".to_string(),
            None,
            "server-key".to_string(),
        )))
        .build()
        .unwrap();
    let mut request = HttpRequest::new(
        HttpMethod::Post,
        "https://sandbox.api.visa.com/forexrates/v2/foreignexchangerates".to_string(),
    );
    request.set_body(b"payload bytes".to_vec());
    let prepared = client.prepare_request(request);
    assert_eq!(prepared.body, b"payload bytes".to_vec());
}

#[test]
fn certification_client_end_to_end_preparation() {
    // Build against the certification tier, resolve the base URL, issue a
    // GET to <base>/ping through the verified part of the pipeline, and
    // check the outgoing request: target kept, body untouched, and the
    // authentication header decodes to the configured pair.
    let client = VisaClientBuilder::new()
        .set_api_level(ApiLevel::Certification)
        .set_mutual_tls(credentials("cert-user", "cert-pass"))
        .build()
        .unwrap();
    let base = client.get_base_url();
    assert_eq!(base, "https://cert.api.visa.com");
    let url = format!("{}/ping", base);
    let prepared = client.prepare_request(HttpRequest::get(url));
    assert_eq!(prepared.url, "https://cert.api.visa.com/ping");
    assert_eq!(prepared.method, HttpMethod::Get);
    assert_eq!(prepared.body, Vec::<u8>::new());
    let (user, pass) = parse_basic_auth(&prepared.headers[0].value).unwrap();
    assert_eq!(user, b"cert-user".to_vec());
    assert_eq!(pass, b"cert-pass".to_vec());
}

#[test]
fn wrong_passphrase_still_no_client_or_error_consistency() {
    // With a wrong passphrase the blob must not yield a client silently:
    // the result is an error (the parse fails), never a partial client.
    let cert = generate_pkcs12("right-pass");
    let mtls = MutualTls::new(
        "alice".to_string(),
        "opensesame".to_string(),
        cert,
        Some("wrong-pass".to_string()),
    );
    let result = VisaClientBuilder::new().set_mutual_tls(mtls).build();
    assert!(result.is_err());
}

#[test]
fn builder_error_description() {
    assert_eq!(BuilderError::CertificateError.description(), "certificate error");
    assert_eq!(BuilderError::TransportError.description(), "transport error");
}
