use lu_handshake::tls::{create_plaintext_config, create_tls_config, TlsConfig, TlsError};

fn pem_section(marker: &str, body: &str) -> Vec<u8> {
    format!("-----BEGIN {m}-----\n{body}\n-----END {m}-----\n", m = marker, body = body)
        .into_bytes()
}

#[test]
fn plaintext_strategy_is_plaintext() {
    assert!(matches!(create_plaintext_config(), TlsConfig::Plaintext));
}

#[test]
fn undecodable_certificate_section_is_fatal() {
    // "!!!" is not base64, so the chain cannot be decoded.
    let cert = pem_section("CERTIFICATE", "!!!");
    let key = pem_section("PRIVATE KEY", "AAAA");
    assert!(matches!(create_tls_config(&cert, &key), Err(TlsError::CertChainUnreadable)));
}

#[test]
fn undecodable_key_section_is_fatal() {
    let cert = pem_section("CERTIFICATE", "AAAA");
    let key = pem_section("PRIVATE KEY", "!!!");
    assert!(matches!(create_tls_config(&cert, &key), Err(TlsError::KeyUnreadable)));
}

#[test]
fn key_file_without_pkcs8_key_is_fatal() {
    let cert = pem_section("CERTIFICATE", "AAAA");
    // An RSA-marked (non-PKCS#8) section yields no PKCS#8 key at all.
    let key = pem_section("RSA PRIVATE KEY", "AAAA");
    assert!(matches!(create_tls_config(&cert, &key), Err(TlsError::NoPrivateKey)));
}

#[test]
fn empty_key_file_is_fatal() {
    let cert = pem_section("CERTIFICATE", "AAAA");
    assert!(matches!(create_tls_config(&cert, &Vec::new()), Err(TlsError::NoPrivateKey)));
}

#[test]
fn valid_key_material_yields_a_tls_context() {
    let cert = pem_section("CERTIFICATE", "AAAA");
    // A PKCS#8 v1 Ed25519 key: rustls accepts it deterministically.
    let key = pem_section(
        "PRIVATE KEY",
        "MC4CAQAwBQYDK2VwBCIEIAECAwQFBgcICQoLDA0ODxAREhMUFRYXGBkaGxwdHh8g",
    );
    assert!(matches!(create_tls_config(&cert, &key), Ok(TlsConfig::Tls(_))));
}

#[test]
fn first_of_several_keys_is_the_one_installed() {
    let cert = pem_section("CERTIFICATE", "AAAA");
    // An unusable key first, a valid Ed25519 key second: the first decides.
    let mut key = pem_section("PRIVATE KEY", "AAAA");
    key.extend_from_slice(&pem_section(
        "PRIVATE KEY",
        "MC4CAQAwBQYDK2VwBCIEIAECAwQFBgcICQoLDA0ODxAREhMUFRYXGBkaGxwdHh8g",
    ));
    assert!(matches!(create_tls_config(&cert, &key), Err(TlsError::Rejected)));
}

#[test]
fn invalid_key_material_is_rejected() {
    // The sections decode, but the three zero bytes are no usable key.
    let cert = pem_section("CERTIFICATE", "AAAA");
    let key = pem_section("PRIVATE KEY", "AAAA");
    assert!(matches!(create_tls_config(&cert, &key), Err(TlsError::Rejected)));
}
