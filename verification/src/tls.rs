//! Transport-security bootstrap: builds a server-side TLS context from PEM
//! material once at startup. Reading the two files from disk is the caller's
//! job; this module turns their bytes into a context or an error, and every
//! error here means the deployment is unusable and the process must not start
//! serving.
use vstd::prelude::*;
use std::sync::Arc;

verus! {

#[verifier::external_type_specification]
#[verifier::external_body]
pub struct ExServerConfig(rustls::ServerConfig);

#[verifier::external_type_specification]
#[verifier::external_body]
pub struct ExTLSError(rustls::TLSError);

/// What `rustls::internal::pemfile::certs` finds in a PEM byte stream:
/// `None` when a certificate section fails to decode, otherwise the DER
/// payload of each certificate section, in order. The result depends on the
/// bytes alone.
pub uninterp spec fn pem_cert_ders(bytes: Seq<u8>) -> Option<Seq<Seq<u8>>>;

/// What `rustls::internal::pemfile::pkcs8_private_keys` finds in a PEM byte
/// stream: `None` when a key section fails to decode, otherwise the DER
/// payload of each PKCS#8 key section, in order. The result depends on the
/// bytes alone.
pub uninterp spec fn pem_key_ders(bytes: Seq<u8>) -> Option<Seq<Seq<u8>>>;

/// How `rustls::sign::any_supported_type`, reached through
/// `ServerConfig::set_single_cert`, classifies one DER-encoded private key; a
/// function of the bytes alone:
/// - `None`: the bytes parse as no supported key, and installing always
///   fails;
/// - `Some(true)`: the bytes parse as RSA or Ed25519 material, whose
///   signing-key construction is deterministic, and installing always
///   succeeds;
/// - `Some(false)`: the bytes parse as ECDSA material, whose construction
///   also draws nonce randomness, so installing succeeds unless the system's
///   randomness source fails at that moment.
pub uninterp spec fn key_acceptance(der: Seq<u8>) -> Option<bool>;

/// Both PEM inputs decode and the key file yields at least one key: the
/// inputs on which a context is owed (up to `key_acceptance` of the first
/// key).
pub open spec fn pem_material_parses(cert_pem: Seq<u8>, key_pem: Seq<u8>) -> bool {
    &&& pem_cert_ders(cert_pem) is Some
    &&& pem_key_ders(key_pem) is Some
    &&& pem_key_ders(key_pem)->Some_0.len() > 0
}

/// The DER bytes of the first key the key file yields — the one that gets
/// installed.
pub open spec fn first_key_der(key_pem: Seq<u8>) -> Seq<u8>
    recommends
        pem_key_ders(key_pem) is Some,
        pem_key_ders(key_pem)->Some_0.len() > 0,
{
    pem_key_ders(key_pem)->Some_0[0]
}

/// Why the security bootstrap refused its input.
#[derive(Clone, Copy, Debug, PartialEq, Eq, Structural)]
pub enum TlsError {
    /// A certificate section of the chain file could not be decoded.
    CertChainUnreadable,
    /// A key section of the key file could not be decoded.
    KeyUnreadable,
    /// The key file holds no PKCS#8 key at all (an encrypted or otherwise
    /// unsupported key reads as none).
    NoPrivateKey,
    /// The library holding the cryptography rejected the first key.
    Rejected,
}

/// The transport-security strategy every accepted connection shares: either
/// no security at all, or one immutable server-side TLS context.
#[derive(Clone)]
pub enum TlsConfig {
    Plaintext,
    Tls(Arc<rustls::ServerConfig>),
}

/// Relies on rustls::internal::pemfile::certs: extracts the DER payload of
/// each certificate section of a PEM byte stream, failing only when a
/// section fails to decode.
#[verifier::external_body]
fn parse_certs(pem: &Vec<u8>) -> (r: Result<Vec<Vec<u8>>, ()>)
    ensures
        r is Ok <==> pem_cert_ders(pem@) is Some,
        r matches Ok(cs) ==> pem_cert_ders(pem@) == Some(cs.deep_view()),
{
    let mut reader: &[u8] = pem.as_slice();
    rustls::internal::pemfile::certs(&mut reader)
        .map(|certs| certs.into_iter().map(|c| c.0).collect())
}

/// Relies on rustls::internal::pemfile::pkcs8_private_keys: extracts the DER
/// payload of each PKCS#8 key section of a PEM byte stream, failing only when
/// a section fails to decode.
#[verifier::external_body]
fn parse_pkcs8_keys(pem: &Vec<u8>) -> (r: Result<Vec<Vec<u8>>, ()>)
    ensures
        r is Ok <==> pem_key_ders(pem@) is Some,
        r matches Ok(ks) ==> pem_key_ders(pem@) == Some(ks.deep_view()),
{
    let mut reader: &[u8] = pem.as_slice();
    rustls::internal::pemfile::pkcs8_private_keys(&mut reader)
        .map(|keys| keys.into_iter().map(|k| k.0).collect())
}

/// Relies on rustls::ServerConfig::new with rustls::NoClientAuth: a fresh
/// server configuration that demands no client certificate.
#[verifier::external_body]
fn new_server_config() -> rustls::ServerConfig {
    rustls::ServerConfig::new(rustls::NoClientAuth::new())
}

/// Relies on rustls::ServerConfig::set_single_cert: installs exactly the
/// given chain and key for all connections. rustls checks only the key
/// (`sign::any_supported_type`; the chain is not validated against it), so
/// the outcome follows `key_acceptance` of the key bytes.
#[verifier::external_body]
fn install_single_cert(
    config: &mut rustls::ServerConfig,
    cert_ders: Vec<Vec<u8>>,
    key_der: Vec<u8>,
) -> (r: Result<(), rustls::TLSError>)
    ensures
        r is Ok ==> key_acceptance(key_der@) is Some,
        key_acceptance(key_der@) == Some(true) ==> r is Ok,
        key_acceptance(key_der@) is None ==> r is Err,
{
    let chain: Vec<rustls::Certificate> = cert_ders.into_iter().map(rustls::Certificate).collect();
    config.set_single_cert(chain, rustls::PrivateKey(key_der))
}

/// Builds the shared TLS context from the PEM bytes of the certificate-chain
/// file and the private-key file: the full parsed chain and the first parsed
/// key are installed. Each failure is final: the caller must not begin
/// serving with a broken security context.
pub fn create_tls_config(cert_pem: &Vec<u8>, key_pem: &Vec<u8>) -> (r: Result<TlsConfig, TlsError>)
    ensures
        r == Err::<TlsConfig, TlsError>(TlsError::CertChainUnreadable)
            <==> pem_cert_ders(cert_pem@) is None,
        pem_cert_ders(cert_pem@) is Some
            ==> (r == Err::<TlsConfig, TlsError>(TlsError::KeyUnreadable)
                <==> pem_key_ders(key_pem@) is None),
        pem_cert_ders(cert_pem@) is Some && pem_key_ders(key_pem@) is Some
            ==> (r == Err::<TlsConfig, TlsError>(TlsError::NoPrivateKey)
                <==> pem_key_ders(key_pem@)->Some_0.len() == 0),
        pem_material_parses(cert_pem@, key_pem@)
            ==> (r is Ok || r == Err::<TlsConfig, TlsError>(TlsError::Rejected)),
        pem_material_parses(cert_pem@, key_pem@) && key_acceptance(first_key_der(key_pem@))
            == Some(true) ==> r is Ok,
        pem_material_parses(cert_pem@, key_pem@) && key_acceptance(first_key_der(key_pem@)) is None
            ==> r == Err::<TlsConfig, TlsError>(TlsError::Rejected),
        r is Ok ==> pem_material_parses(cert_pem@, key_pem@) && key_acceptance(
            first_key_der(key_pem@),
        ) is Some,
        r matches Ok(c) ==> c is Tls,
{
    let certs = match parse_certs(cert_pem) {
        Ok(certs) => certs,
        Err(_) => {
            return Err(TlsError::CertChainUnreadable);
        },
    };
    let mut keys = match parse_pkcs8_keys(key_pem) {
        Ok(keys) => keys,
        Err(_) => {
            return Err(TlsError::KeyUnreadable);
        },
    };
    if keys.len() == 0 {
        return Err(TlsError::NoPrivateKey);
    }
    let key = keys.remove(0);
    proof {
        assert(key@ =~= first_key_der(key_pem@));
    }
    let mut config = new_server_config();
    match install_single_cert(&mut config, certs, key) {
        Ok(_) => Ok(TlsConfig::Tls(Arc::new(config))),
        Err(_) => Err(TlsError::Rejected),
    }
}

/// The strategy used when transport security is disabled: every connection
/// is accepted in the clear, and no other component can tell the difference.
pub fn create_plaintext_config() -> (r: TlsConfig)
    ensures
        r is Plaintext,
{
    TlsConfig::Plaintext
}

} // verus!
