pub mod addr;
pub mod listeners;
pub mod messages;
pub mod tls;

pub use tls::create_tls_config;
pub use tls::TlsConfig;

use vstd::prelude::*;

verus! {

/// Process configuration, loaded once at startup and immutable thereafter.
#[derive(Clone, Debug)]
pub struct Config {
    pub db: DbConf,
    pub tls: TlsConf,
}

/// Where the database lives.
#[derive(Clone, Debug)]
pub struct DbConf {
    pub path: String,
}

/// Where the transport-security material lives: a PEM certificate chain and
/// a PEM, unencrypted PKCS#8 private key.
#[derive(Clone, Debug)]
pub struct TlsConf {
    pub cert_path: String,
    pub key_path: String,
}

} // verus!
