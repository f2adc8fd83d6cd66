//! The trusted boundary to the TLS crates.
//!
//! Everything here is believed, not proved: each wrapper's contract states
//! what the named outside function does, as its source shows it. The PEM
//! parsers and the config builder compute from their byte arguments alone,
//! so their results are given names (`pem_certificates`, `pem_pkcs8_keys`,
//! `tls_key_supported`) that the loader's own contracts speak of exactly.

use vstd::prelude::*;

verus! {

#[verifier::external_type_specification]
#[verifier::external_body]
pub struct ExServerConfig(rustls::ServerConfig);

/// The DER contents of the CERTIFICATE sections of a PEM file, in file
/// order, or `None` when the file's PEM structure is malformed.
pub uninterp spec fn pem_certificates(file: Seq<u8>) -> Option<Seq<Seq<u8>>>;

/// The DER contents of the PKCS#8 PRIVATE KEY sections of a PEM file, in
/// file order, or `None` when the file's PEM structure is malformed.
pub uninterp spec fn pem_pkcs8_keys(file: Seq<u8>) -> Option<Seq<Seq<u8>>>;

/// Whether a DER-encoded private key parses as a key type the TLS stack
/// can sign with.
pub uninterp spec fn tls_key_supported(key_der: Seq<u8>) -> bool;

/// Relies on rustls_pemfile::certs: returns the DER bytes of every
/// CERTIFICATE section, in file order (zero sections give an empty vector),
/// and errs exactly on malformed PEM structure. On an in-memory reader the
/// outcome depends on the bytes alone.
#[verifier::external_body]
pub(crate) fn parse_pem_certificates(file: &[u8]) -> (r: Result<Vec<Vec<u8>>, String>)
    ensures
        r is Ok <==> pem_certificates(file@) is Some,
        r matches Ok(v) ==> Some(v@.map_values(|d: Vec<u8>| d@)) == pem_certificates(file@),
{
    rustls_pemfile::certs(&mut &*file).map_err(|e| e.to_string())
}

/// Relies on rustls_pemfile::pkcs8_private_keys: returns the DER bytes of
/// every PKCS#8 PRIVATE KEY section, in file order (zero sections give an
/// empty vector), and errs exactly on malformed PEM structure. On an
/// in-memory reader the outcome depends on the bytes alone.
#[verifier::external_body]
pub(crate) fn parse_pem_pkcs8_keys(file: &[u8]) -> (r: Result<Vec<Vec<u8>>, String>)
    ensures
        r is Ok <==> pem_pkcs8_keys(file@) is Some,
        r matches Ok(v) ==> Some(v@.map_values(|d: Vec<u8>| d@)) == pem_pkcs8_keys(file@),
{
    rustls_pemfile::pkcs8_private_keys(&mut &*file).map_err(|e| e.to_string())
}

/// Relies on rustls' server config builder chain (ServerConfig::builder,
/// with_safe_defaults, with_no_client_auth, with_single_cert): safe default
/// protocols, server-authentication-only TLS, one chain and key.
/// Construction succeeds exactly when the key parses as a supported
/// private key (sign::any_supported_type); the chain is stored as given,
/// unchecked.
#[verifier::external_body]
pub(crate) fn build_server_config(chain: &Vec<Vec<u8>>, key_der: &Vec<u8>) -> (r: Result<
    rustls::ServerConfig,
    String,
>)
    ensures
        r is Ok <==> tls_key_supported(key_der@),
{
    let certs: Vec<rustls::Certificate> =
        chain.iter().map(|d| rustls::Certificate(d.clone())).collect();
    rustls::ServerConfig::builder()
        .with_safe_defaults()
        .with_no_client_auth()
        .with_single_cert(certs, rustls::PrivateKey(key_der.clone()))
        .map_err(|e| e.to_string())
}

} // verus!
