//! The certificate loader.
//!
//! `load_certificates` turns the raw contents of a certificate-chain file
//! and a private-key file into a TLS server configuration, or a typed
//! error. Reading the files is the caller's business: each input arrives as
//! the file's bytes or the I/O failure that prevented reading them. Every
//! fallible step returns a typed result; nothing here panics.

use vstd::prelude::*;

use crate::tls::build_server_config;
use crate::tls::parse_pem_certificates;
use crate::tls::parse_pem_pkcs8_keys;
use crate::tls::pem_certificates;
use crate::tls::pem_pkcs8_keys;
use crate::tls::tls_key_supported;

verus! {

/// Why certificate loading failed. All of these are recoverable: the
/// caller is expected to log them and run plaintext-only.
#[derive(PartialEq, Eq, Debug)]
pub enum CertError {
    /// The certificate file could not be read, or its PEM structure was
    /// malformed; `cause` carries the underlying message.
    CertFileUnreadable { cause: String },
    /// The key file could not be read, or its PEM structure was malformed.
    KeyFileUnreadable { cause: String },
    /// The key file held no parsable PKCS#8 private key.
    NoPrivateKey,
    /// The TLS stack rejected the selected key.
    ConfigConstructionFailed { cause: String },
}

/// The parsed material a TLS configuration is built from: the DER
/// certificate chain, leaf first, and the one selected private key.
#[derive(PartialEq, Eq, Debug)]
pub struct CertificateMaterial {
    pub chain: Vec<Vec<u8>>,
    pub key_der: Vec<u8>,
}

impl CertificateMaterial {
    /// The chain as a sequence of DER byte sequences.
    pub open spec fn chain_view(self) -> Seq<Seq<u8>> {
        self.chain@.map_values(|d: Vec<u8>| d@)
    }
}

/// An immutable TLS server configuration together with the material it was
/// derived from. The underlying engine configuration is opaque; the
/// material records exactly which chain and key went into it.
pub struct TlsServerConfig {
    config: rustls::ServerConfig,
    material: CertificateMaterial,
}

impl TlsServerConfig {
    /// The material this configuration was derived from.
    pub closed spec fn spec_material(self) -> CertificateMaterial {
        self.material
    }

    /// A well-formed configuration was built from a key the TLS stack
    /// accepts.
    pub open spec fn wf(self) -> bool {
        tls_key_supported(self.spec_material().key_der@)
    }

    /// The material this configuration was derived from.
    pub fn material(&self) -> (m: &CertificateMaterial)
        ensures
            *m == self.spec_material(),
    {
        &self.material
    }

    /// Surrender the engine configuration and the material behind it.
    pub fn into_parts(self) -> (parts: (rustls::ServerConfig, CertificateMaterial))
        ensures
            parts.1 == self.spec_material(),
    {
        (self.config, self.material)
    }
}

/// When loading succeeds: both files were readable, their PEM structure
/// parsed, at least one PKCS#8 key was found, and the first key is one the
/// TLS stack supports.
pub open spec fn loading_succeeds(cert_file: Seq<u8>, key_file: Seq<u8>) -> bool {
    &&& pem_certificates(cert_file) is Some
    &&& pem_pkcs8_keys(key_file) is Some
    &&& pem_pkcs8_keys(key_file).unwrap().len() > 0
    &&& tls_key_supported(pem_pkcs8_keys(key_file).unwrap()[0])
}

/// Key selection is reproducible: any two successful loads of the same
/// certificate and key file contents select the same private key — the
/// first in file order — because the selection is a function of the key
/// file's bytes alone.
pub proof fn lemma_key_selection_deterministic(
    first: TlsServerConfig,
    second: TlsServerConfig,
    cert_file: Seq<u8>,
    key_file: Seq<u8>,
)
    requires
        loading_succeeds(cert_file, key_file),
        first.spec_material().key_der@ == pem_pkcs8_keys(key_file).unwrap()[0],
        second.spec_material().key_der@ == pem_pkcs8_keys(key_file).unwrap()[0],
    ensures
        first.spec_material().key_der@ == second.spec_material().key_der@,
{
}

/// Build a TLS server configuration from the contents of the certificate
/// file and the key file, each given as the bytes read or the I/O failure
/// that prevented reading them.
///
/// The certificate file is handled first: an unreadable or structurally
/// malformed file is `CertFileUnreadable`, then the key file likewise is
/// `KeyFileUnreadable`. A well-formed key file with zero PKCS#8 keys is
/// exactly `NoPrivateKey`. With several keys, the first in file order is
/// selected and the rest are ignored. A selected key the TLS stack cannot
/// use is `ConfigConstructionFailed`. Otherwise the result carries the
/// whole parsed chain and the selected key.
pub fn load_certificates(cert_read: Result<Vec<u8>, String>, key_read: Result<Vec<u8>, String>)
    -> (r: Result<TlsServerConfig, CertError>)
    ensures
        r is Ok <==> {
            &&& cert_read is Ok
            &&& key_read is Ok
            &&& loading_succeeds(cert_read->Ok_0@, key_read->Ok_0@)
        },
        r is Ok ==> {
            &&& r->Ok_0.spec_material().chain_view() == pem_certificates(cert_read->Ok_0@).unwrap()
            &&& r->Ok_0.spec_material().key_der@ == pem_pkcs8_keys(key_read->Ok_0@).unwrap()[0]
            &&& r->Ok_0.wf()
        },
        cert_read is Err ==> r == Err::<TlsServerConfig, CertError>(CertError::CertFileUnreadable { cause: cert_read->Err_0 }),
        (cert_read is Ok && pem_certificates(cert_read->Ok_0@) is None) ==> (r is Err && r->Err_0
            is CertFileUnreadable),
        (cert_read is Ok && pem_certificates(cert_read->Ok_0@) is Some && key_read is Err) ==> r
            == Err::<TlsServerConfig, CertError>(CertError::KeyFileUnreadable { cause: key_read->Err_0 }),
        (cert_read is Ok && pem_certificates(cert_read->Ok_0@) is Some && key_read is Ok
            && pem_pkcs8_keys(key_read->Ok_0@) is None) ==> (r is Err && r->Err_0
            is KeyFileUnreadable),
        (cert_read is Ok && pem_certificates(cert_read->Ok_0@) is Some && key_read is Ok
            && pem_pkcs8_keys(key_read->Ok_0@) is Some && pem_pkcs8_keys(
            key_read->Ok_0@,
        ).unwrap().len() == 0) ==> r == Err::<TlsServerConfig, CertError>(CertError::NoPrivateKey),
        (cert_read is Ok && pem_certificates(cert_read->Ok_0@) is Some && key_read is Ok
            && pem_pkcs8_keys(key_read->Ok_0@) is Some && pem_pkcs8_keys(
            key_read->Ok_0@,
        ).unwrap().len() > 0 && !tls_key_supported(
            pem_pkcs8_keys(key_read->Ok_0@).unwrap()[0],
        )) ==> (r is Err && r->Err_0 is ConfigConstructionFailed),
{
    let cert_bytes = match cert_read {
        Ok(b) => b,
        Err(cause) => {
            return Err(CertError::CertFileUnreadable { cause });
        },
    };
    let chain = match parse_pem_certificates(cert_bytes.as_slice()) {
        Ok(c) => c,
        Err(cause) => {
            return Err(CertError::CertFileUnreadable { cause });
        },
    };
    let key_bytes = match key_read {
        Ok(b) => b,
        Err(cause) => {
            return Err(CertError::KeyFileUnreadable { cause });
        },
    };
    let mut keys = match parse_pem_pkcs8_keys(key_bytes.as_slice()) {
        Ok(k) => k,
        Err(cause) => {
            return Err(CertError::KeyFileUnreadable { cause });
        },
    };
    if keys.len() == 0 {
        return Err(CertError::NoPrivateKey);
    }
    let key_der = keys.remove(0);
    let material = CertificateMaterial { chain, key_der };
    match build_server_config(&material.chain, &material.key_der) {
        Ok(config) => Ok(TlsServerConfig { config, material }),
        Err(cause) => Err(CertError::ConfigConstructionFailed { cause }),
    }
}

} // verus!
