use vstd::prelude::*;
use rustls_pki_types::pem::PemObject;
use rustls_pki_types::{CertificateDer, PrivateKeyDer};
use tokio_rustls::TlsAcceptor;
use tokio_rustls::rustls::ServerConfig;

verus! {

/// Error when creating a `TlsAcceptor`.
#[derive(Debug)]
pub enum TlsAcceptorError {
    /// PEM data was invalid.
    InvalidPem(rustls_pki_types::pem::Error),
    /// Rustls failed to create the `ServerConfig`.
    ServerConfig(tokio_rustls::rustls::Error),
    /// Failed to read a file.
    FileRead(std::io::Error),
}

impl TlsAcceptorError {
    /// A short description of the error.
    pub fn message(&self) -> (r: &'static str)
        ensures
            self is InvalidPem ==> r@ == "invalid pem data"@,
            self is ServerConfig ==> r@ == "failed to create ServerConfig"@,
            self is FileRead ==> r@ == "failed to read file"@,
    {
        match self {
            TlsAcceptorError::InvalidPem(_) => "invalid pem data",
            TlsAcceptorError::ServerConfig(_) => "failed to create ServerConfig",
            TlsAcceptorError::FileRead(_) => "failed to read file",
        }
    }
}

/// Whether the PEM certificate sections of the data can all be read out: it
/// fails on any malformed section of any label, a missing end marker, or an
/// oversized section.
pub uninterp spec fn certificate_pem_ok(data: Seq<u8>) -> bool;

/// Whether the data holds a PEM private key section that is read out before
/// any malformed section.
pub uninterp spec fn private_key_pem_ok(data: Seq<u8>) -> bool;

/// Relies on `CertificateDer::pem_slice_iter` collected into a `Result`: the
/// certificates, or the first error of the PEM reader over the data.
#[verifier::external_body]
fn decode_certificates(data: &[u8]) -> (r: Result<Vec<CertificateDer<'static>>, rustls_pki_types::pem::Error>)
    ensures
        r.is_ok() == certificate_pem_ok(data@),
{
    CertificateDer::pem_slice_iter(data).collect()
}

/// Relies on `PrivateKeyDer::from_pem_slice`: the first private key section of
/// the data, or an error.
#[verifier::external_body]
fn decode_private_key(data: &[u8]) -> (r: Result<PrivateKeyDer<'static>, rustls_pki_types::pem::Error>)
    ensures
        r.is_ok() == private_key_pem_ok(data@),
{
    PrivateKeyDer::from_pem_slice(data)
}

/// Relies on rustls' `ServerConfig::builder().with_no_client_auth().with_single_cert`:
/// a configuration without client authentication that presents the given chain,
/// or an error when the key is invalid or does not match the certificate.
#[verifier::external_body]
fn single_cert_config(certs: Vec<CertificateDer<'static>>, key: PrivateKeyDer<'static>) -> (r: Result<ServerConfig, tokio_rustls::rustls::Error>)
{
    ServerConfig::builder().with_no_client_auth().with_single_cert(certs, key)
}

/// Relies on the public field `ServerConfig::alpn_protocols`: sets the protocols
/// offered in ALPN, most preferred first.
#[verifier::external_body]
fn set_alpn_protocols(cfg: &mut ServerConfig, protocols: Vec<Vec<u8>>) {
    cfg.alpn_protocols = protocols;
}

/// Relies on tokio-rustls' `From<Arc<ServerConfig>> for TlsAcceptor`: an
/// acceptor sharing the configuration.
#[verifier::external_body]
fn acceptor_from_config(cfg: ServerConfig) -> (r: TlsAcceptor) {
    TlsAcceptor::from(std::sync::Arc::new(cfg))
}

/// The ALPN name of HTTP/1.1.
pub open spec fn alpn_http_1_1() -> Seq<u8> {
    seq![104u8, 116, 116, 112, 47, 49, 46, 49]
}

/// The ALPN name of HTTP/1.0.
pub open spec fn alpn_http_1_0() -> Seq<u8> {
    seq![104u8, 116, 116, 112, 47, 49, 46, 48]
}

/// The ALPN protocols offered to clients: HTTP/1.1, then HTTP/1.0.
pub fn http1_alpn_protocols() -> (r: Vec<Vec<u8>>)
    ensures
        r@.len() == 2,
        r@[0]@ == alpn_http_1_1(),
        r@[1]@ == alpn_http_1_0(),
{
    let v11: Vec<u8> = vec![104u8, 116, 116, 112, 47, 49, 46, 49];
    let v10: Vec<u8> = vec![104u8, 116, 116, 112, 47, 49, 46, 48];
    assert(v11@ == alpn_http_1_1());
    assert(v10@ == alpn_http_1_0());
    vec![v11, v10]
}

/// Get a `TlsAcceptor` from PEM certificate and key data, offering HTTP/1.1 and
/// HTTP/1.0 over ALPN.
///
/// Fails with `InvalidPem` when a certificate section does not decode, or
/// (the certificates being fine) when there is no private key that decodes;
/// with `ServerConfig` when rustls rejects the pair.
pub fn get_tlsacceptor_from_pem_data(cert_data: &[u8], key_data: &[u8]) -> (r: Result<TlsAcceptor, TlsAcceptorError>)
    ensures
        !certificate_pem_ok(cert_data@) ==> r matches Err(TlsAcceptorError::InvalidPem(_)),
        certificate_pem_ok(cert_data@) && !private_key_pem_ok(key_data@) ==> r matches Err(
            TlsAcceptorError::InvalidPem(_),
        ),
        certificate_pem_ok(cert_data@) && private_key_pem_ok(key_data@) ==> (r is Ok || r matches Err(
            TlsAcceptorError::ServerConfig(_),
        )),
{
    let certs = match decode_certificates(cert_data) {
        Ok(c) => c,
        Err(e) => return Err(TlsAcceptorError::InvalidPem(e)),
    };
    let key = match decode_private_key(key_data) {
        Ok(k) => k,
        Err(e) => return Err(TlsAcceptorError::InvalidPem(e)),
    };
    let mut cfg = match single_cert_config(certs, key) {
        Ok(c) => c,
        Err(e) => return Err(TlsAcceptorError::ServerConfig(e)),
    };
    set_alpn_protocols(&mut cfg, http1_alpn_protocols());
    Ok(acceptor_from_config(cfg))
}

} // verus!
