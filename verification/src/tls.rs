//! Reading the certificates and the private key of a TLS configuration
//! from their PEM text.

use vstd::prelude::*;
use crate::frame::byte_views;

verus! {

#[verifier::external_type_specification]
#[verifier::external_body]
pub struct ExPrivateKeyDer<'a>(rustls::pki_types::PrivateKeyDer<'a>);

/// The DER bytes of the certificates that `rustls_pemfile::certs` reads
/// from `pem`, in order, or `None` when reading a section fails.
pub uninterp spec fn pem_certs(pem: Seq<u8>) -> Option<Seq<Seq<u8>>>;

/// What `rustls_pemfile::private_key` finds in `pem`: `Some(true)` when
/// it finds a private key, `Some(false)` when there is none, `None` when
/// reading a section fails.
pub uninterp spec fn pem_key_found(pem: Seq<u8>) -> Option<bool>;

/// Reads the certificates of `pem` with `rustls_pemfile::certs`, each as
/// its DER bytes, stopping at the first section that fails to read. The
/// result is named, not stated.
#[verifier::external_body]
fn parse_pem_certs(pem: &[u8]) -> (res: Option<Vec<Vec<u8>>>)
    ensures
        match res {
            Some(v) => pem_certs(pem@) == Some(byte_views(v@)),
            None => pem_certs(pem@) is None,
        },
{
    let mut rd = pem;
    rustls_pemfile::certs(&mut rd).map(|c| c.map(|d| d.as_ref().to_vec())).collect::<Result<Vec<Vec<u8>>, _>>().ok()
}

/// Reads the first private key of `pem` with `rustls_pemfile::private_key`.
/// Whether one is found is named; the key is handed on as `rustls` keeps it.
#[verifier::external_body]
fn parse_pem_key(pem: &[u8]) -> (res: Result<Option<rustls::pki_types::PrivateKeyDer<'static>>, ()>)
    ensures
        match res {
            Ok(Some(_)) => pem_key_found(pem@) == Some(true),
            Ok(None) => pem_key_found(pem@) == Some(false),
            Err(_) => pem_key_found(pem@) is None,
        },
{
    let mut rd = pem;
    rustls_pemfile::private_key(&mut rd).map_err(|_| ())
}

/// Why the key of a TLS configuration could not be read.
#[derive(Clone, Copy, Debug, PartialEq, Eq, Structural)]
pub enum TlsKeyError {
    /// A section of the key's PEM text failed to read.
    InvalidKey,
}

/// The certificates to trust from a CA file's PEM text, as DER bytes;
/// `None` when a section fails to read.
pub fn ca_certs(pem: &[u8]) -> (res: Option<Vec<Vec<u8>>>)
    ensures
        match res {
            Some(v) => pem_certs(pem@) == Some(byte_views(v@)),
            None => pem_certs(pem@) is None,
        },
{
    parse_pem_certs(pem)
}

/// The certificate chain and private key of a server or client, from
/// their PEM texts: every certificate must read and the key text must
/// hold a key; a key text that fails to read is reported.
pub fn cert_key(
    cert_pem: &[u8],
    key_pem: &[u8],
) -> (res: Result<(Vec<Vec<u8>>, rustls::pki_types::PrivateKeyDer<'static>), TlsKeyError>)
    requires
        pem_certs(cert_pem@) is Some,
        pem_key_found(key_pem@) != Some(false),
    ensures
        match res {
            Ok((c, _)) => pem_certs(cert_pem@) == Some(byte_views(c@)) && pem_key_found(key_pem@) == Some(
                true,
            ),
            Err(e) => e == TlsKeyError::InvalidKey && pem_key_found(key_pem@) is None,
        },
{
    let certs = match parse_pem_certs(cert_pem) {
        Some(c) => c,
        None => {
            return Err(TlsKeyError::InvalidKey);
        },
    };
    match parse_pem_key(key_pem) {
        Ok(Some(k)) => Ok((certs, k)),
        Ok(None) => Err(TlsKeyError::InvalidKey),
        Err(_) => Err(TlsKeyError::InvalidKey),
    }
}

/// `cert_key` where it applies: `None` when a certificate fails to read
/// or the key text holds no key (where the configuration cannot be used
/// at all); otherwise what `cert_key` gives.
pub fn checked_cert_key(
    cert_pem: &[u8],
    key_pem: &[u8],
) -> (res: Option<Result<(Vec<Vec<u8>>, rustls::pki_types::PrivateKeyDer<'static>), TlsKeyError>>)
    ensures
        match res {
            None => pem_certs(cert_pem@) is None || pem_key_found(key_pem@) == Some(false),
            Some(Ok((c, _))) => pem_certs(cert_pem@) == Some(byte_views(c@)) && pem_key_found(key_pem@)
                == Some(true),
            Some(Err(e)) => e == TlsKeyError::InvalidKey && pem_certs(cert_pem@) is Some && pem_key_found(
                key_pem@,
            ) is None,
        },
{
    if parse_pem_certs(cert_pem).is_none() {
        return None;
    }
    match parse_pem_key(key_pem) {
        Ok(None) => None,
        _ => Some(cert_key(cert_pem, key_pem)),
    }
}

} // verus!
