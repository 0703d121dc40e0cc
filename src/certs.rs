//! The server's TLS identity: where its key and certificate chain are
//! kept, and how their file contents become a private key and a chain.
//! Reading the files happens outside; PEM parsing is rustls-pemfile's.
use vstd::prelude::*;
use crate::alpn::byte_strings;

verus! {

/// A filesystem path of std, carried through opaquely.
#[verifier::external_type_specification]
#[verifier::external_body]
pub struct ExPathBuf(std::path::PathBuf);

/// Where the certificate chain and the private key are stored.
#[derive(Debug)]
pub struct Certs {
    pub cert: std::path::PathBuf,
    pub key: std::path::PathBuf,
}

/// Whether a file extension marks a DER file: it is exactly `der`.
pub fn is_der_extension(ext: Option<&str>) -> (r: bool)
    ensures
        r == (ext matches Some(e) && e@ == "der"@),
{
    proof {
        reveal_strlit("der");
    }
    match ext {
        None => false,
        Some(e) => {
            if e.unicode_len() != 3 {
                return false;
            }
            let r = e.get_char(0) == 'd' && e.get_char(1) == 'e' && e.get_char(2) == 'r';
            proof {
                if r {
                    assert(e@ =~= "der"@);
                }
            }
            r
        },
    }
}

/// Why key or certificate material could not be used.
#[derive(Debug, Clone, Copy, PartialEq, Eq, Structural)]
pub enum CertError {
    /// The PEM text could not be read as PKCS #8 key sections.
    MalformedPkcs8Key,
    /// The PEM text could not be read as RSA key sections.
    MalformedRsaKey,
    /// The PEM text holds neither a PKCS #8 nor an RSA key.
    NoPrivateKey,
    /// The PEM text could not be read as certificate sections.
    MalformedCertChain,
}

/// The DER bodies of the `PRIVATE KEY` sections of a PEM text, in order,
/// or `None` where rustls-pemfile rejects the text.
pub uninterp spec fn pem_pkcs8_keys(pem: Seq<u8>) -> Option<Seq<Seq<u8>>>;

/// The DER bodies of the `RSA PRIVATE KEY` sections of a PEM text.
pub uninterp spec fn pem_rsa_keys(pem: Seq<u8>) -> Option<Seq<Seq<u8>>>;

/// The DER bodies of the `CERTIFICATE` sections of a PEM text.
pub uninterp spec fn pem_certs(pem: Seq<u8>) -> Option<Seq<Seq<u8>>>;

/// The byte strings of an optional parse result.
pub open spec fn opt_byte_strings(o: Option<Vec<Vec<u8>>>) -> Option<Seq<Seq<u8>>> {
    match o {
        Some(v) => Some(byte_strings(v@)),
        None => None,
    }
}

/// A key result with the key as bytes.
pub open spec fn key_result_view(r: Result<Vec<u8>, CertError>) -> Result<Seq<u8>, CertError> {
    match r {
        Ok(k) => Ok(k@),
        Err(e) => Err(e),
    }
}

/// A chain result with each certificate as bytes.
pub open spec fn chain_result_view(r: Result<Vec<Vec<u8>>, CertError>) -> Result<
    Seq<Seq<u8>>,
    CertError,
> {
    match r {
        Ok(c) => Ok(byte_strings(c@)),
        Err(e) => Err(e),
    }
}

/// The key chosen from the parsed sections: the first PKCS #8 key, else
/// the first RSA key.
pub open spec fn key_choice(pkcs8: Option<Seq<Seq<u8>>>, rsa: Option<Seq<Seq<u8>>>) -> Result<
    Seq<u8>,
    CertError,
> {
    match pkcs8 {
        None => Err(CertError::MalformedPkcs8Key),
        Some(k) => if k.len() > 0 {
            Ok(k[0])
        } else {
            match rsa {
                None => Err(CertError::MalformedRsaKey),
                Some(r) => if r.len() > 0 {
                    Ok(r[0])
                } else {
                    Err(CertError::NoPrivateKey)
                },
            }
        },
    }
}

/// The private key held by a key file: the bytes themselves for a DER
/// file, else the key chosen from its PEM sections.
pub open spec fn key_from_file(is_der: bool, contents: Seq<u8>) -> Result<Seq<u8>, CertError> {
    if is_der {
        Ok(contents)
    } else {
        key_choice(pem_pkcs8_keys(contents), pem_rsa_keys(contents))
    }
}

/// The certificates from parsed sections.
pub open spec fn chain_choice(certs: Option<Seq<Seq<u8>>>) -> Result<Seq<Seq<u8>>, CertError> {
    match certs {
        Some(c) => Ok(c),
        None => Err(CertError::MalformedCertChain),
    }
}

/// The chain held by a certificate file: one certificate for a DER file,
/// else every certificate section of the PEM text.
pub open spec fn chain_from_file(is_der: bool, contents: Seq<u8>) -> Result<
    Seq<Seq<u8>>,
    CertError,
> {
    if is_der {
        Ok(seq![contents])
    } else {
        chain_choice(pem_certs(contents))
    }
}

/// Relies on `rustls_pemfile::pkcs8_private_keys`: reading a byte slice,
/// its result depends on the bytes alone, and an empty text holds no key.
#[verifier::external_body]
fn parse_pkcs8_keys(pem: &[u8]) -> (r: Option<Vec<Vec<u8>>>)
    ensures
        opt_byte_strings(r) == pem_pkcs8_keys(pem@),
        pem@.len() == 0 ==> opt_byte_strings(r) == Some(Seq::<Seq<u8>>::empty()),
{
    rustls_pemfile::pkcs8_private_keys(&mut &*pem).ok()
}

/// Relies on `rustls_pemfile::rsa_private_keys`: reading a byte slice, its
/// result depends on the bytes alone, and an empty text holds no key.
#[verifier::external_body]
fn parse_rsa_keys(pem: &[u8]) -> (r: Option<Vec<Vec<u8>>>)
    ensures
        opt_byte_strings(r) == pem_rsa_keys(pem@),
        pem@.len() == 0 ==> opt_byte_strings(r) == Some(Seq::<Seq<u8>>::empty()),
{
    rustls_pemfile::rsa_private_keys(&mut &*pem).ok()
}

/// Relies on `rustls_pemfile::certs`: reading a byte slice, its result
/// depends on the bytes alone, and an empty text holds no certificate.
#[verifier::external_body]
fn parse_certs(pem: &[u8]) -> (r: Option<Vec<Vec<u8>>>)
    ensures
        opt_byte_strings(r) == pem_certs(pem@),
        pem@.len() == 0 ==> opt_byte_strings(r) == Some(Seq::<Seq<u8>>::empty()),
{
    rustls_pemfile::certs(&mut &*pem).ok()
}

/// Chooses the private key from the parsed PKCS #8 and RSA sections.
pub fn pick_private_key(pkcs8: Option<Vec<Vec<u8>>>, rsa: Option<Vec<Vec<u8>>>) -> (r: Result<
    Vec<u8>,
    CertError,
>)
    ensures
        key_result_view(r) == key_choice(opt_byte_strings(pkcs8), opt_byte_strings(rsa)),
{
    match pkcs8 {
        None => Err(CertError::MalformedPkcs8Key),
        Some(mut keys) => {
            if keys.len() > 0 {
                Ok(keys.swap_remove(0))
            } else {
                match rsa {
                    None => Err(CertError::MalformedRsaKey),
                    Some(mut keys) => {
                        if keys.len() > 0 {
                            Ok(keys.swap_remove(0))
                        } else {
                            Err(CertError::NoPrivateKey)
                        }
                    },
                }
            }
        },
    }
}

/// Chooses the certificate chain from the parsed certificate sections.
pub fn pick_cert_chain(certs: Option<Vec<Vec<u8>>>) -> (r: Result<Vec<Vec<u8>>, CertError>)
    ensures
        chain_result_view(r) == chain_choice(opt_byte_strings(certs)),
{
    match certs {
        Some(c) => Ok(c),
        None => Err(CertError::MalformedCertChain),
    }
}

/// The private key held by a key file's contents; `is_der` tells a DER
/// file from a PEM one. RSA sections are only read where no PKCS #8 key is
/// found.
pub fn private_key_from_file(is_der: bool, contents: Vec<u8>) -> (r: Result<Vec<u8>, CertError>)
    ensures
        key_result_view(r) == key_from_file(is_der, contents@),
        !is_der && contents@.len() == 0 ==> r == Err::<Vec<u8>, CertError>(CertError::NoPrivateKey),
{
    if is_der {
        return Ok(contents);
    }
    let pkcs8 = parse_pkcs8_keys(contents.as_slice());
    let need_rsa = match &pkcs8 {
        Some(k) => k.len() == 0,
        None => false,
    };
    let rsa = if need_rsa {
        parse_rsa_keys(contents.as_slice())
    } else {
        None
    };
    pick_private_key(pkcs8, rsa)
}

/// The certificate chain held by a certificate file's contents.
pub fn cert_chain_from_file(is_der: bool, contents: Vec<u8>) -> (r: Result<
    Vec<Vec<u8>>,
    CertError,
>)
    ensures
        chain_result_view(r) == chain_from_file(is_der, contents@),
        !is_der && contents@.len() == 0 ==> (r matches Ok(c) && c@.len() == 0),
{
    if is_der {
        let r = vec![contents];
        assert(byte_strings(r@) =~= seq![contents@]);
        return Ok(r);
    }
    let r = pick_cert_chain(parse_certs(contents.as_slice()));
    proof {
        if let Ok(c) = &r {
            assert(byte_strings(c@).len() == c@.len());
        }
    }
    r
}

} // verus!
