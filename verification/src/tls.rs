//! Client certificates: who is let through the TLS handshake, and when the
//! host's own certificate is made.
//!
//! Any certificate that can be read is let through whatever its version, age
//! or issuer; which client it belongs to is checked elsewhere. The signature of
//! the handshake is always checked against the key in the certificate.
use aws_lc_rs::signature::{
    UnparsedPublicKey, VerificationAlgorithm, ECDSA_P256_SHA256_ASN1, ECDSA_P384_SHA384_ASN1,
    ED25519, RSA_PKCS1_2048_8192_SHA256, RSA_PKCS1_2048_8192_SHA384, RSA_PKCS1_2048_8192_SHA512,
    RSA_PSS_2048_8192_SHA256, RSA_PSS_2048_8192_SHA384, RSA_PSS_2048_8192_SHA512,
};
use rustls::pki_types::PrivateKeyDer;
use vstd::prelude::*;
use x509_parser::prelude::{FromDer, X509Certificate};

use crate::text;

verus! {

/// Why a client is refused.
#[derive(Clone, Copy, Debug, PartialEq, Eq, Structural)]
pub enum TlsError {
    /// The certificate cannot be read.
    BadEncoding,
    /// The signature does not fit.
    BadSignature,
    /// The signature scheme is not supported.
    UnsupportedSignatureAlgorithm,
}

/// The ways to check a signature.
#[derive(Clone, Copy, Debug, PartialEq, Eq, Structural)]
pub enum Algorithm {
    /// RSA, PKCS #1, SHA-256.
    RsaPkcs1Sha256,
    /// RSA, PKCS #1, SHA-384.
    RsaPkcs1Sha384,
    /// RSA, PKCS #1, SHA-512.
    RsaPkcs1Sha512,
    /// RSA, PSS, SHA-256.
    RsaPssSha256,
    /// RSA, PSS, SHA-384.
    RsaPssSha384,
    /// RSA, PSS, SHA-512.
    RsaPssSha512,
    /// ECDSA on P-256, SHA-256.
    EcdsaP256Sha256,
    /// ECDSA on P-384, SHA-384.
    EcdsaP384Sha384,
    /// Ed25519.
    Ed25519,
}

/// The public key in a certificate, `None` where the certificate cannot be
/// read.
pub uninterp spec fn public_key_in(cert_der: Seq<u8>) -> Option<Seq<u8>>;

/// `signature` is one of `message` under `public_key`.
pub uninterp spec fn signature_fits(
    algorithm: Algorithm,
    public_key: Seq<u8>,
    message: Seq<u8>,
    signature: Seq<u8>,
) -> bool;

/// `x509_parser::certificate::X509Certificate::from_der`, which reads a
/// certificate of any version; of it the bits of the subject's public key. It
/// depends on the bytes alone.
#[verifier::external_body]
fn read_public_key(cert_der: &[u8]) -> (r: Option<Vec<u8>>)
    ensures
        match r {
            Some(key) => public_key_in(cert_der@) == Some(key@),
            None => public_key_in(cert_der@) is None,
        },
{
    match X509Certificate::from_der(cert_der) {
        Ok((_, cert)) => Some(cert.public_key().subject_public_key.data.to_vec()),
        Err(_) => None,
    }
}

/// `aws_lc_rs::signature::UnparsedPublicKey::verify`, which succeeds exactly
/// where the signature is one of the message under the key. It depends on its
/// arguments alone.
#[verifier::external_body]
fn verify(algorithm: Algorithm, public_key: &[u8], message: &[u8], signature: &[u8]) -> (r: bool)
    ensures
        r == signature_fits(algorithm, public_key@, message@, signature@),
{
    let algorithm: &'static dyn VerificationAlgorithm = match algorithm {
        Algorithm::RsaPkcs1Sha256 => &RSA_PKCS1_2048_8192_SHA256,
        Algorithm::RsaPkcs1Sha384 => &RSA_PKCS1_2048_8192_SHA384,
        Algorithm::RsaPkcs1Sha512 => &RSA_PKCS1_2048_8192_SHA512,
        Algorithm::RsaPssSha256 => &RSA_PSS_2048_8192_SHA256,
        Algorithm::RsaPssSha384 => &RSA_PSS_2048_8192_SHA384,
        Algorithm::RsaPssSha512 => &RSA_PSS_2048_8192_SHA512,
        Algorithm::EcdsaP256Sha256 => &ECDSA_P256_SHA256_ASN1,
        Algorithm::EcdsaP384Sha384 => &ECDSA_P384_SHA384_ASN1,
        Algorithm::Ed25519 => &ED25519,
    };
    UnparsedPublicKey::new(algorithm, public_key).verify(message, signature).is_ok()
}

/// How a signature of the TLS scheme with this number is checked, `None` for
/// schemes that are not supported, among them ECDSA on P-521.
pub open spec fn algorithm_of(scheme: u16) -> Option<Algorithm> {
    if scheme == 0x0401 {
        Some(Algorithm::RsaPkcs1Sha256)
    } else if scheme == 0x0501 {
        Some(Algorithm::RsaPkcs1Sha384)
    } else if scheme == 0x0601 {
        Some(Algorithm::RsaPkcs1Sha512)
    } else if scheme == 0x0804 {
        Some(Algorithm::RsaPssSha256)
    } else if scheme == 0x0805 {
        Some(Algorithm::RsaPssSha384)
    } else if scheme == 0x0806 {
        Some(Algorithm::RsaPssSha512)
    } else if scheme == 0x0403 {
        Some(Algorithm::EcdsaP256Sha256)
    } else if scheme == 0x0503 {
        Some(Algorithm::EcdsaP384Sha384)
    } else if scheme == 0x0807 {
        Some(Algorithm::Ed25519)
    } else {
        None
    }
}

/// How a signature of the TLS scheme with this number is checked; see
/// [`algorithm_of`].
pub fn scheme_algorithm(scheme: u16) -> (r: Option<Algorithm>)
    ensures
        r == algorithm_of(scheme),
{
    match scheme {
        0x0401 => Some(Algorithm::RsaPkcs1Sha256),
        0x0501 => Some(Algorithm::RsaPkcs1Sha384),
        0x0601 => Some(Algorithm::RsaPkcs1Sha512),
        0x0804 => Some(Algorithm::RsaPssSha256),
        0x0805 => Some(Algorithm::RsaPssSha384),
        0x0806 => Some(Algorithm::RsaPssSha512),
        0x0403 => Some(Algorithm::EcdsaP256Sha256),
        0x0503 => Some(Algorithm::EcdsaP384Sha384),
        0x0807 => Some(Algorithm::Ed25519),
        _ => None,
    }
}

/// The public key in a certificate.
pub fn extract_public_key(cert_der: &[u8]) -> (r: Result<Vec<u8>, TlsError>)
    ensures
        match r {
            Ok(key) => public_key_in(cert_der@) == Some(key@),
            Err(e) => public_key_in(cert_der@) is None && e == TlsError::BadEncoding,
        },
{
    match read_public_key(cert_der) {
        Some(key) => Ok(key),
        None => Err(TlsError::BadEncoding),
    }
}

/// Accepts any certificate that can be read, whatever its version, age or
/// issuer.
pub fn lenient_validate(cert_der: &[u8]) -> (r: Result<(), TlsError>)
    ensures
        r == if public_key_in(cert_der@) is None {
            Err::<(), TlsError>(TlsError::BadEncoding)
        } else {
            Ok(())
        },
{
    match read_public_key(cert_der) {
        Some(_) => Ok(()),
        None => Err(TlsError::BadEncoding),
    }
}

/// What is made of a certificate's key, the scheme and what the check of the
/// signature says: the first that fails is the error.
pub open spec fn verdict_of(
    key_read: bool,
    algorithm: Option<Algorithm>,
    fits: bool,
) -> Result<(), TlsError> {
    if !key_read {
        Err(TlsError::BadEncoding)
    } else if algorithm is None {
        Err(TlsError::UnsupportedSignatureAlgorithm)
    } else if !fits {
        Err(TlsError::BadSignature)
    } else {
        Ok(())
    }
}

/// What is made of a certificate's key, the scheme and what the check of the
/// signature says; see [`verdict_of`].
pub fn verdict(key_read: bool, algorithm: Option<Algorithm>, fits: bool) -> (r: Result<(), TlsError>)
    ensures
        r == verdict_of(key_read, algorithm, fits),
{
    if !key_read {
        return Err(TlsError::BadEncoding);
    }
    match algorithm {
        None => Err(TlsError::UnsupportedSignatureAlgorithm),
        Some(_) => if fits {
            Ok(())
        } else {
            Err(TlsError::BadSignature)
        },
    }
}

/// Checks the signature of a handshake against the key in the certificate.
pub fn verify_signature_manual(
    message: &[u8],
    cert_der: &[u8],
    scheme: u16,
    signature: &[u8],
) -> (r: Result<(), TlsError>)
    ensures
        r == verdict_of(
            public_key_in(cert_der@) is Some,
            algorithm_of(scheme),
            signature_fits(
                algorithm_of(scheme)->0,
                public_key_in(cert_der@)->0,
                message@,
                signature@,
            ),
        ),
{
    let public_key = match extract_public_key(cert_der) {
        Ok(key) => key,
        Err(e) => return Err(e),
    };
    match scheme_algorithm(scheme) {
        None => verdict(true, None, false),
        Some(algorithm) => {
            let fits = verify(algorithm, public_key.as_slice(), message, signature);
            verdict(true, Some(algorithm), fits)
        },
    }
}

/// A handshake goes through only with a certificate that can be read and a
/// signature that fits its key.
pub proof fn accepted_handshakes_are_signed(key_read: bool, scheme: u16, fits: bool)
    requires
        verdict_of(key_read, algorithm_of(scheme), fits) is Ok,
    ensures
        key_read && fits && algorithm_of(scheme) is Some,
{
}

/// The kinds of private keys in a file.
#[derive(Clone, Copy, Debug, PartialEq, Eq, Structural)]
pub enum KeyKind {
    /// RSA, PKCS #1.
    Pkcs1,
    /// Elliptic curves, SEC 1.
    Sec1,
    /// Any algorithm, PKCS #8.
    Pkcs8,
    /// Some other kind.
    Other,
}

/// Why the host's certificate or key cannot be used.
#[derive(Clone, Copy, Debug, PartialEq, Eq, Structural)]
pub enum LoadError {
    /// The certificate file cannot be read as PEM.
    BadCertificates,
    /// The key file cannot be read as PEM.
    BadKey,
    /// There is no key in the key file.
    NoKey,
}

/// The certificates in a PEM file, in order, `None` where the file is
/// malformed.
pub uninterp spec fn certificates_in(pem: Seq<u8>) -> Option<Seq<Seq<u8>>>;

/// The first private key in a PEM file, `None` where there is none; an error
/// where the file is malformed before that.
pub uninterp spec fn private_key_in(pem: Seq<u8>) -> Result<Option<(KeyKind, Seq<u8>)>, ()>;

/// `rustls_pemfile::certs`, which gives the certificates of a PEM file one
/// after the other, up to the first error. On bytes in memory it depends on
/// those alone.
#[verifier::external_body]
fn read_certificates(pem: &[u8]) -> (r: Option<Vec<Vec<u8>>>)
    ensures
        match r {
            Some(certs) => certificates_in(pem@) == Some(text::views(certs@)),
            None => certificates_in(pem@) is None,
        },
{
    let mut reader = pem;
    rustls_pemfile::certs(&mut reader).map(|cert| cert.map(|cert| cert.to_vec()).ok()).collect()
}

/// `rustls_pemfile::private_key`, which gives the first private key of a PEM
/// file. On bytes in memory it depends on those alone.
#[verifier::external_body]
fn read_private_key(pem: &[u8]) -> (r: Result<Option<(KeyKind, Vec<u8>)>, ()>)
    ensures
        match r {
            Ok(Some(key)) => private_key_in(pem@) == Ok::<Option<(KeyKind, Seq<u8>)>, ()>(
                Some((key.0, key.1@)),
            ),
            Ok(None) => private_key_in(pem@) == Ok::<Option<(KeyKind, Seq<u8>)>, ()>(None),
            Err(_) => private_key_in(pem@) is Err,
        },
{
    let mut reader = pem;
    let key = rustls_pemfile::private_key(&mut reader).map_err(|_| ())?;
    Ok(key.map(|key| match &key {
        PrivateKeyDer::Pkcs1(der) => (KeyKind::Pkcs1, der.secret_pkcs1_der().to_vec()),
        PrivateKeyDer::Sec1(der) => (KeyKind::Sec1, der.secret_sec1_der().to_vec()),
        PrivateKeyDer::Pkcs8(der) => (KeyKind::Pkcs8, der.secret_pkcs8_der().to_vec()),
        _ => (KeyKind::Other, key.secret_der().to_vec()),
    }))
}

/// The certificates in the host's certificate file, given its bytes.
pub fn load_certs(pem: &[u8]) -> (r: Result<Vec<Vec<u8>>, LoadError>)
    ensures
        match r {
            Ok(certs) => certificates_in(pem@) == Some(text::views(certs@)),
            Err(e) => certificates_in(pem@) is None && e == LoadError::BadCertificates,
        },
{
    match read_certificates(pem) {
        Some(certs) => Ok(certs),
        None => Err(LoadError::BadCertificates),
    }
}

/// What is made of the first key in a key file.
pub open spec fn key_verdict<K>(read: Result<Option<K>, ()>) -> Result<K, LoadError> {
    match read {
        Ok(Some(key)) => Ok(key),
        Ok(None) => Err(LoadError::NoKey),
        Err(_) => Err(LoadError::BadKey),
    }
}

/// The private key in the host's key file, given its bytes: the first one,
/// and an error where there is none; see [`key_verdict`].
pub fn load_private_key(pem: &[u8]) -> (r: Result<(KeyKind, Vec<u8>), LoadError>)
    ensures
        match r {
            Ok(key) => key_verdict(private_key_in(pem@)) == Ok::<(KeyKind, Seq<u8>), LoadError>(
                (key.0, key.1@),
            ),
            Err(e) => key_verdict(private_key_in(pem@)) == Err::<(KeyKind, Seq<u8>), LoadError>(e),
        },
{
    match read_private_key(pem) {
        Ok(Some(key)) => Ok(key),
        Ok(None) => Err(LoadError::NoKey),
        Err(()) => Err(LoadError::BadKey),
    }
}

/// Where the host's certificate comes from.
#[derive(Clone, Copy, Debug, PartialEq, Eq, Structural)]
pub enum CertificateSource {
    /// Make a new one and keep it.
    Create,
    /// Read what is there.
    Read,
}

/// A certificate is made only where neither it nor its key is there.
pub fn certificate_source(certificate_exists: bool, key_exists: bool) -> (r: CertificateSource)
    ensures
        r == if certificate_exists || key_exists {
            CertificateSource::Read
        } else {
            CertificateSource::Create
        },
{
    if certificate_exists || key_exists {
        CertificateSource::Read
    } else {
        CertificateSource::Create
    }
}

/// Bits of the key that is made.
pub const KEY_BITS: usize = 2048;

/// Seconds for which a certificate that is made is valid: ten years.
pub const VALIDITY_SECONDS: u64 = 3650 * 24 * 60 * 60;

/// The name in a certificate that is made.
pub fn certificate_name() -> (r: &'static str)
    ensures
        r@ == "Moonshine"@,
{
    "Moonshine"
}

/// Nine signature schemes are supported, each by the number that TLS gives it
/// and each checked in its own way.
pub proof fn schemes_have_their_numbers(scheme: u16)
    ensures
        algorithm_of(scheme) == Some(Algorithm::RsaPkcs1Sha256) <==> scheme == 0x0401,
        algorithm_of(scheme) == Some(Algorithm::RsaPkcs1Sha384) <==> scheme == 0x0501,
        algorithm_of(scheme) == Some(Algorithm::RsaPkcs1Sha512) <==> scheme == 0x0601,
        algorithm_of(scheme) == Some(Algorithm::RsaPssSha256) <==> scheme == 0x0804,
        algorithm_of(scheme) == Some(Algorithm::RsaPssSha384) <==> scheme == 0x0805,
        algorithm_of(scheme) == Some(Algorithm::RsaPssSha512) <==> scheme == 0x0806,
        algorithm_of(scheme) == Some(Algorithm::EcdsaP256Sha256) <==> scheme == 0x0403,
        algorithm_of(scheme) == Some(Algorithm::EcdsaP384Sha384) <==> scheme == 0x0503,
        algorithm_of(scheme) == Some(Algorithm::Ed25519) <==> scheme == 0x0807,
{
}

/// A handshake goes through exactly if the certificate can be read, the scheme
/// is supported and the signature fits; and each refusal names what is wrong.
pub proof fn signed_handshakes_go_through(key_read: bool, algorithm: Option<Algorithm>, fits: bool)
    ensures
        verdict_of(key_read, algorithm, fits) is Ok <==> key_read && algorithm is Some && fits,
        verdict_of(key_read, algorithm, fits) == Err::<(), TlsError>(TlsError::BadEncoding)
            <==> !key_read,
        verdict_of(key_read, algorithm, fits) == Err::<(), TlsError>(
            TlsError::UnsupportedSignatureAlgorithm,
        ) <==> key_read && algorithm is None,
        verdict_of(key_read, algorithm, fits) == Err::<(), TlsError>(TlsError::BadSignature)
            <==> key_read && algorithm is Some && !fits,
{
}

/// A key file is used exactly if a key was found in it, and then that key; a
/// file without one is told apart from one that cannot be read.
pub proof fn found_keys_are_used<K>(key: K)
    ensures
        key_verdict(Ok::<Option<K>, ()>(Some(key))) == Ok::<K, LoadError>(key),
        key_verdict(Ok::<Option<K>, ()>(None)) == Err::<K, LoadError>(LoadError::NoKey),
        key_verdict(Err::<Option<K>, ()>(())) == Err::<K, LoadError>(LoadError::BadKey),
{
}

} // verus!
