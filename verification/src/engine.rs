//! The boundary to the protocol engine.
//!
//! Everything in this file is believed, not proved: the declarations of the
//! engine's types, and the small functions through which the library calls
//! `quinn`, `rustls` and `webpki`. Each says which function it calls and what it
//! claims of it.
use crate::peer_config::ProofScheme;
use std::time::Duration;
use vstd::prelude::*;

verus! {

/// Largest number of milliseconds the engine takes for an idle timeout:
/// the greatest variable-length integer of the wire format, `2^62 - 1`.
pub const MAX_ENGINE_MILLIS: u64 = 4_611_686_018_427_387_903;

/// `quinn::TransportConfig`: the engine's transport tuning, carried as it is.
#[verifier::external_type_specification]
#[verifier::external_body]
pub struct ExTransportConfig(quinn::TransportConfig);

/// `rustls::TLSError`: the engine's error, carried as it is.
#[verifier::external_type_specification]
#[verifier::external_body]
pub struct ExTlsError(rustls::TLSError);

/// `rustls::RootCertStore`: the roots that a verifier is handed.
#[verifier::external_type_specification]
#[verifier::external_body]
pub struct ExRootCertStore(rustls::RootCertStore);

/// `rustls::Certificate`: a certificate that a peer presented.
#[verifier::external_type_specification]
#[verifier::external_body]
pub struct ExCertificate(rustls::Certificate);

/// `rustls::ServerCertVerified`: the marker of an accepted chain.
#[verifier::external_type_specification]
#[verifier::external_body]
pub struct ExServerCertVerified(rustls::ServerCertVerified);

/// `webpki::DNSNameRef`: the name that the peer was asked for.
#[verifier::external_type_specification]
#[verifier::external_body]
pub struct ExDnsNameRef<'a>(webpki::DNSNameRef<'a>);

/// The idle timeout that a transport configuration of the engine holds, in
/// whole milliseconds: its field `max_idle_timeout`. `None` is no timeout.
pub uninterp spec fn configured_idle_timeout(config: quinn::TransportConfig) -> Option<u64>;

/// The keep-alive interval that a transport configuration of the engine
/// holds, in whole milliseconds: its field `keep_alive_interval`. `None` is
/// no keep-alive.
pub uninterp spec fn configured_keep_alive(config: quinn::TransportConfig) -> Option<u64>;

/// `quinn::TransportConfig::default`: the engine's own tuning, of which
/// nothing is claimed.
#[verifier::external_body]
pub(crate) fn default_transport() -> quinn::TransportConfig {
    quinn::TransportConfig::default()
}

/// `quinn::TransportConfig::max_idle_timeout`: the engine takes no timeout,
/// or one of at most `MAX_ENGINE_MILLIS` milliseconds, and then holds it;
/// it refuses any other and then holds what it held. The keep-alive
/// interval is not touched.
#[verifier::external_body]
pub(crate) fn set_idle_timeout(
    config: &mut quinn::TransportConfig,
    idle_timeout: Option<u64>,
) -> (accepted: bool)
    ensures
        accepted == (idle_timeout matches Some(t) ==> t <= MAX_ENGINE_MILLIS),
        accepted ==> configured_idle_timeout(*final(config)) == idle_timeout,
        !accepted ==> configured_idle_timeout(*final(config)) == configured_idle_timeout(
            *old(config),
        ),
        configured_keep_alive(*final(config)) == configured_keep_alive(*old(config)),
{
    config.max_idle_timeout(idle_timeout.map(Duration::from_millis)).is_ok()
}

/// `quinn::TransportConfig::keep_alive_interval`: the engine holds the
/// interval afterwards; the call cannot fail. The idle timeout is not
/// touched.
#[verifier::external_body]
pub(crate) fn set_keep_alive(config: &mut quinn::TransportConfig, interval: u64)
    ensures
        configured_keep_alive(*final(config)) == Some(interval),
        configured_idle_timeout(*final(config)) == configured_idle_timeout(*old(config)),
{
    config.keep_alive_interval(Some(Duration::from_millis(interval)));
}

/// A chain of DER-encoded certificates as sequences of bytes.
pub open spec fn der_chain(chain: Seq<Vec<u8>>) -> Seq<Seq<u8>> {
    Seq::new(chain.len(), |i: int| chain[i]@)
}

/// Whether the bytes parse as a DER-encoded X.509 certificate of version 3.
/// The answer is that of `webpki::EndEntityCert::from` and depends on the
/// bytes alone.
pub uninterp spec fn certificate_well_formed(certificate: Seq<u8>) -> bool;

/// `webpki::EndEntityCert::from`: tells whether the bytes parse as a
/// certificate.
#[verifier::external_body]
pub(crate) fn examine_certificate(certificate: &Vec<u8>) -> (well_formed: bool)
    ensures
        well_formed == certificate_well_formed(certificate@),
{
    webpki::EndEntityCert::from(certificate).is_ok()
}

/// `rustls::sign::Signer::sign`, on the signer that the key gives for the
/// scheme (`rustls::sign::any_supported_type`, then `choose_scheme`): a
/// signature of the message, or nothing where the key is malformed, is not
/// of the scheme's kind, or fails to sign. The scheme is handed on as the
/// value that rustls has for it. Signing draws random bytes, so nothing is
/// claimed of the signature.
#[verifier::external_body]
pub(crate) fn sign_with_key(
    private_key: &Vec<u8>,
    scheme: ProofScheme,
    message: &Vec<u8>,
) -> (signature: Option<Vec<u8>>) {
    let offered = match scheme {
        ProofScheme::EcdsaP256Sha256 => rustls::SignatureScheme::ECDSA_NISTP256_SHA256,
        ProofScheme::EcdsaP384Sha384 => rustls::SignatureScheme::ECDSA_NISTP384_SHA384,
        ProofScheme::RsaPkcs1Sha256 => rustls::SignatureScheme::RSA_PKCS1_SHA256,
    };
    let key = rustls::sign::any_supported_type(&rustls::PrivateKey(private_key.clone())).ok()?;
    key.choose_scheme(&[offered])?.sign(message).ok()
}

/// Whether a signature of a message, made under the scheme with the given
/// code, verifies with the public key of a DER-encoded certificate. The
/// answer is that of `webpki::EndEntityCert::verify_signature` on the parsed
/// certificate, is false where the certificate does not parse, and depends
/// on the four arguments alone.
pub uninterp spec fn signature_verifies(
    certificate: Seq<u8>,
    scheme: u16,
    message: Seq<u8>,
    signature: Seq<u8>,
) -> bool;

/// `webpki::EndEntityCert::verify_signature`, on the certificate parsed by
/// `webpki::EndEntityCert::from`, with the algorithm of webpki that stands
/// for the scheme.
#[verifier::external_body]
pub(crate) fn verify_with_certificate(
    certificate: &Vec<u8>,
    scheme: ProofScheme,
    message: &Vec<u8>,
    signature: &Vec<u8>,
) -> (valid: bool)
    ensures
        valid == signature_verifies(certificate@, scheme.code(), message@, signature@),
{
    let algorithm = match scheme {
        ProofScheme::EcdsaP256Sha256 => &webpki::ECDSA_P256_SHA256,
        ProofScheme::EcdsaP384Sha384 => &webpki::ECDSA_P384_SHA384,
        ProofScheme::RsaPkcs1Sha256 => &webpki::RSA_PKCS1_2048_8192_SHA256,
    };
    webpki::EndEntityCert::from(certificate)
        .and_then(|cert| cert.verify_signature(algorithm, message, signature))
        .is_ok()
}

/// Whether the engine takes a certificate chain and a private key, both
/// DER-encoded, as the identity of a listener. The answer is that of
/// `quinn::ServerConfigBuilder::certificate` and depends on the two
/// arguments alone.
pub uninterp spec fn identity_accepted(
    certificate_chain: Seq<Seq<u8>>,
    private_key: Seq<u8>,
) -> bool;

/// `quinn::ServerConfigBuilder::certificate` on a fresh builder: succeeds
/// exactly when the engine takes the identity, and gives the engine's error
/// otherwise. The key reaches the engine through `quinn::PrivateKey::from_der`,
/// whose own refusal counts as the engine's.
#[verifier::external_body]
pub(crate) fn offer_identity(
    certificate_chain: &Vec<Vec<u8>>,
    private_key: &Vec<u8>,
) -> (r: Result<(), rustls::TLSError>)
    ensures
        r is Ok <==> identity_accepted(der_chain(certificate_chain@), private_key@),
{
    let certs = certificate_chain.iter().map(|der| rustls::Certificate(der.clone()));
    let chain = quinn::CertificateChain::from_certs(certs.map(quinn::Certificate::from));
    let key = quinn::PrivateKey::from_der(private_key)
        .map_err(|e| rustls::TLSError::General(e.to_string()))?;
    quinn::ServerConfigBuilder::default().certificate(chain, key).map(|_| ())
}

/// `rustls::ServerCertVerified::assertion`: the marker that a verifier hands
/// back when it accepts a chain. It carries no data.
pub assume_specification[ rustls::ServerCertVerified::assertion ]() -> (marker:
    rustls::ServerCertVerified);

/// The subjects of the roots that a store holds, in the store's order: the
/// field `subject` of each entry of `rustls::RootCertStore::roots`.
pub uninterp spec fn trusted_subjects(roots: rustls::RootCertStore) -> Seq<Seq<u8>>;

/// `rustls::WebPKIVerifier::verify_server_cert`: standard chain validation
/// against the roots, the peer's name and the current time. The outcome
/// depends on the clock, so only what holds at any time is claimed of it.
/// A peer that presented no certificate is refused, which the verifier
/// settles before it looks at anything else. And where the store holds no
/// root, every chain is refused: a chain is accepted only once a root has
/// vouched for one of its certificates.
#[verifier::external_body]
pub(crate) fn standard_verification(
    roots: &rustls::RootCertStore,
    presented_certs: &[rustls::Certificate],
    dns_name: webpki::DNSNameRef,
    ocsp_response: &[u8],
) -> (r: Result<rustls::ServerCertVerified, rustls::TLSError>)
    ensures
        presented_certs@.len() == 0 ==> r is Err,
        trusted_subjects(*roots).len() == 0 ==> r is Err,
{
    rustls::ServerCertVerifier::verify_server_cert(
        &rustls::WebPKIVerifier::new(),
        roots,
        presented_certs,
        dns_name,
        ocsp_response,
    )
}

} // verus!
