//! Trust policy: who judges the certificate a peer presents.
use crate::engine::{standard_verification, trusted_subjects};
use std::sync::Arc;
use vstd::prelude::*;

verus! {

/// The strategy by which a peer's certificate chain is accepted or rejected.
///
/// The choice is explicit: there is no default, so the insecure variant is
/// never reached by accident.
#[derive(Clone, Copy, Debug, PartialEq, Eq, Structural)]
pub enum TrustPolicy {
    /// Accepts whatever the peer presents. It gives no assurance of the
    /// peer's identity and is meant for tests and local bootstrap only.
    AcceptAny,
    /// Standard chain validation against the trusted roots and the name
    /// asked for.
    Strict,
}

impl TrustPolicy {
    /// The verdict of the policy on a chain of which standard validation
    /// gave `standard`: `AcceptAny` accepts whatever validation said,
    /// `Strict` says what validation said.
    pub fn verdict(
        &self,
        standard: Result<rustls::ServerCertVerified, rustls::TLSError>,
    ) -> (r: Result<rustls::ServerCertVerified, rustls::TLSError>)
        ensures
            *self is AcceptAny ==> r is Ok,
            *self is Strict ==> r == standard,
    {
        match self {
            TrustPolicy::AcceptAny => Ok(rustls::ServerCertVerified::assertion()),
            TrustPolicy::Strict => standard,
        }
    }

    /// Tells whether the policy gives up all assurance of the peer's identity.
    pub fn is_insecure(&self) -> (insecure: bool)
        ensures
            insecure == (*self is AcceptAny),
    {
        match self {
            TrustPolicy::AcceptAny => true,
            TrustPolicy::Strict => false,
        }
    }
}

/// Certificate verifier that treats any certificate as valid: the verifier
/// of `TrustPolicy::AcceptAny`.
#[derive(Clone, Copy, Debug, PartialEq, Eq, Structural)]
pub struct SkipServerVerification;

impl SkipServerVerification {
    /// A fresh verifier, shared as the engine wants it.
    pub fn new() -> (verifier: Arc<Self>)
        ensures
            *verifier == SkipServerVerification,
    {
        Arc::new(Self)
    }
}

impl rustls::ServerCertVerifier for SkipServerVerification {
    /// Accepts the chain, whatever the roots, the chain, the name and the
    /// revocation data are.
    fn verify_server_cert(
        &self,
        _roots: &rustls::RootCertStore,
        _presented_certs: &[rustls::Certificate],
        _dns_name: webpki::DNSNameRef,
        _ocsp_response: &[u8],
    ) -> (r: Result<rustls::ServerCertVerified, rustls::TLSError>)
        ensures
            r is Ok,
    {
        Ok(rustls::ServerCertVerified::assertion())
    }
}

impl rustls::ServerCertVerifier for TrustPolicy {
    /// Judges a chain by the policy. `AcceptAny` accepts without looking;
    /// `Strict` gives the verdict on what standard validation says of the
    /// same arguments, and so never accepts a peer that presented no
    /// certificate, nor any chain where no root is trusted.
    fn verify_server_cert(
        &self,
        roots: &rustls::RootCertStore,
        presented_certs: &[rustls::Certificate],
        dns_name: webpki::DNSNameRef,
        ocsp_response: &[u8],
    ) -> (r: Result<rustls::ServerCertVerified, rustls::TLSError>)
        ensures
            *self is AcceptAny ==> r is Ok,
            *self is Strict && presented_certs@.len() == 0 ==> r is Err,
            *self is Strict && trusted_subjects(*roots).len() == 0 ==> r is Err,
    {
        match self {
            TrustPolicy::AcceptAny => {
                let verifier = SkipServerVerification;
                verifier.verify_server_cert(roots, presented_certs, dns_name, ocsp_response)
            },
            TrustPolicy::Strict => {
                let standard = standard_verification(
                    roots,
                    presented_certs,
                    dns_name,
                    ocsp_response,
                );
                self.verdict(standard)
            },
        }
    }
}

} // verus!
