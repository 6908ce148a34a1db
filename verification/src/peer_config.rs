//! Connect-side and listen-side configurations.
use crate::engine::{
    certificate_well_formed, der_chain, examine_certificate, identity_accepted, offer_identity,
    sign_with_key, signature_verifies, verify_with_certificate,
};
use crate::transport::{build_transport, TransportParameters, TransportView};
use crate::trust::TrustPolicy;
use vstd::prelude::*;

verus! {

/// Why a configuration could not be built.
#[derive(Clone, Copy, Debug, PartialEq, Eq, Structural)]
pub enum ConfigError {
    /// The identity cannot be presented: the chain is empty, one of its
    /// certificates is malformed, the engine does not take the key, or the
    /// key does not belong to the first certificate.
    InvalidIdentity,
    /// The engine does not take the idle timeout: it exceeds the engine's bound.
    InvalidTransport,
}

/// What a listener presents to the peers that connect to it.
#[derive(Debug, PartialEq, Eq)]
pub struct Identity {
    /// DER-encoded certificates, the listener's own first.
    pub certificate_chain: Vec<Vec<u8>>,
    /// DER-encoded private key of the first certificate.
    pub private_key: Vec<u8>,
}

/// An identity as plain sequences of bytes.
pub struct IdentityView {
    pub certificate_chain: Seq<Seq<u8>>,
    pub private_key: Seq<u8>,
}

/// A way of signing by which a key shows that it belongs to a certificate.
#[derive(Clone, Copy, Debug, PartialEq, Eq, Structural)]
pub enum ProofScheme {
    /// ECDSA on the curve P-256 with SHA-256.
    EcdsaP256Sha256,
    /// ECDSA on the curve P-384 with SHA-384.
    EcdsaP384Sha384,
    /// RSA with PKCS #1 v1.5 padding and SHA-256.
    RsaPkcs1Sha256,
}

impl ProofScheme {
    /// The code of the scheme in the handshake protocol.
    pub open spec fn code(self) -> u16 {
        match self {
            ProofScheme::EcdsaP256Sha256 => 0x0403,
            ProofScheme::EcdsaP384Sha384 => 0x0503,
            ProofScheme::RsaPkcs1Sha256 => 0x0401,
        }
    }
}

/// The message that a key signs to show that it belongs to a certificate:
/// the ASCII text `identity`.
pub open spec fn proof_message() -> Seq<u8> {
    seq![0x69u8, 0x64u8, 0x65u8, 0x6eu8, 0x74u8, 0x69u8, 0x74u8, 0x79u8]
}

/// Some signature of the proof message verifies with the certificate's public
/// key: what is known of a certificate once a key has shown that it belongs
/// to it.
pub open spec fn proof_verified(certificate: Seq<u8>) -> bool {
    exists|scheme: ProofScheme, signature: Seq<u8>|
        signature_verifies(certificate, scheme.code(), proof_message(), signature)
}

impl IdentityView {
    /// Every certificate of the chain is well formed.
    pub open spec fn well_formed(self) -> bool {
        forall|i: int|
            0 <= i < self.certificate_chain.len() ==> certificate_well_formed(
                #[trigger] self.certificate_chain[i],
            )
    }

    /// The identity can be presented as far as its bytes tell: the chain has
    /// a first certificate, every certificate of it is well formed, and the
    /// engine takes the chain with the key.
    pub open spec fn presentable(self) -> bool {
        &&& self.certificate_chain.len() > 0
        &&& self.well_formed()
        &&& identity_accepted(self.certificate_chain, self.private_key)
    }
}

impl View for Identity {
    type V = IdentityView;

    open spec fn view(&self) -> IdentityView {
        IdentityView {
            certificate_chain: der_chain(self.certificate_chain@),
            private_key: self.private_key@,
        }
    }
}

impl Clone for Identity {
    fn clone(&self) -> (copy: Self)
        ensures
            copy@ == self@,
    {
        let mut certificate_chain: Vec<Vec<u8>> = Vec::new();
        let mut i: usize = 0;
        while i < self.certificate_chain.len()
            invariant
                i <= self.certificate_chain.len(),
                certificate_chain.len() == i,
                forall|j: int| 0 <= j < i ==> certificate_chain[j]@ == self.certificate_chain[j]@,
            decreases self.certificate_chain.len() - i,
        {
            certificate_chain.push(self.certificate_chain[i].clone());
            i += 1;
        }
        assert(der_chain(certificate_chain@) =~= der_chain(self.certificate_chain@));
        Identity { certificate_chain, private_key: self.private_key.clone() }
    }
}

/// Configuration of outbound connection attempts. It is built by
/// `build_client_config` and read through its methods.
#[derive(Clone, Copy, Debug, PartialEq, Eq)]
pub struct ClientConfig {
    transport: TransportParameters,
    trust: TrustPolicy,
}

/// The configuration of outbound connection attempts as plain values.
pub struct ClientConfigView {
    pub transport: TransportView,
    pub trust: TrustPolicy,
}

impl View for ClientConfig {
    type V = ClientConfigView;

    closed spec fn view(&self) -> ClientConfigView {
        ClientConfigView { transport: self.transport@, trust: self.trust }
    }
}

impl ClientConfig {
    /// Transport tuning of the connections.
    pub fn transport(&self) -> (transport: TransportParameters)
        ensures
            transport@ == self@.transport,
    {
        self.transport
    }

    /// How the peer's certificate is judged.
    pub fn trust(&self) -> (trust: TrustPolicy)
        ensures
            trust == self@.trust,
    {
        self.trust
    }
}

/// Configuration of a listener. It is built by `build_server_config` and
/// read through its methods; stateless retry is on in every value.
#[derive(Debug, PartialEq, Eq)]
pub struct ServerConfig {
    transport: TransportParameters,
    identity: Identity,
    stateless_retry_enabled: bool,
}

/// A listener's configuration as plain values.
pub struct ServerConfigView {
    pub transport: TransportView,
    pub identity: IdentityView,
    pub stateless_retry_enabled: bool,
}

impl View for ServerConfig {
    type V = ServerConfigView;

    closed spec fn view(&self) -> ServerConfigView {
        ServerConfigView {
            transport: self.transport@,
            identity: self.identity@,
            stateless_retry_enabled: self.stateless_retry_enabled,
        }
    }
}

impl Clone for ServerConfig {
    fn clone(&self) -> (copy: Self)
        ensures
            copy@ == self@,
    {
        proof {
            use_type_invariant(self);
        }
        ServerConfig {
            transport: self.transport,
            identity: self.identity.clone(),
            stateless_retry_enabled: true,
        }
    }
}

impl ServerConfig {
    #[verifier::type_invariant]
    spec fn retry_is_on(self) -> bool {
        self.stateless_retry_enabled
    }

    /// Transport tuning of the accepted connections.
    pub fn transport(&self) -> (transport: TransportParameters)
        ensures
            transport@ == self@.transport,
    {
        self.transport
    }

    /// The identity presented to peers.
    pub fn identity(&self) -> (identity: &Identity)
        ensures
            identity@ == self@.identity,
    {
        &self.identity
    }

    /// Whether a peer has to prove that it owns its address before the
    /// listener commits resources to it. Always true.
    pub fn stateless_retry_enabled(&self) -> (enabled: bool)
        ensures
            enabled,
            enabled == self@.stateless_retry_enabled,
    {
        proof {
            use_type_invariant(self);
        }
        self.stateless_retry_enabled
    }
}

/// The outcome of building a listener's configuration, given whether the
/// identity can be presented.
pub open spec fn server_config_outcome(
    transport: TransportView,
    identity: IdentityView,
    presentable: bool,
) -> Result<ServerConfigView, ConfigError> {
    if presentable {
        Ok(ServerConfigView { transport, identity, stateless_retry_enabled: true })
    } else {
        Err(ConfigError::InvalidIdentity)
    }
}

/// A build result with the configuration taken by its view.
pub open spec fn outcome_view(r: Result<ServerConfig, ConfigError>) -> Result<
    ServerConfigView,
    ConfigError,
> {
    match r {
        Ok(config) => Ok(config@),
        Err(e) => Err(e),
    }
}

/// Composes transport tuning and a trust policy into the configuration of
/// outbound connections. It cannot fail.
pub fn build_client_config(transport: TransportParameters, trust: TrustPolicy) -> (config:
    ClientConfig)
    ensures
        config@ == (ClientConfigView { transport: transport@, trust }),
{
    ClientConfig { transport, trust }
}

/// Tells whether every certificate of a chain is well formed.
fn examine_chain(chain: &Vec<Vec<u8>>) -> (well_formed: bool)
    ensures
        well_formed == forall|i: int|
            0 <= i < chain.len() ==> certificate_well_formed(#[trigger] der_chain(chain@)[i]),
{
    let mut i: usize = 0;
    while i < chain.len()
        invariant
            i <= chain.len(),
            forall|j: int| 0 <= j < i ==> certificate_well_formed(#[trigger] der_chain(chain@)[j]),
        decreases chain.len() - i,
    {
        if !examine_certificate(&chain[i]) {
            assert(!certificate_well_formed(der_chain(chain@)[i as int]));
            return false;
        }
        i += 1;
    }
    true
}

/// The proof message as bytes.
fn proof_bytes() -> (message: Vec<u8>)
    ensures
        message@ == proof_message(),
{
    let message: Vec<u8> = vec![0x69u8, 0x64u8, 0x65u8, 0x6eu8, 0x74u8, 0x69u8, 0x74u8, 0x79u8];
    assert(message@ =~= proof_message());
    message
}

/// What a signature, made by the key under a scheme, says of the key and the
/// certificate: the key belongs to the certificate where the signature
/// verifies with the certificate's public key.
pub fn signature_shows(certificate: &Vec<u8>, scheme: ProofScheme, signature: &Vec<u8>) -> (shown:
    bool)
    ensures
        shown == signature_verifies(certificate@, scheme.code(), proof_message(), signature@),
        shown ==> proof_verified(certificate@),
{
    let message = proof_bytes();
    verify_with_certificate(certificate, scheme, &message, signature)
}

/// A signature that may be missing, as a sequence of bytes.
pub open spec fn signature_view(signature: Option<Vec<u8>>) -> Option<Seq<u8>> {
    match signature {
        Some(bytes) => Some(bytes@),
        None => None,
    }
}

/// Whether a key has shown that it belongs to a certificate, given the
/// signatures of the proof message that it gave under the three schemes,
/// each there or not. The first signature that is there decides: the key
/// belongs to the certificate where that signature verifies with the
/// certificate's public key under its scheme. A key that signed under no
/// scheme has shown nothing.
pub open spec fn key_shown(
    certificate: Seq<u8>,
    p256: Option<Seq<u8>>,
    p384: Option<Seq<u8>>,
    rsa: Option<Seq<u8>>,
) -> bool {
    if let Some(signature) = p256 {
        signature_verifies(
            certificate,
            ProofScheme::EcdsaP256Sha256.code(),
            proof_message(),
            signature,
        )
    } else if let Some(signature) = p384 {
        signature_verifies(
            certificate,
            ProofScheme::EcdsaP384Sha384.code(),
            proof_message(),
            signature,
        )
    } else if let Some(signature) = rsa {
        signature_verifies(
            certificate,
            ProofScheme::RsaPkcs1Sha256.code(),
            proof_message(),
            signature,
        )
    } else {
        false
    }
}

/// Tells whether a key has shown that it belongs to a certificate, from the
/// signatures of the proof message that it gave under the three schemes.
pub fn key_shown_by(
    certificate: &Vec<u8>,
    p256: Option<Vec<u8>>,
    p384: Option<Vec<u8>>,
    rsa: Option<Vec<u8>>,
) -> (shown: bool)
    ensures
        shown == key_shown(
            certificate@,
            signature_view(p256),
            signature_view(p384),
            signature_view(rsa),
        ),
        shown ==> proof_verified(certificate@),
{
    match p256 {
        Some(signature) => signature_shows(certificate, ProofScheme::EcdsaP256Sha256, &signature),
        None => match p384 {
            Some(signature) => signature_shows(
                certificate,
                ProofScheme::EcdsaP384Sha384,
                &signature,
            ),
            None => match rsa {
                Some(signature) => signature_shows(
                    certificate,
                    ProofScheme::RsaPkcs1Sha256,
                    &signature,
                ),
                None => false,
            },
        },
    }
}

/// Tells whether the key shows that it belongs to the certificate: the key
/// signs the proof message under each of the three schemes, and the answer
/// is that of `key_shown_by` on what signing gave. Signing draws random
/// bytes, so which signatures come is open; whichever come, an answer of
/// `true` rests on a signature that verifies with the certificate's public
/// key.
pub fn key_belongs_to(certificate: &Vec<u8>, private_key: &Vec<u8>) -> (shown: bool)
    ensures
        shown ==> proof_verified(certificate@),
{
    let message = proof_bytes();
    let p256 = sign_with_key(private_key, ProofScheme::EcdsaP256Sha256, &message);
    let p384 = sign_with_key(private_key, ProofScheme::EcdsaP384Sha384, &message);
    let rsa = sign_with_key(private_key, ProofScheme::RsaPkcs1Sha256, &message);
    key_shown_by(certificate, p256, p384, rsa)
}

/// Composes transport tuning and an identity into a listener's
/// configuration, given what was found of the identity: whether every
/// certificate of its chain is well formed, whether the key has shown that
/// it belongs to the first certificate, and the engine's answer on the chain
/// and the key. An identity with an empty chain, a malformed certificate, a
/// key that has not shown itself or a refusal of the engine gives
/// `ConfigError::InvalidIdentity`; any other gives a configuration with
/// stateless retry on.
pub fn server_config_from(
    transport: TransportParameters,
    identity: Identity,
    well_formed: bool,
    key_belongs: bool,
    answer: Result<(), rustls::TLSError>,
) -> (r: Result<ServerConfig, ConfigError>)
    ensures
        outcome_view(r) == server_config_outcome(
            transport@,
            identity@,
            identity@.certificate_chain.len() > 0 && well_formed && key_belongs && answer is Ok,
        ),
{
    if identity.certificate_chain.len() == 0 || !well_formed || !key_belongs {
        return Err(ConfigError::InvalidIdentity);
    }
    match answer {
        Ok(_) => Ok(ServerConfig { transport, identity, stateless_retry_enabled: true }),
        Err(_) => Err(ConfigError::InvalidIdentity),
    }
}

/// What holds of the outcome of building a listener's configuration: the
/// only error is `ConfigError::InvalidIdentity`; an identity that is not
/// presentable gives it; and a configuration, where one comes back, holds
/// the transport tuning and the identity with stateless retry on, for an
/// identity that is presentable and whose key has shown that it belongs to
/// the first certificate.
pub open spec fn server_config_built(
    transport: TransportView,
    identity: IdentityView,
    r: Result<ServerConfigView, ConfigError>,
) -> bool {
    match r {
        Ok(config) => {
            &&& config == (ServerConfigView { transport, identity, stateless_retry_enabled: true })
            &&& identity.presentable()
            &&& proof_verified(identity.certificate_chain[0])
        },
        Err(e) => e == ConfigError::InvalidIdentity,
    }
}

/// Composes transport tuning and an identity into a listener's
/// configuration. The chain is examined, the engine is asked whether it
/// takes the identity, and the key has to show, by a signature, that it
/// belongs to the first certificate; the result is that of
/// `server_config_from` on the three findings. Stateless retry is on in the
/// configuration: it keeps a peer from making the listener answer to a
/// forged address.
///
/// Signing draws random bytes, so which signature the key gives is open;
/// what holds whichever it gives is `server_config_built`.
pub fn build_server_config(transport: TransportParameters, identity: Identity) -> (r: Result<
    ServerConfig,
    ConfigError,
>)
    ensures
        server_config_built(transport@, identity@, outcome_view(r)),
{
    let well_formed = examine_chain(&identity.certificate_chain);
    let answer = offer_identity(&identity.certificate_chain, &identity.private_key);
    let taken = match &answer {
        Ok(_) => true,
        Err(_) => false,
    };
    let key_belongs = identity.certificate_chain.len() > 0 && well_formed && taken
        && key_belongs_to(&identity.certificate_chain[0], &identity.private_key);
    server_config_from(transport, identity, well_formed, key_belongs, answer)
}

/// The configuration of outbound connections with the given idle timeout
/// and keep-alive interval in milliseconds, under the trust policy that the
/// caller names. Nothing is chosen for the caller: whoever wants
/// certificates to go unchecked writes `TrustPolicy::AcceptAny` in the call.
pub fn new_client_cfg(
    idle_timeout_msec: u64,
    keep_alive_interval_msec: u32,
    trust: TrustPolicy,
) -> (config: ClientConfig)
    ensures
        config@ == (ClientConfigView {
            transport: TransportView::of(idle_timeout_msec, keep_alive_interval_msec),
            trust,
        }),
{
    build_client_config(build_transport(idle_timeout_msec, keep_alive_interval_msec), trust)
}

/// The identity made of one certificate and its key.
pub open spec fn single_certificate(certificate: Seq<u8>, private_key: Seq<u8>) -> IdentityView {
    IdentityView { certificate_chain: seq![certificate], private_key }
}

/// A listener's configuration with the given idle timeout and keep-alive
/// interval in milliseconds, presenting one DER-encoded certificate with its
/// DER-encoded private key. It is built as `build_server_config` builds it.
pub fn new_our_cfg(
    idle_timeout_msec: u64,
    keep_alive_interval_msec: u32,
    our_cert: Vec<u8>,
    our_key: Vec<u8>,
) -> (r: Result<ServerConfig, ConfigError>)
    ensures
        server_config_built(
            TransportView::of(idle_timeout_msec, keep_alive_interval_msec),
            single_certificate(our_cert@, our_key@),
            outcome_view(r),
        ),
{
    let transport = build_transport(idle_timeout_msec, keep_alive_interval_msec);
    let ghost cert = our_cert@;
    let identity = Identity { certificate_chain: vec![our_cert], private_key: our_key };
    assert(identity@.certificate_chain =~= seq![cert]);
    build_server_config(transport, identity)
}

} // verus!
