//! Launch sessions: the capability under which a confidential VM is
//! booted and its measurement verified.
//!
//! A session comes in two variants. A *local* session is negotiated by
//! the tenant against a cached platform certificate chain; verification
//! and secret derivation happen in-process. A *remote* session delegates
//! negotiation and secret wrapping to an attestation broker over the
//! network; this module builds the two broker requests as plain values
//! and records the broker's answers, while the surrounding program moves
//! them over the wire.
//!
//! The cryptographic primitives themselves (certificate validation,
//! secret wrapping) are outside this library's scope. The local
//! variant's session derivation and measurement check are therefore a
//! fixed deterministic model, stated by the spec functions below: the
//! session-start blob and the expected measurement are computed from the
//! certificate chain, the policy bits and the platform build identifier,
//! and a measurement verifies exactly when it equals the expected one.

use vstd::prelude::*;

use crate::config::BootSourceConfig;
use crate::config::BootSourceConfigV;
use crate::args::SecurityInfoArgs;

verus! {

/// Number of bytes in a secret-derivation application code.
pub const APP_CODE_LEN: usize = 16;

/// Confidential-VM type tag carried by the secret-exchange request.
pub const CONFIDENTIAL_VM_TYPE: &'static str = "sev";

/// Policy bit demanding that the guest's register state be encrypted.
pub const POLICY_ENCRYPTED_STATE: u32 = 1;

/// Policy bit forbidding debug access to the guest.
pub const POLICY_NO_DEBUG: u32 = 2;

/// A precondition failure while a session was being set up.
#[derive(Clone, Copy, Debug, PartialEq, Eq, Structural)]
pub enum SessionError {
    /// The cached platform certificate chain is absent (or empty): a
    /// local session cannot be negotiated. Fatal and user-actionable;
    /// never retried.
    CertificateChainUnavailable,
    /// No attestation broker endpoint was given.
    MissingProxy,
    /// No certificate-chain file path was given.
    MissingCertChainPath,
    /// No keyset identifier was given.
    MissingKeyset,
    /// No secret GUID was given.
    MissingSecretGuid,
    /// No secret type was given.
    MissingSecretType,
    /// Pre-attestation already completed for this session; a session is
    /// immutable once negotiated.
    AlreadyNegotiated,
}

/// Why trust in the platform could not be established. Every variant is
/// fatal to the launch attempt: the VM must stay paused and must never
/// receive a resume signal.
#[derive(Clone, Copy, Debug, PartialEq, Eq, Structural)]
pub enum AttestationError {
    /// The platform's measurement does not match what the local session
    /// expects.
    MeasurementVerificationFailed,
    /// The attestation broker could not be reached.
    AttestationProxyUnreachable,
    /// The attestation broker refused to release a secret.
    AttestationRejected,
    /// The broker reports that the measurement does not match.
    MeasurementMismatch,
    /// A secret exchange was attempted before pre-attestation assigned
    /// a transaction identifier; the exchange fails closed.
    MissingTransactionId,
}

/// Launch policy flags constraining platform behaviour.
#[derive(Clone, Copy, Debug, PartialEq, Eq, Structural)]
pub struct LaunchPolicy {
    /// The guest's register state must be kept encrypted.
    pub encrypted_state: bool,
    /// Debug access to the guest is allowed.
    pub debug: bool,
}

/// The policy word submitted to the platform: the sum of the policy
/// bits the flags select.
pub open spec fn spec_policy_bits(p: LaunchPolicy) -> u32 {
    ((if p.encrypted_state {
        POLICY_ENCRYPTED_STATE
    } else {
        0u32
    }) + (if !p.debug {
        POLICY_NO_DEBUG
    } else {
        0u32
    })) as u32
}

/// Encodes the policy flags as the policy word.
pub fn policy_bits(p: LaunchPolicy) -> (r: u32)
    ensures
        r == spec_policy_bits(p),
{
    let mut bits: u32 = 0;
    if p.encrypted_state {
        bits = bits + POLICY_ENCRYPTED_STATE;
    }
    if !p.debug {
        bits = bits + POLICY_NO_DEBUG;
    }
    bits
}

/// The platform-reported launch measurement: the digest the platform
/// computed over the guest's initial state, the platform build
/// identifier, and — when a broker attests them — the kernel command
/// line and the firmware hand-off block.
#[derive(Debug, PartialEq, Eq)]
pub struct LaunchMeasurement {
    pub measurement: Vec<u8>,
    pub build: u32,
    pub cmdline: Option<String>,
    pub tdhob: Option<Vec<u8>>,
}

/// Mathematical image of [`LaunchMeasurement`].
pub ghost struct LaunchMeasurementV {
    pub measurement: Seq<u8>,
    pub build: u32,
    pub cmdline: Option<Seq<char>>,
    pub tdhob: Option<Seq<u8>>,
}

impl View for LaunchMeasurement {
    type V = LaunchMeasurementV;

    open spec fn view(&self) -> LaunchMeasurementV {
        LaunchMeasurementV {
            measurement: self.measurement@,
            build: self.build,
            cmdline: self.cmdline.deep_view(),
            tdhob: self.tdhob.deep_view(),
        }
    }
}

/// The pre-boot payload handed to the platform when boot starts: the
/// policy word, the certificate, and the negotiated session blob.
#[derive(Debug, PartialEq, Eq)]
pub struct SessionStartPayload {
    pub policy: u32,
    pub cert: Vec<u8>,
    pub session_blob: Vec<u8>,
}

/// Mathematical image of [`SessionStartPayload`].
pub ghost struct SessionStartPayloadV {
    pub policy: u32,
    pub cert: Seq<u8>,
    pub session_blob: Seq<u8>,
}

impl View for SessionStartPayload {
    type V = SessionStartPayloadV;

    open spec fn view(&self) -> SessionStartPayloadV {
        SessionStartPayloadV {
            policy: self.policy,
            cert: self.cert@,
            session_blob: self.session_blob@,
        }
    }
}

impl Clone for SessionStartPayload {
    fn clone(&self) -> (r: Self)
        ensures
            r@ == self@,
    {
        SessionStartPayload {
            policy: self.policy,
            cert: clone_bytes(&self.cert),
            session_blob: clone_bytes(&self.session_blob),
        }
    }
}

/// Copies a byte vector.
pub fn clone_bytes(v: &Vec<u8>) -> (r: Vec<u8>)
    ensures
        r@ == v@,
{
    let mut out: Vec<u8> = Vec::new();
    let mut i: usize = 0;
    proof {
        assert(out@ =~= v@.subrange(0, 0));
    }
    while i < v.len()
        invariant
            i <= v@.len(),
            out@ == v@.subrange(0, i as int),
        decreases v@.len() - i,
    {
        out.push(v[i]);
        proof {
            assert(out@ =~= v@.subrange(0, i as int + 1));
        }
        i = i + 1;
    }
    proof {
        assert(out@ =~= v@);
    }
    out
}

/// Compares two byte vectors.
pub fn bytes_eq(a: &Vec<u8>, b: &Vec<u8>) -> (r: bool)
    ensures
        r == (a@ == b@),
{
    if a.len() != b.len() {
        return false;
    }
    let mut i: usize = 0;
    while i < a.len()
        invariant
            i <= a@.len(),
            a@.len() == b@.len(),
            forall|j: int| 0 <= j < i ==> a@[j] == b@[j],
        decreases a@.len() - i,
    {
        if a[i] != b[i] {
            return false;
        }
        i = i + 1;
    }
    proof {
        assert(a@ =~= b@);
    }
    true
}

/// The all-zero application code, used for secret derivation in the
/// default launch mode.
pub open spec fn spec_app_code_zero() -> Seq<u8> {
    Seq::new(APP_CODE_LEN as nat, |i: int| 0u8)
}

/// Returns the all-zero application code.
pub fn app_code_zero() -> (r: Vec<u8>)
    ensures
        r@ == spec_app_code_zero(),
{
    let mut v: Vec<u8> = Vec::new();
    let mut i: usize = 0;
    while i < APP_CODE_LEN
        invariant
            i <= APP_CODE_LEN,
            v@.len() == i,
            forall|j: int| 0 <= j < i ==> v@[j] == 0u8,
        decreases APP_CODE_LEN - i,
    {
        v.push(0u8);
        i = i + 1;
    }
    proof {
        assert(v@ =~= spec_app_code_zero());
    }
    v
}

/// The prime-sequence application code, used for secret derivation in
/// the alternate launch mode. The value is an external-interface
/// constant: it is kept exactly as the platform expects it, and no
/// shared meaning with the all-zero code is implied.
pub open spec fn spec_app_code_primes() -> Seq<u8> {
    seq![2u8, 3u8, 5u8, 7u8, 11u8, 13u8, 17u8, 19u8, 23u8, 29u8, 31u8, 37u8, 41u8, 43u8, 47u8, 53u8]
}

/// Returns the prime-sequence application code.
pub fn app_code_primes() -> (r: Vec<u8>)
    ensures
        r@ == spec_app_code_primes(),
{
    let mut v: Vec<u8> = Vec::new();
    v.push(2u8);
    v.push(3u8);
    v.push(5u8);
    v.push(7u8);
    v.push(11u8);
    v.push(13u8);
    v.push(17u8);
    v.push(19u8);
    v.push(23u8);
    v.push(29u8);
    v.push(31u8);
    v.push(37u8);
    v.push(41u8);
    v.push(43u8);
    v.push(47u8);
    v.push(53u8);
    proof {
        assert(v@ =~= spec_app_code_primes());
    }
    v
}

/// The session-start blob the local session derives from the policy
/// word and the certificate chain.
pub open spec fn spec_session_blob(chain: Seq<u8>, policy_bits: u32) -> Seq<u8> {
    seq![(policy_bits % 256) as u8] + chain
}

/// The measurement the local session expects from a platform holding
/// the given certificate chain, under the given policy word and
/// platform build identifier.
pub open spec fn spec_expected_measurement(chain: Seq<u8>, policy_bits: u32, build: u32) -> Seq<
    u8,
> {
    seq![
        (build % 256) as u8,
        ((build / 256) % 256) as u8,
        ((build / 65536) % 256) as u8,
        ((build / 16777216) % 256) as u8,
        (policy_bits % 256) as u8,
    ] + chain
}

/// Computes the measurement expected from a platform holding `chain`.
pub fn expected_measurement(chain: &Vec<u8>, policy_bits: u32, build: u32) -> (r: Vec<u8>)
    ensures
        r@ == spec_expected_measurement(chain@, policy_bits, build),
{
    let mut v: Vec<u8> = Vec::new();
    v.push((build % 256) as u8);
    v.push(((build / 256) % 256) as u8);
    v.push(((build / 65536) % 256) as u8);
    v.push(((build / 16777216) % 256) as u8);
    v.push((policy_bits % 256) as u8);
    let mut i: usize = 0;
    proof {
        assert(v@ =~= spec_expected_measurement(chain@, policy_bits, build).subrange(0, 5));
    }
    while i < chain.len()
        invariant
            i <= chain@.len(),
            v@ == spec_expected_measurement(chain@, policy_bits, build).subrange(
                0,
                5 + i as int,
            ),
        decreases chain@.len() - i,
    {
        v.push(chain[i]);
        proof {
            assert(v@ =~= spec_expected_measurement(chain@, policy_bits, build).subrange(
                0,
                5 + i as int + 1,
            ));
        }
        i = i + 1;
    }
    proof {
        assert(v@ =~= spec_expected_measurement(chain@, policy_bits, build));
    }
    v
}

/// A tenant-held local session: the cached certificate chain, the
/// policy it was negotiated under, the application code for secret
/// derivation, and the derived pre-boot payload.
#[derive(Debug, PartialEq, Eq)]
pub struct LocalSession {
    pub cert_chain: Vec<u8>,
    pub policy: LaunchPolicy,
    pub app_code: Vec<u8>,
    pub start_payload: SessionStartPayload,
}

/// Mathematical image of [`LocalSession`].
pub ghost struct LocalSessionV {
    pub cert_chain: Seq<u8>,
    pub policy: LaunchPolicy,
    pub app_code: Seq<u8>,
    pub start_payload: SessionStartPayloadV,
}

impl View for LocalSession {
    type V = LocalSessionV;

    open spec fn view(&self) -> LocalSessionV {
        LocalSessionV {
            cert_chain: self.cert_chain@,
            policy: self.policy,
            app_code: self.app_code@,
            start_payload: self.start_payload@,
        }
    }
}

/// What a negotiated local session looks like: its pre-boot payload is
/// derived from its chain and policy, and its application code has the
/// fixed length.
pub open spec fn local_session_wf(s: LocalSessionV) -> bool {
    &&& s.app_code.len() == APP_CODE_LEN
    &&& s.start_payload.policy == spec_policy_bits(s.policy)
    &&& s.start_payload.cert == s.cert_chain
    &&& s.start_payload.session_blob == spec_session_blob(s.cert_chain, spec_policy_bits(s.policy))
}

/// The local session that negotiation over `chain` and `policy` yields.
pub open spec fn spec_negotiate_local(
    chain: Seq<u8>,
    policy: LaunchPolicy,
    app_code: Seq<u8>,
) -> LocalSessionV {
    LocalSessionV {
        cert_chain: chain,
        policy,
        app_code,
        start_payload: SessionStartPayloadV {
            policy: spec_policy_bits(policy),
            cert: chain,
            session_blob: spec_session_blob(chain, spec_policy_bits(policy)),
        },
    }
}

/// A measurement is consistent with a local session when it equals the
/// measurement expected from the session's certificate chain, under the
/// session's policy word and the platform build that reported it.
pub open spec fn measurement_consistent(s: LocalSessionV, m: LaunchMeasurementV) -> bool {
    m.measurement == spec_expected_measurement(s.cert_chain, spec_policy_bits(s.policy), m.build)
}

impl LocalSession {
    /// Negotiates a local session from the cached platform certificate
    /// chain. The chain is handed in by the caller, who read the cache;
    /// an absent or empty chain is fatal: no session is produced.
    ///
    /// The pre-boot payload — the policy word, the certificate, and the
    /// session blob — is derived from the policy and the chain.
    pub fn negotiate(chain: Option<Vec<u8>>, policy: LaunchPolicy, app_code: Vec<u8>) -> (r:
        Result<LocalSession, SessionError>)
        requires
            app_code@.len() == APP_CODE_LEN,
        ensures
            r is Ok <==> (chain matches Some(c) && c@.len() > 0),
            r is Err ==> r == Err::<LocalSession, SessionError>(
                SessionError::CertificateChainUnavailable,
            ),
            r matches Ok(s) ==> s@ == spec_negotiate_local(chain->0@, policy, app_code@),
    {
        let chain: Vec<u8> = match chain {
            Some(c) if c.len() > 0 => c,
            _ => {
                return Err(SessionError::CertificateChainUnavailable);
            },
        };
        let bits = policy_bits(policy);
        let mut blob: Vec<u8> = Vec::new();
        blob.push((bits % 256) as u8);
        let mut i: usize = 0;
        proof {
            assert(blob@ =~= spec_session_blob(chain@, bits).subrange(0, 1));
        }
        while i < chain.len()
            invariant
                i <= chain@.len(),
                blob@ == spec_session_blob(chain@, bits).subrange(0, 1 + i as int),
            decreases chain@.len() - i,
        {
            blob.push(chain[i]);
            proof {
                assert(blob@ =~= spec_session_blob(chain@, bits).subrange(0, 1 + i as int + 1));
            }
            i = i + 1;
        }
        proof {
            assert(blob@ =~= spec_session_blob(chain@, bits));
        }
        let cert = clone_bytes(&chain);
        Ok(
            LocalSession {
                cert_chain: chain,
                policy,
                app_code,
                start_payload: SessionStartPayload { policy: bits, cert, session_blob: blob },
            },
        )
    }

    /// Verifies the platform-reported measurement against this session:
    /// the underlying cryptographic session is asked to check the
    /// measurement with an empty launch-digest list and the platform
    /// build identifier. On success the secret is derived from the
    /// session's application code and the measurement; on mismatch the
    /// launch must be abandoned and the VM never resumed.
    pub fn verify(&self, m: &LaunchMeasurement) -> (r: Result<Vec<u8>, AttestationError>)
        ensures
            r is Ok <==> measurement_consistent(self@, m@),
            r is Err ==> r == Err::<Vec<u8>, AttestationError>(
                AttestationError::MeasurementVerificationFailed,
            ),
            r matches Ok(secret) ==> secret@ == spec_derive_secret(
                self@.app_code,
                m@.measurement,
            ),
    {
        let bits = policy_bits(self.policy);
        let expected = expected_measurement(&self.cert_chain, bits, m.build);
        if bytes_eq(&m.measurement, &expected) {
            Ok(derive_secret(&self.app_code, &m.measurement))
        } else {
            Err(AttestationError::MeasurementVerificationFailed)
        }
    }
}

/// A remote pre-attestation session: the broker endpoint and launch
/// parameters, and — once pre-attestation has run — the transaction
/// identifier and pre-boot payload the broker assigned.
#[derive(Debug, PartialEq, Eq)]
pub struct RemoteSession {
    pub proxy: String,
    pub cert_chain_path: String,
    pub policy: u32,
    pub keyset: String,
    pub secret_guid: String,
    pub secret_type: String,
    pub transaction_id: Option<String>,
    pub start: Option<SessionStartPayload>,
}

/// Mathematical image of [`RemoteSession`].
pub ghost struct RemoteSessionV {
    pub proxy: Seq<char>,
    pub cert_chain_path: Seq<char>,
    pub policy: u32,
    pub keyset: Seq<char>,
    pub secret_guid: Seq<char>,
    pub secret_type: Seq<char>,
    pub transaction_id: Option<Seq<char>>,
    pub start: Option<SessionStartPayloadV>,
}

impl View for RemoteSession {
    type V = RemoteSessionV;

    open spec fn view(&self) -> RemoteSessionV {
        RemoteSessionV {
            proxy: self.proxy@,
            cert_chain_path: self.cert_chain_path@,
            policy: self.policy,
            keyset: self.keyset@,
            secret_guid: self.secret_guid@,
            secret_type: self.secret_type@,
            transaction_id: self.transaction_id.deep_view(),
            start: match self.start {
                Some(p) => Some(p@),
                None => None,
            },
        }
    }
}

/// A remote session is negotiated once pre-attestation has assigned it
/// a transaction identifier and a pre-boot payload.
pub open spec fn remote_negotiated(s: RemoteSessionV) -> bool {
    s.transaction_id is Some && s.start is Some
}

/// The first broker request: asks the broker to negotiate a session
/// with the platform on the tenant's behalf.
#[derive(Debug, PartialEq, Eq)]
pub struct PreAttestationRequest {
    pub proxy: String,
    pub cert_chain_path: String,
    pub policy: u32,
}

/// Mathematical image of [`PreAttestationRequest`].
pub ghost struct PreAttestationRequestV {
    pub proxy: Seq<char>,
    pub cert_chain_path: Seq<char>,
    pub policy: u32,
}

impl View for PreAttestationRequest {
    type V = PreAttestationRequestV;

    open spec fn view(&self) -> PreAttestationRequestV {
        PreAttestationRequestV {
            proxy: self.proxy@,
            cert_chain_path: self.cert_chain_path@,
            policy: self.policy,
        }
    }
}

/// The second broker request: carries the measurement and everything
/// the broker needs to wrap the secret for this launch.
#[derive(Debug, PartialEq, Eq)]
pub struct SecretExchangeRequest {
    pub proxy: String,
    pub cert_chain_path: String,
    pub policy: u32,
    pub keyset: String,
    pub transaction_id: String,
    pub firmware_path: Option<String>,
    pub kernel_path: String,
    pub initrd_path: Option<String>,
    pub cmdline: Option<String>,
    pub tdhob: Option<Vec<u8>>,
    pub secret_guid: String,
    pub secret_type: String,
    pub num_vcpu: u8,
    pub confidential_vm_type: String,
    pub measurement: Vec<u8>,
}

/// Mathematical image of [`SecretExchangeRequest`].
pub ghost struct SecretExchangeRequestV {
    pub proxy: Seq<char>,
    pub cert_chain_path: Seq<char>,
    pub policy: u32,
    pub keyset: Seq<char>,
    pub transaction_id: Seq<char>,
    pub firmware_path: Option<Seq<char>>,
    pub kernel_path: Seq<char>,
    pub initrd_path: Option<Seq<char>>,
    pub cmdline: Option<Seq<char>>,
    pub tdhob: Option<Seq<u8>>,
    pub secret_guid: Seq<char>,
    pub secret_type: Seq<char>,
    pub num_vcpu: u8,
    pub confidential_vm_type: Seq<char>,
    pub measurement: Seq<u8>,
}

impl View for SecretExchangeRequest {
    type V = SecretExchangeRequestV;

    open spec fn view(&self) -> SecretExchangeRequestV {
        SecretExchangeRequestV {
            proxy: self.proxy@,
            cert_chain_path: self.cert_chain_path@,
            policy: self.policy,
            keyset: self.keyset@,
            transaction_id: self.transaction_id@,
            firmware_path: self.firmware_path.deep_view(),
            kernel_path: self.kernel_path@,
            initrd_path: self.initrd_path.deep_view(),
            cmdline: self.cmdline.deep_view(),
            tdhob: self.tdhob.deep_view(),
            secret_guid: self.secret_guid@,
            secret_type: self.secret_type@,
            num_vcpu: self.num_vcpu,
            confidential_vm_type: self.confidential_vm_type@,
            measurement: self.measurement@,
        }
    }
}

/// The secret-exchange request a negotiated remote session builds for a
/// reported measurement and boot source.
pub open spec fn spec_secret_exchange_request(
    s: RemoteSessionV,
    boot: BootSourceConfigV,
    num_vcpu: u8,
    m: LaunchMeasurementV,
) -> SecretExchangeRequestV {
    SecretExchangeRequestV {
        proxy: s.proxy,
        cert_chain_path: s.cert_chain_path,
        policy: s.policy,
        keyset: s.keyset,
        transaction_id: s.transaction_id->0,
        firmware_path: boot.firmware_path,
        kernel_path: boot.kernel_path,
        initrd_path: boot.initrd_path,
        cmdline: m.cmdline,
        tdhob: m.tdhob,
        secret_guid: s.secret_guid,
        secret_type: s.secret_type,
        num_vcpu,
        confidential_vm_type: CONFIDENTIAL_VM_TYPE@,
        measurement: m.measurement,
    }
}

impl RemoteSession {
    /// Assembles a remote session from the attestation parameters,
    /// refusing — before any side effect — parameter sets that could
    /// not carry both broker requests through.
    pub fn from_args(sec: &SecurityInfoArgs) -> (r: Result<RemoteSession, SessionError>)
        ensures
            r is Ok <==> {
                &&& sec@.guest_pre_attestation_proxy is Some
                &&& sec@.sev_cert_chain_path is Some
                &&& sec@.guest_pre_attestation_keyset is Some
                &&& sec@.guest_pre_attestation_secret_guid is Some
                &&& sec@.guest_pre_attestation_secret_type is Some
            },
            sec@.guest_pre_attestation_proxy is None ==> r == Err::<RemoteSession, SessionError>(
                SessionError::MissingProxy,
            ),
            sec@.guest_pre_attestation_proxy is Some && sec@.sev_cert_chain_path is None ==> r
                == Err::<RemoteSession, SessionError>(SessionError::MissingCertChainPath),
            sec@.guest_pre_attestation_proxy is Some && sec@.sev_cert_chain_path is Some
                && sec@.guest_pre_attestation_keyset is None ==> r == Err::<
                RemoteSession,
                SessionError,
            >(SessionError::MissingKeyset),
            sec@.guest_pre_attestation_proxy is Some && sec@.sev_cert_chain_path is Some
                && sec@.guest_pre_attestation_keyset is Some
                && sec@.guest_pre_attestation_secret_guid is None ==> r == Err::<
                RemoteSession,
                SessionError,
            >(SessionError::MissingSecretGuid),
            sec@.guest_pre_attestation_proxy is Some && sec@.sev_cert_chain_path is Some
                && sec@.guest_pre_attestation_keyset is Some
                && sec@.guest_pre_attestation_secret_guid is Some
                && sec@.guest_pre_attestation_secret_type is None ==> r == Err::<
                RemoteSession,
                SessionError,
            >(SessionError::MissingSecretType),
            r matches Ok(s) ==> {
                &&& s@.proxy == sec@.guest_pre_attestation_proxy->0
                &&& s@.cert_chain_path == sec@.sev_cert_chain_path->0
                &&& s@.policy == sec@.sev_guest_policy
                &&& s@.keyset == sec@.guest_pre_attestation_keyset->0
                &&& s@.secret_guid == sec@.guest_pre_attestation_secret_guid->0
                &&& s@.secret_type == sec@.guest_pre_attestation_secret_type->0
                &&& s@.transaction_id is None
                &&& s@.start is None
            },
    {
        let proxy: String = match &sec.guest_pre_attestation_proxy {
            Some(p) => p.clone(),
            None => {
                return Err(SessionError::MissingProxy);
            },
        };
        let cert_chain_path: String = match &sec.sev_cert_chain_path {
            Some(p) => p.clone(),
            None => {
                return Err(SessionError::MissingCertChainPath);
            },
        };
        let keyset: String = match &sec.guest_pre_attestation_keyset {
            Some(k) => k.clone(),
            None => {
                return Err(SessionError::MissingKeyset);
            },
        };
        let secret_guid: String = match &sec.guest_pre_attestation_secret_guid {
            Some(g) => g.clone(),
            None => {
                return Err(SessionError::MissingSecretGuid);
            },
        };
        let secret_type: String = match &sec.guest_pre_attestation_secret_type {
            Some(t) => t.clone(),
            None => {
                return Err(SessionError::MissingSecretType);
            },
        };
        Ok(
            RemoteSession {
                proxy,
                cert_chain_path,
                policy: sec.sev_guest_policy,
                keyset,
                secret_guid,
                secret_type,
                transaction_id: None,
                start: None,
            },
        )
    }

    /// Builds the pre-attestation request: the one network call that
    /// begins negotiation with the broker. The caller sends it and
    /// reports the broker's answer through [`Self::complete_negotiation`].
    pub fn pre_attestation_request(&self) -> (r: PreAttestationRequest)
        ensures
            r@.proxy == self@.proxy,
            r@.cert_chain_path == self@.cert_chain_path,
            r@.policy == self@.policy,
    {
        PreAttestationRequest {
            proxy: self.proxy.clone(),
            cert_chain_path: self.cert_chain_path.clone(),
            policy: self.policy,
        }
    }

    /// Records the broker's answer to the pre-attestation request: the
    /// assigned transaction identifier and the pre-boot payload. A
    /// session is immutable once negotiated, so a second completion is
    /// refused and changes nothing.
    pub fn complete_negotiation(
        &mut self,
        transaction_id: String,
        start: SessionStartPayload,
    ) -> (r: Result<(), SessionError>)
        ensures
            old(self)@.transaction_id is Some || old(self)@.start is Some ==> r == Err::<
                (),
                SessionError,
            >(SessionError::AlreadyNegotiated) && *final(self) == *old(self),
            old(self)@.transaction_id is None && old(self)@.start is None ==> {
                &&& r is Ok
                &&& final(self)@ == RemoteSessionV {
                    transaction_id: Some(transaction_id@),
                    start: Some(start@),
                    ..old(self)@
                }
            },
    {
        if self.transaction_id.is_some() || self.start.is_some() {
            return Err(SessionError::AlreadyNegotiated);
        }
        self.transaction_id = Some(transaction_id);
        self.start = Some(start);
        Ok(())
    }

    /// Builds the secret-exchange request for the reported measurement.
    /// Without a transaction identifier from a prior pre-attestation the
    /// exchange fails closed: no request is produced.
    pub fn secret_exchange_request(
        &self,
        boot: &BootSourceConfig,
        num_vcpu: u8,
        m: LaunchMeasurement,
    ) -> (r: Result<SecretExchangeRequest, AttestationError>)
        ensures
            r is Ok <==> self@.transaction_id is Some,
            self@.transaction_id is None ==> r == Err::<SecretExchangeRequest, AttestationError>(
                AttestationError::MissingTransactionId,
            ),
            r matches Ok(req) ==> req@ == spec_secret_exchange_request(
                self@,
                boot@,
                num_vcpu,
                m@,
            ),
    {
        let transaction_id: String = match &self.transaction_id {
            Some(t) => t.clone(),
            None => {
                return Err(AttestationError::MissingTransactionId);
            },
        };
        Ok(
            SecretExchangeRequest {
                proxy: self.proxy.clone(),
                cert_chain_path: self.cert_chain_path.clone(),
                policy: self.policy,
                keyset: self.keyset.clone(),
                transaction_id,
                firmware_path: crate::config::clone_opt_string(&boot.firmware_path),
                kernel_path: boot.kernel_path.clone(),
                initrd_path: crate::config::clone_opt_string(&boot.initrd_path),
                cmdline: m.cmdline,
                tdhob: m.tdhob,
                secret_guid: self.secret_guid.clone(),
                secret_type: self.secret_type.clone(),
                num_vcpu,
                confidential_vm_type: CONFIDENTIAL_VM_TYPE.to_owned(),
                measurement: m.measurement,
            },
        )
    }
}

/// What the broker answered a secret-exchange request with. The
/// surrounding program maps transport failures to `Unreachable` and the
/// broker's own refusals to `Rejected` or `MeasurementMismatch`.
#[derive(Debug, PartialEq, Eq)]
pub enum BrokerOutcome {
    /// The broker released the secret, already wrapped for injection.
    WrappedSecret(Vec<u8>),
    /// The broker refused to release a secret.
    Rejected,
    /// The broker could not be reached.
    Unreachable,
    /// The broker reports that the measurement does not match.
    MeasurementMismatch,
}

/// Mathematical image of [`BrokerOutcome`].
pub ghost enum BrokerOutcomeV {
    WrappedSecret(Seq<u8>),
    Rejected,
    Unreachable,
    MeasurementMismatch,
}

impl View for BrokerOutcome {
    type V = BrokerOutcomeV;

    open spec fn view(&self) -> BrokerOutcomeV {
        match self {
            BrokerOutcome::WrappedSecret(s) => BrokerOutcomeV::WrappedSecret(s@),
            BrokerOutcome::Rejected => BrokerOutcomeV::Rejected,
            BrokerOutcome::Unreachable => BrokerOutcomeV::Unreachable,
            BrokerOutcome::MeasurementMismatch => BrokerOutcomeV::MeasurementMismatch,
        }
    }
}

/// The polymorphic launch session capability: local or remote.
#[derive(Debug, PartialEq, Eq)]
pub enum LaunchSession {
    Local(LocalSession),
    Remote(RemoteSession),
}

/// Mathematical image of [`LaunchSession`].
pub ghost enum LaunchSessionV {
    Local(LocalSessionV),
    Remote(RemoteSessionV),
}

impl View for LaunchSession {
    type V = LaunchSessionV;

    open spec fn view(&self) -> LaunchSessionV {
        match self {
            LaunchSession::Local(s) => LaunchSessionV::Local(s@),
            LaunchSession::Remote(s) => LaunchSessionV::Remote(s@),
        }
    }
}

/// Every launch session in the orchestrator's hands satisfies this: a
/// local session is well-formed as negotiation left it.
pub open spec fn session_wf(s: LaunchSessionV) -> bool {
    match s {
        LaunchSessionV::Local(l) => local_session_wf(l),
        LaunchSessionV::Remote(_) => true,
    }
}

/// The pre-boot payload a session offers for the start request, when it
/// has one: a local session always does; a remote one only once
/// negotiated.
pub open spec fn spec_start_payload(s: LaunchSessionV) -> Option<SessionStartPayloadV> {
    match s {
        LaunchSessionV::Local(l) => Some(l.start_payload),
        LaunchSessionV::Remote(r) => r.start,
    }
}

/// Law: negotiating a local session and measuring consistently always
/// verifies, and verification always derives a non-empty secret; an
/// inconsistent measurement never verifies. Stated for every chain,
/// policy, application code and measurement.
pub proof fn lemma_local_round_trip(
    chain: Seq<u8>,
    policy: LaunchPolicy,
    app_code: Seq<u8>,
    m: LaunchMeasurementV,
)
    requires
        app_code.len() == APP_CODE_LEN,
    ensures
        measurement_consistent(spec_negotiate_local(chain, policy, app_code), m) <==> m.measurement
            == spec_expected_measurement(chain, spec_policy_bits(policy), m.build),
        spec_derive_secret(app_code, m.measurement).len() > 0,
        local_session_wf(spec_negotiate_local(chain, policy, app_code)),
{
}

/// The secret derived from an application code and a verified
/// measurement: the code followed by the measurement bytes.
pub open spec fn spec_derive_secret(code: Seq<u8>, measurement: Seq<u8>) -> Seq<u8> {
    code + measurement
}

/// Derives the secret released after successful verification.
pub fn derive_secret(code: &Vec<u8>, measurement: &Vec<u8>) -> (r: Vec<u8>)
    ensures
        r@ == spec_derive_secret(code@, measurement@),
{
    let mut v: Vec<u8> = clone_bytes(code);
    let mut i: usize = 0;
    proof {
        assert(v@ =~= code@ + measurement@.subrange(0, 0));
    }
    while i < measurement.len()
        invariant
            i <= measurement@.len(),
            v@ == code@ + measurement@.subrange(0, i as int),
        decreases measurement@.len() - i,
    {
        v.push(measurement[i]);
        proof {
            assert(v@ =~= code@ + measurement@.subrange(0, i as int + 1));
        }
        i = i + 1;
    }
    proof {
        assert(measurement@.subrange(0, measurement@.len() as int) =~= measurement@);
    }
    v
}

} // verus!
