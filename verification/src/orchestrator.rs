//! The launch orchestrator: the state machine that drives one launch
//! attempt from configuration through boot, measurement, attestation
//! and secret injection.
//!
//! The orchestrator owns the launch session and the launch
//! configuration for the lifetime of one attempt. It never touches the
//! VM control channel or the network itself: each step hands the
//! surrounding program the request to carry out, and the program
//! reports the response back. Every response either advances the
//! attempt or moves it to `Failed`, from which nothing further is
//! issued — a failed attempt's VM must be torn down and a fresh attempt
//! started.
//!
//! Phases of an attempt, in order: `Created`, `Configuring` (the
//! configuration submissions go out one by one, each a blocking
//! round-trip), `Configured`, `Starting` (the boot request is out, the
//! measurement is awaited), `Booted`, `AwaitingBroker` (remote sessions
//! only: the secret exchange is out), `Attested`, `SecretInjected`,
//! `Running`; and `Failed`, reachable from any response.

use vstd::prelude::*;

use crate::config::BlockDeviceConfig;
use crate::config::BlockDeviceConfigV;
use crate::config::BootSourceConfig;
use crate::config::BootSourceConfigV;
use crate::config::LaunchConfig;
use crate::config::LaunchConfigV;
use crate::config::VmResourceConfig;
use crate::config::VmResourceConfigV;
use crate::config::VsockConfig;
use crate::config::VsockConfigV;
use crate::session::AttestationError;
use crate::session::BrokerOutcome;
use crate::session::BrokerOutcomeV;
use crate::session::LaunchMeasurement;
use crate::session::LaunchMeasurementV;
use crate::session::LaunchSession;
use crate::session::LaunchSessionV;
use crate::session::SecretExchangeRequest;
use crate::session::SessionStartPayload;
use crate::session::measurement_consistent;
use crate::session::session_wf;
use crate::session::spec_derive_secret;
use crate::session::spec_secret_exchange_request;
use crate::session::spec_start_payload;

verus! {

/// Where a launch attempt stands.
#[derive(Clone, Copy, Debug, PartialEq, Eq, Structural)]
pub enum Phase {
    /// Nothing submitted yet.
    Created,
    /// Configuration submissions are going out in their fixed order.
    Configuring,
    /// Every configuration submission was accepted.
    Configured,
    /// The boot request is out; the measurement is awaited.
    Starting,
    /// The platform reported the launch measurement; the VM is paused.
    Booted,
    /// The secret-exchange request is out to the attestation broker.
    AwaitingBroker,
    /// Trust was established; the secret bundle is ready.
    Attested,
    /// The secret bundle was handed out for injection.
    SecretInjected,
    /// The channel confirmed injection and resume.
    Running,
    /// The attempt is dead; see the recorded failure reason.
    Failed,
}

/// Why a launch attempt died.
#[derive(Clone, Copy, Debug, PartialEq, Eq, Structural)]
pub enum FailureReason {
    /// The channel rejected a configuration submission.
    ConfigRejected,
    /// The start request did not come back with a measurement.
    UnexpectedStartResponse,
    /// Trust was not established; the VM must stay paused.
    Attestation(AttestationError),
    /// The channel rejected the secret injection.
    InjectRejected,
}

/// How an orchestrator call can fail.
#[derive(Clone, Copy, Debug, PartialEq, Eq, Structural)]
pub enum OrchestratorError {
    /// The call does not belong to the current phase; nothing changed.
    InvalidState,
    /// A remote step needs the broker's transaction identifier, and
    /// pre-attestation has not assigned one; nothing changed.
    MissingTransactionId,
    /// The response moved the attempt to `Failed` for this reason.
    Failed(FailureReason),
}

/// The kind of one configuration submission.
#[derive(Clone, Copy, Debug, PartialEq, Eq, Structural)]
pub enum SubmitKind {
    SetVmConfig,
    SetBootSource,
    InsertBlockDevice,
    InsertVsock,
}

/// One configuration submission, ready to go over the VM control
/// channel.
#[derive(Debug, PartialEq, Eq)]
pub enum SubmitAction {
    SetVmConfig(VmResourceConfig),
    SetBootSource(BootSourceConfig),
    InsertBlockDevice(BlockDeviceConfig),
    InsertVsock(VsockConfig),
}

/// Mathematical image of [`SubmitAction`].
pub ghost enum SubmitActionV {
    SetVmConfig(VmResourceConfigV),
    SetBootSource(BootSourceConfigV),
    InsertBlockDevice(BlockDeviceConfigV),
    InsertVsock(VsockConfigV),
}

impl View for SubmitAction {
    type V = SubmitActionV;

    open spec fn view(&self) -> SubmitActionV {
        match self {
            SubmitAction::SetVmConfig(c) => SubmitActionV::SetVmConfig(c@),
            SubmitAction::SetBootSource(c) => SubmitActionV::SetBootSource(c@),
            SubmitAction::InsertBlockDevice(c) => SubmitActionV::InsertBlockDevice(c@),
            SubmitAction::InsertVsock(c) => SubmitActionV::InsertVsock(c@),
        }
    }
}

/// The kind of a submission.
pub open spec fn action_kind(a: SubmitActionV) -> SubmitKind {
    match a {
        SubmitActionV::SetVmConfig(_) => SubmitKind::SetVmConfig,
        SubmitActionV::SetBootSource(_) => SubmitKind::SetBootSource,
        SubmitActionV::InsertBlockDevice(_) => SubmitKind::InsertBlockDevice,
        SubmitActionV::InsertVsock(_) => SubmitKind::InsertVsock,
    }
}

/// The fixed submission order for a configuration: VM resources, then
/// boot source, then the root block device, then — exactly when one is
/// configured — the vsock device. Later submissions may depend on
/// earlier ones having been accepted, so no other order is ever used.
pub open spec fn submission_plan(cfg: LaunchConfigV) -> Seq<SubmitKind> {
    if cfg.vsock is Some {
        seq![
            SubmitKind::SetVmConfig,
            SubmitKind::SetBootSource,
            SubmitKind::InsertBlockDevice,
            SubmitKind::InsertVsock,
        ]
    } else {
        seq![SubmitKind::SetVmConfig, SubmitKind::SetBootSource, SubmitKind::InsertBlockDevice]
    }
}

/// The i-th submission of the plan, with its payload.
pub open spec fn planned_action(cfg: LaunchConfigV, i: int) -> SubmitActionV {
    if i == 0 {
        SubmitActionV::SetVmConfig(cfg.vm)
    } else if i == 1 {
        SubmitActionV::SetBootSource(cfg.boot)
    } else if i == 2 {
        SubmitActionV::InsertBlockDevice(cfg.block)
    } else {
        SubmitActionV::InsertVsock(cfg.vsock->0)
    }
}

/// Law: whatever the input parameters looked like, configuration
/// submissions are handed out in one fixed order — VM resources, boot
/// source, root block device, and, exactly when a vsock device is
/// configured, vsock last.
pub proof fn lemma_submission_order(cfg: LaunchConfigV)
    ensures
        submission_plan(cfg).len() == if cfg.vsock is Some {
            4int
        } else {
            3int
        },
        submission_plan(cfg)[0] == SubmitKind::SetVmConfig,
        submission_plan(cfg)[1] == SubmitKind::SetBootSource,
        submission_plan(cfg)[2] == SubmitKind::InsertBlockDevice,
        cfg.vsock is Some ==> submission_plan(cfg)[3] == SubmitKind::InsertVsock,
        forall|i: int|
            0 <= i < submission_plan(cfg).len() ==> action_kind(#[trigger] planned_action(cfg, i))
                == submission_plan(cfg)[i],
{
}

/// What the platform answered the start request with.
#[derive(Debug, PartialEq, Eq)]
pub enum StartResponse {
    /// The guest booted to the measurement point and is paused; here is
    /// the measurement.
    MeasurementAvailable(LaunchMeasurement),
    /// The platform claims success but reported no measurement; for a
    /// confidential launch that is a protocol error.
    StartedWithoutMeasurement,
    /// The platform rejected the start request.
    Rejected,
}

/// Mathematical image of [`StartResponse`].
pub ghost enum StartResponseV {
    MeasurementAvailable(LaunchMeasurementV),
    StartedWithoutMeasurement,
    Rejected,
}

impl View for StartResponse {
    type V = StartResponseV;

    open spec fn view(&self) -> StartResponseV {
        match self {
            StartResponse::MeasurementAvailable(m) => StartResponseV::MeasurementAvailable(m@),
            StartResponse::StartedWithoutMeasurement => StartResponseV::StartedWithoutMeasurement,
            StartResponse::Rejected => StartResponseV::Rejected,
        }
    }
}

/// One secret with its optional guest-physical placement hint; an
/// absent hint leaves placement to the platform.
#[derive(Debug, PartialEq, Eq)]
pub struct SecretWithGpa {
    pub secret: Vec<u8>,
    pub gpa: Option<u64>,
}

/// Mathematical image of [`SecretWithGpa`].
pub ghost struct SecretWithGpaV {
    pub secret: Seq<u8>,
    pub gpa: Option<u64>,
}

impl View for SecretWithGpa {
    type V = SecretWithGpaV;

    open spec fn view(&self) -> SecretWithGpaV {
        SecretWithGpaV { secret: self.secret@, gpa: self.gpa }
    }
}

/// The secrets to inject into the guest, and whether the VM is to be
/// resumed afterwards. Produced once per attempt, consumed once.
#[derive(Debug, PartialEq, Eq)]
pub struct SecretBundle {
    pub secrets: Vec<SecretWithGpa>,
    pub resume_vm: bool,
}

/// Mathematical image of [`SecretBundle`].
pub ghost struct SecretBundleV {
    pub secrets: Seq<SecretWithGpaV>,
    pub resume_vm: bool,
}

impl View for SecretBundle {
    type V = SecretBundleV;

    open spec fn view(&self) -> SecretBundleV {
        SecretBundleV {
            secrets: self.secrets@.map_values(|s: SecretWithGpa| s@),
            resume_vm: self.resume_vm,
        }
    }
}

/// The bundle the orchestrator builds from one released secret: that
/// secret alone, no placement hint, and the resume flag set.
pub open spec fn spec_bundle_of(secret: Seq<u8>) -> SecretBundleV {
    SecretBundleV {
        secrets: seq![SecretWithGpaV { secret, gpa: None }],
        resume_vm: true,
    }
}

/// What the orchestrator's attest step asks of the caller next.
#[derive(Debug, PartialEq, Eq)]
pub enum AttestOutcome {
    /// Local session: the measurement verified and the secret bundle is
    /// ready; proceed to injection.
    Verified,
    /// Remote session: send this secret-exchange request to the broker
    /// and report its outcome.
    BrokerExchange(SecretExchangeRequest),
}

/// The orchestrator of one launch attempt.
pub struct Orchestrator {
    /// The launch session this attempt runs under; owned for the whole
    /// attempt.
    pub session: LaunchSession,
    /// Where the attempt stands.
    pub phase: Phase,
    /// Why it died, once `phase` is `Failed`.
    pub failure: Option<FailureReason>,
    /// The immutable configuration snapshot, once submitted.
    pub config: Option<LaunchConfig>,
    /// How many configuration submissions were accepted.
    pub submitted: usize,
    /// A configuration submission is out and its response awaited.
    pub awaiting_ack: bool,
    /// The platform-reported measurement, once boot reached it.
    pub measurement: Option<LaunchMeasurement>,
    /// The secret bundle, between attestation and injection.
    pub bundle: Option<SecretBundle>,
}

impl Orchestrator {
    /// Consistency of an orchestrator: each phase holds the data its
    /// steps rely on.
    pub open spec fn wf(self) -> bool {
        &&& session_wf(self.session@)
        &&& self.awaiting_ack ==> self.phase is Configuring
        &&& self.phase is Configuring ==> self.config is Some && (self.submitted as int)
            < submission_plan(self.config->0@).len()
        &&& self.phase is Configured || self.phase is Starting ==> self.config is Some
        &&& self.phase is Booted ==> self.config is Some && self.measurement is Some
        &&& self.phase is Attested ==> (self.bundle matches Some(b) && b@.resume_vm)
        &&& self.phase is Failed <==> self.failure is Some
    }

    /// A fresh attempt under the given session.
    pub fn new(session: LaunchSession) -> (r: Orchestrator)
        requires
            session_wf(session@),
        ensures
            r.wf(),
            r.phase is Created,
            r.failure is None,
            r.config is None,
            r.submitted == 0,
            !r.awaiting_ack,
            r.measurement is None,
            r.bundle is None,
            r.session == session,
    {
        Orchestrator {
            session,
            phase: Phase::Created,
            failure: None,
            config: None,
            submitted: 0,
            awaiting_ack: false,
            measurement: None,
            bundle: None,
        }
    }

    /// Accepts the configuration snapshot and opens the submission
    /// sequence. Allowed once, on a fresh attempt.
    pub fn begin_configure(&mut self, cfg: LaunchConfig) -> (r: Result<(), OrchestratorError>)
        requires
            old(self).wf(),
        ensures
            final(self).wf(),
            !(old(self).phase is Created) ==> r == Err::<(), OrchestratorError>(
                OrchestratorError::InvalidState,
            ) && *final(self) == *old(self),
            old(self).phase is Created ==> r is Ok && *final(self) == (Orchestrator {
                phase: Phase::Configuring,
                config: Some(cfg),
                submitted: 0,
                awaiting_ack: false,
                ..*old(self)
            }),
    {
        if self.phase != Phase::Created {
            return Err(OrchestratorError::InvalidState);
        }
        self.phase = Phase::Configuring;
        self.config = Some(cfg);
        self.submitted = 0;
        self.awaiting_ack = false;
        Ok(())
    }

    /// Hands out the next configuration submission, in the fixed order
    /// of the plan, and awaits its acknowledgement.
    pub fn next_submission(&mut self) -> (r: Result<SubmitAction, OrchestratorError>)
        requires
            old(self).wf(),
        ensures
            final(self).wf(),
            !(old(self).phase is Configuring) || old(self).awaiting_ack ==> r == Err::<
                SubmitAction,
                OrchestratorError,
            >(OrchestratorError::InvalidState) && *final(self) == *old(self),
            old(self).phase is Configuring && !old(self).awaiting_ack ==> {
                &&& r matches Ok(a) && a@ == planned_action(
                    old(self).config->0@,
                    old(self).submitted as int,
                )
                &&& *final(self) == (Orchestrator { awaiting_ack: true, ..*old(self) })
            },
    {
        if self.phase != Phase::Configuring || self.awaiting_ack {
            return Err(OrchestratorError::InvalidState);
        }
        let cfg = match &self.config {
            Some(c) => c,
            None => {
                proof {
                    assert(false);
                }
                return Err(OrchestratorError::InvalidState);
            },
        };
        let action: SubmitAction = if self.submitted == 0 {
            SubmitAction::SetVmConfig(cfg.vm.clone())
        } else if self.submitted == 1 {
            SubmitAction::SetBootSource(cfg.boot.clone())
        } else if self.submitted == 2 {
            SubmitAction::InsertBlockDevice(cfg.block.clone())
        } else {
            match &cfg.vsock {
                Some(v) => SubmitAction::InsertVsock(v.clone()),
                None => {
                    proof {
                        assert(false);
                    }
                    return Err(OrchestratorError::InvalidState);
                },
            }
        };
        self.awaiting_ack = true;
        Ok(action)
    }

    /// Records the channel's answer to the submission that is out. An
    /// accepted submission advances the plan — completing it moves the
    /// attempt to `Configured` — and a rejected one kills the attempt:
    /// no further submission will be handed out.
    pub fn submission_result(&mut self, accepted: bool) -> (r: Result<(), OrchestratorError>)
        requires
            old(self).wf(),
        ensures
            final(self).wf(),
            !(old(self).phase is Configuring) || !old(self).awaiting_ack ==> r == Err::<
                (),
                OrchestratorError,
            >(OrchestratorError::InvalidState) && *final(self) == *old(self),
            old(self).phase is Configuring && old(self).awaiting_ack && accepted ==> {
                &&& r is Ok
                &&& *final(self) == (Orchestrator {
                    phase: if old(self).submitted + 1 == submission_plan(
                        old(self).config->0@,
                    ).len() {
                        Phase::Configured
                    } else {
                        Phase::Configuring
                    },
                    submitted: (old(self).submitted + 1) as usize,
                    awaiting_ack: false,
                    ..*old(self)
                })
            },
            old(self).phase is Configuring && old(self).awaiting_ack && !accepted ==> {
                &&& r == Err::<(), OrchestratorError>(
                    OrchestratorError::Failed(FailureReason::ConfigRejected),
                )
                &&& *final(self) == (Orchestrator {
                    phase: Phase::Failed,
                    failure: Some(FailureReason::ConfigRejected),
                    awaiting_ack: false,
                    ..*old(self)
                })
            },
    {
        if self.phase != Phase::Configuring || !self.awaiting_ack {
            return Err(OrchestratorError::InvalidState);
        }
        self.awaiting_ack = false;
        if !accepted {
            self.phase = Phase::Failed;
            self.failure = Some(FailureReason::ConfigRejected);
            return Err(OrchestratorError::Failed(FailureReason::ConfigRejected));
        }
        let plan_len: usize = match &self.config {
            Some(c) => if c.vsock.is_some() {
                4
            } else {
                3
            },
            None => {
                proof {
                    assert(false);
                }
                return Err(OrchestratorError::InvalidState);
            },
        };
        self.submitted = self.submitted + 1;
        if self.submitted == plan_len {
            self.phase = Phase::Configured;
        }
        Ok(())
    }

    /// Hands out the start request: the session's pre-boot payload,
    /// under which the platform boots the guest up to the measurement
    /// point and pauses it there. A remote session that has not
    /// completed pre-attestation has no payload; the start fails closed
    /// and nothing changes.
    pub fn start(&mut self) -> (r: Result<SessionStartPayload, OrchestratorError>)
        requires
            old(self).wf(),
        ensures
            final(self).wf(),
            !(old(self).phase is Configured) ==> r == Err::<
                SessionStartPayload,
                OrchestratorError,
            >(OrchestratorError::InvalidState) && *final(self) == *old(self),
            old(self).phase is Configured && spec_start_payload(old(self).session@) is None ==> r
                == Err::<SessionStartPayload, OrchestratorError>(
                OrchestratorError::MissingTransactionId,
            ) && *final(self) == *old(self),
            old(self).phase is Configured ==> (spec_start_payload(old(self).session@) matches Some(
                p,
            ) ==> {
                &&& r matches Ok(payload) && payload@ == p
                &&& *final(self) == (Orchestrator { phase: Phase::Starting, ..*old(self) })
            }),
    {
        if self.phase != Phase::Configured {
            return Err(OrchestratorError::InvalidState);
        }
        let payload: SessionStartPayload = match &self.session {
            LaunchSession::Local(l) => l.start_payload.clone(),
            LaunchSession::Remote(rs) => match &rs.start {
                Some(p) => p.clone(),
                None => {
                    return Err(OrchestratorError::MissingTransactionId);
                },
            },
        };
        self.phase = Phase::Starting;
        Ok(payload)
    }

    /// Records the platform's answer to the start request. Only a
    /// response carrying the measurement advances the attempt; any
    /// other response — a rejection, or success without a measurement —
    /// kills it.
    pub fn start_response(&mut self, resp: StartResponse) -> (r: Result<(), OrchestratorError>)
        requires
            old(self).wf(),
        ensures
            final(self).wf(),
            !(old(self).phase is Starting) ==> r == Err::<(), OrchestratorError>(
                OrchestratorError::InvalidState,
            ) && *final(self) == *old(self),
            old(self).phase is Starting ==> (resp@ matches StartResponseV::MeasurementAvailable(
                m,
            ) ==> {
                &&& r is Ok
                &&& final(self).phase is Booted
                &&& final(self).measurement matches Some(got) && got@ == m
                &&& *final(self) == (Orchestrator {
                    phase: Phase::Booted,
                    measurement: final(self).measurement,
                    ..*old(self)
                })
            }),
            old(self).phase is Starting && !(resp@ matches StartResponseV::MeasurementAvailable(_))
                ==> {
                &&& r == Err::<(), OrchestratorError>(
                    OrchestratorError::Failed(FailureReason::UnexpectedStartResponse),
                )
                &&& *final(self) == (Orchestrator {
                    phase: Phase::Failed,
                    failure: Some(FailureReason::UnexpectedStartResponse),
                    ..*old(self)
                })
            },
    {
        if self.phase != Phase::Starting {
            return Err(OrchestratorError::InvalidState);
        }
        match resp {
            StartResponse::MeasurementAvailable(m) => {
                self.measurement = Some(m);
                self.phase = Phase::Booted;
                Ok(())
            },
            _ => {
                self.phase = Phase::Failed;
                self.failure = Some(FailureReason::UnexpectedStartResponse);
                Err(OrchestratorError::Failed(FailureReason::UnexpectedStartResponse))
            },
        }
    }

    /// Attests the reported measurement. Exactly one attestation per
    /// attempt: in any phase but `Booted` — in particular on an already
    /// attested attempt — the call is rejected and nothing changes.
    ///
    /// Under a local session the measurement is verified in place: on
    /// success the secret bundle is ready and the caller proceeds to
    /// injection; on mismatch the attempt is dead and the VM must stay
    /// paused. Under a remote session the secret-exchange request is
    /// handed out — unless pre-attestation never assigned a transaction
    /// identifier, in which case the exchange fails closed and nothing
    /// changes.
    pub fn attest(&mut self) -> (r: Result<AttestOutcome, OrchestratorError>)
        requires
            old(self).wf(),
        ensures
            final(self).wf(),
            !(old(self).phase is Booted) ==> r == Err::<AttestOutcome, OrchestratorError>(
                OrchestratorError::InvalidState,
            ) && *final(self) == *old(self),
            old(self).phase is Booted ==> (old(self).session@ matches LaunchSessionV::Local(
                l,
            ) ==> if measurement_consistent(l, old(self).measurement->0@) {
                &&& r matches Ok(o) && o is Verified
                &&& final(self).bundle matches Some(b) && b@ == spec_bundle_of(
                    spec_derive_secret(l.app_code, old(self).measurement->0@.measurement),
                )
                &&& *final(self) == (Orchestrator {
                    phase: Phase::Attested,
                    bundle: final(self).bundle,
                    ..*old(self)
                })
            } else {
                &&& r == Err::<AttestOutcome, OrchestratorError>(
                    OrchestratorError::Failed(
                        FailureReason::Attestation(AttestationError::MeasurementVerificationFailed),
                    ),
                )
                &&& *final(self) == (Orchestrator {
                    phase: Phase::Failed,
                    failure: Some(
                        FailureReason::Attestation(AttestationError::MeasurementVerificationFailed),
                    ),
                    ..*old(self)
                })
            }),
            old(self).phase is Booted ==> (old(self).session@ matches LaunchSessionV::Remote(
                rs,
            ) ==> if rs.transaction_id is Some {
                &&& r matches Ok(o) && o matches AttestOutcome::BrokerExchange(req) && req@
                    == spec_secret_exchange_request(
                    rs,
                    old(self).config->0@.boot,
                    old(self).config->0@.vm.vcpu_count,
                    old(self).measurement->0@,
                )
                &&& *final(self) == (Orchestrator {
                    phase: Phase::AwaitingBroker,
                    measurement: None,
                    ..*old(self)
                })
            } else {
                &&& r == Err::<AttestOutcome, OrchestratorError>(
                    OrchestratorError::MissingTransactionId,
                )
                &&& *final(self) == *old(self)
            }),
    {
        if self.phase != Phase::Booted {
            return Err(OrchestratorError::InvalidState);
        }
        match &self.session {
            LaunchSession::Local(l) => {
                let m = match &self.measurement {
                    Some(m) => m,
                    None => {
                        proof {
                            assert(false);
                        }
                        return Err(OrchestratorError::InvalidState);
                    },
                };
                match l.verify(m) {
                    Ok(secret) => {
                        let mut secrets: Vec<SecretWithGpa> = Vec::new();
                        secrets.push(SecretWithGpa { secret, gpa: None });
                        let bundle = SecretBundle { secrets, resume_vm: true };
                        proof {
                            assert(bundle@.secrets =~= spec_bundle_of(
                                spec_derive_secret(l@.app_code, m@.measurement),
                            ).secrets);
                        }
                        self.bundle = Some(bundle);
                        self.phase = Phase::Attested;
                        Ok(AttestOutcome::Verified)
                    },
                    Err(_) => {
                        self.phase = Phase::Failed;
                        self.failure = Some(
                            FailureReason::Attestation(
                                AttestationError::MeasurementVerificationFailed,
                            ),
                        );
                        Err(
                            OrchestratorError::Failed(
                                FailureReason::Attestation(
                                    AttestationError::MeasurementVerificationFailed,
                                ),
                            ),
                        )
                    },
                }
            },
            LaunchSession::Remote(rs) => {
                if rs.transaction_id.is_none() {
                    return Err(OrchestratorError::MissingTransactionId);
                }
                let m: LaunchMeasurement = match self.measurement.take() {
                    Some(m) => m,
                    None => {
                        proof {
                            assert(false);
                        }
                        return Err(OrchestratorError::InvalidState);
                    },
                };
                let cfg = match &self.config {
                    Some(c) => c,
                    None => {
                        proof {
                            assert(false);
                        }
                        return Err(OrchestratorError::InvalidState);
                    },
                };
                match rs.secret_exchange_request(&cfg.boot, cfg.vm.vcpu_count, m) {
                    Ok(req) => {
                        self.phase = Phase::AwaitingBroker;
                        Ok(AttestOutcome::BrokerExchange(req))
                    },
                    Err(_) => {
                        proof {
                            assert(false);
                        }
                        Err(OrchestratorError::InvalidState)
                    },
                }
            },
        }
    }

    /// Records the broker's answer to the secret exchange. A wrapped
    /// secret readies the bundle; any refusal kills the attempt — the
    /// VM stays paused and is never resumed.
    pub fn broker_response(&mut self, outcome: BrokerOutcome) -> (r: Result<
        (),
        OrchestratorError,
    >)
        requires
            old(self).wf(),
        ensures
            final(self).wf(),
            !(old(self).phase is AwaitingBroker) ==> r == Err::<(), OrchestratorError>(
                OrchestratorError::InvalidState,
            ) && *final(self) == *old(self),
            old(self).phase is AwaitingBroker ==> (outcome@ matches BrokerOutcomeV::WrappedSecret(
                s,
            ) ==> {
                &&& r is Ok
                &&& final(self).bundle matches Some(b) && b@ == spec_bundle_of(s)
                &&& *final(self) == (Orchestrator {
                    phase: Phase::Attested,
                    bundle: final(self).bundle,
                    ..*old(self)
                })
            }),
            old(self).phase is AwaitingBroker && outcome@ is Rejected ==> {
                &&& r == Err::<(), OrchestratorError>(
                    OrchestratorError::Failed(
                        FailureReason::Attestation(AttestationError::AttestationRejected),
                    ),
                )
                &&& *final(self) == (Orchestrator {
                    phase: Phase::Failed,
                    failure: Some(
                        FailureReason::Attestation(AttestationError::AttestationRejected),
                    ),
                    ..*old(self)
                })
            },
            old(self).phase is AwaitingBroker && outcome@ is Unreachable ==> {
                &&& r == Err::<(), OrchestratorError>(
                    OrchestratorError::Failed(
                        FailureReason::Attestation(AttestationError::AttestationProxyUnreachable),
                    ),
                )
                &&& *final(self) == (Orchestrator {
                    phase: Phase::Failed,
                    failure: Some(
                        FailureReason::Attestation(AttestationError::AttestationProxyUnreachable),
                    ),
                    ..*old(self)
                })
            },
            old(self).phase is AwaitingBroker && outcome@ is MeasurementMismatch ==> {
                &&& r == Err::<(), OrchestratorError>(
                    OrchestratorError::Failed(
                        FailureReason::Attestation(AttestationError::MeasurementMismatch),
                    ),
                )
                &&& *final(self) == (Orchestrator {
                    phase: Phase::Failed,
                    failure: Some(
                        FailureReason::Attestation(AttestationError::MeasurementMismatch),
                    ),
                    ..*old(self)
                })
            },
    {
        if self.phase != Phase::AwaitingBroker {
            return Err(OrchestratorError::InvalidState);
        }
        match outcome {
            BrokerOutcome::WrappedSecret(s) => {
                let mut secrets: Vec<SecretWithGpa> = Vec::new();
                secrets.push(SecretWithGpa { secret: s, gpa: None });
                let bundle = SecretBundle { secrets, resume_vm: true };
                proof {
                    assert(bundle@.secrets =~= spec_bundle_of(bundle@.secrets[0].secret).secrets);
                }
                self.bundle = Some(bundle);
                self.phase = Phase::Attested;
                Ok(())
            },
            BrokerOutcome::Rejected => {
                self.phase = Phase::Failed;
                self.failure = Some(
                    FailureReason::Attestation(AttestationError::AttestationRejected),
                );
                Err(
                    OrchestratorError::Failed(
                        FailureReason::Attestation(AttestationError::AttestationRejected),
                    ),
                )
            },
            BrokerOutcome::Unreachable => {
                self.phase = Phase::Failed;
                self.failure = Some(
                    FailureReason::Attestation(AttestationError::AttestationProxyUnreachable),
                );
                Err(
                    OrchestratorError::Failed(
                        FailureReason::Attestation(AttestationError::AttestationProxyUnreachable),
                    ),
                )
            },
            BrokerOutcome::MeasurementMismatch => {
                self.phase = Phase::Failed;
                self.failure = Some(
                    FailureReason::Attestation(AttestationError::MeasurementMismatch),
                );
                Err(
                    OrchestratorError::Failed(
                        FailureReason::Attestation(AttestationError::MeasurementMismatch),
                    ),
                )
            },
        }
    }

    /// Hands out the secret bundle for injection over the VM control
    /// channel. Only an attested attempt ever releases a bundle: in any
    /// other phase — in particular after a failed attestation — the
    /// call is refused and no bundle leaves the orchestrator.
    pub fn inject(&mut self) -> (r: Result<SecretBundle, OrchestratorError>)
        requires
            old(self).wf(),
        ensures
            final(self).wf(),
            !(old(self).phase is Attested) ==> r == Err::<SecretBundle, OrchestratorError>(
                OrchestratorError::InvalidState,
            ) && *final(self) == *old(self),
            old(self).phase is Attested ==> {
                &&& r matches Ok(b) && b == old(self).bundle->0 && b@.resume_vm
                &&& *final(self) == (Orchestrator {
                    phase: Phase::SecretInjected,
                    bundle: None,
                    ..*old(self)
                })
            },
    {
        if self.phase != Phase::Attested {
            return Err(OrchestratorError::InvalidState);
        }
        let bundle: SecretBundle = match self.bundle.take() {
            Some(b) => b,
            None => {
                proof {
                    assert(false);
                }
                return Err(OrchestratorError::InvalidState);
            },
        };
        self.phase = Phase::SecretInjected;
        Ok(bundle)
    }

    /// Records the channel's answer to the injection: confirmation
    /// makes the attempt `Running`; a rejection kills it.
    pub fn inject_result(&mut self, accepted: bool) -> (r: Result<(), OrchestratorError>)
        requires
            old(self).wf(),
        ensures
            final(self).wf(),
            !(old(self).phase is SecretInjected) ==> r == Err::<(), OrchestratorError>(
                OrchestratorError::InvalidState,
            ) && *final(self) == *old(self),
            old(self).phase is SecretInjected && accepted ==> r is Ok && *final(self)
                == (Orchestrator { phase: Phase::Running, ..*old(self) }),
            old(self).phase is SecretInjected && !accepted ==> {
                &&& r == Err::<(), OrchestratorError>(
                    OrchestratorError::Failed(FailureReason::InjectRejected),
                )
                &&& *final(self) == (Orchestrator {
                    phase: Phase::Failed,
                    failure: Some(FailureReason::InjectRejected),
                    ..*old(self)
                })
            },
    {
        if self.phase != Phase::SecretInjected {
            return Err(OrchestratorError::InvalidState);
        }
        if accepted {
            self.phase = Phase::Running;
            Ok(())
        } else {
            self.phase = Phase::Failed;
            self.failure = Some(FailureReason::InjectRejected);
            Err(OrchestratorError::Failed(FailureReason::InjectRejected))
        }
    }
}

} // verus!
