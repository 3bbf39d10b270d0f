use dbs_cli::args::BootArgs;
use dbs_cli::args::CpuTopologyArgs;
use dbs_cli::args::CreateArgs;
use dbs_cli::args::DBSArgs;
use dbs_cli::args::RootfsArgs;
use dbs_cli::args::SecurityInfoArgs;
use dbs_cli::args::UpdateArgs;
use dbs_cli::config::build;
use dbs_cli::config::LaunchConfig;
use dbs_cli::orchestrator::AttestOutcome;
use dbs_cli::orchestrator::FailureReason;
use dbs_cli::orchestrator::Orchestrator;
use dbs_cli::orchestrator::OrchestratorError;
use dbs_cli::orchestrator::Phase;
use dbs_cli::orchestrator::StartResponse;
use dbs_cli::orchestrator::SubmitAction;
use dbs_cli::session::app_code_zero;
use dbs_cli::session::expected_measurement;
use dbs_cli::session::policy_bits;
use dbs_cli::session::AttestationError;
use dbs_cli::session::BrokerOutcome;
use dbs_cli::session::LaunchMeasurement;
use dbs_cli::session::LaunchPolicy;
use dbs_cli::session::LaunchSession;
use dbs_cli::session::LocalSession;
use dbs_cli::session::RemoteSession;
use dbs_cli::session::SessionStartPayload;

fn launch_args(vsock: &str) -> DBSArgs {
    DBSArgs {
        command: None,
        create_args: CreateArgs {
            vcpu: 1,
            max_vcpu: 1,
            cpu_pm: "on".to_string(),
            vpmu_feature: 0,
            cpu_topology: CpuTopologyArgs {
                threads_per_core: 1,
                cores_per_die: 1,
                dies_per_socket: 1,
                sockets: 1,
            },
            mem_type: "shmem".to_string(),
            mem_file_path: "".to_string(),
            mem_size: 128,
            serial_path: None,
            vsock: vsock.to_string(),
        },
        boot_args: BootArgs {
            kernel_path: Some("/boot/vmlinuz".to_string()),
            initrd_path: None,
            firmware_path: None,
            boot_args: "console=ttyS0 root=/dev/vda1".to_string(),
            rootfs_args: RootfsArgs {
                rootfs: Some("/img/root.ext4".to_string()),
                is_root: true,
                is_read_only: false,
            },
        },
        log_file: "dbs-cli.log".to_string(),
        log_level: "Info".to_string(),
        api_sock_path: "".to_string(),
        update_args: UpdateArgs { vcpu_resize: None },
        security_info_args: None,
    }
}

fn launch_config(vsock: &str) -> LaunchConfig {
    build(&launch_args(vsock)).unwrap()
}

const CHAIN: [u8; 4] = [5, 6, 7, 8];

fn local_policy() -> LaunchPolicy {
    LaunchPolicy { encrypted_state: true, debug: false }
}

fn local_session() -> LaunchSession {
    LaunchSession::Local(
        LocalSession::negotiate(Some(CHAIN.to_vec()), local_policy(), app_code_zero()).unwrap(),
    )
}

fn consistent_measurement(build: u32) -> LaunchMeasurement {
    LaunchMeasurement {
        measurement: expected_measurement(&CHAIN.to_vec(), policy_bits(local_policy()), build),
        build,
        cmdline: None,
        tdhob: None,
    }
}

fn remote_session() -> RemoteSession {
    RemoteSession::from_args(&SecurityInfoArgs {
        guest_pre_attestation: true,
        guest_pre_attestation_keyset: Some("KEYSET-1".to_string()),
        guest_pre_attestation_proxy: Some("http://broker.example:44444".to_string()),
        guest_pre_attestation_secret_guid: Some(
            "e6f5a162-d67f-4750-a67c-5d065f2a9910".to_string(),
        ),
        guest_pre_attestation_secret_type: Some("bundle".to_string()),
        sev_cert_chain_path: Some("/var/cache/cert_chain.cert".to_string()),
        sev_guest_policy: 0,
    })
    .unwrap()
}

fn submission_kind(a: &SubmitAction) -> &'static str {
    match a {
        SubmitAction::SetVmConfig(_) => "vm",
        SubmitAction::SetBootSource(_) => "boot",
        SubmitAction::InsertBlockDevice(_) => "block",
        SubmitAction::InsertVsock(_) => "vsock",
    }
}

fn run_configuration(orch: &mut Orchestrator, cfg: LaunchConfig) -> Vec<&'static str> {
    orch.begin_configure(cfg).unwrap();
    let mut kinds = Vec::new();
    while orch.phase == Phase::Configuring {
        let action = orch.next_submission().unwrap();
        kinds.push(submission_kind(&action));
        orch.submission_result(true).unwrap();
    }
    kinds
}

#[test]
fn submissions_go_out_in_the_fixed_order() {
    let mut orch = Orchestrator::new(local_session());
    let kinds = run_configuration(&mut orch, launch_config("/tmp/vsock.sock"));
    assert_eq!(kinds, vec!["vm", "boot", "block", "vsock"]);
    assert_eq!(orch.phase, Phase::Configured);
}

#[test]
fn no_vsock_submission_without_a_vsock_device() {
    let mut orch = Orchestrator::new(local_session());
    let kinds = run_configuration(&mut orch, launch_config(""));
    assert_eq!(kinds, vec!["vm", "boot", "block"]);
    assert_eq!(orch.phase, Phase::Configured);
}

#[test]
fn a_rejected_submission_stops_the_sequence() {
    let mut orch = Orchestrator::new(local_session());
    orch.begin_configure(launch_config("")).unwrap();
    let _ = orch.next_submission().unwrap();
    assert_eq!(
        orch.submission_result(false),
        Err(OrchestratorError::Failed(FailureReason::ConfigRejected))
    );
    assert_eq!(orch.phase, Phase::Failed);
    assert_eq!(orch.failure, Some(FailureReason::ConfigRejected));
    assert_eq!(orch.next_submission(), Err(OrchestratorError::InvalidState));
}

#[test]
fn local_launch_reaches_running() {
    let mut orch = Orchestrator::new(local_session());
    run_configuration(&mut orch, launch_config(""));

    let payload = orch.start().unwrap();
    assert_eq!(payload.policy, 3);
    assert_eq!(payload.cert, CHAIN.to_vec());
    assert_eq!(orch.phase, Phase::Starting);

    let build = 7u32;
    orch.start_response(StartResponse::MeasurementAvailable(consistent_measurement(build)))
        .unwrap();
    assert_eq!(orch.phase, Phase::Booted);

    assert_eq!(orch.attest(), Ok(AttestOutcome::Verified));
    assert_eq!(orch.phase, Phase::Attested);

    let bundle = orch.inject().unwrap();
    assert!(bundle.resume_vm);
    assert_eq!(bundle.secrets.len(), 1);
    assert!(!bundle.secrets[0].secret.is_empty());
    assert!(bundle.secrets[0].gpa.is_none());
    assert_eq!(orch.phase, Phase::SecretInjected);

    orch.inject_result(true).unwrap();
    assert_eq!(orch.phase, Phase::Running);
}

#[test]
fn attest_cannot_run_twice() {
    let mut orch = Orchestrator::new(local_session());
    run_configuration(&mut orch, launch_config(""));
    orch.start().unwrap();
    orch.start_response(StartResponse::MeasurementAvailable(consistent_measurement(7)))
        .unwrap();
    assert_eq!(orch.attest(), Ok(AttestOutcome::Verified));
    assert_eq!(orch.phase, Phase::Attested);
    // re-entry on the attested attempt is rejected, not re-executed
    assert_eq!(orch.attest(), Err(OrchestratorError::InvalidState));
    assert_eq!(orch.phase, Phase::Attested);
    // the attempt itself is still intact
    assert!(orch.inject().is_ok());
}

#[test]
fn a_mismatched_measurement_kills_the_attempt() {
    let mut orch = Orchestrator::new(local_session());
    run_configuration(&mut orch, launch_config(""));
    orch.start().unwrap();
    let mut m = consistent_measurement(7);
    m.measurement[0] ^= 0xff;
    orch.start_response(StartResponse::MeasurementAvailable(m)).unwrap();
    assert_eq!(
        orch.attest(),
        Err(OrchestratorError::Failed(FailureReason::Attestation(
            AttestationError::MeasurementVerificationFailed
        )))
    );
    assert_eq!(orch.phase, Phase::Failed);
    // no secret ever leaves a failed attempt
    assert_eq!(orch.inject(), Err(OrchestratorError::InvalidState));
}

#[test]
fn start_without_a_measurement_is_a_protocol_error() {
    let mut orch = Orchestrator::new(local_session());
    run_configuration(&mut orch, launch_config(""));
    orch.start().unwrap();
    assert_eq!(
        orch.start_response(StartResponse::StartedWithoutMeasurement),
        Err(OrchestratorError::Failed(FailureReason::UnexpectedStartResponse))
    );
    assert_eq!(orch.phase, Phase::Failed);
    assert_eq!(orch.failure, Some(FailureReason::UnexpectedStartResponse));
}

#[test]
fn a_rejected_start_is_a_protocol_error() {
    let mut orch = Orchestrator::new(local_session());
    run_configuration(&mut orch, launch_config(""));
    orch.start().unwrap();
    assert_eq!(
        orch.start_response(StartResponse::Rejected),
        Err(OrchestratorError::Failed(FailureReason::UnexpectedStartResponse))
    );
}

#[test]
fn remote_start_fails_closed_before_negotiation() {
    let mut orch = Orchestrator::new(LaunchSession::Remote(remote_session()));
    run_configuration(&mut orch, launch_config(""));
    assert_eq!(orch.start(), Err(OrchestratorError::MissingTransactionId));
    assert_eq!(orch.phase, Phase::Configured);
}

#[test]
fn secret_exchange_fails_closed_without_transaction_id() {
    // a session that skipped pre-attestation, on an otherwise booted attempt
    let mut orch = Orchestrator {
        session: LaunchSession::Remote(remote_session()),
        phase: Phase::Booted,
        failure: None,
        config: Some(launch_config("")),
        submitted: 3,
        awaiting_ack: false,
        measurement: Some(LaunchMeasurement {
            measurement: vec![1, 2, 3],
            build: 7,
            cmdline: None,
            tdhob: None,
        }),
        bundle: None,
    };
    assert_eq!(orch.attest(), Err(OrchestratorError::MissingTransactionId));
    // fail-closed: nothing changed, nothing was sent
    assert_eq!(orch.phase, Phase::Booted);
    assert!(orch.measurement.is_some());
}

fn negotiated_remote() -> LaunchSession {
    let mut s = remote_session();
    s.complete_negotiation(
        "tx-1".to_string(),
        SessionStartPayload { policy: 0, cert: vec![1], session_blob: vec![2] },
    )
    .unwrap();
    LaunchSession::Remote(s)
}

#[test]
fn remote_rejection_leaves_the_vm_paused() {
    let mut orch = Orchestrator::new(negotiated_remote());
    run_configuration(&mut orch, launch_config(""));
    orch.start().unwrap();
    orch.start_response(StartResponse::MeasurementAvailable(LaunchMeasurement {
        measurement: vec![1, 2, 3],
        build: 7,
        cmdline: Some("console=ttyS0".to_string()),
        tdhob: None,
    }))
    .unwrap();

    let req = match orch.attest().unwrap() {
        AttestOutcome::BrokerExchange(req) => req,
        other => panic!("expected a broker exchange, got {:?}", other),
    };
    assert_eq!(req.transaction_id, "tx-1");
    assert_eq!(req.measurement, vec![1, 2, 3]);
    assert_eq!(orch.phase, Phase::AwaitingBroker);

    assert_eq!(
        orch.broker_response(BrokerOutcome::Rejected),
        Err(OrchestratorError::Failed(FailureReason::Attestation(
            AttestationError::AttestationRejected
        )))
    );
    assert_eq!(orch.phase, Phase::Failed);
    assert_eq!(
        orch.failure,
        Some(FailureReason::Attestation(AttestationError::AttestationRejected))
    );
    // the refused attempt never hands out a secret to inject
    assert_eq!(orch.inject(), Err(OrchestratorError::InvalidState));
}

#[test]
fn remote_wrapped_secret_reaches_running() {
    let mut orch = Orchestrator::new(negotiated_remote());
    run_configuration(&mut orch, launch_config(""));
    orch.start().unwrap();
    orch.start_response(StartResponse::MeasurementAvailable(LaunchMeasurement {
        measurement: vec![1, 2, 3],
        build: 7,
        cmdline: None,
        tdhob: None,
    }))
    .unwrap();
    let _req = orch.attest().unwrap();
    orch.broker_response(BrokerOutcome::WrappedSecret(vec![0xca, 0xfe])).unwrap();
    assert_eq!(orch.phase, Phase::Attested);
    let bundle = orch.inject().unwrap();
    assert!(bundle.resume_vm);
    assert_eq!(bundle.secrets.len(), 1);
    assert_eq!(bundle.secrets[0].secret, vec![0xca, 0xfe]);
    orch.inject_result(true).unwrap();
    assert_eq!(orch.phase, Phase::Running);
}

#[test]
fn broker_unreachable_and_mismatch_are_distinct_failures() {
    for (outcome, err) in [
        (BrokerOutcome::Unreachable, AttestationError::AttestationProxyUnreachable),
        (BrokerOutcome::MeasurementMismatch, AttestationError::MeasurementMismatch),
    ] {
        let mut orch = Orchestrator::new(negotiated_remote());
        run_configuration(&mut orch, launch_config(""));
        orch.start().unwrap();
        orch.start_response(StartResponse::MeasurementAvailable(LaunchMeasurement {
            measurement: vec![1, 2, 3],
            build: 7,
            cmdline: None,
            tdhob: None,
        }))
        .unwrap();
        let _req = orch.attest().unwrap();
        assert_eq!(
            orch.broker_response(outcome),
            Err(OrchestratorError::Failed(FailureReason::Attestation(err)))
        );
        assert_eq!(orch.failure, Some(FailureReason::Attestation(err)));
    }
}

#[test]
fn a_rejected_injection_kills_the_attempt() {
    let mut orch = Orchestrator::new(local_session());
    run_configuration(&mut orch, launch_config(""));
    orch.start().unwrap();
    orch.start_response(StartResponse::MeasurementAvailable(consistent_measurement(7)))
        .unwrap();
    orch.attest().unwrap();
    orch.inject().unwrap();
    assert_eq!(
        orch.inject_result(false),
        Err(OrchestratorError::Failed(FailureReason::InjectRejected))
    );
    assert_eq!(orch.phase, Phase::Failed);
    assert_eq!(orch.failure, Some(FailureReason::InjectRejected));
}

#[test]
fn steps_out_of_order_are_rejected() {
    let mut orch = Orchestrator::new(local_session());
    assert_eq!(orch.next_submission(), Err(OrchestratorError::InvalidState));
    assert_eq!(orch.start(), Err(OrchestratorError::InvalidState));
    assert_eq!(orch.attest(), Err(OrchestratorError::InvalidState));
    assert_eq!(orch.inject(), Err(OrchestratorError::InvalidState));
    assert_eq!(orch.inject_result(true), Err(OrchestratorError::InvalidState));
    orch.begin_configure(launch_config("")).unwrap();
    assert_eq!(
        orch.begin_configure(launch_config("")),
        Err(OrchestratorError::InvalidState)
    );
    assert_eq!(orch.submission_result(true), Err(OrchestratorError::InvalidState));
    assert_eq!(orch.phase, Phase::Configuring);
}
