use sha2::{Digest, Sha256};
use grid_kernel::adversarial_harness::{
    run_all_vectors, vector_beta_authority_escalation, AdversarialReport, TickState,
};
use grid_kernel::canonical_time::CanonicalTime;
use grid_kernel::compliance::{enforce_canonical_trace, verify_stability_counter, ComplianceTrace};
use grid_kernel::demo_pipeline::{inject_adversarial_sequence, run_clean_execution, EventType};
use grid_kernel::digest::sha256_hex;
use grid_kernel::evidence_repository::{EvidenceClass, EvidenceRepository};
use grid_kernel::failure_axis::{FailureAxis, SystemHalt};
use grid_kernel::fiel::{classify_transition, execute_tick, StateSentinel, TransitionType};
use grid_kernel::hal_output::{fixed_packet, DeterministicOutputHal, OutputHalPolicy, DEFAULT_PACKET_BYTES};
use grid_kernel::interface_discovery::{
    infer_network_protocol, scan_network_interfaces, DiscoveredEndpoint, ProtocolKind,
};
use grid_kernel::ise::{ExecutionMode, IseConfig, IseHarness};
use grid_kernel::mvre_core_deterministic::Transaction;
use grid_kernel::operator_interface::diagnose_query;
use grid_kernel::phase_control::{authorize_closed_loop_control, phase_from_setting, DeploymentPhase};
use grid_kernel::protocol_drivers::{
    parse_payload_by_port, protocol_kind_by_port, Dnp3Driver, ModbusDriver, ProtocolDriver,
    ProtocolTraceSigner, TransactionDirection,
};
use grid_kernel::ptp_compliance::{ClockClass, PtpCompliance, Stratum};
use grid_kernel::recovery::{advance_recovery, enter_recovery, recovery_narrative, RecoveryConfig, RecoveryState, RecoveryStatus};
use grid_kernel::regulatory_policy::PolicyViolation;
use grid_kernel::reliability_controls::{
    enforce_cip007, enforce_cip011_topology_integrity, CipPolicy, EnforcementCode, InboundPacket, PacketType,
};
use grid_kernel::tlbss_types::{BinaryState, SubstrateNode};
use grid_kernel::mvre_kernel::{control_for_mode, AxisDisturbance, ControlMode, ControlSignal, SubstrateAxes};
use grid_kernel::verification_engine::kani_generator;
use grid_kernel::verification_engine::vir_loader::{Invariant, KaniClause, Vir};

#[test]
fn test_evidence_repository_append() {
    let mut repo = EvidenceRepository::new();
    repo.append_evidence(1000000, EvidenceClass::TimingOk, "Normal".to_string());
    repo.append_evidence(2000000, EvidenceClass::TimingOk, "Normal".to_string());
    assert_eq!(repo.len(), 2);
}

#[test]
fn test_chain_integrity() {
    let mut repo = EvidenceRepository::new();
    repo.append_evidence(1000000, EvidenceClass::TimingOk, "Normal".to_string());
    repo.append_evidence(2000000, EvidenceClass::TimingDrift, "Drift detected".to_string());
    assert!(repo.verify_chain_integrity().is_ok());
}

#[test]
fn test_fingerprint_determinism() {
    let mut repo1 = EvidenceRepository::new();
    let mut repo2 = EvidenceRepository::new();
    for i in 0..10 {
        repo1.append_evidence((i * 1000000) as u128, EvidenceClass::TimingOk, "Normal".to_string());
        repo2.append_evidence((i * 1000000) as u128, EvidenceClass::TimingOk, "Normal".to_string());
    }
    assert_eq!(repo1.compute_fingerprint(), repo2.compute_fingerprint());
}

#[test]
fn test_compliance_summary() {
    let mut repo = EvidenceRepository::new();
    for _ in 0..8 {
        repo.append_evidence(0, EvidenceClass::TimingOk, "OK".to_string());
    }
    repo.append_evidence(0, EvidenceClass::TimingDrift, "Drift".to_string());
    repo.append_evidence(0, EvidenceClass::DataCorruption, "Corruption".to_string());
    let summary = repo.compliance_summary();
    assert_eq!(summary.total_records, 10);
    assert_eq!(summary.timing_ok_count, 8);
    assert_eq!(summary.timing_drift_count, 1);
    assert_eq!(summary.data_corruption_count, 1);
    assert!(!summary.is_compliant());
    assert_eq!(summary.fingerprint.len(), 64);
}

#[test]
fn evidence_records_link_and_timeline_escapes_quotes() {
    let mut repo = EvidenceRepository::new();
    let h1 = repo.append_evidence(5, EvidenceClass::InjectionDetected, "say \"hi\"".to_string());
    let h2 = repo.append_evidence(6, EvidenceClass::TimingOk, "ok".to_string());
    assert_eq!(repo.get(1).unwrap().parent_hash, h1);
    assert_eq!(repo.get(1).unwrap().record_hash, h2);
    assert!(repo.get(2).is_none());
    assert_eq!(repo.get(0).unwrap().compute_hash(), h1);
    assert_eq!(
        repo.to_csv_timeline(),
        "sequence,timestamp_ns,failure_class,evidence\n0,5,INJECTION_DETECTED,say \\\"hi\\\"\n1,6,TIMING_OK,ok\n"
    );
    assert_eq!(EvidenceClass::AuthorityInversion.to_string(), "AUTHORITY_INVERSION");
    assert!(!repo.is_empty());
}

#[test]
fn sha256_hex_matches_known_vector() {
    assert_eq!(
        sha256_hex(b"abc"),
        "ba7816bf8f01cfea414140de5dae2223b00361a396177a9cb410ff61f20015ad"
    );
}

#[test]
fn env_phase_parser_accepts_assisted_alias() {
    assert_eq!(
        DeploymentPhase::from_env_value("assisted_control"),
        Some(DeploymentPhase::Phase3AssistedControl)
    );
}

#[test]
fn env_phase_parser_trims_and_ignores_case() {
    assert_eq!(DeploymentPhase::from_env_value("  Phase_1 "), Some(DeploymentPhase::Phase1Advisory));
    assert_eq!(DeploymentPhase::from_env_value("GUARDRAIL"), Some(DeploymentPhase::Phase2Guardrail));
    assert_eq!(DeploymentPhase::from_env_value("phase9"), None);
    assert_eq!(phase_from_setting(None).unwrap(), DeploymentPhase::Phase2Guardrail);
    assert_eq!(phase_from_setting(Some("bogus")).unwrap_err().axis, FailureAxis::UnauthorizedMode);
}

#[test]
fn phase_three_requires_operator_ack() {
    let denied = authorize_closed_loop_control(DeploymentPhase::Phase3AssistedControl, true, None);
    assert!(denied.is_err());
    assert!(authorize_closed_loop_control(DeploymentPhase::Phase3AssistedControl, true, Some("ops-ack-2026-04-17")).is_ok());
    assert!(authorize_closed_loop_control(DeploymentPhase::Phase3AssistedControl, true, Some("   ")).is_err());
}

#[test]
fn non_phase_three_is_denied() {
    let denied = authorize_closed_loop_control(DeploymentPhase::Phase2Guardrail, true, Some("ack"));
    assert!(denied.is_err());
}

#[test]
fn dnp3_driver_validates_port() {
    let driver = Dnp3Driver;
    let ep = DiscoveredEndpoint { hostname: "test".to_string(), port: 20000, service: "dnp3".to_string() };
    assert!(driver.validate_endpoint(&ep));
}

#[test]
fn modbus_driver_validates_port() {
    let driver = ModbusDriver;
    let ep = DiscoveredEndpoint { hostname: "test".to_string(), port: 502, service: "modbus".to_string() };
    assert!(driver.validate_endpoint(&ep));
}

#[test]
fn payloads_are_summarized_by_port() {
    let t = parse_payload_by_port(4712, &[1, 2, 3]).unwrap();
    assert_eq!(t.protocol, ProtocolKind::C37p118);
    assert_eq!(t.summary, "C37.118 message: 3 bytes");
    let e = parse_payload_by_port(80, &[]).unwrap_err();
    assert_eq!(e.message, "Unsupported protocol port: 80");
    assert_eq!(protocol_kind_by_port(102), Some(ProtocolKind::ICCP_TASE2));
    assert_eq!(protocol_kind_by_port(103), None);
}

#[test]
fn trace_signature_covers_hash_and_device() {
    let mut signer = ProtocolTraceSigner::new();
    let t = signer.sign_transaction("rtu-1".to_string(), ProtocolKind::DNP3, TransactionDirection::Inbound, b"abc", 7);
    assert_eq!(t.payload_hash_hex, "ba7816bf8f01cfea414140de5dae2223b00361a396177a9cb410ff61f20015ad");
    let joined = format!("{}{}", t.payload_hash_hex, "rtu-1");
    assert_eq!(t.signature_hex, sha256_hex(joined.as_bytes()));
    assert!(t.first_use);
    assert_eq!(t.timestamp_us, 7);
}

#[test]
fn test_ptp_compliance_basic() {
    let compliance = PtpCompliance::new(ClockClass::OrdinaryLocked, Stratum::Local);
    assert!(compliance.validate_phase_offset(100).is_ok());
    assert!(compliance.validate_phase_offset(500).is_err());
}

#[test]
fn test_missed_sync_tracking() {
    let mut compliance = PtpCompliance::new(ClockClass::OrdinaryLocked, Stratum::Local);
    for _ in 0..10 {
        let _ = compliance.record_missed_sync();
    }
    assert_eq!(compliance.missed_syncs, 10);
    assert!(compliance.record_missed_sync().is_err());
}

#[test]
fn ptp_messages_and_reset() {
    let mut c = PtpCompliance::new(ClockClass::Grandmaster, Stratum::Prc);
    assert_eq!(
        c.validate_phase_offset(-251).unwrap_err().message,
        "Phase offset -251 ns exceeds tolerance 250 ns (HALT_0xABF3)"
    );
    assert_eq!(
        c.validate_all(0, 21, 0).unwrap_err().message,
        "Frequency drift 21 ppm exceeds tolerance ±20 ppm (HALT_0xABF3)"
    );
    assert_eq!(c.validate_owd(1001).unwrap_err().message, "One-way delay 1001 µs exceeds tolerance 1000 µs");
    assert!(c.validate_all(250, -20, 1000).is_ok());
    assert_eq!(c.stratum_chain(), "Stratum Prc @ ClockClass Grandmaster");
    let _ = c.record_missed_sync();
    c.reset_missed_sync();
    assert_eq!(c.missed_syncs, 0);
}

#[test]
fn canonical_time_conversions() {
    let t = CanonicalTime::from_millis(3);
    assert_eq!(t.as_nanos(), 3_000_000);
    assert_eq!(t.as_micros(), 3_000);
    assert_eq!(t.as_millis(), 3);
    let r = CanonicalTime::from_nanos(2_999_700);
    assert_eq!(t.phase_offset_ns(r), 300);
    assert!(t.exceeds_phase_tolerance(r));
    assert!(!t.exceeds_phase_tolerance(CanonicalTime::from_micros(3_000)));
}

#[test]
fn cip007_default_deny_blocks_unauthorized_port_and_basepoint_write() {
    let policy = CipPolicy::default();
    let packet = InboundPacket {
        src_mac: "aa:bb:cc:dd:ee:ff".to_string(),
        dst_port: 502,
        packet_type: PacketType::Other("modbus".to_string()),
        writes_base_point: true,
    };
    let err = enforce_cip007(&packet, &policy).unwrap_err();
    assert_eq!(err.code, EnforcementCode::HaltCip001);
}

#[test]
fn cip007_orders_its_refusals() {
    let policy = CipPolicy::default();
    let mut p = InboundPacket {
        src_mac: "m".to_string(),
        dst_port: 502,
        packet_type: PacketType::Iccp,
        writes_base_point: false,
    };
    assert_eq!(enforce_cip007(&p, &policy).unwrap_err().message, "unauthorized destination port 502");
    p.dst_port = 123;
    assert_eq!(
        enforce_cip007(&p, &policy).unwrap_err().message,
        "unexpected packet type for allowed service port"
    );
    p.dst_port = 102;
    assert!(enforce_cip007(&p, &policy).is_ok());
    p.writes_base_point = true;
    assert_eq!(
        enforce_cip007(&p, &policy).unwrap_err().message,
        "unauthorized write attempt to base point memory"
    );
    let strict = CipPolicy { allowed_ports: vec![102], allowed_macs: vec!["aa".to_string()] };
    p.writes_base_point = false;
    assert_eq!(enforce_cip007(&p, &strict).unwrap_err().message, "unauthorized source MAC m");
}

#[test]
fn cip011_topology_checksum_mismatch_hard_fails() {
    let err = enforce_cip011_topology_integrity(b"topology", "deadbeef").unwrap_err();
    assert_eq!(err.code, EnforcementCode::HaltCip001);
}

#[test]
fn cip011_accepts_uppercase_checksum() {
    assert!(enforce_cip011_topology_integrity(
        b"abc",
        "BA7816BF8F01CFEA414140DE5DAE2223B00361A396177A9CB410FF61F20015AD"
    )
    .is_ok());
}

#[test]
fn commit_is_deterministic() {
    let parent = [0u8; 32];
    let mut tx = Transaction::new(parent);
    tx.append(b"step1");
    let c1 = tx.commit(b"input", b"trace", b"transition", b"final", 1).expect("commit should succeed");
    let mut tx2 = Transaction::new(parent);
    tx2.append(b"step1");
    let c2 = tx2.commit(b"input", b"trace", b"transition", b"final", 1).expect("commit should succeed");
    assert_eq!(c1, c2);
    assert_eq!(c1.to_bytes().len(), 168);
    assert_ne!(c1.canonical_input_hash, c1.execution_trace_hash);
}

#[test]
fn committed_transaction_is_refused() {
    let mut tx = Transaction::new([1u8; 32]);
    tx.committed = true;
    assert!(tx.commit(b"", b"", b"", b"", 0).is_err());
}

#[test]
fn test_ise_step_mode_basic() {
    let mut config = IseConfig::default();
    config.mode = ExecutionMode::Step;
    config.max_ticks = 10;
    let mut harness = IseHarness::new(config, 1_000_000);
    for _ in 0..10 {
        let result = harness.step_tick(0, false);
        assert!(result.is_ok(), "Step mode should succeed");
    }
    let stats = harness.statistics();
    assert_eq!(stats.total_ticks, 10);
    assert_eq!(stats.timing_ok_count, 10);
    assert!(harness.step_tick(0, false).is_err());
}

#[test]
fn test_ise_drift_injection() {
    let mut config = IseConfig::default();
    config.mode = ExecutionMode::Step;
    config.max_ticks = 5;
    config.enable_clock_drift_injection = true;
    config.drift_injection_ppm = 50;
    let mut harness = IseHarness::new(config, 1_000_000);
    let result = harness.step_tick(0, false);
    assert!(result.is_err(), "Should fail due to excessive drift injection");
    let stats = harness.statistics();
    assert_eq!(stats.timing_drift_count, 1);
}

#[test]
fn test_ise_fingerprint_determinism() {
    let config = IseConfig::default();
    let mut harness1 = IseHarness::new(config, 5_000_000);
    let mut harness2 = IseHarness::new(config, 5_000_000);
    for _ in 0..5 {
        let _ = harness1.step_tick(0, false);
        let _ = harness2.step_tick(0, false);
    }
    assert_eq!(harness1.compute_fingerprint(), harness2.compute_fingerprint());
}

#[test]
fn ise_parity_injection_and_realtime() {
    let mut config = IseConfig::default();
    config.enable_parity_fault_injection = true;
    let mut h = IseHarness::new(config, 0);
    let e = h.step_tick(0, true).unwrap_err();
    assert_eq!(e.message, "ISE: Parity error detected at tick 1 (injected)");
    assert_eq!(h.statistics().data_corruption_count, 1);
    assert_eq!(h.statistics().parity_errors_injected, 1);
    let mut rt = IseConfig::default();
    rt.mode = ExecutionMode::Realtime;
    let mut r = IseHarness::new(rt, 100);
    assert!(r.step_tick(50, false).is_ok());
    assert_eq!(r.current_tick(), 0);
    assert!(r.step_tick(200, false).is_ok());
    assert_eq!(r.current_tick(), 1);
    assert_eq!(r.current_time().as_nanos(), 200);
    let s = r.statistics();
    assert_eq!(s.timing_ok_count, 1);
    assert!(s.is_compliant());
    assert_eq!(r.evidence_log().len(), 1);
}

#[test]
fn fixed_packet_layout_has_expected_size() {
    let packet = fixed_packet(100, [1, 2, 3], false);
    assert_eq!(packet.len(), DEFAULT_PACKET_BYTES);
    assert_eq!(&packet[..12], &[100, 0, 0, 0, 0, 0, 0, 0, 1, 2, 3, 0]);
    let hal = DeterministicOutputHal::from_env().unwrap();
    let safe = hal.safe_state_packet(258);
    assert_eq!(&safe[..12], &[2, 1, 0, 0, 0, 0, 0, 0, 0, 0, 0, 1]);
    assert!(hal.poll_keepalive().is_ok());
    assert_eq!(OutputHalPolicy::from_env().allowed_interfaces, vec!["eth0".to_string(), "sim".to_string()]);
}

#[test]
fn failure_axis_codes_and_severity() {
    let h = SystemHalt::new(FailureAxis::TimingDriftFailure, "x");
    assert_eq!(h.halt_code(), "HALT_0xABF3");
    assert_eq!(h.severity(), "Critical");
    assert_eq!(SystemHalt::new(FailureAxis::Coupling, "y").severity(), "Medium");
    assert_eq!(SystemHalt::with_formatted(FailureAxis::UnauthorizedMode, "z".to_string()).halt_code(), "HALT_0x0007");
}

#[test]
fn tick_accumulates_masked_signal() {
    let mut node = SubstrateNode::new(0);
    assert_eq!(node.masked_signal, 0x5A);
    assert!(execute_tick(&mut node, 0, 50).is_ok());
    assert_eq!(node.charge, 104);
    assert_eq!(node.stable_ticks, 1);
    assert_eq!(classify_transition(&node), TransitionType::NormalAccumulation);
    assert!(StateSentinel::validate_pre_write(&node, u64::MAX).is_err());
    node.masked_signal = 0x7F;
    let before = node.charge;
    assert_eq!(execute_tick(&mut node, 1, 50).unwrap_err().message, "Mask invariant violated");
    assert_eq!(node.charge, before);
}

#[test]
fn canonical_trace_reproduces() {
    let trace = ComplianceTrace::canonical();
    let mut node = SubstrateNode::new(0);
    for i in 0..100u64 {
        execute_tick(&mut node, i, trace.input_signal).unwrap();
    }
    assert_eq!(node.charge, trace.expected_final_charge);
    assert!(enforce_canonical_trace(&node, 100, &trace).is_ok());
    assert!(verify_stability_counter(3, 300).is_err());
}

#[test]
fn adversarial_vectors() {
    let mut node = SubstrateNode::new(0);
    let results = run_all_vectors(&mut node);
    assert_eq!(results.len(), 4);
    assert!(results[0].is_err());
    assert_eq!(results[1].as_ref().unwrap_err().axis, FailureAxis::AuthorityInversionAttempt);
    assert!(results[3].is_ok());
    assert_eq!(node.stable_ticks, 10);
    assert!(vector_beta_authority_escalation().is_err());
    assert_eq!(AdversarialReport::new(4, 3, 1).summary(), "Adversarial Report: 4 total, 3 blocked, 1 escaped");
    assert_eq!(TickState::from_node(9, &node).stable_ticks, 10);
}

#[test]
fn demo_sequences() {
    let (trace, halt) = run_clean_execution();
    assert_eq!(trace.len(), 10);
    assert!(halt.is_none());
    let (trace, halt) = inject_adversarial_sequence(Some(EventType::LoadShed));
    assert_eq!(trace.len(), 21);
    assert_eq!(trace[20].charge, u64::MAX - 100);
    assert_eq!(halt.unwrap().axis, FailureAxis::Resolution);
    let (trace, halt) = inject_adversarial_sequence(None);
    assert_eq!(trace.len(), 1);
    assert_eq!(halt.unwrap().message, "Authority escalation attempt blocked");
}

#[test]
fn recovery_completes_after_threshold() {
    let config = RecoveryConfig { tpl008_thermal_stable_ticks: 2, prc029_freq_stable_ticks: 3, cip012_crypto_stable_ticks: 1 };
    let mut state = RecoveryState::default();
    assert!(advance_recovery(&mut state, &config, true, 1).is_none());
    enter_recovery(&mut state, "TPL-008-1", 10);
    assert!(advance_recovery(&mut state, &config, true, 11).is_none());
    assert!(advance_recovery(&mut state, &config, false, 12).is_none());
    assert_eq!(state.stable_tick_count, 0);
    assert!(advance_recovery(&mut state, &config, true, 13).is_none());
    let t = advance_recovery(&mut state, &config, true, 14).unwrap();
    assert_eq!(state.status, RecoveryStatus::Recovered);
    assert_eq!(t.violation_tick, 10);
    assert_eq!(recovery_narrative(&t), "Recovery from TPL-008-1: 2 ticks in recovery, stabilized at tick 14");
}

#[test]
fn discovery_and_diagnostics() {
    let eps = scan_network_interfaces(false).unwrap();
    assert_eq!(eps.len(), 2);
    assert_eq!(eps[1].port, 502);
    assert_eq!(infer_network_protocol(&vec![502, 50000]), ProtocolKind::Modbus);
    assert_eq!(infer_network_protocol(&vec![]), ProtocolKind::IEC61850);
    assert_eq!(diagnose_query("Thermal", "").unwrap(), "TPL-008-1 nominal");
    assert!(diagnose_query("weather", "").is_err());
    assert_eq!(PolicyViolation::FrequencyRideThrough.citation(), "PRC-029-1");
}

#[test]
fn kani_harness_generation() {
    let vir = Vir {
        invariants: vec![Invariant {
            id: "INV_A".to_string(),
            inputs: "u8".to_string(),
            kani: KaniClause { assumes: vec!["input < 3".to_string()], asserts: vec!["input != 7".to_string()] },
            adversarial: vec!["nan".to_string()],
        }],
    };
    let out = kani_generator::generate(&vir);
    assert!(out.starts_with("// Generated Kani proofs\n"));
    assert!(out.contains("fn proof_inv_a() {\n"));
    assert!(out.contains("    kani_bindings::assume(input < 3);\n"));
    let tests = grid_kernel::verification_engine::adversarial_generator::generate(&vir);
    assert!(tests.contains("fn test_inv_a_nan() {\n"));
    assert!(tests.contains("assert!(evaluate_invariant(\"INV_A\", &state));"));
}

#[test]
fn substrate_axes_follow_disturbance_unless_held() {
    let state = SubstrateAxes { symbolic: BinaryState::One, cognitive: BinaryState::One, biological: BinaryState::Zero };
    let disturbance = AxisDisturbance { symbolic: 1, cognitive: 2, biological: 3 };
    let free = ControlSignal { halt: false, shed_load: false, lock_state: false, drive_command: None };
    assert_eq!(
        state.transition(&free, &disturbance),
        SubstrateAxes { symbolic: BinaryState::Zero, cognitive: BinaryState::One, biological: BinaryState::One }
    );
    let safe = control_for_mode(ControlMode::Safe, false);
    assert_eq!(state.transition(&safe, &disturbance), state);
    let robust = control_for_mode(ControlMode::Robust, false);
    assert_eq!(
        state.transition(&robust, &disturbance),
        SubstrateAxes { symbolic: BinaryState::Zero, cognitive: BinaryState::One, biological: BinaryState::One }
    );
}

#[test]
fn ise_step_limits_are_checked_before_stepping() {
    let harness = IseHarness::new(IseConfig::default(), 1_000_000);
    assert!(harness.step_within_limits(0));
    let realtime = IseConfig { mode: ExecutionMode::Realtime, ..IseConfig::default() };
    let harness = IseHarness::new(realtime, 1_000_000);
    assert!(harness.step_within_limits(0));
    assert!(harness.step_within_limits(2_000_000));
    assert!(harness.step_within_limits(u128::MAX));
    assert!(!harness.step_within_limits(1u128 << 127));
}

#[test]
fn appended_records_link_and_are_found_by_index() {
    let mut repo = EvidenceRepository::new();
    let root = repo.root_hash().clone();
    assert_eq!(root, sha256_bytes(b"ISE_EVIDENCE_REPOSITORY_ROOT"));
    let h0 = repo.append_evidence(5, EvidenceClass::TimingOk, "first".to_string());
    let h1 = repo.append_evidence(9, EvidenceClass::DataCorruption, "second".to_string());
    assert_eq!(repo.len(), 2);
    let r0 = repo.get(0).unwrap();
    assert_eq!((r0.sequence, r0.timestamp), (0, 5));
    assert_eq!(r0.parent_hash, root);
    assert_eq!(r0.record_hash, h0);
    assert_eq!(r0.compute_hash(), h0);
    let r1 = repo.get(1).unwrap();
    assert_eq!((r1.sequence, r1.timestamp), (1, 9));
    assert_eq!(r1.parent_hash, h0);
    assert_eq!(r1.record_hash, h1);
    assert_eq!(r1.failure_class, "DATA_CORRUPTION");
    assert_eq!(r1.evidence, "second");
    assert!(repo.get(2).is_none());
    assert_eq!(repo.last_hash(), &h1);
    assert!(repo.verify_chain_integrity().is_ok());
}

fn sha256_bytes(data: &[u8]) -> Vec<u8> {
    Sha256::digest(data).to_vec()
}
