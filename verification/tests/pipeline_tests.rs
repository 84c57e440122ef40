//! Compute budgeting, assembly, delivery routing and confirmation polling.

use tx_sender::compute_budget::{
    compute_unit_limit, decide_simulation_step, resolve_cu_limit, simulation_blockhash,
    simulation_instructions, SimOutcome, SimStep, SimulationBlockhash,
};
use tx_sender::confirmation::{
    confirmation_outcome, poll_decision, ConfirmationLevel, PollDecision, PollVerdict, TxStatus,
};
use tx_sender::delivery::{
    bundle_endpoint, direct_send_policy, direct_submission_result, encode_bundle_payload,
    relay_submission_result, select_delivery, DeliveryMode,
};
use tx_sender::instructions::{
    assemble_instructions, choose_tip_account, fee_accounts, plan_tip, AccountKey,
    AccountMetaPlan, CallerInstruction, PlannedInstruction, TipPlan,
};
use tx_sender::pipeline::prepare_submission;
use tx_sender::priority_fee::{FeeObservation, PriorityFeeLevel};
use tx_sender::{
    Blockhash, SmartTransactionError, SmartTxConfig, SmartTxElapsedTime, SmartTxJitoConfig,
    SmartTxPriorityFeeConfig, TransactionFault, TxSignature, MAX_COMPUTE_UNIT_LIMIT,
};

fn key(tag: u8) -> AccountKey {
    AccountKey { bytes: [tag; 32] }
}

fn transfer_instruction(from: u8, to: u8) -> CallerInstruction {
    CallerInstruction {
        program_id: key(0),
        accounts: vec![
            AccountMetaPlan { key: key(from), is_signer: true, is_writable: true },
            AccountMetaPlan { key: key(to), is_signer: false, is_writable: true },
        ],
        data: vec![2, 0, 0, 0, 100, 0, 0, 0, 0, 0, 0, 0],
    }
}

fn clean_simulation(units: u64) -> SimOutcome {
    SimOutcome::Simulated { err: None, units_consumed: Some(units) }
}

fn base_config() -> SmartTxConfig {
    SmartTxConfig::default()
}

// ---------------------------------------------------------------------------
// Compute budget.
// ---------------------------------------------------------------------------

#[test]
fn margin_scales_consumed_units() {
    // floor(5000 * 1.15) = 5750
    assert_eq!(compute_unit_limit(5000, 115), 5750);
}

#[test]
fn margin_is_clamped_to_at_least_one() {
    assert_eq!(compute_unit_limit(5000, 50), 5000);
}

#[test]
fn margin_is_clamped_to_at_most_ten() {
    assert_eq!(compute_unit_limit(5000, 5000), 50000);
}

#[test]
fn limit_is_capped_at_network_maximum() {
    assert_eq!(compute_unit_limit(u64::MAX, 1000), MAX_COMPUTE_UNIT_LIMIT);
    assert_eq!(compute_unit_limit(2_000_000, 100), MAX_COMPUTE_UNIT_LIMIT);
}

#[test]
fn disabled_simulation_uses_fallback_exactly() {
    let mut cfg = base_config();
    cfg.disable_simulation = true;
    cfg.default_compute_unit_limit = 123_456;
    let r = resolve_cu_limit(vec![clean_simulation(5000)], &cfg);
    assert_eq!(r, Ok(123_456));
}

#[test]
fn first_clean_simulation_decides_the_limit() {
    let mut cfg = base_config();
    cfg.compute_unit_margin_percent = 115;
    let outcomes = vec![SimOutcome::TransportError, clean_simulation(5000)];
    assert_eq!(resolve_cu_limit(outcomes, &cfg), Ok(5750));
}

#[test]
fn stale_checkpoint_is_retried() {
    let cfg = base_config();
    let outcomes = vec![
        SimOutcome::Simulated {
            err: Some(TransactionFault::BlockhashNotFound),
            units_consumed: None,
        },
        clean_simulation(1000),
    ];
    assert_eq!(resolve_cu_limit(outcomes, &cfg), Ok(1150));
}

#[test]
fn fatal_simulation_error_fails_the_submission() {
    let cfg = base_config();
    let outcomes = vec![SimOutcome::Simulated {
        err: Some(TransactionFault::Other("program failed".to_string())),
        units_consumed: None,
    }];
    assert_eq!(
        resolve_cu_limit(outcomes, &cfg),
        Err(TransactionFault::Other("program failed".to_string()))
    );
}

#[test]
fn ignored_simulation_error_falls_back() {
    let mut cfg = base_config();
    cfg.ignore_simulation_error = true;
    cfg.default_compute_unit_limit = 777;
    let outcomes = vec![SimOutcome::Simulated {
        err: Some(TransactionFault::Other("program failed".to_string())),
        units_consumed: None,
    }];
    assert_eq!(resolve_cu_limit(outcomes, &cfg), Ok(777));
}

#[test]
fn five_transient_failures_fall_back() {
    let mut cfg = base_config();
    cfg.default_compute_unit_limit = 999;
    let outcomes = vec![SimOutcome::TransportError; 6];
    assert_eq!(resolve_cu_limit(outcomes, &cfg), Ok(999));
}

#[test]
fn zero_consumption_falls_back() {
    let mut cfg = base_config();
    cfg.default_compute_unit_limit = 555;
    assert_eq!(resolve_cu_limit(vec![clean_simulation(0)], &cfg), Ok(555));
}

#[test]
fn step_classification() {
    assert_eq!(decide_simulation_step(SimOutcome::TransportError, 115, false), SimStep::Retry);
    assert_eq!(
        decide_simulation_step(
            SimOutcome::Simulated {
                err: Some(TransactionFault::BlockhashNotFound),
                units_consumed: None,
            },
            115,
            false,
        ),
        SimStep::Retry
    );
    assert_eq!(decide_simulation_step(clean_simulation(100), 100, false), SimStep::Accept(100));
    assert_eq!(
        decide_simulation_step(
            SimOutcome::Simulated { err: None, units_consumed: None },
            115,
            false,
        ),
        SimStep::Accept(0)
    );
}

#[test]
fn probe_declares_the_network_maximum() {
    let probe = simulation_instructions(vec![PlannedInstruction::Caller(
        transfer_instruction(1, 2),
    )]);
    assert_eq!(probe.len(), 2);
    assert_eq!(probe[0], PlannedInstruction::SetComputeUnitLimit(MAX_COMPUTE_UNIT_LIMIT));
}

#[test]
fn simulation_checkpoint_choice() {
    let pinned = Blockhash { bytes: [7; 32] };
    assert_eq!(simulation_blockhash(false, &Some(pinned)), SimulationBlockhash::ZeroDefault);
    assert_eq!(simulation_blockhash(true, &Some(pinned)), SimulationBlockhash::Pinned(pinned));
    assert_eq!(simulation_blockhash(true, &None), SimulationBlockhash::FetchLatest);
}

// ---------------------------------------------------------------------------
// Assembly.
// ---------------------------------------------------------------------------

#[test]
fn fee_accounts_list_accounts_then_programs() {
    let ix = transfer_instruction(1, 2);
    let accounts = fee_accounts(&vec![ix]);
    assert_eq!(accounts, vec![key(1), key(2), key(0)]);
}

#[test]
fn assembly_order_is_limit_fee_caller_tip() {
    let caller = vec![transfer_instruction(1, 2)];
    let tip = TipPlan { payer: key(1), tip_account: key(9), lamports: 1000 };
    let assembled = assemble_instructions(caller.clone(), 8, 5750, Some(tip));
    assert_eq!(assembled.len(), 4);
    assert_eq!(assembled[0], PlannedInstruction::SetComputeUnitLimit(5750));
    assert_eq!(assembled[1], PlannedInstruction::SetComputeUnitPrice(8));
    assert_eq!(assembled[2], PlannedInstruction::Caller(caller[0].clone()));
    assert_eq!(
        assembled[3],
        PlannedInstruction::TransferLamports { from: key(1), to: key(9), lamports: 1000 }
    );
}

#[test]
fn zero_fee_and_zero_limit_omit_their_instructions() {
    let caller = vec![transfer_instruction(1, 2)];
    let assembled = assemble_instructions(caller.clone(), 0, 0, None);
    assert_eq!(assembled.len(), 1);
    assert_eq!(assembled[0], PlannedInstruction::Caller(caller[0].clone()));
}

#[test]
fn tip_is_raised_to_the_minimum() {
    let tip = plan_tip(500, 1000, &key(1), &key(9));
    assert_eq!(tip.lamports, 1000);
    let generous = plan_tip(2000, 1000, &key(1), &key(9));
    assert_eq!(generous.lamports, 2000);
}

#[test]
fn chosen_tip_account_comes_from_the_list() {
    let accounts = vec![key(3)];
    assert_eq!(choose_tip_account(&accounts), key(3));
    let more = vec![key(1), key(2), key(3)];
    let chosen = choose_tip_account(&more);
    assert!(more.contains(&chosen));
}

// ---------------------------------------------------------------------------
// The prepared submission, end to end.
// ---------------------------------------------------------------------------

#[test]
fn direct_submission_with_medium_fee() {
    let mut cfg = base_config();
    cfg.priority_fee = Some(SmartTxPriorityFeeConfig {
        fee_level: PriorityFeeLevel::Medium,
        fee_min: None,
        fee_max: None,
    });
    cfg.compute_unit_margin_percent = 115;
    let observations: Vec<FeeObservation> =
        (1..=10).map(|s| FeeObservation { slot: s, prioritization_fee: s }).collect();
    let prepared = prepare_submission(
        vec![transfer_instruction(1, 2)],
        key(1),
        &cfg,
        &observations,
        vec![clean_simulation(5000)],
        key(9),
        1000,
    )
    .unwrap();
    // Medium is the 75th percentile of 1..=10, which is 8.
    assert_eq!(prepared.priority_fee, 8);
    assert_eq!(prepared.cu_limit, 5750);
    assert_eq!(prepared.instructions.len(), 3);
    assert_eq!(prepared.instructions[0], PlannedInstruction::SetComputeUnitLimit(5750));
    assert_eq!(prepared.instructions[1], PlannedInstruction::SetComputeUnitPrice(8));
    assert!(matches!(prepared.instructions[2], PlannedInstruction::Caller(_)));
}

#[test]
fn zero_fee_from_empty_sample_omits_the_fee_instruction() {
    let mut cfg = base_config();
    cfg.priority_fee = Some(SmartTxPriorityFeeConfig {
        fee_level: PriorityFeeLevel::Medium,
        fee_min: None,
        fee_max: None,
    });
    let prepared = prepare_submission(
        vec![transfer_instruction(1, 2)],
        key(1),
        &cfg,
        &Vec::new(),
        vec![clean_simulation(5000)],
        key(9),
        1000,
    )
    .unwrap();
    assert_eq!(prepared.priority_fee, 0);
    assert_eq!(prepared.instructions.len(), 2);
    assert_eq!(prepared.instructions[0], PlannedInstruction::SetComputeUnitLimit(5750));
    assert!(matches!(prepared.instructions[1], PlannedInstruction::Caller(_)));
}

#[test]
fn relay_submission_tips_at_least_the_minimum_and_carries_no_fee() {
    let mut cfg = base_config();
    cfg.priority_fee = Some(SmartTxPriorityFeeConfig {
        fee_level: PriorityFeeLevel::Ultimate,
        fee_min: Some(5),
        fee_max: None,
    });
    cfg.jito = Some(SmartTxJitoConfig { uuid: String::new(), tips: 500, region: None });
    let observations: Vec<FeeObservation> =
        (1..=10).map(|s| FeeObservation { slot: s, prioritization_fee: s }).collect();
    let prepared = prepare_submission(
        vec![transfer_instruction(1, 2)],
        key(1),
        &cfg,
        &observations,
        vec![clean_simulation(5000)],
        key(9),
        1000,
    )
    .unwrap();
    assert_eq!(prepared.priority_fee, 0);
    assert!(
        !prepared
            .instructions
            .iter()
            .any(|ix| matches!(ix, PlannedInstruction::SetComputeUnitPrice(_)))
    );
    assert_eq!(
        prepared.instructions.last().unwrap(),
        &PlannedInstruction::TransferLamports { from: key(1), to: key(9), lamports: 1000 }
    );
}

#[test]
fn preparation_is_deterministic() {
    let mut cfg = base_config();
    cfg.priority_fee = Some(SmartTxPriorityFeeConfig {
        fee_level: PriorityFeeLevel::High,
        fee_min: None,
        fee_max: None,
    });
    let observations: Vec<FeeObservation> =
        (1..=160).map(|s| FeeObservation { slot: s, prioritization_fee: 3 * s }).collect();
    let run = || {
        prepare_submission(
            vec![transfer_instruction(1, 2)],
            key(1),
            &cfg,
            &observations,
            vec![SimOutcome::TransportError, clean_simulation(4321)],
            key(9),
            1000,
        )
        .unwrap()
    };
    assert_eq!(run(), run());
}

#[test]
fn fatal_simulation_error_surfaces_as_simulation_error() {
    let cfg = base_config();
    let r = prepare_submission(
        vec![transfer_instruction(1, 2)],
        key(1),
        &cfg,
        &Vec::new(),
        vec![SimOutcome::Simulated {
            err: Some(TransactionFault::Other("insufficient funds".to_string())),
            units_consumed: None,
        }],
        key(9),
        1000,
    );
    assert_eq!(
        r,
        Err(SmartTransactionError::SimulationError(TransactionFault::Other(
            "insufficient funds".to_string()
        )))
    );
}

// ---------------------------------------------------------------------------
// Delivery routing.
// ---------------------------------------------------------------------------

#[test]
fn relay_policy_selects_the_relay() {
    let jito = Some(SmartTxJitoConfig { uuid: String::new(), tips: 0, region: None });
    assert_eq!(select_delivery(&jito), DeliveryMode::RelayBundle);
    assert_eq!(select_delivery(&None), DeliveryMode::Direct);
}

#[test]
fn bundle_payload_is_base58() {
    // Two leading zero bytes each map to '1', and the byte 1 maps to '2'.
    assert_eq!(encode_bundle_payload(&vec![0, 0, 1]), "112");
    assert_eq!(encode_bundle_payload(&Vec::new()), "");
    assert_eq!(encode_bundle_payload(&vec![255]), "5Q");
}

#[test]
fn bundle_endpoint_appends_uuid_only_when_non_empty() {
    assert_eq!(
        bundle_endpoint("https://relay.example", ""),
        "https://relay.example/api/v1/bundles"
    );
    assert_eq!(
        bundle_endpoint("https://relay.example", "abc-123"),
        "https://relay.example/api/v1/bundles?uuid=abc-123"
    );
}

#[test]
fn relay_result_has_signature_exactly_when_awaited() {
    let sig = TxSignature { bytes: [5; 64] };
    let waited = relay_submission_result(
        true,
        Some(sig),
        "bundle-1".to_string(),
        0,
        SmartTxElapsedTime::default(),
    );
    assert_eq!(waited.signature, Some(sig));
    assert_eq!(waited.jito_bundle_id, Some("bundle-1".to_string()));
    let fire_and_forget = relay_submission_result(
        false,
        None,
        "bundle-2".to_string(),
        0,
        SmartTxElapsedTime::default(),
    );
    assert_eq!(fire_and_forget.signature, None);
    assert_eq!(fire_and_forget.jito_bundle_id, Some("bundle-2".to_string()));
}

#[test]
fn direct_path_sends_once_without_preflight() {
    let policy = direct_send_policy();
    assert!(policy.skip_preflight);
    assert_eq!(policy.max_retries, 0);
}

#[test]
fn direct_result_always_has_a_signature() {
    let sig = TxSignature { bytes: [6; 64] };
    let r = direct_submission_result(sig, 42, SmartTxElapsedTime::default());
    assert_eq!(r.signature, Some(sig));
    assert_eq!(r.priority_fee, 42);
    assert_eq!(r.jito_bundle_id, None);
}

// ---------------------------------------------------------------------------
// Confirmation polling.
// ---------------------------------------------------------------------------

fn confirmed_status() -> Option<TxStatus> {
    Some(TxStatus { err: None, confirmation_status: Some(ConfirmationLevel::Confirmed) })
}

fn pending_status() -> Option<TxStatus> {
    Some(TxStatus { err: None, confirmation_status: Some(ConfirmationLevel::Processed) })
}

fn failed_status(msg: &str) -> Option<TxStatus> {
    Some(TxStatus {
        err: Some(TransactionFault::Other(msg.to_string())),
        confirmation_status: Some(ConfirmationLevel::Processed),
    })
}

#[test]
fn confirmed_and_finalized_levels_succeed() {
    assert_eq!(poll_decision(confirmed_status(), 10, 100), PollDecision::Confirmed);
    let finalized =
        Some(TxStatus { err: None, confirmation_status: Some(ConfirmationLevel::Finalized) });
    assert_eq!(poll_decision(finalized, 10, 100), PollDecision::Confirmed);
}

#[test]
fn status_error_fails_immediately() {
    assert_eq!(
        poll_decision(failed_status("boom"), 10, 100),
        PollDecision::Failed(TransactionFault::Other("boom".to_string()))
    );
}

#[test]
fn pending_status_keeps_waiting_until_timeout() {
    assert_eq!(poll_decision(pending_status(), 10, 100), PollDecision::KeepWaiting);
    assert_eq!(poll_decision(pending_status(), 101, 100), PollDecision::TimedOut);
    assert_eq!(poll_decision(None, 100, 100), PollDecision::KeepWaiting);
    assert_eq!(poll_decision(None, 101, 100), PollDecision::TimedOut);
}

#[test]
fn first_check_happens_after_one_full_interval() {
    let r = confirmation_outcome(vec![confirmed_status()], 2000, 60000);
    assert_eq!(r.polls, 1);
    assert_eq!(r.waited_ms, 2000);
    assert_eq!(r.verdict, PollVerdict::Confirmed);
}

#[test]
fn failure_is_reported_at_its_poll() {
    let r = confirmation_outcome(
        vec![pending_status(), failed_status("lost")],
        1000,
        60000,
    );
    assert_eq!(r.polls, 2);
    assert_eq!(r.verdict, PollVerdict::Failed(TransactionFault::Other("lost".to_string())));
}

#[test]
fn timeout_happens_within_one_interval_past_the_deadline() {
    // No status ever turns terminal: with interval 2000 and timeout 60000
    // the poller times out at the 31st poll, having waited 62000 ms —
    // past the timeout, but no more than one interval past it.
    let r = confirmation_outcome(Vec::new(), 2000, 60000);
    assert_eq!(r.verdict, PollVerdict::TimedOut);
    assert_eq!(r.polls, 31);
    assert_eq!(r.waited_ms, 62000);
    assert!(r.waited_ms > 60000);
    assert!(r.waited_ms <= 60000 + 2000);
}

#[test]
fn timeout_window_with_uneven_interval() {
    let r = confirmation_outcome(Vec::new(), 10, 25);
    assert_eq!(r.verdict, PollVerdict::TimedOut);
    assert_eq!(r.polls, 3);
    assert_eq!(r.waited_ms, 30);
}

// ---------------------------------------------------------------------------
// Defaults.
// ---------------------------------------------------------------------------

#[test]
fn default_config_matches_the_documented_defaults() {
    let cfg = SmartTxConfig::default();
    assert!(cfg.priority_fee.is_none());
    assert!(cfg.jito.is_none());
    assert_eq!(cfg.default_compute_unit_limit, MAX_COMPUTE_UNIT_LIMIT);
    assert_eq!(cfg.compute_unit_margin_percent, 115);
    assert!(!cfg.disable_simulation);
    assert!(!cfg.ignore_simulation_error);
    assert!(cfg.sig_verify_on_simulation);
    assert!(cfg.wait_for_confirmation);
    assert_eq!(cfg.effective_polling_interval_ms(), 2000);
    assert_eq!(cfg.effective_transaction_timeout_ms(), 60000);
    assert!(cfg.blockhash.is_none());
}
