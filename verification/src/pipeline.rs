//! The submission pipeline's preparation stage, end to end.
//!
//! Everything that has to be decided before the transaction is compiled
//! and signed — the applied priority fee, the declared compute-unit limit
//! and the final instruction list — is a pure function of the caller's
//! input and of what the network answered.  The embedding runtime fetches
//! those answers (fee observations, simulation outcomes) and replays them
//! here; tests replay recorded ones.

use vstd::prelude::*;
use crate::compute_budget::{spec_resolved_cu_limit, resolve_cu_limit, SimOutcome};
use crate::config::SmartTxConfig;
use crate::errors::SmartTransactionError;
use crate::instructions::{
    assemble_instructions, contains_fee_instruction, lemma_zero_fee_omits_fee_instruction,
    plan_tip, spec_assembled_instructions, AccountKey, CallerInstruction, PlannedInstruction,
    TipPlan,
};
use crate::priority_fee::{
    get_priority_fee_levels_estimate, resolve_priority_fee, spec_fee_levels,
    spec_resolved_priority_fee, FeeObservation,
};

verus! {

/// Everything decided before compiling and signing.
#[derive(Clone, Debug, PartialEq, Eq)]
pub struct PreparedSubmission {
    /// The assembled instruction list, in final order.
    pub instructions: Vec<PlannedInstruction>,
    /// The priority fee actually applied.
    pub priority_fee: u64,
    /// The compute-unit limit actually declared; 0 omits the instruction.
    pub cu_limit: u32,
}

/// The tip transfer a relay policy plans: the requested amount raised to
/// the relay's minimum, paid by the payer to the chosen tip account.
pub open spec fn spec_tip_plan(
    jito_tips: Option<u64>,
    minimum_tip: u64,
    payer: AccountKey,
    tip_account: AccountKey,
) -> Option<TipPlan> {
    match jito_tips {
        Some(tips) => Some(
            TipPlan {
                payer,
                tip_account,
                lamports: if tips >= minimum_tip {
                    tips
                } else {
                    minimum_tip
                },
            },
        ),
        None => None,
    }
}

/// Prepare one submission from the caller's input and recorded network
/// answers.
///
/// `observations` is the fee sample the network returned for the
/// transaction's accounts (consulted only when the fee policy asks for an
/// estimate), `sim_outcomes` is what simulation returned on each attempt,
/// and `tip_account` is the relay tip account the runtime chose.  The
/// call fails exactly when compute-unit resolution reports a fatal,
/// un-ignored simulation error, and then carries that fault.
pub fn prepare_submission(
    caller_instructions: Vec<CallerInstruction>,
    payer: AccountKey,
    cfg: &SmartTxConfig,
    observations: &Vec<FeeObservation>,
    sim_outcomes: Vec<SimOutcome>,
    tip_account: AccountKey,
    minimum_tip: u64,
) -> (r: Result<PreparedSubmission, SmartTransactionError>)
    ensures
        r is Ok <==> spec_resolved_cu_limit(sim_outcomes@, *cfg) is Ok,
        spec_resolved_cu_limit(sim_outcomes@, *cfg) matches Err(f) ==> r == Err::<
            PreparedSubmission,
            SmartTransactionError,
        >(SmartTransactionError::SimulationError(f)),
        r matches Ok(p) ==> p.priority_fee == spec_resolved_priority_fee(
            cfg.priority_fee,
            cfg.jito is Some,
            spec_fee_levels(observations@),
        ),
        r matches Ok(p) ==> Ok::<u32, crate::errors::TransactionFault>(p.cu_limit)
            == spec_resolved_cu_limit(sim_outcomes@, *cfg),
        r matches Ok(p) ==> p.instructions@ == spec_assembled_instructions(
            caller_instructions@,
            p.priority_fee,
            p.cu_limit,
            spec_tip_plan(
                match cfg.jito {
                    Some(j) => Some(j.tips),
                    None => None,
                },
                minimum_tip,
                payer,
                tip_account,
            ),
        ),
        cfg.jito is Some ==> (r matches Ok(p) ==> p.priority_fee == 0
            && !contains_fee_instruction(p.instructions@)),
{
    let relay_in_use = cfg.jito.is_some();
    let levels = get_priority_fee_levels_estimate(observations);
    let fee = resolve_priority_fee(&cfg.priority_fee, relay_in_use, &levels);
    let cu_limit = match resolve_cu_limit(sim_outcomes, cfg) {
        Ok(c) => c,
        Err(f) => {
            return Err(SmartTransactionError::SimulationError(f));
        },
    };
    let tip: Option<TipPlan> = match &cfg.jito {
        Some(j) => Some(plan_tip(j.tips, minimum_tip, &payer, &tip_account)),
        None => None,
    };
    let ghost caller0 = caller_instructions@;
    let instructions = assemble_instructions(caller_instructions, fee, cu_limit, tip);
    proof {
        if relay_in_use {
            lemma_zero_fee_omits_fee_instruction(caller0, cu_limit, tip);
        }
    }
    Ok(PreparedSubmission { instructions, priority_fee: fee, cu_limit })
}

/// A relay submission's tip instruction always stands last and always
/// carries at least the relay's minimum tip.
pub proof fn lemma_relay_tip_meets_minimum(
    caller: Seq<CallerInstruction>,
    priority_fee: u64,
    cu_limit: u32,
    jito_tips: u64,
    minimum_tip: u64,
    payer: AccountKey,
    tip_account: AccountKey,
)
    ensures
        ({
            let assembled = spec_assembled_instructions(
                caller,
                priority_fee,
                cu_limit,
                spec_tip_plan(Some(jito_tips), minimum_tip, payer, tip_account),
            );
            &&& assembled.len() > 0
            &&& assembled.last() matches PlannedInstruction::TransferLamports {
                from,
                to,
                lamports,
            } && from == payer && to == tip_account && lamports >= minimum_tip
                && lamports >= jito_tips
        }),
{
}

} // verus!
