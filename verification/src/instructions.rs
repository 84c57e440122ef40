//! The transaction's instruction plan.
//!
//! Instructions are modelled as plain data: the caller's instructions carry
//! their program id, account metas and data bytes, and the pipeline's own
//! additions (compute-unit limit, compute-unit price, relay tip transfer)
//! are explicit variants.  The embedding runtime turns each planned
//! instruction into the chain's native instruction type when it builds the
//! wire transaction.

use vstd::prelude::*;
use rand::RngExt;

verus! {

/// A 32-byte account address.
#[derive(Clone, Copy, Debug, PartialEq, Eq)]
pub struct AccountKey {
    pub bytes: [u8; 32],
}

/// One account an instruction touches.
#[derive(Clone, Copy, Debug, PartialEq, Eq)]
pub struct AccountMetaPlan {
    pub key: AccountKey,
    pub is_signer: bool,
    pub is_writable: bool,
}

/// One caller-supplied instruction, passed through unchanged.
#[derive(Clone, Debug, PartialEq, Eq)]
pub struct CallerInstruction {
    pub program_id: AccountKey,
    pub accounts: Vec<AccountMetaPlan>,
    pub data: Vec<u8>,
}

/// The planned tip transfer that accompanies a relay bundle.
#[derive(Clone, Copy, Debug, PartialEq, Eq)]
pub struct TipPlan {
    /// The paying account.
    pub payer: AccountKey,
    /// The tip account the transfer goes to.
    pub tip_account: AccountKey,
    /// The transferred amount in lamports.
    pub lamports: u64,
}

/// One instruction of the assembled transaction.
#[derive(Clone, Debug, PartialEq, Eq)]
pub enum PlannedInstruction {
    /// Declare the transaction's compute-unit limit.
    SetComputeUnitLimit(u32),
    /// Declare the priority fee, in micro-lamports per compute unit.
    SetComputeUnitPrice(u64),
    /// Transfer lamports from `from` to `to` (the relay tip).
    TransferLamports { from: AccountKey, to: AccountKey, lamports: u64 },
    /// A caller instruction, unchanged.
    Caller(CallerInstruction),
}

// ---------------------------------------------------------------------------
// The accounts fee estimation asks about.
// ---------------------------------------------------------------------------

/// The keys of a meta list, in order.
pub open spec fn meta_keys(metas: Seq<AccountMetaPlan>) -> Seq<AccountKey> {
    metas.map_values(|m: AccountMetaPlan| m.key)
}

/// All account keys the instructions touch, instruction by instruction.
pub open spec fn spec_instruction_account_keys(ixs: Seq<CallerInstruction>) -> Seq<AccountKey>
    decreases ixs.len(),
{
    if ixs.len() == 0 {
        Seq::<AccountKey>::empty()
    } else {
        spec_instruction_account_keys(ixs.drop_last()) + meta_keys(ixs.last().accounts@)
    }
}

/// The program ids of the instructions, in order.
pub open spec fn spec_program_ids(ixs: Seq<CallerInstruction>) -> Seq<AccountKey> {
    ixs.map_values(|ix: CallerInstruction| ix.program_id)
}

/// The account list handed to fee estimation: every account key of every
/// instruction, then every program id.
pub open spec fn spec_fee_accounts(ixs: Seq<CallerInstruction>) -> Seq<AccountKey> {
    spec_instruction_account_keys(ixs) + spec_program_ids(ixs)
}

/// Collect the accounts whose recent fees the estimator should look at.
pub fn fee_accounts(ixs: &Vec<CallerInstruction>) -> (r: Vec<AccountKey>)
    ensures
        r@ == spec_fee_accounts(ixs@),
{
    let mut r: Vec<AccountKey> = Vec::new();
    let mut i: usize = 0;
    while i < ixs.len()
        invariant
            0 <= i <= ixs@.len(),
            r@ == spec_instruction_account_keys(ixs@.take(i as int)),
        decreases ixs@.len() - i,
    {
        let metas = &ixs[i].accounts;
        let mut j: usize = 0;
        while j < metas.len()
            invariant
                0 <= j <= metas@.len(),
                metas@ == ixs@[i as int].accounts@,
                0 <= i < ixs@.len(),
                r@ == spec_instruction_account_keys(ixs@.take(i as int)) + meta_keys(
                    metas@.take(j as int),
                ),
            decreases metas@.len() - j,
        {
            r.push(metas[j].key);
            proof {
                assert(meta_keys(metas@.take(j + 1 as int)) =~= meta_keys(
                    metas@.take(j as int),
                ).push(metas@[j as int].key));
            }
            j = j + 1;
        }
        proof {
            assert(metas@.take(metas@.len() as int) =~= metas@);
            assert(ixs@.take(i + 1 as int).drop_last() =~= ixs@.take(i as int));
            assert(ixs@.take(i + 1 as int).last() == ixs@[i as int]);
        }
        i = i + 1;
    }
    proof {
        assert(ixs@.take(ixs@.len() as int) =~= ixs@);
    }
    let mut k: usize = 0;
    while k < ixs.len()
        invariant
            0 <= k <= ixs@.len(),
            r@ == spec_instruction_account_keys(ixs@) + spec_program_ids(ixs@.take(k as int)),
        decreases ixs@.len() - k,
    {
        r.push(ixs[k].program_id);
        proof {
            assert(spec_program_ids(ixs@.take(k + 1 as int)) =~= spec_program_ids(
                ixs@.take(k as int),
            ).push(ixs@[k as int].program_id));
        }
        k = k + 1;
    }
    proof {
        assert(ixs@.take(ixs@.len() as int) =~= ixs@);
    }
    r
}

// ---------------------------------------------------------------------------
// The relay tip.
// ---------------------------------------------------------------------------

/// Plan the relay tip transfer: the requested amount, raised to the
/// relay's minimum when it falls short.
pub fn plan_tip(requested_tip: u64, minimum_tip: u64, payer: &AccountKey, tip_account: &AccountKey)
    -> (r: TipPlan)
    ensures
        r.lamports == if requested_tip >= minimum_tip {
            requested_tip
        } else {
            minimum_tip
        },
        r.lamports >= minimum_tip,
        r.lamports >= requested_tip,
        r.payer == *payer,
        r.tip_account == *tip_account,
{
    let lamports = if requested_tip >= minimum_tip {
        requested_tip
    } else {
        minimum_tip
    };
    TipPlan { payer: *payer, tip_account: *tip_account, lamports }
}

/// Relies on `rand::rng` and `rand::RngExt::random_range` over `0..bound`:
/// the draw lies in the half-open range, and `random_range` panics only on
/// an empty range, which the precondition rules out.  Nothing further is
/// assumed of the draw.
#[verifier::external_body]
fn random_index(bound: usize) -> (r: usize)
    requires
        bound >= 1,
    ensures
        r < bound,
{
    rand::rng().random_range(0..bound)
}

/// Pick one of the relay's tip accounts; any of them serves.
pub fn choose_tip_account(accounts: &Vec<AccountKey>) -> (r: AccountKey)
    requires
        accounts@.len() >= 1,
    ensures
        exists|i: int| 0 <= i < accounts@.len() && r == accounts@[i],
{
    let i = random_index(accounts.len());
    accounts[i]
}

// ---------------------------------------------------------------------------
// Assembly.
// ---------------------------------------------------------------------------

/// The assembled instruction list: the compute-unit limit instruction when
/// the limit is non-zero, then the fee instruction when the fee is
/// non-zero, then the caller's instructions unchanged and in order, then
/// the tip transfer when a tip is planned.
pub open spec fn spec_assembled_instructions(
    caller: Seq<CallerInstruction>,
    priority_fee: u64,
    cu_limit: u32,
    tip: Option<TipPlan>,
) -> Seq<PlannedInstruction> {
    let limit_part: Seq<PlannedInstruction> = if cu_limit > 0 {
        seq![PlannedInstruction::SetComputeUnitLimit(cu_limit)]
    } else {
        Seq::<PlannedInstruction>::empty()
    };
    let fee_part: Seq<PlannedInstruction> = if priority_fee > 0 {
        seq![PlannedInstruction::SetComputeUnitPrice(priority_fee)]
    } else {
        Seq::<PlannedInstruction>::empty()
    };
    let tip_part: Seq<PlannedInstruction> = match tip {
        Some(t) => seq![
            PlannedInstruction::TransferLamports {
                from: t.payer,
                to: t.tip_account,
                lamports: t.lamports,
            },
        ],
        None => Seq::<PlannedInstruction>::empty(),
    };
    limit_part + fee_part + caller.map_values(|c: CallerInstruction| PlannedInstruction::Caller(c))
        + tip_part
}

/// Whether an assembled list carries a fee-rate instruction.
pub open spec fn contains_fee_instruction(s: Seq<PlannedInstruction>) -> bool {
    exists|i: int| 0 <= i < s.len() && s[i] is SetComputeUnitPrice
}

/// Assemble the transaction's instruction list.
///
/// A zero compute-unit limit and a zero fee each omit their instruction
/// entirely; the caller's instructions keep their order.
pub fn assemble_instructions(
    caller: Vec<CallerInstruction>,
    priority_fee: u64,
    cu_limit: u32,
    tip: Option<TipPlan>,
) -> (r: Vec<PlannedInstruction>)
    ensures
        r@ == spec_assembled_instructions(caller@, priority_fee, cu_limit, tip),
{
    let ghost caller0 = caller@;
    let ghost limit_part: Seq<PlannedInstruction> = if cu_limit > 0 {
        seq![PlannedInstruction::SetComputeUnitLimit(cu_limit)]
    } else {
        Seq::<PlannedInstruction>::empty()
    };
    let ghost fee_part: Seq<PlannedInstruction> = if priority_fee > 0 {
        seq![PlannedInstruction::SetComputeUnitPrice(priority_fee)]
    } else {
        Seq::<PlannedInstruction>::empty()
    };
    let mut r: Vec<PlannedInstruction> = Vec::new();
    if cu_limit > 0 {
        r.push(PlannedInstruction::SetComputeUnitLimit(cu_limit));
    }
    if priority_fee > 0 {
        r.push(PlannedInstruction::SetComputeUnitPrice(priority_fee));
    }
    proof {
        assert(r@ =~= limit_part + fee_part);
    }
    let mut rest = caller;
    while rest.len() > 0
        invariant
            rest@.len() <= caller0.len(),
            rest@ == caller0.skip(caller0.len() - rest@.len()),
            r@ == limit_part + fee_part + caller0.take(caller0.len() - rest@.len()).map_values(
                |c: CallerInstruction| PlannedInstruction::Caller(c),
            ),
        decreases rest@.len(),
    {
        let ghost k = caller0.len() - rest@.len();
        let ix = rest.remove(0);
        proof {
            assert(ix == caller0[k]);
            assert(caller0.skip(k).remove(0) =~= caller0.skip(k + 1));
            assert(caller0.take(k + 1).map_values(
                |c: CallerInstruction| PlannedInstruction::Caller(c),
            ) =~= caller0.take(k).map_values(|c: CallerInstruction| PlannedInstruction::Caller(c))
                .push(PlannedInstruction::Caller(caller0[k])));
        }
        r.push(PlannedInstruction::Caller(ix));
    }
    proof {
        assert(caller0.take(caller0.len() as int) =~= caller0);
    }
    if let Some(t) = tip {
        r.push(
            PlannedInstruction::TransferLamports {
                from: t.payer,
                to: t.tip_account,
                lamports: t.lamports,
            },
        );
    }
    proof {
        assert(r@ =~= spec_assembled_instructions(caller0, priority_fee, cu_limit, tip));
    }
    r
}

/// A transaction assembled without a fee never carries a fee-rate
/// instruction — in particular, a relay bundle never does, since the relay
/// path resolves the fee to zero.
pub proof fn lemma_zero_fee_omits_fee_instruction(
    caller: Seq<CallerInstruction>,
    cu_limit: u32,
    tip: Option<TipPlan>,
)
    ensures
        !contains_fee_instruction(spec_assembled_instructions(caller, 0, cu_limit, tip)),
{
    let s = spec_assembled_instructions(caller, 0, cu_limit, tip);
    let mapped = caller.map_values(|c: CallerInstruction| PlannedInstruction::Caller(c));
    assert forall|i: int| 0 <= i < s.len() implies !(s[i] is SetComputeUnitPrice) by {
        let limit_len: int = if cu_limit > 0 {
            1
        } else {
            0
        };
        if i < limit_len {
            assert(s[i] == PlannedInstruction::SetComputeUnitLimit(cu_limit));
        } else if i < limit_len + mapped.len() {
            assert(s[i] == mapped[i - limit_len]);
            assert(mapped[i - limit_len] == PlannedInstruction::Caller(caller[i - limit_len]));
        } else {
            assert(tip is Some);
            let t = tip.unwrap();
            assert(s[i] == PlannedInstruction::TransferLamports {
                from: t.payer,
                to: t.tip_account,
                lamports: t.lamports,
            });
        }
    }
}

} // verus!
