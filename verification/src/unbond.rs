//! The unbond batch manager: a user's unbond request joins the open batch
//! after a peg-recovery fee and an immediately-paid treasury fee; once an
//! epoch has elapsed, the open batch is frozen into history at the freshly
//! recomputed exchange rate and a new batch is opened.

use vstd::prelude::*;
use crate::bond::{min_int, saturating_sub, updated_rate};
use crate::effect::Effect;
use crate::error::LunaVaultError;
use crate::rate::{lemma_mul_rate_le_num, lemma_mul_rate_le_one, lemma_mul_rate_nonneg,
    lemma_mul_rate_zero, mul_rate, mul_rate_floor, Rate};
use crate::state::{batch_records_wf, CurrentBatch, FeeConfig, Parameters, PoolInfo,
    ProfitCheckpoint, UnbondHistory, UnbondWaitEntry, VaultState};
use crate::waitlist::{batch_sum, store_unbond_wait_list, wait_amount};

verus! {

/// The hook a receipt-token transfer can carry into the vault.
pub enum Cw20HookMsg {
    /// Start unbonding the transferred receipt tokens.
    Unbond,
}

/// The peg-recovery fee on an unbond: zero at or above the threshold,
/// otherwise the lesser of the configured share of the amount and the excess
/// of outstanding claims over the bonded total (floored at zero).
pub open spec fn unbond_peg_fee(
    amount: u64,
    rate: Rate,
    params: Parameters,
    total_supply: u64,
    requested: u64,
    total_bond: u64,
) -> int {
    if rate.lt(params.er_threshold) {
        min_int(
            mul_rate(amount as int, params.peg_recovery_fee),
            saturating_sub(total_supply + requested, total_bond as int),
        )
    } else {
        0
    }
}

/// The flat treasury fee, levied on the amount before the peg fee.
pub open spec fn treasury_fee_amount(amount: u64, fee_config: FeeConfig) -> int {
    mul_rate(amount as int, fee_config.treasury_fee)
}

/// What reaches the user's wait entry: the amount less both fees. A negative
/// value means the fees exceed the request and the operation fails.
pub open spec fn net_unbond_amount(
    amount: u64,
    rate: Rate,
    params: Parameters,
    fee_config: FeeConfig,
    total_supply: u64,
    requested: u64,
    total_bond: u64,
) -> int {
    amount - unbond_peg_fee(amount, rate, params, total_supply, requested, total_bond)
        - treasury_fee_amount(amount, fee_config)
}

/// The fees never push the net amount above the request, and at or above the
/// threshold only the treasury fee applies.
pub proof fn lemma_net_unbond_bounds(
    amount: u64,
    rate: Rate,
    params: Parameters,
    fee_config: FeeConfig,
    total_supply: u64,
    requested: u64,
    total_bond: u64,
)
    requires
        rate.wf(),
        params.wf(),
        fee_config.wf(),
    ensures
        net_unbond_amount(amount, rate, params, fee_config, total_supply, requested, total_bond)
            <= amount,
        !rate.lt(params.er_threshold) ==> net_unbond_amount(
            amount,
            rate,
            params,
            fee_config,
            total_supply,
            requested,
            total_bond,
        ) == amount - treasury_fee_amount(amount, fee_config),
        0 <= treasury_fee_amount(amount, fee_config) <= amount,
        0 <= unbond_peg_fee(amount, rate, params, total_supply, requested, total_bond) <= amount,
{
    lemma_mul_rate_nonneg(amount as int, fee_config.treasury_fee);
    lemma_mul_rate_le_one(amount as int, fee_config.treasury_fee);
    lemma_mul_rate_nonneg(amount as int, params.peg_recovery_fee);
    lemma_mul_rate_le_one(amount as int, params.peg_recovery_fee);
}

/// The recomputed exchange rate is well formed — in particular finite, its
/// denominator positive — whenever the supply is non-degenerate, and a
/// degenerate supply falls back to the previous well-formed rate.
pub proof fn lemma_updated_rate_wf(prev: Rate, total_bond: u64, total_supply: u64, requested: u64)
    requires
        prev.wf(),
        total_supply + requested <= u64::MAX,
    ensures
        updated_rate(prev, total_bond, total_supply as int, requested as int).wf(),
{
}

/// Bonding and then immediately unbonding the same amount at a constant
/// rate of one, with the peg fee inactive, returns exactly the original
/// amount less the treasury fee: no other value is created or lost. At
/// rates other than one the floors in the conversions can each lose a
/// fraction of a unit, so exact equality holds only here.
pub proof fn lemma_bond_unbond_round_trip(
    deposit: u64,
    rate: Rate,
    params: Parameters,
    fee_config: FeeConfig,
    total_supply: u64,
    requested: u64,
    total_bond: u64,
)
    requires
        params.wf(),
        fee_config.wf(),
        rate.wf(),
        rate.num == rate.den,
        !rate.lt(params.er_threshold),
    ensures
        crate::bond::net_mint_amount(deposit, rate, params, total_supply, requested, total_bond)
            == deposit,
        net_unbond_amount(deposit, rate, params, fee_config, total_supply, requested, total_bond)
            == deposit - treasury_fee_amount(deposit, fee_config),
        mul_rate(
            net_unbond_amount(
                deposit,
                rate,
                params,
                fee_config,
                total_supply,
                requested,
                total_bond,
            ),
            rate,
        ) == deposit - treasury_fee_amount(deposit, fee_config),
{
    let n = rate.num as int;
    assert(deposit * (rate.den as int) == n * deposit) by (nonlinear_arith)
        requires
            rate.num == rate.den,
            n == rate.num as int,
    ;
    vstd::arithmetic::div_mod::lemma_div_multiples_vanish(deposit as int, n);
    let net = net_unbond_amount(
        deposit,
        rate,
        params,
        fee_config,
        total_supply,
        requested,
        total_bond,
    );
    lemma_net_unbond_bounds(deposit, rate, params, fee_config, total_supply, requested, total_bond);
    assert(0 <= net);
    assert(net * n == (rate.den as int) * net) by (nonlinear_arith)
        requires
            rate.num == rate.den,
            n == rate.num as int,
    ;
    vstd::arithmetic::div_mod::lemma_div_multiples_vanish(net, rate.den as int);
}

/// More than an epoch has passed since the last batch was closed.
pub open spec fn epoch_elapsed(now: u64, last_unbonded_time: u64, params: Parameters) -> bool {
    now - last_unbonded_time > params.epoch_period
}

/// The base asset released for a closing batch: the batch total at the newly
/// recomputed exchange rate.
pub open spec fn undelegation_amount(new_requested: int, new_rate: Rate) -> int {
    mul_rate(new_requested, new_rate)
}

/// The full unbond transition, relating the records before and after a call
/// to its result. Primed values describe the state after a successful
/// request; on any failure every record is left untouched.
pub open spec fn unbond_outcome(
    pre_state: VaultState,
    post_state: VaultState,
    pre_batch: CurrentBatch,
    post_batch: CurrentBatch,
    pre_wait: Seq<UnbondWaitEntry>,
    post_wait: Seq<UnbondWaitEntry>,
    pre_hist: Seq<UnbondHistory>,
    post_hist: Seq<UnbondHistory>,
    profit: ProfitCheckpoint,
    params: Parameters,
    fee_config: FeeConfig,
    pool_info: PoolInfo,
    amount: u64,
    sender: Seq<char>,
    now: u64,
    total_supply: u64,
    r: Result<Vec<Effect>, LunaVaultError>,
) -> bool {
    let rate = pre_state.exchange_rate;
    let net = net_unbond_amount(
        amount,
        rate,
        params,
        fee_config,
        total_supply,
        pre_batch.requested_with_fee,
        pre_state.total_bond_amount,
    );
    let tfee = treasury_fee_amount(amount, fee_config);
    let new_requested = pre_batch.requested_with_fee + net;
    let new_rate = updated_rate(
        rate,
        pre_state.total_bond_amount,
        total_supply - amount,
        new_requested,
    );
    let undeleg = undelegation_amount(new_requested, new_rate);
    let rollover = epoch_elapsed(now, pre_state.last_unbonded_time, params);
    let unchanged = post_state == pre_state && post_batch == pre_batch && post_wait == pre_wait
        && post_hist == pre_hist;
    match r {
        Err(LunaVaultError::DepositDuringLoan) => profit.last_balance != 0 && unchanged,
        Err(LunaVaultError::ArithmeticInvariantViolation) => profit.last_balance == 0 && net < 0
            && unchanged,
        Err(LunaVaultError::TooSmallBurn) => profit.last_balance == 0 && net >= 0 && rollover
            && undeleg == 1 && unchanged,
        Err(_) => false,
        Ok(effects) => {
            &&& profit.last_balance == 0
            &&& net >= 0
            &&& !(rollover && undeleg == 1)
            &&& wait_amount(post_wait, pre_batch.id, sender) == wait_amount(
                pre_wait,
                pre_batch.id,
                sender,
            ) + net
            &&& forall|b: u64, u: Seq<char>|
                !(b == pre_batch.id && u =~= sender) ==> wait_amount(post_wait, b, u)
                    == wait_amount(pre_wait, b, u)
            &&& forall|b: u64|
                batch_sum(post_wait, b) == batch_sum(pre_wait, b) + if b == pre_batch.id {
                    net
                } else {
                    0
                }
            &&& post_state.exchange_rate == new_rate
            &&& if rollover {
                &&& post_batch == (CurrentBatch { id: (pre_batch.id + 1) as u64, requested_with_fee: 0 })
                &&& post_hist.len() == pre_hist.len() + 1
                &&& post_hist.drop_last() == pre_hist
                &&& post_hist.last() == (UnbondHistory {
                    batch_id: pre_batch.id,
                    time: now,
                    amount: new_requested as u64,
                    applied_exchange_rate: new_rate,
                    withdraw_rate: new_rate,
                    released: false,
                })
                &&& post_state.total_bond_amount == pre_state.total_bond_amount - undeleg
                &&& post_state.last_unbonded_time == now
            } else {
                &&& post_batch == (CurrentBatch {
                    id: pre_batch.id,
                    requested_with_fee: new_requested as u64,
                })
                &&& post_hist == pre_hist
                &&& post_state.total_bond_amount == pre_state.total_bond_amount
                &&& post_state.last_unbonded_time == pre_state.last_unbonded_time
            }
            &&& post_state == (VaultState {
                total_bond_amount: post_state.total_bond_amount,
                exchange_rate: post_state.exchange_rate,
                last_unbonded_time: post_state.last_unbonded_time,
                ..pre_state
            })
            &&& effects@.len() == 2
            &&& effects@[0] matches Effect::TokenBurn { token, amount: burnt } && token@
                == pool_info.liquidity_token@ && burnt == amount - tfee
            &&& effects@[1] matches Effect::TokenTransfer { token, recipient, amount: fee_paid }
                && token@ == pool_info.liquidity_token@ && recipient@ == fee_config.treasury_addr@
                && fee_paid == tfee
        },
    }
}

/// Starts unbonding `amount` receipt tokens for `sender`. The net amount
/// joins the open batch and the user's wait entry; the treasury fee is paid
/// out at once and the rest of the request is burned. Once an epoch has
/// elapsed the batch is frozen into history at the recomputed rate.
pub fn unbond(
    state: &mut VaultState,
    current_batch: &mut CurrentBatch,
    wait_list: &mut Vec<UnbondWaitEntry>,
    histories: &mut Vec<UnbondHistory>,
    profit: &ProfitCheckpoint,
    params: &Parameters,
    fee_config: &FeeConfig,
    pool_info: &PoolInfo,
    amount: u64,
    sender: &String,
    now: u64,
    total_supply: u64,
) -> (r: Result<Vec<Effect>, LunaVaultError>)
    requires
        old(state).wf(),
        params.wf(),
        fee_config.wf(),
        batch_records_wf(*old(current_batch), old(histories)@),
        amount <= total_supply,
        old(state).last_unbonded_time <= now,
        total_supply + old(current_batch).requested_with_fee <= u64::MAX,
        wait_amount(old(wait_list)@, old(current_batch).id, sender@) + amount <= u64::MAX,
        old(current_batch).id < u64::MAX,
    ensures
        final(state).wf(),
        batch_records_wf(*final(current_batch), final(histories)@),
        crate::withdraw::released_prefix(old(histories)@, old(state).last_processed_batch)
            && old(state).last_processed_batch <= old(histories)@.len()
            ==> crate::withdraw::released_prefix(
            final(histories)@,
            final(state).last_processed_batch,
        ) && final(state).last_processed_batch <= final(histories)@.len(),
        unbond_outcome(
            *old(state),
            *final(state),
            *old(current_batch),
            *final(current_batch),
            old(wait_list)@,
            final(wait_list)@,
            old(histories)@,
            final(histories)@,
            *profit,
            *params,
            *fee_config,
            *pool_info,
            amount,
            sender@,
            now,
            total_supply,
            r,
        ),
{
    if profit.last_balance != 0 {
        return Err(LunaVaultError::DepositDuringLoan);
    }
    let rate = state.exchange_rate;
    proof {
        lemma_net_unbond_bounds(
            amount,
            rate,
            *params,
            *fee_config,
            total_supply,
            current_batch.requested_with_fee,
            state.total_bond_amount,
        );
    }

    // Treasury fee on the request before the peg fee.
    let treasury_fee: u64 = mul_rate_floor(amount, fee_config.treasury_fee);

    // Peg-recovery fee while the rate sits below the threshold.
    let mut amount_with_fee: u64 = amount;
    if rate.is_below(&params.er_threshold) {
        proof {
            lemma_mul_rate_le_one(amount as int, params.peg_recovery_fee);
            lemma_mul_rate_nonneg(amount as int, params.peg_recovery_fee);
        }
        let max_peg_fee: u64 = mul_rate_floor(amount, params.peg_recovery_fee);
        let outstanding: u128 = total_supply as u128 + current_batch.requested_with_fee as u128;
        let covered: u128 = state.total_bond_amount as u128;
        let required_peg_fee: u128 = if outstanding >= covered {
            outstanding - covered
        } else {
            0
        };
        let peg_fee: u64 = if (max_peg_fee as u128) <= required_peg_fee {
            max_peg_fee
        } else {
            required_peg_fee as u64
        };
        amount_with_fee = amount - peg_fee;
    }
    if amount_with_fee < treasury_fee {
        return Err(LunaVaultError::ArithmeticInvariantViolation);
    }
    let net: u64 = amount_with_fee - treasury_fee;

    let new_requested: u64 = current_batch.requested_with_fee + net;
    let new_supply: u64 = total_supply - amount;

    // The exchange rate recomputed over the reduced supply and grown batch.
    let denominator: u64 = new_supply + new_requested;
    let new_rate: Rate = if denominator != 0 {
        Rate { num: state.total_bond_amount, den: denominator }
    } else {
        rate
    };

    let rollover: bool = now - state.last_unbonded_time > params.epoch_period;
    if rollover {
        proof {
            if denominator == 0 {
                lemma_mul_rate_zero(new_rate);
            } else {
                lemma_mul_rate_le_num(new_requested as int, new_rate);
            }
            lemma_mul_rate_nonneg(new_requested as int, new_rate);
        }
        let undelegation: u64 = mul_rate_floor(new_requested, new_rate);
        if undelegation == 1 {
            return Err(LunaVaultError::TooSmallBurn);
        }
        // The undelegation is a part of the bonded total by construction.
        state.total_bond_amount = state.total_bond_amount - undelegation;
        histories.push(
            UnbondHistory {
                batch_id: current_batch.id,
                time: now,
                amount: new_requested,
                applied_exchange_rate: new_rate,
                withdraw_rate: new_rate,
                released: false,
            },
        );
        proof {
            assert(histories@.drop_last() =~= old(histories)@);
        }
        store_unbond_wait_list(wait_list, current_batch.id, sender, net);
        current_batch.id = current_batch.id + 1;
        current_batch.requested_with_fee = 0;
        state.last_unbonded_time = now;
    } else {
        store_unbond_wait_list(wait_list, current_batch.id, sender, net);
        current_batch.requested_with_fee = new_requested;
    }
    state.exchange_rate = new_rate;

    let mut effects: Vec<Effect> = Vec::new();
    // The burn excludes the treasury's share, already carved out below.
    effects.push(
        Effect::TokenBurn {
            token: pool_info.liquidity_token.clone(),
            amount: amount - treasury_fee,
        },
    );
    effects.push(
        Effect::TokenTransfer {
            token: pool_info.liquidity_token.clone(),
            recipient: fee_config.treasury_addr.clone(),
            amount: treasury_fee,
        },
    );
    Ok(effects)
}

/// Entry point for receipt-token transfers into the vault: only the vault's
/// own receipt token may deliver the unbond hook; the transferred amount is
/// then unbonded for the original token sender.
pub fn receive_cw20(
    state: &mut VaultState,
    current_batch: &mut CurrentBatch,
    wait_list: &mut Vec<UnbondWaitEntry>,
    histories: &mut Vec<UnbondHistory>,
    profit: &ProfitCheckpoint,
    params: &Parameters,
    fee_config: &FeeConfig,
    pool_info: &PoolInfo,
    token_contract: &String,
    cw20_sender: &String,
    cw20_amount: u64,
    hook: &Cw20HookMsg,
    now: u64,
    total_supply: u64,
) -> (r: Result<Vec<Effect>, LunaVaultError>)
    requires
        old(state).wf(),
        params.wf(),
        fee_config.wf(),
        batch_records_wf(*old(current_batch), old(histories)@),
        cw20_amount <= total_supply,
        old(state).last_unbonded_time <= now,
        total_supply + old(current_batch).requested_with_fee <= u64::MAX,
        wait_amount(old(wait_list)@, old(current_batch).id, cw20_sender@) + cw20_amount
            <= u64::MAX,
        old(current_batch).id < u64::MAX,
    ensures
        final(state).wf(),
        batch_records_wf(*final(current_batch), final(histories)@),
        crate::withdraw::released_prefix(old(histories)@, old(state).last_processed_batch)
            && old(state).last_processed_batch <= old(histories)@.len()
            ==> crate::withdraw::released_prefix(
            final(histories)@,
            final(state).last_processed_batch,
        ) && final(state).last_processed_batch <= final(histories)@.len(),
        match hook {
            Cw20HookMsg::Unbond => {
                if token_contract@ != pool_info.liquidity_token@ {
                    r matches Err(LunaVaultError::Unauthorized) && *final(state) == *old(state)
                        && *final(current_batch) == *old(current_batch) && final(wait_list)@ == old(
                        wait_list,
                    )@ && final(histories)@ == old(histories)@
                } else {
                    unbond_outcome(
                        *old(state),
                        *final(state),
                        *old(current_batch),
                        *final(current_batch),
                        old(wait_list)@,
                        final(wait_list)@,
                        old(histories)@,
                        final(histories)@,
                        *profit,
                        *params,
                        *fee_config,
                        *pool_info,
                        cw20_amount,
                        cw20_sender@,
                        now,
                        total_supply,
                        r,
                    )
                }
            },
        },
{
    match hook {
        Cw20HookMsg::Unbond => {
            // Only the receipt-token contract itself may deliver this hook.
            if !(*token_contract == pool_info.liquidity_token) {
                return Err(LunaVaultError::Unauthorized);
            }
            unbond(
                state,
                current_batch,
                wait_list,
                histories,
                profit,
                params,
                fee_config,
                pool_info,
                cw20_amount,
                cw20_sender,
                now,
                total_supply,
            )
        },
    }
}

} // verus!
