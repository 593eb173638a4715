//! The exchange-rate ledger and the bonding operation: a deposit of the base
//! asset mints receipt tokens at the current exchange rate, less a
//! peg-recovery fee while the rate is below its healthy threshold.

use vstd::prelude::*;
use crate::effect::{Asset, AssetInfo, Effect};
use crate::error::LunaVaultError;
use crate::rate::{div_rate, lemma_div_rate_nonneg, lemma_mul_rate_le_one, lemma_mul_rate_nonneg,
    mul_rate, mul_rate_floor, Rate};
use crate::state::{Coin, CurrentBatch, Parameters, PoolInfo, ProfitCheckpoint, VaultState};

verus! {

/// `a - b`, floored at zero.
pub open spec fn saturating_sub(a: int, b: int) -> int {
    if a >= b {
        a - b
    } else {
        0
    }
}

/// The smaller of two values.
pub open spec fn min_int(a: int, b: int) -> int {
    if a <= b {
        a
    } else {
        b
    }
}

/// The rate after recomputation: bonded amount over outstanding claims
/// (receipt supply plus pending unbond requests). A degenerate zero supply
/// leaves the previous rate in place rather than dividing by zero.
pub open spec fn updated_rate(prev: Rate, total_bond: u64, total_supply: int, requested: int) -> Rate {
    if total_supply + requested == 0 {
        prev
    } else {
        Rate { num: total_bond, den: (total_supply + requested) as u64 }
    }
}

/// Receipt tokens a deposit buys before fees: `deposit / exchange_rate`.
pub open spec fn raw_mint_amount(deposit: u64, rate: Rate) -> int {
    div_rate(deposit as int, rate)
}

/// The peg-recovery fee on a mint: zero at or above the threshold, otherwise
/// the lesser of the configured share of the raw mint and the amount
/// structurally required to keep the post-mint supply covered by the
/// post-deposit bond (floored at zero).
pub open spec fn mint_peg_fee(
    deposit: u64,
    rate: Rate,
    params: Parameters,
    total_supply: u64,
    requested: u64,
    total_bond: u64,
) -> int {
    let raw = raw_mint_amount(deposit, rate);
    if rate.lt(params.er_threshold) {
        min_int(
            mul_rate(raw, params.peg_recovery_fee),
            saturating_sub(total_supply + raw + requested, total_bond + deposit),
        )
    } else {
        0
    }
}

/// Receipt tokens actually minted: the raw mint less the peg-recovery fee.
pub open spec fn net_mint_amount(
    deposit: u64,
    rate: Rate,
    params: Parameters,
    total_supply: u64,
    requested: u64,
    total_bond: u64,
) -> int {
    raw_mint_amount(deposit, rate) - mint_peg_fee(
        deposit,
        rate,
        params,
        total_supply,
        requested,
        total_bond,
    )
}

/// The net mint never exceeds the raw mint, both are non-negative, and at or
/// above the threshold no fee is levied at all.
pub proof fn lemma_net_mint_bounds(
    deposit: u64,
    rate: Rate,
    params: Parameters,
    total_supply: u64,
    requested: u64,
    total_bond: u64,
)
    requires
        rate.wf(),
        rate.num >= 1,
        params.wf(),
    ensures
        0 <= net_mint_amount(deposit, rate, params, total_supply, requested, total_bond),
        net_mint_amount(deposit, rate, params, total_supply, requested, total_bond)
            <= raw_mint_amount(deposit, rate),
        !rate.lt(params.er_threshold) ==> net_mint_amount(
            deposit,
            rate,
            params,
            total_supply,
            requested,
            total_bond,
        ) == raw_mint_amount(deposit, rate),
{
    let raw = raw_mint_amount(deposit, rate);
    lemma_div_rate_nonneg(deposit as int, rate);
    lemma_mul_rate_nonneg(raw, params.peg_recovery_fee);
    lemma_mul_rate_le_one(raw, params.peg_recovery_fee);
}

/// All intermediate bonding sums fit the machine word.
pub open spec fn bond_fits(
    deposit: u64,
    rate: Rate,
    total_supply: u64,
    requested: u64,
    total_bond: u64,
) -> bool {
    let raw = raw_mint_amount(deposit, rate);
    &&& raw <= u64::MAX
    &&& total_bond + deposit <= u64::MAX
    &&& total_supply + raw + requested <= u64::MAX
}

/// The attached funds are exactly the claimed deposit: a single coin of the
/// claimed denomination and amount.
pub open spec fn valid_deposit_funds(funds: Seq<Coin>, asset: Asset) -> bool {
    &&& funds.len() == 1
    &&& asset.info matches AssetInfo::NativeToken { denom } && funds[0].denom@ == denom@
    &&& funds[0].amount == asset.amount
}

impl VaultState {
    /// Recomputes and persists the exchange rate from the receipt-token
    /// supply and the pending unbond requests; every other field is kept.
    pub fn update_exchange_rate(&mut self, total_supply: u64, requested_with_fee: u64)
        requires
            old(self).wf(),
            total_supply + requested_with_fee <= u64::MAX,
        ensures
            final(self).exchange_rate == updated_rate(
                old(self).exchange_rate,
                old(self).total_bond_amount,
                total_supply as int,
                requested_with_fee as int,
            ),
            *final(self) == (VaultState { exchange_rate: final(self).exchange_rate, ..*old(self) }),
            final(self).wf(),
    {
        let denominator: u64 = total_supply + requested_with_fee;
        if denominator != 0 {
            self.exchange_rate = Rate { num: self.total_bond_amount, den: denominator };
        }
    }
}

/// Exact comparison of a `u64` minimum, as the bonding math uses it.
fn min_u64(a: u64, b: u64) -> (r: u64)
    ensures
        r == min_int(a as int, b as int),
{
    if a < b {
        a
    } else {
        b
    }
}

/// Deposits the base asset into the vault. On success the deposit is added
/// to the bonded total, the exchange rate is recomputed over the enlarged
/// supply, and a single mint of the net amount to the sender is scheduled.
/// Rejected while a flash loan is in flight, and when the claimed asset or
/// the attached funds do not match the vault's base asset.
pub fn provide_liquidity(
    state: &mut VaultState,
    current_batch: &CurrentBatch,
    profit: &ProfitCheckpoint,
    params: &Parameters,
    pool_info: &PoolInfo,
    deposit_info: &AssetInfo,
    asset: &Asset,
    funds: &Vec<Coin>,
    sender: &String,
    total_supply: u64,
    luna_in_contract: u64,
) -> (r: Result<Vec<Effect>, LunaVaultError>)
    requires
        old(state).wf(),
        params.wf(),
        profit.last_balance == 0 && deposit_info.same(asset.info) && valid_deposit_funds(
            funds@,
            *asset,
        ) ==> old(state).exchange_rate.num >= 1 && bond_fits(
            asset.amount,
            old(state).exchange_rate,
            total_supply,
            current_batch.requested_with_fee,
            old(state).total_bond_amount,
        ),
    ensures
        final(state).wf(),
        match r {
            Err(LunaVaultError::DepositDuringLoan) => profit.last_balance != 0 && *final(state)
                == *old(state),
            Err(LunaVaultError::InvalidDeposit) => profit.last_balance == 0 && !(
            deposit_info.same(asset.info) && valid_deposit_funds(funds@, *asset)) && *final(state)
                == *old(state),
            Err(_) => false,
            Ok(effects) => {
                let rate = old(state).exchange_rate;
                let net = net_mint_amount(
                    asset.amount,
                    rate,
                    *params,
                    total_supply,
                    current_batch.requested_with_fee,
                    old(state).total_bond_amount,
                );
                &&& profit.last_balance == 0
                &&& deposit_info.same(asset.info)
                &&& valid_deposit_funds(funds@, *asset)
                &&& final(state).total_bond_amount == old(state).total_bond_amount + asset.amount
                &&& final(state).exchange_rate == updated_rate(
                    rate,
                    final(state).total_bond_amount,
                    total_supply + net,
                    current_batch.requested_with_fee as int,
                )
                &&& *final(state) == (VaultState {
                    total_bond_amount: final(state).total_bond_amount,
                    exchange_rate: final(state).exchange_rate,
                    ..*old(state)
                })
                &&& effects@.len() == 1
                &&& effects@[0] matches Effect::TokenMint { token, recipient, amount }
                    && token@ == pool_info.liquidity_token@ && recipient@ == sender@ && amount
                    == net
            },
        },
{
    if profit.last_balance != 0 {
        return Err(LunaVaultError::DepositDuringLoan);
    }
    // The claimed deposit must be the vault's base asset, and the attached
    // funds must match it exactly.
    if !deposit_info.matches(&asset.info) {
        return Err(LunaVaultError::InvalidDeposit);
    }
    let funds_ok: bool = match &asset.info {
        AssetInfo::NativeToken { denom } => funds.len() == 1 && funds[0].denom == *denom
            && funds[0].amount == asset.amount,
        AssetInfo::Token { .. } => false,
    };
    if !funds_ok {
        return Err(LunaVaultError::InvalidDeposit);
    }

    let deposit: u64 = asset.amount;
    let rate = state.exchange_rate;
    let requested: u64 = current_batch.requested_with_fee;

    proof {
        lemma_net_mint_bounds(
            deposit,
            rate,
            *params,
            total_supply,
            requested,
            state.total_bond_amount,
        );
    }

    // Raw mint at the current rate, then the peg-recovery fee while the rate
    // is below the threshold.
    let mint_amount: u64 = crate::rate::div_rate_floor(deposit, rate);
    let mut mint_amount_with_fee: u64 = mint_amount;
    if rate.is_below(&params.er_threshold) {
        proof {
            lemma_mul_rate_le_one(mint_amount as int, params.peg_recovery_fee);
            lemma_mul_rate_nonneg(mint_amount as int, params.peg_recovery_fee);
        }
        let max_peg_fee: u64 = mul_rate_floor(mint_amount, params.peg_recovery_fee);
        let covered: u64 = state.total_bond_amount + deposit;
        let outstanding: u64 = total_supply + mint_amount + requested;
        let required_peg_fee: u64 = if outstanding >= covered {
            outstanding - covered
        } else {
            0
        };
        let peg_fee: u64 = min_u64(max_peg_fee, required_peg_fee);
        mint_amount_with_fee = mint_amount - peg_fee;
    }

    // The supply used for the next rate computation includes the net mint.
    let new_total_supply: u64 = total_supply + mint_amount_with_fee;
    state.total_bond_amount = state.total_bond_amount + deposit;
    state.update_exchange_rate(new_total_supply, requested);

    let mut effects: Vec<Effect> = Vec::new();
    effects.push(
        Effect::TokenMint {
            token: pool_info.liquidity_token.clone(),
            recipient: sender.clone(),
            amount: mint_amount_with_fee,
        },
    );

    // Sweeping idle funds beyond the cap into the passive strategy is a
    // documented but inert extension point.
    if luna_in_contract > pool_info.luna_cap {
        _deposit_passive_strategy(effects)
    } else {
        Ok(effects)
    }
}

/// Extension point for sweeping idle funds into a passive yield strategy;
/// deliberately inert, it schedules nothing further.
fn _deposit_passive_strategy(effects: Vec<Effect>) -> (r: Result<Vec<Effect>, LunaVaultError>)
    ensures
        r matches Ok(e) && e == effects,
{
    Ok(effects)
}

} // verus!
