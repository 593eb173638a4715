//! The flash-loan orchestrator: lends idle vault funds within a single
//! transaction. A pre-loan valuation snapshot plus a post-loan check enforce
//! that the vault's value never drops, net of the agreed fee; a losing trade
//! aborts the whole effect chain, loan transfer included.

use vstd::prelude::*;
use crate::effect::{Asset, AssetInfo, Effect};
use crate::error::LunaVaultError;
use crate::rate::{lemma_mul_rate_le_one, lemma_mul_rate_nonneg, mul_rate, mul_rate_floor};
use crate::state::{contains_addr, is_listed, FeeConfig, ProfitCheckpoint, VaultState};

verus! {

/// Extra headroom reserved on top of the transfer-tax buffer.
pub const ROUNDING_ERR_COMPENSATION: u64 = 10;

/// The self-callbacks the vault accepts.
pub enum CallbackMsg {
    /// Settle a flash loan after the borrower returned control.
    AfterTrade { loan_fee: u64 },
}

/// The borrower's request: the asset to lend and an opaque callback to hand
/// control back to them.
pub struct FlashLoanPayload {
    pub requested_asset: Asset,
    pub callback: Vec<u8>,
}

/// The reserve kept aside for two transfers' worth of tax, plus headroom.
pub open spec fn tax_buffer(tax_per_transfer: u64) -> int {
    2 * tax_per_transfer + ROUNDING_ERR_COMPENSATION
}

/// The fee owed on a loan: nothing for whitelisted callers, the configured
/// share of the borrowed amount for everyone else.
pub open spec fn loan_fee_amount(
    whitelisted: bool,
    amount: u64,
    fee_config: FeeConfig,
) -> int {
    if whitelisted {
        0
    } else {
        mul_rate(amount as int, fee_config.flash_loan_fee)
    }
}

/// Takes the pre-loan snapshot: records the current total valuation and
/// clears the last profit. Fails while an earlier snapshot is still
/// outstanding, which is the re-entrancy guard.
pub fn before_trade(profit: &mut ProfitCheckpoint, total_value: u64) -> (r: Result<
    (),
    LunaVaultError,
>)
    ensures
        match r {
            Err(LunaVaultError::Nonzero) => old(profit).last_balance != 0 && *final(profit)
                == *old(profit),
            Err(_) => false,
            Ok(()) => old(profit).last_balance == 0 && *final(profit) == (ProfitCheckpoint {
                last_balance: total_value,
                last_profit: 0,
            }),
        },
{
    if profit.last_balance != 0 {
        return Err(LunaVaultError::Nonzero);
    }
    profit.last_profit = 0;
    profit.last_balance = total_value;
    Ok(())
}

/// Computes the treasury's commission on a profit and schedules its
/// transfer in the vault's base coin.
pub fn send_commissions(fee_config: &FeeConfig, profit: u64) -> (r: Result<
    Vec<Effect>,
    LunaVaultError,
>)
    requires
        fee_config.wf(),
    ensures
        r matches Ok(effects) && effects@.len() == 1 && (effects@[0] matches Effect::Send {
            to,
            denom,
            amount,
        } && to@ == fee_config.treasury_addr@ && denom@ == "uluna"@ && amount == mul_rate(
            profit as int,
            fee_config.commission_fee,
        )),
{
    proof {
        lemma_mul_rate_le_one(profit as int, fee_config.commission_fee);
        lemma_mul_rate_nonneg(profit as int, fee_config.commission_fee);
    }
    let commission_amount: u64 = mul_rate_floor(profit, fee_config.commission_fee);
    let mut effects: Vec<Effect> = Vec::new();
    effects.push(
        Effect::Send {
            to: fee_config.treasury_addr.clone(),
            denom: "uluna".to_owned(),
            amount: commission_amount,
        },
    );
    Ok(effects)
}

/// Settles a flash loan: fails, changing nothing, unless the vault's
/// valuation covers the snapshot plus the agreed fee — aborting the whole
/// transaction undoes the loan itself. Otherwise the profit is recorded,
/// the snapshot is cleared, and the treasury's commission on the profit is
/// scheduled.
pub fn after_trade(
    profit: &mut ProfitCheckpoint,
    fee_config: &FeeConfig,
    total_value: u64,
    loan_fee: u64,
) -> (r: Result<Vec<Effect>, LunaVaultError>)
    requires
        fee_config.wf(),
    ensures
        match r {
            Err(LunaVaultError::CancelLosingTrade) => (total_value as int) < old(profit).last_balance + loan_fee && *final(profit) == *old(profit),
            Err(_) => false,
            Ok(effects) => {
                &&& total_value >= old(profit).last_balance + loan_fee
                &&& *final(profit) == (ProfitCheckpoint {
                    last_balance: 0,
                    last_profit: (total_value - old(profit).last_balance) as u64,
                })
                &&& effects@.len() == 1
                &&& effects@[0] matches Effect::Send { to, denom, amount } && to@
                    == fee_config.treasury_addr@ && denom@ == "uluna"@ && amount == mul_rate(
                    total_value - old(profit).last_balance,
                    fee_config.commission_fee,
                )
            },
        },
{
    // Compare in wide arithmetic: the snapshot plus the fee can exceed the
    // machine word.
    if (total_value as u128) < (profit.last_balance as u128) + (loan_fee as u128) {
        return Err(LunaVaultError::CancelLosingTrade);
    }
    let gained: u64 = total_value - profit.last_balance;
    profit.last_profit = gained;
    profit.last_balance = 0;
    send_commissions(fee_config, gained)
}

/// Appends the self-callback that will run the post-loan check after every
/// other scheduled effect, the borrower's callback included.
pub fn encapsulate_payload(effects: Vec<Effect>, contract_addr: &String, loan_fee: u64) -> (r:
    Result<Vec<Effect>, LunaVaultError>)
    ensures
        r matches Ok(out) && out@.len() == effects@.len() + 1 && out@.drop_last() == effects@ && (
        out@.last() matches Effect::AfterTrade { contract, loan_fee: fee } && contract@
            == contract_addr@ && fee == loan_fee),
{
    let mut out: Vec<Effect> = effects;
    let ghost before = out@;
    out.push(Effect::AfterTrade { contract: contract_addr.clone(), loan_fee });
    proof {
        assert(out@.drop_last() =~= before);
    }
    Ok(out)
}

/// Validates and dispatches a flash loan: the requested asset must be the
/// vault's base asset, the caller whitelisted or non-whitelisted borrowing
/// allowed, and the vault's valuation must cover the request plus a
/// two-transfer tax buffer. On success the pre-loan snapshot is taken and
/// three effects run in order: the loan transfer, the borrower's callback,
/// and the vault's own post-loan check.
pub fn handle_flashloan(
    state: &VaultState,
    profit: &mut ProfitCheckpoint,
    fee_config: &FeeConfig,
    deposit_info: &AssetInfo,
    payload: FlashLoanPayload,
    sender: &String,
    contract_addr: &String,
    total_value: u64,
    tax_per_transfer: u64,
) -> (r: Result<Vec<Effect>, LunaVaultError>)
    requires
        fee_config.wf(),
    ensures
        ({
            let whitelisted = contains_addr(state.whitelisted_contracts@, sender@);
            let fee = loan_fee_amount(whitelisted, payload.requested_asset.amount, *fee_config);
            match r {
                Err(LunaVaultError::InvalidDeposit) => !deposit_info.same(
                    payload.requested_asset.info,
                ) && *final(profit) == *old(profit),
                Err(LunaVaultError::NotWhitelisted) => deposit_info.same(
                    payload.requested_asset.info,
                ) && !whitelisted && !state.allow_non_whitelisted && *final(profit) == *old(profit),
                Err(LunaVaultError::Broke) => deposit_info.same(payload.requested_asset.info) && (
                whitelisted || state.allow_non_whitelisted) && (total_value as int)
                    < payload.requested_asset.amount + tax_buffer(tax_per_transfer) && *final(profit) == *old(profit),
                Err(LunaVaultError::Nonzero) => deposit_info.same(payload.requested_asset.info)
                    && (whitelisted || state.allow_non_whitelisted) && (total_value as int)
                    >= payload.requested_asset.amount + tax_buffer(tax_per_transfer) && old(profit).last_balance != 0 && *final(profit) == *old(profit),
                Err(_) => false,
                Ok(effects) => {
                    &&& deposit_info.same(payload.requested_asset.info)
                    &&& whitelisted || state.allow_non_whitelisted
                    &&& (total_value as int) >= payload.requested_asset.amount + tax_buffer(
                        tax_per_transfer,
                    )
                    &&& old(profit).last_balance == 0
                    &&& *final(profit) == (ProfitCheckpoint {
                        last_balance: total_value,
                        last_profit: 0,
                    })
                    &&& effects@.len() == 3
                    &&& match payload.requested_asset.info {
                        AssetInfo::NativeToken { denom } => effects@[0] matches Effect::Send {
                            to,
                            denom: d,
                            amount,
                        } && to@ == sender@ && d@ == denom@ && amount
                            == payload.requested_asset.amount,
                        AssetInfo::Token { contract_addr: token } => effects@[0]
                            matches Effect::TokenTransfer { token: t, recipient, amount } && t@
                            == token@ && recipient@ == sender@ && amount
                            == payload.requested_asset.amount,
                    }
                    &&& effects@[1] matches Effect::ExecuteContract { contract, payload: p }
                        && contract@ == sender@ && p@ == payload.callback@
                    &&& effects@[2] matches Effect::AfterTrade { contract, loan_fee } && contract@
                        == contract_addr@ && loan_fee == fee
                },
            }
        }),
{
    // The requested asset must be the vault's own base asset.
    if !deposit_info.matches(&payload.requested_asset.info) {
        return Err(LunaVaultError::InvalidDeposit);
    }

    // Whitelisted callers borrow free of fee; others only if the vault
    // allows it.
    let whitelisted: bool = is_listed(&state.whitelisted_contracts, sender);
    if !whitelisted && !state.allow_non_whitelisted {
        return Err(LunaVaultError::NotWhitelisted);
    }

    let requested_asset = payload.requested_asset;

    // Reserve tax for two transfers of the borrowed assets plus headroom.
    let buffer: u128 = 2 * (tax_per_transfer as u128) + (ROUNDING_ERR_COMPENSATION as u128);
    if (total_value as u128) < (requested_asset.amount as u128) + buffer {
        return Err(LunaVaultError::Broke);
    }

    let loan_fee: u64 = if whitelisted {
        0
    } else {
        proof {
            lemma_mul_rate_le_one(requested_asset.amount as int, fee_config.flash_loan_fee);
            lemma_mul_rate_nonneg(requested_asset.amount as int, fee_config.flash_loan_fee);
        }
        mul_rate_floor(requested_asset.amount, fee_config.flash_loan_fee)
    };

    // Lend the funds, tax covered by the buffer, then hand control to the
    // borrower through the callback they provided.
    let mut effects: Vec<Effect> = Vec::new();
    match requested_asset.info {
        AssetInfo::NativeToken { denom } => {
            effects.push(
                Effect::Send { to: sender.clone(), denom, amount: requested_asset.amount },
            );
        },
        AssetInfo::Token { contract_addr: token } => {
            effects.push(
                Effect::TokenTransfer {
                    token,
                    recipient: sender.clone(),
                    amount: requested_asset.amount,
                },
            );
        },
    }
    effects.push(Effect::ExecuteContract { contract: sender.clone(), payload: payload.callback });

    // Snapshot the vault's value before anything moves.
    match before_trade(profit, total_value) {
        Ok(()) => (),
        Err(e) => {
            return Err(e);
        },
    }

    let ghost scheduled = effects@;
    let out = match encapsulate_payload(effects, contract_addr, loan_fee) {
        Ok(o) => o,
        Err(e) => {
            return Err(e);
        },
    };
    proof {
        assert(out@.drop_last() == scheduled);
        assert(out@[0] == out@.drop_last()[0]);
        assert(out@[1] == out@.drop_last()[1]);
    }
    Ok(out)
}

/// Routes a self-callback: only the vault itself may invoke one.
pub fn _handle_callback(
    profit: &mut ProfitCheckpoint,
    fee_config: &FeeConfig,
    msg: &CallbackMsg,
    sender: &String,
    contract_addr: &String,
    total_value: u64,
) -> (r: Result<Vec<Effect>, LunaVaultError>)
    requires
        fee_config.wf(),
    ensures
        sender@ != contract_addr@ ==> (r matches Err(LunaVaultError::NotCallback) && *final(profit) == *old(profit)),
        sender@ == contract_addr@ ==> match msg {
            CallbackMsg::AfterTrade { loan_fee } => match r {
                Err(LunaVaultError::CancelLosingTrade) => (total_value as int) < old(profit).last_balance + *loan_fee && *final(profit) == *old(profit),
                Err(_) => false,
                Ok(effects) => {
                    &&& total_value >= old(profit).last_balance + *loan_fee
                    &&& *final(profit) == (ProfitCheckpoint {
                        last_balance: 0,
                        last_profit: (total_value - old(profit).last_balance) as u64,
                    })
                    &&& effects@.len() == 1
                    &&& effects@[0] matches Effect::Send { to, denom, amount } && to@
                        == fee_config.treasury_addr@ && denom@ == "uluna"@ && amount == mul_rate(
                        total_value - old(profit).last_balance,
                        fee_config.commission_fee,
                    )
                },
            },
        },
{
    if !(*sender == *contract_addr) {
        return Err(LunaVaultError::NotCallback);
    }
    match msg {
        CallbackMsg::AfterTrade { loan_fee } => after_trade(
            profit,
            fee_config,
            total_value,
            *loan_fee,
        ),
    }
}

} // verus!
