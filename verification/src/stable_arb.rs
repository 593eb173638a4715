//! The peg-arbitrage strategy: borrows its base stablecoin from the vault
//! through a flash loan, swaps it against the market module and the pool in
//! the direction the peg indicates, and returns the proceeds to the vault
//! within the same transaction.

use vstd::prelude::*;
use crate::admin::Admin;
use crate::effect::{Asset, AssetInfo};
use crate::error::{AdminError, StableArbError};
use crate::rate::Rate;

verus! {

/// The strategy's persisted configuration.
pub struct State {
    pub vault_address: String,
    pub seignorage_address: String,
    pub pool_address: String,
}

/// The strategy's base asset.
pub struct ArbBaseAsset {
    pub asset_info: AssetInfo,
}

impl ArbBaseAsset {
    /// The asset named by this strategy, when it is a native coin.
    pub fn get_denom(&self) -> (r: Result<String, StableArbError>)
        ensures
            match r {
                Ok(d) => self.asset_info matches AssetInfo::NativeToken { denom } && d@ == denom@,
                Err(StableArbError::InvalidDeposit) => self.asset_info matches AssetInfo::Token {
                    ..
                },
                Err(_) => false,
            },
    {
        match &self.asset_info {
            AssetInfo::NativeToken { denom } => Ok(denom.clone()),
            AssetInfo::Token { .. } => Err(StableArbError::InvalidDeposit),
        }
    }
}

/// Parameters of one arbitrage attempt.
pub struct ArbDetails {
    pub asset: Asset,
    pub belief_price: Rate,
    pub slippage: Rate,
}

pub struct InstantiateMsg {
    pub vault_address: String,
    pub seignorage_address: String,
    pub pool_address: String,
    pub asset_info: AssetInfo,
}

/// The strategy's self-callbacks.
pub enum CallbackMsg {
    AfterSuccessfulTradeCallback {},
}

/// The operations the strategy accepts.
pub enum ExecuteMsg {
    ExecuteArb { details: ArbDetails, above_peg: bool },
    BelowPegCallback { details: ArbDetails },
    AbovePegCallback { details: ArbDetails },
    SetAdmin { admin: String },
    Callback(CallbackMsg),
}

/// One scheduled effect of the strategy.
pub enum ArbEffect {
    /// Ask the vault for a flash loan, handing it the callback to run once
    /// the funds arrive.
    RequestFlashLoan { vault: String, asset: Asset, callback: ExecuteMsg },
    /// Swap a native coin through the chain's market module.
    MarketSwap { offer_denom: String, offer_amount: u64, ask_denom: String },
    /// Swap against the configured pool.
    PoolSwap {
        pool: String,
        offer_denom: String,
        offer_amount: u64,
        belief_price: Rate,
        max_spread: Option<Rate>,
    },
    /// Hand control back to the strategy itself.
    SelfCallback { contract: String, msg: CallbackMsg },
    /// Return the proceeds to the vault.
    SendToVault { vault: String, denom: String, amount: u64 },
}

/// Sets up the strategy; the instantiating sender becomes the admin.
pub fn instantiate(sender: &String, msg: InstantiateMsg) -> (r: (State, ArbBaseAsset, Admin))
    ensures
        r.0.vault_address == msg.vault_address,
        r.0.seignorage_address == msg.seignorage_address,
        r.0.pool_address == msg.pool_address,
        r.1.asset_info == msg.asset_info,
        r.2.admin matches Some(a) && a@ == sender@,
{
    (
        State {
            vault_address: msg.vault_address,
            seignorage_address: msg.seignorage_address,
            pool_address: msg.pool_address,
        },
        ArbBaseAsset { asset_info: msg.asset_info },
        Admin::new(Some(sender.clone())),
    )
}

/// Requests the flash loan that funds one arbitrage attempt, choosing the
/// callback for the side of the peg the caller indicated.
pub fn call_flashloan(
    state: &State,
    deposit_info: &ArbBaseAsset,
    details: ArbDetails,
    above_peg: bool,
) -> (r: Result<Vec<ArbEffect>, StableArbError>)
    ensures
        match r {
            Ok(effects) => {
                &&& deposit_info.asset_info.same(details.asset.info)
                &&& effects@.len() == 1
                &&& effects@[0] matches ArbEffect::RequestFlashLoan { vault, asset, callback }
                    && vault@ == state.vault_address@ && asset.amount == details.asset.amount && (
                if above_peg {
                    callback matches ExecuteMsg::AbovePegCallback { .. }
                } else {
                    callback matches ExecuteMsg::BelowPegCallback { .. }
                })
            },
            Err(StableArbError::InvalidDeposit) => !deposit_info.asset_info.same(
                details.asset.info,
            ),
            Err(_) => false,
        },
{
    // The requested asset must be the strategy's own base asset.
    if !deposit_info.asset_info.matches(&details.asset.info) {
        return Err(StableArbError::InvalidDeposit);
    }
    let callback: ExecuteMsg = if above_peg {
        ExecuteMsg::AbovePegCallback {
            details: ArbDetails {
                asset: Asset { info: details.asset.info.clone(), amount: details.asset.amount },
                belief_price: details.belief_price,
                slippage: details.slippage,
            },
        }
    } else {
        ExecuteMsg::BelowPegCallback {
            details: ArbDetails {
                asset: Asset { info: details.asset.info.clone(), amount: details.asset.amount },
                belief_price: details.belief_price,
                slippage: details.slippage,
            },
        }
    };
    let mut effects: Vec<ArbEffect> = Vec::new();
    effects.push(
        ArbEffect::RequestFlashLoan {
            vault: state.vault_address.clone(),
            asset: details.asset,
            callback,
        },
    );
    Ok(effects)
}

/// Arbitrage with the stablecoin below its peg: swap the lent stablecoin
/// for the base coin on the market module, sell the base coin back on the
/// pool, then return the proceeds. Only the vault may trigger this, with
/// the loan already in hand.
pub fn try_arb_below_peg(
    state: &State,
    deposit_info: &ArbBaseAsset,
    sender: &String,
    contract_addr: &String,
    details: &ArbDetails,
    lent_after_tax: u64,
    balance: u64,
    expected_luna_received: u64,
) -> (r: Result<Vec<ArbEffect>, StableArbError>)
    ensures
        match r {
            Err(StableArbError::Unauthorized) => sender@ != state.vault_address@,
            Err(StableArbError::InvalidDeposit) => sender@ == state.vault_address@ && (
            deposit_info.asset_info matches AssetInfo::Token { .. }),
            Err(StableArbError::Broke) => sender@ == state.vault_address@ && (
            deposit_info.asset_info matches AssetInfo::NativeToken { .. }) && balance
                < details.asset.amount,
            Err(_) => false,
            Ok(effects) => {
                &&& sender@ == state.vault_address@
                &&& balance >= details.asset.amount
                &&& deposit_info.asset_info matches AssetInfo::NativeToken { denom }
                &&& effects@.len() == 3
                &&& effects@[0] matches ArbEffect::MarketSwap {
                    offer_denom,
                    offer_amount,
                    ask_denom,
                } && offer_denom@ == denom@ && offer_amount == lent_after_tax && ask_denom@
                    == "uluna"@
                &&& effects@[1] matches ArbEffect::PoolSwap {
                    pool,
                    offer_denom: od,
                    offer_amount: oa,
                    belief_price,
                    max_spread,
                } && pool@ == state.pool_address@ && od@ == "uluna"@ && oa
                    == expected_luna_received && belief_price == details.belief_price && max_spread
                    == Some(details.slippage)
                &&& effects@[2] matches ArbEffect::SelfCallback { contract, msg } && contract@
                    == contract_addr@ && msg is AfterSuccessfulTradeCallback
            },
        },
{
    // Only the vault, which just lent the funds, may trigger the trade.
    if !(*sender == state.vault_address) {
        return Err(StableArbError::Unauthorized);
    }
    let denom: String = match deposit_info.get_denom() {
        Ok(d) => d,
        Err(e) => {
            return Err(e);
        },
    };
    if balance < details.asset.amount {
        return Err(StableArbError::Broke);
    }
    let mut effects: Vec<ArbEffect> = Vec::new();
    effects.push(
        ArbEffect::MarketSwap {
            offer_denom: denom,
            offer_amount: lent_after_tax,
            ask_denom: "uluna".to_owned(),
        },
    );
    effects.push(
        ArbEffect::PoolSwap {
            pool: state.pool_address.clone(),
            offer_denom: "uluna".to_owned(),
            offer_amount: expected_luna_received,
            belief_price: details.belief_price,
            max_spread: Some(details.slippage),
        },
    );
    effects.push(
        ArbEffect::SelfCallback {
            contract: contract_addr.clone(),
            msg: CallbackMsg::AfterSuccessfulTradeCallback {},
        },
    );
    Ok(effects)
}

/// Arbitrage with the stablecoin above its peg: sell the lent stablecoin on
/// the pool, swap the received base coin back on the market module, then
/// return the proceeds. Only the vault may trigger this.
pub fn try_arb_above_peg(
    state: &State,
    deposit_info: &ArbBaseAsset,
    sender: &String,
    contract_addr: &String,
    details: &ArbDetails,
    lent_after_tax: u64,
    balance: u64,
    expected_luna_received: u64,
) -> (r: Result<Vec<ArbEffect>, StableArbError>)
    ensures
        match r {
            Err(StableArbError::Unauthorized) => sender@ != state.vault_address@,
            Err(StableArbError::InvalidDeposit) => sender@ == state.vault_address@ && (
            deposit_info.asset_info matches AssetInfo::Token { .. }),
            Err(StableArbError::Broke) => sender@ == state.vault_address@ && (
            deposit_info.asset_info matches AssetInfo::NativeToken { .. }) && balance
                < details.asset.amount,
            Err(_) => false,
            Ok(effects) => {
                &&& sender@ == state.vault_address@
                &&& balance >= details.asset.amount
                &&& deposit_info.asset_info matches AssetInfo::NativeToken { denom }
                &&& effects@.len() == 3
                &&& effects@[0] matches ArbEffect::PoolSwap {
                    pool,
                    offer_denom: od,
                    offer_amount: oa,
                    belief_price,
                    max_spread,
                } && pool@ == state.pool_address@ && od@ == denom@ && oa == lent_after_tax
                    && belief_price == details.belief_price && max_spread == Some(details.slippage)
                &&& effects@[1] matches ArbEffect::MarketSwap {
                    offer_denom,
                    offer_amount,
                    ask_denom,
                } && offer_denom@ == "uluna"@ && offer_amount == expected_luna_received
                    && ask_denom@ == denom@
                &&& effects@[2] matches ArbEffect::SelfCallback { contract, msg } && contract@
                    == contract_addr@ && msg is AfterSuccessfulTradeCallback
            },
        },
{
    if !(*sender == state.vault_address) {
        return Err(StableArbError::Unauthorized);
    }
    let denom: String = match deposit_info.get_denom() {
        Ok(d) => d,
        Err(e) => {
            return Err(e);
        },
    };
    if balance < details.asset.amount {
        return Err(StableArbError::Broke);
    }
    let mut effects: Vec<ArbEffect> = Vec::new();
    effects.push(
        ArbEffect::PoolSwap {
            pool: state.pool_address.clone(),
            offer_denom: denom.clone(),
            offer_amount: lent_after_tax,
            belief_price: details.belief_price,
            max_spread: Some(details.slippage),
        },
    );
    effects.push(
        ArbEffect::MarketSwap {
            offer_denom: "uluna".to_owned(),
            offer_amount: expected_luna_received,
            ask_denom: denom,
        },
    );
    effects.push(
        ArbEffect::SelfCallback {
            contract: contract_addr.clone(),
            msg: CallbackMsg::AfterSuccessfulTradeCallback {},
        },
    );
    Ok(effects)
}

/// After a successful round trip, everything the strategy holds in its base
/// denomination goes back to the vault.
pub fn after_successful_trade_callback(
    state: &State,
    deposit_info: &ArbBaseAsset,
    repay_amount: u64,
) -> (r: Result<Vec<ArbEffect>, StableArbError>)
    ensures
        match r {
            Err(StableArbError::InvalidDeposit) => deposit_info.asset_info
                matches AssetInfo::Token { .. },
            Err(_) => false,
            Ok(effects) => {
                &&& deposit_info.asset_info matches AssetInfo::NativeToken { denom }
                &&& effects@.len() == 1
                &&& effects@[0] matches ArbEffect::SendToVault { vault, denom: d, amount } && vault@
                    == state.vault_address@ && d@ == denom@ && amount == repay_amount
            },
        },
{
    let denom: String = match deposit_info.get_denom() {
        Ok(d) => d,
        Err(e) => {
            return Err(e);
        },
    };
    let mut effects: Vec<ArbEffect> = Vec::new();
    effects.push(
        ArbEffect::SendToVault {
            vault: state.vault_address.clone(),
            denom,
            amount: repay_amount,
        },
    );
    Ok(effects)
}

/// Routes a self-callback: only the strategy itself may invoke one.
pub fn _handle_callback(
    state: &State,
    deposit_info: &ArbBaseAsset,
    sender: &String,
    contract_addr: &String,
    msg: &CallbackMsg,
    repay_amount: u64,
) -> (r: Result<Vec<ArbEffect>, StableArbError>)
    ensures
        sender@ != contract_addr@ ==> r matches Err(StableArbError::NotCallback),
        sender@ == contract_addr@ ==> match msg {
            CallbackMsg::AfterSuccessfulTradeCallback {} => match r {
                Err(StableArbError::InvalidDeposit) => deposit_info.asset_info
                    matches AssetInfo::Token { .. },
                Err(_) => false,
                Ok(effects) => {
                    &&& deposit_info.asset_info matches AssetInfo::NativeToken { denom }
                    &&& effects@.len() == 1
                    &&& effects@[0] matches ArbEffect::SendToVault { vault, denom: d, amount }
                        && vault@ == state.vault_address@ && d@ == denom@ && amount == repay_amount
                },
            },
        },
{
    if !(*sender == *contract_addr) {
        return Err(StableArbError::NotCallback);
    }
    match msg {
        CallbackMsg::AfterSuccessfulTradeCallback {} => after_successful_trade_callback(
            state,
            deposit_info,
            repay_amount,
        ),
    }
}

/// Routes one of the strategy's operations. The host hands in the values
/// only it can observe: the post-tax lent coin, the strategy's balance, the
/// simulated swap return, and the amount available to repay.
pub fn execute(
    state: &State,
    deposit_info: &ArbBaseAsset,
    admin: &mut Admin,
    sender: &String,
    contract_addr: &String,
    msg: ExecuteMsg,
    lent_after_tax: u64,
    balance: u64,
    expected_luna_received: u64,
    repay_amount: u64,
) -> (r: Result<Vec<ArbEffect>, StableArbError>)
    ensures
        match msg {
            ExecuteMsg::ExecuteArb { details, above_peg } => *final(admin) == *old(admin)
                && match r {
                Ok(effects) => {
                    &&& deposit_info.asset_info.same(details.asset.info)
                    &&& effects@.len() == 1
                    &&& effects@[0] matches ArbEffect::RequestFlashLoan { vault, asset, callback }
                        && vault@ == state.vault_address@ && asset.amount == details.asset.amount
                        && (if above_peg {
                        callback matches ExecuteMsg::AbovePegCallback { .. }
                    } else {
                        callback matches ExecuteMsg::BelowPegCallback { .. }
                    })
                },
                Err(StableArbError::InvalidDeposit) => !deposit_info.asset_info.same(
                    details.asset.info,
                ),
                Err(_) => false,
            },
            ExecuteMsg::BelowPegCallback { details } => *final(admin) == *old(admin) && match r {
                Err(StableArbError::Unauthorized) => sender@ != state.vault_address@,
                Err(StableArbError::InvalidDeposit) => sender@ == state.vault_address@ && (
                deposit_info.asset_info matches AssetInfo::Token { .. }),
                Err(StableArbError::Broke) => sender@ == state.vault_address@ && (
                deposit_info.asset_info matches AssetInfo::NativeToken { .. }) && balance
                    < details.asset.amount,
                Err(_) => false,
                Ok(effects) => sender@ == state.vault_address@ && effects@.len() == 3 && (
                effects@[0] matches ArbEffect::MarketSwap { .. }) && (effects@[1]
                    matches ArbEffect::PoolSwap { .. }) && (effects@[2]
                    matches ArbEffect::SelfCallback { .. }),
            },
            ExecuteMsg::AbovePegCallback { details } => *final(admin) == *old(admin) && match r {
                Err(StableArbError::Unauthorized) => sender@ != state.vault_address@,
                Err(StableArbError::InvalidDeposit) => sender@ == state.vault_address@ && (
                deposit_info.asset_info matches AssetInfo::Token { .. }),
                Err(StableArbError::Broke) => sender@ == state.vault_address@ && (
                deposit_info.asset_info matches AssetInfo::NativeToken { .. }) && balance
                    < details.asset.amount,
                Err(_) => false,
                Ok(effects) => sender@ == state.vault_address@ && effects@.len() == 3 && (
                effects@[0] matches ArbEffect::PoolSwap { .. }) && (effects@[1]
                    matches ArbEffect::MarketSwap { .. }) && (effects@[2]
                    matches ArbEffect::SelfCallback { .. }),
            },
            ExecuteMsg::SetAdmin { admin: new_admin } => match r {
                Ok(effects) => old(admin).is_admin_spec(sender@) && effects@.len() == 0 && (final(admin).admin matches Some(a) && a@ == new_admin@),
                Err(StableArbError::Admin(AdminError::NotAdmin)) => !old(admin).is_admin_spec(
                    sender@,
                ) && *final(admin) == *old(admin),
                Err(_) => false,
            },
            ExecuteMsg::Callback(cb) => *final(admin) == *old(admin) && match r {
                Err(StableArbError::NotCallback) => sender@ != contract_addr@,
                Err(StableArbError::InvalidDeposit) => sender@ == contract_addr@ && (
                deposit_info.asset_info matches AssetInfo::Token { .. }),
                Err(_) => false,
                Ok(effects) => sender@ == contract_addr@ && effects@.len() == 1 && (effects@[0]
                    matches ArbEffect::SendToVault { vault, denom, amount } && vault@
                    == state.vault_address@ && amount == repay_amount),
            },
        },
{
    match msg {
        ExecuteMsg::ExecuteArb { details, above_peg } => call_flashloan(
            state,
            deposit_info,
            details,
            above_peg,
        ),
        ExecuteMsg::BelowPegCallback { details } => try_arb_below_peg(
            state,
            deposit_info,
            sender,
            contract_addr,
            &details,
            lent_after_tax,
            balance,
            expected_luna_received,
        ),
        ExecuteMsg::AbovePegCallback { details } => try_arb_above_peg(
            state,
            deposit_info,
            sender,
            contract_addr,
            &details,
            lent_after_tax,
            balance,
            expected_luna_received,
        ),
        ExecuteMsg::SetAdmin { admin: new_admin } => {
            match admin.execute_update_admin(sender, Some(new_admin)) {
                Ok(()) => Ok(Vec::new()),
                Err(e) => Err(StableArbError::Admin(e)),
            }
        },
        ExecuteMsg::Callback(cb) => _handle_callback(
            state,
            deposit_info,
            sender,
            contract_addr,
            &cb,
            repay_amount,
        ),
    }
}

/// Replaces the vault the strategy borrows from. Only the admin may call
/// this.
pub fn set_vault_addr(
    admin: &Admin,
    state: &mut State,
    sender: &String,
    vault_address: String,
) -> (r: Result<(), StableArbError>)
    ensures
        match r {
            Ok(()) => admin.is_admin_spec(sender@) && final(state).vault_address == vault_address
                && final(state).seignorage_address == old(state).seignorage_address && final(state).pool_address == old(state).pool_address,
            Err(StableArbError::Admin(AdminError::NotAdmin)) => !admin.is_admin_spec(sender@)
                && *final(state) == *old(state),
            Err(_) => false,
        },
{
    match admin.assert_admin(sender) {
        Ok(()) => (),
        Err(e) => {
            return Err(StableArbError::Admin(e));
        },
    }
    state.vault_address = vault_address;
    Ok(())
}

/// The strategy's base asset, for queries.
pub fn try_query_config(deposit_info: &ArbBaseAsset) -> (r: ArbBaseAsset)
    ensures
        r.asset_info.same(deposit_info.asset_info),
{
    ArbBaseAsset {
        asset_info: match &deposit_info.asset_info {
            AssetInfo::NativeToken { denom } => AssetInfo::NativeToken { denom: denom.clone() },
            AssetInfo::Token { contract_addr } => AssetInfo::Token {
                contract_addr: contract_addr.clone(),
            },
        },
    }
}

} // verus!
