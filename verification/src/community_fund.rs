//! The community fund: holds the protocol treasury's token and lets the
//! admin spend or burn it; anyone may deposit the fund's token.

use vstd::prelude::*;
use crate::admin::Admin;
use crate::effect::Effect;
use crate::error::{AdminError, CommunityFundError};
use crate::state::Coin;

verus! {

/// The fund's persisted configuration.
pub struct State {
    pub whale_token_addr: String,
}

pub struct InstantiateMsg {
    pub whale_token_addr: String,
}

/// The operations the fund accepts.
pub enum ExecuteMsg {
    Spend { recipient: String, amount: u64 },
    Burn { amount: u64 },
    Deposit,
    SetAdmin { admin: String },
}

/// What a configuration query reports.
pub struct ConfigResponse {
    pub token_addr: String,
}

/// Sets up the fund around its token; the instantiating sender becomes the
/// admin.
pub fn instantiate(sender: &String, msg: InstantiateMsg) -> (r: (State, Admin))
    ensures
        r.0.whale_token_addr == msg.whale_token_addr,
        r.1.admin matches Some(a) && a@ == sender@,
{
    (State { whale_token_addr: msg.whale_token_addr }, Admin::new(Some(sender.clone())))
}

/// Transfers fund tokens to a recipient. Only the admin may call this.
pub fn spend_whale(
    state: &State,
    admin: &Admin,
    sender: &String,
    recipient: String,
    amount: u64,
) -> (r: Result<Vec<Effect>, CommunityFundError>)
    ensures
        match r {
            Ok(effects) => admin.is_admin_spec(sender@) && effects@.len() == 1 && (effects@[0]
                matches Effect::TokenTransfer { token, recipient: rec, amount: amt } && token@
                == state.whale_token_addr@ && rec@ == recipient@ && amt == amount),
            Err(CommunityFundError::Admin(AdminError::NotAdmin)) => !admin.is_admin_spec(sender@),
            Err(_) => false,
        },
{
    match admin.assert_admin(sender) {
        Ok(()) => (),
        Err(e) => {
            return Err(CommunityFundError::Admin(e));
        },
    }
    let mut effects: Vec<Effect> = Vec::new();
    effects.push(
        Effect::TokenTransfer { token: state.whale_token_addr.clone(), recipient, amount },
    );
    Ok(effects)
}

/// Burns fund tokens. Only the admin may call this.
pub fn burn_whale(state: &State, admin: &Admin, sender: &String, amount: u64) -> (r: Result<
    Vec<Effect>,
    CommunityFundError,
>)
    ensures
        match r {
            Ok(effects) => admin.is_admin_spec(sender@) && effects@.len() == 1 && (effects@[0]
                matches Effect::TokenBurn { token, amount: amt } && token@
                == state.whale_token_addr@ && amt == amount),
            Err(CommunityFundError::Admin(AdminError::NotAdmin)) => !admin.is_admin_spec(sender@),
            Err(_) => false,
        },
{
    match admin.assert_admin(sender) {
        Ok(()) => (),
        Err(e) => {
            return Err(CommunityFundError::Admin(e));
        },
    }
    let mut effects: Vec<Effect> = Vec::new();
    effects.push(Effect::TokenBurn { token: state.whale_token_addr.clone(), amount });
    Ok(effects)
}

/// The attached funds are a single coin of the fund's own denomination.
pub open spec fn valid_fund_deposit(funds: Seq<Coin>) -> bool {
    funds.len() == 1 && funds[0].denom@ == "uwhale"@
}

/// Deposits fund tokens: exactly one coin of the fund's denomination must
/// be attached, and the matching token amount is pulled from the sender.
pub fn deposit(state: &State, contract_addr: &String, sender: &String, funds: &Vec<Coin>) -> (r:
    Result<Vec<Effect>, CommunityFundError>)
    ensures
        match r {
            Ok(effects) => valid_fund_deposit(funds@) && effects@.len() == 1 && (effects@[0]
                matches Effect::TokenTransferFrom { token, owner, recipient, amount } && token@
                == state.whale_token_addr@ && owner@ == sender@ && recipient@ == contract_addr@
                && amount == funds@[0].amount),
            Err(CommunityFundError::WrongDepositTooManyTokens) => funds@.len() > 1,
            Err(CommunityFundError::WrongDepositToken) => funds@.len() <= 1 && !valid_fund_deposit(
                funds@,
            ),
            Err(_) => false,
        },
{
    if funds.len() > 1 {
        return Err(CommunityFundError::WrongDepositTooManyTokens);
    }
    if funds.len() == 0 {
        return Err(CommunityFundError::WrongDepositToken);
    }
    let whale: String = "uwhale".to_owned();
    if !(funds[0].denom == whale) {
        return Err(CommunityFundError::WrongDepositToken);
    }
    let mut effects: Vec<Effect> = Vec::new();
    effects.push(
        Effect::TokenTransferFrom {
            token: state.whale_token_addr.clone(),
            owner: sender.clone(),
            recipient: contract_addr.clone(),
            amount: funds[0].amount,
        },
    );
    Ok(effects)
}

/// Routes one of the fund's operations.
pub fn execute(
    state: &State,
    admin: &mut Admin,
    contract_addr: &String,
    sender: &String,
    funds: &Vec<Coin>,
    msg: ExecuteMsg,
) -> (r: Result<Vec<Effect>, CommunityFundError>)
    ensures
        match msg {
            ExecuteMsg::Spend { recipient, amount } => *final(admin) == *old(admin) && match r {
                Ok(effects) => old(admin).is_admin_spec(sender@) && effects@.len() == 1 && (
                effects@[0] matches Effect::TokenTransfer { token, recipient: rec, amount: amt }
                    && token@ == state.whale_token_addr@ && rec@ == recipient@ && amt == amount),
                Err(CommunityFundError::Admin(AdminError::NotAdmin)) => !old(admin).is_admin_spec(
                    sender@,
                ),
                Err(_) => false,
            },
            ExecuteMsg::Burn { amount } => *final(admin) == *old(admin) && match r {
                Ok(effects) => old(admin).is_admin_spec(sender@) && effects@.len() == 1 && (
                effects@[0] matches Effect::TokenBurn { token, amount: amt } && token@
                    == state.whale_token_addr@ && amt == amount),
                Err(CommunityFundError::Admin(AdminError::NotAdmin)) => !old(admin).is_admin_spec(
                    sender@,
                ),
                Err(_) => false,
            },
            ExecuteMsg::Deposit => *final(admin) == *old(admin) && match r {
                Ok(effects) => valid_fund_deposit(funds@) && effects@.len() == 1 && (effects@[0]
                    matches Effect::TokenTransferFrom { token, owner, recipient, amount } && token@
                    == state.whale_token_addr@ && owner@ == sender@ && recipient@
                    == contract_addr@ && amount == funds@[0].amount),
                Err(CommunityFundError::WrongDepositTooManyTokens) => funds@.len() > 1,
                Err(CommunityFundError::WrongDepositToken) => funds@.len() <= 1
                    && !valid_fund_deposit(funds@),
                Err(_) => false,
            },
            ExecuteMsg::SetAdmin { admin: new_admin } => match r {
                Ok(effects) => old(admin).is_admin_spec(sender@) && effects@.len() == 0 && (final(admin).admin matches Some(a) && a@ == new_admin@),
                Err(CommunityFundError::Admin(AdminError::NotAdmin)) => !old(admin).is_admin_spec(
                    sender@,
                ) && *final(admin) == *old(admin),
                Err(_) => false,
            },
        },
{
    match msg {
        ExecuteMsg::Spend { recipient, amount } => spend_whale(
            state,
            admin,
            sender,
            recipient,
            amount,
        ),
        ExecuteMsg::Burn { amount } => burn_whale(state, admin, sender, amount),
        ExecuteMsg::Deposit => deposit(state, contract_addr, sender, funds),
        ExecuteMsg::SetAdmin { admin: new_admin } => {
            match admin.execute_update_admin(sender, Some(new_admin)) {
                Ok(()) => Ok(Vec::new()),
                Err(e) => Err(CommunityFundError::Admin(e)),
            }
        },
    }
}

/// The fund's configuration, for queries.
pub fn query_config(state: &State) -> (r: ConfigResponse)
    ensures
        r.token_addr@ == state.whale_token_addr@,
{
    ConfigResponse { token_addr: state.whale_token_addr.clone() }
}

} // verus!
