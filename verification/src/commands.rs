//! Admin-gated configuration of the vault: caps, fees, the whitelist, the
//! collaborating addresses, and the admin itself.

use vstd::prelude::*;
use crate::admin::Admin;
use crate::error::{AdminError, LunaVaultError};
use crate::rate::Rate;
use crate::state::{contains_addr, is_listed, PoolInfo, VaultState, LIST_SIZE_LIMIT};

verus! {

/// Sets the cap on passively retained base asset.
pub fn set_luna_cap(
    admin: &Admin,
    pool_info: &mut PoolInfo,
    sender: &String,
    luna_cap: u64,
) -> (r: Result<(), LunaVaultError>)
    ensures
        match r {
            Ok(()) => admin.is_admin_spec(sender@) && final(pool_info).luna_cap == luna_cap
                && final(pool_info).liquidity_token == old(pool_info).liquidity_token,
            Err(LunaVaultError::Admin(AdminError::NotAdmin)) => !admin.is_admin_spec(sender@)
                && *final(pool_info) == *old(pool_info),
            Err(_) => false,
        },
{
    match admin.assert_admin(sender) {
        Ok(()) => (),
        Err(e) => {
            return Err(LunaVaultError::Admin(e));
        },
    }
    pool_info.luna_cap = luna_cap;
    Ok(())
}

/// Hands the vault to a new admin; only the current admin may do so.
pub fn set_admin(admin: &mut Admin, sender: &String, new_admin: String) -> (r: Result<
    (),
    LunaVaultError,
>)
    ensures
        match r {
            Ok(()) => old(admin).is_admin_spec(sender@) && (final(admin).admin matches Some(a)
                && a@ == new_admin@),
            Err(LunaVaultError::Admin(AdminError::NotAdmin)) => !old(admin).is_admin_spec(sender@)
                && *final(admin) == *old(admin),
            Err(_) => false,
        },
{
    match admin.execute_update_admin(sender, Some(new_admin)) {
        Ok(()) => Ok(()),
        Err(e) => Err(LunaVaultError::Admin(e)),
    }
}

/// A usable fee: a well-formed share of at most one.
pub fn check_fee(fee: Rate) -> (r: Result<Rate, LunaVaultError>)
    ensures
        match r {
            Ok(f) => f == fee && fee.wf() && fee.num <= fee.den,
            Err(LunaVaultError::InvalidFee) => !(fee.wf() && fee.num <= fee.den),
            Err(_) => false,
        },
{
    if fee.den >= 1 && fee.num <= fee.den {
        Ok(fee)
    } else {
        Err(LunaVaultError::InvalidFee)
    }
}

/// Every fee that was supplied is a valid share.
pub open spec fn fees_acceptable(
    flash_loan_fee: Option<Rate>,
    treasury_fee: Option<Rate>,
    commission_fee: Option<Rate>,
) -> bool {
    &&& flash_loan_fee matches Some(f) ==> f.wf() && f.num <= f.den
    &&& treasury_fee matches Some(f) ==> f.wf() && f.num <= f.den
    &&& commission_fee matches Some(f) ==> f.wf() && f.num <= f.den
}

/// Replaces any of the three fees; each supplied share must be at most one,
/// and nothing changes unless all of them are acceptable.
pub fn set_fee(
    admin: &Admin,
    fee_config: &mut crate::state::FeeConfig,
    sender: &String,
    flash_loan_fee: Option<Rate>,
    treasury_fee: Option<Rate>,
    commission_fee: Option<Rate>,
) -> (r: Result<(), LunaVaultError>)
    ensures
        match r {
            Ok(()) => {
                &&& admin.is_admin_spec(sender@)
                &&& fees_acceptable(flash_loan_fee, treasury_fee, commission_fee)
                &&& final(fee_config).flash_loan_fee == (match flash_loan_fee {
                    Some(f) => f,
                    None => old(fee_config).flash_loan_fee,
                })
                &&& final(fee_config).treasury_fee == (match treasury_fee {
                    Some(f) => f,
                    None => old(fee_config).treasury_fee,
                })
                &&& final(fee_config).commission_fee == (match commission_fee {
                    Some(f) => f,
                    None => old(fee_config).commission_fee,
                })
                &&& final(fee_config).treasury_addr == old(fee_config).treasury_addr
            },
            Err(LunaVaultError::Admin(AdminError::NotAdmin)) => !admin.is_admin_spec(sender@)
                && *final(fee_config) == *old(fee_config),
            Err(LunaVaultError::InvalidFee) => admin.is_admin_spec(sender@) && !fees_acceptable(
                flash_loan_fee,
                treasury_fee,
                commission_fee,
            ) && *final(fee_config) == *old(fee_config),
            Err(_) => false,
        },
{
    match admin.assert_admin(sender) {
        Ok(()) => (),
        Err(e) => {
            return Err(LunaVaultError::Admin(e));
        },
    }
    // Validate everything first: a rejected fee must leave the whole
    // configuration untouched.
    let new_flash: Option<Rate> = match flash_loan_fee {
        Some(f) => match check_fee(f) {
            Ok(f) => Some(f),
            Err(e) => {
                return Err(e);
            },
        },
        None => None,
    };
    let new_treasury: Option<Rate> = match treasury_fee {
        Some(f) => match check_fee(f) {
            Ok(f) => Some(f),
            Err(e) => {
                return Err(e);
            },
        },
        None => None,
    };
    let new_commission: Option<Rate> = match commission_fee {
        Some(f) => match check_fee(f) {
            Ok(f) => Some(f),
            Err(e) => {
                return Err(e);
            },
        },
        None => None,
    };
    if let Some(f) = new_flash {
        fee_config.flash_loan_fee = f;
    }
    if let Some(f) = new_treasury {
        fee_config.treasury_fee = f;
    }
    if let Some(f) = new_commission {
        fee_config.commission_fee = f;
    }
    Ok(())
}

/// Adds a contract to the whitelist, up to the configured capacity.
pub fn add_to_whitelist(
    admin: &Admin,
    state: &mut VaultState,
    sender: &String,
    contract_addr: String,
) -> (r: Result<(), LunaVaultError>)
    requires
        old(state).wf(),
    ensures
        final(state).wf(),
        match r {
            Ok(()) => {
                &&& admin.is_admin_spec(sender@)
                &&& !contains_addr(old(state).whitelisted_contracts@, contract_addr@)
                &&& old(state).whitelisted_contracts@.len() < LIST_SIZE_LIMIT
                &&& final(state).whitelisted_contracts@ == old(state).whitelisted_contracts@.push(contract_addr)
                &&& *final(state) == (VaultState {
                    whitelisted_contracts: final(state).whitelisted_contracts,
                    ..*old(state)
                })
            },
            Err(LunaVaultError::Admin(AdminError::NotAdmin)) => !admin.is_admin_spec(sender@)
                && *final(state) == *old(state),
            Err(LunaVaultError::AlreadyWhitelisted) => admin.is_admin_spec(sender@)
                && contains_addr(old(state).whitelisted_contracts@, contract_addr@) && *final(state) == *old(state),
            Err(LunaVaultError::WhitelistLimitReached) => admin.is_admin_spec(sender@)
                && !contains_addr(old(state).whitelisted_contracts@, contract_addr@) && old(state).whitelisted_contracts@.len() >= LIST_SIZE_LIMIT && *final(state) == *old(state),
            Err(_) => false,
        },
{
    match admin.assert_admin(sender) {
        Ok(()) => (),
        Err(e) => {
            return Err(LunaVaultError::Admin(e));
        },
    }
    if is_listed(&state.whitelisted_contracts, &contract_addr) {
        return Err(LunaVaultError::AlreadyWhitelisted);
    }
    // Bounding the list keeps whitelist lookups from exhausting resources.
    if state.whitelisted_contracts.len() >= LIST_SIZE_LIMIT {
        return Err(LunaVaultError::WhitelistLimitReached);
    }
    state.whitelisted_contracts.push(contract_addr);
    Ok(())
}

/// The list with every occurrence of one address taken out, order kept.
pub open spec fn without_addr(list: Seq<String>, addr: Seq<char>) -> Seq<String>
    decreases list.len(),
{
    if list.len() == 0 {
        Seq::empty()
    } else {
        let rest = without_addr(list.drop_last(), addr);
        if list.last()@ == addr {
            rest
        } else {
            rest.push(list.last())
        }
    }
}

/// Removes a contract from the whitelist.
pub fn remove_from_whitelist(
    admin: &Admin,
    state: &mut VaultState,
    sender: &String,
    contract_addr: String,
) -> (r: Result<(), LunaVaultError>)
    requires
        old(state).wf(),
    ensures
        final(state).wf(),
        match r {
            Ok(()) => {
                &&& admin.is_admin_spec(sender@)
                &&& contains_addr(old(state).whitelisted_contracts@, contract_addr@)
                &&& final(state).whitelisted_contracts@ == without_addr(
                    old(state).whitelisted_contracts@,
                    contract_addr@,
                )
                &&& *final(state) == (VaultState {
                    whitelisted_contracts: final(state).whitelisted_contracts,
                    ..*old(state)
                })
            },
            Err(LunaVaultError::Admin(AdminError::NotAdmin)) => !admin.is_admin_spec(sender@)
                && *final(state) == *old(state),
            Err(LunaVaultError::NotWhitelisted) => admin.is_admin_spec(sender@) && !contains_addr(
                old(state).whitelisted_contracts@,
                contract_addr@,
            ) && *final(state) == *old(state),
            Err(_) => false,
        },
{
    match admin.assert_admin(sender) {
        Ok(()) => (),
        Err(e) => {
            return Err(LunaVaultError::Admin(e));
        },
    }
    if !is_listed(&state.whitelisted_contracts, &contract_addr) {
        return Err(LunaVaultError::NotWhitelisted);
    }
    let n: usize = state.whitelisted_contracts.len();
    let mut kept: Vec<String> = Vec::new();
    let mut i: usize = 0;
    while i < n
        invariant
            i <= n,
            n == state.whitelisted_contracts@.len(),
            *state == *old(state),
            kept@ == without_addr(state.whitelisted_contracts@.take(i as int), contract_addr@),
        decreases n - i,
    {
        proof {
            assert(state.whitelisted_contracts@.take(i as int + 1).drop_last()
                =~= state.whitelisted_contracts@.take(i as int));
        }
        if !(state.whitelisted_contracts[i] == contract_addr) {
            kept.push(state.whitelisted_contracts[i].clone());
        }
        i = i + 1;
    }
    proof {
        assert(state.whitelisted_contracts@.take(n as int) =~= state.whitelisted_contracts@);
    }
    state.whitelisted_contracts = kept;
    proof {
        lemma_without_addr_len(old(state).whitelisted_contracts@, contract_addr@);
    }
    Ok(())
}

/// Removal never lengthens the list.
proof fn lemma_without_addr_len(list: Seq<String>, addr: Seq<char>)
    ensures
        without_addr(list, addr).len() <= list.len(),
    decreases list.len(),
{
    if list.len() > 0 {
        lemma_without_addr_len(list.drop_last(), addr);
    }
}

/// Updates the vault's collaborator addresses and the open-borrowing flag.
pub fn update_state(
    admin: &Admin,
    state: &mut VaultState,
    sender: &String,
    bluna_address: Option<String>,
    memory_address: Option<String>,
    allow_non_whitelisted: Option<bool>,
) -> (r: Result<(), LunaVaultError>)
    requires
        old(state).wf(),
    ensures
        final(state).wf(),
        match r {
            Ok(()) => {
                &&& admin.is_admin_spec(sender@)
                &&& final(state).bluna_address == (match bluna_address {
                    Some(a) => a,
                    None => old(state).bluna_address,
                })
                &&& final(state).memory_address == (match memory_address {
                    Some(a) => a,
                    None => old(state).memory_address,
                })
                &&& final(state).allow_non_whitelisted == (match allow_non_whitelisted {
                    Some(b) => b,
                    None => old(state).allow_non_whitelisted,
                })
                &&& *final(state) == (VaultState {
                    bluna_address: final(state).bluna_address,
                    memory_address: final(state).memory_address,
                    allow_non_whitelisted: final(state).allow_non_whitelisted,
                    ..*old(state)
                })
            },
            Err(LunaVaultError::Admin(AdminError::NotAdmin)) => !admin.is_admin_spec(sender@)
                && *final(state) == *old(state),
            Err(_) => false,
        },
{
    match admin.assert_admin(sender) {
        Ok(()) => (),
        Err(e) => {
            return Err(LunaVaultError::Admin(e));
        },
    }
    if let Some(a) = bluna_address {
        state.bluna_address = a;
    }
    if let Some(a) = memory_address {
        state.memory_address = a;
    }
    if let Some(b) = allow_non_whitelisted {
        state.allow_non_whitelisted = b;
    }
    Ok(())
}

} // verus!
