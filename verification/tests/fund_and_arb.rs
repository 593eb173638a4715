//! The community fund's operations and the arbitrage strategy's routing.

use luna_vault::admin::Admin;
use luna_vault::community_fund::{
    deposit, execute, instantiate, query_config, ExecuteMsg, InstantiateMsg,
};
use luna_vault::effect::{Asset, AssetInfo, Effect};
use luna_vault::error::{AdminError, CommunityFundError, StableArbError};
use luna_vault::rate::Rate;
use luna_vault::stable_arb;
use luna_vault::state::Coin;

fn fund() -> (luna_vault::community_fund::State, Admin) {
    instantiate(
        &"creator".to_string(),
        InstantiateMsg { whale_token_addr: "whale_token".to_string() },
    )
}

#[test]
fn fund_spend_and_burn_are_admin_gated() {
    let (state, mut admin) = fund();
    let effects = execute(
        &state,
        &mut admin,
        &"fund".to_string(),
        &"creator".to_string(),
        &Vec::new(),
        ExecuteMsg::Spend { recipient: "grantee".to_string(), amount: 25 },
    )
    .unwrap();
    assert_eq!(
        effects,
        vec![Effect::TokenTransfer {
            token: "whale_token".to_string(),
            recipient: "grantee".to_string(),
            amount: 25,
        }]
    );

    let res = execute(
        &state,
        &mut admin,
        &"fund".to_string(),
        &"stranger".to_string(),
        &Vec::new(),
        ExecuteMsg::Burn { amount: 5 },
    );
    assert_eq!(res, Err(CommunityFundError::Admin(AdminError::NotAdmin)));

    let effects = execute(
        &state,
        &mut admin,
        &"fund".to_string(),
        &"creator".to_string(),
        &Vec::new(),
        ExecuteMsg::Burn { amount: 5 },
    )
    .unwrap();
    assert_eq!(
        effects,
        vec![Effect::TokenBurn { token: "whale_token".to_string(), amount: 5 }]
    );
}

#[test]
fn fund_deposit_checks_the_attached_coin() {
    let (state, _) = fund();
    let too_many = vec![
        Coin { denom: "uwhale".to_string(), amount: 1 },
        Coin { denom: "uusd".to_string(), amount: 1 },
    ];
    assert_eq!(
        deposit(&state, &"fund".to_string(), &"alice".to_string(), &too_many),
        Err(CommunityFundError::WrongDepositTooManyTokens)
    );
    let wrong = vec![Coin { denom: "uusd".to_string(), amount: 1 }];
    assert_eq!(
        deposit(&state, &"fund".to_string(), &"alice".to_string(), &wrong),
        Err(CommunityFundError::WrongDepositToken)
    );
    let right = vec![Coin { denom: "uwhale".to_string(), amount: 42 }];
    let effects = deposit(&state, &"fund".to_string(), &"alice".to_string(), &right).unwrap();
    assert_eq!(
        effects,
        vec![Effect::TokenTransferFrom {
            token: "whale_token".to_string(),
            owner: "alice".to_string(),
            recipient: "fund".to_string(),
            amount: 42,
        }]
    );
}

#[test]
fn fund_set_admin_and_query() {
    let (state, mut admin) = fund();
    execute(
        &state,
        &mut admin,
        &"fund".to_string(),
        &"creator".to_string(),
        &Vec::new(),
        ExecuteMsg::SetAdmin { admin: "next".to_string() },
    )
    .unwrap();
    assert_eq!(admin.get(), Some("next".to_string()));
    assert_eq!(query_config(&state).token_addr, "whale_token".to_string());
}

fn arb() -> (stable_arb::State, stable_arb::ArbBaseAsset, Admin) {
    stable_arb::instantiate(
        &"creator".to_string(),
        stable_arb::InstantiateMsg {
            vault_address: "vault".to_string(),
            seignorage_address: "seignorage".to_string(),
            pool_address: "pool".to_string(),
            asset_info: AssetInfo::NativeToken { denom: "uusd".to_string() },
        },
    )
}

fn arb_details(amount: u64) -> stable_arb::ArbDetails {
    stable_arb::ArbDetails {
        asset: Asset { info: AssetInfo::NativeToken { denom: "uusd".to_string() }, amount },
        belief_price: Rate::from_ratio(1, 1),
        slippage: Rate::from_ratio(1, 100),
    }
}

#[test]
fn arb_requests_the_loan_with_the_right_callback() {
    let (state, info, _) = arb();
    let effects = stable_arb::call_flashloan(&state, &info, arb_details(100), true).unwrap();
    match &effects[0] {
        stable_arb::ArbEffect::RequestFlashLoan { vault, asset, callback } => {
            assert_eq!(vault, "vault");
            assert_eq!(asset.amount, 100);
            assert!(matches!(callback, stable_arb::ExecuteMsg::AbovePegCallback { .. }));
        }
        _ => panic!("expected the loan request"),
    }
}

#[test]
fn arb_below_peg_swaps_in_order() {
    let (state, info, _) = arb();
    let effects = stable_arb::try_arb_below_peg(
        &state,
        &info,
        &"vault".to_string(),
        &"arb".to_string(),
        &arb_details(100),
        99,   // after tax
        150,  // strategy balance
        95,   // simulated market return
    )
    .unwrap();
    assert_eq!(effects.len(), 3);
    assert!(matches!(
        &effects[0],
        stable_arb::ArbEffect::MarketSwap { offer_amount: 99, .. }
    ));
    assert!(matches!(
        &effects[1],
        stable_arb::ArbEffect::PoolSwap { offer_amount: 95, .. }
    ));
    assert!(matches!(&effects[2], stable_arb::ArbEffect::SelfCallback { .. }));
}

#[test]
fn arb_guards_caller_and_funds() {
    let (state, info, _) = arb();
    let res = stable_arb::try_arb_above_peg(
        &state,
        &info,
        &"impostor".to_string(),
        &"arb".to_string(),
        &arb_details(100),
        99,
        150,
        95,
    );
    assert!(matches!(res, Err(StableArbError::Unauthorized)));

    let res = stable_arb::try_arb_above_peg(
        &state,
        &info,
        &"vault".to_string(),
        &"arb".to_string(),
        &arb_details(100),
        99,
        50,  // less than the lent amount
        95,
    );
    assert!(matches!(res, Err(StableArbError::Broke)));
}

#[test]
fn arb_callback_returns_proceeds_to_the_vault() {
    let (state, info, _) = arb();
    // a stranger cannot invoke the self-callback
    let res = stable_arb::_handle_callback(
        &state,
        &info,
        &"stranger".to_string(),
        &"arb".to_string(),
        &stable_arb::CallbackMsg::AfterSuccessfulTradeCallback {},
        120,
    );
    assert!(matches!(res, Err(StableArbError::NotCallback)));

    let effects = stable_arb::_handle_callback(
        &state,
        &info,
        &"arb".to_string(),
        &"arb".to_string(),
        &stable_arb::CallbackMsg::AfterSuccessfulTradeCallback {},
        120,
    )
    .unwrap();
    match &effects[0] {
        stable_arb::ArbEffect::SendToVault { vault, denom, amount } => {
            assert_eq!(vault, "vault");
            assert_eq!(denom, "uusd");
            assert_eq!(*amount, 120);
        }
        _ => panic!("expected the repayment"),
    }
}

#[test]
fn arb_set_vault_addr_admin_gated() {
    let (mut state, _, admin) = arb();
    stable_arb::set_vault_addr(&admin, &mut state, &"creator".to_string(), "vault2".to_string())
        .unwrap();
    assert_eq!(state.vault_address, "vault2".to_string());
    assert!(stable_arb::set_vault_addr(
        &admin,
        &mut state,
        &"stranger".to_string(),
        "vault3".to_string()
    )
    .is_err());
    assert_eq!(state.vault_address, "vault2".to_string());
}

#[test]
fn pool_ratio_is_the_exact_quotient() {
    let r = luna_vault::query::pool_ratio(1500, 1000);
    assert_eq!(r, Rate { num: 1500, den: 1000 });
}
