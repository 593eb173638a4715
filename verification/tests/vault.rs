//! Scenario tests for the bonding, unbonding, reconciliation and flash-loan
//! operations.

use luna_vault::bond::provide_liquidity;
use luna_vault::commands::{add_to_whitelist, remove_from_whitelist, set_fee, set_luna_cap};
use luna_vault::admin::Admin;
use luna_vault::effect::{Asset, AssetInfo, Effect};
use luna_vault::error::LunaVaultError;
use luna_vault::flashloan::{after_trade, before_trade, handle_flashloan, FlashLoanPayload};
use luna_vault::rate::Rate;
use luna_vault::state::{
    Coin, CurrentBatch, FeeConfig, Parameters, PoolInfo, ProfitCheckpoint, UnbondHistory,
    UnbondWaitEntry, VaultState,
};
use luna_vault::unbond::{receive_cw20, unbond, Cw20HookMsg};
use luna_vault::withdraw::{execute_withdraw_unbonded, _process_withdraw_rate};

fn rate(num: u64, den: u64) -> Rate {
    Rate::from_ratio(num, den)
}

fn base_state() -> VaultState {
    VaultState {
        total_bond_amount: 0,
        exchange_rate: rate(1, 1),
        last_unbonded_time: 1000,
        prev_vault_balance: 0,
        actual_unbonded_amount: 0,
        last_processed_batch: 0,
        bluna_address: "bluna".to_string(),
        memory_address: "memory".to_string(),
        whitelisted_contracts: Vec::new(),
        allow_non_whitelisted: false,
    }
}

fn base_params() -> Parameters {
    Parameters {
        epoch_period: 100,
        unbonding_period: 500,
        underlying_coin_denom: "uluna".to_string(),
        peg_recovery_fee: rate(1, 10),
        er_threshold: rate(1, 1),
    }
}

fn base_fees() -> FeeConfig {
    FeeConfig {
        flash_loan_fee: rate(1, 100),
        treasury_fee: rate(1, 100),
        commission_fee: rate(1, 10),
        treasury_addr: "treasury".to_string(),
    }
}

fn pool() -> PoolInfo {
    PoolInfo { liquidity_token: "vluna".to_string(), luna_cap: 1_000_000 }
}

fn luna_deposit(amount: u64) -> (Asset, Vec<Coin>) {
    (
        Asset { info: AssetInfo::NativeToken { denom: "uluna".to_string() }, amount },
        vec![Coin { denom: "uluna".to_string(), amount }],
    )
}

/// Depositing 1000 base units at a rate of one mints exactly 1000 receipt
/// tokens and bonds the deposit.
#[test]
fn deposit_at_rate_one_mints_one_to_one() {
    let mut state = base_state();
    let batch = CurrentBatch { id: 1, requested_with_fee: 0 };
    let profit = ProfitCheckpoint { last_balance: 0, last_profit: 0 };
    let (asset, funds) = luna_deposit(1000);
    let effects = provide_liquidity(
        &mut state,
        &batch,
        &profit,
        &base_params(),
        &pool(),
        &AssetInfo::NativeToken { denom: "uluna".to_string() },
        &asset,
        &funds,
        &"alice".to_string(),
        0,
        0,
    )
    .unwrap();

    assert_eq!(state.total_bond_amount, 1000);
    assert_eq!(effects.len(), 1);
    match &effects[0] {
        Effect::TokenMint { token, recipient, amount } => {
            assert_eq!(token, "vluna");
            assert_eq!(recipient, "alice");
            assert_eq!(*amount, 1000);
        }
        _ => panic!("expected a mint"),
    }
}

/// Unbonding 400 receipt tokens at a rate of one with a 1% treasury fee
/// leaves a wait entry of 396, pays the treasury 4, and leaves the bonded
/// total untouched until the epoch rolls over.
#[test]
fn unbond_with_treasury_fee_before_rollover() {
    let mut state = base_state();
    state.total_bond_amount = 1000;
    let mut batch = CurrentBatch { id: 1, requested_with_fee: 0 };
    let mut wait_list: Vec<UnbondWaitEntry> = Vec::new();
    let mut histories: Vec<UnbondHistory> = Vec::new();
    let profit = ProfitCheckpoint { last_balance: 0, last_profit: 0 };

    let effects = unbond(
        &mut state,
        &mut batch,
        &mut wait_list,
        &mut histories,
        &profit,
        &base_params(),
        &base_fees(),
        &pool(),
        400,
        &"alice".to_string(),
        1050,  // within the epoch: no rollover
        1000,
    )
    .unwrap();

    assert_eq!(wait_list.len(), 1);
    assert_eq!(wait_list[0].amount, 396);
    assert_eq!(wait_list[0].batch_id, 1);
    assert_eq!(batch.requested_with_fee, 396);
    assert_eq!(state.total_bond_amount, 1000);
    assert_eq!(effects.len(), 2);
    match &effects[0] {
        Effect::TokenBurn { token, amount } => {
            assert_eq!(token, "vluna");
            assert_eq!(*amount, 396);
        }
        _ => panic!("expected a burn"),
    }
    match &effects[1] {
        Effect::TokenTransfer { token, recipient, amount } => {
            assert_eq!(token, "vluna");
            assert_eq!(recipient, "treasury");
            assert_eq!(*amount, 4);
        }
        _ => panic!("expected the treasury transfer"),
    }
}

/// Once the epoch has elapsed, the batch freezes into history at the
/// recomputed rate and a new batch opens.
#[test]
fn unbond_epoch_rollover_freezes_batch() {
    let mut state = base_state();
    state.total_bond_amount = 1000;
    let mut batch = CurrentBatch { id: 1, requested_with_fee: 0 };
    let mut wait_list: Vec<UnbondWaitEntry> = Vec::new();
    let mut histories: Vec<UnbondHistory> = Vec::new();
    let profit = ProfitCheckpoint { last_balance: 0, last_profit: 0 };

    unbond(
        &mut state,
        &mut batch,
        &mut wait_list,
        &mut histories,
        &profit,
        &base_params(),
        &base_fees(),
        &pool(),
        400,
        &"alice".to_string(),
        2000,  // long past the epoch
        1000,
    )
    .unwrap();

    assert_eq!(histories.len(), 1);
    assert_eq!(histories[0].batch_id, 1);
    assert_eq!(histories[0].amount, 396);
    assert!(!histories[0].released);
    assert_eq!(batch.id, 2);
    assert_eq!(batch.requested_with_fee, 0);
    assert_eq!(state.last_unbonded_time, 2000);
    // undelegation: 396 * 1000/996 = 397 leaves the bonded total
    assert_eq!(state.total_bond_amount, 1000 - 397);
}

/// Bonding and then immediately unbonding the same amount at a constant
/// rate of one, with no fees in the way, returns exactly the original
/// amount.
#[test]
fn round_trip_at_rate_one_returns_the_deposit() {
    let mut state = base_state();
    state.total_bond_amount = 10_000;
    let mut batch = CurrentBatch { id: 1, requested_with_fee: 0 };
    let profit = ProfitCheckpoint { last_balance: 0, last_profit: 0 };
    let mut fees = base_fees();
    fees.treasury_fee = rate(0, 1);

    // bond 1000 into a pool of 10000 at a rate of one
    let (asset, funds) = luna_deposit(1000);
    let effects = provide_liquidity(
        &mut state,
        &batch,
        &profit,
        &base_params(),
        &pool(),
        &AssetInfo::NativeToken { denom: "uluna".to_string() },
        &asset,
        &funds,
        &"alice".to_string(),
        10_000,
        0,
    )
    .unwrap();
    match &effects[0] {
        Effect::TokenMint { amount, .. } => assert_eq!(*amount, 1000),
        _ => panic!("expected a mint"),
    }
    assert_eq!(state.exchange_rate, rate(11_000, 11_000));

    // immediately unbond the same 1000; the epoch elapses at once
    let mut wait_list: Vec<UnbondWaitEntry> = Vec::new();
    let mut histories: Vec<UnbondHistory> = Vec::new();
    unbond(
        &mut state,
        &mut batch,
        &mut wait_list,
        &mut histories,
        &profit,
        &base_params(),
        &fees,
        &pool(),
        1000,
        &"alice".to_string(),
        2000,
        11_000,
    )
    .unwrap();
    assert_eq!(histories[0].withdraw_rate, rate(11_000, 11_000));
    assert_eq!(wait_list[0].amount, 1000);

    // the undelegated 1000 arrive; the withdrawal returns them exactly
    state.prev_vault_balance = 0;
    let effects = execute_withdraw_unbonded(
        &mut state,
        &mut histories,
        &mut wait_list,
        &base_params(),
        &"alice".to_string(),
        2600,
        1000,
    )
    .unwrap();
    match &effects[0] {
        Effect::Send { amount, .. } => assert_eq!(*amount, 1000),
        _ => panic!("expected the payout"),
    }
}

/// A deposit is rejected while a flash loan is in flight.
#[test]
fn deposit_rejected_during_loan() {
    let mut state = base_state();
    let batch = CurrentBatch { id: 1, requested_with_fee: 0 };
    let profit = ProfitCheckpoint { last_balance: 77, last_profit: 0 };
    let (asset, funds) = luna_deposit(1000);
    let res = provide_liquidity(
        &mut state,
        &batch,
        &profit,
        &base_params(),
        &pool(),
        &AssetInfo::NativeToken { denom: "uluna".to_string() },
        &asset,
        &funds,
        &"alice".to_string(),
        0,
        0,
    );
    assert_eq!(res, Err(LunaVaultError::DepositDuringLoan));
}

/// The wrong denomination, or mismatched funds, reject the deposit.
#[test]
fn deposit_rejected_on_wrong_funds() {
    let mut state = base_state();
    let batch = CurrentBatch { id: 1, requested_with_fee: 0 };
    let profit = ProfitCheckpoint { last_balance: 0, last_profit: 0 };
    let asset = Asset { info: AssetInfo::NativeToken { denom: "uusd".to_string() }, amount: 5 };
    let funds = vec![Coin { denom: "uusd".to_string(), amount: 5 }];
    let res = provide_liquidity(
        &mut state,
        &batch,
        &profit,
        &base_params(),
        &pool(),
        &AssetInfo::NativeToken { denom: "uluna".to_string() },
        &asset,
        &funds,
        &"alice".to_string(),
        0,
        0,
    );
    assert_eq!(res, Err(LunaVaultError::InvalidDeposit));

    // right asset, wrong attached amount
    let mut state = base_state();
    let asset = Asset { info: AssetInfo::NativeToken { denom: "uluna".to_string() }, amount: 5 };
    let funds = vec![Coin { denom: "uluna".to_string(), amount: 4 }];
    let res = provide_liquidity(
        &mut state,
        &batch,
        &profit,
        &base_params(),
        &pool(),
        &AssetInfo::NativeToken { denom: "uluna".to_string() },
        &asset,
        &funds,
        &"alice".to_string(),
        0,
        0,
    );
    assert_eq!(res, Err(LunaVaultError::InvalidDeposit));
}

/// Below the threshold the peg-recovery fee is levied, capped structurally:
/// the net mint never exceeds the raw mint.
#[test]
fn deposit_below_threshold_pays_peg_fee() {
    let mut state = base_state();
    state.exchange_rate = rate(1, 2);
    state.total_bond_amount = 500;
    let batch = CurrentBatch { id: 1, requested_with_fee: 0 };
    let profit = ProfitCheckpoint { last_balance: 0, last_profit: 0 };
    let (asset, funds) = luna_deposit(100);
    let effects = provide_liquidity(
        &mut state,
        &batch,
        &profit,
        &base_params(),
        &pool(),
        &AssetInfo::NativeToken { denom: "uluna".to_string() },
        &asset,
        &funds,
        &"alice".to_string(),
        1000,
        0,
    )
    .unwrap();

    // raw mint 100 / (1/2) = 200; fee min(200/10, 1000+200-600) = 20
    match &effects[0] {
        Effect::TokenMint { amount, .. } => assert_eq!(*amount, 180),
        _ => panic!("expected a mint"),
    }
}

/// Only the receipt-token contract may deliver the unbond hook.
#[test]
fn receive_cw20_rejects_other_tokens() {
    let mut state = base_state();
    state.total_bond_amount = 1000;
    let mut batch = CurrentBatch { id: 1, requested_with_fee: 0 };
    let mut wait_list: Vec<UnbondWaitEntry> = Vec::new();
    let mut histories: Vec<UnbondHistory> = Vec::new();
    let profit = ProfitCheckpoint { last_balance: 0, last_profit: 0 };

    let res = receive_cw20(
        &mut state,
        &mut batch,
        &mut wait_list,
        &mut histories,
        &profit,
        &base_params(),
        &base_fees(),
        &pool(),
        &"impostor_token".to_string(),
        &"alice".to_string(),
        400,
        &Cw20HookMsg::Unbond,
        1050,
        1000,
    );
    assert_eq!(res, Err(LunaVaultError::Unauthorized));
    assert_eq!(wait_list.len(), 0);
}

/// An undelegation that resolves to exactly one indivisible unit is
/// rejected as a degenerate batch.
#[test]
fn unbond_rejects_degenerate_release() {
    let mut state = base_state();
    state.total_bond_amount = 1000;
    let mut batch = CurrentBatch { id: 1, requested_with_fee: 0 };
    let mut wait_list: Vec<UnbondWaitEntry> = Vec::new();
    let mut histories: Vec<UnbondHistory> = Vec::new();
    let profit = ProfitCheckpoint { last_balance: 0, last_profit: 0 };
    // burn 2: the 1% treasury fee floors to 0, so the net is 2; on
    // rollover the undelegation is 2 * 1000 / 1502, exactly one unit
    let res = unbond(
        &mut state,
        &mut batch,
        &mut wait_list,
        &mut histories,
        &profit,
        &base_params(),
        &base_fees(),
        &pool(),
        2,
        &"alice".to_string(),
        2000,
        1502,
    );
    assert_eq!(res, Err(LunaVaultError::TooSmallBurn));
    // the failed request leaves every record untouched
    assert_eq!(wait_list.len(), 0);
    assert_eq!(batch.requested_with_fee, 0);
    assert_eq!(state.total_bond_amount, 1000);
}

/// Two unreleased batches of 100 and 300 at a rate of one; the live balance
/// shows a 40-unit shortfall. The reconciler assigns the loss
/// proportionally, rounded one unit against each batch, and finalizes both
/// withdraw rates below one.
#[test]
fn reconciler_distributes_shortfall_proportionally() {
    let mut state = base_state();
    state.prev_vault_balance = 1000;
    let mut histories = vec![
        UnbondHistory {
            batch_id: 1,
            time: 10,
            amount: 100,
            applied_exchange_rate: rate(1, 1),
            withdraw_rate: rate(1, 1),
            released: false,
        },
        UnbondHistory {
            batch_id: 2,
            time: 20,
            amount: 300,
            applied_exchange_rate: rate(1, 1),
            withdraw_rate: rate(1, 1),
            released: false,
        },
    ];
    // expected 400, arrived 360: a 40-unit shortfall
    _process_withdraw_rate(&mut state, &mut histories, 100, 1360).unwrap();

    // proportional shares 10 and 30, each rounded up by one unit
    assert_eq!(histories[0].withdraw_rate, rate(89, 100));
    assert_eq!(histories[1].withdraw_rate, rate(269, 300));
    assert!(histories[0].released);
    assert!(histories[1].released);
    assert!(histories[0].withdraw_rate.is_below(&rate(1, 1)));
    assert!(histories[1].withdraw_rate.is_below(&rate(1, 1)));
    assert_eq!(state.last_processed_batch, 2);
    assert_eq!(state.actual_unbonded_amount, 0);

    // solvency: the finalized assignments stay within the 360 that arrived
    assert!(89 + 269 <= 360);
}

/// A gain (negative slash) is distributed too, rounded one unit against the
/// batches.
#[test]
fn reconciler_distributes_gain() {
    let mut state = base_state();
    state.prev_vault_balance = 1000;
    let mut histories = vec![UnbondHistory {
        batch_id: 1,
        time: 10,
        amount: 100,
        applied_exchange_rate: rate(1, 1),
        withdraw_rate: rate(1, 1),
        released: false,
    }];
    // expected 100, arrived 140: a 40-unit gain, share 40 - 1
    _process_withdraw_rate(&mut state, &mut histories, 100, 1140).unwrap();
    assert_eq!(histories[0].withdraw_rate, rate(139, 100));
    assert!(histories[0].released);
}

/// A loss beyond everything the range was expected to redeem saturates
/// every assignment at zero: the vault never promises more than it gained.
#[test]
fn reconciler_saturates_on_total_loss() {
    let mut state = base_state();
    state.prev_vault_balance = 1000;
    let mut histories = vec![UnbondHistory {
        batch_id: 1,
        time: 10,
        amount: 100,
        applied_exchange_rate: rate(1, 1),
        withdraw_rate: rate(1, 1),
        released: false,
    }];
    // expected 100, yet the balance even fell by 100
    _process_withdraw_rate(&mut state, &mut histories, 100, 900).unwrap();
    assert_eq!(histories[0].withdraw_rate, rate(0, 100));
    assert!(histories[0].released);
}

/// An unbond request is also blocked while a loan is in flight.
#[test]
fn unbond_rejected_during_loan() {
    let mut state = base_state();
    state.total_bond_amount = 1000;
    let mut batch = CurrentBatch { id: 1, requested_with_fee: 0 };
    let mut wait_list: Vec<UnbondWaitEntry> = Vec::new();
    let mut histories: Vec<UnbondHistory> = Vec::new();
    let profit = ProfitCheckpoint { last_balance: 9, last_profit: 0 };
    let res = unbond(
        &mut state,
        &mut batch,
        &mut wait_list,
        &mut histories,
        &profit,
        &base_params(),
        &base_fees(),
        &pool(),
        400,
        &"alice".to_string(),
        1050,
        1000,
    );
    assert_eq!(res, Err(LunaVaultError::DepositDuringLoan));
}

/// Settlement pays the claim, purges it, and a second withdrawal finds
/// nothing left.
#[test]
fn withdraw_twice_fails_with_nothing_to_withdraw() {
    let mut state = base_state();
    state.prev_vault_balance = 0;
    let mut histories = vec![UnbondHistory {
        batch_id: 1,
        time: 10,
        amount: 100,
        applied_exchange_rate: rate(1, 1),
        withdraw_rate: rate(1, 1),
        released: false,
    }];
    let mut wait_list = vec![UnbondWaitEntry {
        batch_id: 1,
        user: "alice".to_string(),
        amount: 100,
    }];

    // exactly the expected 100 arrived; the batch is past its unbonding
    // period at time 600
    let effects = execute_withdraw_unbonded(
        &mut state,
        &mut histories,
        &mut wait_list,
        &base_params(),
        &"alice".to_string(),
        600,
        100,
    )
    .unwrap();

    assert_eq!(effects.len(), 1);
    match &effects[0] {
        Effect::Send { to, denom, amount } => {
            assert_eq!(to, "alice");
            assert_eq!(denom, "uluna");
            assert_eq!(*amount, 100);
        }
        _ => panic!("expected the payout"),
    }
    assert_eq!(wait_list.len(), 0);
    assert_eq!(state.prev_vault_balance, 0);

    // the second attempt must fail, not re-pay
    let res = execute_withdraw_unbonded(
        &mut state,
        &mut histories,
        &mut wait_list,
        &base_params(),
        &"alice".to_string(),
        601,
        100,
    );
    assert_eq!(
        res,
        Err(LunaVaultError::NoWithdrawableAssetsAvailable("uluna".to_string()))
    );
}

/// A losing flash loan aborts with the dedicated error and leaves the
/// checkpoint byte-identical, so the host rolls the whole chain back.
#[test]
fn losing_flash_loan_aborts_unchanged() {
    let mut profit = ProfitCheckpoint { last_balance: 1000, last_profit: 0 };
    let before = profit;
    // the vault must be worth at least 1000 + 10 afterwards; 1005 is a loss
    let res = after_trade(&mut profit, &base_fees(), 1005, 10);
    assert_eq!(res, Err(LunaVaultError::CancelLosingTrade));
    assert_eq!(profit, before);
}

/// A profitable flash loan clears the snapshot and pays the treasury its
/// commission on the profit.
#[test]
fn profitable_flash_loan_pays_commission() {
    let mut profit = ProfitCheckpoint { last_balance: 1000, last_profit: 0 };
    let effects = after_trade(&mut profit, &base_fees(), 1050, 10).unwrap();
    assert_eq!(profit, ProfitCheckpoint { last_balance: 0, last_profit: 50 });
    match &effects[0] {
        Effect::Send { to, denom, amount } => {
            assert_eq!(to, "treasury");
            assert_eq!(denom, "uluna");
            assert_eq!(*amount, 5);  // 10% of the 50 profit
        }
        _ => panic!("expected the commission"),
    }
}

/// The full flash-loan dispatch: loan transfer, borrower callback, then the
/// vault's own settlement check, in that order.
#[test]
fn flash_loan_schedules_ordered_effects() {
    let mut state = base_state();
    state.whitelisted_contracts.push("borrower".to_string());
    let mut profit = ProfitCheckpoint { last_balance: 0, last_profit: 0 };
    let payload = FlashLoanPayload {
        requested_asset: Asset {
            info: AssetInfo::NativeToken { denom: "uluna".to_string() },
            amount: 500,
        },
        callback: vec![1, 2, 3],
    };
    let effects = handle_flashloan(
        &state,
        &mut profit,
        &base_fees(),
        &AssetInfo::NativeToken { denom: "uluna".to_string() },
        payload,
        &"borrower".to_string(),
        &"vault".to_string(),
        10_000,
        2,
    )
    .unwrap();

    assert_eq!(profit.last_balance, 10_000);
    assert_eq!(effects.len(), 3);
    assert!(matches!(&effects[0], Effect::Send { amount: 500, .. }));
    assert!(matches!(&effects[1], Effect::ExecuteContract { .. }));
    match &effects[2] {
        Effect::AfterTrade { contract, loan_fee } => {
            assert_eq!(contract, "vault");
            assert_eq!(*loan_fee, 0);  // whitelisted borrowers pay no fee
        }
        _ => panic!("expected the settlement callback"),
    }
}

/// A loan larger than the vault's value, net of the tax buffer, is refused.
#[test]
fn flash_loan_insufficient_funds() {
    let state = base_state();
    let mut state = state;
    state.allow_non_whitelisted = true;
    let mut profit = ProfitCheckpoint { last_balance: 0, last_profit: 0 };
    let payload = FlashLoanPayload {
        requested_asset: Asset {
            info: AssetInfo::NativeToken { denom: "uluna".to_string() },
            amount: 990,
        },
        callback: Vec::new(),
    };
    // buffer is 2 * 2 + 10 = 14, so 990 + 14 > 1000
    let res = handle_flashloan(
        &state,
        &mut profit,
        &base_fees(),
        &AssetInfo::NativeToken { denom: "uluna".to_string() },
        payload,
        &"anyone".to_string(),
        &"vault".to_string(),
        1000,
        2,
    );
    assert_eq!(res, Err(LunaVaultError::Broke));
}

/// A non-whitelisted borrower is refused while open borrowing is off, and
/// a second loan is refused while one is outstanding.
#[test]
fn flash_loan_guards() {
    let state = base_state();
    let mut profit = ProfitCheckpoint { last_balance: 0, last_profit: 0 };
    let payload = FlashLoanPayload {
        requested_asset: Asset {
            info: AssetInfo::NativeToken { denom: "uluna".to_string() },
            amount: 10,
        },
        callback: Vec::new(),
    };
    let res = handle_flashloan(
        &state,
        &mut profit,
        &base_fees(),
        &AssetInfo::NativeToken { denom: "uluna".to_string() },
        payload,
        &"anyone".to_string(),
        &"vault".to_string(),
        1000,
        0,
    );
    assert_eq!(res, Err(LunaVaultError::NotWhitelisted));

    // an outstanding snapshot blocks the next snapshot
    let mut profit = ProfitCheckpoint { last_balance: 5, last_profit: 0 };
    assert_eq!(before_trade(&mut profit, 100), Err(LunaVaultError::Nonzero));
}

/// When the fees together exceed the request, the unbond fails as an
/// arithmetic-invariant violation rather than clamping.
#[test]
fn unbond_fails_when_fees_exceed_request() {
    let mut state = base_state();
    state.exchange_rate = rate(1, 2);  // below the threshold of one
    state.total_bond_amount = 100;
    let mut batch = CurrentBatch { id: 1, requested_with_fee: 0 };
    let mut wait_list: Vec<UnbondWaitEntry> = Vec::new();
    let mut histories: Vec<UnbondHistory> = Vec::new();
    let profit = ProfitCheckpoint { last_balance: 0, last_profit: 0 };
    let mut params = base_params();
    params.peg_recovery_fee = rate(60, 100);
    let mut fees = base_fees();
    fees.treasury_fee = rate(50, 100);

    // peg fee 6 and treasury fee 5 together exceed what is left of 10
    let res = unbond(
        &mut state,
        &mut batch,
        &mut wait_list,
        &mut histories,
        &profit,
        &params,
        &fees,
        &pool(),
        10,
        &"alice".to_string(),
        1050,
        1000,
    );
    assert_eq!(res, Err(LunaVaultError::ArithmeticInvariantViolation));
    assert_eq!(wait_list.len(), 0);
}

/// A gain whose per-batch share rounds to nothing fails the whole
/// reconciliation before anything is written.
#[test]
fn reconciler_fails_on_vanishing_gain_share() {
    let mut state = base_state();
    state.prev_vault_balance = 1000;
    let mut histories = vec![
        UnbondHistory {
            batch_id: 1,
            time: 10,
            amount: 100,
            applied_exchange_rate: rate(1, 1),
            withdraw_rate: rate(1, 1),
            released: false,
        },
        UnbondHistory {
            batch_id: 2,
            time: 20,
            amount: 300,
            applied_exchange_rate: rate(1, 1),
            withdraw_rate: rate(1, 1),
            released: false,
        },
    ];
    // expected 400, arrived 401: the small batch's share of the 1-unit gain
    // rounds to nothing
    let res = _process_withdraw_rate(&mut state, &mut histories, 100, 1401);
    assert_eq!(res, Err(LunaVaultError::ArithmeticInvariantViolation));
    assert!(!histories[0].released);
    assert!(!histories[1].released);
    assert_eq!(state.last_processed_batch, 0);
}

/// Only the vault itself may deliver its settlement callback.
#[test]
fn vault_callback_rejects_strangers() {
    let mut profit = ProfitCheckpoint { last_balance: 100, last_profit: 0 };
    let res = luna_vault::flashloan::_handle_callback(
        &mut profit,
        &base_fees(),
        &luna_vault::flashloan::CallbackMsg::AfterTrade { loan_fee: 1 },
        &"stranger".to_string(),
        &"vault".to_string(),
        500,
    );
    assert_eq!(res, Err(LunaVaultError::NotCallback));
    assert_eq!(profit.last_balance, 100);
}

/// The wrong base asset is refused before anything else is looked at.
#[test]
fn arb_flashloan_rejects_wrong_asset() {
    let (arb_state, info, _) = (
        luna_vault::stable_arb::State {
            vault_address: "vault".to_string(),
            seignorage_address: "s".to_string(),
            pool_address: "p".to_string(),
        },
        luna_vault::stable_arb::ArbBaseAsset {
            asset_info: AssetInfo::NativeToken { denom: "uusd".to_string() },
        },
        (),
    );
    let details = luna_vault::stable_arb::ArbDetails {
        asset: Asset { info: AssetInfo::NativeToken { denom: "ukrw".to_string() }, amount: 5 },
        belief_price: rate(1, 1),
        slippage: rate(1, 100),
    };
    let res = luna_vault::stable_arb::call_flashloan(&arb_state, &info, details, false);
    assert!(matches!(
        res,
        Err(luna_vault::error::StableArbError::InvalidDeposit)
    ));
}

/// Whitelist management: duplicates and the capacity limit are refused.
#[test]
fn whitelist_add_remove() {
    let admin = Admin::new(Some("admin".to_string()));
    let mut state = base_state();

    add_to_whitelist(&admin, &mut state, &"admin".to_string(), "c1".to_string()).unwrap();
    assert_eq!(
        add_to_whitelist(&admin, &mut state, &"admin".to_string(), "c1".to_string()),
        Err(LunaVaultError::AlreadyWhitelisted)
    );
    assert_eq!(
        remove_from_whitelist(&admin, &mut state, &"admin".to_string(), "c2".to_string()),
        Err(LunaVaultError::NotWhitelisted)
    );
    remove_from_whitelist(&admin, &mut state, &"admin".to_string(), "c1".to_string()).unwrap();
    assert_eq!(state.whitelisted_contracts.len(), 0);

    for i in 0..15 {
        add_to_whitelist(&admin, &mut state, &"admin".to_string(), format!("c{}", i)).unwrap();
    }
    assert_eq!(
        add_to_whitelist(&admin, &mut state, &"admin".to_string(), "c15".to_string()),
        Err(LunaVaultError::WhitelistLimitReached)
    );
    assert_eq!(
        add_to_whitelist(&admin, &mut state, &"nobody".to_string(), "c15".to_string()),
        Err(LunaVaultError::Admin(luna_vault::error::AdminError::NotAdmin))
    );
}

/// Fee configuration: shares above one are refused; valid shares are kept.
#[test]
fn set_fee_validates_shares() {
    let admin = Admin::new(Some("admin".to_string()));
    let mut fees = base_fees();
    assert_eq!(
        set_fee(
            &admin,
            &mut fees,
            &"admin".to_string(),
            Some(Rate { num: 3, den: 2 }),
            None,
            None
        ),
        Err(LunaVaultError::InvalidFee)
    );
    assert_eq!(fees.flash_loan_fee, rate(1, 100));
    set_fee(&admin, &mut fees, &"admin".to_string(), None, Some(rate(2, 100)), None).unwrap();
    assert_eq!(fees.treasury_fee, rate(2, 100));
}

/// The cap setter is admin-gated.
#[test]
fn set_luna_cap_admin_gated() {
    let admin = Admin::new(Some("admin".to_string()));
    let mut info = pool();
    set_luna_cap(&admin, &mut info, &"admin".to_string(), 777).unwrap();
    assert_eq!(info.luna_cap, 777);
    assert!(set_luna_cap(&admin, &mut info, &"intruder".to_string(), 1).is_err());
    assert_eq!(info.luna_cap, 777);
}
