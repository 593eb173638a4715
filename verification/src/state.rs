//! The vault's persisted records, modelled as an explicit state aggregate.
//! Each operation takes the records it reads or writes by reference; a host
//! persists them transactionally at the call boundary.

use vstd::prelude::*;
use crate::rate::Rate;

verus! {

/// Upper bound on the whitelist length, to bound lookup cost.
pub const LIST_SIZE_LIMIT: usize = 15;

/// A quantity of a native coin.
#[derive(Clone, Debug)]
pub struct Coin {
    pub denom: String,
    pub amount: u64,
}

/// The vault's mutable ledger state.
pub struct VaultState {
    /// Total base asset considered bonded.
    pub total_bond_amount: u64,
    /// Bonded base asset per receipt token; recomputed, never set directly.
    pub exchange_rate: Rate,
    /// Block time at which the last batch was closed.
    pub last_unbonded_time: u64,
    /// Vault balance recorded at the end of the previous reconciliation.
    pub prev_vault_balance: u64,
    /// Per-reconciliation accumulator of observed balance drift; zero at rest.
    pub actual_unbonded_amount: i128,
    /// Highest batch id already released; only ever increases.
    pub last_processed_batch: u64,
    /// Address of the bonded-asset token contract.
    pub bluna_address: String,
    /// Address of the shared address registry.
    pub memory_address: String,
    /// Contracts allowed to borrow without a fee.
    pub whitelisted_contracts: Vec<String>,
    /// Whether contracts outside the whitelist may borrow at all.
    pub allow_non_whitelisted: bool,
}

impl VaultState {
    pub open spec fn wf(self) -> bool {
        &&& self.exchange_rate.wf()
        &&& -(u64::MAX as int) <= self.actual_unbonded_amount <= u64::MAX as int
        &&& self.whitelisted_contracts@.len() <= LIST_SIZE_LIMIT
    }
}

/// The one open unbonding batch.
#[derive(Clone, Copy, Debug, PartialEq, Eq, Structural)]
pub struct CurrentBatch {
    /// Monotonic batch counter.
    pub id: u64,
    /// Sum of pending unbond amounts, after the peg-recovery fee.
    pub requested_with_fee: u64,
}

/// A closed batch awaiting (or past) release.
#[derive(Clone, Copy, Debug, PartialEq, Eq, Structural)]
pub struct UnbondHistory {
    pub batch_id: u64,
    /// Block time at which the batch was closed.
    pub time: u64,
    /// Total receipt tokens burned in this batch.
    pub amount: u64,
    /// Exchange rate at the time the batch was closed.
    pub applied_exchange_rate: Rate,
    /// Provisional until the batch is released, final afterwards.
    pub withdraw_rate: Rate,
    pub released: bool,
}

impl UnbondHistory {
    pub open spec fn wf(self) -> bool {
        &&& self.applied_exchange_rate.wf()
        &&& self.withdraw_rate.wf()
    }
}

/// An address appears in a list of addresses.
pub open spec fn contains_addr(list: Seq<String>, addr: Seq<char>) -> bool {
    exists|i: int| 0 <= i < list.len() && list[i]@ == addr
}

/// Exact membership test for an address list.
pub fn is_listed(list: &Vec<String>, addr: &String) -> (r: bool)
    ensures
        r == contains_addr(list@, addr@),
{
    let n: usize = list.len();
    let mut i: usize = 0;
    while i < n
        invariant
            i <= n,
            n == list@.len(),
            forall|j: int| 0 <= j < i ==> list@[j]@ != addr@,
        decreases n - i,
    {
        if list[i] == *addr {
            return true;
        }
        i = i + 1;
    }
    false
}

/// Batch ids are dense and one-based: the record for batch `i + 1` sits at
/// index `i`, and every stored rate is well formed.
pub open spec fn histories_wf(histories: Seq<UnbondHistory>) -> bool {
    forall|i: int|
        0 <= i < histories.len() ==> (#[trigger] histories[i]).batch_id == i + 1
            && histories[i].wf()
}

/// The open batch continues the stored history: its id is the next unused
/// one.
pub open spec fn batch_records_wf(batch: CurrentBatch, histories: Seq<UnbondHistory>) -> bool {
    &&& histories_wf(histories)
    &&& batch.id == histories.len() + 1
}

/// One user's pending claim within one batch.
pub struct UnbondWaitEntry {
    pub batch_id: u64,
    pub user: String,
    pub amount: u64,
}

/// Snapshot taken before a flash loan; `last_balance != 0` marks a loan in
/// flight and blocks deposits, unbonds and further loans.
#[derive(Clone, Copy, Debug, PartialEq, Eq, Structural)]
pub struct ProfitCheckpoint {
    pub last_balance: u64,
    pub last_profit: u64,
}

/// Static pool configuration.
pub struct PoolInfo {
    /// Address of the receipt-token contract.
    pub liquidity_token: String,
    /// Base asset retained passively beyond this amount may be swept.
    pub luna_cap: u64,
}

/// Epoch and fee parameters.
pub struct Parameters {
    /// Seconds between batch closures.
    pub epoch_period: u64,
    /// Seconds a closed batch waits before it may be released.
    pub unbonding_period: u64,
    /// Denomination of the base asset.
    pub underlying_coin_denom: String,
    /// Fee levied on mint and unbond while the rate is below the threshold.
    pub peg_recovery_fee: Rate,
    /// Exchange-rate threshold under which the peg-recovery fee applies.
    pub er_threshold: Rate,
}

impl Parameters {
    pub open spec fn wf(self) -> bool {
        &&& self.peg_recovery_fee.wf()
        &&& self.peg_recovery_fee.num <= self.peg_recovery_fee.den
        &&& self.er_threshold.wf()
    }
}

/// Fee configuration; every share is at most one.
pub struct FeeConfig {
    pub flash_loan_fee: Rate,
    pub treasury_fee: Rate,
    pub commission_fee: Rate,
    pub treasury_addr: String,
}

impl FeeConfig {
    pub open spec fn wf(self) -> bool {
        &&& self.flash_loan_fee.wf() && self.flash_loan_fee.num <= self.flash_loan_fee.den
        &&& self.treasury_fee.wf() && self.treasury_fee.num <= self.treasury_fee.den
        &&& self.commission_fee.wf() && self.commission_fee.num <= self.commission_fee.den
    }
}

} // verus!
