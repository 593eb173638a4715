//! Message surface of the war chest, which manages a spend-limited grant
//! budget on behalf of governance.

use vstd::prelude::*;

verus! {

pub struct InstantiateMsg {
    /// The governance contract in control of the chest.
    pub gov_contract: String,
    /// The token the chest spends.
    pub whale_token: String,
    /// Spend limit per single spend request.
    pub spend_limit: u64,
}

pub enum ExecuteMsg {
    UpdateConfig { spend_limit: Option<u64> },
}

pub enum QueryMsg {
    GetConfig {},
}

pub struct ConfigResponse {
    pub gov_contract: String,
    pub whale_token: String,
    pub spend_limit: u64,
}

} // verus!
