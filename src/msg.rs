use vstd::prelude::*;

use crate::coin::Coin;

verus! {

/// Read-only requests.
#[derive(Debug, PartialEq, Eq, Structural)]
pub enum QueryMsg {
    /// The current counter.
    Value {},
}

/// State-changing requests.
#[derive(Debug)]
pub enum ExecMsg {
    /// Donate the attached funds; counts where they meet the minimal donation.
    Donate {},
    /// Set the counter to `counter` (owner only).
    Reset { counter: u64 },
    /// Send the whole balance to the owner (owner only).
    Withdraw {},
    /// Send the balance, capped by `funds`, to `receiver` (owner only).
    WithdrawTo { receiver: String, funds: Vec<Coin> },
}

/// A parent contract that receives part of the balance every
/// `donating_period` counted donations.
#[derive(Debug)]
pub struct Parent {
    /// The parent's address, already validated by the host.
    pub addr: String,
    pub donating_period: u64,
    /// The fraction of each denomination forwarded, in units of
    /// `1 / DECIMAL_FRACTIONAL`.
    pub part: u128,
}

/// The parameters of a new contract instance.
#[derive(Debug)]
pub struct InstantiateMsg {
    pub counter: u64,
    pub minimal_donation: Coin,
    pub parent: Option<Parent>,
}

/// The parameters of a migration; `parent` is accepted and not used.
#[derive(Debug)]
pub struct MigrateMsg {
    pub parent: Option<Parent>,
}

/// The answer to `QueryMsg::Value`.
#[derive(Debug, PartialEq, Eq, Structural)]
pub struct ValueResp {
    pub value: u64,
}

} // verus!
