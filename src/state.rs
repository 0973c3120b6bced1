use vstd::prelude::*;

use crate::coin::Coin;
use crate::error::{is_not_found, not_found, ContractError};

verus! {

/// Key of the counter in the 0.1.0 layout.
pub const COUNTER_KEY: &'static str = "counter";

/// Key of the minimal donation in the 0.1.0 layout.
pub const MINIMAL_DONATION_KEY: &'static str = "minimal_donation";

/// Key of the owner in the 0.1.0 layout.
pub const OWNER_KEY: &'static str = "owner";

/// Key of the composite state record, in the 0.2.0 layout and the current one.
pub const STATE_KEY: &'static str = "state";

/// Key of the parent donation record.
pub const PARENT_DONATION_KEY: &'static str = "parent_donation";

/// The contract's state in the current layout.
#[derive(Debug)]
pub struct State {
    pub counter: u64,
    pub minimal_donation: Coin,
    pub owner: String,
    /// Counted donations left before the next forwarding to the parent;
    /// `None` where no parent is configured.
    pub donating_parent: Option<u64>,
}

/// The composite state record of the 0.2.0 layout.
#[derive(Debug)]
pub struct OldState {
    pub counter: u64,
    pub minimal_donation: Coin,
    pub owner: String,
}

/// Where and how much of the balance is forwarded.
#[derive(Debug)]
pub struct ParentDonation {
    pub address: String,
    pub donating_parent_period: u64,
    /// The fraction forwarded, in units of `1 / DECIMAL_FRACTIONAL`.
    pub part: u128,
}

/// The version marker: which contract and which version wrote the store.
#[derive(Debug)]
pub struct ContractVersion {
    pub contract: String,
    pub version: String,
}

/// The contract's stored records, one field per key. Fields of older layouts
/// stay where a migration has read them.
#[derive(Debug)]
pub struct Store {
    pub contract_version: Option<ContractVersion>,
    /// `COUNTER_KEY`, 0.1.0 layout.
    pub counter: Option<u64>,
    /// `MINIMAL_DONATION_KEY`, 0.1.0 layout.
    pub minimal_donation: Option<Coin>,
    /// `OWNER_KEY`, 0.1.0 layout.
    pub owner: Option<String>,
    /// `STATE_KEY` read in its 0.2.0 shape.
    pub old_state: Option<OldState>,
    /// `STATE_KEY` in the current shape.
    pub state: Option<State>,
    /// `PARENT_DONATION_KEY`.
    pub parent_donation: Option<ParentDonation>,
}

impl PartialEq for State {
    fn eq(&self, o: &State) -> (r: bool) {
        self.counter == o.counter && self.minimal_donation == o.minimal_donation && self.owner
            == o.owner && self.donating_parent == o.donating_parent
    }
}

impl vstd::std_specs::cmp::PartialEqSpecImpl for State {
    open spec fn obeys_eq_spec() -> bool {
        true
    }

    open spec fn eq_spec(&self, o: &State) -> bool {
        &&& self.counter == o.counter
        &&& self.minimal_donation.amount == o.minimal_donation.amount
        &&& self.minimal_donation.denom@ == o.minimal_donation.denom@
        &&& self.owner@ == o.owner@
        &&& self.donating_parent == o.donating_parent
    }
}

impl State {
    /// A copy of this state.
    pub fn duplicate(&self) -> (r: State)
        ensures
            r == *self,
    {
        State {
            counter: self.counter,
            minimal_donation: self.minimal_donation.duplicate(),
            owner: self.owner.clone(),
            donating_parent: self.donating_parent,
        }
    }
}

impl ParentDonation {
    /// A copy of this record.
    pub fn duplicate(&self) -> (r: ParentDonation)
        ensures
            r == *self,
    {
        ParentDonation {
            address: self.address.clone(),
            donating_parent_period: self.donating_parent_period,
            part: self.part,
        }
    }
}

impl Store {
    /// A store that holds no record: a contract not yet instantiated.
    pub fn new() -> (r: Store)
        ensures
            r.contract_version is None,
            r.counter is None,
            r.minimal_donation is None,
            r.owner is None,
            r.old_state is None,
            r.state is None,
            r.parent_donation is None,
    {
        Store {
            contract_version: None,
            counter: None,
            minimal_donation: None,
            owner: None,
            old_state: None,
            state: None,
            parent_donation: None,
        }
    }

    /// Loads the current state; fails where the contract was never
    /// instantiated.
    pub fn load_state(&self) -> (r: Result<State, ContractError>)
        ensures
            match self.state {
                Some(s) => r == Ok::<State, ContractError>(s),
                None => r is Err && is_not_found(r->Err_0, STATE_KEY@),
            },
    {
        match &self.state {
            Some(s) => Ok(s.duplicate()),
            None => Err(not_found(STATE_KEY)),
        }
    }

    /// Overwrites the current state.
    pub fn save_state(&mut self, s: State)
        ensures
            *final(self) == (Store { state: Some(s), ..*old(self) }),
    {
        self.state = Some(s);
    }

    /// Loads the parent donation record.
    pub fn load_parent_donation(&self) -> (r: Result<ParentDonation, ContractError>)
        ensures
            match self.parent_donation {
                Some(p) => r == Ok::<ParentDonation, ContractError>(p),
                None => r is Err && is_not_found(r->Err_0, PARENT_DONATION_KEY@),
            },
    {
        match &self.parent_donation {
            Some(p) => Ok(p.duplicate()),
            None => Err(not_found(PARENT_DONATION_KEY)),
        }
    }
}

} // verus!
