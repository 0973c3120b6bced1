use vstd::prelude::*;

use crate::error::{is_not_found, not_found, ContractError};
use crate::msg::{InstantiateMsg, MigrateMsg};
use crate::response::{is_empty_response, Response};
use crate::state::{
    ContractVersion, ParentDonation, State, Store, COUNTER_KEY, MINIMAL_DONATION_KEY, OWNER_KEY,
    STATE_KEY,
};

verus! {

/// The name this contract records in its version marker.
pub const CONTRACT_NAME: &'static str = "counting-contract";

/// The version of the current storage layout.
pub const CONTRACT_VERSION: &'static str = "0.3.0";

/// The first layout: one record per field.
pub const VERSION_0_1_0: &'static str = "0.1.0";

/// The second layout: one composite record with no countdown.
pub const VERSION_0_2_0: &'static str = "0.2.0";

/// `v` is the marker of this contract at the current version.
pub open spec fn is_current_marker(v: Option<ContractVersion>) -> bool {
    v matches Some(m) && m.contract@ == CONTRACT_NAME@ && m.version@ == CONTRACT_VERSION@
}

/// The marker of this contract at the current version.
fn current_marker() -> (r: ContractVersion)
    ensures
        is_current_marker(Some(r)),
{
    ContractVersion {
        contract: String::from_str(CONTRACT_NAME),
        version: String::from_str(CONTRACT_VERSION),
    }
}

/// `instantiate`: the store holds the current marker, a state owned by
/// `sender` and, where a parent is given, its donation record.
pub open spec fn instantiate_spec(pre: Store, post: Store, sender: String, msg: InstantiateMsg)
    -> bool {
    &&& is_current_marker(post.contract_version)
    &&& post == (Store {
        contract_version: post.contract_version,
        state: Some(
            State {
                counter: msg.counter,
                minimal_donation: msg.minimal_donation,
                owner: sender,
                donating_parent: match msg.parent {
                    Some(p) => Some(p.donating_period),
                    None => None,
                },
            },
        ),
        parent_donation: match msg.parent {
            Some(p) => Some(
                ParentDonation {
                    address: p.addr,
                    donating_parent_period: p.donating_period,
                    part: p.part,
                },
            ),
            None => pre.parent_donation,
        },
        ..pre
    })
}

/// Sets up a new instance, owned by `sender`.
pub fn instantiate(store: &mut Store, sender: &String, msg: InstantiateMsg) -> (r: Response)
    ensures
        instantiate_spec(*old(store), *final(store), *sender, msg),
        is_empty_response(r),
{
    store.contract_version = Some(current_marker());
    let InstantiateMsg { counter, minimal_donation, parent } = msg;
    let donating_parent = match &parent {
        Some(p) => Some(p.donating_period),
        None => None,
    };
    store.save_state(State { counter, minimal_donation, owner: sender.clone(), donating_parent });
    if let Some(p) = parent {
        store.parent_donation = Some(
            ParentDonation {
                address: p.addr,
                donating_parent_period: p.donating_period,
                part: p.part,
            },
        );
    }
    Response::new()
}

/// The upgrade a store needs, as its version marker tells.
#[derive(Debug, PartialEq, Eq, Structural)]
pub enum MigrationStep {
    /// Already at the current layout.
    UpToDate,
    /// From the 0.1.0 layout.
    From010,
    /// From the 0.2.0 layout.
    From020,
}

/// The upgrade for `marker`. A store with no marker predates markers and is
/// taken for the 0.1.0 layout. A marker of another contract, or of a version
/// that is neither current nor a known predecessor, is refused.
pub open spec fn migration_step(marker: Option<ContractVersion>) -> Result<
    MigrationStep,
    ContractError,
> {
    match marker {
        None => Ok(MigrationStep::From010),
        Some(m) => if m.contract@ != CONTRACT_NAME@ {
            Err(ContractError::InvalidContract { contract: m.contract })
        } else if m.version@ == CONTRACT_VERSION@ {
            Ok(MigrationStep::UpToDate)
        } else if m.version@ == VERSION_0_1_0@ {
            Ok(MigrationStep::From010)
        } else if m.version@ == VERSION_0_2_0@ {
            Ok(MigrationStep::From020)
        } else {
            Err(ContractError::InvalidContractVersion { version: m.version })
        },
    }
}

/// Picks the upgrade for `marker`.
pub fn plan_migration(marker: &Option<ContractVersion>) -> (r: Result<MigrationStep, ContractError>)
    ensures
        r == migration_step(*marker),
{
    match marker {
        None => Ok(MigrationStep::From010),
        Some(m) => {
            if m.contract != String::from_str(CONTRACT_NAME) {
                Err(ContractError::InvalidContract { contract: m.contract.clone() })
            } else if m.version == String::from_str(CONTRACT_VERSION) {
                Ok(MigrationStep::UpToDate)
            } else if m.version == String::from_str(VERSION_0_1_0) {
                Ok(MigrationStep::From010)
            } else if m.version == String::from_str(VERSION_0_2_0) {
                Ok(MigrationStep::From020)
            } else {
                Err(ContractError::InvalidContractVersion { version: m.version.clone() })
            }
        },
    }
}

/// The current state assembled from the three records of the 0.1.0 layout,
/// where all three are there.
pub open spec fn state_from_0_1_0(pre: Store) -> Option<State> {
    match (pre.counter, pre.minimal_donation, pre.owner) {
        (Some(counter), Some(minimal_donation), Some(owner)) => Some(
            State { counter, minimal_donation, owner, donating_parent: None },
        ),
        _ => None,
    }
}

/// The key of the first 0.1.0 record, in reading order, that is missing.
pub open spec fn first_missing_0_1_0(pre: Store) -> Seq<char> {
    if pre.counter is None {
        COUNTER_KEY@
    } else if pre.minimal_donation is None {
        MINIMAL_DONATION_KEY@
    } else {
        OWNER_KEY@
    }
}

/// The current state made from the 0.2.0 composite record, where it is there.
pub open spec fn state_from_0_2_0(pre: Store) -> Option<State> {
    match pre.old_state {
        Some(o) => Some(
            State {
                counter: o.counter,
                minimal_donation: o.minimal_donation,
                owner: o.owner,
                donating_parent: None,
            },
        ),
        None => None,
    }
}

/// One upgrade step: where `upgraded` is a state, it is written under the
/// current key; where it is not, the read of the record under `missing`
/// failed and nothing changes.
pub open spec fn upgrade_spec(
    pre: Store,
    post: Store,
    upgraded: Option<State>,
    missing: Seq<char>,
    r: Result<Response, ContractError>,
) -> bool {
    match upgraded {
        Some(s) => r is Ok && is_empty_response(r->Ok_0) && post == (Store {
            state: Some(s),
            ..pre
        }),
        None => r is Err && is_not_found(r->Err_0, missing) && post == pre,
    }
}

/// Rewrites the three records of the 0.1.0 layout as the current state, with
/// no countdown.
pub fn migrate_0_1_0(store: &mut Store) -> (r: Result<Response, ContractError>)
    ensures
        upgrade_spec(
            *old(store),
            *final(store),
            state_from_0_1_0(*old(store)),
            first_missing_0_1_0(*old(store)),
            r,
        ),
{
    let counter = match store.counter {
        Some(c) => c,
        None => return Err(not_found(COUNTER_KEY)),
    };
    let minimal_donation = match &store.minimal_donation {
        Some(m) => m.duplicate(),
        None => return Err(not_found(MINIMAL_DONATION_KEY)),
    };
    let owner = match &store.owner {
        Some(o) => o.clone(),
        None => return Err(not_found(OWNER_KEY)),
    };
    store.save_state(State { counter, minimal_donation, owner, donating_parent: None });
    Ok(Response::new())
}

/// Rewrites the composite record of the 0.2.0 layout as the current state,
/// with no countdown.
pub fn migrate_0_2_0(store: &mut Store) -> (r: Result<Response, ContractError>)
    ensures
        upgrade_spec(*old(store), *final(store), state_from_0_2_0(*old(store)), STATE_KEY@, r),
{
    let old_state = match &store.old_state {
        Some(o) => State {
            counter: o.counter,
            minimal_donation: o.minimal_donation.duplicate(),
            owner: o.owner.clone(),
            donating_parent: None,
        },
        None => return Err(not_found(STATE_KEY)),
    };
    store.save_state(old_state);
    Ok(Response::new())
}

/// `migrate`: the step that the marker selects; after a successful upgrade
/// the marker is the current one. Any failure changes nothing.
pub open spec fn migrate_spec(pre: Store, post: Store, r: Result<Response, ContractError>) -> bool {
    match migration_step(pre.contract_version) {
        Err(e) => r == Err::<Response, ContractError>(e) && post == pre,
        Ok(MigrationStep::UpToDate) => r is Ok && is_empty_response(r->Ok_0) && post == pre,
        Ok(MigrationStep::From010) => upgrade_spec(
            pre,
            Store { contract_version: pre.contract_version, ..post },
            state_from_0_1_0(pre),
            first_missing_0_1_0(pre),
            r,
        ) && (r is Ok ==> is_current_marker(post.contract_version)),
        Ok(MigrationStep::From020) => upgrade_spec(
            pre,
            Store { contract_version: pre.contract_version, ..post },
            state_from_0_2_0(pre),
            STATE_KEY@,
            r,
        ) && (r is Ok ==> is_current_marker(post.contract_version)),
    }
}

/// Brings the store from the layout its marker names to the current one.
/// The message's `parent` is not used.
pub fn migrate(store: &mut Store, msg: MigrateMsg) -> (r: Result<Response, ContractError>)
    ensures
        migrate_spec(*old(store), *final(store), r),
{
    let _ = msg;
    let resp = match plan_migration(&store.contract_version)? {
        MigrationStep::UpToDate => return Ok(Response::new()),
        MigrationStep::From010 => migrate_0_1_0(store)?,
        MigrationStep::From020 => migrate_0_2_0(store)?,
    };
    store.contract_version = Some(current_marker());
    Ok(resp)
}

/// Migrating a store that is already at the current version succeeds and
/// changes nothing.
pub proof fn lemma_migrate_current_is_noop(pre: Store, post: Store, r: Result<Response, ContractError>)
    requires
        is_current_marker(pre.contract_version),
        migrate_spec(pre, post, r),
    ensures
        r is Ok,
        is_empty_response(r->Ok_0),
        post == pre,
{
}

/// After a successful migration, migrating again succeeds and changes
/// nothing.
pub proof fn lemma_migrate_twice_is_migrate_once(
    pre: Store,
    mid: Store,
    post: Store,
    r1: Result<Response, ContractError>,
    r2: Result<Response, ContractError>,
)
    requires
        migrate_spec(pre, mid, r1),
        r1 is Ok,
        migrate_spec(mid, post, r2),
    ensures
        r2 is Ok,
        post == mid,
{
    assert(is_current_marker(mid.contract_version));
    lemma_migrate_current_is_noop(mid, post, r2);
}

/// A marker that names another contract fails with `InvalidContract`; a
/// marker of this contract at a version that is neither current nor a known
/// predecessor fails with `InvalidContractVersion`. Neither changes the
/// store.
pub proof fn lemma_migrate_rejects_unknown_markers(
    pre: Store,
    post: Store,
    r: Result<Response, ContractError>,
)
    requires
        pre.contract_version is Some,
        migrate_spec(pre, post, r),
    ensures
        ({
            let m = pre.contract_version->0;
            &&& m.contract@ != CONTRACT_NAME@ ==> r == Err::<Response, ContractError>(
                ContractError::InvalidContract { contract: m.contract },
            ) && post == pre
            &&& m.contract@ == CONTRACT_NAME@ && m.version@ != CONTRACT_VERSION@ && m.version@
                != VERSION_0_1_0@ && m.version@ != VERSION_0_2_0@ ==> r == Err::<
                Response,
                ContractError,
            >(ContractError::InvalidContractVersion { version: m.version }) && post == pre
        }),
{
}

} // verus!
