//! A counting contract: a counter advanced by donations that meet a minimum,
//! owner-gated reset and withdrawal, periodic forwarding of part of the
//! balance to a parent contract, and a migration cascade over the three
//! storage layouts the contract has used.
//!
//! The library is the contract's logic over plain values. The host runtime
//! (storage, bank, message dispatch) stays outside: it hands the library a
//! snapshot of the stored records and the contract's balance, and applies the
//! returned records and outbound messages only when a call succeeds.

pub mod coin;
pub mod contract;
pub mod error;
pub mod exec;
pub mod msg;
pub mod query;
pub mod response;
pub mod state;

pub use coin::Coin;
pub use contract::{instantiate, migrate, migrate_0_1_0, migrate_0_2_0, MigrationStep};
pub use error::ContractError;
pub use exec::{donate, execute, reset, withdraw, withdraw_to};
pub use msg::{ExecMsg, InstantiateMsg, MigrateMsg, Parent, QueryMsg, ValueResp};
pub use query::{query, value};
pub use response::{Attribute, CosmosMsg, Response};
pub use state::{ContractVersion, OldState, ParentDonation, State, Store};
