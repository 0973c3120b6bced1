use vstd::prelude::*;

verus! {

/// Why a call to the contract failed. A failed call changes nothing: the
/// store is left as it was and no message goes out.
#[derive(Debug)]
pub enum ContractError {
    /// A record that the call needs is not in the store; `kind` is its key.
    NotFound { kind: String },
    /// The caller is not the owner; carries the owner for diagnostics.
    Unauthorized { owner: String },
    /// The version marker names another contract.
    InvalidContract { contract: String },
    /// The version marker names a version this contract cannot migrate from.
    InvalidContractVersion { version: String },
}

impl PartialEq for ContractError {
    fn eq(&self, o: &ContractError) -> (r: bool) {
        match (self, o) {
            (ContractError::NotFound { kind: a }, ContractError::NotFound { kind: b }) => *a == *b,
            (ContractError::Unauthorized { owner: a }, ContractError::Unauthorized { owner: b }) => *a
                == *b,
            (
                ContractError::InvalidContract { contract: a },
                ContractError::InvalidContract { contract: b },
            ) => *a == *b,
            (
                ContractError::InvalidContractVersion { version: a },
                ContractError::InvalidContractVersion { version: b },
            ) => *a == *b,
            _ => false,
        }
    }
}

impl vstd::std_specs::cmp::PartialEqSpecImpl for ContractError {
    open spec fn obeys_eq_spec() -> bool {
        true
    }

    open spec fn eq_spec(&self, o: &ContractError) -> bool {
        match (*self, *o) {
            (ContractError::NotFound { kind: a }, ContractError::NotFound { kind: b }) => a@ == b@,
            (ContractError::Unauthorized { owner: a }, ContractError::Unauthorized { owner: b }) => a@
                == b@,
            (
                ContractError::InvalidContract { contract: a },
                ContractError::InvalidContract { contract: b },
            ) => a@ == b@,
            (
                ContractError::InvalidContractVersion { version: a },
                ContractError::InvalidContractVersion { version: b },
            ) => a@ == b@,
            _ => false,
        }
    }
}

/// `e` reports that the record stored under `key` is missing.
pub open spec fn is_not_found(e: ContractError, key: Seq<char>) -> bool {
    e matches ContractError::NotFound { kind } && kind@ == key
}

/// The error for a missing record stored under `key`.
pub fn not_found(key: &str) -> (e: ContractError)
    ensures
        is_not_found(e, key@),
{
    ContractError::NotFound { kind: String::from_str(key) }
}

} // verus!
