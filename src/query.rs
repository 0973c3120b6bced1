use vstd::prelude::*;

use crate::error::{is_not_found, ContractError};
use crate::msg::{QueryMsg, ValueResp};
use crate::state::{Store, STATE_KEY};

verus! {

/// The answer to a value query on `store`.
pub open spec fn value_spec(store: Store, r: Result<ValueResp, ContractError>) -> bool {
    match store.state {
        Some(s) => r == Ok::<ValueResp, ContractError>(ValueResp { value: s.counter }),
        None => r is Err && is_not_found(r->Err_0, STATE_KEY@),
    }
}

/// The current counter.
pub fn value(store: &Store) -> (r: Result<ValueResp, ContractError>)
    ensures
        value_spec(*store, r),
{
    let state = store.load_state()?;
    Ok(ValueResp { value: state.counter })
}

/// Answers a read-only request.
pub fn query(store: &Store, msg: QueryMsg) -> (r: Result<ValueResp, ContractError>)
    ensures
        match msg {
            QueryMsg::Value {  } => value_spec(*store, r),
        },
{
    match msg {
        QueryMsg::Value {  } => value(store),
    }
}

} // verus!
