use vstd::prelude::*;
use vstd::string::to_string_from_display_ensures;

use crate::coin::{
    clamp_to_limits, clamped, holding, meets_minimal_donation, meets_threshold, scale_coins,
    scaled_coins, scaling_fits, Coin,
};
use crate::error::{is_not_found, ContractError};
use crate::msg::ExecMsg;
use crate::response::{attr_is, Attribute, CosmosMsg, Response};
use crate::state::{State, Store, PARENT_DONATION_KEY, STATE_KEY};

verus! {

/// `a` is the attribute `counter` holding the decimal text of `counter`.
pub open spec fn counter_attr(a: Attribute, counter: u64) -> bool {
    a.key@ == "counter"@ && to_string_from_display_ensures::<u64>(&counter, a.value)
}

/// The outcome shared by every owner-only call: it fails where the store
/// holds no state, and with `Unauthorized` where `sender` is not the owner;
/// a failure changes nothing.
pub open spec fn owner_gate(
    pre: Store,
    post: Store,
    sender: Seq<char>,
    r: Result<Response, ContractError>,
) -> bool {
    match pre.state {
        None => r is Err && is_not_found(r->Err_0, STATE_KEY@) && post == pre,
        Some(s) => sender != s.owner@ ==> r == Err::<Response, ContractError>(
            ContractError::Unauthorized { owner: s.owner },
        ) && post == pre,
    }
}

/// `reset`: the owner sets the counter to `counter`.
pub open spec fn reset_spec(
    pre: Store,
    post: Store,
    sender: Seq<char>,
    counter: u64,
    r: Result<Response, ContractError>,
) -> bool {
    &&& owner_gate(pre, post, sender, r)
    &&& match pre.state {
        Some(s) => sender == s.owner@ ==> {
            &&& r is Ok
            &&& post == (Store { state: Some(State { counter, ..s }), ..pre })
            &&& r->Ok_0.messages@.len() == 0
            &&& r->Ok_0.attributes@.len() == 3
            &&& attr_is(r->Ok_0.attributes@[0], "action"@, "reset"@)
            &&& attr_is(r->Ok_0.attributes@[1], "sender"@, sender)
            &&& counter_attr(r->Ok_0.attributes@[2], counter)
        },
        None => true,
    }
}

/// Loads the state and checks that `sender` owns the contract.
fn load_owned_state(store: &Store, sender: &String) -> (r: Result<State, ContractError>)
    ensures
        match store.state {
            None => r is Err && is_not_found(r->Err_0, STATE_KEY@),
            Some(s) => if sender@ == s.owner@ {
                r == Ok::<State, ContractError>(s)
            } else {
                r == Err::<State, ContractError>(ContractError::Unauthorized { owner: s.owner })
            },
        },
{
    let state = store.load_state()?;
    if *sender != state.owner {
        return Err(ContractError::Unauthorized { owner: state.owner });
    }
    Ok(state)
}

/// Sets the counter to `counter`; only the owner may.
pub fn reset(store: &mut Store, sender: &String, counter: u64) -> (r: Result<
    Response,
    ContractError,
>)
    ensures
        reset_spec(*old(store), *final(store), sender@, counter, r),
{
    let mut state = load_owned_state(store, sender)?;
    state.counter = counter;
    store.save_state(state);
    let mut resp = Response::new();
    resp.add_attribute("action", String::from_str("reset"));
    resp.add_attribute("sender", sender.clone());
    resp.add_attribute("counter", counter.to_string());
    Ok(resp)
}

/// `withdraw`: the owner takes the contract's whole `balance`; the store is
/// not changed.
pub open spec fn withdraw_spec(
    pre: Store,
    post: Store,
    sender: Seq<char>,
    balance: Seq<Coin>,
    r: Result<Response, ContractError>,
) -> bool {
    &&& owner_gate(pre, post, sender, r)
    &&& match pre.state {
        Some(s) => sender == s.owner@ ==> {
            &&& r is Ok
            &&& post == pre
            &&& r->Ok_0.messages@.len() == 1
            &&& r->Ok_0.messages@[0] matches CosmosMsg::BankSend { to_address, amount }
                && to_address == s.owner && amount@ == balance
            &&& r->Ok_0.attributes@.len() == 2
            &&& attr_is(r->Ok_0.attributes@[0], "action"@, "withdraw"@)
            &&& attr_is(r->Ok_0.attributes@[1], "sender"@, sender)
        },
        None => true,
    }
}

/// Sends the contract's whole `balance` to the owner; only the owner may.
pub fn withdraw(store: &Store, sender: &String, balance: Vec<Coin>) -> (r: Result<
    Response,
    ContractError,
>)
    ensures
        withdraw_spec(*store, *store, sender@, balance@, r),
{
    let state = load_owned_state(store, sender)?;
    let mut resp = Response::new();
    resp.add_message(CosmosMsg::BankSend { to_address: state.owner, amount: balance });
    resp.add_attribute("action", String::from_str("withdraw"));
    resp.add_attribute("sender", sender.clone());
    Ok(resp)
}

/// `withdraw_to`: the owner sends `balance`, capped coin by coin by `limits`,
/// to `receiver`; the store is not changed. A denomination that `limits` does
/// not name is sent as zero, so empty `limits` send zero of everything.
pub open spec fn withdraw_to_spec(
    pre: Store,
    post: Store,
    sender: Seq<char>,
    receiver: String,
    limits: Seq<Coin>,
    balance: Seq<Coin>,
    r: Result<Response, ContractError>,
) -> bool {
    &&& owner_gate(pre, post, sender, r)
    &&& match pre.state {
        Some(s) => sender == s.owner@ ==> {
            &&& r is Ok
            &&& post == pre
            &&& r->Ok_0.messages@.len() == 1
            &&& r->Ok_0.messages@[0] matches CosmosMsg::BankSend { to_address, amount }
                && to_address == receiver && clamped(balance, limits, amount@)
            &&& r->Ok_0.attributes@.len() == 2
            &&& attr_is(r->Ok_0.attributes@[0], "action"@, "withdraw"@)
            &&& attr_is(r->Ok_0.attributes@[1], "sender"@, sender)
        },
        None => true,
    }
}

/// Sends `balance`, capped by `funds`, to `receiver`; only the owner may.
pub fn withdraw_to(
    store: &Store,
    sender: &String,
    receiver: String,
    funds: Vec<Coin>,
    balance: &Vec<Coin>,
) -> (r: Result<Response, ContractError>)
    ensures
        withdraw_to_spec(*store, *store, sender@, receiver, funds@, balance@, r),
{
    let _state = load_owned_state(store, sender)?;
    let amount = clamp_to_limits(balance, &funds);
    let mut resp = Response::new();
    resp.add_message(CosmosMsg::BankSend { to_address: receiver, amount });
    resp.add_attribute("action", String::from_str("withdraw"));
    resp.add_attribute("sender", sender.clone());
    Ok(resp)
}

/// `s` after a counted donation: the counter advances by one and a
/// countdown, where there is one, goes down by one.
pub open spec fn donated(s: State) -> State {
    State {
        counter: (s.counter + 1) as u64,
        donating_parent: match s.donating_parent {
            Some(n) => Some((n - 1) as u64),
            None => None,
        },
        ..s
    }
}

/// A counted donation from `s` ends the countdown, and part of the balance
/// goes to the parent. The countdown is not restarted: it stays at zero.
pub open spec fn forwards(s: State) -> bool {
    s.donating_parent == Some(1u64)
}

/// The inputs on which `donate` is defined: a counted donation neither
/// overflows the counter nor decrements a countdown that is already at zero,
/// and a forwarding can scale every coin of the balance.
pub open spec fn donate_defined(pre: Store, funds: Seq<Coin>, balance: Seq<Coin>) -> bool {
    match pre.state {
        Some(s) => meets_threshold(s.minimal_donation, funds) ==> {
            &&& s.counter < u64::MAX
            &&& s.donating_parent != Some(0u64)
            &&& forwards(s) ==> match pre.parent_donation {
                Some(p) => scaling_fits(balance, p.part),
                None => true,
            }
        },
        None => true,
    }
}

/// From index `k` on, `attrs` are `action` = `donate`, the sender and the
/// counter, and nothing more.
pub open spec fn donate_attrs(attrs: Seq<Attribute>, k: int, sender: Seq<char>, counter: u64) -> bool {
    &&& attrs.len() == k + 3
    &&& attr_is(attrs[k], "action"@, "donate"@)
    &&& attr_is(attrs[k + 1], "sender"@, sender)
    &&& counter_attr(attrs[k + 2], counter)
}

/// `donate`: funds that meet the minimal donation advance the counter and
/// the countdown; the call that ends the countdown forwards each coin of
/// `balance`, scaled by the parent's part, to the parent. Funds that do not
/// meet it change nothing.
pub open spec fn donate_spec(
    pre: Store,
    post: Store,
    sender: Seq<char>,
    funds: Seq<Coin>,
    balance: Seq<Coin>,
    r: Result<Response, ContractError>,
) -> bool {
    match pre.state {
        None => r is Err && is_not_found(r->Err_0, STATE_KEY@) && post == pre,
        Some(s) => if !meets_threshold(s.minimal_donation, funds) {
            &&& r is Ok
            &&& post == pre
            &&& r->Ok_0.messages@.len() == 0
            &&& donate_attrs(r->Ok_0.attributes@, 0, sender, s.counter)
        } else if !forwards(s) {
            &&& r is Ok
            &&& post == (Store { state: Some(donated(s)), ..pre })
            &&& r->Ok_0.messages@.len() == 0
            &&& donate_attrs(r->Ok_0.attributes@, 0, sender, donated(s).counter)
        } else {
            match pre.parent_donation {
                None => r is Err && is_not_found(r->Err_0, PARENT_DONATION_KEY@) && post == pre,
                Some(p) => {
                    &&& r is Ok
                    &&& post == (Store { state: Some(donated(s)), ..pre })
                    &&& r->Ok_0.messages@.len() == 1
                    &&& r->Ok_0.messages@[0] matches CosmosMsg::WasmExecute {
                        contract_addr,
                        msg,
                        funds: sent,
                    } && contract_addr == p.address && msg is Donate && scaled_coins(
                        balance,
                        p.part,
                        sent@,
                    )
                    &&& attr_is(r->Ok_0.attributes@[0], "donated_to_parent"@, p.address@)
                    &&& donate_attrs(r->Ok_0.attributes@, 1, sender, donated(s).counter)
                },
            }
        },
    }
}

/// Donates the attached `funds`; `balance` is the contract's balance, funds
/// included. Anyone may donate.
pub fn donate(store: &mut Store, sender: &String, funds: &Vec<Coin>, balance: &Vec<Coin>) -> (r:
    Result<Response, ContractError>)
    requires
        donate_defined(*old(store), funds@, balance@),
    ensures
        donate_spec(*old(store), *final(store), sender@, funds@, balance@, r),
{
    let mut state = store.load_state()?;
    let mut resp = Response::new();
    let counter = if meets_minimal_donation(&state.minimal_donation, funds) {
        state.counter = state.counter + 1;
        if let Some(n) = state.donating_parent {
            let left = n - 1;
            state.donating_parent = Some(left);
            if left == 0 {
                let parent_donation = store.load_parent_donation()?;
                let sent = scale_coins(balance, parent_donation.part);
                let address = parent_donation.address.clone();
                resp.add_message(
                    CosmosMsg::WasmExecute {
                        contract_addr: parent_donation.address,
                        msg: ExecMsg::Donate {  },
                        funds: sent,
                    },
                );
                resp.add_attribute("donated_to_parent", address);
            }
        }
        let counter = state.counter;
        store.save_state(state);
        counter
    } else {
        state.counter
    };
    resp.add_attribute("action", String::from_str("donate"));
    resp.add_attribute("sender", sender.clone());
    resp.add_attribute("counter", counter.to_string());
    Ok(resp)
}

/// Runs a state-changing request from `sender`, who attached `funds`;
/// `balance` is the contract's balance, attached funds included.
pub fn execute(
    store: &mut Store,
    sender: &String,
    funds: &Vec<Coin>,
    balance: Vec<Coin>,
    msg: ExecMsg,
) -> (r: Result<Response, ContractError>)
    requires
        msg is Donate ==> donate_defined(*old(store), funds@, balance@),
    ensures
        match msg {
            ExecMsg::Donate {  } => donate_spec(
                *old(store),
                *final(store),
                sender@,
                funds@,
                balance@,
                r,
            ),
            ExecMsg::Reset { counter } => reset_spec(*old(store), *final(store), sender@, counter, r),
            ExecMsg::Withdraw {  } => withdraw_spec(*old(store), *final(store), sender@, balance@, r),
            ExecMsg::WithdrawTo { receiver, funds: limits } => withdraw_to_spec(
                *old(store),
                *final(store),
                sender@,
                receiver,
                limits@,
                balance@,
                r,
            ),
        },
{
    match msg {
        ExecMsg::Donate {  } => donate(store, sender, funds, &balance),
        ExecMsg::Reset { counter } => reset(store, sender, counter),
        ExecMsg::Withdraw {  } => withdraw(store, sender, balance),
        ExecMsg::WithdrawTo { receiver, funds: limits } => withdraw_to(
            store,
            sender,
            receiver,
            limits,
            &balance,
        ),
    }
}

/// A successful donation advances the counter by one exactly when the
/// attached funds meet the minimal donation (a minimal amount of zero is met
/// by any funds), and leaves it as it was otherwise.
pub proof fn lemma_counter_advances_iff_threshold_met(
    pre: Store,
    post: Store,
    sender: Seq<char>,
    funds: Seq<Coin>,
    balance: Seq<Coin>,
    r: Result<Response, ContractError>,
)
    requires
        pre.state is Some,
        donate_defined(pre, funds, balance),
        donate_spec(pre, post, sender, funds, balance, r),
        r is Ok,
    ensures
        post.state is Some,
        post.state->0.counter == if meets_threshold(pre.state->0.minimal_donation, funds) {
            pre.state->0.counter + 1
        } else {
            pre.state->0.counter as int
        },
{
}

/// A caller other than the owner cannot reset, withdraw or withdraw to
/// another account: the call fails with `Unauthorized` naming the owner, the
/// store is unchanged and no transfer goes out.
pub proof fn lemma_only_owner_resets_or_withdraws(
    pre: Store,
    post: Store,
    sender: Seq<char>,
    counter: u64,
    receiver: String,
    limits: Seq<Coin>,
    balance: Seq<Coin>,
    r: Result<Response, ContractError>,
)
    requires
        pre.state is Some,
        sender != pre.state->0.owner@,
        reset_spec(pre, post, sender, counter, r) || withdraw_spec(pre, post, sender, balance, r)
            || withdraw_to_spec(pre, post, sender, receiver, limits, balance, r),
    ensures
        r == Err::<Response, ContractError>(
            ContractError::Unauthorized { owner: pre.state->0.owner },
        ),
        post == pre,
{
}

/// A withdrawal by the owner sends the owner the whole balance: every
/// denomination in full, so none of it stays with the contract.
pub proof fn lemma_withdraw_takes_everything(
    pre: Store,
    post: Store,
    sender: Seq<char>,
    balance: Seq<Coin>,
    r: Result<Response, ContractError>,
    denom: Seq<char>,
)
    requires
        pre.state is Some,
        sender == pre.state->0.owner@,
        withdraw_spec(pre, post, sender, balance, r),
    ensures
        r is Ok,
        post == pre,
        r->Ok_0.messages@.len() == 1,
        r->Ok_0.messages@[0] matches CosmosMsg::BankSend { to_address, amount } && to_address
            == pre.state->0.owner && holding(balance, denom) - holding(amount@, denom) == 0,
{
}

} // verus!
