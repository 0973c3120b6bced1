use vstd::prelude::*;

use crate::coin::Coin;
use crate::msg::ExecMsg;

verus! {

/// A key-value pair that the host records with a successful call.
#[derive(Debug)]
pub struct Attribute {
    pub key: String,
    pub value: String,
}

/// An outbound instruction that the host carries out after a successful call.
#[derive(Debug)]
pub enum CosmosMsg {
    /// Move `amount` from this contract to `to_address`.
    BankSend { to_address: String, amount: Vec<Coin> },
    /// Call the contract at `contract_addr` with `msg`, attaching `funds`.
    WasmExecute { contract_addr: String, msg: ExecMsg, funds: Vec<Coin> },
}

/// What a successful call hands back to the host.
#[derive(Debug)]
pub struct Response {
    pub messages: Vec<CosmosMsg>,
    pub attributes: Vec<Attribute>,
}

/// `a` is the attribute `key` = `value`.
pub open spec fn attr_is(a: Attribute, key: Seq<char>, value: Seq<char>) -> bool {
    a.key@ == key && a.value@ == value
}

/// `r` carries no message and no attribute.
pub open spec fn is_empty_response(r: Response) -> bool {
    r.messages@.len() == 0 && r.attributes@.len() == 0
}

impl Response {
    /// A response with no message and no attribute.
    pub fn new() -> (r: Response)
        ensures
            is_empty_response(r),
    {
        Response { messages: Vec::new(), attributes: Vec::new() }
    }

    /// Appends an outbound message.
    pub fn add_message(&mut self, m: CosmosMsg)
        ensures
            final(self).messages@ == old(self).messages@.push(m),
            final(self).attributes@ == old(self).attributes@,
    {
        self.messages.push(m);
    }

    /// Appends the attribute `key` = `value`.
    pub fn add_attribute(&mut self, key: &str, value: String)
        ensures
            final(self).messages@ == old(self).messages@,
            final(self).attributes@.len() == old(self).attributes@.len() + 1,
            forall|i: int|
                0 <= i < old(self).attributes@.len() ==> final(self).attributes@[i]
                    == old(self).attributes@[i],
            final(self).attributes@[old(self).attributes@.len() as int].key@ == key@,
            final(self).attributes@[old(self).attributes@.len() as int].value == value,
    {
        self.attributes.push(Attribute { key: String::from_str(key), value });
    }
}

} // verus!
