use counting_contract::{
    execute, instantiate, migrate, query, value, Coin, ContractError, ContractVersion, CosmosMsg,
    ExecMsg, InstantiateMsg, MigrateMsg, OldState, QueryMsg, Response, State, Store, ValueResp,
};

const ATOM: &str = "atom";
const CONTRACT: &str = "contract";

fn coins(amount: u128, denom: &str) -> Vec<Coin> {
    vec![Coin::new(amount, denom)]
}

fn addr(s: &str) -> String {
    s.to_string()
}

/// A minimal host: one contract instance and a bank of balances.
struct Chain {
    store: Store,
    balances: Vec<(String, Vec<Coin>)>,
}

impl Chain {
    fn new(initial: Vec<(&str, Vec<Coin>)>) -> Chain {
        let balances = initial
            .into_iter()
            .map(|(a, c)| (a.to_string(), c))
            .collect();
        Chain { store: Store::new(), balances }
    }

    fn balance(&self, who: &str) -> Vec<Coin> {
        let mut out: Vec<Coin> = self
            .balances
            .iter()
            .filter(|(a, _)| a == who)
            .flat_map(|(_, c)| c.iter().cloned())
            .filter(|c| c.amount > 0)
            .collect();
        out.sort_by(|a, b| a.denom.cmp(&b.denom));
        out
    }

    fn credit(&mut self, who: &str, coin: &Coin) {
        match self.balances.iter_mut().find(|(a, _)| a == who) {
            Some((_, held)) => match held.iter_mut().find(|c| c.denom == coin.denom) {
                Some(c) => c.amount += coin.amount,
                None => held.push(coin.clone()),
            },
            None => self.balances.push((who.to_string(), vec![coin.clone()])),
        }
    }

    fn transfer(&mut self, from: &str, to: &str, amount: &[Coin]) -> Result<(), String> {
        for coin in amount {
            let held = self.balance(from);
            let have = held
                .iter()
                .find(|c| c.denom == coin.denom)
                .map(|c| c.amount)
                .unwrap_or(0);
            if have < coin.amount {
                return Err(format!("{} cannot send {} {}", from, coin.amount, coin.denom));
            }
        }
        for coin in amount {
            let (_, held) = self.balances.iter_mut().find(|(a, _)| a == from).unwrap();
            let c = held.iter_mut().find(|c| c.denom == coin.denom).unwrap();
            c.amount -= coin.amount;
            self.credit(to, coin);
        }
        Ok(())
    }

    fn instantiate(&mut self, owner: &str, counter: u64, minimal_donation: Coin) {
        let msg = InstantiateMsg { counter, minimal_donation, parent: None };
        instantiate(&mut self.store, &addr(owner), msg);
    }

    fn execute(&mut self, sender: &str, msg: ExecMsg, funds: &[Coin]) -> Result<Response, ContractError> {
        self.transfer(sender, CONTRACT, funds).unwrap();
        let balance = self.balance(CONTRACT);
        let funds = funds.to_vec();
        match execute(&mut self.store, &addr(sender), &funds, balance, msg) {
            Ok(resp) => {
                for m in &resp.messages {
                    if let CosmosMsg::BankSend { to_address, amount } = m {
                        self.transfer(CONTRACT, to_address, amount).unwrap();
                    }
                }
                Ok(resp)
            }
            Err(e) => {
                self.transfer(CONTRACT, sender, &funds).unwrap();
                Err(e)
            }
        }
    }

    fn value(&self) -> u64 {
        query(&self.store, QueryMsg::Value {}).unwrap().value
    }
}

#[test]
fn tests_query_value() {
    let mut chain = Chain::new(vec![]);
    chain.instantiate("sender", 10, Coin::new(10, ATOM));
    assert_eq!(chain.value(), 10);
}

#[test]
fn lib_query_value() {
    let mut chain = Chain::new(vec![]);
    chain.instantiate("sender", 10, Coin::new(10, ATOM));
    let resp = value(&chain.store).unwrap();
    assert_eq!(resp, ValueResp { value: 10 });
}

#[test]
fn donate_without_funds() {
    let mut chain = Chain::new(vec![]);
    chain.instantiate("sender", 0, Coin::new(10, ATOM));
    chain.execute("sender", ExecMsg::Donate {}, &[]).unwrap();
    assert_eq!(chain.value(), 0);
}

#[test]
fn donate() {
    let mut chain = Chain::new(vec![]);
    chain.instantiate("sender", 0, Coin::new(10, ATOM));
    chain.execute("sender", ExecMsg::Donate {}, &[]).unwrap();
    let resp = value(&chain.store).unwrap();
    assert_eq!(resp, ValueResp { value: 0 });
}

#[test]
fn tests_donate_with_funds() {
    let mut chain = Chain::new(vec![("sender", coins(10, ATOM))]);
    chain.instantiate("sender", 0, Coin::new(10, ATOM));
    chain.execute("sender", ExecMsg::Donate {}, &coins(10, ATOM)).unwrap();
    assert_eq!(chain.value(), 1);
    assert_eq!(chain.balance("sender"), vec![]);
    assert_eq!(chain.balance(CONTRACT), coins(10, ATOM));
}

#[test]
fn lib_donate_with_funds() {
    let mut chain = Chain::new(vec![("sender", coins(10, ATOM))]);
    chain.instantiate("sender", 0, Coin::new(10, ATOM));
    chain.execute("sender", ExecMsg::Donate {}, &coins(10, ATOM)).unwrap();
    let resp = value(&chain.store).unwrap();
    assert_eq!(resp, ValueResp { value: 1 });
    assert_eq!(chain.balance("sender"), vec![]);
    assert_eq!(chain.balance(CONTRACT), coins(10, ATOM));
}

#[test]
fn tests_donate_expecting_no_funds() {
    let mut chain = Chain::new(vec![]);
    chain.instantiate("sender", 0, Coin::new(0, ATOM));
    chain.execute("sender", ExecMsg::Donate {}, &[]).unwrap();
    assert_eq!(chain.value(), 1);
}

#[test]
fn lib_donate_expecting_no_funds() {
    let mut chain = Chain::new(vec![]);
    chain.instantiate("sender", 0, Coin::new(0, ATOM));
    chain.execute("sender", ExecMsg::Donate {}, &[]).unwrap();
    let resp = value(&chain.store).unwrap();
    assert_eq!(resp, ValueResp { value: 1 });
}

#[test]
fn tests_reset() {
    let mut chain = Chain::new(vec![]);
    chain.instantiate("sender", 0, Coin::new(10, ATOM));
    chain.execute("sender", ExecMsg::Reset { counter: 10 }, &[]).unwrap();
    assert_eq!(chain.value(), 10);
}

#[test]
fn lib_reset() {
    let mut chain = Chain::new(vec![]);
    chain.instantiate("sender", 0, Coin::new(10, ATOM));
    chain.execute("sender", ExecMsg::Reset { counter: 10 }, &[]).unwrap();
    let resp = value(&chain.store).unwrap();
    assert_eq!(resp, ValueResp { value: 10 });
}

#[test]
fn tests_withdraw() {
    let mut chain = Chain::new(vec![("sender", coins(10, ATOM))]);
    chain.instantiate("owner", 0, Coin::new(10, ATOM));
    chain.execute("sender", ExecMsg::Donate {}, &coins(10, ATOM)).unwrap();
    chain.execute("sender", ExecMsg::Donate {}, &[]).unwrap();
    chain.execute("owner", ExecMsg::Withdraw {}, &[]).unwrap();
    assert_eq!(chain.balance("owner"), coins(10, ATOM));
    assert_eq!(chain.balance("sender"), vec![]);
    assert_eq!(chain.balance(CONTRACT), vec![]);
}

#[test]
fn lib_withdraw() {
    let mut chain = Chain::new(vec![("sender", coins(10, ATOM))]);
    chain.instantiate("owner", 0, Coin::new(10, ATOM));
    chain.execute("sender", ExecMsg::Donate {}, &coins(10, ATOM)).unwrap();
    chain.execute("owner", ExecMsg::Withdraw {}, &[]).unwrap();
    assert_eq!(chain.balance("owner"), coins(10, ATOM));
    assert_eq!(chain.balance("sender"), vec![]);
    assert_eq!(chain.balance(CONTRACT), vec![]);
}

#[test]
fn tests_withdraw_to() {
    let mut chain = Chain::new(vec![("sender", coins(10, ATOM))]);
    chain.instantiate("owner", 0, Coin::new(10, ATOM));
    chain.execute("sender", ExecMsg::Donate {}, &coins(10, ATOM)).unwrap();
    let msg = ExecMsg::WithdrawTo { receiver: addr("receiver"), funds: coins(5, ATOM) };
    chain.execute("owner", msg, &[]).unwrap();
    assert_eq!(chain.balance("owner"), vec![]);
    assert_eq!(chain.balance("sender"), vec![]);
    assert_eq!(chain.balance("receiver"), coins(5, ATOM));
    assert_eq!(chain.balance(CONTRACT), coins(5, ATOM));
}

#[test]
fn lib_withdraw_to() {
    let mut chain = Chain::new(vec![("sender", coins(10, ATOM))]);
    chain.instantiate("owner", 0, Coin::new(10, ATOM));
    chain.execute("sender", ExecMsg::Donate {}, &coins(10, ATOM)).unwrap();
    let msg = ExecMsg::WithdrawTo { receiver: addr("receiver"), funds: coins(5, ATOM) };
    chain.execute("owner", msg, &[]).unwrap();
    assert_eq!(chain.balance("owner"), vec![]);
    assert_eq!(chain.balance("sender"), vec![]);
    assert_eq!(chain.balance("receiver"), coins(5, ATOM));
    assert_eq!(chain.balance(CONTRACT), coins(5, ATOM));
}

#[test]
fn tests_unauthorized_withdraw() {
    let mut chain = Chain::new(vec![]);
    chain.instantiate("owner", 0, Coin::new(10, ATOM));
    let err = chain.execute("member", ExecMsg::Withdraw {}, &[]).unwrap_err();
    assert_eq!(err, ContractError::Unauthorized { owner: addr("owner") });
}

#[test]
fn lib_unauthorized_withdraw() {
    let mut chain = Chain::new(vec![]);
    chain.instantiate("owner", 0, Coin::new(10, ATOM));
    let err = chain.execute("member", ExecMsg::Withdraw {}, &[]).unwrap_err();
    assert_eq!(ContractError::Unauthorized { owner: addr("owner") }, err);
}

#[test]
fn tests_unauthorized_withdraw_to() {
    let mut chain = Chain::new(vec![]);
    chain.instantiate("owner", 0, Coin::new(0, ATOM));
    let msg = ExecMsg::WithdrawTo { receiver: addr("owner"), funds: vec![] };
    let err = chain.execute("member", msg, &[]).unwrap_err();
    assert_eq!(err, ContractError::Unauthorized { owner: addr("owner") });
}

#[test]
fn lib_unauthorized_withdraw_to() {
    let mut chain = Chain::new(vec![]);
    chain.instantiate("owner", 0, Coin::new(0, ATOM));
    let msg = ExecMsg::WithdrawTo { receiver: addr("owner"), funds: vec![] };
    let err = chain.execute("member", msg, &[]).unwrap_err();
    assert_eq!(ContractError::Unauthorized { owner: addr("owner") }, err);
}

#[test]
fn tests_unauthorized_reset() {
    let mut chain = Chain::new(vec![]);
    chain.instantiate("owner", 0, Coin::new(0, ATOM));
    let err = chain.execute("member", ExecMsg::Reset { counter: 10 }, &[]).unwrap_err();
    assert_eq!(err, ContractError::Unauthorized { owner: addr("owner") });
}

#[test]
fn lib_unauthorized_reset() {
    let mut chain = Chain::new(vec![]);
    chain.instantiate("owner", 0, Coin::new(0, ATOM));
    let err = chain.execute("member", ExecMsg::Reset { counter: 10 }, &[]).unwrap_err();
    assert_eq!(ContractError::Unauthorized { owner: addr("owner") }, err);
}

/// A store as the first version of the contract left it: instantiated by
/// `owner` with a counter of zero and a minimal donation of 10 atom, then
/// one counted donation.
fn first_layout_store(owner: &str) -> Store {
    let mut store = Store::new();
    store.contract_version = Some(ContractVersion {
        contract: addr("counting-contract"),
        version: addr("0.1.0"),
    });
    store.counter = Some(1);
    store.minimal_donation = Some(Coin::new(10, ATOM));
    store.owner = Some(addr(owner));
    store
}

#[test]
fn migration() {
    let mut chain = Chain::new(vec![("sender", coins(10, ATOM))]);
    chain.store = first_layout_store("owner");
    chain.transfer("sender", CONTRACT, &coins(10, ATOM)).unwrap();
    migrate(&mut chain.store, MigrateMsg { parent: None }).unwrap();
    assert_eq!(value(&chain.store).unwrap(), ValueResp { value: 1 });
    let state = chain.store.state.as_ref().unwrap();
    assert_eq!(
        *state,
        State {
            counter: 1,
            minimal_donation: Coin::new(10, ATOM),
            owner: addr("owner"),
            donating_parent: None,
        }
    );
}

#[test]
fn migration_same_version() {
    let mut chain = Chain::new(vec![("sender", coins(10, ATOM))]);
    chain.instantiate("owner", 0, Coin::new(10, ATOM));
    chain.execute("sender", ExecMsg::Donate {}, &coins(10, ATOM)).unwrap();
    migrate(&mut chain.store, MigrateMsg { parent: None }).unwrap();
    assert_eq!(value(&chain.store).unwrap(), ValueResp { value: 1 });
    let state = chain.store.state.as_ref().unwrap();
    assert_eq!(
        *state,
        State {
            counter: 1,
            minimal_donation: Coin::new(10, ATOM),
            owner: addr("owner"),
            donating_parent: None,
        }
    );
}

#[test]
fn migration_from_composite_layout() {
    let mut store = Store::new();
    store.contract_version = Some(ContractVersion {
        contract: addr("counting-contract"),
        version: addr("0.2.0"),
    });
    store.old_state = Some(OldState {
        counter: 7,
        minimal_donation: Coin::new(3, ATOM),
        owner: addr("owner"),
    });
    migrate(&mut store, MigrateMsg { parent: None }).unwrap();
    assert_eq!(
        store.state,
        Some(State {
            counter: 7,
            minimal_donation: Coin::new(3, ATOM),
            owner: addr("owner"),
            donating_parent: None,
        })
    );
    let marker = store.contract_version.unwrap();
    assert_eq!(marker.contract, "counting-contract");
    assert_eq!(marker.version, "0.3.0");
}
