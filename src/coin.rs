use vstd::prelude::*;

verus! {

/// One unit of a decimal fraction with 18 fractional digits: a fraction `p`
/// is held as the integer `p * DECIMAL_FRACTIONAL`.
pub const DECIMAL_FRACTIONAL: u128 = 1_000_000_000_000_000_000;

/// An amount of one denomination.
#[derive(Clone, Debug)]
pub struct Coin {
    pub denom: String,
    pub amount: u128,
}

impl PartialEq for Coin {
    fn eq(&self, o: &Coin) -> (r: bool) {
        self.amount == o.amount && self.denom == o.denom
    }
}

impl vstd::std_specs::cmp::PartialEqSpecImpl for Coin {
    open spec fn obeys_eq_spec() -> bool {
        true
    }

    open spec fn eq_spec(&self, o: &Coin) -> bool {
        self.amount == o.amount && self.denom@ == o.denom@
    }
}

impl Coin {
    /// A coin of `amount` units of `denom`.
    pub fn new(amount: u128, denom: &str) -> (r: Coin)
        ensures
            r.amount == amount,
            r.denom@ == denom@,
    {
        Coin { denom: String::from_str(denom), amount }
    }

    /// A copy of this coin.
    pub fn duplicate(&self) -> (r: Coin)
        ensures
            r == *self,
    {
        Coin { denom: self.denom.clone(), amount: self.amount }
    }
}

/// Whether `funds` holds a coin of `minimal`'s denomination with at least its
/// amount; a minimal amount of zero is met by any funds.
pub open spec fn meets_threshold(minimal: Coin, funds: Seq<Coin>) -> bool {
    minimal.amount == 0 || exists|i: int|
        0 <= i < funds.len() && #[trigger] funds[i].denom@ == minimal.denom@ && funds[i].amount
            >= minimal.amount
}

/// Decides whether the attached `funds` meet the minimal donation.
pub fn meets_minimal_donation(minimal: &Coin, funds: &Vec<Coin>) -> (r: bool)
    ensures
        r == meets_threshold(*minimal, funds@),
{
    if minimal.amount == 0 {
        return true;
    }
    let mut i: usize = 0;
    while i < funds.len()
        invariant
            i <= funds@.len(),
            minimal.amount != 0,
            forall|j: int|
                0 <= j < i ==> !(#[trigger] funds@[j].denom@ == minimal.denom@ && funds@[j].amount
                    >= minimal.amount),
        decreases funds@.len() - i,
    {
        if funds[i].denom == minimal.denom && funds[i].amount >= minimal.amount {
            return true;
        }
        i += 1;
    }
    false
}

/// The first amount that `limits` gives for `denom`, or zero where it names
/// no such denomination.
pub open spec fn limit_of(denom: Seq<char>, limits: Seq<Coin>) -> u128
    decreases limits.len(),
{
    if limits.len() == 0 {
        0
    } else if limits[0].denom@ == denom {
        limits[0].amount
    } else {
        limit_of(denom, limits.drop_first())
    }
}

/// The lesser of two amounts.
pub open spec fn min_amount(a: u128, b: u128) -> u128 {
    if a <= b {
        a
    } else {
        b
    }
}

/// `balance` with each amount capped by what `limits` allows for its
/// denomination; a denomination that `limits` does not name is capped at zero.
pub open spec fn clamped(balance: Seq<Coin>, limits: Seq<Coin>, r: Seq<Coin>) -> bool {
    &&& r.len() == balance.len()
    &&& forall|i: int|
        0 <= i < balance.len() ==> (#[trigger] r[i]).denom == balance[i].denom && r[i].amount
            == min_amount(balance[i].amount, limit_of(balance[i].denom@, limits))
}

/// Looks up the limit for `denom`: the amount of the first coin of that
/// denomination in `limits`, or zero.
pub fn find_limit(denom: &String, limits: &Vec<Coin>) -> (r: u128)
    ensures
        r == limit_of(denom@, limits@),
{
    let mut i: usize = 0;
    assert(limits@.skip(0) =~= limits@);
    while i < limits.len()
        invariant
            i <= limits@.len(),
            limit_of(denom@, limits@) == limit_of(denom@, limits@.skip(i as int)),
        decreases limits@.len() - i,
    {
        assert(limits@.skip(i as int).drop_first() =~= limits@.skip(i + 1));
        if limits[i].denom == *denom {
            return limits[i].amount;
        }
        i += 1;
    }
    0
}

/// Caps every coin of `balance` by its limit in `limits`.
pub fn clamp_to_limits(balance: &Vec<Coin>, limits: &Vec<Coin>) -> (r: Vec<Coin>)
    ensures
        clamped(balance@, limits@, r@),
{
    let mut r: Vec<Coin> = Vec::new();
    let mut i: usize = 0;
    while i < balance.len()
        invariant
            i <= balance@.len(),
            r@.len() == i,
            forall|j: int|
                0 <= j < i ==> (#[trigger] r@[j]).denom == balance@[j].denom && r@[j].amount
                    == min_amount(balance@[j].amount, limit_of(balance@[j].denom@, limits@)),
        decreases balance@.len() - i,
    {
        let limit = find_limit(&balance[i].denom, limits);
        let amount = if balance[i].amount <= limit {
            balance[i].amount
        } else {
            limit
        };
        r.push(Coin { denom: balance[i].denom.clone(), amount });
        i += 1;
    }
    r
}

/// How much of `denom` the coins of `coins` hold together.
pub open spec fn holding(coins: Seq<Coin>, denom: Seq<char>) -> int
    decreases coins.len(),
{
    if coins.len() == 0 {
        0
    } else {
        holding(coins.drop_last(), denom) + if coins.last().denom@ == denom {
            coins.last().amount as int
        } else {
            0
        }
    }
}

/// Capping by limits never yields more of a denomination than the balance
/// holds: limits bound what is taken and never add to it.
pub proof fn lemma_clamped_within_balance(
    balance: Seq<Coin>,
    limits: Seq<Coin>,
    r: Seq<Coin>,
    denom: Seq<char>,
)
    requires
        clamped(balance, limits, r),
    ensures
        holding(r, denom) <= holding(balance, denom),
    decreases balance.len(),
{
    if balance.len() > 0 {
        let n = balance.len() - 1;
        assert(r[n as int].denom == balance[n as int].denom);
        assert forall|i: int| 0 <= i < n implies (#[trigger] r.drop_last()[i]).denom
            == balance.drop_last()[i].denom && r.drop_last()[i].amount == min_amount(
            balance.drop_last()[i].amount,
            limit_of(balance.drop_last()[i].denom@, limits),
        ) by {
            assert(r[i].denom == balance[i].denom);
        }
        lemma_clamped_within_balance(balance.drop_last(), limits, r.drop_last(), denom);
    }
}

/// `amount` times the fraction `part` (in units of `1 / DECIMAL_FRACTIONAL`),
/// rounded down.
pub open spec fn scaled(amount: u128, part: u128) -> int {
    amount * part / (DECIMAL_FRACTIONAL as int)
}

/// Relies on cosmwasm_std's `Uint128 * Decimal`: the amount times the
/// fraction, rounded down (it panics where the result exceeds `u128::MAX`).
#[verifier::external_body]
fn mul_fraction(amount: u128, part: u128) -> (r: u128)
    requires
        scaled(amount, part) <= u128::MAX,
    ensures
        r == scaled(amount, part),
{
    (cosmwasm_std::Uint128::new(amount) * cosmwasm_std::Decimal::raw(part)).u128()
}

/// Whether every coin of `coins` can be scaled by `part` within `u128`.
pub open spec fn scaling_fits(coins: Seq<Coin>, part: u128) -> bool {
    forall|i: int| 0 <= i < coins.len() ==> scaled(#[trigger] coins[i].amount, part) <= u128::MAX
}

/// `r` is `coins` with each amount scaled by `part`.
pub open spec fn scaled_coins(coins: Seq<Coin>, part: u128, r: Seq<Coin>) -> bool {
    &&& r.len() == coins.len()
    &&& forall|i: int|
        0 <= i < coins.len() ==> (#[trigger] r[i]).denom == coins[i].denom && r[i].amount
            == scaled(coins[i].amount, part)
}

/// Scales every coin of `coins` by the fraction `part`.
pub fn scale_coins(coins: &Vec<Coin>, part: u128) -> (r: Vec<Coin>)
    requires
        scaling_fits(coins@, part),
    ensures
        scaled_coins(coins@, part, r@),
{
    let mut r: Vec<Coin> = Vec::new();
    let mut i: usize = 0;
    while i < coins.len()
        invariant
            i <= coins@.len(),
            scaling_fits(coins@, part),
            r@.len() == i,
            forall|j: int|
                0 <= j < i ==> (#[trigger] r@[j]).denom == coins@[j].denom && r@[j].amount
                    == scaled(coins@[j].amount, part),
        decreases coins@.len() - i,
    {
        let amount = mul_fraction(coins[i].amount, part);
        r.push(Coin { denom: coins[i].denom.clone(), amount });
        i += 1;
    }
    r
}

} // verus!
