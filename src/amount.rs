use vstd::prelude::*;

verus! {

/// The node's amount type: a count of satoshis.
#[verifier::external_type_specification]
#[verifier::external_body]
pub struct ExAmount(bitcoin::Amount);

/// An amount in the node's representation, together with the count of
/// satoshis that it was made from. Only `from_sat` makes one.
pub struct SatAmount {
    amount: bitcoin::Amount,
    sats: Ghost<u64>,
}

impl View for SatAmount {
    type V = u64;

    closed spec fn view(&self) -> u64 {
        self.sats@
    }
}

/// Relies on `bitcoin::Amount::from_sat`, which stores the count of satoshis
/// exactly as given.
#[verifier::external_body]
fn amount_from_sat(n: u64) -> (r: SatAmount)
    ensures
        r@ == n,
{
    SatAmount { amount: bitcoin::Amount::from_sat(n), sats: Ghost(n) }
}

/// Relies on `bitcoin::Amount::to_sat`, which hands back the count of
/// satoshis that `bitcoin::Amount::from_sat` stored.
#[verifier::external_body]
fn amount_to_sat(a: &SatAmount) -> (r: u64)
    ensures
        r == a@,
{
    a.amount.to_sat()
}

impl SatAmount {
    /// The node's amount for `n` satoshis; no floating point is involved.
    pub fn from_sat(n: u64) -> (r: SatAmount)
        ensures
            r@ == n,
    {
        amount_from_sat(n)
    }

    /// The count of satoshis that this amount holds.
    pub fn to_sat(&self) -> (r: u64)
        ensures
            r == self@,
    {
        amount_to_sat(self)
    }

    /// The amount in the node's own type, for handing to the node.
    pub fn into_amount(self) -> bitcoin::Amount {
        self.amount
    }
}

} // verus!
