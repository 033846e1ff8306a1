//! The money of a caller: a balance under a cap, the receipts for amounts set aside,
//! and the refunds of what was set aside and not used.
//!
//! The three types can be neither copied nor cloned. Each operation consumes the value
//! it works on, so no amount can be spent twice.
use vstd::prelude::*;

verus! {

/// A balance in nano-cents that never exceeds `CAP`.
#[derive(Debug)]
pub struct Budget<const CAP: u64> {
    balance: u64,
}

/// An amount in nano-cents that was taken from a budget until its use is known.
#[derive(Debug)]
pub struct Receipt<const CAP: u64> {
    reserved: u64,
}

/// The unused part, in nano-cents, of an amount that was set aside.
#[derive(Debug)]
pub struct Refund<const CAP: u64> {
    amount: u64,
}

impl<const CAP: u64> View for Budget<CAP> {
    type V = nat;

    closed spec fn view(&self) -> nat {
        self.balance as nat
    }
}

impl<const CAP: u64> View for Receipt<CAP> {
    type V = nat;

    closed spec fn view(&self) -> nat {
        self.reserved as nat
    }
}

impl<const CAP: u64> View for Refund<CAP> {
    type V = nat;

    closed spec fn view(&self) -> nat {
        self.amount as nat
    }
}

impl<const CAP: u64> Budget<CAP> {
    /// The balance stays under the cap.
    #[verifier::type_invariant]
    pub open spec fn within_cap(self) -> bool {
        self@ <= CAP
    }

    /// A budget of `nano_cents`, or `None` where that is more than the cap.
    pub fn new(nano_cents: u64) -> (budget: Option<Self>)
        ensures
            match budget {
                Some(budget) => nano_cents <= CAP && budget@ == nano_cents,
                None => nano_cents > CAP,
            },
    {
        if nano_cents <= CAP {
            Some(Budget { balance: nano_cents })
        } else {
            None
        }
    }

    /// The balance in nano-cents.
    pub fn micro_cents(&self) -> (nano_cents: u64)
        ensures
            nano_cents == self@,
            nano_cents <= CAP,
    {
        proof {
            use_type_invariant(self);
        }
        self.balance
    }

    /// Sets `amount` aside: what is left of the balance, and the receipt for `amount`.
    /// `None` where the balance is smaller than that.
    pub fn spend_with_receipt(self, amount: u64) -> (reserved: Option<(Self, Receipt<CAP>)>)
        ensures
            match reserved {
                Some((rest, receipt)) => {
                    &&& amount <= self@
                    &&& rest@ == self@ - amount
                    &&& receipt@ == amount
                },
                None => amount > self@,
            },
    {
        proof {
            use_type_invariant(&self);
        }
        if amount <= self.balance {
            Some((Budget { balance: self.balance - amount }, Receipt { reserved: amount }))
        } else {
            None
        }
    }
}

impl<const CAP: u64> Receipt<CAP> {
    /// Keeps `actual` of the amount that was set aside and gives back the rest.
    /// `None` where `actual` is more than was set aside.
    pub fn confirm(self, actual: u64) -> (refund: Option<Refund<CAP>>)
        ensures
            match refund {
                Some(refund) => actual <= self@ && refund@ == self@ - actual,
                None => actual > self@,
            },
    {
        if actual <= self.reserved {
            Some(Refund { amount: self.reserved - actual })
        } else {
            None
        }
    }

    /// Gives up the whole amount that was set aside. Returns how much that was.
    pub fn forfeit(self) -> (lost: u64)
        ensures
            lost == self@,
    {
        self.reserved
    }
}

impl<const CAP: u64> Refund<CAP> {
    /// Adds the refund to a budget. `None` where that would exceed the cap.
    pub fn apply_to(self, budget: Budget<CAP>) -> (refunded: Option<Budget<CAP>>)
        ensures
            match refunded {
                Some(refunded) => {
                    &&& budget@ + self@ <= CAP
                    &&& refunded@ == budget@ + self@
                },
                None => budget@ + self@ > CAP,
            },
    {
        proof {
            use_type_invariant(&budget);
        }
        if self.amount <= CAP - budget.balance {
            Some(Budget { balance: budget.balance + self.amount })
        } else {
            None
        }
    }
}

} // verus!
