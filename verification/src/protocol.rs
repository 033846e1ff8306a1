//! The decisions of a budgeted call, one value for each stage that it is in.
//!
//! A call goes through the stages [`Quote`], [`InFlight`] and [`Charge`]. Between two
//! stages somebody else acts: the budget sets the quoted amount aside, the provider
//! answers, the budget takes back what was not used. What came of that is handed to the
//! stage, which says how the call goes on. No stage can be copied, so no stage is left
//! twice.
use crate::error::BudgetedError;
use crate::pricing::ProviderPricing;
use std::fmt::Display;
use vstd::prelude::*;

verus! {

/// A call that has been priced: `reservation` is to be set aside before it is made.
#[derive(Debug)]
pub struct Quote {
    pub pricing: ProviderPricing,
    pub reservation: u64,
}

/// A call whose reservation has been set aside: the provider is to be called.
#[derive(Debug)]
pub struct InFlight {
    pub pricing: ProviderPricing,
    pub reservation: u64,
}

/// A call that the provider has answered within its reservation: `actual` is to be
/// kept of the reservation, and the rest is to be given back.
#[derive(Debug)]
pub struct Charge<R> {
    pub response: R,
    pub actual: u64,
}

impl Quote {
    /// Prices a call: the estimated prompt tokens, and as many completion tokens as the
    /// provider may produce.
    pub fn new(pricing: ProviderPricing, estimated_input: u64, max_tokens: u32) -> (quote: Self)
        ensures
            quote.pricing == pricing,
            quote.reservation == pricing.capped_cost(estimated_input as nat, max_tokens as nat),
    {
        Quote { pricing, reservation: pricing.cost(estimated_input, max_tokens as u64) }
    }

    /// Goes on with what the budget set aside, if it could.
    pub fn reserved<H>(self, held: Option<H>) -> (next: Result<(InFlight, H), BudgetedError>)
        ensures
            match held {
                Some(held) => {
                    &&& next matches Ok((in_flight, kept))
                    &&& in_flight.pricing == self.pricing
                    &&& in_flight.reservation == self.reservation
                    &&& kept == held
                },
                None => next == Err::<(InFlight, H), _>(
                    BudgetedError::ReservationFailed { required: self.reservation },
                ),
            },
    {
        match held {
            Some(held) => Ok(
                (InFlight { pricing: self.pricing, reservation: self.reservation }, held),
            ),
            None => Err(BudgetedError::ReservationFailed { required: self.reservation }),
        }
    }
}

impl InFlight {
    /// Goes on with what the provider answered: the response with the prompt and the
    /// completion tokens that it used, or an error. After an error of this stage the
    /// reservation is forfeited.
    pub fn answered<R, E: Display>(self, outcome: Result<(R, u64, u64), E>) -> (next: Result<
        Charge<R>,
        BudgetedError,
    >)
        ensures
            match outcome {
                Ok((response, input_tokens, output_tokens)) => {
                    let actual = self.pricing.capped_cost(
                        input_tokens as nat,
                        output_tokens as nat,
                    );
                    if actual > self.reservation {
                        next == Err::<Charge<R>, _>(
                            BudgetedError::A1Violation { reservation: self.reservation, actual },
                        )
                    } else {
                        next == Ok::<_, BudgetedError>(Charge { response, actual })
                    }
                },
                Err(error) => {
                    &&& next matches Err(BudgetedError::CallFailed(cause))
                    &&& vstd::string::to_string_from_display_ensures(&error, cause)
                },
            },
    {
        match outcome {
            Ok((response, input_tokens, output_tokens)) => {
                let actual: u64 = self.pricing.cost(input_tokens, output_tokens);
                if actual > self.reservation {
                    Err(BudgetedError::A1Violation { reservation: self.reservation, actual })
                } else {
                    Ok(Charge { response, actual })
                }
            },
            Err(error) => Err(BudgetedError::CallFailed(error.to_string())),
        }
    }
}

impl<R> Charge<R> {
    /// Ends the call with the budget after the refund, if the refund could be made.
    pub fn refunded<B>(self, refunded: Option<B>) -> (end: Result<(B, R), BudgetedError>)
        ensures
            match refunded {
                Some(budget) => end == Ok::<_, BudgetedError>((budget, self.response)),
                None => end == Err::<(B, R), _>(BudgetedError::RefundFailed),
            },
    {
        match refunded {
            Some(budget) => Ok((budget, self.response)),
            None => Err(BudgetedError::RefundFailed),
        }
    }
}

} // verus!
