//! Threading a budget through one provider call.
use crate::error::BudgetedError;
use crate::estimator::TokenEstimator;
use crate::ledger::Budget;
use crate::pricing::ProviderPricing;
use crate::protocol::Quote;
use std::fmt::Display;
use vstd::prelude::*;

verus! {

/// A call as it was asked for and answered: its prices, the tokens that it was estimated
/// to take, and the outcome of the provider call, or `None` where no call was made.
pub struct CallRecord<R, E> {
    pub pricing: ProviderPricing,
    pub estimated_input: u64,
    pub max_tokens: u32,
    pub outcome: Option<Result<(R, u64, u64), E>>,
}

impl<R, E: Display> CallRecord<R, E> {
    /// What is set aside for the call before it is made.
    pub open spec fn reservation(self) -> u64 {
        self.pricing.capped_cost(self.estimated_input as nat, self.max_tokens as nat)
    }

    /// The provider answered with a response that used this many prompt and completion
    /// tokens.
    pub open spec fn used(self, input_tokens: u64, output_tokens: u64) -> bool {
        &&& self.outcome matches Some(Ok((_, input, output)))
        &&& input == input_tokens
        &&& output == output_tokens
    }

    /// The cost of the usage that the provider reported, and nothing where it reported
    /// none.
    pub open spec fn actual(self) -> u64 {
        match self.outcome {
            Some(Ok((_, input_tokens, output_tokens))) => {
                self.pricing.capped_cost(input_tokens as nat, output_tokens as nat)
            },
            _ => 0,
        }
    }

    /// The same cost before it is capped.
    pub open spec fn exact_actual(self) -> nat {
        match self.outcome {
            Some(Ok((_, input_tokens, output_tokens))) => {
                self.pricing.exact_cost(input_tokens as nat, output_tokens as nat)
            },
            _ => 0,
        }
    }

    /// The call with its tokens and without what the provider said.
    pub open spec fn without_response(self) -> CallRecord<(), bool> {
        CallRecord {
            pricing: self.pricing,
            estimated_input: self.estimated_input,
            max_tokens: self.max_tokens,
            outcome: match self.outcome {
                None => None,
                Some(Ok((_, input_tokens, output_tokens))) => Some(
                    Ok(((), input_tokens, output_tokens)),
                ),
                Some(Err(_)) => Some(Err(false)),
            },
        }
    }

    /// What the call comes to on a budget that had `balance` before it.
    pub open spec fn results_in<const CAP: u64>(
        self,
        balance: nat,
        result: Result<(Budget<CAP>, R), BudgetedError>,
    ) -> bool {
        match self.outcome {
            None => {
                &&& self.reservation() > balance
                &&& result == Err::<(Budget<CAP>, R), _>(
                    BudgetedError::ReservationFailed { required: self.reservation() },
                )
            },
            Some(Ok((response, _, _))) => {
                &&& self.reservation() <= balance
                &&& if self.actual() > self.reservation() {
                    result == Err::<(Budget<CAP>, R), _>(
                        BudgetedError::A1Violation {
                            reservation: self.reservation(),
                            actual: self.actual(),
                        },
                    )
                } else {
                    &&& result matches Ok((remaining, returned))
                    &&& remaining@ == balance - self.actual()
                    &&& remaining.within_cap()
                    &&& returned == response
                }
            },
            Some(Err(error)) => {
                &&& self.reservation() <= balance
                &&& result matches Err(BudgetedError::CallFailed(cause))
                &&& vstd::string::to_string_from_display_ensures(&error, cause)
            },
        }
    }
}

/// Threads a budget through a single completion call.
///
/// `call` makes the provider call. It returns the response, the prompt tokens and the
/// completion tokens that the provider reported, or the provider's error.
///   1. `estimator` estimates the prompt tokens of `prompt`.
///   2. The cost of these and of `max_tokens` completion tokens is set aside.
///   3. `call` is made. It is not made where the budget is too small, and need not be
///      callable then.
///   4. The cost of the reported usage is held against what was set aside.
///   5. What was not used goes back to the budget, which is returned with the response.
///
/// Each error consumes the budget.
pub fn with_budget<const CAP: u64, R, F, E, T>(
    budget: Budget<CAP>,
    pricing: ProviderPricing,
    estimator: &T,
    prompt: &str,
    max_tokens: u32,
    call: F,
) -> (result: Result<(Budget<CAP>, R), BudgetedError>) where
    F: FnOnce() -> Result<(R, u64, u64), E>,
    E: Display,
    T: TokenEstimator + ?Sized,

    requires
        forall|estimated_input: u64|
            #![trigger call_ensures(T::estimate, (estimator, prompt), estimated_input)]
            call_ensures(T::estimate, (estimator, prompt), estimated_input)
                && pricing.capped_cost(estimated_input as nat, max_tokens as nat) <= budget@
                ==> call.requires(()),
    ensures
        exists|record: CallRecord<R, E>|
            {
                &&& record.pricing == pricing
                &&& call_ensures(T::estimate, (estimator, prompt), record.estimated_input)
                &&& record.max_tokens == max_tokens
                &&& record.outcome matches Some(outcome) ==> call.ensures((), outcome)
                &&& #[trigger] record.results_in(budget@, result)
            },
{
    proof {
        use_type_invariant(&budget);
    }
    let ghost balance = budget@;
    let estimated_input: u64 = estimator.estimate(prompt);
    let quote = Quote::new(pricing, estimated_input, max_tokens);
    let held = budget.spend_with_receipt(quote.reservation);
    match quote.reserved(held) {
        Err(error) => {
            let result = Err(error);
            proof {
                let record = CallRecord::<R, E> {
                    pricing,
                    estimated_input,
                    max_tokens,
                    outcome: None,
                };
                assert(record.results_in(balance, result));
            }
            result
        },
        Ok((in_flight, (after_reserve, receipt))) => {
            let outcome = call();
            let ghost record = CallRecord::<R, E> {
                pricing,
                estimated_input,
                max_tokens,
                outcome: Some(outcome),
            };
            let result = match in_flight.answered(outcome) {
                Err(error) => {
                    let _lost: u64 = receipt.forfeit();
                    Err(error)
                },
                Ok(charge) => {
                    let refunded = match receipt.confirm(charge.actual) {
                        Some(refund) => refund.apply_to(after_reserve),
                        None => None,
                    };
                    charge.refunded(refunded)
                },
            };
            assert(record.results_in(balance, result));
            result
        },
    }
}

} // verus!
