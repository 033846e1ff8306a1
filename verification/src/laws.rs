//! What holds of every budgeted call and of every sequence of them.
use crate::call::CallRecord;
use crate::error::BudgetedError;
use crate::ledger::Budget;
use crate::pricing::ProviderPricing;
use std::fmt::Display;
use vstd::prelude::*;

verus! {

/// The call was answered with a response on a budget that had `balance` before it, and
/// `remaining` came back.
pub open spec fn carries_on<const CAP: u64, R, E: Display>(
    call: CallRecord<R, E>,
    balance: nat,
    remaining: Budget<CAP>,
) -> bool {
    exists|response: R| #[trigger]
        call.results_in(balance, Ok::<_, BudgetedError>((remaining, response)))
}

/// One budget was threaded through `calls`, one after the other, and all of them were
/// answered: `budgets[i]` went into the call `i`, and `budgets[i + 1]` came back from it.
pub open spec fn threaded<const CAP: u64, R, E: Display>(
    budgets: Seq<Budget<CAP>>,
    calls: Seq<CallRecord<R, E>>,
) -> bool {
    &&& budgets.len() == calls.len() + 1
    &&& forall|i: int|
        #![trigger calls[i]]
        0 <= i < calls.len() ==> carries_on(calls[i], budgets[i]@, budgets[i + 1])
}

/// The cost of the usage that the provider reported over all of the calls.
pub open spec fn total_actual<R, E: Display>(calls: Seq<CallRecord<R, E>>) -> nat
    decreases calls.len(),
{
    if calls.len() == 0 {
        0
    } else {
        total_actual(calls.drop_last()) + calls.last().actual() as nat
    }
}

/// The same sum of costs that are not capped.
pub open spec fn total_exact<R, E: Display>(calls: Seq<CallRecord<R, E>>) -> nat
    decreases calls.len(),
{
    if calls.len() == 0 {
        0
    } else {
        total_exact(calls.drop_last()) + calls.last().exact_actual()
    }
}

/// Each way in which a call ends has one cause. The reservation fails exactly where it
/// is larger than the balance, and then no provider call is made. A violation of A1 is
/// reported exactly where the provider answered with a usage that costs more than was
/// reserved. The call fails exactly where the provider call does. A response comes back
/// exactly where the provider gave one within the reservation.
pub proof fn law_each_end_has_one_cause<const CAP: u64, R, E: Display>(
    call: CallRecord<R, E>,
    balance: nat,
    result: Result<(Budget<CAP>, R), BudgetedError>,
)
    requires
        call.results_in(balance, result),
    ensures
        call.outcome is None <==> call.reservation() > balance,
        result matches Err(BudgetedError::ReservationFailed { .. }) <==> call.reservation()
            > balance,
        result matches Err(BudgetedError::A1Violation { .. }) <==> (call.outcome matches Some(
            Ok(_),
        )) && call.actual() > call.reservation(),
        result matches Err(BudgetedError::CallFailed(_)) <==> call.outcome matches Some(Err(_)),
        result is Ok <==> (call.outcome matches Some(Ok(_))) && call.actual()
            <= call.reservation(),
{
}

/// A call that gives a response is charged the actual cost of its usage and nothing
/// else: what was set aside and not used is back in the budget, which has not grown and
/// stays under its cap. On a balance below `u64::MAX` that cost is never a capped one.
pub proof fn law_response_is_charged_its_actual_cost<const CAP: u64, R, E: Display>(
    call: CallRecord<R, E>,
    balance: nat,
    remaining: Budget<CAP>,
    response: R,
)
    requires
        call.results_in(balance, Ok::<_, BudgetedError>((remaining, response))),
    ensures
        call.actual() <= call.reservation() <= balance,
        remaining@ == (balance - call.reservation()) + (call.reservation() - call.actual()),
        remaining@ == balance - call.actual(),
        remaining.within_cap(),
        call.outcome matches Some(Ok((given, _, _))) && given == response,
        balance < u64::MAX ==> call.actual() == call.exact_actual(),
{
}

/// The refund of a call never fails: what was set aside always fits back.
pub proof fn law_refund_never_fails<const CAP: u64, R, E: Display>(
    call: CallRecord<R, E>,
    balance: nat,
    result: Result<(Budget<CAP>, R), BudgetedError>,
)
    requires
        call.results_in(balance, result),
    ensures
        !(result matches Err(BudgetedError::RefundFailed)),
{
}

/// A call whose usage costs exactly what was reserved gets nothing back: the budget is
/// smaller by the whole reservation.
pub proof fn law_exact_usage_drains_the_reservation<const CAP: u64, R, E: Display>(
    call: CallRecord<R, E>,
    balance: nat,
    result: Result<(Budget<CAP>, R), BudgetedError>,
)
    requires
        call.results_in(balance, result),
        call.outcome matches Some(Ok(_)),
        call.actual() == call.reservation(),
    ensures
        result matches Ok((remaining, _)) && remaining@ == balance - call.reservation(),
{
}

/// More tokens never cost less, so that a tighter estimate never reserves more.
pub proof fn law_cost_grows_with_tokens(
    pricing: ProviderPricing,
    input: nat,
    more_input: nat,
    output: nat,
    more_output: nat,
)
    requires
        input <= more_input,
        output <= more_output,
    ensures
        pricing.exact_cost(input, output) <= pricing.exact_cost(more_input, more_output),
        pricing.capped_cost(input, output) <= pricing.capped_cost(more_input, more_output),
{
    let input_price = pricing.input_nc_per_token as nat;
    let output_price = pricing.output_nc_per_token as nat;
    assert(input * input_price <= more_input * input_price) by (nonlinear_arith)
        requires
            input <= more_input,
    ;
    assert(output * output_price <= more_output * output_price) by (nonlinear_arith)
        requires
            output <= more_output,
    ;
}

/// A response without any completion tokens is charged for its prompt tokens alone, and
/// always gets through where the prompt took no more tokens than estimated. All that was
/// reserved for the completion goes back, with what was reserved for prompt tokens and
/// not used; this last is of costs that the accounting can hold.
pub proof fn law_unused_output_is_refunded<const CAP: u64, R, E: Display>(
    call: CallRecord<R, E>,
    input_tokens: u64,
    balance: nat,
    result: Result<(Budget<CAP>, R), BudgetedError>,
)
    requires
        call.results_in(balance, result),
        call.used(input_tokens, 0),
    ensures
        input_tokens <= call.estimated_input ==> result is Ok,
        result matches Ok((remaining, _)) ==> remaining@ == balance - call.actual(),
        call.exact_actual() == input_tokens * call.pricing.input_nc_per_token,
        call.exact_actual() <= u64::MAX ==> call.actual() == call.exact_actual(),
        call.exact_actual() <= u64::MAX && call.pricing.exact_cost(
            call.estimated_input as nat,
            call.max_tokens as nat,
        ) <= u64::MAX ==> call.reservation() - call.actual() == (call.estimated_input
            - input_tokens) * call.pricing.input_nc_per_token + call.max_tokens
            * call.pricing.output_nc_per_token,
{
    let input_price = call.pricing.input_nc_per_token as nat;
    let output_price = call.pricing.output_nc_per_token as nat;
    if input_tokens <= call.estimated_input {
        law_cost_grows_with_tokens(
            call.pricing,
            input_tokens as nat,
            call.estimated_input as nat,
            0,
            call.max_tokens as nat,
        );
    }
    assert(0 * output_price == 0) by (nonlinear_arith);
    assert((call.estimated_input - input_tokens) * input_price == call.estimated_input * input_price
        - input_tokens * input_price) by (nonlinear_arith);
}

/// A1 holds of every call whose usage stays within the estimate and `max_tokens`: such
/// a call is answered with its response. Where A1 is violated, the estimate was too low,
/// or more completion tokens were produced than `max_tokens`.
pub proof fn law_sound_estimate_is_not_violated<const CAP: u64, R, E: Display>(
    call: CallRecord<R, E>,
    input_tokens: u64,
    output_tokens: u64,
    balance: nat,
    result: Result<(Budget<CAP>, R), BudgetedError>,
)
    requires
        call.results_in(balance, result),
        call.used(input_tokens, output_tokens),
    ensures
        input_tokens <= call.estimated_input && output_tokens <= call.max_tokens ==> result is Ok,
        result matches Err(BudgetedError::A1Violation { .. }) ==> input_tokens
            > call.estimated_input || output_tokens > call.max_tokens,
{
    if input_tokens <= call.estimated_input && output_tokens <= call.max_tokens {
        law_cost_grows_with_tokens(
            call.pricing,
            input_tokens as nat,
            call.estimated_input as nat,
            output_tokens as nat,
            call.max_tokens as nat,
        );
    }
}

/// What a call is charged depends on the cost of the reported usage alone. Whatever the
/// estimates of two calls, their limits on the completion and their responses: where both
/// are let through on the same balance and their usage costs the same, they leave the same
/// balance.
pub proof fn law_charge_ignores_the_estimate<
    const CAP: u64,
    R,
    E: Display,
    const OTHER_CAP: u64,
    S,
    F: Display,
>(
    call: CallRecord<R, E>,
    other: CallRecord<S, F>,
    balance: nat,
    remaining: Budget<CAP>,
    other_remaining: Budget<OTHER_CAP>,
)
    requires
        other.actual() == call.actual(),
        carries_on(call, balance, remaining),
        carries_on(other, balance, other_remaining),
    ensures
        remaining@ == other_remaining@,
        remaining@ == balance - call.actual(),
{
}

/// An empty prompt has no bytes, so that the byte-length estimate of it is zero, and
/// what is reserved for it is the completion alone.
pub proof fn law_empty_prompt_reserves_output_only(
    pricing: ProviderPricing,
    prompt: Seq<char>,
    max_tokens: u32,
)
    requires
        prompt.len() == 0,
    ensures
        vstd::utf8::encode_utf8(prompt).len() == 0,
        pricing.exact_cost(vstd::utf8::encode_utf8(prompt).len(), max_tokens as nat) == max_tokens
            * pricing.output_nc_per_token,
        pricing.capped_cost(vstd::utf8::encode_utf8(prompt).len(), max_tokens as nat) == (
        if max_tokens * pricing.output_nc_per_token > u64::MAX {
            u64::MAX as int
        } else {
            max_tokens * pricing.output_nc_per_token
        }),
{
    assert(0 * (pricing.input_nc_per_token as nat) == 0) by (nonlinear_arith);
}

/// What a call does to a budget does not depend on the types of its response and of its
/// error, so that calls of different types can be threaded one after the other.
pub proof fn law_threading_forgets_the_response<const CAP: u64, R, E: Display>(
    call: CallRecord<R, E>,
    balance: nat,
    remaining: Budget<CAP>,
)
    requires
        carries_on(call, balance, remaining),
    ensures
        carries_on(call.without_response(), balance, remaining),
        call.without_response().actual() == call.actual(),
        call.without_response().exact_actual() == call.exact_actual(),
{
    assert(call.without_response().results_in(balance, Ok::<_, BudgetedError>((remaining, ()))));
}

/// A budget that was threaded through any number of calls has lost exactly the sum of
/// their actual costs.
pub proof fn law_threaded_calls_sum_their_actuals<const CAP: u64, R, E: Display>(
    budgets: Seq<Budget<CAP>>,
    calls: Seq<CallRecord<R, E>>,
)
    requires
        threaded(budgets, calls),
    ensures
        budgets.last()@ == budgets[0]@ - total_actual(calls),
    decreases calls.len(),
{
    if calls.len() > 0 {
        let earlier_budgets = budgets.drop_last();
        let earlier = calls.drop_last();
        assert forall|i: int| #![trigger earlier[i]] 0 <= i < earlier.len() implies carries_on(
            earlier[i],
            earlier_budgets[i]@,
            earlier_budgets[i + 1],
        ) by {
            assert(earlier[i] == calls[i]);
        }
        law_threaded_calls_sum_their_actuals(earlier_budgets, earlier);
        assert(carries_on(calls.last(), earlier_budgets.last()@, budgets.last()));
    }
}

/// Where the cost of each call fits in a `u64`, a budget that was threaded through any
/// number of calls has lost exactly the sum of tokens times prices.
pub proof fn law_threaded_calls_sum_their_exact_costs<const CAP: u64, R, E: Display>(
    budgets: Seq<Budget<CAP>>,
    calls: Seq<CallRecord<R, E>>,
)
    requires
        threaded(budgets, calls),
        forall|i: int|
            #![trigger calls[i]]
            0 <= i < calls.len() ==> calls[i].exact_actual() <= u64::MAX,
    ensures
        budgets.last()@ == budgets[0]@ - total_exact(calls),
{
    law_threaded_calls_sum_their_actuals(budgets, calls);
    lemma_totals_agree(calls);
}

proof fn lemma_totals_agree<R, E: Display>(calls: Seq<CallRecord<R, E>>)
    requires
        forall|i: int|
            #![trigger calls[i]]
            0 <= i < calls.len() ==> calls[i].exact_actual() <= u64::MAX,
    ensures
        total_exact(calls) == total_actual(calls),
    decreases calls.len(),
{
    if calls.len() > 0 {
        let earlier = calls.drop_last();
        assert forall|i: int| #![trigger earlier[i]] 0 <= i < earlier.len() implies earlier[i].exact_actual()
            <= u64::MAX by {
            assert(earlier[i] == calls[i]);
        }
        lemma_totals_agree(earlier);
        assert(calls[calls.len() - 1].exact_actual() <= u64::MAX);
    }
}

/// The cap holds over all calls together: however often a budget is threaded through
/// calls, they never cost more than the budget had at the start, nor more than the cap.
pub proof fn law_total_stays_under_the_cap<const CAP: u64, R, E: Display>(
    budgets: Seq<Budget<CAP>>,
    calls: Seq<CallRecord<R, E>>,
)
    requires
        threaded(budgets, calls),
        budgets[0].within_cap(),
    ensures
        total_actual(calls) <= budgets[0]@ <= CAP,
        budgets.last().within_cap(),
{
    law_threaded_calls_sum_their_actuals(budgets, calls);
}

/// A budget is exhausted in the end: where each call costs at least `least`, no more
/// calls are answered than the budget can pay for.
pub proof fn law_budget_is_exhausted_eventually<const CAP: u64, R, E: Display>(
    budgets: Seq<Budget<CAP>>,
    calls: Seq<CallRecord<R, E>>,
    least: nat,
)
    requires
        threaded(budgets, calls),
        forall|i: int| 0 <= i < calls.len() ==> (#[trigger] calls[i]).actual() >= least,
    ensures
        calls.len() * least <= budgets[0]@,
{
    law_threaded_calls_sum_their_actuals(budgets, calls);
    lemma_total_is_at_least(calls, least);
}

proof fn lemma_total_is_at_least<R, E: Display>(calls: Seq<CallRecord<R, E>>, least: nat)
    requires
        forall|i: int| 0 <= i < calls.len() ==> (#[trigger] calls[i]).actual() >= least,
    ensures
        total_actual(calls) >= calls.len() * least,
    decreases calls.len(),
{
    if calls.len() > 0 {
        let earlier = calls.drop_last();
        assert forall|i: int| 0 <= i < earlier.len() implies (#[trigger] earlier[i]).actual()
            >= least by {
            assert(earlier[i] == calls[i]);
        }
        lemma_total_is_at_least(earlier, least);
        assert(calls.len() * least == earlier.len() * least + least) by (nonlinear_arith)
            requires
                calls.len() == earlier.len() + 1,
        ;
    } else {
        assert(calls.len() * least == 0) by (nonlinear_arith)
            requires
                calls.len() == 0,
        ;
    }
}

/// A cost is prompt tokens times the prompt price plus completion tokens times the
/// completion price. It is accounted for as it is where it fits in a `u64`, and as
/// `u64::MAX` where it does not.
pub proof fn law_cost_is_tokens_times_prices(pricing: ProviderPricing, input: nat, output: nat)
    ensures
        pricing.exact_cost(input, output) == input * pricing.input_nc_per_token + output
            * pricing.output_nc_per_token,
        input * pricing.input_nc_per_token + output * pricing.output_nc_per_token <= u64::MAX
            ==> pricing.capped_cost(input, output) == input * pricing.input_nc_per_token + output
            * pricing.output_nc_per_token,
        input * pricing.input_nc_per_token + output * pricing.output_nc_per_token > u64::MAX
            ==> pricing.capped_cost(input, output) == u64::MAX,
{
}

/// No tokens cost nothing. One more prompt token costs one prompt price more, and one
/// more completion token one completion price more, until the cost reaches `u64::MAX`,
/// where it stays.
pub proof fn law_each_token_adds_its_price(pricing: ProviderPricing, input: nat, output: nat)
    ensures
        pricing.capped_cost(0, 0) == 0,
        pricing.capped_cost(input + 1, output) == if pricing.capped_cost(input, output)
            + pricing.input_nc_per_token > u64::MAX {
            u64::MAX as int
        } else {
            pricing.capped_cost(input, output) + pricing.input_nc_per_token
        },
        pricing.capped_cost(input, output + 1) == if pricing.capped_cost(input, output)
            + pricing.output_nc_per_token > u64::MAX {
            u64::MAX as int
        } else {
            pricing.capped_cost(input, output) + pricing.output_nc_per_token
        },
        pricing.exact_cost(0, 0) == 0,
        pricing.exact_cost(input + 1, output) == pricing.exact_cost(input, output)
            + pricing.input_nc_per_token,
        pricing.exact_cost(input, output + 1) == pricing.exact_cost(input, output)
            + pricing.output_nc_per_token,
{
    let input_price = pricing.input_nc_per_token as nat;
    let output_price = pricing.output_nc_per_token as nat;
    assert((input + 1) * input_price == input * input_price + input_price) by (nonlinear_arith);
    assert((output + 1) * output_price == output * output_price + output_price)
        by (nonlinear_arith);
    assert(0 * input_price == 0 && 0 * output_price == 0) by (nonlinear_arith);
}

/// The provider is called exactly where the estimated prompt tokens and `max_tokens`
/// completion tokens, each times its price and together at most `u64::MAX`, cost no more
/// than the balance. Where they cost more, the reservation fails with just that amount.
pub proof fn law_call_is_made_where_the_reservation_fits<const CAP: u64, R, E: Display>(
    call: CallRecord<R, E>,
    balance: nat,
    result: Result<(Budget<CAP>, R), BudgetedError>,
)
    requires
        call.results_in(balance, result),
    ensures
        ({
            let required = call.estimated_input * call.pricing.input_nc_per_token + call.max_tokens
                * call.pricing.output_nc_per_token;
            let reserved = if required > u64::MAX {
                u64::MAX as int
            } else {
                required
            };
            &&& call.outcome is Some <==> reserved <= balance
            &&& reserved > balance ==> result == Err::<(Budget<CAP>, R), _>(
                BudgetedError::ReservationFailed { required: reserved as u64 },
            )
            &&& reserved <= balance ==> !(result matches Err(
                BudgetedError::ReservationFailed { .. },
            ))
            &&& call.reservation() == reserved
        }),
{
}

/// What is reserved is settled before the call is made: two calls at the same prices,
/// with the same estimate and the same limit, reserve the same, whatever came of them, and
/// both are made or neither is.
pub proof fn law_reservation_ignores_the_outcome<
    const CAP: u64,
    R,
    E: Display,
    const OTHER_CAP: u64,
    S,
    F: Display,
>(
    call: CallRecord<R, E>,
    other: CallRecord<S, F>,
    balance: nat,
    result: Result<(Budget<CAP>, R), BudgetedError>,
    other_result: Result<(Budget<OTHER_CAP>, S), BudgetedError>,
)
    requires
        other.pricing == call.pricing,
        other.estimated_input == call.estimated_input,
        other.max_tokens == call.max_tokens,
        call.results_in(balance, result),
        other.results_in(balance, other_result),
    ensures
        other.reservation() == call.reservation(),
        other.outcome is Some <==> call.outcome is Some,
{
}

/// Where the provider reported a usage, A1 is violated exactly where the reported tokens
/// times their prices come to more than the estimated prompt tokens and `max_tokens` times
/// theirs, each sum being at most `u64::MAX`. The two amounts are those of the error.
pub proof fn law_violation_is_usage_over_the_reservation<const CAP: u64, R, E: Display>(
    call: CallRecord<R, E>,
    response: R,
    input_tokens: u64,
    output_tokens: u64,
    balance: nat,
    result: Result<(Budget<CAP>, R), BudgetedError>,
)
    requires
        call.outcome == Some(Ok::<_, E>((response, input_tokens, output_tokens))),
        call.results_in(balance, result),
    ensures
        ({
            let required = call.estimated_input * call.pricing.input_nc_per_token + call.max_tokens
                * call.pricing.output_nc_per_token;
            let reserved = if required > u64::MAX {
                u64::MAX as int
            } else {
                required
            };
            let used = input_tokens * call.pricing.input_nc_per_token + output_tokens
                * call.pricing.output_nc_per_token;
            let spent = if used > u64::MAX {
                u64::MAX as int
            } else {
                used
            };
            &&& spent > reserved ==> result == Err::<(Budget<CAP>, R), _>(
                BudgetedError::A1Violation { reservation: reserved as u64, actual: spent as u64 },
            )
            &&& spent <= reserved ==> result is Ok
        }),
{
}

/// A call whose reported usage costs no more than was reserved leaves the balance less the
/// reported prompt tokens times the prompt price and the reported completion tokens times
/// the completion price (at most `u64::MAX`), and gives the provider's response.
pub proof fn law_charge_is_reported_tokens_times_prices<const CAP: u64, R, E: Display>(
    call: CallRecord<R, E>,
    response: R,
    input_tokens: u64,
    output_tokens: u64,
    balance: nat,
    result: Result<(Budget<CAP>, R), BudgetedError>,
)
    requires
        call.outcome == Some(Ok::<_, E>((response, input_tokens, output_tokens))),
        call.results_in(balance, result),
    ensures
        ({
            let required = call.estimated_input * call.pricing.input_nc_per_token + call.max_tokens
                * call.pricing.output_nc_per_token;
            let used = input_tokens * call.pricing.input_nc_per_token + output_tokens
                * call.pricing.output_nc_per_token;
            &&& used <= required && used <= u64::MAX ==> {
                &&& result matches Ok((remaining, returned))
                &&& remaining@ == balance - used
                &&& remaining@ <= CAP
                &&& returned == response
            }
            &&& used > u64::MAX && required >= u64::MAX ==> {
                &&& result matches Ok((remaining, returned))
                &&& remaining@ == balance - u64::MAX
                &&& remaining@ <= CAP
                &&& returned == response
            }
            &&& used > required && required < u64::MAX ==> result is Err
            &&& call.actual() == if used > u64::MAX {
                u64::MAX as int
            } else {
                used
            }
            &&& call.exact_actual() == used
        }),
{
}

/// A provider call that failed is reported as that, with the text of its error.
pub proof fn law_failed_call_is_reported<const CAP: u64, R, E: Display>(
    call: CallRecord<R, E>,
    error: E,
    balance: nat,
    result: Result<(Budget<CAP>, R), BudgetedError>,
)
    requires
        call.outcome == Some(Err::<(R, u64, u64), E>(error)),
        call.results_in(balance, result),
    ensures
        result matches Err(BudgetedError::CallFailed(cause))
            && vstd::string::to_string_from_display_ensures(&error, cause),
{
}

/// Two calls at the same prices for which the provider reported the same tokens, and which
/// both give a response, take the same amount from their balances, whatever was estimated
/// for them and whatever their limits.
pub proof fn law_same_usage_is_charged_the_same<
    const CAP: u64,
    R,
    E: Display,
    const OTHER_CAP: u64,
    S,
    F: Display,
>(
    call: CallRecord<R, E>,
    other: CallRecord<S, F>,
    response: R,
    other_response: S,
    input_tokens: u64,
    output_tokens: u64,
    balance: nat,
    other_balance: nat,
    remaining: Budget<CAP>,
    other_remaining: Budget<OTHER_CAP>,
)
    requires
        other.pricing == call.pricing,
        call.outcome == Some(Ok::<_, E>((response, input_tokens, output_tokens))),
        other.outcome == Some(Ok::<_, F>((other_response, input_tokens, output_tokens))),
        call.results_in(balance, Ok::<_, BudgetedError>((remaining, response))),
        other.results_in(other_balance, Ok::<_, BudgetedError>((other_remaining, other_response))),
    ensures
        balance - remaining@ == other_balance - other_remaining@,
        balance == other_balance ==> remaining@ == other_remaining@,
{
}

} // verus!
