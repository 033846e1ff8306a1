//! Token prices and the cost of a call.
use vstd::prelude::*;

verus! {

/// The product where it fits in a `u64`, and `u64::MAX` where it does not.
fn saturating_product(x: u64, y: u64) -> (product: u64)
    ensures
        product == if x * y > u64::MAX {
            u64::MAX as int
        } else {
            x * y
        },
{
    match x.checked_mul(y) {
        Some(product) => product,
        None => u64::MAX,
    }
}

/// Per-call pricing in nano-cents per token.
#[derive(Clone, Copy, Debug)]
pub struct ProviderPricing {
    pub input_nc_per_token: u64,
    pub output_nc_per_token: u64,
}

impl ProviderPricing {
    /// What `input` prompt tokens and `output` completion tokens cost, in nano-cents.
    pub open spec fn exact_cost(self, input: nat, output: nat) -> nat {
        input * (self.input_nc_per_token as nat) + output * (self.output_nc_per_token as nat)
    }

    /// The cost as it is accounted for: the exact cost, or `u64::MAX` where the exact
    /// cost is larger than that.
    pub open spec fn capped_cost(self, input: nat, output: nat) -> u64 {
        if self.exact_cost(input, output) > u64::MAX {
            u64::MAX
        } else {
            self.exact_cost(input, output) as u64
        }
    }

    /// Computes the cost of a number of prompt and completion tokens. It saturates:
    /// a cost that no `u64` can hold counts as `u64::MAX`.
    pub fn cost(&self, input_tokens: u64, output_tokens: u64) -> (nano_cents: u64)
        ensures
            nano_cents == self.capped_cost(input_tokens as nat, output_tokens as nat),
            nano_cents == if input_tokens * self.input_nc_per_token + output_tokens
                * self.output_nc_per_token > u64::MAX {
                u64::MAX as int
            } else {
                input_tokens * self.input_nc_per_token + output_tokens * self.output_nc_per_token
            },
    {
        let input: u64 = saturating_product(input_tokens, self.input_nc_per_token);
        let output: u64 = saturating_product(output_tokens, self.output_nc_per_token);
        assert(input_tokens * self.input_nc_per_token >= 0) by (nonlinear_arith);
        assert(output_tokens * self.output_nc_per_token >= 0) by (nonlinear_arith);
        input.saturating_add(output)
    }

    /// gpt-4o-mini: $0.15 in / $0.60 out per M tokens.
    pub fn gpt_4o_mini() -> (pricing: Self)
        ensures
            pricing.input_nc_per_token == 150,
            pricing.output_nc_per_token == 600,
    {
        ProviderPricing { input_nc_per_token: 150, output_nc_per_token: 600 }
    }

    /// gpt-4o: $2.50 in / $10.00 out per M tokens.
    pub fn gpt_4o() -> (pricing: Self)
        ensures
            pricing.input_nc_per_token == 2_500,
            pricing.output_nc_per_token == 10_000,
    {
        ProviderPricing { input_nc_per_token: 2_500, output_nc_per_token: 10_000 }
    }

    /// Haiku 4.5: $1.00 in / $5.00 out per M tokens.
    pub fn claude_haiku_4_5() -> (pricing: Self)
        ensures
            pricing.input_nc_per_token == 1_000,
            pricing.output_nc_per_token == 5_000,
    {
        ProviderPricing { input_nc_per_token: 1_000, output_nc_per_token: 5_000 }
    }

    /// Sonnet 4.5: $3.00 in / $15.00 out per M tokens.
    pub fn claude_sonnet_4_5() -> (pricing: Self)
        ensures
            pricing.input_nc_per_token == 3_000,
            pricing.output_nc_per_token == 15_000,
    {
        ProviderPricing { input_nc_per_token: 3_000, output_nc_per_token: 15_000 }
    }
}

} // verus!
