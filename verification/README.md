# rig_budget

Threads a spending budget through calls of a language-model provider. The cost of a call
is estimated and set aside before the call is made. The usage that the provider reports
is then held against what was set aside, and the rest goes back to the budget.

- `src/` is the verified library.
  - `pricing`: prices per token, and what a number of tokens costs.
  - `estimator`: estimating the tokens of a prompt.
  - `ledger`: a balance under a cap, with receipts and refunds that are used once.
  - `protocol`: the decisions of a call, one type for each stage that it is in. They do
    not depend on how a budget is kept, nor on how the provider is called.
  - `call`: `with_budget`, a call on a budget of `ledger`.
  - `error`: the errors and their texts.
  - `laws`: what holds of every call, and of a budget that goes through many calls.
- `app/` runs the same stages on the budgets of the `token_budgets` crate, for provider
  clients that are asynchronous: `lib.rs` offers this to callers, and `main.rs` is a worked
  example that runs one mock call. That crate has to be added to the dependencies.
- `tests/` runs the library on concrete calls.

Amounts are in nano-cents.
