use rig_budget::{with_budget, Budget, BudgetedError, ByteLength, ProviderPricing};

const CAP: u64 = 1_000_000_000;

#[test]
fn happy_path_refunds_correctly() {
    let budget = Budget::<CAP>::new(CAP).unwrap();
    let pricing = ProviderPricing::gpt_4o_mini();
    // Reservation = 50 * 150 + 100 * 600 = 67,500 nc
    // Actual = 30 * 150 + 50 * 600 = 34,500 nc
    let prompt = "abcdefghijklmnopqrstuvwxyzabcdefghijklmnopqrstuvwx";
    let (remaining, resp): (_, &str) = with_budget(budget, pricing, &ByteLength, prompt, 100, || {
        Ok::<(&str, u64, u64), std::io::Error>(("mock response", 30, 50))
    })
    .unwrap();

    assert_eq!(remaining.micro_cents(), CAP - 34_500);
    assert_eq!(resp, "mock response");
}

#[test]
fn over_actual_returns_a1_violation() {
    let budget = Budget::<CAP>::new(CAP).unwrap();
    let pricing = ProviderPricing::gpt_4o_mini();
    // Reservation: 5 * 150 + 10 * 600 = 6,750
    // Actual: 100 * 150 + 200 * 600 = 135,000
    let result: Result<(Budget<CAP>, &str), _> =
        with_budget(budget, pricing, &ByteLength, "hello", 10, || {
            Ok::<(&str, u64, u64), std::io::Error>(("oops", 100, 200))
        });

    match result {
        Err(BudgetedError::A1Violation { reservation: 6750, actual: 135_000 }) => {}
        Err(other_err) => {
            panic!("expected A1Violation, got different error: {}", other_err.message())
        }
        Ok(_) => panic!("expected A1Violation, got Ok"),
    }
}

#[test]
fn provider_failure_forfeits_receipt() {
    let budget = Budget::<CAP>::new(CAP).unwrap();
    let pricing = ProviderPricing::gpt_4o_mini();

    let result: Result<(Budget<CAP>, &str), _> =
        with_budget(budget, pricing, &ByteLength, "test prompt", 64, || {
            Err::<(&str, u64, u64), _>(std::io::Error::new(
                std::io::ErrorKind::Other,
                "provider returned 500",
            ))
        });

    match result {
        Err(BudgetedError::CallFailed(cause)) => assert_eq!(cause, "provider returned 500"),
        _ => panic!("expected CallFailed"),
    }
}

#[test]
fn pricing_constants_sane() {
    assert!(
        ProviderPricing::gpt_4o().input_nc_per_token
            > ProviderPricing::gpt_4o_mini().input_nc_per_token
    );
    assert!(
        ProviderPricing::claude_sonnet_4_5().input_nc_per_token
            > ProviderPricing::claude_haiku_4_5().input_nc_per_token
    );
}
