//! Calls through the public interface: several calls on one budget, the pricing tiers,
//! exhaustion, and edge cases.
use rig_budget::{with_budget, Budget, BudgetedError, ByteLength, ProviderPricing};

/// 1B nano-cents = $10. Plenty for several test calls.
const CAP: u64 = 1_000_000_000;

/// Small CAP (5000 nano-cents = $0.00005) for testing exhaustion paths.
const TINY_CAP: u64 = 5_000;

#[test]
fn multi_call_threading_sums_actuals() {
    let budget = Budget::<CAP>::new(CAP).unwrap();

    // Reservation: 20 * 150 + 100 * 600 = 63,000 nc
    // Actual:      15 * 150 +  30 * 600 = 20,250 nc
    let (budget, _): (_, &str) = with_budget(
        budget,
        ProviderPricing::gpt_4o_mini(),
        &ByteLength,
        "12345678901234567890",
        100,
        || Ok::<(&str, u64, u64), std::io::Error>(("response-1", 15, 30)),
    )
    .expect("first call succeeds");

    assert_eq!(budget.micro_cents(), CAP - 20_250, "first call drained 20,250 nc");

    // Reservation: 30 * 2500 + 200 * 10000 = 2,075,000 nc
    // Actual:      25 * 2500 +  80 * 10000 =   862,500 nc
    let (budget, _): (_, &str) = with_budget(
        budget,
        ProviderPricing::gpt_4o(),
        &ByteLength,
        "123456789012345678901234567890",
        200,
        || Ok::<(&str, u64, u64), std::io::Error>(("response-2", 25, 80)),
    )
    .expect("second call succeeds");

    let expected = CAP - 20_250 - 862_500;
    assert_eq!(budget.micro_cents(), expected, "cumulative drain: {} nc", CAP - expected);

    // Reservation: 10 * 1000 + 50 * 5000 = 260,000 nc
    // Actual:       8 * 1000 + 20 * 5000 = 108,000 nc
    let (budget, _): (_, &str) = with_budget(
        budget,
        ProviderPricing::claude_haiku_4_5(),
        &ByteLength,
        "1234567890",
        50,
        || Ok::<(&str, u64, u64), std::io::Error>(("response-3", 8, 20)),
    )
    .expect("third call succeeds");

    let expected_final = CAP - 20_250 - 862_500 - 108_000;
    assert_eq!(budget.micro_cents(), expected_final);
}

#[test]
fn exact_actual_drains_full_reservation() {
    let budget = Budget::<CAP>::new(CAP).unwrap();

    // Reservation: 2 * 150 + 10 * 600 = 6,300 nc, and so is the actual cost.
    let (remaining, _): (_, ()) = with_budget(
        budget,
        ProviderPricing::gpt_4o_mini(),
        &ByteLength,
        "hi",
        10,
        || Ok::<((), u64, u64), std::io::Error>(((), 2, 10)),
    )
    .expect("call succeeds");

    assert_eq!(remaining.micro_cents(), CAP - 6_300, "exact draw, zero refund slack");
}

#[test]
fn all_four_pricing_tiers_apply_correctly() {
    let cases = [
        (ProviderPricing::gpt_4o_mini(), 150 + 600),
        (ProviderPricing::gpt_4o(), 2_500 + 10_000),
        (ProviderPricing::claude_haiku_4_5(), 1_000 + 5_000),
        (ProviderPricing::claude_sonnet_4_5(), 3_000 + 15_000),
    ];

    for (pricing, expected_total_cost) in cases.iter() {
        let budget = Budget::<CAP>::new(CAP).unwrap();
        let (remaining, _): (_, ()) = with_budget(budget, *pricing, &ByteLength, "a", 1, || {
            Ok::<((), u64, u64), std::io::Error>(((), 1, 1))
        })
        .expect("call should succeed for pricing tier");

        assert_eq!(
            remaining.micro_cents(),
            CAP - expected_total_cost,
            "pricing {:?} should have charged {} nc total",
            pricing,
            expected_total_cost
        );
    }
}

#[test]
fn small_budget_fails_at_reservation() {
    let budget = Budget::<TINY_CAP>::new(TINY_CAP).unwrap();

    // Reservation: 50 * 2500 + 1000 * 10000 = 10,125,000 nc
    let mut called = false;
    let result: Result<(Budget<TINY_CAP>, &str), _> = with_budget(
        budget,
        ProviderPricing::gpt_4o(),
        &ByteLength,
        "01234567890123456789012345678901234567890123456789",
        1000,
        || {
            called = true;
            Ok::<(&str, u64, u64), std::io::Error>(("should-not-execute", 0, 0))
        },
    );

    match result {
        Err(BudgetedError::ReservationFailed { required: 10_125_000 }) => {}
        Err(other) => panic!(
            "expected ReservationFailed with required=10,125,000, got: {}",
            other.message()
        ),
        Ok(_) => panic!("expected ReservationFailed, got Ok"),
    }
    assert!(!called);
}

#[test]
fn budget_drained_then_reservation_fails() {
    const SMALL_CAP: u64 = 1_000_000;
    let mut budget = Budget::<SMALL_CAP>::new(SMALL_CAP).unwrap();

    // Reservation: 10 * 1000 + 100 * 5000 = 510,000 nc
    // Actual:       8 * 1000 +  20 * 5000 = 108,000 nc
    let result = with_budget(
        budget,
        ProviderPricing::claude_haiku_4_5(),
        &ByteLength,
        "1234567890",
        100,
        || Ok::<(&str, u64, u64), std::io::Error>(("ok", 8, 20)),
    );
    let (b, _): (_, &str) = result.expect("first call succeeds");
    budget = b;
    assert_eq!(budget.micro_cents(), 892_000);

    let result = with_budget(
        budget,
        ProviderPricing::claude_haiku_4_5(),
        &ByteLength,
        "1234567890",
        100,
        || Ok::<(&str, u64, u64), std::io::Error>(("ok", 8, 20)),
    );
    let (b, _): (_, &str) = result.expect("second call succeeds");
    budget = b;
    assert_eq!(budget.micro_cents(), 784_000);

    // Reservation: 100 * 3000 + 200 * 15000 = 3,300,000 nc
    let big_prompt = "0123456789".repeat(10);
    let result = with_budget(
        budget,
        ProviderPricing::claude_sonnet_4_5(),
        &ByteLength,
        &big_prompt,
        200,
        || Ok::<(&str, u64, u64), std::io::Error>(("never reached", 0, 0)),
    );

    match result {
        Err(BudgetedError::ReservationFailed { required: 3_300_000 }) => {}
        other => panic!("expected ReservationFailed, got: {:?}", other.is_ok()),
    }
}

#[test]
fn zero_output_refunds_full_output_reservation() {
    let budget = Budget::<CAP>::new(CAP).unwrap();

    // Reservation: 5 * 150 + 100 * 600 = 60,750 nc
    // Actual: 5 * 150 = 750 nc
    let (remaining, _): (_, &str) = with_budget(
        budget,
        ProviderPricing::gpt_4o_mini(),
        &ByteLength,
        "12345",
        100,
        || Ok::<(&str, u64, u64), std::io::Error>(("", 5, 0)),
    )
    .expect("call succeeds");

    assert_eq!(remaining.micro_cents(), CAP - 750, "only input was charged");
}

#[test]
fn empty_prompt_zero_input_reservation() {
    let budget = Budget::<CAP>::new(CAP).unwrap();

    // Reservation: 50 * 600 = 30,000 nc
    // Actual: 10 * 600 = 6,000 nc
    let (remaining, _): (_, ()) = with_budget(
        budget,
        ProviderPricing::gpt_4o_mini(),
        &ByteLength,
        "",
        50,
        || Ok::<((), u64, u64), std::io::Error>(((), 0, 10)),
    )
    .expect("empty prompt is handled");

    assert_eq!(remaining.micro_cents(), CAP - 6_000);
}
