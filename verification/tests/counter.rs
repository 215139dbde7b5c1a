use graph_gas::costs::{GasOp, HOST_EXPORT_GAS, MAX_GAS_PER_HANDLER};
use graph_gas::counter::{decimal_text, raise, settle, DeterministicHostError, GasCounter};
use graph_gas::saturating::Gas;

fn limits(overhead: u64, ceiling: u64) -> GasCounter {
    GasCounter::with_limits(Gas::from(overhead), Gas::from(ceiling))
}

#[test]
fn a_new_counter_is_at_zero() {
    assert_eq!(GasCounter::new().get(), Gas::zero());
    assert_eq!(limits(10, 1000).get().value(), 0);
}

#[test]
fn one_charge_adds_the_cost_and_the_overhead() {
    let entry = GasOp { base_cost: 100, size_mult: 1 };
    let cost = entry.with_size(Gas::from(50u64));
    assert_eq!(cost.value(), 150);
    let counter = limits(10, 1_000_000);
    assert_eq!(counter.consume_host_fn(cost), Ok(()));
    assert_eq!(counter.get().value(), 160);
}

#[test]
fn the_charge_that_reaches_the_ceiling_fails_with_the_new_total() {
    let counter = limits(10, 1000);
    assert_eq!(counter.consume_host_fn(Gas::from(300u64)), Ok(()));
    assert_eq!(counter.get().value(), 310);
    assert_eq!(counter.consume_host_fn(Gas::from(300u64)), Ok(()));
    assert_eq!(counter.get().value(), 620);
    assert_eq!(counter.consume_host_fn(Gas::from(300u64)), Ok(()));
    assert_eq!(counter.get().value(), 930);
    assert_eq!(
        counter.consume_host_fn(Gas::from(100u64)),
        Err(DeterministicHostError::GasLimitExceeded { used: Gas::from(1040u64) })
    );
    assert_eq!(counter.get().value(), 1040);
}

#[test]
fn a_total_equal_to_the_ceiling_fails() {
    let counter = limits(10, 1000);
    assert_eq!(counter.consume_host_fn(Gas::from(979u64)), Ok(()));
    assert_eq!(counter.get().value(), 989);
    let outcome = counter.consume_host_fn(Gas::from(1u64));
    assert_eq!(
        outcome,
        Err(DeterministicHostError::GasLimitExceeded { used: Gas::from(1000u64) })
    );
}

#[test]
fn an_exhausted_counter_rejects_a_charge_of_nothing() {
    let counter = limits(0, 100);
    assert!(counter.consume_host_fn(Gas::from(100u64)).is_err());
    let before = counter.get();
    let outcome = counter.consume_host_fn(Gas::zero());
    assert_eq!(
        outcome,
        Err(DeterministicHostError::GasLimitExceeded { used: Gas::from(100u64) })
    );
    assert!(counter.get() >= before);
    let with_overhead = limits(10, 100);
    assert!(with_overhead.consume_host_fn(Gas::from(95u64)).is_err());
    assert_eq!(
        with_overhead.consume_host_fn(Gas::zero()),
        Err(DeterministicHostError::GasLimitExceeded { used: Gas::from(115u64) })
    );
}

#[test]
fn the_total_never_decreases() {
    let counter = limits(3, 10_000);
    let mut last = counter.get();
    let mut expected = 0u64;
    for amount in [0u64, 5, 0, 1000, 17, 9000, 0, 4] {
        let outcome = counter.consume_host_fn(Gas::from(amount));
        expected += amount + 3;
        assert_eq!(counter.get().value(), expected);
        assert!(counter.get() >= last);
        assert_eq!(outcome.is_err(), expected >= 10_000);
        last = counter.get();
    }
}

#[test]
fn the_total_saturates() {
    let counter = limits(10, u64::MAX);
    assert_eq!(counter.consume_host_fn(Gas::from(u64::MAX - 20)), Ok(()));
    assert_eq!(counter.get().value(), u64::MAX - 10);
    assert_eq!(
        counter.consume_host_fn(Gas::from(u64::MAX)),
        Err(DeterministicHostError::GasLimitExceeded { used: Gas::max() })
    );
    assert_eq!(counter.get(), Gas::max());
    assert_eq!(
        counter.consume_host_fn(Gas::from(1u64)),
        Err(DeterministicHostError::GasLimitExceeded { used: Gas::max() })
    );
}

#[test]
fn clones_charge_one_total() {
    let counter = limits(10, 1000);
    let frame = counter.clone();
    assert_eq!(frame.consume_host_fn(Gas::from(300u64)), Ok(()));
    assert_eq!(counter.get().value(), 310);
    assert_eq!(counter.consume_host_fn(Gas::from(300u64)), Ok(()));
    assert_eq!(frame.get().value(), 620);
    let inner = frame.clone();
    assert_eq!(
        inner.consume_host_fn(Gas::from(500u64)),
        Err(DeterministicHostError::GasLimitExceeded { used: Gas::from(1130u64) })
    );
    assert_eq!(counter.get().value(), 1130);
}

#[test]
fn two_charges_lose_nothing_in_either_order() {
    for (first, second) in [(400u64, 600u64), (600, 400)] {
        let counter = limits(10, 1000);
        let other = counter.clone();
        assert_eq!(counter.consume_host_fn(Gas::from(first)), Ok(()));
        assert_eq!(
            other.consume_host_fn(Gas::from(second)),
            Err(DeterministicHostError::GasLimitExceeded { used: Gas::from(1020u64) })
        );
        assert_eq!(counter.get().value(), 1020);
    }
}

#[test]
fn separate_counters_do_not_share() {
    let one = limits(10, 1000);
    let other = limits(10, 1000);
    assert_eq!(one.consume_host_fn(Gas::from(500u64)), Ok(()));
    assert_eq!(other.get().value(), 0);
    assert_eq!(other.consume_host_fn(Gas::from(500u64)), Ok(()));
    assert_eq!(one.get().value(), 510);
}

#[test]
fn the_default_limits_are_those_of_the_cost_model() {
    let counter = GasCounter::new();
    assert_eq!(counter.consume_host_fn(Gas::from(5u64)), Ok(()));
    assert_eq!(counter.get().value(), 5 + HOST_EXPORT_GAS);
    let rest = MAX_GAS_PER_HANDLER - 2 * HOST_EXPORT_GAS - 5;
    assert_eq!(
        counter.consume_host_fn(Gas::from(rest)),
        Err(DeterministicHostError::GasLimitExceeded { used: Gas::from(MAX_GAS_PER_HANDLER) })
    );
    let fresh = GasCounter::new();
    assert_eq!(fresh.consume_host_fn(Gas::from(rest + HOST_EXPORT_GAS + 4)), Ok(()));
    assert_eq!(fresh.get().value(), MAX_GAS_PER_HANDLER - 1);
}

#[test]
fn settle_decides_from_the_total_found() {
    let ten = Gas::from(10u64);
    let ceiling = Gas::from(1000u64);
    assert_eq!(settle(Gas::zero(), Gas::from(150u64), ten, ceiling), Ok(()));
    assert_eq!(settle(Gas::from(620u64), Gas::from(300u64), ten, ceiling), Ok(()));
    assert_eq!(settle(Gas::from(930u64), Gas::from(59u64), ten, ceiling), Ok(()));
    assert_eq!(
        settle(Gas::from(930u64), Gas::from(60u64), ten, ceiling),
        Err(DeterministicHostError::GasLimitExceeded { used: Gas::from(1000u64) })
    );
    assert_eq!(
        settle(Gas::from(930u64), Gas::from(100u64), ten, ceiling),
        Err(DeterministicHostError::GasLimitExceeded { used: Gas::from(1040u64) })
    );
    assert_eq!(
        settle(Gas::max(), Gas::max(), Gas::max(), Gas::max()),
        Err(DeterministicHostError::GasLimitExceeded { used: Gas::max() })
    );
    assert_eq!(
        settle(Gas::zero(), Gas::zero(), Gas::zero(), Gas::zero()),
        Err(DeterministicHostError::GasLimitExceeded { used: Gas::zero() })
    );
}

#[test]
fn raise_stores_the_clamped_sum() {
    assert_eq!(raise(0, Gas::from(160u64)), Some(160));
    assert_eq!(raise(930, Gas::from(110u64)), Some(1040));
    assert_eq!(raise(u64::MAX - 1, Gas::from(5u64)), Some(u64::MAX));
    assert_eq!(raise(7, Gas::zero()), Some(7));
}

#[test]
fn the_failure_reports_the_total_used() {
    let error = DeterministicHostError::GasLimitExceeded { used: Gas::from(1040u64) };
    assert_eq!(error.used().value(), 1040);
    assert_eq!(error.message(), "Gas limit exceeded. Used: 1040");
    let none = DeterministicHostError::GasLimitExceeded { used: Gas::zero() };
    assert_eq!(none.message(), "Gas limit exceeded. Used: 0");
    let all = DeterministicHostError::GasLimitExceeded { used: Gas::max() };
    assert_eq!(all.message(), format!("Gas limit exceeded. Used: {}", u64::MAX));
}

#[test]
fn numbers_are_written_in_decimal() {
    for n in [0u64, 7, 9, 10, 11, 99, 100, 101, 1040, 36_000_000_000_000, u64::MAX] {
        assert_eq!(decimal_text(n), format!("{}", n));
    }
}
