use graph_gas::combinators::{Linear, Max, Min, Product, Size};
use graph_gas::costs::{
    memory_grow_cost, memory_grow_gas, GasOp, HostOp, BIG_MATH_GAS_PER_BYTE, DEFAULT_BASE_COST,
    DEFAULT_GAS_PER_BYTE, GAS_PER_SECOND, HOST_EXPORT_GAS, MAX_GAS_PER_HANDLER,
    MEMORY_GROW_GAS_PER_PAGE,
};
use graph_gas::saturating::Gas;

#[test]
fn the_constants_of_the_cost_model() {
    assert_eq!(GAS_PER_SECOND, 10_000_000_000);
    assert_eq!(MAX_GAS_PER_HANDLER, 36_000_000_000_000);
    assert_eq!(HOST_EXPORT_GAS, 10_000);
    assert_eq!(DEFAULT_BASE_COST, 100_000);
    assert_eq!(DEFAULT_GAS_PER_BYTE, 1_000);
    assert_eq!(BIG_MATH_GAS_PER_BYTE, 100);
    assert_eq!(MEMORY_GROW_GAS_PER_PAGE, 65_536_000);
    assert!(HOST_EXPORT_GAS < MAX_GAS_PER_HANDLER);
}

#[test]
fn the_entries_of_the_cost_table() {
    assert_eq!(
        HostOp::Default.gas_op(),
        GasOp { base_cost: 100_000, size_mult: 1_000 }
    );
    assert_eq!(
        HostOp::BigMath.gas_op(),
        GasOp { base_cost: 100_000, size_mult: 100 }
    );
    assert_eq!(
        HostOp::Log.gas_op(),
        GasOp { base_cost: 360_000_000, size_mult: 1_000 }
    );
    assert_eq!(
        HostOp::StoreGet.gas_op(),
        GasOp { base_cost: 3_600_000, size_mult: 10_000 }
    );
    assert_eq!(
        HostOp::StoreSet.gas_op(),
        GasOp { base_cost: 144_000_000, size_mult: 100_000 }
    );
    assert_eq!(
        HostOp::StoreRemove.gas_op(),
        GasOp { base_cost: 144_000_000, size_mult: 1_000 }
    );
    assert_eq!(
        HostOp::EthereumCall.gas_op(),
        GasOp { base_cost: 1_440_000_000, size_mult: 0 }
    );
    assert_eq!(
        HostOp::CreateDataSource.gas_op(),
        GasOp { base_cost: 360_000_000, size_mult: 0 }
    );
}

#[test]
fn a_charge_is_the_base_cost_and_the_scaled_size() {
    let entry = GasOp { base_cost: 100, size_mult: 1 };
    assert_eq!(entry.with_size(Gas::from(50u64)).value(), 150);
    assert_eq!(entry.with_size(Gas::zero()).value(), 100);
    let steep = GasOp { base_cost: 7, size_mult: 1_000 };
    assert_eq!(steep.with_size(Gas::from(3u64)).value(), 3_007);
    let flat = GasOp { base_cost: 42, size_mult: 0 };
    assert_eq!(flat.with_size(Gas::max()).value(), 42);
    assert_eq!(HostOp::Default.gas_op().with_size(Gas::from(32u64)).value(), 132_000);
}

#[test]
fn a_charge_saturates() {
    let entry = GasOp { base_cost: 100, size_mult: 2 };
    assert_eq!(entry.with_size(Gas::max()).value(), u64::MAX);
    assert_eq!(entry.with_size(Gas::from(u64::MAX / 2)).value(), u64::MAX);
    assert_eq!(entry.with_size(Gas::from(u64::MAX / 2 - 50)).value(), u64::MAX - 1);
    let top = GasOp { base_cost: u64::MAX, size_mult: 0 };
    assert_eq!(top.with_size(Gas::from(9u64)).value(), u64::MAX);
}

#[test]
fn a_charge_for_one_argument() {
    let entry = GasOp { base_cost: 100, size_mult: 1 };
    let message = String::from("a message of exactly fifty bytes, to show a charge");
    assert_eq!(message.len(), 50);
    assert_eq!(entry.with_args(Size, &message).value(), 150);
    assert_eq!(entry.with_args(Size, message.as_str()).value(), 150);
    assert_eq!(entry.with_args(Size, 7u64).value(), 108);
}

#[test]
fn a_charge_for_several_arguments() {
    let entry = GasOp { base_cost: 10, size_mult: 3 };
    let key = "entity";
    let bytes: Vec<u8> = vec![0; 20];
    assert_eq!(entry.with_args(Linear, (key, &bytes)).value(), 10 + 3 * 26);
    assert_eq!(entry.with_args(Product, (key, &bytes)).value(), 10 + 3 * 120);
    assert_eq!(entry.with_args(Min, (key, &bytes)).value(), 10 + 3 * 6);
    assert_eq!(entry.with_args(Max, (key, &bytes)).value(), 10 + 3 * 20);
    assert_eq!(entry.with_args(Linear, (key, &bytes, true)).value(), 10 + 3 * 27);
    assert_eq!(entry.with_args(Product, (key, &bytes, 1u16)).value(), 10 + 3 * 240);
}

#[test]
fn growing_memory_is_charged_by_the_page() {
    assert_eq!(memory_grow_cost(), Some(65_536_000));
    assert_eq!(memory_grow_gas(0).value(), 0);
    assert_eq!(memory_grow_gas(1).value(), 65_536_000);
    assert_eq!(memory_grow_gas(3).value(), 196_608_000);
    assert_eq!(memory_grow_gas(u32::MAX).value(), 65_536_000 * (u32::MAX as u64));
}
