//! The cost model: what each host operation is charged.
//!
//! Ten units of gas stand for about a nanosecond of work. A handler may
//! spend an hour's worth; the entries below are fractions of that budget.

use crate::combinators::Combine;
use crate::saturating::{clamp, lemma_clamp_absorbs, Gas};
use crate::size_of::GasSizeOf;
use vstd::prelude::*;

verus! {

/// The gas that stands for one second of work.
pub const GAS_PER_SECOND: u64 = 10_000_000_000;

/// The ceiling on the gas that one handler invocation may use.
pub const MAX_GAS_PER_HANDLER: u64 = 3600 * GAS_PER_SECOND;

/// The flat overhead charged on every host call, whatever its arguments.
pub const HOST_EXPORT_GAS: u64 = 10_000;

/// The base cost of a host call that has no entry of its own.
pub const DEFAULT_BASE_COST: u64 = 100_000;

/// The cost per unit of size of a host call that has no entry of its own.
pub const DEFAULT_GAS_PER_BYTE: u64 = 1_000;

/// The cost per unit of size of arbitrary-precision arithmetic, whose size
/// is already the product of its operands' sizes.
pub const BIG_MATH_GAS_PER_BYTE: u64 = 100;

/// Writing a line to the log: a handler may write a hundred thousand.
pub const LOG_BASE_COST: u64 = MAX_GAS_PER_HANDLER / 100_000;

/// Reading an entity from the store: a handler may read ten million.
pub const STORE_GET_BASE_COST: u64 = MAX_GAS_PER_HANDLER / 10_000_000;

/// Reading costs ten times the default for each unit of size.
pub const STORE_GET_GAS_PER_BYTE: u64 = 10 * DEFAULT_GAS_PER_BYTE;

/// Writing or removing an entity: a handler may write a quarter of a
/// million.
pub const STORE_SET_BASE_COST: u64 = MAX_GAS_PER_HANDLER / 250_000;

/// Writing costs a hundred times the default for each unit of size.
pub const STORE_SET_GAS_PER_BYTE: u64 = 100 * DEFAULT_GAS_PER_BYTE;

/// A call into a contract on the chain: a handler may make twenty-five
/// thousand.
pub const ETHEREUM_CALL_COST: u64 = MAX_GAS_PER_HANDLER / 25_000;

/// Creating a data source: a handler may create a hundred thousand.
pub const CREATE_DATA_SOURCE_COST: u64 = MAX_GAS_PER_HANDLER / 100_000;

/// The gas charged for each page by which the sandbox memory grows: what
/// touching each of the 65,536 bytes of a page costs by default.
pub const MEMORY_GROW_GAS_PER_PAGE: u32 = 65_536_000;

/// The cost formula of one host operation: a base cost, and a cost for each
/// unit of size of the arguments.
#[derive(Copy, Clone, PartialEq, Eq, Structural, Debug)]
pub struct GasOp {
    pub base_cost: u64,
    pub size_mult: u64,
}

impl GasOp {
    /// The charge for arguments of the given size:
    /// `base_cost + size_mult * size`, clamped.
    pub open spec fn cost(&self, size: u64) -> u64 {
        clamp(self.base_cost + self.size_mult * size) as u64
    }

    /// The charge for arguments whose joined size is already known.
    pub fn with_size(&self, size: Gas) -> (charge: Gas)
        ensures
            charge@ == self.cost(size@),
    {
        proof {
            assert(self.size_mult * size@ == size@ * self.size_mult) by (nonlinear_arith);
            assert(size@ * self.size_mult >= 0) by (nonlinear_arith)
                requires
                    size@ >= 0,
                    self.size_mult >= 0,
            ;
            lemma_clamp_absorbs(size@ * self.size_mult, self.base_cost as int);
        }
        Gas::from(self.base_cost) + size * self.size_mult
    }

    /// The charge for a call with the arguments `args`, whose sizes are
    /// joined in the way `c`.
    pub fn with_args<T, C>(&self, c: C, args: T) -> (charge: Gas) where Combine<T, C>: GasSizeOf
        ensures
            charge@ == self.cost(Combine(args, c).gas_size()),
    {
        self.with_size(Combine(args, c).gas_size_of())
    }
}

/// The host operations that have an entry in the cost table.
#[derive(Copy, Clone, PartialEq, Eq, Structural, Debug)]
pub enum HostOp {
    /// Conversions, hashing and every other call without an entry of its own.
    Default,
    /// Arithmetic on arbitrary-precision numbers.
    BigMath,
    /// Writing a line to the log.
    Log,
    /// Reading an entity from the store.
    StoreGet,
    /// Writing an entity to the store.
    StoreSet,
    /// Removing an entity from the store.
    StoreRemove,
    /// A call into a contract on the chain.
    EthereumCall,
    /// Creating a data source from a template.
    CreateDataSource,
}

impl HostOp {
    /// The entry of the cost table for this operation.
    pub open spec fn spec_gas_op(self) -> GasOp {
        match self {
            HostOp::Default => GasOp {
                base_cost: DEFAULT_BASE_COST,
                size_mult: DEFAULT_GAS_PER_BYTE,
            },
            HostOp::BigMath => GasOp {
                base_cost: DEFAULT_BASE_COST,
                size_mult: BIG_MATH_GAS_PER_BYTE,
            },
            HostOp::Log => GasOp { base_cost: LOG_BASE_COST, size_mult: DEFAULT_GAS_PER_BYTE },
            HostOp::StoreGet => GasOp {
                base_cost: STORE_GET_BASE_COST,
                size_mult: STORE_GET_GAS_PER_BYTE,
            },
            HostOp::StoreSet => GasOp {
                base_cost: STORE_SET_BASE_COST,
                size_mult: STORE_SET_GAS_PER_BYTE,
            },
            HostOp::StoreRemove => GasOp {
                base_cost: STORE_SET_BASE_COST,
                size_mult: DEFAULT_GAS_PER_BYTE,
            },
            HostOp::EthereumCall => GasOp { base_cost: ETHEREUM_CALL_COST, size_mult: 0 },
            HostOp::CreateDataSource => GasOp { base_cost: CREATE_DATA_SOURCE_COST, size_mult: 0 },
        }
    }

    /// The entry of the cost table for this operation.
    pub fn gas_op(self) -> (entry: GasOp)
        ensures
            entry == self.spec_gas_op(),
    {
        match self {
            HostOp::Default => GasOp {
                base_cost: DEFAULT_BASE_COST,
                size_mult: DEFAULT_GAS_PER_BYTE,
            },
            HostOp::BigMath => GasOp {
                base_cost: DEFAULT_BASE_COST,
                size_mult: BIG_MATH_GAS_PER_BYTE,
            },
            HostOp::Log => GasOp { base_cost: LOG_BASE_COST, size_mult: DEFAULT_GAS_PER_BYTE },
            HostOp::StoreGet => GasOp {
                base_cost: STORE_GET_BASE_COST,
                size_mult: STORE_GET_GAS_PER_BYTE,
            },
            HostOp::StoreSet => GasOp {
                base_cost: STORE_SET_BASE_COST,
                size_mult: STORE_SET_GAS_PER_BYTE,
            },
            HostOp::StoreRemove => GasOp {
                base_cost: STORE_SET_BASE_COST,
                size_mult: DEFAULT_GAS_PER_BYTE,
            },
            HostOp::EthereumCall => GasOp { base_cost: ETHEREUM_CALL_COST, size_mult: 0 },
            HostOp::CreateDataSource => GasOp { base_cost: CREATE_DATA_SOURCE_COST, size_mult: 0 },
        }
    }
}

/// The rule for growing the sandbox memory: the gas charged for each page,
/// or `None` where growing is free. The rule is applied when a module is
/// loaded, not through a counter.
pub fn memory_grow_cost() -> (per_page: Option<u32>)
    ensures
        per_page == Some(MEMORY_GROW_GAS_PER_PAGE),
        per_page matches Some(cost) ==> cost > 0,
{
    Some(MEMORY_GROW_GAS_PER_PAGE)
}

/// The gas charged for growing the sandbox memory by `pages` pages.
pub fn memory_grow_gas(pages: u32) -> (charge: Gas)
    ensures
        charge@ == MEMORY_GROW_GAS_PER_PAGE * pages,
{
    let per_page: u64 = MEMORY_GROW_GAS_PER_PAGE as u64;
    let count: u64 = pages as u64;
    assert(per_page * count <= u64::MAX) by (nonlinear_arith)
        requires
            per_page <= u32::MAX,
            count <= u32::MAX,
    ;
    Gas::from(per_page * count)
}

} // verus!
