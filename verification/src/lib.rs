//! Deterministic gas metering for sandboxed handler invocations.
//!
//! Gas is an abstract unit of work. Every host call is priced by a cost
//! formula over the structural size of its arguments and charged against a
//! counter that belongs to one handler invocation. All arithmetic saturates,
//! so the same call sequence yields the same totals on every machine.
//!
//! Beside the metering stand the rules by which the management commands
//! find a deployment: see `deployment`.

pub mod combinators;
pub mod costs;
pub mod counter;
pub mod deployment;
pub mod saturating;
pub mod size_of;

pub use combinators::{Combine, GasCombinator};
pub use costs::{GasOp, HostOp};
pub use counter::{DeterministicHostError, GasCounter};
pub use saturating::Gas;
pub use size_of::{ConstGasSizeOf, GasSizeOf};
