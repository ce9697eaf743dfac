//! Pay-as-you-go solar meter registry: the decisions of the contract as a verified state machine.
pub mod contract;
pub mod laws;
pub mod model;
pub mod outcome;
mod table;
pub mod types;

pub use contract::SolarGridContract;
pub use outcome::{Event, HostCall, Invocation};
pub use table::Table;
pub use types::{
    Address, ContractError, LegacyMeter, Meter, PaymentPlan, StoredMeter, Symbol,
};
