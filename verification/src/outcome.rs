//! What an entry point asks of its host: authorizations and token movements to carry out,
//! events to publish, and the value or error it returns.
use vstd::prelude::*;

use crate::types::{Address, ContractError, PaymentPlan, Symbol};

verus! {

/// Work that only the host can do, in the order the contract needs it done.
/// If any of it fails the whole invocation is aborted.
#[derive(Clone, Debug, PartialEq, Eq)]
pub enum HostCall {
    /// The given party must have authorized this invocation.
    RequireAuth(Address),
    /// Move `amount` of `token` from `from` into the contract's own account.
    Deposit { token: Address, from: Address, amount: i128 },
    /// Move `amount` of `token` from the contract's own account to `to`.
    Payout { token: Address, to: Address, amount: i128 },
}

/// Notifications published under the contract's namespace.
#[derive(Clone, Debug, PartialEq, Eq)]
pub enum Event {
    MeterRegistered { meter_id: Symbol, owner: Address },
    PaymentReceived { meter_id: Symbol, payer: Address, amount: i128, plan: PaymentPlan },
    MeterActivated { meter_id: Symbol },
    RevenueWithdrawn { provider: Address, token: Address, amount: i128 },
    UsageUpdated { meter_id: Symbol, units: u64, cost: i128 },
    MeterDeactivated { meter_id: Symbol },
    BatchSkip { meter_id: Symbol },
}

/// The namespace topic that follows the event name in every event.
pub open spec fn spec_event_namespace() -> Seq<char> {
    "solargrid"@
}

pub fn event_namespace() -> (r: &'static str)
    ensures
        r@ == spec_event_namespace(),
{
    "solargrid"
}

impl Event {
    /// The short name that is the first topic of the event.
    pub open spec fn spec_topic(&self) -> Seq<char> {
        match self {
            Event::MeterRegistered { .. } => "mtr_reg"@,
            Event::PaymentReceived { .. } => "pmt_rcvd"@,
            Event::MeterActivated { .. } => "mtr_actv"@,
            Event::RevenueWithdrawn { .. } => "rev_wdrl"@,
            Event::UsageUpdated { .. } => "usg_upd"@,
            Event::MeterDeactivated { .. } => "mtr_deact"@,
            Event::BatchSkip { .. } => "btch_skip"@,
        }
    }

    pub fn topic(&self) -> (r: &'static str)
        ensures
            r@ == self.spec_topic(),
    {
        match self {
            Event::MeterRegistered { .. } => "mtr_reg",
            Event::PaymentReceived { .. } => "pmt_rcvd",
            Event::MeterActivated { .. } => "mtr_actv",
            Event::RevenueWithdrawn { .. } => "rev_wdrl",
            Event::UsageUpdated { .. } => "usg_upd",
            Event::MeterDeactivated { .. } => "mtr_deact",
            Event::BatchSkip { .. } => "btch_skip",
        }
    }
}

/// The full answer of one entry point.
pub struct Invocation<T> {
    /// Host work, to be done in order before the result stands.
    pub calls: Vec<HostCall>,
    /// Events to publish; empty whenever `result` is an error.
    pub events: Vec<Event>,
    pub result: Result<T, ContractError>,
}

/// The result an entry point returns given the error it detects, if any.
pub open spec fn answer<T>(err: Option<ContractError>, value: T) -> Result<T, ContractError> {
    match err {
        Some(e) => Err(e),
        None => Ok(value),
    }
}

} // verus!
