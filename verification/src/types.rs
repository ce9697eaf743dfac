//! Plain data types of the solar-grid contract: identities, errors, plans and meters.
use vstd::prelude::*;

verus! {

/// Seconds a `Daily` payment keeps a meter powered.
pub const SECONDS_PER_DAY: u64 = 86_400;

/// Seconds a `Weekly` payment keeps a meter powered.
pub const SECONDS_PER_WEEK: u64 = 604_800;

/// Largest number of entries accepted by one batch usage report.
pub const MAX_BATCH_SIZE: usize = 50;

/// A ledger account or contract, identified by its strkey (`G...` / `C...`).
#[derive(Clone, Debug, PartialEq, Eq)]
pub struct Address {
    pub id: String,
}

impl View for Address {
    type V = Seq<char>;

    open spec fn view(&self) -> Seq<char> {
        self.id@
    }
}

impl Address {
    pub fn new(id: String) -> (r: Address)
        ensures
            r.id == id,
    {
        Address { id }
    }

    /// Two addresses denote the same party exactly when their strkeys agree.
    pub fn same_as(&self, other: &Address) -> (r: bool)
        ensures
            r == (self@ == other@),
    {
        self.id == other.id
    }

    pub fn duplicate(&self) -> (r: Address)
        ensures
            r == *self,
    {
        Address { id: self.id.clone() }
    }
}

/// A short textual identifier, used as the id of a meter.
#[derive(Clone, Debug, PartialEq, Eq)]
pub struct Symbol {
    pub name: String,
}

impl View for Symbol {
    type V = Seq<char>;

    open spec fn view(&self) -> Seq<char> {
        self.name@
    }
}

impl Symbol {
    pub fn new(name: String) -> (r: Symbol)
        ensures
            r.name == name,
    {
        Symbol { name }
    }

    pub fn same_as(&self, other: &Symbol) -> (r: bool)
        ensures
            r == (self@ == other@),
    {
        self.name == other.name
    }

    pub fn duplicate(&self) -> (r: Symbol)
        ensures
            r == *self,
    {
        Symbol { name: self.name.clone() }
    }
}

/// The errors a contract entry point can return.
#[derive(Clone, Copy, Debug, PartialEq, Eq, Structural)]
pub enum ContractError {
    NotInitialized,
    AlreadyInitialized,
    MeterNotFound,
    MeterAlreadyExists,
    Unauthorized,
    InvalidAmount,
    OwnerNotAllowlisted,
    OracleNotSet,
    InsufficientProviderRevenue,
    BatchTooLarge,
    CannotActivateWithoutBalance,
}

impl ContractError {
    /// The numeric code under which the error is reported on chain.
    pub open spec fn spec_code(self) -> u32 {
        match self {
            ContractError::NotInitialized => 1,
            ContractError::AlreadyInitialized => 2,
            ContractError::MeterNotFound => 3,
            ContractError::MeterAlreadyExists => 4,
            ContractError::Unauthorized => 5,
            ContractError::InvalidAmount => 6,
            ContractError::OwnerNotAllowlisted => 7,
            ContractError::OracleNotSet => 8,
            ContractError::InsufficientProviderRevenue => 9,
            ContractError::BatchTooLarge => 10,
            ContractError::CannotActivateWithoutBalance => 11,
        }
    }

    pub fn code(&self) -> (r: u32)
        ensures
            r == self.spec_code(),
    {
        match self {
            ContractError::NotInitialized => 1,
            ContractError::AlreadyInitialized => 2,
            ContractError::MeterNotFound => 3,
            ContractError::MeterAlreadyExists => 4,
            ContractError::Unauthorized => 5,
            ContractError::InvalidAmount => 6,
            ContractError::OwnerNotAllowlisted => 7,
            ContractError::OracleNotSet => 8,
            ContractError::InsufficientProviderRevenue => 9,
            ContractError::BatchTooLarge => 10,
            ContractError::CannotActivateWithoutBalance => 11,
        }
    }
}

/// The billing cycle chosen with a payment.
#[derive(Clone, Copy, Debug, PartialEq, Eq, Structural)]
pub enum PaymentPlan {
    Daily,
    Weekly,
    UsageBased,
}

/// The instant at which access bought at `now` under `plan` ends.
pub open spec fn plan_expiry(plan: PaymentPlan, now: u64) -> u64 {
    match plan {
        PaymentPlan::Daily => if now + SECONDS_PER_DAY <= u64::MAX {
            (now + SECONDS_PER_DAY) as u64
        } else {
            u64::MAX
        },
        PaymentPlan::Weekly => if now + SECONDS_PER_WEEK <= u64::MAX {
            (now + SECONDS_PER_WEEK) as u64
        } else {
            u64::MAX
        },
        PaymentPlan::UsageBased => u64::MAX,
    }
}

pub fn expiry_for(plan: PaymentPlan, now: u64) -> (r: u64)
    ensures
        r == plan_expiry(plan, now),
{
    match plan {
        PaymentPlan::Daily => now.saturating_add(SECONDS_PER_DAY),
        PaymentPlan::Weekly => now.saturating_add(SECONDS_PER_WEEK),
        PaymentPlan::UsageBased => u64::MAX,
    }
}

/// A smart meter record in its current (version 1) layout.
#[derive(Clone, Debug, PartialEq, Eq)]
pub struct Meter {
    /// Layout version of the record.
    pub version: u32,
    pub owner: Address,
    pub active: bool,
    /// Consumption in milli-kWh.
    pub units_used: u64,
    pub plan: PaymentPlan,
    /// Ledger time of the last payment.
    pub last_payment: u64,
    /// Ledger time at which paid access ends.
    pub expires_at: u64,
}

impl Meter {
    pub fn duplicate(&self) -> (r: Meter)
        ensures
            r == *self,
    {
        Meter {
            version: self.version,
            owner: self.owner.duplicate(),
            active: self.active,
            units_used: self.units_used,
            plan: self.plan,
            last_payment: self.last_payment,
            expires_at: self.expires_at,
        }
    }
}

/// A smart meter record in the original (version 0) layout, which kept its balance inline.
#[derive(Clone, Debug, PartialEq, Eq)]
pub struct LegacyMeter {
    pub owner: Address,
    pub active: bool,
    pub balance: i128,
    pub units_used: u64,
    pub plan: PaymentPlan,
    pub last_payment: u64,
    pub expires_at: u64,
}

impl LegacyMeter {
    pub fn duplicate(&self) -> (r: LegacyMeter)
        ensures
            r == *self,
    {
        LegacyMeter {
            owner: self.owner.duplicate(),
            active: self.active,
            balance: self.balance,
            units_used: self.units_used,
            plan: self.plan,
            last_payment: self.last_payment,
            expires_at: self.expires_at,
        }
    }
}

/// What the meter slot of the store holds: a current record or one still in the old layout.
#[derive(Clone, Debug, PartialEq, Eq)]
pub enum StoredMeter {
    Current(Meter),
    Legacy(LegacyMeter),
}

impl View for StoredMeter {
    type V = StoredMeter;

    open spec fn view(&self) -> StoredMeter {
        *self
    }
}

/// The version 1 record that a version 0 record becomes: every field is kept but the
/// inline balance, which the current layout tracks apart from the meter.
pub open spec fn migrated(old: LegacyMeter) -> Meter {
    Meter {
        version: 1,
        owner: old.owner,
        active: old.active,
        units_used: old.units_used,
        plan: old.plan,
        last_payment: old.last_payment,
        expires_at: old.expires_at,
    }
}

pub fn migrate_meter_v0(old: LegacyMeter) -> (m: Meter)
    ensures
        m == migrated(old),
{
    Meter {
        version: 1,
        owner: old.owner,
        active: old.active,
        units_used: old.units_used,
        plan: old.plan,
        last_payment: old.last_payment,
        expires_at: old.expires_at,
    }
}

} // verus!
